use vstd::prelude::*;

verus! {

/// The failures of the staking program that it reports with its own code.
#[derive(Debug, Clone, Copy, PartialEq, Eq, Structural)]
pub enum StakeError {
    NotEnoughLP,
    NotInit,
    InvalidToken,
    TokenWhitelistNotOwner,
    InvalidProof,
    StakingDay,
    NoStakeAnyMore,
    NoCliamRewardNft,
    NoRewardNft,
    NoEnoughSol,
}

/// The numeric code of each error: its position in the declaration.
pub open spec fn error_code(e: StakeError) -> u32 {
    match e {
        StakeError::NotEnoughLP => 0,
        StakeError::NotInit => 1,
        StakeError::InvalidToken => 2,
        StakeError::TokenWhitelistNotOwner => 3,
        StakeError::InvalidProof => 4,
        StakeError::StakingDay => 5,
        StakeError::NoStakeAnyMore => 6,
        StakeError::NoCliamRewardNft => 7,
        StakeError::NoRewardNft => 8,
        StakeError::NoEnoughSol => 9,
    }
}

/// The message reported with each error.
pub open spec fn error_message(e: StakeError) -> Seq<char> {
    match e {
        StakeError::NotEnoughLP => "Not enough LP token amount"@,
        StakeError::NotInit => "Whitelist Account is not initialized"@,
        StakeError::InvalidToken => "NFT address is not whitelisted"@,
        StakeError::TokenWhitelistNotOwner => "Signer Not Token Whitelist Owner"@,
        StakeError::InvalidProof => "Invalid Merkle proof."@,
        StakeError::StakingDay => "Staking day should be 7 days"@,
        StakeError::NoStakeAnyMore => "You can't stake NFT any more"@,
        StakeError::NoCliamRewardNft => "You must wait more days to claim reward"@,
        StakeError::NoRewardNft => "You don't have reward NFT"@,
        StakeError::NoEnoughSol => "You must pay the 0.05 SOL for stake or unstake"@,
    }
}

impl StakeError {
    /// The custom program error code carried by this error.
    pub fn code(&self) -> (r: u32)
        ensures
            r == error_code(*self),
    {
        match self {
            StakeError::NotEnoughLP => 0,
            StakeError::NotInit => 1,
            StakeError::InvalidToken => 2,
            StakeError::TokenWhitelistNotOwner => 3,
            StakeError::InvalidProof => 4,
            StakeError::StakingDay => 5,
            StakeError::NoStakeAnyMore => 6,
            StakeError::NoCliamRewardNft => 7,
            StakeError::NoRewardNft => 8,
            StakeError::NoEnoughSol => 9,
        }
    }

    /// The human-readable message of this error.
    pub fn message(&self) -> (r: &'static str)
        ensures
            r@ == error_message(*self),
    {
        let r = match self {
            StakeError::NotEnoughLP => "Not enough LP token amount",
            StakeError::NotInit => "Whitelist Account is not initialized",
            StakeError::InvalidToken => "NFT address is not whitelisted",
            StakeError::TokenWhitelistNotOwner => "Signer Not Token Whitelist Owner",
            StakeError::InvalidProof => "Invalid Merkle proof.",
            StakeError::StakingDay => "Staking day should be 7 days",
            StakeError::NoStakeAnyMore => "You can't stake NFT any more",
            StakeError::NoCliamRewardNft => "You must wait more days to claim reward",
            StakeError::NoRewardNft => "You don't have reward NFT",
            StakeError::NoEnoughSol => "You must pay the 0.05 SOL for stake or unstake",
        };
        proof {
            reveal_strlit("Not enough LP token amount");
            reveal_strlit("Whitelist Account is not initialized");
            reveal_strlit("NFT address is not whitelisted");
            reveal_strlit("Signer Not Token Whitelist Owner");
            reveal_strlit("Invalid Merkle proof.");
            reveal_strlit("Staking day should be 7 days");
            reveal_strlit("You can't stake NFT any more");
            reveal_strlit("You must wait more days to claim reward");
            reveal_strlit("You don't have reward NFT");
            reveal_strlit("You must pay the 0.05 SOL for stake or unstake");
        }
        r
    }

    /// The name under which this family of errors is reported.
    pub fn type_of() -> (r: &'static str)
        ensures
            r@ == "Token Sale Error"@,
    {
        proof {
            reveal_strlit("Token Sale Error");
        }
        "Token Sale Error"
    }
}

/// Why an operation of the staking program was refused.
#[derive(Debug, Clone, Copy, PartialEq, Eq, Structural)]
pub enum OpError {
    /// The caller did not sign, or is not the identity the operation requires.
    MissingAuthorization,
    /// The stake record belongs to another owner than the caller.
    OwnerMismatch,
    /// The asset of the record has already left custody.
    AlreadyUnstaked,
    /// An amount does not fit the 64-bit range it is stored in.
    ArithmeticOverflow,
    /// A failure with its own program error code.
    Stake(StakeError),
}

} // verus!
