//! The persisted records, the campaign parameters and the accounts each operation reads.
use vstd::prelude::*;

verus! {

/// Last moment (Unix seconds) at which staking is open in the launch campaign.
pub const STOP_STAKE_DATE: i64 = 1645203600;

/// Fee, in lamports, charged by every state-changing operation of the launch campaign.
pub const STAKE_FEE: u64 = 50000000;

/// Reward units accrued per whole staked day in the launch campaign.
pub const SPL_TOKENS_PER_DAY: u64 = 10_000_000;

/// Per-(asset, owner) staking state.
#[derive(Debug, Clone, Copy, PartialEq, Eq)]
pub struct StakeInfoAccount {
    /// The owner the record is bound to.
    pub user_account: [u8; 32],
    /// When the current accrual window started (Unix seconds).
    pub stake_time: i64,
    /// The reward frozen at unstake, or left over after a claim.
    pub reward_amount: u64,
    /// Number of days the asset stays locked after staking.
    pub locked_period: i32,
    /// Whether the asset has been taken out of custody.
    pub unstake_nft: bool,
}

/// The allowlist commitment of a campaign.
#[derive(Debug, Clone, Copy, PartialEq, Eq, Default)]
pub struct Merkle {
    /// Derivation salt of the account holding the root.
    pub bump: u8,
    /// The 256-bit merkle root.
    pub root: [u8; 32],
}

/// The account that invokes an operation, as the runtime presents it.
#[derive(Debug, Clone, Copy, PartialEq, Eq)]
pub struct Caller {
    /// Its public key.
    pub key: [u8; 32],
    /// Whether the transaction carries its signature.
    pub is_signer: bool,
    /// Its balance in the network's base currency.
    pub lamports: u64,
}

/// The policy values of one staking campaign.
#[derive(Debug, Clone, PartialEq, Eq)]
pub struct Config {
    /// The only identity allowed to set the allowlist root.
    pub admin: [u8; 32],
    /// Staking is refused at any time after this one (Unix seconds).
    pub cutoff_timestamp: i64,
    /// Fee charged by every state-changing operation.
    pub fee_amount: u64,
    /// Reward units accrued per whole staked day.
    pub reward_rate_per_day: u64,
    /// Prefix hashed in front of an asset identifier to form its allowlist leaf.
    pub hash_domain_separator: Vec<u8>,
}

/// The domain separator of the launch campaign's allowlist leaves.
pub open spec fn merkle_seed() -> Seq<u8> {
    // the ASCII bytes of "nft-staking-merkle-tree"
    seq![
        110u8, 102u8, 116u8, 45u8, 115u8, 116u8, 97u8, 107u8, 105u8, 110u8, 103u8, 45u8,
        109u8, 101u8, 114u8, 107u8, 108u8, 101u8, 45u8, 116u8, 114u8, 101u8, 101u8,
    ]
}

impl Config {
    /// The parameters of the launch campaign, administered by `admin`.
    pub fn campaign(admin: [u8; 32]) -> (r: Config)
        ensures
            r.admin == admin,
            r.cutoff_timestamp == STOP_STAKE_DATE,
            r.fee_amount == STAKE_FEE,
            r.reward_rate_per_day == SPL_TOKENS_PER_DAY,
            r.hash_domain_separator@ == merkle_seed(),
    {
        let seed: Vec<u8> = vec![
            110u8, 102u8, 116u8, 45u8, 115u8, 116u8, 97u8, 107u8, 105u8, 110u8, 103u8, 45u8,
            109u8, 101u8, 114u8, 107u8, 108u8, 101u8, 45u8, 116u8, 114u8, 101u8, 101u8,
        ];
        proof {
            assert(seed@ =~= merkle_seed());
        }
        Config {
            admin,
            cutoff_timestamp: STOP_STAKE_DATE,
            fee_amount: STAKE_FEE,
            reward_rate_per_day: SPL_TOKENS_PER_DAY,
            hash_domain_separator: seed,
        }
    }
}

/// What record initialization reads.
#[derive(Debug, Clone, Copy, PartialEq, Eq)]
pub struct Initialize {
    pub user_account: Caller,
    pub mint_nft: [u8; 32],
    pub stake_info_account: StakeInfoAccount,
}

/// What setting the allowlist root reads.
#[derive(Debug, Clone, Copy, PartialEq, Eq)]
pub struct InitializeMerkle {
    pub admin_account: Caller,
    pub merkle: Merkle,
}

/// What staking reads.
#[derive(Debug, Clone, Copy, PartialEq, Eq)]
pub struct StakeNft {
    pub user_account: Caller,
    pub nft_mint: [u8; 32],
    pub stake_info_account: StakeInfoAccount,
    pub merkle: Merkle,
}

/// What unstaking reads.
#[derive(Debug, Clone, Copy, PartialEq, Eq)]
pub struct UnStakeNft {
    pub user_account: Caller,
    pub nft_mint: [u8; 32],
    pub stake_info_account: StakeInfoAccount,
    pub merkle: Merkle,
}

/// What claiming reads.
#[derive(Debug, Clone, Copy, PartialEq, Eq)]
pub struct ClaimReward {
    pub user_account: Caller,
    pub stake_info_account: StakeInfoAccount,
}

} // verus!
