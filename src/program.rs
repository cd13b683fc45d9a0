//! The operations of the staking program. Each checks its preconditions in a
//! fixed order (authorization, fee, time window, proof, amount) and, on
//! success, gives the new state; the runtime then performs the fee, custody
//! and reward transfers that belong to the operation.
use vstd::prelude::*;
use crate::error::{OpError, StakeError};
use crate::merkle_proof::{hash_eq, hashes_view, leaf_for, leaf_spec, proof_root, verify};
use crate::reward::{
    as_amount, earned, earned_at, entitlement, entitlement_at, lemma_entitlement_monotonic, lock_end,
};
use crate::state::{
    Caller, ClaimReward, Config, Initialize, InitializeMerkle, Merkle, StakeInfoAccount,
    StakeNft, UnStakeNft,
};

verus! {

/// The result of an operation whose first failed check is `e`.
pub open spec fn outcome(e: Option<OpError>) -> Result<(), OpError> {
    match e {
        Some(e) => Err(e),
        None => Ok(()),
    }
}

/// The first of the checks that every owner's operation starts with that
/// `caller` fails: signature, ownership of the record, fee.
pub open spec fn owner_gate(caller: Caller, owner: [u8; 32], fee: u64) -> Option<OpError> {
    if !caller.is_signer {
        Some(OpError::MissingAuthorization)
    } else if caller.key@ != owner@ {
        Some(OpError::OwnerMismatch)
    } else if caller.lamports < fee {
        Some(OpError::Stake(StakeError::NoEnoughSol))
    } else {
        None
    }
}

/// Whether `proof` shows `mint` to be in the allowlist committed to by `merkle`.
pub open spec fn allowlisted(
    domain: Seq<u8>,
    mint: [u8; 32],
    merkle: Merkle,
    proof: Seq<[u8; 32]>,
) -> bool {
    proof_root(hashes_view(proof), leaf_spec(domain, mint@)) == merkle.root@
}

/// The signature, ownership and fee checks.
fn check_owner(caller: &Caller, owner: &[u8; 32], fee: u64) -> (r: Result<(), OpError>)
    ensures
        r == outcome(owner_gate(*caller, *owner, fee)),
{
    if !caller.is_signer {
        return Err(OpError::MissingAuthorization);
    }
    if !hash_eq(&caller.key, owner) {
        return Err(OpError::OwnerMismatch);
    }
    if caller.lamports < fee {
        return Err(OpError::Stake(StakeError::NoEnoughSol));
    }
    Ok(())
}

/// Whether the allowlist proof for `mint` holds.
fn check_membership(config: &Config, mint: &[u8; 32], merkle: &Merkle, proof: Vec<[u8; 32]>) -> (r: bool)
    ensures
        r == allowlisted(config.hash_domain_separator@, *mint, *merkle, proof@),
{
    let leaf = leaf_for(config.hash_domain_separator.as_slice(), mint);
    verify(proof, merkle.root, leaf)
}

/// The first check that record initialization fails.
pub open spec fn initialize_failure(ctx: Initialize, config: Config, now: i64) -> Option<OpError> {
    if !ctx.user_account.is_signer {
        Some(OpError::MissingAuthorization)
    } else if now > config.cutoff_timestamp {
        Some(OpError::Stake(StakeError::NoStakeAnyMore))
    } else {
        None
    }
}

/// An empty record bound to `owner`.
pub open spec fn empty_record(owner: [u8; 32]) -> StakeInfoAccount {
    StakeInfoAccount {
        user_account: owner,
        stake_time: 0,
        reward_amount: 0,
        locked_period: 0,
        unstake_nft: false,
    }
}

/// Binds a fresh stake record to the signing user, with every other field zeroed.
/// Refused once staking has closed.
pub fn initialize(ctx: &mut Initialize, config: &Config, now: i64) -> (r: Result<(), OpError>)
    ensures
        r == outcome(initialize_failure(*old(ctx), *config, now)),
        *final(ctx) == (if r is Ok {
            Initialize { stake_info_account: empty_record(old(ctx).user_account.key), ..*old(ctx) }
        } else {
            *old(ctx)
        }),
{
    if !ctx.user_account.is_signer {
        return Err(OpError::MissingAuthorization);
    }
    if now > config.cutoff_timestamp {
        return Err(OpError::Stake(StakeError::NoStakeAnyMore));
    }
    ctx.stake_info_account = StakeInfoAccount {
        user_account: ctx.user_account.key,
        stake_time: 0,
        reward_amount: 0,
        locked_period: 0,
        unstake_nft: false,
    };
    Ok(())
}

/// The first check that setting the allowlist root fails: the caller must sign
/// as the campaign's administrator and afford the fee.
pub open spec fn initialize_merkle_failure(ctx: InitializeMerkle, config: Config) -> Option<OpError> {
    if !ctx.admin_account.is_signer || ctx.admin_account.key@ != config.admin@ {
        Some(OpError::MissingAuthorization)
    } else if ctx.admin_account.lamports < config.fee_amount {
        Some(OpError::Stake(StakeError::NoEnoughSol))
    } else {
        None
    }
}

/// Sets the allowlist root, by the campaign's administrator, who pays the fee.
pub fn initialize_merkle(ctx: &mut InitializeMerkle, config: &Config, nonce: u8, root: [u8; 32]) -> (r: Result<(), OpError>)
    ensures
        r == outcome(initialize_merkle_failure(*old(ctx), *config)),
        *final(ctx) == (if r is Ok {
            InitializeMerkle { merkle: Merkle { bump: nonce, root }, ..*old(ctx) }
        } else {
            *old(ctx)
        }),
{
    if !ctx.admin_account.is_signer || !hash_eq(&ctx.admin_account.key, &config.admin) {
        return Err(OpError::MissingAuthorization);
    }
    if ctx.admin_account.lamports < config.fee_amount {
        return Err(OpError::Stake(StakeError::NoEnoughSol));
    }
    ctx.merkle = Merkle { bump: nonce, root };
    Ok(())
}

/// The first check that staking fails.
pub open spec fn stake_failure(ctx: StakeNft, config: Config, proof: Seq<[u8; 32]>, now: i64) -> Option<OpError> {
    match owner_gate(ctx.user_account, ctx.stake_info_account.user_account, config.fee_amount) {
        Some(e) => Some(e),
        None => if now > config.cutoff_timestamp {
            Some(OpError::Stake(StakeError::NoStakeAnyMore))
        } else if !allowlisted(config.hash_domain_separator@, ctx.nft_mint, ctx.merkle, proof) {
            Some(OpError::Stake(StakeError::InvalidProof))
        } else {
            None
        },
    }
}

/// The record of a stake made at `now` for `locked_period` days.
pub open spec fn staked_record(rec: StakeInfoAccount, now: i64, locked_period: i32) -> StakeInfoAccount {
    StakeInfoAccount {
        stake_time: now,
        reward_amount: 0,
        locked_period,
        unstake_nft: false,
        ..rec
    }
}

/// Stakes an allowlisted asset at `now` for `locked_period` days. On success the
/// fee goes to the treasury and the asset into custody.
pub fn stake_nft(
    ctx: &mut StakeNft,
    config: &Config,
    proof: Vec<[u8; 32]>,
    locked_period: i32,
    now: i64,
) -> (r: Result<(), OpError>)
    ensures
        r == outcome(stake_failure(*old(ctx), *config, proof@, now)),
        *final(ctx) == (if r is Ok {
            StakeNft {
                stake_info_account: staked_record(old(ctx).stake_info_account, now, locked_period),
                ..*old(ctx)
            }
        } else {
            *old(ctx)
        }),
{
    let checked = check_owner(&ctx.user_account, &ctx.stake_info_account.user_account, config.fee_amount);
    if let Err(e) = checked {
        return Err(e);
    }
    if now > config.cutoff_timestamp {
        return Err(OpError::Stake(StakeError::NoStakeAnyMore));
    }
    if !check_membership(config, &ctx.nft_mint, &ctx.merkle, proof) {
        return Err(OpError::Stake(StakeError::InvalidProof));
    }
    ctx.stake_info_account.stake_time = now;
    ctx.stake_info_account.reward_amount = 0;
    ctx.stake_info_account.locked_period = locked_period;
    ctx.stake_info_account.unstake_nft = false;
    Ok(())
}

/// The reward that unstaking `rec` at `now` freezes.
pub open spec fn frozen_reward(rec: StakeInfoAccount, now: i64, rate: u64) -> int {
    earned(rec.stake_time as int, rec.locked_period as int, now as int, rate as int)
}

/// The first check that unstaking fails.
pub open spec fn unstake_failure(ctx: UnStakeNft, config: Config, proof: Seq<[u8; 32]>, now: i64) -> Option<OpError> {
    match owner_gate(ctx.user_account, ctx.stake_info_account.user_account, config.fee_amount) {
        Some(e) => Some(e),
        None => if ctx.stake_info_account.unstake_nft {
            Some(OpError::AlreadyUnstaked)
        } else if !allowlisted(config.hash_domain_separator@, ctx.nft_mint, ctx.merkle, proof) {
            Some(OpError::Stake(StakeError::InvalidProof))
        } else if as_amount(frozen_reward(ctx.stake_info_account, now, config.reward_rate_per_day))
            is None {
            Some(OpError::ArithmeticOverflow)
        } else {
            None
        },
    }
}

/// The record after unstaking at `now`: the reward frozen, the asset out of custody.
pub open spec fn unstaked_record(rec: StakeInfoAccount, now: i64, rate: u64) -> StakeInfoAccount {
    StakeInfoAccount {
        reward_amount: frozen_reward(rec, now, rate) as u64,
        unstake_nft: true,
        ..rec
    }
}

/// Takes the asset out of custody at `now` and freezes the reward: nothing if the
/// lock has not run out, else the reward accrued so far. A record whose asset
/// has already left custody is refused, so a frozen reward never grows. On success the asset
/// goes back to the owner and the fee to the treasury.
pub fn unstake_nft(ctx: &mut UnStakeNft, config: &Config, proof: Vec<[u8; 32]>, now: i64) -> (r: Result<(), OpError>)
    ensures
        r == outcome(unstake_failure(*old(ctx), *config, proof@, now)),
        *final(ctx) == (if r is Ok {
            UnStakeNft {
                stake_info_account: unstaked_record(
                    old(ctx).stake_info_account,
                    now,
                    config.reward_rate_per_day,
                ),
                ..*old(ctx)
            }
        } else {
            *old(ctx)
        }),
        r is Ok ==> !old(ctx).stake_info_account.unstake_nft,
        r is Ok && (now as int) < lock_end(
            old(ctx).stake_info_account.stake_time as int,
            old(ctx).stake_info_account.locked_period as int,
        ) ==> final(ctx).stake_info_account.reward_amount == 0,
{
    let checked = check_owner(&ctx.user_account, &ctx.stake_info_account.user_account, config.fee_amount);
    if let Err(e) = checked {
        return Err(e);
    }
    if ctx.stake_info_account.unstake_nft {
        return Err(OpError::AlreadyUnstaked);
    }
    if !check_membership(config, &ctx.nft_mint, &ctx.merkle, proof) {
        return Err(OpError::Stake(StakeError::InvalidProof));
    }
    let rec = &ctx.stake_info_account;
    let frozen = earned_at(rec.stake_time, rec.locked_period, now, config.reward_rate_per_day);
    match frozen {
        None => Err(OpError::ArithmeticOverflow),
        Some(amount) => {
            ctx.stake_info_account.reward_amount = amount;
            ctx.stake_info_account.unstake_nft = true;
            Ok(())
        },
    }
}

/// The first check that claiming `claim_amount` fails.
pub open spec fn claim_failure(ctx: ClaimReward, config: Config, claim_amount: u64, now: i64) -> Option<OpError> {
    match owner_gate(ctx.user_account, ctx.stake_info_account.user_account, config.fee_amount) {
        Some(e) => Some(e),
        None => match as_amount(
            entitlement(ctx.stake_info_account, now as int, config.reward_rate_per_day as int),
        ) {
            None => Some(OpError::ArithmeticOverflow),
            Some(available) => if claim_amount > available {
                Some(OpError::Stake(StakeError::NotEnoughLP))
            } else {
                None
            },
        },
    }
}

/// The record after claiming `claim_amount` at `now`: what is left of the
/// entitlement, and a new accrual window starting at `now`.
pub open spec fn claimed_record(rec: StakeInfoAccount, now: i64, rate: u64, claim_amount: u64) -> StakeInfoAccount {
    StakeInfoAccount {
        reward_amount: (entitlement(rec, now as int, rate as int) - claim_amount) as u64,
        stake_time: now,
        ..rec
    }
}

/// Claims `claim_amount` of the entitlement at `now`. On success that amount of
/// reward is minted to the owner and the fee goes to the treasury.
pub fn claim_reward(ctx: &mut ClaimReward, config: &Config, claim_amount: u64, now: i64) -> (r: Result<(), OpError>)
    ensures
        r == outcome(claim_failure(*old(ctx), *config, claim_amount, now)),
        *final(ctx) == (if r is Ok {
            ClaimReward {
                stake_info_account: claimed_record(
                    old(ctx).stake_info_account,
                    now,
                    config.reward_rate_per_day,
                    claim_amount,
                ),
                ..*old(ctx)
            }
        } else {
            *old(ctx)
        }),
        claim_amount == 0 && owner_gate(
            old(ctx).user_account,
            old(ctx).stake_info_account.user_account,
            config.fee_amount,
        ) is None && as_amount(
            entitlement(old(ctx).stake_info_account, now as int, config.reward_rate_per_day as int),
        ) is Some ==> r is Ok,
        claim_amount == 0 && r is Ok && entitlement(
            old(ctx).stake_info_account,
            now as int,
            config.reward_rate_per_day as int,
        ) == old(ctx).stake_info_account.reward_amount ==> final(ctx).stake_info_account == (
        StakeInfoAccount { stake_time: now, ..old(ctx).stake_info_account }),
{
    let checked = check_owner(&ctx.user_account, &ctx.stake_info_account.user_account, config.fee_amount);
    if let Err(e) = checked {
        return Err(e);
    }
    let available = entitlement_at(&ctx.stake_info_account, now, config.reward_rate_per_day);
    match available {
        None => Err(OpError::ArithmeticOverflow),
        Some(available) => {
            if claim_amount > available {
                return Err(OpError::Stake(StakeError::NotEnoughLP));
            }
            ctx.stake_info_account.reward_amount = available - claim_amount;
            ctx.stake_info_account.stake_time = now;
            Ok(())
        },
    }
}

/// A signed caller who owns the record but holds one unit less than the fee is
/// refused by each of the four state-changing operations with the fee error,
/// and (by their contracts) leaves every account as it was.
pub proof fn lemma_fee_gating(
    config: Config,
    merkle_ctx: InitializeMerkle,
    stake_ctx: StakeNft,
    unstake_ctx: UnStakeNft,
    claim_ctx: ClaimReward,
    proof: Seq<[u8; 32]>,
    claim_amount: u64,
    now: i64,
)
    requires
        config.fee_amount > 0,
        merkle_ctx.admin_account.is_signer,
        merkle_ctx.admin_account.key == config.admin,
        merkle_ctx.admin_account.lamports == config.fee_amount - 1,
        stake_ctx.user_account.is_signer,
        stake_ctx.user_account.key == stake_ctx.stake_info_account.user_account,
        stake_ctx.user_account.lamports == config.fee_amount - 1,
        unstake_ctx.user_account.is_signer,
        unstake_ctx.user_account.key == unstake_ctx.stake_info_account.user_account,
        unstake_ctx.user_account.lamports == config.fee_amount - 1,
        claim_ctx.user_account.is_signer,
        claim_ctx.user_account.key == claim_ctx.stake_info_account.user_account,
        claim_ctx.user_account.lamports == config.fee_amount - 1,
    ensures
        initialize_merkle_failure(merkle_ctx, config) == Some(OpError::Stake(StakeError::NoEnoughSol)),
        stake_failure(stake_ctx, config, proof, now) == Some(OpError::Stake(StakeError::NoEnoughSol)),
        unstake_failure(unstake_ctx, config, proof, now) == Some(OpError::Stake(StakeError::NoEnoughSol)),
        claim_failure(claim_ctx, config, claim_amount, now) == Some(
            OpError::Stake(StakeError::NoEnoughSol),
        ),
{
}

/// A claim of nothing by the signed owner who can pay the fee is accepted
/// whenever the entitlement fits an amount: it transfers no reward, keeps the
/// entitlement as the stored reward and starts a new accrual window at `now`.
pub proof fn lemma_zero_claim_accepted(ctx: ClaimReward, config: Config, now: i64)
    requires
        owner_gate(ctx.user_account, ctx.stake_info_account.user_account, config.fee_amount) is None,
        as_amount(entitlement(ctx.stake_info_account, now as int, config.reward_rate_per_day as int))
            is Some,
    ensures
        claim_failure(ctx, config, 0, now) is None,
        claimed_record(ctx.stake_info_account, now, config.reward_rate_per_day, 0) == (
        StakeInfoAccount {
            stake_time: now,
            reward_amount: entitlement(
                ctx.stake_info_account,
                now as int,
                config.reward_rate_per_day as int,
            ) as u64,
            ..ctx.stake_info_account
        }),
{
}

/// For a record still in custody whose lock has run out, a claim accepted at
/// `t1` is accepted at any later `t2` where the entitlement fits an amount, and
/// leaves at least as much reward behind.
pub proof fn lemma_claim_monotonic(ctx: ClaimReward, config: Config, claim_amount: u64, t1: i64, t2: i64)
    requires
        !ctx.stake_info_account.unstake_nft,
        t1 as int >= lock_end(
            ctx.stake_info_account.stake_time as int,
            ctx.stake_info_account.locked_period as int,
        ),
        t1 <= t2,
        claim_failure(ctx, config, claim_amount, t1) is None,
        as_amount(entitlement(ctx.stake_info_account, t2 as int, config.reward_rate_per_day as int))
            is Some,
    ensures
        claim_failure(ctx, config, claim_amount, t2) is None,
        claimed_record(ctx.stake_info_account, t1, config.reward_rate_per_day, claim_amount).reward_amount
            <= claimed_record(ctx.stake_info_account, t2, config.reward_rate_per_day, claim_amount).reward_amount,
{
    lemma_entitlement_monotonic(
        ctx.stake_info_account,
        t1 as int,
        t2 as int,
        config.reward_rate_per_day as int,
    );
}

} // verus!
