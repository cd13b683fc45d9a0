use token_stake_model::error::{OpError, StakeError};
use token_stake_model::merkle_proof::leaf_for;
use token_stake_model::program::{
    claim_reward, initialize, initialize_merkle, stake_nft, unstake_nft,
};
use token_stake_model::reward::{earned_at, entitlement_at};
use token_stake_model::state::{
    Caller, ClaimReward, Config, Initialize, InitializeMerkle, Merkle, StakeInfoAccount, StakeNft,
    UnStakeNft, SPL_TOKENS_PER_DAY, STAKE_FEE, STOP_STAKE_DATE,
};

const DAY: i64 = 86400;
const OWNER: [u8; 32] = [7u8; 32];
const ADMIN: [u8; 32] = [9u8; 32];
const MINT: [u8; 32] = [3u8; 32];

fn config() -> Config {
    Config::campaign(ADMIN)
}

fn owner(lamports: u64) -> Caller {
    Caller { key: OWNER, is_signer: true, lamports }
}

fn empty_record() -> StakeInfoAccount {
    StakeInfoAccount {
        user_account: OWNER,
        stake_time: 0,
        reward_amount: 0,
        locked_period: 0,
        unstake_nft: false,
    }
}

/// An allowlist holding only `MINT`: its root is the leaf, the proof is empty.
fn merkle() -> Merkle {
    Merkle { bump: 1, root: leaf_for(&config().hash_domain_separator, &MINT) }
}

fn staked(at: i64, locked_period: i32) -> StakeInfoAccount {
    let mut ctx = StakeNft {
        user_account: owner(STAKE_FEE),
        nft_mint: MINT,
        stake_info_account: empty_record(),
        merkle: merkle(),
    };
    assert_eq!(stake_nft(&mut ctx, &config(), vec![], locked_period, at), Ok(()));
    ctx.stake_info_account
}

fn claim(rec: StakeInfoAccount, amount: u64, at: i64) -> (Result<(), OpError>, StakeInfoAccount) {
    let mut ctx = ClaimReward { user_account: owner(STAKE_FEE), stake_info_account: rec };
    let r = claim_reward(&mut ctx, &config(), amount, at);
    (r, ctx.stake_info_account)
}

fn unstake(rec: StakeInfoAccount, at: i64) -> (Result<(), OpError>, StakeInfoAccount) {
    let mut ctx = UnStakeNft {
        user_account: owner(STAKE_FEE),
        nft_mint: MINT,
        stake_info_account: rec,
        merkle: merkle(),
    };
    let r = unstake_nft(&mut ctx, &config(), vec![], at);
    (r, ctx.stake_info_account)
}

#[test]
fn campaign_parameters() {
    let c = config();
    assert_eq!(c.cutoff_timestamp, 1645203600);
    assert_eq!(c.fee_amount, 50_000_000);
    assert_eq!(c.reward_rate_per_day, 10_000_000);
    assert_eq!(c.hash_domain_separator, b"nft-staking-merkle-tree".to_vec());
    assert_eq!(c.admin, ADMIN);
}

#[test]
fn stake_sets_the_record() {
    let rec = staked(1000, 7);
    assert_eq!(
        rec,
        StakeInfoAccount {
            user_account: OWNER,
            stake_time: 1000,
            reward_amount: 0,
            locked_period: 7,
            unstake_nft: false,
        }
    );
}

#[test]
fn claim_before_lock_is_refused() {
    let rec = staked(0, 7);
    let (r, after) = claim(rec, 1, DAY * 3);
    assert_eq!(r, Err(OpError::Stake(StakeError::NotEnoughLP)));
    assert_eq!(after, rec);
}

#[test]
fn claim_after_lock_leaves_the_rest() {
    let rec = staked(0, 7);
    let (r, after) = claim(rec, 10_000_000, DAY * 10);
    assert_eq!(r, Ok(()));
    assert_eq!(after.reward_amount, 10 * 10_000_000 - 10_000_000);
    assert_eq!(after.reward_amount, 90_000_000);
    assert_eq!(after.stake_time, DAY * 10);
}

#[test]
fn early_unstake_forfeits_the_reward() {
    let rec = staked(0, 7);
    let (r, after) = unstake(rec, DAY * 2);
    assert_eq!(r, Ok(()));
    assert_eq!(after.reward_amount, 0);
    assert!(after.unstake_nft);
    let (r, again) = claim(after, 1, DAY * 30);
    assert_eq!(r, Err(OpError::Stake(StakeError::NotEnoughLP)));
    assert_eq!(again, after);
    let (r, _) = unstake(rec, DAY * 7 - 1);
    assert_eq!(r, Ok(()));
}

#[test]
fn late_unstake_freezes_the_reward() {
    let rec = staked(0, 7);
    let (r, after) = unstake(rec, DAY * 9);
    assert_eq!(r, Ok(()));
    assert_eq!(after.reward_amount, 9 * 10_000_000);
    assert!(after.unstake_nft);
    let (r, drawn) = claim(after, 9 * 10_000_000, DAY * 40);
    assert_eq!(r, Ok(()));
    assert_eq!(drawn.reward_amount, 0);
    let (r, _) = claim(drawn, 1, DAY * 50);
    assert_eq!(r, Err(OpError::Stake(StakeError::NotEnoughLP)));
}

#[test]
fn zero_claim_only_moves_the_window() {
    let rec = staked(0, 7);
    let (r, after) = unstake(rec, DAY * 8);
    assert_eq!(r, Ok(()));
    let (r, claimed) = claim(after, 0, DAY * 20);
    assert_eq!(r, Ok(()));
    assert_eq!(claimed, StakeInfoAccount { stake_time: DAY * 20, ..after });
    let (r, early) = claim(rec, 0, DAY);
    assert_eq!(r, Ok(()));
    assert_eq!(early, StakeInfoAccount { stake_time: DAY, ..rec });
}

#[test]
fn entitlement_grows_with_time() {
    let rec = staked(0, 7);
    let mut last = 0u64;
    for t in [DAY * 7, DAY * 7 + 1, DAY * 8 - 1, DAY * 8, DAY * 100, DAY * 1000] {
        let e = entitlement_at(&rec, t, SPL_TOKENS_PER_DAY).unwrap();
        assert!(e >= last);
        last = e;
    }
    assert_eq!(entitlement_at(&rec, DAY * 8 - 1, SPL_TOKENS_PER_DAY), Some(70_000_000));
    assert_eq!(entitlement_at(&rec, DAY * 6, SPL_TOKENS_PER_DAY), Some(0));
}

#[test]
fn reward_overflow_is_reported() {
    assert_eq!(earned_at(0, 0, i64::MAX, u64::MAX), None);
    assert_eq!(earned_at(0, 0, DAY * 3 + 5, 4), Some(12));
    assert_eq!(earned_at(DAY, -2, 0, 1), None);
    assert_eq!(earned_at(DAY, -2, 1, 1), Some(0));
    let rec = StakeInfoAccount { stake_time: 0, locked_period: 0, ..empty_record() };
    let mut ctx = ClaimReward { user_account: owner(STAKE_FEE), stake_info_account: rec };
    let c = Config { reward_rate_per_day: u64::MAX, ..config() };
    assert_eq!(claim_reward(&mut ctx, &c, 0, DAY * 2), Err(OpError::ArithmeticOverflow));
    assert_eq!(ctx.stake_info_account, rec);
}

#[test]
fn fee_below_the_minimum_is_refused_everywhere() {
    let poor = STAKE_FEE - 1;
    let mut m = InitializeMerkle {
        admin_account: Caller { key: ADMIN, is_signer: true, lamports: poor },
        merkle: Merkle::default(),
    };
    assert_eq!(
        initialize_merkle(&mut m, &config(), 4, [1u8; 32]),
        Err(OpError::Stake(StakeError::NoEnoughSol))
    );
    assert_eq!(m.merkle, Merkle::default());

    let mut s = StakeNft {
        user_account: owner(poor),
        nft_mint: MINT,
        stake_info_account: empty_record(),
        merkle: merkle(),
    };
    let before = s;
    assert_eq!(stake_nft(&mut s, &config(), vec![], 7, 0), Err(OpError::Stake(StakeError::NoEnoughSol)));
    assert_eq!(s, before);

    let rec = staked(0, 7);
    let mut u = UnStakeNft {
        user_account: owner(poor),
        nft_mint: MINT,
        stake_info_account: rec,
        merkle: merkle(),
    };
    let before = u;
    assert_eq!(unstake_nft(&mut u, &config(), vec![], DAY * 9), Err(OpError::Stake(StakeError::NoEnoughSol)));
    assert_eq!(u, before);

    let mut c = ClaimReward { user_account: owner(poor), stake_info_account: rec };
    let before = c;
    assert_eq!(claim_reward(&mut c, &config(), 0, DAY * 9), Err(OpError::Stake(StakeError::NoEnoughSol)));
    assert_eq!(c, before);
}

#[test]
fn exact_fee_is_enough() {
    let mut m = InitializeMerkle {
        admin_account: Caller { key: ADMIN, is_signer: true, lamports: STAKE_FEE },
        merkle: Merkle::default(),
    };
    assert_eq!(initialize_merkle(&mut m, &config(), 4, [1u8; 32]), Ok(()));
    assert_eq!(m.merkle, Merkle { bump: 4, root: [1u8; 32] });
}

#[test]
fn unsigned_or_foreign_callers_are_refused() {
    let mut s = StakeNft {
        user_account: Caller { is_signer: false, ..owner(STAKE_FEE) },
        nft_mint: MINT,
        stake_info_account: empty_record(),
        merkle: merkle(),
    };
    assert_eq!(stake_nft(&mut s, &config(), vec![], 7, 0), Err(OpError::MissingAuthorization));
    s.user_account = Caller { key: [8u8; 32], ..owner(STAKE_FEE) };
    assert_eq!(stake_nft(&mut s, &config(), vec![], 7, 0), Err(OpError::OwnerMismatch));

    let mut m = InitializeMerkle { admin_account: owner(STAKE_FEE), merkle: Merkle::default() };
    assert_eq!(initialize_merkle(&mut m, &config(), 4, [1u8; 32]), Err(OpError::MissingAuthorization));
    assert_eq!(m.merkle, Merkle::default());
    m.admin_account = Caller { key: ADMIN, is_signer: false, lamports: STAKE_FEE };
    assert_eq!(initialize_merkle(&mut m, &config(), 4, [1u8; 32]), Err(OpError::MissingAuthorization));
}

#[test]
fn staking_closes_after_the_cutoff() {
    let mut s = StakeNft {
        user_account: owner(STAKE_FEE),
        nft_mint: MINT,
        stake_info_account: empty_record(),
        merkle: merkle(),
    };
    assert_eq!(
        stake_nft(&mut s, &config(), vec![], 7, STOP_STAKE_DATE + 1),
        Err(OpError::Stake(StakeError::NoStakeAnyMore))
    );
    assert_eq!(stake_nft(&mut s, &config(), vec![], 7, STOP_STAKE_DATE), Ok(()));
    let rec = s.stake_info_account;
    let (r, _) = unstake(rec, STOP_STAKE_DATE + DAY * 30);
    assert_eq!(r, Ok(()));
}

#[test]
fn assets_outside_the_allowlist_are_refused() {
    let mut s = StakeNft {
        user_account: owner(STAKE_FEE),
        nft_mint: [4u8; 32],
        stake_info_account: empty_record(),
        merkle: merkle(),
    };
    assert_eq!(stake_nft(&mut s, &config(), vec![], 7, 0), Err(OpError::Stake(StakeError::InvalidProof)));
    let mut u = UnStakeNft {
        user_account: owner(STAKE_FEE),
        nft_mint: MINT,
        stake_info_account: staked(0, 7),
        merkle: merkle(),
    };
    assert_eq!(
        unstake_nft(&mut u, &config(), vec![[0u8; 32]], DAY * 9),
        Err(OpError::Stake(StakeError::InvalidProof))
    );
}

#[test]
fn initialize_binds_the_owner() {
    let mut ctx = Initialize {
        user_account: owner(0),
        mint_nft: MINT,
        stake_info_account: StakeInfoAccount {
            user_account: [0u8; 32],
            stake_time: 5,
            reward_amount: 6,
            locked_period: 7,
            unstake_nft: true,
        },
    };
    assert_eq!(initialize(&mut ctx, &config(), 0), Ok(()));
    assert_eq!(ctx.stake_info_account, empty_record());
    assert_eq!(
        initialize(&mut ctx, &config(), STOP_STAKE_DATE + 1),
        Err(OpError::Stake(StakeError::NoStakeAnyMore))
    );
    ctx.user_account.is_signer = false;
    assert_eq!(initialize(&mut ctx, &config(), 0), Err(OpError::MissingAuthorization));
}

#[test]
fn error_codes_and_messages() {
    assert_eq!(StakeError::NotEnoughLP.code(), 0);
    assert_eq!(StakeError::InvalidProof.code(), 4);
    assert_eq!(StakeError::NoStakeAnyMore.code(), 6);
    assert_eq!(StakeError::NoEnoughSol.code(), 9);
    assert_eq!(StakeError::InvalidProof.message(), "Invalid Merkle proof.");
    assert_eq!(StakeError::type_of(), "Token Sale Error");
}

#[test]
fn a_second_unstake_is_refused() {
    let rec = staked(0, 7);
    let (r, after) = unstake(rec, DAY * 2);
    assert_eq!(r, Ok(()));
    assert_eq!(after.reward_amount, 0);
    let (r, again) = unstake(after, DAY * 9);
    assert_eq!(r, Err(OpError::AlreadyUnstaked));
    assert_eq!(again, after);
    let (r, _) = claim(after, 1, DAY * 9);
    assert_eq!(r, Err(OpError::Stake(StakeError::NotEnoughLP)));
}
