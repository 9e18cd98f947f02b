use nft_staking::{
    claim, init_stake_data, settle, stake, unstake, withdraw, withdraw_request, Account, Asset,
    Authority, Claim, Clock, Collection, InitStakeData, Metadata, Mint, Pool, PoolError, Pubkey,
    Stake, StakeData, StakeState, TokenAccount, Transfer, Unstake, Withdraw,
};

fn key(tag: u8) -> Pubkey {
    Pubkey::new_from_array([tag; 32])
}

const ADMIN: u8 = 1;
const POOL: u8 = 2;
const CREATOR: u8 = 3;
const USER: u8 = 4;
const RAND: u8 = 5;
const REWARD_MINT: u8 = 6;
const NFT: u8 = 9;
const USER_NFT: u8 = 10;
const POOL_NFT: u8 = 11;
const USER_REWARD: u8 = 12;
const POOL_REWARD: u8 = 13;
const COLLECTION: u8 = 14;
const RECORD: u8 = 15;

fn pool(period: i64, tvl: u8) -> Account<Pool> {
    Account {
        key: key(POOL),
        data: Pool {
            owner: key(ADMIN),
            rand: key(RAND),
            reward_mint: key(REWARD_MINT),
            start_time: 1,
            period,
            tvl,
            bump: 250,
        },
    }
}

fn collection(ultras: Vec<Pubkey>) -> Account<Collection> {
    Account {
        key: key(COLLECTION),
        data: Collection {
            owner: key(ADMIN),
            bump: 251,
            pool: key(POOL),
            reward_normal: 10,
            reward_locked_one: 20,
            reward_locked_two: 30,
            reward_locked_three: 40,
            creator: key(CREATOR),
            ultras,
        },
    }
}

fn blank_record(owner: u8) -> Account<StakeData> {
    Account {
        key: key(RECORD),
        data: StakeData {
            unstaked: true,
            locked: false,
            lock_period: 0,
            mint: key(NFT),
            owner: key(owner),
            pool: key(POOL),
            stake_time: 0,
            last_claim_time: 0,
            bump: 252,
        },
    }
}

fn staked_record(owner: u8, locked: bool, lock_period: u64, since: i64) -> Account<StakeData> {
    Account {
        key: key(RECORD),
        data: StakeData {
            unstaked: false,
            locked,
            lock_period,
            mint: key(NFT),
            owner: key(owner),
            pool: key(POOL),
            stake_time: since,
            last_claim_time: since,
            bump: 252,
        },
    }
}

fn nft_mint() -> Account<Mint> {
    Account { key: key(NFT), data: Mint { decimals: 0, supply: 1 } }
}

fn metadata() -> Metadata {
    Metadata {
        mint: key(NFT),
        symbol: "HERO".to_string(),
        creators: vec![key(CREATOR), key(77)],
        primary_sale_happened: true,
    }
}

fn token_account(at: u8, owner: u8, mint: u8) -> Account<TokenAccount> {
    Account { key: key(at), data: TokenAccount { mint: key(mint), owner: key(owner) } }
}

fn pool_signature() -> Authority {
    Authority::Pool { key: key(POOL), rand: key(RAND), bump: 250 }
}

fn stake_ctx(owner: u8, now: i64) -> Stake {
    Stake {
        owner: key(owner),
        pool: pool(100, 3),
        collection_data: collection(vec![]),
        stake_data: blank_record(owner),
        nft_mint: nft_mint(),
        metadata: metadata(),
        user_nft_account: token_account(USER_NFT, owner, NFT),
        pool_nft_account: token_account(POOL_NFT, POOL, NFT),
        clock: Clock { unix_timestamp: now },
    }
}

fn unstake_ctx(owner: u8, record: Account<StakeData>, now: i64) -> Unstake {
    Unstake {
        owner: key(owner),
        pool: pool(100, 3),
        collection_data: collection(vec![]),
        stake_data: record,
        nft_mint: nft_mint(),
        metadata: metadata(),
        user_nft_account: token_account(USER_NFT, owner, NFT),
        pool_nft_account: token_account(POOL_NFT, POOL, NFT),
        user_reward_account: token_account(USER_REWARD, owner, REWARD_MINT),
        pool_reward_account: token_account(POOL_REWARD, POOL, REWARD_MINT),
        clock: Clock { unix_timestamp: now },
    }
}

fn claim_ctx(owner: u8, record: Account<StakeData>, now: i64) -> Claim {
    Claim {
        owner: key(owner),
        pool: pool(100, 3),
        collection_data: collection(vec![]),
        metadata: metadata(),
        stake_data: record,
        user_reward_account: token_account(USER_REWARD, owner, REWARD_MINT),
        pool_reward_account: token_account(POOL_REWARD, POOL, REWARD_MINT),
        clock: Clock { unix_timestamp: now },
    }
}

fn withdraw_ctx() -> Withdraw {
    Withdraw {
        owner: key(USER),
        pool: pool(100, 3),
        nft_mint: nft_mint(),
        user_nft_account: token_account(USER_NFT, USER, NFT),
        pool_nft_account: token_account(POOL_NFT, USER, POOL),
    }
}

fn reward_of(amount: u64) -> Transfer {
    Transfer {
        asset: Asset::Token,
        from: key(POOL_REWARD),
        to: key(USER_REWARD),
        authority: pool_signature(),
        amount,
    }
}

fn nft_back() -> Transfer {
    Transfer {
        asset: Asset::Token,
        from: key(POOL_NFT),
        to: key(USER_NFT),
        authority: pool_signature(),
        amount: 1,
    }
}

fn nft_in(owner: u8) -> Transfer {
    Transfer {
        asset: Asset::Token,
        from: key(USER_NFT),
        to: key(POOL_NFT),
        authority: Authority::Signer { key: key(owner) },
        amount: 1,
    }
}

#[test]
fn init_stake_data_writes_an_empty_record() {
    let mut ctx = InitStakeData {
        owner: key(USER),
        pool: pool(100, 0),
        nft_mint: nft_mint(),
        stake_data: Account {
            key: key(RECORD),
            data: StakeData {
                unstaked: false,
                locked: true,
                lock_period: 77,
                mint: key(0),
                owner: key(0),
                pool: key(0),
                stake_time: 5,
                last_claim_time: 6,
                bump: 0,
            },
        },
    };
    assert_eq!(init_stake_data(&mut ctx, 252), Ok(()));
    assert_eq!(ctx.stake_data, blank_record(USER));
    assert_eq!(ctx.owner, key(USER));
    assert_eq!(ctx.pool, pool(100, 0));
    assert_eq!(ctx.nft_mint, nft_mint());
}

#[test]
fn stake_starts_the_accrual_and_takes_custody() {
    let mut ctx = stake_ctx(USER, 5_000);
    let before = ctx.clone();
    assert_eq!(stake(&mut ctx, true, 30), Ok(nft_in(USER)));
    assert_eq!(
        ctx.stake_data.data,
        StakeData {
            unstaked: false,
            locked: true,
            lock_period: 30,
            mint: key(NFT),
            owner: key(USER),
            pool: key(POOL),
            stake_time: 5_000,
            last_claim_time: 5_000,
            bump: 252,
        }
    );
    assert_eq!(ctx.pool.data.tvl, 4);
    assert_eq!(ctx.pool.data, Pool { tvl: 4, ..before.pool.data });
    assert_eq!(ctx.collection_data, before.collection_data);
    assert_eq!(ctx.metadata, before.metadata);
    assert_eq!(ctx.user_nft_account, before.user_nft_account);
    assert_eq!(ctx.pool_nft_account, before.pool_nft_account);
}

#[test]
fn stake_without_lock_records_the_flag_and_period_given() {
    let mut ctx = stake_ctx(USER, 5_000);
    assert_eq!(stake(&mut ctx, false, 0), Ok(nft_in(USER)));
    assert!(!ctx.stake_data.data.unstaked);
    assert!(!ctx.stake_data.data.locked);
    assert_eq!(ctx.stake_data.data.lock_period, 0);
}

#[test]
fn stake_count_stops_at_255() {
    let mut ctx = stake_ctx(USER, 5_000);
    ctx.pool.data.tvl = 254;
    assert!(stake(&mut ctx, false, 0).is_ok());
    assert_eq!(ctx.pool.data.tvl, 255);
    ctx.stake_data = blank_record(USER);
    assert!(stake(&mut ctx, false, 0).is_ok());
    assert_eq!(ctx.pool.data.tvl, 255);
}

#[test]
fn stake_rejects_a_record_of_another_owner() {
    let mut ctx = stake_ctx(USER, 5_000);
    ctx.stake_data = blank_record(ADMIN);
    let before = ctx.clone();
    assert_eq!(stake(&mut ctx, false, 0), Err(PoolError::InvalidOwner));
    assert_eq!(ctx, before);
}

#[test]
fn stake_rejects_a_record_of_another_pool() {
    let mut ctx = stake_ctx(USER, 5_000);
    ctx.stake_data.data.pool = key(99);
    let before = ctx.clone();
    assert_eq!(stake(&mut ctx, false, 0), Err(PoolError::InvalidStakeData));
    assert_eq!(ctx, before);
}

#[test]
fn stake_rejects_token_accounts_out_of_order() {
    let mut foreign = stake_ctx(USER, 5_000);
    foreign.user_nft_account = token_account(USER_NFT, ADMIN, NFT);
    assert_eq!(stake(&mut foreign, false, 0), Err(PoolError::InvalidTokenAccount));

    let mut other_mint = stake_ctx(USER, 5_000);
    other_mint.user_nft_account = token_account(USER_NFT, USER, REWARD_MINT);
    assert_eq!(stake(&mut other_mint, false, 0), Err(PoolError::InvalidTokenAccount));

    let mut not_the_pools = stake_ctx(USER, 5_000);
    not_the_pools.pool_nft_account = token_account(POOL_NFT, USER, NFT);
    assert_eq!(stake(&mut not_the_pools, false, 0), Err(PoolError::InvalidTokenAccount));

    let mut pool_other_mint = stake_ctx(USER, 5_000);
    pool_other_mint.pool_nft_account = token_account(POOL_NFT, POOL, REWARD_MINT);
    let before = pool_other_mint.clone();
    assert_eq!(stake(&mut pool_other_mint, false, 0), Err(PoolError::InvalidTokenAccount));
    assert_eq!(pool_other_mint, before);
}

#[test]
fn stake_rejects_a_mint_that_is_no_collectible() {
    for data in [
        Mint { decimals: 2, supply: 500 },
        Mint { decimals: 0, supply: 500 },
        Mint { decimals: 0, supply: 0 },
        Mint { decimals: 2, supply: 1 },
    ] {
        let mut ctx = stake_ctx(USER, 5_000);
        ctx.nft_mint.data = data;
        let before = ctx.clone();
        assert_eq!(stake(&mut ctx, false, 0), Err(PoolError::InvalidTokenMint));
        assert_eq!(ctx, before);
    }
}

#[test]
fn stake_rejects_metadata_of_another_mint() {
    let mut ctx = stake_ctx(USER, 5_000);
    ctx.metadata.mint = key(88);
    let before = ctx.clone();
    assert_eq!(stake(&mut ctx, false, 0), Err(PoolError::InvalidMetadata));
    assert_eq!(ctx, before);
}

#[test]
fn stake_rejects_the_placeholder_symbol() {
    let mut ctx = stake_ctx(USER, 5_000);
    ctx.metadata.symbol = "IV".to_string();
    assert_eq!(stake(&mut ctx, false, 0), Err(PoolError::InvalidMetadata));
}

#[test]
fn stake_accepts_symbols_that_only_resemble_the_placeholder() {
    for symbol in ["", "I", "IVX", "iv", "VI", "IV\0"] {
        let mut ctx = stake_ctx(USER, 5_000);
        ctx.metadata.symbol = symbol.to_string();
        assert!(stake(&mut ctx, false, 0).is_ok());
    }
}

#[test]
fn stake_rejects_another_first_creator() {
    let mut ctx = stake_ctx(USER, 5_000);
    ctx.metadata.creators = vec![key(77), key(CREATOR)];
    assert_eq!(stake(&mut ctx, false, 0), Err(PoolError::InvalidMetadata));
}

#[test]
fn stake_rejects_metadata_without_creators() {
    let mut ctx = stake_ctx(USER, 5_000);
    ctx.metadata.creators = vec![];
    assert_eq!(stake(&mut ctx, false, 0), Err(PoolError::InvalidMetadata));
}

#[test]
fn stake_looks_at_the_first_creator_only() {
    let mut ctx = stake_ctx(USER, 5_000);
    ctx.metadata.creators = vec![key(CREATOR)];
    assert_eq!(stake(&mut ctx, false, 0), Ok(nft_in(USER)));
}

#[test]
fn stake_rejects_an_nft_not_yet_sold() {
    let mut ctx = stake_ctx(USER, 5_000);
    ctx.metadata.primary_sale_happened = false;
    assert_eq!(stake(&mut ctx, false, 0), Err(PoolError::InvalidMetadata));
}

#[test]
fn stake_rejects_a_pool_without_a_positive_period() {
    let mut ctx = stake_ctx(USER, 5_000);
    ctx.pool.data.period = 0;
    let before = ctx.clone();
    assert_eq!(stake(&mut ctx, false, 0), Err(PoolError::InvalidPeriod));
    assert_eq!(ctx, before);
    ctx.pool.data.period = -5;
    assert_eq!(stake(&mut ctx, false, 0), Err(PoolError::InvalidPeriod));
}

#[test]
fn stake_checks_the_record_before_the_mint() {
    let mut ctx = stake_ctx(USER, 5_000);
    ctx.stake_data = blank_record(ADMIN);
    ctx.nft_mint.data = Mint { decimals: 2, supply: 500 };
    ctx.metadata.primary_sale_happened = false;
    assert_eq!(stake(&mut ctx, false, 0), Err(PoolError::InvalidOwner));
    ctx.stake_data = blank_record(USER);
    assert_eq!(stake(&mut ctx, false, 0), Err(PoolError::InvalidTokenMint));
    ctx.nft_mint = nft_mint();
    assert_eq!(stake(&mut ctx, false, 0), Err(PoolError::InvalidMetadata));
}

#[test]
fn unstake_pays_the_reward_and_returns_the_nft() {
    let mut ctx = unstake_ctx(USER, staked_record(USER, false, 0, 1_000), 1_250);
    let before = ctx.clone();
    assert_eq!(unstake(&mut ctx), Ok((reward_of(25), nft_back())));
    assert_eq!(
        ctx.stake_data.data,
        StakeData {
            unstaked: true,
            locked: false,
            lock_period: 0,
            mint: key(NFT),
            owner: key(USER),
            pool: key(POOL),
            stake_time: 1_000,
            last_claim_time: 1_000,
            bump: 252,
        }
    );
    assert_eq!(ctx.pool.data, Pool { tvl: 2, ..before.pool.data });
    assert_eq!(ctx.collection_data, before.collection_data);
    assert_eq!(ctx.user_reward_account, before.user_reward_account);
}

#[test]
fn unstake_clears_the_lock() {
    let mut ctx = unstake_ctx(USER, staked_record(USER, true, 30, 1_000), 4_001);
    assert!(unstake(&mut ctx).is_ok());
    assert!(ctx.stake_data.data.unstaked);
    assert!(!ctx.stake_data.data.locked);
    assert_eq!(ctx.stake_data.data.lock_period, 0);
}

#[test]
fn unstake_count_stops_at_zero() {
    let mut ctx = unstake_ctx(USER, staked_record(USER, false, 0, 1_000), 1_250);
    ctx.pool.data.tvl = 0;
    assert!(unstake(&mut ctx).is_ok());
    assert_eq!(ctx.pool.data.tvl, 0);
}

#[test]
fn unstake_rejects_a_record_without_a_stake() {
    let mut ctx = unstake_ctx(USER, blank_record(USER), 1_250);
    let before = ctx.clone();
    assert_eq!(unstake(&mut ctx), Err(PoolError::AlreadyUnstaked));
    assert_eq!(ctx, before);
}

#[test]
fn unstake_twice_is_rejected_the_second_time() {
    let mut ctx = unstake_ctx(USER, staked_record(USER, false, 0, 1_000), 1_250);
    assert!(unstake(&mut ctx).is_ok());
    let after_first = ctx.clone();
    assert_eq!(unstake(&mut ctx), Err(PoolError::AlreadyUnstaked));
    assert_eq!(ctx, after_first);
}

#[test]
fn unstake_rejects_another_caller() {
    let mut ctx = unstake_ctx(USER, staked_record(USER, false, 0, 1_000), 1_250);
    ctx.owner = key(88);
    let before = ctx.clone();
    assert_eq!(unstake(&mut ctx), Err(PoolError::InvalidOwner));
    assert_eq!(ctx, before);
}

#[test]
fn unstake_rejects_a_record_of_another_pool() {
    let mut ctx = unstake_ctx(USER, staked_record(USER, false, 0, 1_000), 1_250);
    ctx.stake_data.data.pool = key(88);
    assert_eq!(unstake(&mut ctx), Err(PoolError::InvalidStakeData));
}

#[test]
fn unstake_rejects_reward_accounts_out_of_order() {
    let mut foreign = unstake_ctx(USER, staked_record(USER, false, 0, 1_000), 1_250);
    foreign.user_reward_account = token_account(USER_REWARD, ADMIN, REWARD_MINT);
    assert_eq!(unstake(&mut foreign), Err(PoolError::InvalidTokenAccount));

    let mut other_mint = unstake_ctx(USER, staked_record(USER, false, 0, 1_000), 1_250);
    other_mint.pool_reward_account = token_account(POOL_REWARD, POOL, NFT);
    assert_eq!(unstake(&mut other_mint), Err(PoolError::InvalidTokenAccount));

    let mut nft_account = unstake_ctx(USER, staked_record(USER, false, 0, 1_000), 1_250);
    nft_account.pool_nft_account = token_account(POOL_NFT, USER, NFT);
    let before = nft_account.clone();
    assert_eq!(unstake(&mut nft_account), Err(PoolError::InvalidTokenAccount));
    assert_eq!(nft_account, before);
}

#[test]
fn unstake_is_held_back_until_the_lock_is_over() {
    // The lock of 30 periods of 100 seconds, started at 1000, ends at 4000.
    let mut early = unstake_ctx(USER, staked_record(USER, true, 30, 1_000), 3_999);
    let before = early.clone();
    assert_eq!(unstake(&mut early), Err(PoolError::InvalidTime));
    assert_eq!(early, before);

    let mut at_the_end = unstake_ctx(USER, staked_record(USER, true, 30, 1_000), 4_000);
    assert_eq!(unstake(&mut at_the_end), Err(PoolError::InvalidTime));

    let mut after = unstake_ctx(USER, staked_record(USER, true, 30, 1_000), 4_001);
    assert_eq!(unstake(&mut after), Ok((reward_of(900), nft_back())));
}

#[test]
fn unstake_after_the_lock_pays_both_rates() {
    let mut ctx = unstake_ctx(USER, staked_record(USER, true, 30, 1_000), 4_100);
    assert_eq!(unstake(&mut ctx), Ok((reward_of(910), nft_back())));
}

#[test]
fn pool_owner_unstakes_under_lock_and_is_paid_twenty_times() {
    let mut ctx = unstake_ctx(ADMIN, staked_record(ADMIN, true, 30, 1_000), 2_000);
    let (reward, custody) = unstake(&mut ctx).unwrap();
    assert_eq!(reward.amount, 20 * 300);
    assert_eq!(reward.to, key(USER_REWARD));
    assert_eq!(custody.amount, 1);
    assert!(ctx.stake_data.data.unstaked);
}

#[test]
fn pool_owner_is_paid_twenty_times_without_lock_too() {
    let mut ctx = unstake_ctx(ADMIN, staked_record(ADMIN, false, 0, 1_000), 1_250);
    assert_eq!(unstake(&mut ctx).unwrap().0.amount, 500);
}

#[test]
fn unstake_rejects_an_improper_mint_and_metadata() {
    let mut mint = unstake_ctx(USER, staked_record(USER, false, 0, 1_000), 1_250);
    mint.nft_mint.data = Mint { decimals: 1, supply: 2 };
    assert_eq!(unstake(&mut mint), Err(PoolError::InvalidTokenMint));

    let mut supply = unstake_ctx(USER, staked_record(USER, false, 0, 1_000), 1_250);
    supply.nft_mint.data = Mint { decimals: 0, supply: 2 };
    assert_eq!(unstake(&mut supply), Err(PoolError::InvalidTokenMint));

    let mut no_creator = unstake_ctx(USER, staked_record(USER, false, 0, 1_000), 1_250);
    no_creator.metadata.creators = vec![];
    assert_eq!(unstake(&mut no_creator), Err(PoolError::InvalidMetadata));

    let mut other = unstake_ctx(USER, staked_record(USER, false, 0, 1_000), 1_250);
    other.metadata.mint = key(88);
    assert_eq!(unstake(&mut other), Err(PoolError::InvalidMetadata));

    let mut unsold = unstake_ctx(USER, staked_record(USER, false, 0, 1_000), 1_250);
    unsold.metadata.primary_sale_happened = false;
    let before = unsold.clone();
    assert_eq!(unstake(&mut unsold), Err(PoolError::InvalidMetadata));
    assert_eq!(unsold, before);
}

#[test]
fn unstake_checks_the_lock_before_the_mint() {
    let mut ctx = unstake_ctx(USER, staked_record(USER, true, 30, 1_000), 2_000);
    ctx.nft_mint.data = Mint { decimals: 1, supply: 2 };
    assert_eq!(unstake(&mut ctx), Err(PoolError::InvalidTime));
}

#[test]
fn unstake_rejects_a_clock_before_the_last_claim() {
    let mut ctx = unstake_ctx(USER, staked_record(USER, false, 0, 1_000), 999);
    let before = ctx.clone();
    assert_eq!(unstake(&mut ctx), Err(PoolError::InvalidTime));
    assert_eq!(ctx, before);
}

#[test]
fn unstake_rejects_a_period_that_is_not_positive() {
    let mut ctx = unstake_ctx(USER, staked_record(USER, false, 0, 1_000), 1_250);
    ctx.pool.data.period = 0;
    let before = ctx.clone();
    assert_eq!(unstake(&mut ctx), Err(PoolError::InvalidPeriod));
    assert_eq!(ctx, before);
}

#[test]
fn unstake_rejects_a_reward_that_the_multiplier_pushes_over() {
    let mut ctx = unstake_ctx(ADMIN, staked_record(ADMIN, false, 0, 0), 100);
    ctx.collection_data.data.reward_normal = u64::MAX / 20 + 1;
    let before = ctx.clone();
    assert_eq!(unstake(&mut ctx), Err(PoolError::TokenTransferFailed));
    assert_eq!(ctx, before);
    ctx.collection_data.data.reward_normal = u64::MAX / 20;
    assert_eq!(unstake(&mut ctx).unwrap().0.amount, u64::MAX / 20 * 20);
}

#[test]
fn claim_pays_and_restarts_the_accrual() {
    let mut ctx = claim_ctx(USER, staked_record(USER, false, 0, 1_000), 1_250);
    let before = ctx.clone();
    assert_eq!(claim(&mut ctx), Ok(reward_of(25)));
    assert_eq!(
        ctx.stake_data.data,
        StakeData { last_claim_time: 1_250, ..before.stake_data.data }
    );
    assert_eq!(ctx.pool, before.pool);
    assert_eq!(ctx.collection_data, before.collection_data);
    assert_eq!(ctx.metadata, before.metadata);
}

#[test]
fn claim_twice_at_once_pays_nothing_the_second_time() {
    let mut ctx = claim_ctx(USER, staked_record(USER, true, 30, 1_000), 2_000);
    assert_eq!(claim(&mut ctx), Ok(reward_of(300)));
    let after_first = ctx.clone();
    assert_eq!(claim(&mut ctx), Ok(reward_of(0)));
    assert_eq!(ctx, after_first);
}

#[test]
fn claim_twice_at_once_pays_the_pool_owner_nothing_the_second_time() {
    let mut ctx = claim_ctx(ADMIN, staked_record(ADMIN, false, 0, 1_000), 2_000);
    assert_eq!(claim(&mut ctx).unwrap().amount, 50 * 100);
    let after_first = ctx.clone();
    assert_eq!(claim(&mut ctx).unwrap().amount, 0);
    assert_eq!(ctx, after_first);
}

#[test]
fn claims_in_a_row_pay_for_the_time_between_them() {
    let mut ctx = claim_ctx(USER, staked_record(USER, false, 0, 1_000), 1_250);
    assert_eq!(claim(&mut ctx).unwrap().amount, 25);
    ctx.clock.unix_timestamp = 1_300;
    assert_eq!(claim(&mut ctx).unwrap().amount, 5);
    assert_eq!(ctx.stake_data.data.last_claim_time, 1_300);
    assert_eq!(ctx.stake_data.data.stake_time, 1_000);
}

#[test]
fn claim_across_the_end_of_the_lock() {
    // Staked at 0 with a lock of one period of 100 seconds, claimed at 50 and at 150.
    let mut ctx = claim_ctx(USER, staked_record(USER, true, 1, 0), 50);
    assert_eq!(claim(&mut ctx).unwrap().amount, 10);
    ctx.clock.unix_timestamp = 150;
    assert_eq!(claim(&mut ctx).unwrap().amount, 15);
    ctx.clock.unix_timestamp = 350;
    assert_eq!(claim(&mut ctx).unwrap().amount, 20);
}

#[test]
fn claim_under_lock_is_not_held_back() {
    let mut ctx = claim_ctx(USER, staked_record(USER, true, 60, 1_000), 2_000);
    assert_eq!(claim(&mut ctx), Ok(reward_of(400)));
    assert!(ctx.stake_data.data.locked);
    assert_eq!(ctx.stake_data.data.lock_period, 60);
}

#[test]
fn pool_owner_claims_fifty_times_the_reward() {
    let mut ctx = claim_ctx(ADMIN, staked_record(ADMIN, false, 0, 1_000), 1_250);
    assert_eq!(claim(&mut ctx).unwrap().amount, 1_250);
}

#[test]
fn claim_of_an_ultra_is_doubled() {
    let mut ctx = claim_ctx(USER, staked_record(USER, false, 0, 1_000), 1_250);
    ctx.collection_data = collection(vec![key(NFT)]);
    assert_eq!(claim(&mut ctx).unwrap().amount, 50);
}

#[test]
fn claim_rejects_a_record_without_a_stake() {
    let mut ctx = claim_ctx(USER, blank_record(USER), 1_250);
    let before = ctx.clone();
    assert_eq!(claim(&mut ctx), Err(PoolError::AlreadyUnstaked));
    assert_eq!(ctx, before);
}

#[test]
fn claim_rejects_another_caller_and_another_pool() {
    let mut caller = claim_ctx(USER, staked_record(ADMIN, false, 0, 1_000), 1_250);
    assert_eq!(claim(&mut caller), Err(PoolError::InvalidOwner));

    let mut other_pool = claim_ctx(USER, staked_record(USER, false, 0, 1_000), 1_250);
    other_pool.stake_data.data.pool = key(88);
    let before = other_pool.clone();
    assert_eq!(claim(&mut other_pool), Err(PoolError::InvalidStakeData));
    assert_eq!(other_pool, before);
}

#[test]
fn claim_rejects_reward_accounts_out_of_order() {
    let mut foreign = claim_ctx(USER, staked_record(USER, false, 0, 1_000), 1_250);
    foreign.user_reward_account = token_account(USER_REWARD, ADMIN, REWARD_MINT);
    assert_eq!(claim(&mut foreign), Err(PoolError::InvalidTokenAccount));

    let mut other_mint = claim_ctx(USER, staked_record(USER, false, 0, 1_000), 1_250);
    other_mint.user_reward_account = token_account(USER_REWARD, USER, NFT);
    assert_eq!(claim(&mut other_mint), Err(PoolError::InvalidTokenAccount));

    let mut not_the_pools = claim_ctx(USER, staked_record(USER, false, 0, 1_000), 1_250);
    not_the_pools.pool_reward_account = token_account(POOL_REWARD, USER, REWARD_MINT);
    let before = not_the_pools.clone();
    assert_eq!(claim(&mut not_the_pools), Err(PoolError::InvalidTokenAccount));
    assert_eq!(not_the_pools, before);
}

#[test]
fn claim_rejects_metadata_that_does_not_vouch() {
    let mut symbol = claim_ctx(USER, staked_record(USER, false, 0, 1_000), 1_250);
    symbol.metadata.symbol = "IV".to_string();
    assert_eq!(claim(&mut symbol), Err(PoolError::InvalidMetadata));

    let mut creator = claim_ctx(USER, staked_record(USER, false, 0, 1_000), 1_250);
    creator.metadata.creators = vec![key(77)];
    assert_eq!(claim(&mut creator), Err(PoolError::InvalidMetadata));

    let mut unsold = claim_ctx(USER, staked_record(USER, false, 0, 1_000), 1_250);
    unsold.metadata.primary_sale_happened = false;
    let before = unsold.clone();
    assert_eq!(claim(&mut unsold), Err(PoolError::InvalidMetadata));
    assert_eq!(unsold, before);
}

#[test]
fn claim_does_not_compare_the_metadata_mint() {
    let mut ctx = claim_ctx(USER, staked_record(USER, false, 0, 1_000), 1_250);
    ctx.metadata.mint = key(88);
    assert_eq!(claim(&mut ctx), Ok(reward_of(25)));
}

#[test]
fn claim_rejects_a_clock_before_the_last_claim() {
    let mut ctx = claim_ctx(USER, staked_record(USER, false, 0, 1_000), 999);
    let before = ctx.clone();
    assert_eq!(claim(&mut ctx), Err(PoolError::InvalidTime));
    assert_eq!(ctx, before);
}

#[test]
fn claim_rejects_a_period_that_is_not_positive() {
    let mut ctx = claim_ctx(USER, staked_record(USER, false, 0, 1_000), 1_250);
    ctx.pool.data.period = -1;
    let before = ctx.clone();
    assert_eq!(claim(&mut ctx), Err(PoolError::InvalidPeriod));
    assert_eq!(ctx, before);
}

#[test]
fn claim_rejects_a_reward_beyond_one_transfer() {
    let mut ctx = claim_ctx(USER, staked_record(USER, false, 0, 0), 200);
    ctx.collection_data.data.reward_normal = u64::MAX;
    let before = ctx.clone();
    assert_eq!(claim(&mut ctx), Err(PoolError::TokenTransferFailed));
    assert_eq!(ctx, before);

    let mut admin = claim_ctx(ADMIN, staked_record(ADMIN, false, 0, 0), 100);
    admin.collection_data.data.reward_normal = u64::MAX / 50 + 1;
    assert_eq!(claim(&mut admin), Err(PoolError::TokenTransferFailed));
    admin.collection_data.data.reward_normal = u64::MAX / 50;
    assert_eq!(claim(&mut admin).unwrap().amount, u64::MAX / 50 * 50);
}

#[test]
fn stake_then_unstake_without_lock_returns_the_nft_and_the_count() {
    let mut staking = stake_ctx(USER, 5_000);
    let count_before = staking.pool.data.tvl;
    let into_custody = stake(&mut staking, false, 0).unwrap();
    assert_eq!(staking.pool.data.tvl, count_before + 1);

    let mut unstaking = Unstake {
        owner: staking.owner,
        pool: staking.pool.clone(),
        collection_data: staking.collection_data.clone(),
        stake_data: staking.stake_data.clone(),
        nft_mint: staking.nft_mint.clone(),
        metadata: staking.metadata.clone(),
        user_nft_account: staking.user_nft_account.clone(),
        pool_nft_account: staking.pool_nft_account.clone(),
        user_reward_account: token_account(USER_REWARD, USER, REWARD_MINT),
        pool_reward_account: token_account(POOL_REWARD, POOL, REWARD_MINT),
        clock: Clock { unix_timestamp: 5_000 },
    };
    let (reward, out_of_custody) = unstake(&mut unstaking).unwrap();
    assert_eq!(reward.amount, 0);
    assert_eq!(out_of_custody.asset, into_custody.asset);
    assert_eq!(out_of_custody.from, into_custody.to);
    assert_eq!(out_of_custody.to, into_custody.from);
    assert_eq!(out_of_custody.amount, into_custody.amount);
    assert_eq!(unstaking.user_nft_account.data.owner, key(USER));
    assert_eq!(unstaking.pool.data.tvl, count_before);
    let mut expected = blank_record(USER);
    expected.data.stake_time = 5_000;
    expected.data.last_claim_time = 5_000;
    assert_eq!(unstaking.stake_data, expected);
}

#[test]
fn stake_then_unstake_at_a_full_count_loses_one() {
    let mut staking = stake_ctx(USER, 5_000);
    staking.pool.data.tvl = 255;
    stake(&mut staking, false, 0).unwrap();
    let mut unstaking = unstake_ctx(USER, staking.stake_data.clone(), 5_000);
    unstaking.pool = staking.pool.clone();
    unstake(&mut unstaking).unwrap();
    assert_eq!(unstaking.pool.data.tvl, 254);
}

#[test]
fn record_serves_a_second_stake() {
    let mut staking = stake_ctx(USER, 5_000);
    stake(&mut staking, true, 30).unwrap();
    let mut unstaking = unstake_ctx(USER, staking.stake_data.clone(), 9_000);
    unstake(&mut unstaking).unwrap();
    let mut again = stake_ctx(USER, 9_500);
    again.stake_data = unstaking.stake_data.clone();
    assert_eq!(stake(&mut again, false, 0), Ok(nft_in(USER)));
    assert_eq!(again.stake_data.data.stake_time, 9_500);
    assert_eq!(again.stake_data.data.last_claim_time, 9_500);
    assert!(!again.stake_data.data.unstaked);
}

#[test]
fn record_goes_from_unstaked_to_staked_and_back() {
    let mut staking = stake_ctx(USER, 5_000);
    assert_eq!(staking.stake_data.data.state(), StakeState::Unstaked);
    stake(&mut staking, true, 30).unwrap();
    assert_eq!(
        staking.stake_data.data.state(),
        StakeState::Staked { locked: true, lock_period: 30 }
    );

    let mut claiming = claim_ctx(USER, staking.stake_data.clone(), 6_000);
    claim(&mut claiming).unwrap();
    assert_eq!(
        claiming.stake_data.data.state(),
        StakeState::Staked { locked: true, lock_period: 30 }
    );

    let mut unstaking = unstake_ctx(USER, claiming.stake_data.clone(), 9_000);
    unstake(&mut unstaking).unwrap();
    assert_eq!(unstaking.stake_data.data.state(), StakeState::Unstaked);
}

#[test]
fn withdraw_draws_one_token() {
    let ctx = withdraw_ctx();
    assert_eq!(withdraw(&ctx), Ok(nft_back()));
}

#[test]
fn withdraw_request_draws_the_amount_asked_for() {
    let ctx = withdraw_ctx();
    assert_eq!(withdraw_request(&ctx, 17), Ok(Transfer { amount: 17, ..nft_back() }));
    assert_eq!(withdraw_request(&ctx, 0), Ok(Transfer { amount: 0, ..nft_back() }));
}

#[test]
fn withdraw_rejects_token_accounts_out_of_order() {
    let mut user = withdraw_ctx();
    user.user_nft_account = token_account(USER_NFT, ADMIN, NFT);
    assert_eq!(withdraw(&user), Err(PoolError::InvalidTokenAccount));
    assert_eq!(withdraw_request(&user, 3), Err(PoolError::InvalidTokenAccount));

    let mut source = withdraw_ctx();
    source.pool_nft_account = token_account(POOL_NFT, POOL, NFT);
    assert_eq!(withdraw(&source), Err(PoolError::InvalidTokenAccount));
}

#[test]
fn settle_commits_when_the_transfers_went_through() {
    let mut records = claim_ctx(USER, staked_record(USER, false, 0, 1_000), 1_250);
    let mut staged = records.clone();
    claim(&mut staged).unwrap();
    let expected = staged.clone();
    assert_eq!(settle(&mut records, staged, true), Ok(()));
    assert_eq!(records, expected);
    assert_eq!(records.stake_data.data.last_claim_time, 1_250);
}

#[test]
fn settle_keeps_the_records_when_a_transfer_failed() {
    let mut records = claim_ctx(USER, staked_record(USER, false, 0, 1_000), 1_250);
    let before = records.clone();
    let mut staged = records.clone();
    claim(&mut staged).unwrap();
    assert_eq!(settle(&mut records, staged, false), Err(PoolError::TokenTransferFailed));
    assert_eq!(records, before);
    assert_eq!(records.stake_data.data.last_claim_time, 1_000);
}
