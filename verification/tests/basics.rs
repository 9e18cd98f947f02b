use nft_staking::{
    contains_key, pool_authority, Account, Authority, Metadata, Mint, Pool, PoolError, Pubkey,
    TokenAccount, AUTHORITY_CLAIM_MULTIPLIER, AUTHORITY_UNSTAKE_MULTIPLIER, BASIS_POINTS,
    SECOND_TIER_LOCK, THIRD_TIER_LOCK, ULTRA_MULTIPLIER,
};

fn key(tag: u8) -> Pubkey {
    Pubkey::new_from_array([tag; 32])
}

#[test]
fn pubkey_keeps_its_bytes() {
    let mut bytes = [0u8; 32];
    for (i, b) in bytes.iter_mut().enumerate() {
        *b = i as u8 * 3;
    }
    assert_eq!(Pubkey::new_from_array(bytes).to_bytes(), bytes);
}

#[test]
fn pubkeys_are_equal_when_all_bytes_are() {
    let a = key(7);
    assert!(a == key(7));
    assert!(a != key(8));
    for i in [0usize, 1, 15, 30, 31] {
        let mut bytes = [7u8; 32];
        bytes[i] = 8;
        assert!(a != Pubkey::new_from_array(bytes));
        assert!(!(a == Pubkey::new_from_array(bytes)));
    }
}

#[test]
fn contains_key_finds_what_is_listed() {
    let keys = vec![key(1), key(2), key(3)];
    assert!(contains_key(&keys, &key(1)));
    assert!(contains_key(&keys, &key(3)));
    assert!(!contains_key(&keys, &key(4)));
    assert!(!contains_key(&vec![], &key(1)));
}

#[test]
fn policy_constants() {
    assert_eq!(AUTHORITY_UNSTAKE_MULTIPLIER, 20);
    assert_eq!(AUTHORITY_CLAIM_MULTIPLIER, 50);
    assert_eq!(ULTRA_MULTIPLIER, 2);
    assert_eq!(SECOND_TIER_LOCK, 30);
    assert_eq!(THIRD_TIER_LOCK, 60);
    assert_eq!(BASIS_POINTS, 10_000);
}

#[test]
fn error_messages() {
    assert_eq!(PoolError::InvalidTier.message(), "Invalid tier");
    assert_eq!(PoolError::TokenSetAuthorityFailed.message(), "Token set authority failed");
    assert_eq!(PoolError::TokenTransferFailed.message(), "Token transfer failed");
    assert_eq!(PoolError::InvalidTokenAccount.message(), "Invalid token account");
    assert_eq!(PoolError::InvalidTokenMint.message(), "Invalid token mint");
    assert_eq!(PoolError::InvalidMetadata.message(), "Invalid metadata");
    assert_eq!(PoolError::InvalidStakeData.message(), "Invalid stakedata account");
    assert_eq!(PoolError::InvalidTime.message(), "Invalid time");
    assert_eq!(PoolError::InvalidPeriod.message(), "Invalid Period");
    assert_eq!(PoolError::AlreadyUnstaked.message(), "Already unstaked");
    assert_eq!(PoolError::InvalidOwner.message(), "Invalid owner");
}

#[test]
fn collectible_is_a_single_token_without_decimals() {
    assert!(Mint { decimals: 0, supply: 1 }.is_collectible());
    assert!(!Mint { decimals: 0, supply: 2 }.is_collectible());
    assert!(!Mint { decimals: 0, supply: 0 }.is_collectible());
    assert!(!Mint { decimals: 3, supply: 1 }.is_collectible());
    assert!(!Mint { decimals: 3, supply: 2 }.is_collectible());
}

#[test]
fn token_account_is_held_by_owner_and_mint() {
    let account = TokenAccount { mint: key(1), owner: key(2) };
    assert!(account.is_held(key(2), key(1)));
    assert!(!account.is_held(key(1), key(2)));
    assert!(!account.is_held(key(2), key(3)));
    assert!(!account.is_held(key(3), key(1)));
}

#[test]
fn metadata_vouches_for_its_first_creator() {
    let record = Metadata {
        mint: key(9),
        symbol: "HERO".to_string(),
        creators: vec![key(3), key(4)],
        primary_sale_happened: true,
    };
    assert!(record.vouches_for(key(3)));
    assert!(!record.vouches_for(key(4)));
    assert!(!Metadata { primary_sale_happened: false, ..record.clone() }.vouches_for(key(3)));
    assert!(!Metadata { symbol: "IV".to_string(), ..record.clone() }.vouches_for(key(3)));
    assert!(!Metadata { creators: vec![], ..record.clone() }.vouches_for(key(3)));
    assert!(Metadata { creators: vec![key(3)], ..record }.vouches_for(key(3)));
}

#[test]
fn pool_signs_with_its_seed_and_bump() {
    let pool = Account {
        key: key(2),
        data: Pool {
            owner: key(1),
            rand: key(5),
            reward_mint: key(6),
            start_time: 1,
            period: 100,
            tvl: 0,
            bump: 250,
        },
    };
    assert_eq!(pool_authority(&pool), Authority::Pool { key: key(2), rand: key(5), bump: 250 });
}
