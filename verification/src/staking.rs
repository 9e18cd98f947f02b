//! The stake ledger: staking an NFT, claiming its reward and unstaking it.
//!
//! A stake record starts without a stake. `stake` takes the NFT into the
//! pool's custody and starts the accrual, `claim` pays what has accrued and
//! starts anew from the time of the claim, `unstake` pays what has accrued
//! and hands the NFT back. The record stays and serves the next stake.

use vstd::prelude::*;
use crate::accounts::{Account, Clock, Metadata, Mint, TokenAccount};
use crate::error::PoolError;
use crate::ledger::{pool_authority, spec_pool_authority, Asset, Authority, Transfer};
use crate::pubkey::Pubkey;
use crate::reward::{accrual, accrued_reward, lemma_nothing_owed_at_once, lock_elapsed};
use crate::state::{Collection, Pool, StakeData, StakeState};

verus! {

/// By how much the reward is multiplied when the pool's owner unstakes.
pub const AUTHORITY_UNSTAKE_MULTIPLIER: u64 = 20;

/// By how much the reward is multiplied when the pool's owner claims.
pub const AUTHORITY_CLAIM_MULTIPLIER: u64 = 50;

/// The accounts of `init_stake_data`.
#[derive(Clone, Debug, PartialEq, Eq)]
pub struct InitStakeData {
    pub owner: Pubkey,
    pub pool: Account<Pool>,
    pub nft_mint: Account<Mint>,
    /// The record to set up.
    pub stake_data: Account<StakeData>,
}

/// The accounts of `stake`.
#[derive(Clone, Debug, PartialEq, Eq)]
pub struct Stake {
    /// Who signed the operation.
    pub owner: Pubkey,
    pub pool: Account<Pool>,
    pub collection_data: Account<Collection>,
    pub stake_data: Account<StakeData>,
    pub nft_mint: Account<Mint>,
    pub metadata: Metadata,
    /// Where the owner holds the NFT.
    pub user_nft_account: Account<TokenAccount>,
    /// Where the pool keeps the NFT while it is staked.
    pub pool_nft_account: Account<TokenAccount>,
    pub clock: Clock,
}

/// The accounts of `unstake`.
#[derive(Clone, Debug, PartialEq, Eq)]
pub struct Unstake {
    /// Who signed the operation.
    pub owner: Pubkey,
    pub pool: Account<Pool>,
    pub collection_data: Account<Collection>,
    pub stake_data: Account<StakeData>,
    pub nft_mint: Account<Mint>,
    pub metadata: Metadata,
    pub user_nft_account: Account<TokenAccount>,
    pub pool_nft_account: Account<TokenAccount>,
    /// Where the owner receives the reward.
    pub user_reward_account: Account<TokenAccount>,
    /// Where the pool holds its reward tokens.
    pub pool_reward_account: Account<TokenAccount>,
    pub clock: Clock,
}

/// The accounts of `claim`.
#[derive(Clone, Debug, PartialEq, Eq)]
pub struct Claim {
    /// Who signed the operation.
    pub owner: Pubkey,
    pub pool: Account<Pool>,
    pub collection_data: Account<Collection>,
    pub metadata: Metadata,
    pub stake_data: Account<StakeData>,
    pub user_reward_account: Account<TokenAccount>,
    pub pool_reward_account: Account<TokenAccount>,
    pub clock: Clock,
}

/// The accounts of `withdraw` and `withdraw_request`.
#[derive(Clone, Debug, PartialEq, Eq)]
pub struct Withdraw {
    /// Who signed the operation.
    pub owner: Pubkey,
    pub pool: Account<Pool>,
    pub nft_mint: Account<Mint>,
    pub user_nft_account: Account<TokenAccount>,
    pub pool_nft_account: Account<TokenAccount>,
}

/// Why a stake record cannot be used by `owner` with the pool at `pool`:
/// it names another owner, or it names another pool.
pub open spec fn record_rejection(stake: StakeData, owner: Pubkey, pool: Pubkey) -> Option<
    PoolError,
> {
    if stake.owner != owner {
        Some(PoolError::InvalidOwner)
    } else if stake.pool != pool {
        Some(PoolError::InvalidStakeData)
    } else {
        None
    }
}

/// The reward times the multiplier, or `TokenTransferFailed` where that is
/// more than one transfer can carry.
pub open spec fn multiplied(reward: u64, multiplier: u64) -> Result<u64, PoolError> {
    if reward * multiplier > u64::MAX {
        Err(PoolError::TokenTransferFailed)
    } else {
        Ok((reward * multiplier) as u64)
    }
}

impl InitStakeData {
    /// The record that `init_stake_data` writes: no stake yet, for the NFT,
    /// the owner and the pool of the operation.
    pub open spec fn fresh_record(self, bump: u8) -> StakeData {
        StakeData {
            unstaked: true,
            locked: false,
            lock_period: 0,
            mint: self.nft_mint.key,
            owner: self.owner,
            pool: self.pool.key,
            stake_time: 0,
            last_claim_time: 0,
            bump,
        }
    }
}

impl Stake {
    /// Why `stake` turns the operation down, if it does. The checks come in
    /// this order: the record is the signer's and the pool's; the two NFT
    /// accounts are the signer's and the pool's and hold this NFT; the mint
    /// is that of a collectible; the authenticity record speaks of this mint
    /// and vouches for it; the pool's period is positive.
    pub open spec fn rejection(self) -> Option<PoolError> {
        if record_rejection(self.stake_data.data, self.owner, self.pool.key) is Some {
            record_rejection(self.stake_data.data, self.owner, self.pool.key)
        } else if !self.user_nft_account.data.spec_is_held(self.owner, self.nft_mint.key)
            || !self.pool_nft_account.data.spec_is_held(self.pool.key, self.nft_mint.key) {
            Some(PoolError::InvalidTokenAccount)
        } else if !self.nft_mint.data.spec_is_collectible() {
            Some(PoolError::InvalidTokenMint)
        } else if self.metadata.mint != self.nft_mint.key || !self.metadata.spec_vouches_for(
            self.collection_data.data.creator,
        ) {
            Some(PoolError::InvalidMetadata)
        } else if self.pool.data.period <= 0 {
            Some(PoolError::InvalidPeriod)
        } else {
            None
        }
    }

    /// The NFT's way into custody: one token from the owner's account to
    /// the pool's, on the owner's signature.
    pub open spec fn custody_transfer(self) -> Transfer {
        Transfer {
            asset: Asset::Token,
            from: self.user_nft_account.key,
            to: self.pool_nft_account.key,
            authority: Authority::Signer { key: self.owner },
            amount: 1,
        }
    }

    /// The accounts after a stake: the record holds a stake that starts now,
    /// with the lock asked for, and the pool counts one more.
    pub open spec fn applied(self, locked: bool, lock_period: u64) -> Stake {
        Stake {
            pool: Account {
                data: Pool { tvl: counted_up(self.pool.data.tvl), ..self.pool.data },
                ..self.pool
            },
            stake_data: Account {
                data: StakeData {
                    unstaked: false,
                    stake_time: self.clock.unix_timestamp,
                    last_claim_time: self.clock.unix_timestamp,
                    locked,
                    lock_period,
                    ..self.stake_data.data
                },
                ..self.stake_data
            },
            ..self
        }
    }
}

/// One more than `tvl`, at most 255.
pub open spec fn counted_up(tvl: u8) -> u8 {
    if tvl == u8::MAX {
        tvl
    } else {
        (tvl + 1) as u8
    }
}

/// One less than `tvl`, at least 0.
pub open spec fn counted_down(tvl: u8) -> u8 {
    if tvl == 0 {
        tvl
    } else {
        (tvl - 1) as u8
    }
}

impl Unstake {
    /// The multiplier on the reward: 20 for the pool's owner, 1 for anyone
    /// else.
    pub open spec fn multiplier(self) -> u64 {
        if self.owner == self.pool.data.owner {
            AUTHORITY_UNSTAKE_MULTIPLIER
        } else {
            1
        }
    }

    /// Why the accounts are not in order, if they are not: the record is
    /// not the signer's and the pool's, or one of the four token accounts is
    /// not held by the signer or the pool as it should, for the NFT or for
    /// the pool's reward mint.
    pub open spec fn accounts_rejection(self) -> Option<PoolError> {
        if record_rejection(self.stake_data.data, self.owner, self.pool.key) is Some {
            record_rejection(self.stake_data.data, self.owner, self.pool.key)
        } else if !self.user_nft_account.data.spec_is_held(self.owner, self.nft_mint.key)
            || !self.pool_nft_account.data.spec_is_held(self.pool.key, self.nft_mint.key)
            || !self.user_reward_account.data.spec_is_held(self.owner, self.pool.data.reward_mint)
            || !self.pool_reward_account.data.spec_is_held(
            self.pool.key,
            self.pool.data.reward_mint,
        ) {
            Some(PoolError::InvalidTokenAccount)
        } else {
            None
        }
    }

    /// Whether the stake is still held by its lock: it is locked, the lock
    /// has not run out, and the signer is not the pool's owner.
    pub open spec fn held_by_lock(self) -> bool {
        &&& self.stake_data.data.locked
        &&& !lock_elapsed(
            self.stake_data.data,
            self.pool.data.period as int,
            self.clock.unix_timestamp as int,
        )
        &&& self.owner != self.pool.data.owner
    }

    /// What `unstake` pays, or why it turns the operation down. The checks
    /// come in this order: the accounts are in order; the record holds a
    /// stake; the lock does not hold it; the mint is that of a collectible;
    /// the authenticity record speaks of this mint and vouches for it; the
    /// calculator states a reward; the multiplied reward fits a transfer.
    pub open spec fn outcome(self) -> Result<u64, PoolError> {
        if self.accounts_rejection() is Some {
            Err(self.accounts_rejection()->0)
        } else if self.stake_data.data.unstaked {
            Err(PoolError::AlreadyUnstaked)
        } else if self.held_by_lock() {
            Err(PoolError::InvalidTime)
        } else if !self.nft_mint.data.spec_is_collectible() {
            Err(PoolError::InvalidTokenMint)
        } else if self.metadata.mint != self.nft_mint.key || !self.metadata.spec_vouches_for(
            self.collection_data.data.creator,
        ) {
            Err(PoolError::InvalidMetadata)
        } else {
            match accrual(
                self.collection_data.data,
                self.stake_data.data,
                self.pool.data.period,
                self.clock.unix_timestamp,
            ) {
                Ok(reward) => multiplied(reward, self.multiplier()),
                Err(e) => Err(e),
            }
        }
    }

    /// The payment of `amount` as reward: from the pool's reward account to
    /// the owner's, on the pool's authority.
    pub open spec fn reward_transfer(self, amount: u64) -> Transfer {
        Transfer {
            asset: Asset::Token,
            from: self.pool_reward_account.key,
            to: self.user_reward_account.key,
            authority: spec_pool_authority(self.pool),
            amount,
        }
    }

    /// The NFT's way back: one token from the pool's account to the
    /// owner's, on the pool's authority.
    pub open spec fn custody_transfer(self) -> Transfer {
        Transfer {
            asset: Asset::Token,
            from: self.pool_nft_account.key,
            to: self.user_nft_account.key,
            authority: spec_pool_authority(self.pool),
            amount: 1,
        }
    }

    /// The accounts after an unstake: the record holds no stake and no
    /// lock, and the pool counts one less.
    pub open spec fn applied(self) -> Unstake {
        Unstake {
            pool: Account {
                data: Pool { tvl: counted_down(self.pool.data.tvl), ..self.pool.data },
                ..self.pool
            },
            stake_data: Account {
                data: StakeData {
                    unstaked: true,
                    locked: false,
                    lock_period: 0,
                    ..self.stake_data.data
                },
                ..self.stake_data
            },
            ..self
        }
    }
}

impl Claim {
    /// The multiplier on the reward: 50 for the pool's owner, 1 for anyone
    /// else.
    pub open spec fn multiplier(self) -> u64 {
        if self.owner == self.pool.data.owner {
            AUTHORITY_CLAIM_MULTIPLIER
        } else {
            1
        }
    }

    /// Why the accounts are not in order, if they are not: the record is
    /// not the signer's and the pool's, or one of the two reward accounts is
    /// not held by the signer or the pool as it should, for the pool's
    /// reward mint.
    pub open spec fn accounts_rejection(self) -> Option<PoolError> {
        if record_rejection(self.stake_data.data, self.owner, self.pool.key) is Some {
            record_rejection(self.stake_data.data, self.owner, self.pool.key)
        } else if !self.user_reward_account.data.spec_is_held(
            self.owner,
            self.pool.data.reward_mint,
        ) || !self.pool_reward_account.data.spec_is_held(
            self.pool.key,
            self.pool.data.reward_mint,
        ) {
            Some(PoolError::InvalidTokenAccount)
        } else {
            None
        }
    }

    /// What `claim` pays, or why it turns the operation down. The checks
    /// come in this order: the accounts are in order; the record holds a
    /// stake; the authenticity record vouches for the NFT; the calculator
    /// states a reward; the multiplied reward fits a transfer.
    pub open spec fn outcome(self) -> Result<u64, PoolError> {
        if self.accounts_rejection() is Some {
            Err(self.accounts_rejection()->0)
        } else if self.stake_data.data.unstaked {
            Err(PoolError::AlreadyUnstaked)
        } else if !self.metadata.spec_vouches_for(self.collection_data.data.creator) {
            Err(PoolError::InvalidMetadata)
        } else {
            match accrual(
                self.collection_data.data,
                self.stake_data.data,
                self.pool.data.period,
                self.clock.unix_timestamp,
            ) {
                Ok(reward) => multiplied(reward, self.multiplier()),
                Err(e) => Err(e),
            }
        }
    }

    /// The payment of `amount` as reward: from the pool's reward account to
    /// the owner's, on the pool's authority.
    pub open spec fn reward_transfer(self, amount: u64) -> Transfer {
        Transfer {
            asset: Asset::Token,
            from: self.pool_reward_account.key,
            to: self.user_reward_account.key,
            authority: spec_pool_authority(self.pool),
            amount,
        }
    }

    /// The accounts after a claim: the record's last claim is now.
    pub open spec fn applied(self) -> Claim {
        Claim {
            stake_data: Account {
                data: StakeData {
                    last_claim_time: self.clock.unix_timestamp,
                    ..self.stake_data.data
                },
                ..self.stake_data
            },
            ..self
        }
    }
}

impl Withdraw {
    /// Why a withdrawal is turned down, if it is: the owner's account is
    /// not the signer's for this NFT, or the account to draw from is not
    /// the signer's with the pool's address for a mint.
    pub open spec fn rejection(self) -> Option<PoolError> {
        if !self.user_nft_account.data.spec_is_held(self.owner, self.nft_mint.key)
            || !self.pool_nft_account.data.spec_is_held(self.owner, self.pool.key) {
            Some(PoolError::InvalidTokenAccount)
        } else {
            None
        }
    }

    /// The withdrawal of `amount` tokens: from the pool's account to the
    /// owner's, on the pool's authority.
    pub open spec fn withdrawal(self, amount: u64) -> Transfer {
        Transfer {
            asset: Asset::Token,
            from: self.pool_nft_account.key,
            to: self.user_nft_account.key,
            authority: spec_pool_authority(self.pool),
            amount,
        }
    }
}

/// Whether `stake` can be used by `owner` with the pool at `pool`.
fn check_record(stake: &StakeData, owner: Pubkey, pool: Pubkey) -> (res: Result<(), PoolError>)
    ensures
        (match res {
            Ok(_) => record_rejection(*stake, owner, pool) is None,
            Err(e) => record_rejection(*stake, owner, pool) == Some(e),
        }),
{
    if stake.owner != owner {
        Err(PoolError::InvalidOwner)
    } else if stake.pool != pool {
        Err(PoolError::InvalidStakeData)
    } else {
        Ok(())
    }
}

/// The reward times the multiplier, if one transfer can carry it.
fn multiply(reward: u64, multiplier: u64) -> (res: Result<u64, PoolError>)
    ensures
        res == multiplied(reward, multiplier),
{
    match reward.checked_mul(multiplier) {
        Some(amount) => Ok(amount),
        None => Err(PoolError::TokenTransferFailed),
    }
}

/// Whether the lock of `stake` is over at `now`.
fn lock_has_elapsed(stake: &StakeData, period: i64, now: i64) -> (over: bool)
    ensures
        over == lock_elapsed(*stake, period as int, now as int),
{
    assert(-0xffff_ffff_ffff_ffff * 0x8000_0000_0000_0000 <= stake.lock_period * period
        <= 0xffff_ffff_ffff_ffff * 0x7fff_ffff_ffff_ffff) by (nonlinear_arith)
        requires
            0 <= stake.lock_period <= 0xffff_ffff_ffff_ffff,
            -0x8000_0000_0000_0000 <= period <= 0x7fff_ffff_ffff_ffff,
    ;
    let end: i128 = stake.stake_time as i128 + (stake.lock_period as i128) * (period as i128);
    now as i128 > end
}

/// Sets up the record of a stake that is yet to come. This always
/// succeeds.
pub fn init_stake_data(ctx: &mut InitStakeData, bump: u8) -> (res: Result<(), PoolError>)
    ensures
        res is Ok,
        *final(ctx) == (InitStakeData {
            stake_data: Account {
                data: old(ctx).fresh_record(bump),
                ..old(ctx).stake_data
            },
            ..*old(ctx)
        }),
        final(ctx).stake_data.data.state() == StakeState::Unstaked,
        final(ctx).stake_data.data.wf(),
{
    ctx.stake_data.data = StakeData {
        unstaked: true,
        locked: false,
        lock_period: 0,
        mint: ctx.nft_mint.key,
        owner: ctx.owner,
        pool: ctx.pool.key,
        stake_time: 0,
        last_claim_time: 0,
        bump,
    };
    Ok(())
}

/// Stakes the NFT, with or without a lock of `lock_period` periods. On
/// success the record holds a stake that starts at the clock's reading,
/// the pool counts one more staked NFT (up to 255), and the transfer
/// returned takes the NFT into the pool's custody. A rejected stake
/// changes nothing.
pub fn stake(ctx: &mut Stake, locked: bool, lock_period: u64) -> (res: Result<Transfer, PoolError>)
    ensures
        (match res {
            Ok(transfer) => {
                &&& old(ctx).rejection() is None
                &&& transfer == old(ctx).custody_transfer()
                &&& *final(ctx) == old(ctx).applied(locked, lock_period)
                &&& final(ctx).stake_data.data.state() == (StakeState::Staked {
                    locked,
                    lock_period,
                })
            },
            Err(e) => old(ctx).rejection() == Some(e) && *final(ctx) == *old(ctx),
        }),
        old(ctx).pool.data.wf() && old(ctx).stake_data.data.wf() ==> final(ctx).pool.data.wf()
            && final(ctx).stake_data.data.wf(),
{
    check_record(&ctx.stake_data.data, ctx.owner, ctx.pool.key)?;
    if !ctx.user_nft_account.data.is_held(ctx.owner, ctx.nft_mint.key)
        || !ctx.pool_nft_account.data.is_held(ctx.pool.key, ctx.nft_mint.key) {
        return Err(PoolError::InvalidTokenAccount);
    }
    if !ctx.nft_mint.data.is_collectible() {
        return Err(PoolError::InvalidTokenMint);
    }
    if ctx.metadata.mint != ctx.nft_mint.key || !ctx.metadata.vouches_for(
        ctx.collection_data.data.creator,
    ) {
        return Err(PoolError::InvalidMetadata);
    }
    if ctx.pool.data.period <= 0 {
        return Err(PoolError::InvalidPeriod);
    }
    let transfer = Transfer {
        asset: Asset::Token,
        from: ctx.user_nft_account.key,
        to: ctx.pool_nft_account.key,
        authority: Authority::Signer { key: ctx.owner },
        amount: 1,
    };
    ctx.stake_data.data.unstaked = false;
    ctx.stake_data.data.stake_time = ctx.clock.unix_timestamp;
    ctx.stake_data.data.last_claim_time = ctx.clock.unix_timestamp;
    ctx.stake_data.data.locked = locked;
    ctx.stake_data.data.lock_period = lock_period;
    ctx.pool.data.tvl = ctx.pool.data.tvl.saturating_add(1);
    Ok(transfer)
}

/// Ends the stake. On success the record holds no stake and no lock, the
/// pool counts one less staked NFT (down to 0), and the two transfers
/// returned pay the reward, 20 times over for the pool's owner, and then
/// hand the NFT back. A locked stake can only be ended once its lock has
/// run out, unless the pool's owner ends it. A rejected unstake changes
/// nothing.
pub fn unstake(ctx: &mut Unstake) -> (res: Result<(Transfer, Transfer), PoolError>)
    ensures
        (match res {
            Ok((reward, custody)) => {
                &&& old(ctx).outcome() is Ok
                &&& reward == old(ctx).reward_transfer(old(ctx).outcome()->Ok_0)
                &&& custody == old(ctx).custody_transfer()
                &&& *final(ctx) == old(ctx).applied()
                &&& final(ctx).stake_data.data.state() == StakeState::Unstaked
            },
            Err(e) => old(ctx).outcome() == Err::<u64, PoolError>(e) && *final(ctx) == *old(ctx),
        }),
        old(ctx).pool.data.wf() && old(ctx).stake_data.data.wf() ==> final(ctx).pool.data.wf()
            && final(ctx).stake_data.data.wf(),
{
    check_record(&ctx.stake_data.data, ctx.owner, ctx.pool.key)?;
    if !ctx.user_nft_account.data.is_held(ctx.owner, ctx.nft_mint.key)
        || !ctx.pool_nft_account.data.is_held(ctx.pool.key, ctx.nft_mint.key)
        || !ctx.user_reward_account.data.is_held(ctx.owner, ctx.pool.data.reward_mint)
        || !ctx.pool_reward_account.data.is_held(ctx.pool.key, ctx.pool.data.reward_mint) {
        return Err(PoolError::InvalidTokenAccount);
    }
    if ctx.stake_data.data.unstaked {
        return Err(PoolError::AlreadyUnstaked);
    }
    let by_authority = ctx.owner == ctx.pool.data.owner;
    if ctx.stake_data.data.locked && !lock_has_elapsed(
        &ctx.stake_data.data,
        ctx.pool.data.period,
        ctx.clock.unix_timestamp,
    ) && !by_authority {
        return Err(PoolError::InvalidTime);
    }
    if !ctx.nft_mint.data.is_collectible() {
        return Err(PoolError::InvalidTokenMint);
    }
    if ctx.metadata.mint != ctx.nft_mint.key || !ctx.metadata.vouches_for(
        ctx.collection_data.data.creator,
    ) {
        return Err(PoolError::InvalidMetadata);
    }
    let reward = accrued_reward(
        &ctx.collection_data.data,
        &ctx.stake_data.data,
        ctx.pool.data.period,
        ctx.clock.unix_timestamp,
    )?;
    let multiplier: u64 = if by_authority {
        AUTHORITY_UNSTAKE_MULTIPLIER
    } else {
        1
    };
    let amount = multiply(reward, multiplier)?;
    let authority = pool_authority(&ctx.pool);
    let reward_transfer = Transfer {
        asset: Asset::Token,
        from: ctx.pool_reward_account.key,
        to: ctx.user_reward_account.key,
        authority,
        amount,
    };
    let custody_transfer = Transfer {
        asset: Asset::Token,
        from: ctx.pool_nft_account.key,
        to: ctx.user_nft_account.key,
        authority,
        amount: 1,
    };
    ctx.stake_data.data.unstaked = true;
    ctx.stake_data.data.locked = false;
    ctx.stake_data.data.lock_period = 0;
    ctx.pool.data.tvl = ctx.pool.data.tvl.saturating_sub(1);
    Ok((reward_transfer, custody_transfer))
}

/// Pays what the stake has earned since its last claim, 50 times over for
/// the pool's owner. On success the record's last claim is the clock's
/// reading and the transfer returned pays the reward. A rejected claim
/// changes nothing.
pub fn claim(ctx: &mut Claim) -> (res: Result<Transfer, PoolError>)
    ensures
        (match res {
            Ok(reward) => {
                &&& old(ctx).outcome() is Ok
                &&& reward == old(ctx).reward_transfer(old(ctx).outcome()->Ok_0)
                &&& *final(ctx) == old(ctx).applied()
                &&& final(ctx).stake_data.data.state() == old(ctx).stake_data.data.state()
            },
            Err(e) => old(ctx).outcome() == Err::<u64, PoolError>(e) && *final(ctx) == *old(ctx),
        }),
        old(ctx).stake_data.data.wf() ==> final(ctx).stake_data.data.wf(),
{
    check_record(&ctx.stake_data.data, ctx.owner, ctx.pool.key)?;
    if !ctx.user_reward_account.data.is_held(ctx.owner, ctx.pool.data.reward_mint)
        || !ctx.pool_reward_account.data.is_held(ctx.pool.key, ctx.pool.data.reward_mint) {
        return Err(PoolError::InvalidTokenAccount);
    }
    if ctx.stake_data.data.unstaked {
        return Err(PoolError::AlreadyUnstaked);
    }
    if !ctx.metadata.vouches_for(ctx.collection_data.data.creator) {
        return Err(PoolError::InvalidMetadata);
    }
    let reward = accrued_reward(
        &ctx.collection_data.data,
        &ctx.stake_data.data,
        ctx.pool.data.period,
        ctx.clock.unix_timestamp,
    )?;
    let multiplier: u64 = if ctx.owner == ctx.pool.data.owner {
        AUTHORITY_CLAIM_MULTIPLIER
    } else {
        1
    };
    let amount = multiply(reward, multiplier)?;
    let reward_transfer = Transfer {
        asset: Asset::Token,
        from: ctx.pool_reward_account.key,
        to: ctx.user_reward_account.key,
        authority: pool_authority(&ctx.pool),
        amount,
    };
    ctx.stake_data.data.last_claim_time = ctx.clock.unix_timestamp;
    Ok(reward_transfer)
}

/// Draws one token from the pool's account to the owner's. The accounts
/// are left as they are.
pub fn withdraw(ctx: &Withdraw) -> (res: Result<Transfer, PoolError>)
    ensures
        (match res {
            Ok(transfer) => ctx.rejection() is None && transfer == ctx.withdrawal(1),
            Err(e) => ctx.rejection() == Some(e),
        }),
{
    withdraw_request(ctx, 1)
}

/// Draws `request_amount` tokens from the pool's account to the owner's.
/// The accounts are left as they are.
pub fn withdraw_request(ctx: &Withdraw, request_amount: u64) -> (res: Result<Transfer, PoolError>)
    ensures
        (match res {
            Ok(transfer) => ctx.rejection() is None && transfer == ctx.withdrawal(request_amount),
            Err(e) => ctx.rejection() == Some(e),
        }),
{
    if !ctx.user_nft_account.data.is_held(ctx.owner, ctx.nft_mint.key)
        || !ctx.pool_nft_account.data.is_held(ctx.owner, ctx.pool.key) {
        return Err(PoolError::InvalidTokenAccount);
    }
    Ok(
        Transfer {
            asset: Asset::Token,
            from: ctx.pool_nft_account.key,
            to: ctx.user_nft_account.key,
            authority: pool_authority(&ctx.pool),
            amount: request_amount,
        },
    )
}

/// Claiming twice without time passing pays once: where a claim is
/// accepted, a second claim at the same reading of the clock is accepted
/// too, pays 0, and leaves the accounts as the first claim left them.
pub proof fn lemma_claim_again_pays_nothing(ctx: Claim)
    requires
        ctx.outcome() is Ok,
    ensures
        ctx.applied().outcome() == Ok::<u64, PoolError>(0),
        ctx.applied().reward_transfer(0).amount == 0,
        ctx.applied().applied() == ctx.applied(),
{
    let again = ctx.applied();
    lemma_nothing_owed_at_once(
        again.collection_data.data,
        again.stake_data.data,
        again.pool.data.period as int,
    );
    assert(0 * again.multiplier() == 0);
}

/// A stake without a lock can be taken back. Let `after` name the accounts
/// as a stake of `before` without a lock left them, at a later reading of
/// the clock. Then the unstake hands the NFT back from the pool's account
/// to the account of the owner who staked it, and the pool's count returns
/// to what it was before the stake, unless it stood at 255 already. Such
/// an unstake is turned down only where a reward account is not in order
/// or the reward is too large for one transfer.
pub proof fn lemma_unstake_undoes_stake(before: Stake, lock_period: u64, after: Unstake)
    requires
        before.rejection() is None,
        after.owner == before.owner,
        after.pool == before.applied(false, lock_period).pool,
        after.collection_data == before.collection_data,
        after.stake_data == before.applied(false, lock_period).stake_data,
        after.nft_mint == before.nft_mint,
        after.metadata == before.metadata,
        after.user_nft_account == before.user_nft_account,
        after.pool_nft_account == before.pool_nft_account,
        after.clock.unix_timestamp >= before.clock.unix_timestamp,
    ensures
        after.custody_transfer().reverses(before.custody_transfer()),
        after.custody_transfer().to == before.user_nft_account.key,
        before.user_nft_account.data.owner == before.owner,
        after.applied().stake_data.data.unstaked,
        before.pool.data.tvl < u8::MAX ==> after.applied().pool.data.tvl == before.pool.data.tvl,
        after.outcome() is Err ==> after.outcome() == Err::<u64, PoolError>(
            PoolError::InvalidTokenAccount,
        ) || after.outcome() == Err::<u64, PoolError>(PoolError::TokenTransferFailed),
        after.user_reward_account.data.spec_is_held(after.owner, after.pool.data.reward_mint)
            && after.pool_reward_account.data.spec_is_held(
            after.pool.key,
            after.pool.data.reward_mint,
        ) ==> after.outcome() != Err::<u64, PoolError>(PoolError::InvalidTokenAccount),
{
}

} // verus!
