//! Pools and the reward rates of the collections they accept.

use vstd::prelude::*;
use crate::accounts::{Account, Mint};
use crate::error::PoolError;
use crate::ledger::{pool_authority, spec_pool_authority, Asset, Transfer};
use crate::pubkey::Pubkey;
use crate::state::{Collection, Pool, MAX_ULTRAS};

verus! {

/// The accounts of `init_pool`.
#[derive(Clone, Debug, PartialEq, Eq)]
pub struct InitPool {
    /// Who signed the operation and will own the pool.
    pub owner: Pubkey,
    /// The pool to set up.
    pub pool: Account<Pool>,
    /// The seed that the pool's address is derived from.
    pub rand: Pubkey,
    pub reward_mint: Account<Mint>,
}

/// The accounts of `update_pool`.
#[derive(Clone, Debug, PartialEq, Eq)]
pub struct UpdatePool {
    /// Who signed the operation.
    pub owner: Pubkey,
    pub new_owner: Pubkey,
    pub pool: Account<Pool>,
    pub reward_mint: Account<Mint>,
}

/// The accounts of `init_collection`.
#[derive(Clone, Debug, PartialEq, Eq)]
pub struct InitCollection {
    /// Who signed the operation.
    pub owner: Pubkey,
    pub pool: Account<Pool>,
    /// The creator whose NFTs make up the collection.
    pub creator: Pubkey,
    /// The collection to set up.
    pub collection_data: Account<Collection>,
}

/// The accounts of `update_collection`.
#[derive(Clone, Debug, PartialEq, Eq)]
pub struct UpdateCollection {
    /// Who signed the operation.
    pub owner: Pubkey,
    pub pool: Account<Pool>,
    pub collection_data: Account<Collection>,
}

/// The accounts of `claim_solana`.
#[derive(Clone, Debug, PartialEq, Eq)]
pub struct ClaimSolana {
    /// Who signed the operation and receives the funds.
    pub owner: Pubkey,
    pub pool: Account<Pool>,
}

impl InitPool {
    /// The pool that `init_pool` writes: owned by the signer, with nothing
    /// staked.
    pub open spec fn fresh_pool(self, bump: u8, start_time: i64, period: i64) -> Pool {
        Pool {
            owner: self.owner,
            rand: self.rand,
            reward_mint: self.reward_mint.key,
            start_time,
            period,
            tvl: 0,
            bump,
        }
    }
}

impl UpdatePool {
    /// Why the update is turned down, if it is: the pool is not the
    /// signer's, or the start time is not positive, or the pool is to count
    /// staked NFTs with a period that is not positive.
    pub open spec fn rejection(self, start_time: i64, period: i64, tvl: u8) -> Option<PoolError> {
        if self.pool.data.owner != self.owner {
            Some(PoolError::InvalidOwner)
        } else if start_time <= 0 {
            Some(PoolError::InvalidTime)
        } else if tvl > 0 && period <= 0 {
            Some(PoolError::InvalidPeriod)
        } else {
            None
        }
    }

    /// The pool after the update: with the new owner, the reward mint
    /// named, and the values given. Its seed and bump stay.
    pub open spec fn updated_pool(self, start_time: i64, period: i64, tvl: u8) -> Pool {
        Pool {
            owner: self.new_owner,
            reward_mint: self.reward_mint.key,
            start_time,
            period,
            tvl,
            ..self.pool.data
        }
    }
}

impl InitCollection {
    /// Why the collection is not set up with the ultra list `ultras`, if
    /// it is not. The list is looked at first: it may hold 20 NFTs at most.
    /// Then the pool: it is the signer's.
    pub open spec fn rejection(self, ultras: Vec<Pubkey>) -> Option<PoolError> {
        if ultras@.len() > MAX_ULTRAS {
            Some(PoolError::InvalidStakeData)
        } else if self.pool.data.owner != self.owner {
            Some(PoolError::InvalidOwner)
        } else {
            None
        }
    }

    /// The collection that `init_collection` writes.
    pub open spec fn fresh_collection(
        self,
        bump: u8,
        reward_normal: u64,
        reward_special_one: u64,
        reward_special_two: u64,
        reward_special_three: u64,
        ultras: Vec<Pubkey>,
    ) -> Collection {
        Collection {
            owner: self.owner,
            bump,
            pool: self.pool.key,
            reward_normal,
            reward_locked_one: reward_special_one,
            reward_locked_two: reward_special_two,
            reward_locked_three: reward_special_three,
            creator: self.creator,
            ultras,
        }
    }
}

impl UpdateCollection {
    /// Why the collection is not updated with the ultra list `ultras`, if
    /// it is not. The list is looked at first: it may hold 20 NFTs at most.
    /// Then the accounts: the pool and the collection are the signer's, and
    /// the collection belongs to the pool.
    pub open spec fn rejection(self, ultras: Vec<Pubkey>) -> Option<PoolError> {
        if ultras@.len() > MAX_ULTRAS {
            Some(PoolError::InvalidStakeData)
        } else if self.pool.data.owner != self.owner || self.collection_data.data.owner
            != self.owner || self.collection_data.data.pool != self.pool.key {
            Some(PoolError::InvalidOwner)
        } else {
            None
        }
    }

    /// The collection after the update: with the rates and the ultra list
    /// given. Its owner, pool and creator stay.
    pub open spec fn updated_collection(
        self,
        reward_normal: u64,
        reward_special_one: u64,
        reward_special_two: u64,
        reward_special_three: u64,
        ultras: Vec<Pubkey>,
    ) -> Collection {
        Collection {
            reward_normal,
            reward_locked_one: reward_special_one,
            reward_locked_two: reward_special_two,
            reward_locked_three: reward_special_three,
            ultras,
            ..self.collection_data.data
        }
    }
}

impl ClaimSolana {
    /// The payment of `amount` in native funds: from the pool to the
    /// signer, on the pool's authority.
    pub open spec fn payment(self, amount: u64) -> Transfer {
        Transfer {
            asset: Asset::Native,
            from: self.pool.key,
            to: self.owner,
            authority: spec_pool_authority(self.pool),
            amount,
        }
    }
}

/// Sets up a pool that starts at `start_time` and accrues rewards by
/// periods of `period` seconds. A start time that is not positive is turned
/// down with `InvalidTime`, and nothing is changed then.
pub fn init_pool(ctx: &mut InitPool, bump: u8, start_time: i64, period: i64) -> (res: Result<
    (),
    PoolError,
>)
    ensures
        (match res {
            Ok(_) => {
                &&& start_time > 0
                &&& *final(ctx) == (InitPool {
                    pool: Account {
                        data: old(ctx).fresh_pool(bump, start_time, period),
                        ..old(ctx).pool
                    },
                    ..*old(ctx)
                })
                &&& final(ctx).pool.data.wf()
            },
            Err(e) => start_time <= 0 && e == PoolError::InvalidTime && *final(ctx) == *old(ctx),
        }),
{
    if start_time <= 0 {
        return Err(PoolError::InvalidTime);
    }
    ctx.pool.data = Pool {
        owner: ctx.owner,
        rand: ctx.rand,
        reward_mint: ctx.reward_mint.key,
        start_time,
        period,
        tvl: 0,
        bump,
    };
    Ok(())
}

/// Hands the pool to `new_owner` and sets its reward mint, start time,
/// period and count of staked NFTs. Only the pool's owner may do so. A
/// rejected update changes nothing.
pub fn update_pool(ctx: &mut UpdatePool, start_time: i64, period: i64, tvl: u8) -> (res: Result<
    (),
    PoolError,
>)
    ensures
        (match res {
            Ok(_) => {
                &&& old(ctx).rejection(start_time, period, tvl) is None
                &&& *final(ctx) == (UpdatePool {
                    pool: Account {
                        data: old(ctx).updated_pool(start_time, period, tvl),
                        ..old(ctx).pool
                    },
                    ..*old(ctx)
                })
                &&& final(ctx).pool.data.wf()
            },
            Err(e) => old(ctx).rejection(start_time, period, tvl) == Some(e) && *final(ctx)
                == *old(ctx),
        }),
{
    if ctx.pool.data.owner != ctx.owner {
        return Err(PoolError::InvalidOwner);
    }
    if start_time <= 0 {
        return Err(PoolError::InvalidTime);
    }
    if tvl > 0 && period <= 0 {
        return Err(PoolError::InvalidPeriod);
    }
    ctx.pool.data.owner = ctx.new_owner;
    ctx.pool.data.reward_mint = ctx.reward_mint.key;
    ctx.pool.data.start_time = start_time;
    ctx.pool.data.period = period;
    ctx.pool.data.tvl = tvl;
    Ok(())
}

/// Sets up the rates of a creator's collection in the pool: the normal
/// rate, the three rates for locked stakes, and the list of NFTs that earn
/// twice. A list of more than 20 NFTs is turned down with
/// `InvalidStakeData`. Only the pool's owner may do so. A rejected call
/// changes nothing.
pub fn init_collection(
    ctx: &mut InitCollection,
    bump: u8,
    reward_normal: u64,
    reward_special_one: u64,
    reward_special_two: u64,
    reward_special_three: u64,
    ultras: Vec<Pubkey>,
) -> (res: Result<(), PoolError>)
    ensures
        (match res {
            Ok(_) => {
                &&& old(ctx).rejection(ultras) is None
                &&& *final(ctx) == (InitCollection {
                    collection_data: Account {
                        data: old(ctx).fresh_collection(
                            bump,
                            reward_normal,
                            reward_special_one,
                            reward_special_two,
                            reward_special_three,
                            ultras,
                        ),
                        ..old(ctx).collection_data
                    },
                    ..*old(ctx)
                })
                &&& final(ctx).collection_data.data.wf()
            },
            Err(e) => old(ctx).rejection(ultras) == Some(e) && *final(ctx) == *old(ctx),
        }),
        ultras@.len() > MAX_ULTRAS <==> res == Err::<(), PoolError>(PoolError::InvalidStakeData),
{
    if ultras.len() > MAX_ULTRAS {
        return Err(PoolError::InvalidStakeData);
    }
    if ctx.pool.data.owner != ctx.owner {
        return Err(PoolError::InvalidOwner);
    }
    ctx.collection_data.data = Collection {
        owner: ctx.owner,
        bump,
        pool: ctx.pool.key,
        reward_normal,
        reward_locked_one: reward_special_one,
        reward_locked_two: reward_special_two,
        reward_locked_three: reward_special_three,
        creator: ctx.creator,
        ultras,
    };
    Ok(())
}

/// Replaces the rates and the ultra list of a collection. A list of more
/// than 20 NFTs is turned down with `InvalidStakeData`. Only the owner of
/// the pool and of the collection may do so, and only with the pool that
/// the collection belongs to. A rejected call changes nothing.
pub fn update_collection(
    ctx: &mut UpdateCollection,
    reward_normal: u64,
    reward_special_one: u64,
    reward_special_two: u64,
    reward_special_three: u64,
    ultras: Vec<Pubkey>,
) -> (res: Result<(), PoolError>)
    ensures
        (match res {
            Ok(_) => {
                &&& old(ctx).rejection(ultras) is None
                &&& *final(ctx) == (UpdateCollection {
                    collection_data: Account {
                        data: old(ctx).updated_collection(
                            reward_normal,
                            reward_special_one,
                            reward_special_two,
                            reward_special_three,
                            ultras,
                        ),
                        ..old(ctx).collection_data
                    },
                    ..*old(ctx)
                })
                &&& final(ctx).collection_data.data.wf()
            },
            Err(e) => old(ctx).rejection(ultras) == Some(e) && *final(ctx) == *old(ctx),
        }),
        ultras@.len() > MAX_ULTRAS <==> res == Err::<(), PoolError>(PoolError::InvalidStakeData),
{
    if ultras.len() > MAX_ULTRAS {
        return Err(PoolError::InvalidStakeData);
    }
    if ctx.pool.data.owner != ctx.owner || ctx.collection_data.data.owner != ctx.owner
        || ctx.collection_data.data.pool != ctx.pool.key {
        return Err(PoolError::InvalidOwner);
    }
    ctx.collection_data.data.reward_normal = reward_normal;
    ctx.collection_data.data.reward_locked_one = reward_special_one;
    ctx.collection_data.data.reward_locked_two = reward_special_two;
    ctx.collection_data.data.reward_locked_three = reward_special_three;
    ctx.collection_data.data.ultras = ultras;
    Ok(())
}

/// Draws `amount` of the pool's native funds to the signer. This always
/// succeeds and leaves the accounts as they are.
pub fn claim_solana(ctx: &ClaimSolana, amount: u64) -> (res: Result<Transfer, PoolError>)
    ensures
        res == Ok::<Transfer, PoolError>(ctx.payment(amount)),
{
    Ok(
        Transfer {
            asset: Asset::Native,
            from: ctx.pool.key,
            to: ctx.owner,
            authority: pool_authority(&ctx.pool),
            amount,
        },
    )
}

} // verus!
