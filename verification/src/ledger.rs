//! The token movements that an operation asks for.
//!
//! The library moves no funds itself. An operation that succeeds returns
//! the transfers that belong to it, and the caller hands them to the token
//! ledger in the order given. An operation counts only if all of its
//! transfers went through: the caller runs it on a copy of the records and
//! lets `settle` decide whether the copy takes the place of the records.

use vstd::prelude::*;
use crate::accounts::Account;
use crate::error::PoolError;
use crate::pubkey::Pubkey;
use crate::state::Pool;

verus! {

/// Who authorises a transfer.
#[derive(Clone, Copy, Debug, PartialEq, Eq)]
pub enum Authority {
    /// The user who signed the operation.
    Signer { key: Pubkey },
    /// The pool itself, signing by delegation with the seed and bump that
    /// its record stores.
    Pool { key: Pubkey, rand: Pubkey, bump: u8 },
}

/// What a transfer moves.
#[derive(Clone, Copy, Debug, PartialEq, Eq)]
pub enum Asset {
    /// Tokens, between two token accounts.
    Token,
    /// The platform's native funds, between two accounts.
    Native,
}

/// One movement of funds from one account to another.
#[derive(Clone, Copy, Debug, PartialEq, Eq)]
pub struct Transfer {
    pub asset: Asset,
    pub from: Pubkey,
    pub to: Pubkey,
    pub authority: Authority,
    pub amount: u64,
}

impl Transfer {
    /// Whether this transfer takes back what `earlier` moved: the same
    /// amount of the same asset, from where it went to where it came from.
    pub open spec fn reverses(self, earlier: Transfer) -> bool {
        &&& self.asset == earlier.asset
        &&& self.from == earlier.to
        &&& self.to == earlier.from
        &&& self.amount == earlier.amount
    }
}

/// The authority of the pool over the accounts that it holds.
pub open spec fn spec_pool_authority(pool: Account<Pool>) -> Authority {
    Authority::Pool { key: pool.key, rand: pool.data.rand, bump: pool.data.bump }
}

/// The authority of the pool over the accounts that it holds.
pub fn pool_authority(pool: &Account<Pool>) -> (authority: Authority)
    ensures
        authority == spec_pool_authority(*pool),
{
    Authority::Pool { key: pool.key, rand: pool.data.rand, bump: pool.data.bump }
}

/// Closes an operation that was run on `staged`, a copy of `records`. Where
/// the ledger has made all the transfers that the operation asked for, the
/// copy takes the place of the records. Where it has not, the records stay
/// as they were and the operation ends with `TokenTransferFailed`.
pub fn settle<T>(records: &mut T, staged: T, moved: bool) -> (res: Result<(), PoolError>)
    ensures
        moved ==> res is Ok && *final(records) == staged,
        !moved ==> res == Err::<(), PoolError>(PoolError::TokenTransferFailed) && *final(records)
            == *old(records),
{
    if moved {
        *records = staged;
        Ok(())
    } else {
        Err(PoolError::TokenTransferFailed)
    }
}

} // verus!
