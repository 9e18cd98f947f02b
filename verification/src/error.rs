//! The errors that an operation can end with.

use vstd::prelude::*;

verus! {

/// Why an operation was rejected. A rejected operation has changed nothing.
#[derive(Clone, Copy, Debug, PartialEq, Eq, Structural)]
pub enum PoolError {
    /// The faction is inactive, or its tier counts no member, or it lists
    /// more NFTs than a faction of its type may.
    InvalidTier,
    TokenSetAuthorityFailed,
    /// The amount to pay out is more than a single transfer can carry, or
    /// the ledger did not make a transfer.
    TokenTransferFailed,
    /// A token account is not held by the expected owner or not of the
    /// expected mint.
    InvalidTokenAccount,
    /// The staked asset is not a proper collectible.
    InvalidTokenMint,
    /// The authenticity record does not vouch for the asset.
    InvalidMetadata,
    /// The stake record does not belong to the pool it is used with, or
    /// the list of NFTs that earn twice is longer than a collection may
    /// hold.
    InvalidStakeData,
    /// A start time that is not positive, an unstake before the lock has
    /// run out, a clock that reads earlier than the last claim, or a royalty
    /// claim outside its window.
    InvalidTime,
    /// The pool's accrual period is not positive.
    InvalidPeriod,
    /// The record holds no active stake.
    AlreadyUnstaked,
    /// The caller is not the owner that the record names.
    InvalidOwner,
}

impl PoolError {
    /// The message of each error.
    pub open spec fn spec_message(self) -> Seq<char> {
        match self {
            PoolError::InvalidTier => "Invalid tier"@,
            PoolError::TokenSetAuthorityFailed => "Token set authority failed"@,
            PoolError::TokenTransferFailed => "Token transfer failed"@,
            PoolError::InvalidTokenAccount => "Invalid token account"@,
            PoolError::InvalidTokenMint => "Invalid token mint"@,
            PoolError::InvalidMetadata => "Invalid metadata"@,
            PoolError::InvalidStakeData => "Invalid stakedata account"@,
            PoolError::InvalidTime => "Invalid time"@,
            PoolError::InvalidPeriod => "Invalid Period"@,
            PoolError::AlreadyUnstaked => "Already unstaked"@,
            PoolError::InvalidOwner => "Invalid owner"@,
        }
    }

    /// The message to show for this error.
    pub fn message(&self) -> (text: String)
        ensures
            text@ == self.spec_message(),
    {
        match self {
            PoolError::InvalidTier => "Invalid tier".to_owned(),
            PoolError::TokenSetAuthorityFailed => "Token set authority failed".to_owned(),
            PoolError::TokenTransferFailed => "Token transfer failed".to_owned(),
            PoolError::InvalidTokenAccount => "Invalid token account".to_owned(),
            PoolError::InvalidTokenMint => "Invalid token mint".to_owned(),
            PoolError::InvalidMetadata => "Invalid metadata".to_owned(),
            PoolError::InvalidStakeData => "Invalid stakedata account".to_owned(),
            PoolError::InvalidTime => "Invalid time".to_owned(),
            PoolError::InvalidPeriod => "Invalid Period".to_owned(),
            PoolError::AlreadyUnstaked => "Already unstaked".to_owned(),
            PoolError::InvalidOwner => "Invalid owner".to_owned(),
        }
    }
}

} // verus!
