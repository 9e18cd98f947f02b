//! What an operation is told about the accounts it works on.
//!
//! The caller looks the accounts up and reads the clock; the operations take
//! what was found as plain values.

use vstd::prelude::*;
use crate::pubkey::Pubkey;

verus! {

/// A record together with the address it is stored at.
#[derive(Clone, Debug, PartialEq, Eq)]
pub struct Account<T> {
    pub key: Pubkey,
    pub data: T,
}

/// The supply data of a token mint.
#[derive(Clone, Copy, Debug, PartialEq, Eq)]
pub struct Mint {
    pub decimals: u8,
    pub supply: u64,
}

/// A token account: whose it is and which mint's tokens it holds.
#[derive(Clone, Copy, Debug, PartialEq, Eq)]
pub struct TokenAccount {
    pub mint: Pubkey,
    pub owner: Pubkey,
}

/// The authenticity record of an NFT, as far as staking reads it.
#[derive(Clone, Debug, PartialEq, Eq)]
pub struct Metadata {
    /// The mint that the record speaks of.
    pub mint: Pubkey,
    pub symbol: String,
    /// The addresses of the creators, in the order of the record.
    pub creators: Vec<Pubkey>,
    pub primary_sale_happened: bool,
}

/// A reading of the clock, in seconds.
#[derive(Clone, Copy, Debug, PartialEq, Eq)]
pub struct Clock {
    pub unix_timestamp: i64,
}

impl Mint {
    /// The mint is that of a collectible: a single token that cannot be
    /// divided.
    pub open spec fn spec_is_collectible(&self) -> bool {
        self.decimals == 0 && self.supply == 1
    }

    #[verifier::when_used_as_spec(spec_is_collectible)]
    pub fn is_collectible(&self) -> (ok: bool)
        ensures
            ok == self.spec_is_collectible(),
    {
        self.decimals == 0 && self.supply == 1
    }
}

impl TokenAccount {
    /// The account belongs to `owner` and holds tokens of `mint`.
    pub open spec fn spec_is_held(&self, owner: Pubkey, mint: Pubkey) -> bool {
        self.owner == owner && self.mint == mint
    }

    #[verifier::when_used_as_spec(spec_is_held)]
    pub fn is_held(&self, owner: Pubkey, mint: Pubkey) -> (ok: bool)
        ensures
            ok == self.spec_is_held(owner, mint),
    {
        self.owner == owner && self.mint == mint
    }
}

impl Metadata {
    /// The record carries the symbol that marks a placeholder.
    pub open spec fn spec_has_placeholder_symbol(&self) -> bool {
        self.symbol@ == "IV"@
    }

    /// The record lists creators, and the first of them is `creator`.
    pub open spec fn spec_names_creator(&self, creator: Pubkey) -> bool {
        self.creators@.len() > 0 && self.creators@[0] == creator
    }

    /// The record vouches for an asset of the collection made by `creator`:
    /// its symbol is no placeholder, it names the creator and the asset has
    /// been sold once.
    pub open spec fn spec_vouches_for(&self, creator: Pubkey) -> bool {
        &&& !self.spec_has_placeholder_symbol()
        &&& self.spec_names_creator(creator)
        &&& self.primary_sale_happened
    }

    #[verifier::when_used_as_spec(spec_vouches_for)]
    pub fn vouches_for(&self, creator: Pubkey) -> (ok: bool)
        ensures
            ok == self.spec_vouches_for(creator),
    {
        let placeholder: String = "IV".to_owned();
        if self.symbol == placeholder {
            return false;
        }
        if self.creators.len() == 0 {
            return false;
        }
        if self.creators[0] != creator {
            return false;
        }
        self.primary_sale_happened
    }
}

} // verus!
