//! The records that the ledger keeps.

use vstd::prelude::*;
use crate::pubkey::Pubkey;

verus! {

/// The most identities that a collection's ultra list may hold.
pub const MAX_ULTRAS: usize = 20;

/// The most NFTs that a clan may list.
pub const CLAN_CAPACITY: usize = 7;

/// The most NFTs that a company may list.
pub const COMPANY_CAPACITY: usize = 15;

/// The most NFTs that a warparty may list.
pub const WARPARTY_CAPACITY: usize = 35;

/// A staking pool.
#[derive(Clone, Copy, Debug, PartialEq, Eq)]
pub struct Pool {
    pub owner: Pubkey,
    /// The seed that the pool's address and its signature are derived from.
    pub rand: Pubkey,
    pub reward_mint: Pubkey,
    pub start_time: i64,
    /// The seconds over which one unit of a reward rate accrues.
    pub period: i64,
    /// How many NFTs are staked, counted up to 255.
    pub tvl: u8,
    pub bump: u8,
}

/// The reward rates of one NFT collection.
#[derive(Clone, Debug, PartialEq, Eq)]
pub struct Collection {
    pub owner: Pubkey,
    pub bump: u8,
    pub pool: Pubkey,
    pub reward_normal: u64,
    pub reward_locked_one: u64,
    pub reward_locked_two: u64,
    pub reward_locked_three: u64,
    pub creator: Pubkey,
    /// The NFTs that earn twice the rate.
    pub ultras: Vec<Pubkey>,
}

/// The configuration of one type of faction.
#[derive(Clone, Debug, PartialEq, Eq)]
pub struct TierData {
    pub owner: Pubkey,
    pub bump: u8,
    pub pool: Pubkey,
    /// The slice of the royalty that goes to this tier, in basis points.
    pub share: u32,
    pub points: u8,
    /// The fee to found a faction of this tier.
    pub tokens: u64,
    /// How many factions of this tier are active.
    pub count: u64,
    /// The royalty to share out in the current epoch.
    pub royalty: u64,
    /// When the current epoch opened.
    pub claim_start: u64,
    pub seed: String,
}

/// The stake of one NFT by one owner in one pool.
#[derive(Clone, Copy, Debug, PartialEq, Eq)]
pub struct StakeData {
    pub unstaked: bool,
    pub locked: bool,
    /// The length of the lock, in accrual periods.
    pub lock_period: u64,
    pub mint: Pubkey,
    pub owner: Pubkey,
    pub pool: Pubkey,
    pub stake_time: i64,
    pub last_claim_time: i64,
    pub bump: u8,
}

/// Where a stake record stands in its life: it starts without a stake,
/// holds one from `stake` to `unstake`, and is then without one again.
#[derive(Clone, Copy, Debug, PartialEq, Eq)]
pub enum StakeState {
    Unstaked,
    Staked { locked: bool, lock_period: u64 },
}

/// A faction that lists at most `CAPACITY` NFTs.
#[derive(Clone, Debug, PartialEq, Eq)]
pub struct FactionData<const CAPACITY: usize> {
    pub owner: Pubkey,
    pub bump: u8,
    pub tier: Pubkey,
    pub rand: Pubkey,
    pub active: bool,
    pub create_time: i64,
    pub last_claim_time: i64,
    pub nfts: Vec<Pubkey>,
}

pub type ClanData = FactionData<CLAN_CAPACITY>;

pub type CompanyData = FactionData<COMPANY_CAPACITY>;

pub type WarpartyData = FactionData<WARPARTY_CAPACITY>;

impl Pool {
    /// The start time is positive, and while anything is staked the accrual
    /// period is positive too.
    pub open spec fn wf(self) -> bool {
        &&& self.start_time > 0
        &&& self.tvl > 0 ==> self.period > 0
    }
}

impl Collection {
    /// The ultra list is within its bound.
    pub open spec fn wf(self) -> bool {
        self.ultras@.len() <= MAX_ULTRAS
    }

    /// Whether `mint` earns twice the rate.
    pub open spec fn is_ultra(self, mint: Pubkey) -> bool {
        self.ultras@.contains(mint)
    }
}

impl StakeData {
    /// Where the record stands in its life.
    pub open spec fn spec_state(&self) -> StakeState {
        if self.unstaked {
            StakeState::Unstaked
        } else {
            StakeState::Staked { locked: self.locked, lock_period: self.lock_period }
        }
    }

    /// Where the record stands in its life.
    #[verifier::when_used_as_spec(spec_state)]
    pub fn state(&self) -> (state: StakeState)
        ensures
            state == self.spec_state(),
    {
        if self.unstaked {
            StakeState::Unstaked
        } else {
            StakeState::Staked { locked: self.locked, lock_period: self.lock_period }
        }
    }

    /// A record without a stake carries no lock, and no claim is dated
    /// before the stake it belongs to.
    pub open spec fn wf(self) -> bool {
        &&& self.unstaked ==> !self.locked && self.lock_period == 0
        &&& self.stake_time <= self.last_claim_time
    }
}

impl<const CAPACITY: usize> FactionData<CAPACITY> {
    /// The list of NFTs is within the capacity of the faction's type.
    pub open spec fn wf(self) -> bool {
        self.nfts@.len() <= CAPACITY
    }
}

} // verus!
