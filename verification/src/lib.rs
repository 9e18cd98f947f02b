//! An NFT staking ledger with time-weighted reward accrual, and a faction
//! system that shares a royalty pool among its members.
//!
//! Every operation is a transition on plain records. It checks its
//! preconditions, updates the records it names and returns the token
//! movements that the caller must carry out; a rejected operation leaves
//! every record as it was. The records are meant to be committed to
//! storage only once those movements have gone through.

pub mod accounts;
pub mod error;
pub mod faction;
pub mod ledger;
pub mod pool;
pub mod pubkey;
pub mod reward;
pub mod staking;
pub mod state;

pub use accounts::{Account, Clock, Metadata, Mint, TokenAccount};
pub use error::PoolError;
pub use faction::{
    claim_clan, claim_company, claim_faction, claim_warparty, create_clan, create_company,
    create_faction, create_warparty, init_tier, remove_clan, remove_company, remove_faction,
    remove_warparty, set_royalty, ClaimClan, ClaimCompany, ClaimFaction, ClaimWarparty,
    CreateClan, CreateCompany, CreateFaction, CreateWarparty, InitTier, RemoveClan,
    RemoveCompany, RemoveFaction, RemoveWarparty, SetRoyalty, BASIS_POINTS,
};
pub use ledger::{pool_authority, settle, Asset, Authority, Transfer};
pub use pool::{
    claim_solana, init_collection, init_pool, update_collection, update_pool, ClaimSolana,
    InitCollection, InitPool, UpdateCollection, UpdatePool,
};
pub use pubkey::{contains_key, Pubkey};
pub use reward::{accrued_reward, SECOND_TIER_LOCK, THIRD_TIER_LOCK, ULTRA_MULTIPLIER};
pub use staking::{
    claim, init_stake_data, stake, unstake, withdraw, withdraw_request, Claim, InitStakeData,
    Stake, Unstake, Withdraw, AUTHORITY_CLAIM_MULTIPLIER, AUTHORITY_UNSTAKE_MULTIPLIER,
};
pub use state::{
    ClanData, Collection, CompanyData, FactionData, Pool, StakeData, StakeState, TierData,
    WarpartyData,
    CLAN_CAPACITY, COMPANY_CAPACITY, MAX_ULTRAS, WARPARTY_CAPACITY,
};
