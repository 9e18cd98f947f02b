//! Factions and the royalty that their members share.
//!
//! A faction is a clan, a company or a warparty: the three differ in the
//! number of NFTs they may list and are otherwise one thing. Each type has
//! a tier, which sets the fee to found a faction, counts the active
//! factions and carries the royalty of the current epoch. A faction is
//! founded active, may be removed once and is then inactive for good.
//!
//! In every epoch each active faction may claim once. It is paid its
//! tier's slice of the royalty, divided by the number of factions that
//! the tier counts at the time of the claim, rounded down.

use vstd::prelude::*;
use vstd::arithmetic::div_mod::{
    lemma_div_by_multiple, lemma_div_is_ordered, lemma_fundamental_div_mod,
};
use crate::accounts::{Account, Clock, TokenAccount};
use crate::error::PoolError;
use crate::ledger::{pool_authority, spec_pool_authority, Asset, Authority, Transfer};
use crate::pubkey::Pubkey;
use crate::state::{
    FactionData, Pool, TierData, CLAN_CAPACITY, COMPANY_CAPACITY, WARPARTY_CAPACITY,
};

verus! {

/// The basis points that make a whole.
pub const BASIS_POINTS: u64 = 10000;

/// The accounts of `init_tier`.
#[derive(Clone, Debug, PartialEq, Eq)]
pub struct InitTier {
    pub owner: Pubkey,
    pub pool: Account<Pool>,
    /// The tier to set up.
    pub tier: Account<TierData>,
}

/// The accounts of founding a faction that lists at most `CAPACITY` NFTs.
#[derive(Clone, Debug, PartialEq, Eq)]
pub struct CreateFaction<const CAPACITY: usize> {
    /// Who signed the operation and pays the fee.
    pub owner: Pubkey,
    pub pool: Account<Pool>,
    pub tier: Account<TierData>,
    /// The seed that the faction's address is derived from.
    pub rand: Pubkey,
    /// The faction to set up.
    pub faction_data: Account<FactionData<CAPACITY>>,
    /// Where the fee is taken from.
    pub user_reward_account: Account<TokenAccount>,
    /// Where the pool holds its reward tokens.
    pub pool_reward_account: Account<TokenAccount>,
    pub clock: Clock,
}

/// The accounts of removing a faction.
#[derive(Clone, Debug, PartialEq, Eq)]
pub struct RemoveFaction<const CAPACITY: usize> {
    /// Who signed the operation.
    pub owner: Pubkey,
    pub tier: Account<TierData>,
    pub faction_data: Account<FactionData<CAPACITY>>,
}

/// The accounts of a faction's claim on the royalty.
#[derive(Clone, Debug, PartialEq, Eq)]
pub struct ClaimFaction<const CAPACITY: usize> {
    /// Who signed the operation.
    pub owner: Pubkey,
    pub pool: Account<Pool>,
    pub tier: Account<TierData>,
    pub faction_data: Account<FactionData<CAPACITY>>,
    /// Where the share is paid to.
    pub user_reward_account: Account<TokenAccount>,
    /// Where the pool holds its reward tokens.
    pub pool_reward_account: Account<TokenAccount>,
    pub clock: Clock,
}

pub type CreateClan = CreateFaction<CLAN_CAPACITY>;

pub type CreateCompany = CreateFaction<COMPANY_CAPACITY>;

pub type CreateWarparty = CreateFaction<WARPARTY_CAPACITY>;

pub type RemoveClan = RemoveFaction<CLAN_CAPACITY>;

pub type RemoveCompany = RemoveFaction<COMPANY_CAPACITY>;

pub type RemoveWarparty = RemoveFaction<WARPARTY_CAPACITY>;

pub type ClaimClan = ClaimFaction<CLAN_CAPACITY>;

pub type ClaimCompany = ClaimFaction<COMPANY_CAPACITY>;

pub type ClaimWarparty = ClaimFaction<WARPARTY_CAPACITY>;

/// The accounts of `set_royalty`.
#[derive(Clone, Debug, PartialEq, Eq)]
pub struct SetRoyalty {
    /// Who signed the operation.
    pub owner: Pubkey,
    pub tier_clan: Account<TierData>,
    pub tier_company: Account<TierData>,
    pub tier_warparty: Account<TierData>,
}

/// What each faction of the tier is paid in the current epoch: the
/// tier's slice of the royalty, divided by the number of factions that the
/// tier counts.
pub open spec fn member_share(tier: TierData) -> int {
    (tier.royalty * tier.share) / (tier.count as int) / (BASIS_POINTS as int)
}

/// The slice of the royalty that goes to the tier as a whole.
pub open spec fn tier_slice(tier: TierData) -> int {
    (tier.royalty * tier.share) / (BASIS_POINTS as int)
}

impl InitTier {
    /// The tier that `init_tier` writes: no faction, no royalty, no epoch.
    pub open spec fn fresh_tier(
        self,
        bump: u8,
        seed: String,
        share: u32,
        points: u8,
        tokens: u64,
    ) -> TierData {
        TierData {
            owner: self.owner,
            bump,
            pool: self.pool.key,
            share,
            points,
            tokens,
            count: 0,
            royalty: 0,
            claim_start: 0,
            seed,
        }
    }
}

impl<const CAPACITY: usize> CreateFaction<CAPACITY> {
    /// Why the founding of a faction that lists `mints` is turned down, if
    /// it is. The list is looked at first: one that is longer than the
    /// faction's type allows does not fit the tier. Then the accounts: the
    /// one that pays the fee is the signer's, the one that receives it is
    /// the pool's, and both are of the pool's reward mint.
    pub open spec fn rejection(self, mints: Vec<Pubkey>) -> Option<PoolError> {
        if mints@.len() > CAPACITY {
            Some(PoolError::InvalidTier)
        } else if !self.user_reward_account.data.spec_is_held(
            self.owner,
            self.pool.data.reward_mint,
        ) || !self.pool_reward_account.data.spec_is_held(
            self.pool.key,
            self.pool.data.reward_mint,
        ) {
            Some(PoolError::InvalidTokenAccount)
        } else {
            None
        }
    }

    /// The fee: the tier's price, from the founder's account to the pool's,
    /// on the founder's signature.
    pub open spec fn fee_transfer(self) -> Transfer {
        Transfer {
            asset: Asset::Token,
            from: self.user_reward_account.key,
            to: self.pool_reward_account.key,
            authority: Authority::Signer { key: self.owner },
            amount: self.tier.data.tokens,
        }
    }

    /// The faction that the founding writes: active, founded now, with no
    /// claim yet.
    pub open spec fn fresh_faction(self, bump: u8, mints: Vec<Pubkey>) -> FactionData<CAPACITY> {
        FactionData {
            owner: self.owner,
            bump,
            tier: self.tier.key,
            rand: self.rand,
            active: true,
            create_time: self.clock.unix_timestamp,
            last_claim_time: 0,
            nfts: mints,
        }
    }

    /// The accounts after the founding: the faction is written and the
    /// tier counts one more.
    pub open spec fn applied(self, bump: u8, mints: Vec<Pubkey>) -> CreateFaction<CAPACITY> {
        CreateFaction {
            tier: Account {
                data: TierData { count: (self.tier.data.count + 1) as u64, ..self.tier.data },
                ..self.tier
            },
            faction_data: Account {
                data: self.fresh_faction(bump, mints),
                ..self.faction_data
            },
            ..self
        }
    }
}

impl<const CAPACITY: usize> RemoveFaction<CAPACITY> {
    /// Why the removal is turned down, if it is: the faction is not the
    /// signer's, or it is not active, or the tier counts no faction.
    pub open spec fn rejection(self) -> Option<PoolError> {
        if self.faction_data.data.owner != self.owner {
            Some(PoolError::InvalidOwner)
        } else if !self.faction_data.data.active || self.tier.data.count == 0 {
            Some(PoolError::InvalidTier)
        } else {
            None
        }
    }

    /// The accounts after the removal: the faction is inactive and the
    /// tier counts one less.
    pub open spec fn applied(self) -> RemoveFaction<CAPACITY> {
        RemoveFaction {
            tier: Account {
                data: TierData { count: (self.tier.data.count - 1) as u64, ..self.tier.data },
                ..self.tier
            },
            faction_data: Account {
                data: FactionData { active: false, ..self.faction_data.data },
                ..self.faction_data
            },
            ..self
        }
    }
}

impl<const CAPACITY: usize> ClaimFaction<CAPACITY> {
    /// Whether the claim falls into its window: the faction has not
    /// claimed since the epoch opened, and the epoch has opened.
    pub open spec fn in_window(self) -> bool {
        &&& self.faction_data.data.last_claim_time <= self.tier.data.claim_start
        &&& self.tier.data.claim_start <= self.clock.unix_timestamp
    }

    /// What the claim pays, or why it is turned down. The checks come in
    /// this order: the faction is the signer's; the two reward accounts are
    /// the signer's and the pool's; the faction is active and its tier
    /// counts a faction; the claim falls into its window; the share fits a
    /// transfer.
    pub open spec fn outcome(self) -> Result<u64, PoolError> {
        if self.faction_data.data.owner != self.owner {
            Err(PoolError::InvalidOwner)
        } else if self.user_reward_account.data.owner != self.owner
            || self.pool_reward_account.data.owner != self.pool.key {
            Err(PoolError::InvalidTokenAccount)
        } else if !self.faction_data.data.active || self.tier.data.count == 0 {
            Err(PoolError::InvalidTier)
        } else if !self.in_window() {
            Err(PoolError::InvalidTime)
        } else if member_share(self.tier.data) > u64::MAX {
            Err(PoolError::TokenTransferFailed)
        } else {
            Ok(member_share(self.tier.data) as u64)
        }
    }

    /// The payment of `amount` as share: from the pool's reward account to
    /// the faction owner's, on the pool's authority.
    pub open spec fn share_transfer(self, amount: u64) -> Transfer {
        Transfer {
            asset: Asset::Token,
            from: self.pool_reward_account.key,
            to: self.user_reward_account.key,
            authority: spec_pool_authority(self.pool),
            amount,
        }
    }

    /// The accounts after the claim: the faction's last claim is now.
    pub open spec fn applied(self) -> ClaimFaction<CAPACITY> {
        ClaimFaction {
            faction_data: Account {
                data: FactionData {
                    last_claim_time: self.clock.unix_timestamp,
                    ..self.faction_data.data
                },
                ..self.faction_data
            },
            ..self
        }
    }
}

impl SetRoyalty {
    /// Why the royalty is not set, if it is not: one of the three tiers is
    /// not the signer's.
    pub open spec fn rejection(self) -> Option<PoolError> {
        if self.tier_clan.data.owner != self.owner || self.tier_company.data.owner != self.owner
            || self.tier_warparty.data.owner != self.owner {
            Some(PoolError::InvalidOwner)
        } else {
            None
        }
    }

    /// The accounts after the royalty was set: each of the three tiers
    /// carries it, and the same start of the epoch.
    pub open spec fn applied(self, royalty: u64, start_time: u64) -> SetRoyalty {
        SetRoyalty {
            tier_clan: Account {
                data: TierData { royalty, claim_start: start_time, ..self.tier_clan.data },
                ..self.tier_clan
            },
            tier_company: Account {
                data: TierData { royalty, claim_start: start_time, ..self.tier_company.data },
                ..self.tier_company
            },
            tier_warparty: Account {
                data: TierData { royalty, claim_start: start_time, ..self.tier_warparty.data },
                ..self.tier_warparty
            },
            ..self
        }
    }
}

/// Sets up the tier of one type of faction, with its share of the royalty
/// in basis points, its points and the fee to found a faction. This always
/// succeeds.
pub fn init_tier(
    ctx: &mut InitTier,
    bump: u8,
    seed: String,
    share: u32,
    points: u8,
    tokens: u64,
) -> (res: Result<(), PoolError>)
    ensures
        res is Ok,
        *final(ctx) == (InitTier {
            tier: Account {
                data: old(ctx).fresh_tier(bump, seed, share, points, tokens),
                ..old(ctx).tier
            },
            ..*old(ctx)
        }),
{
    ctx.tier.data = TierData {
        owner: ctx.owner,
        bump,
        pool: ctx.pool.key,
        share,
        points,
        tokens,
        count: 0,
        royalty: 0,
        claim_start: 0,
        seed,
    };
    Ok(())
}

/// Founds a faction that lists `mints`. On success the faction is written,
/// active and founded at the clock's reading, the tier counts one more,
/// and the transfer returned pays the tier's fee to the pool. A list of
/// more than `CAPACITY` NFTs is turned down with `InvalidTier`. A rejected
/// founding asks for no fee and changes nothing.
pub fn create_faction<const CAPACITY: usize>(
    ctx: &mut CreateFaction<CAPACITY>,
    bump: u8,
    mints: Vec<Pubkey>,
) -> (res: Result<Transfer, PoolError>)
    requires
        old(ctx).tier.data.count < u64::MAX,
    ensures
        (match res {
            Ok(fee) => {
                &&& old(ctx).rejection(mints) is None
                &&& fee == old(ctx).fee_transfer()
                &&& *final(ctx) == old(ctx).applied(bump, mints)
                &&& final(ctx).faction_data.data.wf()
            },
            Err(e) => old(ctx).rejection(mints) == Some(e) && *final(ctx) == *old(ctx),
        }),
        mints@.len() > CAPACITY <==> res == Err::<Transfer, PoolError>(PoolError::InvalidTier),
{
    if mints.len() > CAPACITY {
        return Err(PoolError::InvalidTier);
    }
    if !ctx.user_reward_account.data.is_held(ctx.owner, ctx.pool.data.reward_mint)
        || !ctx.pool_reward_account.data.is_held(ctx.pool.key, ctx.pool.data.reward_mint) {
        return Err(PoolError::InvalidTokenAccount);
    }
    let fee = Transfer {
        asset: Asset::Token,
        from: ctx.user_reward_account.key,
        to: ctx.pool_reward_account.key,
        authority: Authority::Signer { key: ctx.owner },
        amount: ctx.tier.data.tokens,
    };
    ctx.faction_data.data = FactionData {
        owner: ctx.owner,
        bump,
        tier: ctx.tier.key,
        rand: ctx.rand,
        active: true,
        create_time: ctx.clock.unix_timestamp,
        last_claim_time: 0,
        nfts: mints,
    };
    ctx.tier.data.count = ctx.tier.data.count + 1;
    Ok(fee)
}

/// Removes a faction. On success the faction is inactive and the tier
/// counts one less. A faction that is inactive already is turned down, and
/// a rejected removal changes nothing.
pub fn remove_faction<const CAPACITY: usize>(ctx: &mut RemoveFaction<CAPACITY>) -> (res: Result<
    (),
    PoolError,
>)
    ensures
        (match res {
            Ok(_) => old(ctx).rejection() is None && *final(ctx) == old(ctx).applied(),
            Err(e) => old(ctx).rejection() == Some(e) && *final(ctx) == *old(ctx),
        }),
        old(ctx).faction_data.data.wf() ==> final(ctx).faction_data.data.wf(),
{
    if ctx.faction_data.data.owner != ctx.owner {
        return Err(PoolError::InvalidOwner);
    }
    if !ctx.faction_data.data.active || ctx.tier.data.count == 0 {
        return Err(PoolError::InvalidTier);
    }
    ctx.faction_data.data.active = false;
    ctx.tier.data.count = ctx.tier.data.count - 1;
    Ok(())
}

/// What each faction of the tier is paid, if one transfer can carry it.
fn share_of(tier: &TierData) -> (res: Result<u64, PoolError>)
    requires
        tier.count > 0,
    ensures
        res == (if member_share(*tier) > u64::MAX {
            Err::<u64, PoolError>(PoolError::TokenTransferFailed)
        } else {
            Ok::<u64, PoolError>(member_share(*tier) as u64)
        }),
{
    assert(0 <= tier.royalty * tier.share <= 0xffff_ffff_ffff_ffff * 0xffff_ffff)
        by (nonlinear_arith)
        requires
            0 <= tier.royalty <= 0xffff_ffff_ffff_ffff,
            0 <= tier.share <= 0xffff_ffff,
    ;
    let slice: u128 = (tier.royalty as u128) * (tier.share as u128);
    let share: u128 = slice / (tier.count as u128) / (BASIS_POINTS as u128);
    if share > u64::MAX as u128 {
        Err(PoolError::TokenTransferFailed)
    } else {
        Ok(share as u64)
    }
}

/// Pays a faction its share of the royalty of the current epoch. On
/// success the faction's last claim is the clock's reading and the transfer
/// returned pays the share. A rejected claim changes nothing.
pub fn claim_faction<const CAPACITY: usize>(ctx: &mut ClaimFaction<CAPACITY>) -> (res: Result<
    Transfer,
    PoolError,
>)
    ensures
        (match res {
            Ok(share) => {
                &&& old(ctx).outcome() is Ok
                &&& share == old(ctx).share_transfer(old(ctx).outcome()->Ok_0)
                &&& *final(ctx) == old(ctx).applied()
            },
            Err(e) => old(ctx).outcome() == Err::<u64, PoolError>(e) && *final(ctx) == *old(ctx),
        }),
        old(ctx).faction_data.data.wf() ==> final(ctx).faction_data.data.wf(),
{
    if ctx.faction_data.data.owner != ctx.owner {
        return Err(PoolError::InvalidOwner);
    }
    if ctx.user_reward_account.data.owner != ctx.owner || ctx.pool_reward_account.data.owner
        != ctx.pool.key {
        return Err(PoolError::InvalidTokenAccount);
    }
    if !ctx.faction_data.data.active || ctx.tier.data.count == 0 {
        return Err(PoolError::InvalidTier);
    }
    let now: i128 = ctx.clock.unix_timestamp as i128;
    let start: i128 = ctx.tier.data.claim_start as i128;
    if ctx.faction_data.data.last_claim_time as i128 > start || start > now {
        return Err(PoolError::InvalidTime);
    }
    let amount = share_of(&ctx.tier.data)?;
    let share = Transfer {
        asset: Asset::Token,
        from: ctx.pool_reward_account.key,
        to: ctx.user_reward_account.key,
        authority: pool_authority(&ctx.pool),
        amount,
    };
    ctx.faction_data.data.last_claim_time = ctx.clock.unix_timestamp;
    Ok(share)
}

/// Founds a clan, which lists at most 7 NFTs. See `create_faction`.
pub fn create_clan(ctx: &mut CreateClan, bump: u8, mints: Vec<Pubkey>) -> (res: Result<
    Transfer,
    PoolError,
>)
    requires
        old(ctx).tier.data.count < u64::MAX,
    ensures
        (match res {
            Ok(fee) => {
                &&& old(ctx).rejection(mints) is None
                &&& fee == old(ctx).fee_transfer()
                &&& *final(ctx) == old(ctx).applied(bump, mints)
                &&& final(ctx).faction_data.data.wf()
            },
            Err(e) => old(ctx).rejection(mints) == Some(e) && *final(ctx) == *old(ctx),
        }),
        mints@.len() > CLAN_CAPACITY <==> res == Err::<Transfer, PoolError>(PoolError::InvalidTier),
{
    create_faction(ctx, bump, mints)
}

/// Founds a company, which lists at most 15 NFTs. See `create_faction`.
pub fn create_company(ctx: &mut CreateCompany, bump: u8, mints: Vec<Pubkey>) -> (res: Result<
    Transfer,
    PoolError,
>)
    requires
        old(ctx).tier.data.count < u64::MAX,
    ensures
        (match res {
            Ok(fee) => {
                &&& old(ctx).rejection(mints) is None
                &&& fee == old(ctx).fee_transfer()
                &&& *final(ctx) == old(ctx).applied(bump, mints)
                &&& final(ctx).faction_data.data.wf()
            },
            Err(e) => old(ctx).rejection(mints) == Some(e) && *final(ctx) == *old(ctx),
        }),
        mints@.len() > COMPANY_CAPACITY <==> res == Err::<Transfer, PoolError>(PoolError::InvalidTier),
{
    create_faction(ctx, bump, mints)
}

/// Founds a warparty, which lists at most 35 NFTs. See `create_faction`.
pub fn create_warparty(ctx: &mut CreateWarparty, bump: u8, mints: Vec<Pubkey>) -> (res: Result<
    Transfer,
    PoolError,
>)
    requires
        old(ctx).tier.data.count < u64::MAX,
    ensures
        (match res {
            Ok(fee) => {
                &&& old(ctx).rejection(mints) is None
                &&& fee == old(ctx).fee_transfer()
                &&& *final(ctx) == old(ctx).applied(bump, mints)
                &&& final(ctx).faction_data.data.wf()
            },
            Err(e) => old(ctx).rejection(mints) == Some(e) && *final(ctx) == *old(ctx),
        }),
        mints@.len() > WARPARTY_CAPACITY <==> res == Err::<Transfer, PoolError>(PoolError::InvalidTier),
{
    create_faction(ctx, bump, mints)
}

/// Removes a clan. See `remove_faction`.
pub fn remove_clan(ctx: &mut RemoveClan) -> (res: Result<(), PoolError>)
    ensures
        (match res {
            Ok(_) => old(ctx).rejection() is None && *final(ctx) == old(ctx).applied(),
            Err(e) => old(ctx).rejection() == Some(e) && *final(ctx) == *old(ctx),
        }),
{
    remove_faction(ctx)
}

/// Removes a company. See `remove_faction`.
pub fn remove_company(ctx: &mut RemoveCompany) -> (res: Result<(), PoolError>)
    ensures
        (match res {
            Ok(_) => old(ctx).rejection() is None && *final(ctx) == old(ctx).applied(),
            Err(e) => old(ctx).rejection() == Some(e) && *final(ctx) == *old(ctx),
        }),
{
    remove_faction(ctx)
}

/// Removes a warparty. See `remove_faction`.
pub fn remove_warparty(ctx: &mut RemoveWarparty) -> (res: Result<(), PoolError>)
    ensures
        (match res {
            Ok(_) => old(ctx).rejection() is None && *final(ctx) == old(ctx).applied(),
            Err(e) => old(ctx).rejection() == Some(e) && *final(ctx) == *old(ctx),
        }),
{
    remove_faction(ctx)
}

/// Pays a clan its share. See `claim_faction`.
pub fn claim_clan(ctx: &mut ClaimClan) -> (res: Result<Transfer, PoolError>)
    ensures
        (match res {
            Ok(share) => {
                &&& old(ctx).outcome() is Ok
                &&& share == old(ctx).share_transfer(old(ctx).outcome()->Ok_0)
                &&& *final(ctx) == old(ctx).applied()
            },
            Err(e) => old(ctx).outcome() == Err::<u64, PoolError>(e) && *final(ctx) == *old(ctx),
        }),
{
    claim_faction(ctx)
}

/// Pays a company its share. See `claim_faction`.
pub fn claim_company(ctx: &mut ClaimCompany) -> (res: Result<Transfer, PoolError>)
    ensures
        (match res {
            Ok(share) => {
                &&& old(ctx).outcome() is Ok
                &&& share == old(ctx).share_transfer(old(ctx).outcome()->Ok_0)
                &&& *final(ctx) == old(ctx).applied()
            },
            Err(e) => old(ctx).outcome() == Err::<u64, PoolError>(e) && *final(ctx) == *old(ctx),
        }),
{
    claim_faction(ctx)
}

/// Pays a warparty its share. See `claim_faction`.
pub fn claim_warparty(ctx: &mut ClaimWarparty) -> (res: Result<Transfer, PoolError>)
    ensures
        (match res {
            Ok(share) => {
                &&& old(ctx).outcome() is Ok
                &&& share == old(ctx).share_transfer(old(ctx).outcome()->Ok_0)
                &&& *final(ctx) == old(ctx).applied()
            },
            Err(e) => old(ctx).outcome() == Err::<u64, PoolError>(e) && *final(ctx) == *old(ctx),
        }),
{
    claim_faction(ctx)
}

/// Opens a new epoch: stamps the three tiers with the same royalty and the
/// same start. Only the owner of all three may do so. A rejected call
/// changes nothing.
pub fn set_royalty(ctx: &mut SetRoyalty, royalty: u64, start_time: u64) -> (res: Result<
    (),
    PoolError,
>)
    ensures
        (match res {
            Ok(_) => {
                &&& old(ctx).rejection() is None
                &&& *final(ctx) == old(ctx).applied(royalty, start_time)
            },
            Err(e) => old(ctx).rejection() == Some(e) && *final(ctx) == *old(ctx),
        }),
{
    if ctx.tier_clan.data.owner != ctx.owner || ctx.tier_company.data.owner != ctx.owner
        || ctx.tier_warparty.data.owner != ctx.owner {
        return Err(PoolError::InvalidOwner);
    }
    ctx.tier_clan.data.royalty = royalty;
    ctx.tier_clan.data.claim_start = start_time;
    ctx.tier_company.data.royalty = royalty;
    ctx.tier_company.data.claim_start = start_time;
    ctx.tier_warparty.data.royalty = royalty;
    ctx.tier_warparty.data.claim_start = start_time;
    Ok(())
}

/// Rounding down keeps back less than one unit for each faction: what the
/// factions of a tier are paid together is no more than the tier's slice
/// of the royalty, and falls short of it by less than their number.
pub proof fn lemma_leakage_is_bounded_by_count(tier: TierData)
    requires
        tier.count > 0,
    ensures
        tier.count * member_share(tier) <= tier_slice(tier) < tier.count * member_share(tier)
            + tier.count,
        member_share(tier) >= 0,
{
    let whole: int = tier.royalty * tier.share;
    let count: int = tier.count as int;
    let each: int = whole / count;
    let share: int = each / 10000;
    assert(whole >= 0) by (nonlinear_arith)
        requires
            whole == tier.royalty * tier.share,
            tier.royalty >= 0,
            tier.share >= 0,
    ;
    // Both divisions leave a remainder of less than the divisor.
    lemma_fundamental_div_mod(whole, count);
    lemma_fundamental_div_mod(each, 10000);
    lemma_div_is_ordered(0, whole, count);
    lemma_div_is_ordered(0, each, 10000);
    let paid: int = count * share;
    assert(paid >= 0 && 10000 * paid <= whole < 10000 * (paid + count)) by (nonlinear_arith)
        requires
            count > 0,
            share >= 0,
            paid == count * share,
            whole == count * each + whole % count,
            0 <= whole % count < count,
            each == 10000 * share + each % 10000,
            0 <= each % 10000 < 10000,
    ;
    // So the slice, the whole by 10000, lies from `paid` to below `paid + count`.
    lemma_div_by_multiple(paid, 10000);
    lemma_div_is_ordered(paid * 10000, whole, 10000);
    lemma_fundamental_div_mod(whole, 10000);
}

/// A claim that follows a removal is paid by the smaller count: where a
/// removal is accepted and a faction then claims against the tier as the
/// removal left it, the tier counts one less than before, and an accepted
/// claim pays the tier's slice divided by that smaller number.
pub proof fn lemma_claim_after_removal<const GONE: usize, const LEFT: usize>(
    removal: RemoveFaction<GONE>,
    later: ClaimFaction<LEFT>,
)
    requires
        removal.rejection() is None,
        later.tier == removal.applied().tier,
    ensures
        later.tier.data.count == removal.tier.data.count - 1,
        later.outcome() is Ok ==> later.outcome()->Ok_0 == (removal.tier.data.royalty
            * removal.tier.data.share) / (removal.tier.data.count - 1) / 10000,
{
}

/// A faction is paid once in an epoch, whatever becomes of the count:
/// where a claim is accepted after the epoch has opened, any further
/// claim of that faction in the same epoch is turned down.
pub proof fn lemma_one_claim_in_an_epoch<const CAPACITY: usize>(
    first: ClaimFaction<CAPACITY>,
    second: ClaimFaction<CAPACITY>,
)
    requires
        first.outcome() is Ok,
        first.clock.unix_timestamp > first.tier.data.claim_start,
        second.faction_data == first.applied().faction_data,
        second.tier.data.claim_start == first.tier.data.claim_start,
    ensures
        second.outcome() is Err,
{
}

/// A removed faction can neither claim nor be removed again.
pub proof fn lemma_removed_for_good<const CAPACITY: usize>(
    removal: RemoveFaction<CAPACITY>,
    claim: ClaimFaction<CAPACITY>,
    again: RemoveFaction<CAPACITY>,
)
    requires
        removal.rejection() is None,
        claim.faction_data == removal.applied().faction_data,
        again.faction_data == removal.applied().faction_data,
    ensures
        claim.outcome() is Err,
        again.rejection() is Some,
{
}

} // verus!
