//! The platform record: who administers the registry, and what it has issued.

use vstd::prelude::*;
use crate::error::MetalaxError;
use crate::identity::Identity;

verus! {

/// The fee for one issuance, in lamports (0.006 SOL).
pub const MINTING_FEE: u64 = 6_000_000;

/// The singleton configuration record.
#[derive(Clone, Copy, Debug, PartialEq, Eq)]
pub struct MetalaxPlatform {
    /// The only identity that receives fees and may change this record.
    pub owner: Identity,
    /// The bump of the address this record is stored under.
    pub bump: u8,
    /// How many assets were issued.
    pub total_minted: u64,
    /// The fees taken for them, in lamports.
    pub total_fees_collected: u64,
}

/// What `initialize` is called with.
#[derive(Clone, Copy, Debug, PartialEq, Eq)]
pub struct Initialize {
    /// The caller, who becomes the platform's owner.
    pub owner: Identity,
    /// The bump of the address the platform record is stored under.
    pub bump: u8,
}

/// What `update_platform` is called with.
#[derive(Clone, Copy, Debug, PartialEq, Eq)]
pub struct UpdatePlatform {
    /// The caller.
    pub current_owner: Identity,
}

impl MetalaxPlatform {
    /// The record of a platform that `owner` has just created.
    pub open spec fn fresh(owner: Identity, bump: u8) -> MetalaxPlatform {
        MetalaxPlatform { owner, bump, total_minted: 0, total_fees_collected: 0 }
    }

    /// The fees are exactly those of the issuances counted.
    pub open spec fn well_formed(self) -> bool {
        self.total_fees_collected == self.total_minted * MINTING_FEE
    }

    /// One more issuance can be counted without leaving `u64`.
    pub open spec fn has_room(self) -> bool {
        &&& self.total_minted < u64::MAX
        &&& self.total_fees_collected <= u64::MAX - MINTING_FEE
    }

    /// This record after one more issuance.
    pub open spec fn after_mint(self) -> MetalaxPlatform {
        MetalaxPlatform {
            total_minted: (self.total_minted + 1) as u64,
            total_fees_collected: (self.total_fees_collected + MINTING_FEE) as u64,
            ..self
        }
    }

    /// This record in the hands of `owner`.
    pub open spec fn owned_by(self, owner: Identity) -> MetalaxPlatform {
        MetalaxPlatform { owner, ..self }
    }
}

impl MetalaxPlatform {
    /// Whether one more issuance can be counted without leaving `u64`.
    pub fn can_count_mint(&self) -> (b: bool)
        ensures
            b == self.has_room(),
    {
        self.total_minted < u64::MAX && self.total_fees_collected <= u64::MAX - MINTING_FEE
    }
}

/// The slot and the result that `initialize` leaves.
pub open spec fn initialize_step(slot: Option<MetalaxPlatform>, ctx: Initialize) -> (
    Option<MetalaxPlatform>,
    Result<(), MetalaxError>,
) {
    match slot {
        Some(_) => (slot, Err(MetalaxError::AlreadyInitialized)),
        None => (Some(MetalaxPlatform::fresh(ctx.owner, ctx.bump)), Ok(())),
    }
}

/// The record and the result that `update_platform` leaves.
pub open spec fn update_step(
    platform: MetalaxPlatform,
    ctx: UpdatePlatform,
    new_owner: Option<Identity>,
) -> (MetalaxPlatform, Result<(), MetalaxError>) {
    if platform.owner != ctx.current_owner {
        (platform, Err(MetalaxError::NotPlatformOwner))
    } else {
        match new_owner {
            Some(owner) => (platform.owned_by(owner), Ok(())),
            None => (platform, Ok(())),
        }
    }
}

/// Creates the platform record in an empty slot, with the caller as owner
/// and both counters at zero. A slot that holds a record is left alone.
pub fn initialize(slot: &mut Option<MetalaxPlatform>, ctx: &Initialize) -> (r: Result<
    (),
    MetalaxError,
>)
    ensures
        (*final(slot), r) == initialize_step(*old(slot), *ctx),
        (*old(slot)) is Some <==> r == Err::<(), MetalaxError>(MetalaxError::AlreadyInitialized),
        (*old(slot)) is None <==> r is Ok,
        r is Ok ==> (*final(slot))->Some_0.well_formed(),
{
    if slot.is_some() {
        return Err(MetalaxError::AlreadyInitialized);
    }
    *slot = Some(
        MetalaxPlatform {
            owner: ctx.owner,
            bump: ctx.bump,
            total_minted: 0,
            total_fees_collected: 0,
        },
    );
    Ok(())
}

/// Hands the platform to `new_owner`, if one is given. Only the current
/// owner may call this; without a new owner nothing changes.
pub fn update_platform(
    platform: &mut MetalaxPlatform,
    ctx: &UpdatePlatform,
    new_owner: Option<Identity>,
) -> (r: Result<(), MetalaxError>)
    ensures
        (*final(platform), r) == update_step(*old(platform), *ctx, new_owner),
        old(platform).owner != ctx.current_owner <==> r == Err::<(), MetalaxError>(
            MetalaxError::NotPlatformOwner,
        ),
        old(platform).owner == ctx.current_owner <==> r is Ok,
        final(platform).bump == old(platform).bump,
        final(platform).total_minted == old(platform).total_minted,
        final(platform).total_fees_collected == old(platform).total_fees_collected,
{
    if !platform.owner.same(&ctx.current_owner) {
        return Err(MetalaxError::NotPlatformOwner);
    }
    if let Some(owner) = new_owner {
        platform.owner = owner;
    }
    Ok(())
}

} // verus!
