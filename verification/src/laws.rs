//! What holds of the registry over whole sequences of calls.

use vstd::prelude::*;
use crate::asset::{sound, NftMetadataView};
use crate::engine::{
    mint_result, mint_step, mint_validation, minted_record, read_step, transfer_step,
    GetImageData, MintCall, Outcome, RegistryState, TransferNft,
};
use crate::error::MetalaxError;
use crate::identity::Identity;
use crate::platform::{
    initialize_step, update_step, Initialize, MetalaxPlatform, UpdatePlatform, MINTING_FEE,
};

verus! {

/// One call on an initialized registry.
pub ghost enum Call {
    Mint { call: MintCall, fee: Outcome },
    Transfer { ctx: TransferNft, moved: Outcome },
    Update { by: UpdatePlatform, new_owner: Option<Identity> },
    Read(GetImageData),
}

/// The state that `call` leaves.
pub open spec fn step(state: RegistryState, call: Call) -> RegistryState {
    match call {
        Call::Mint { call, fee } => mint_step(state, call, fee).0,
        Call::Transfer { ctx, moved } => transfer_step(state, ctx, moved).0,
        Call::Update { by, new_owner } => RegistryState {
            platform: update_step(state.platform, by, new_owner).0,
            ..state
        },
        Call::Read(ctx) => read_step(state, ctx).0,
    }
}

/// Whether `call` is an issuance that succeeds in `state`.
pub open spec fn issues(state: RegistryState, call: Call) -> bool {
    match call {
        Call::Mint { call, fee } => mint_result(state, call, fee) is Ok,
        _ => false,
    }
}

/// The state after `calls`, made in order.
pub open spec fn run(state: RegistryState, calls: Seq<Call>) -> RegistryState
    decreases calls.len(),
{
    if calls.len() == 0 {
        state
    } else {
        step(run(state, calls.drop_last()), calls.last())
    }
}

/// How many of `calls`, made in order, are issuances that succeed.
pub open spec fn issued(state: RegistryState, calls: Seq<Call>) -> nat
    decreases calls.len(),
{
    if calls.len() == 0 {
        0
    } else {
        let earlier = issued(state, calls.drop_last());
        if issues(run(state, calls.drop_last()), calls.last()) {
            earlier + 1
        } else {
            earlier
        }
    }
}

/// The fees are those of the issuances counted, and the records are sound.
pub open spec fn consistent(state: RegistryState) -> bool {
    &&& state.platform.well_formed()
    &&& sound(state.assets)
}

/// The platform is created once: a second `initialize` is refused with
/// `AlreadyInitialized`, and the owner stays the first caller.
pub proof fn law_single_initialization(first: Initialize, second: Initialize)
    ensures
        initialize_step(None, first).1 is Ok,
        initialize_step(None, first).0 == Some(MetalaxPlatform::fresh(first.owner, first.bump)),
        initialize_step(initialize_step(None, first).0, second).1 == Err::<(), MetalaxError>(
            MetalaxError::AlreadyInitialized,
        ),
        initialize_step(initialize_step(None, first).0, second).0 == initialize_step(
            None,
            first,
        ).0,
        initialize_step(initialize_step(None, first).0, second).0->Some_0.owner == first.owner,
{
}

/// Over any sequence of calls, the issuance counter grows by the number of
/// issuances that succeeded and the fee total by `MINTING_FEE` for each of
/// them; transfers, updates, reads and refused calls change neither.
pub proof fn law_fee_monotonicity(state: RegistryState, calls: Seq<Call>)
    requires
        state.platform.total_minted + calls.len() <= u64::MAX,
        state.platform.total_fees_collected + calls.len() * MINTING_FEE <= u64::MAX,
    ensures
        issued(state, calls) <= calls.len(),
        state.platform.total_minted <= run(state, calls).platform.total_minted,
        state.platform.total_fees_collected <= run(state, calls).platform.total_fees_collected,
        run(state, calls).platform.total_minted == state.platform.total_minted + issued(
            state,
            calls,
        ),
        run(state, calls).platform.total_fees_collected == state.platform.total_fees_collected
            + issued(state, calls) * MINTING_FEE,
    decreases calls.len(),
{
    if calls.len() > 0 {
        law_fee_monotonicity(state, calls.drop_last());
    }
}

/// After `n` issuances in a row, each of which succeeded, on a platform that
/// was just created, the counter is `n` and the fee total `n * MINTING_FEE`.
pub proof fn law_fees_of_fresh_platform(
    owner: Identity,
    bump: u8,
    assets: Map<Identity, NftMetadataView>,
    calls: Seq<Call>,
)
    requires
        calls.len() * MINTING_FEE <= u64::MAX,
        issued((RegistryState { platform: MetalaxPlatform::fresh(owner, bump), assets }), calls)
            == calls.len(),
    ensures
        run(
            (RegistryState { platform: MetalaxPlatform::fresh(owner, bump), assets }),
            calls,
        ).platform.total_minted == calls.len(),
        run(
            (RegistryState { platform: MetalaxPlatform::fresh(owner, bump), assets }),
            calls,
        ).platform.total_fees_collected == calls.len() * MINTING_FEE,
{
    law_fee_monotonicity(
        RegistryState { platform: MetalaxPlatform::fresh(owner, bump), assets },
        calls,
    );
}

/// A consistent state stays consistent under every call.
pub proof fn law_step_keeps_consistency(state: RegistryState, call: Call)
    requires
        consistent(state),
        state.platform.has_room(),
    ensures
        consistent(step(state, call)),
{
    let next = step(state, call);
    assert forall|mint: Identity| #[trigger] next.assets.dom().contains(mint) implies next.assets[mint].valid()
        && next.assets[mint].mint == mint by {
        if state.assets.dom().contains(mint) {
            assert(state.assets[mint].valid());
        }
    }
}

/// A consistent state stays consistent over any sequence of calls.
pub proof fn law_run_keeps_consistency(state: RegistryState, calls: Seq<Call>)
    requires
        consistent(state),
        state.platform.total_minted + calls.len() <= u64::MAX,
        state.platform.total_fees_collected + calls.len() * MINTING_FEE <= u64::MAX,
    ensures
        consistent(run(state, calls)),
    decreases calls.len(),
{
    if calls.len() > 0 {
        law_run_keeps_consistency(state, calls.drop_last());
        law_fee_monotonicity(state, calls.drop_last());
        law_step_keeps_consistency(run(state, calls.drop_last()), calls.last());
    }
}

/// Where the issuance counter is the number of records, it stays so under
/// every call: an issuance adds one record, and nothing else adds or
/// removes any.
pub proof fn law_counter_matches_records(state: RegistryState, call: Call)
    requires
        state.assets.dom().finite(),
        state.platform.total_minted == state.assets.dom().len(),
        state.platform.has_room(),
    ensures
        step(state, call).assets.dom().finite(),
        step(state, call).platform.total_minted == step(state, call).assets.dom().len(),
        state.assets.dom().subset_of(step(state, call).assets.dom()),
{
    match call {
        Call::Transfer { ctx, moved } => {
            assert(step(state, call).assets.dom() =~= state.assets.dom());
        },
        _ => {},
    }
}

/// No call removes a record, and no call changes anything of a record but
/// its owner.
pub proof fn law_records_are_kept(state: RegistryState, call: Call, mint: Identity)
    requires
        state.assets.dom().contains(mint),
    ensures
        step(state, call).assets.dom().contains(mint),
        step(state, call).assets[mint] == state.assets[mint].owned_by(
            step(state, call).assets[mint].owner,
        ),
{
}

/// What was issued is what is read, byte for byte, also after the asset
/// has changed hands.
pub proof fn law_image_is_kept(
    state: RegistryState,
    call: MintCall,
    transfer: TransferNft,
    moved: Outcome,
)
    requires
        mint_result(state, call, Outcome::Completed) is Ok,
    ensures
        ({
            let read = GetImageData { mint: call.ctx.mint };
            let issued = mint_step(state, call, Outcome::Completed).0;
            &&& read_step(issued, read).1 == Ok::<Seq<u8>, MetalaxError>(call.image_data)
            &&& read_step(transfer_step(issued, transfer, moved).0, read).1 == Ok::<
                Seq<u8>,
                MetalaxError,
            >(call.image_data)
        }),
{
}

/// A transfer asked for by anyone but the asset's owner is refused with
/// `NotNftOwner`, whatever became of the token unit, and changes nothing.
pub proof fn law_only_owner_transfers(state: RegistryState, ctx: TransferNft, moved: Outcome)
    requires
        state.assets.dom().contains(ctx.mint),
        state.assets[ctx.mint].owner != ctx.current_owner,
    ensures
        transfer_step(state, ctx, moved) == (
            state,
            Err::<(), MetalaxError>(MetalaxError::NotNftOwner),
        ),
{
}

/// An asset issued to its payer, handed to `other` and handed back is again
/// the payer's, and the registry is as it was right after the issuance:
/// neither counter has moved.
pub proof fn law_ownership_round_trip(state: RegistryState, call: MintCall, other: Identity)
    requires
        mint_result(state, call, Outcome::Completed) is Ok,
    ensures
        ({
            let mint = call.ctx.mint;
            let payer = call.ctx.payer;
            let issued = mint_step(state, call, Outcome::Completed).0;
            let away = transfer_step(
                issued,
                (TransferNft { mint, current_owner: payer, new_owner: other }),
                Outcome::Completed,
            );
            let back = transfer_step(
                away.0,
                (TransferNft { mint, current_owner: other, new_owner: payer }),
                Outcome::Completed,
            );
            &&& issued.assets[mint].owner == payer
            &&& away.1 is Ok
            &&& away.0.assets[mint].owner == other
            &&& away.0.platform == issued.platform
            &&& back.1 is Ok
            &&& back.0.assets[mint].owner == payer
            &&& back.0 == issued
        }),
{
    let mint = call.ctx.mint;
    let payer = call.ctx.payer;
    let issued = mint_step(state, call, Outcome::Completed).0;
    let away = transfer_step(
        issued,
        TransferNft { mint, current_owner: payer, new_owner: other },
        Outcome::Completed,
    );
    let back = transfer_step(
        away.0,
        TransferNft { mint, current_owner: other, new_owner: payer },
        Outcome::Completed,
    );
    assert(back.0.assets =~= issued.assets);
}

/// Reading an image changes nothing, so reading it again gives the same.
pub proof fn law_read_is_idempotent(state: RegistryState, ctx: GetImageData)
    ensures
        read_step(state, ctx).0 == state,
        read_step(read_step(state, ctx).0, ctx).1 == read_step(state, ctx).1,
{
}

/// Only the owner can change the platform, and once the owner has handed it
/// to `successor`, it is `successor` that updates and issuances are checked
/// against.
pub proof fn law_admin_rotation(
    platform: MetalaxPlatform,
    ctx: UpdatePlatform,
    successor: Identity,
    later: UpdatePlatform,
    later_owner: Option<Identity>,
    call: MintCall,
)
    ensures
        ctx.current_owner != platform.owner ==> update_step(platform, ctx, Some(successor)) == (
            platform,
            Err::<(), MetalaxError>(MetalaxError::NotPlatformOwner),
        ),
        ctx.current_owner == platform.owner ==> update_step(platform, ctx, Some(successor)) == (
            platform.owned_by(successor),
            Ok::<(), MetalaxError>(()),
        ),
        ctx.current_owner == platform.owner ==> update_step(platform, ctx, None) == (
            platform,
            Ok::<(), MetalaxError>(()),
        ),
        update_step(platform.owned_by(successor), later, later_owner).1 is Ok <==> later.current_owner
            == successor,
        call.ctx.platform_owner == successor ==> mint_validation(
            platform.owned_by(successor),
            call,
        ) != Err::<(), MetalaxError>(MetalaxError::NotPlatformOwner),
        call.ctx.platform_owner != successor ==> mint_validation(
            platform.owned_by(successor),
            call,
        ) is Err,
        call.ctx.platform_owner != successor && minted_record(call).valid() ==> mint_validation(
            platform.owned_by(successor),
            call,
        ) == Err::<(), MetalaxError>(MetalaxError::NotPlatformOwner),
        call.ctx.platform_owner == successor && minted_record(call).valid() ==> mint_validation(
            platform.owned_by(successor),
            call,
        ) is Ok,
{
}

} // verus!
