//! The transitions on assets: issuing one, handing one on, reading its image.
//!
//! Fees and token units are moved by services outside the registry. A
//! transition is therefore taken in two steps: a check that names the
//! movement to be made, and the transition itself, which is told how that
//! movement ended.

use vstd::prelude::*;
use crate::asset::{
    check_limits, limit_violation, sound, AssetLedger, NftMetadata, NftMetadataView,
};
use crate::error::MetalaxError;
use crate::identity::Identity;
use crate::platform::{MetalaxPlatform, MINTING_FEE};

verus! {

/// How a movement of lamports or of a token unit ended.
#[derive(Clone, Copy, Debug, PartialEq, Eq, Structural)]
pub enum Outcome {
    Completed,
    Failed,
}

/// Who takes part in an issuance.
#[derive(Clone, Copy, Debug, PartialEq, Eq)]
pub struct MintNft {
    /// The caller: pays the fee, and is the asset's creator and first owner.
    pub payer: Identity,
    /// The identity the fee is to go to.
    pub platform_owner: Identity,
    /// The new token identity.
    pub mint: Identity,
    /// The bump of the address the asset's record is stored under.
    pub bump: u8,
}

/// Who takes part in a transfer.
#[derive(Clone, Copy, Debug, PartialEq, Eq)]
pub struct TransferNft {
    /// The token identity of the asset.
    pub mint: Identity,
    /// The caller.
    pub current_owner: Identity,
    /// Who is to hold the asset.
    pub new_owner: Identity,
}

/// Which asset's image is asked for.
#[derive(Clone, Copy, Debug, PartialEq, Eq)]
pub struct GetImageData {
    /// The token identity of the asset.
    pub mint: Identity,
}

/// The fee movement that an issuance asks for.
#[derive(Clone, Copy, Debug, PartialEq, Eq)]
pub struct FeeTransfer {
    pub from: Identity,
    pub to: Identity,
    pub lamports: u64,
}

/// The token issuance that an issuance asks for: `amount` units of a mint
/// that the platform record has authority over, into the holder's account.
#[derive(Clone, Copy, Debug, PartialEq, Eq)]
pub struct TokenIssue {
    pub mint: Identity,
    pub holder: Identity,
    pub amount: u64,
    /// The bump of the platform record's address, with which it signs.
    pub authority_bump: u8,
}

/// What is to be done outside the registry for an issuance: first the fee,
/// then the token.
#[derive(Clone, Copy, Debug, PartialEq, Eq)]
pub struct MintOrder {
    pub fee: FeeTransfer,
    pub token: TokenIssue,
}

/// The token movement that a transfer asks for.
#[derive(Clone, Copy, Debug, PartialEq, Eq)]
pub struct TokenTransfer {
    pub mint: Identity,
    pub from: Identity,
    pub to: Identity,
    pub amount: u64,
}

/// What `mint_nft` is asked to issue, as mathematical values.
pub ghost struct MintCall {
    pub ctx: MintNft,
    pub name: Seq<char>,
    pub symbol: Seq<char>,
    pub uri: Seq<char>,
    pub image_data: Seq<u8>,
    pub seller_fee_basis_points: u16,
}

/// The platform record and the asset records together.
pub ghost struct RegistryState {
    pub platform: MetalaxPlatform,
    pub assets: Map<Identity, NftMetadataView>,
}

/// The first rule that the arguments of an issuance break: the limits in
/// the order name, symbol, URI, image, royalty, then the fee recipient, who
/// must be the platform's owner.
pub open spec fn mint_validation(platform: MetalaxPlatform, call: MintCall) -> Result<
    (),
    MetalaxError,
> {
    match limit_violation(
        call.name,
        call.symbol,
        call.uri,
        call.image_data,
        call.seller_fee_basis_points,
    ) {
        Some(e) => Err(e),
        None => if call.ctx.platform_owner != platform.owner {
            Err(MetalaxError::NotPlatformOwner)
        } else {
            Ok(())
        },
    }
}

/// What is to be done outside the registry for the issuance `ctx` asks for.
pub open spec fn mint_order(platform: MetalaxPlatform, ctx: MintNft) -> MintOrder {
    MintOrder {
        fee: FeeTransfer { from: ctx.payer, to: platform.owner, lamports: MINTING_FEE },
        token: TokenIssue {
            mint: ctx.mint,
            holder: ctx.payer,
            amount: 1,
            authority_bump: platform.bump,
        },
    }
}

/// How an issuance ends: the arguments are validated, then the fee must
/// have been paid, then the mint must be new.
pub open spec fn mint_result(state: RegistryState, call: MintCall, fee: Outcome) -> Result<
    (),
    MetalaxError,
> {
    match mint_validation(state.platform, call) {
        Err(e) => Err(e),
        Ok(_) => if fee == Outcome::Failed {
            Err(MetalaxError::InsufficientFunds)
        } else if state.assets.dom().contains(call.ctx.mint) {
            Err(MetalaxError::DuplicateAsset)
        } else {
            Ok(())
        },
    }
}

/// The record that an issuance creates.
pub open spec fn minted_record(call: MintCall) -> NftMetadataView {
    NftMetadataView {
        mint: call.ctx.mint,
        name: call.name,
        symbol: call.symbol,
        uri: call.uri,
        image_data: call.image_data,
        creator: call.ctx.payer,
        owner: call.ctx.payer,
        royalty_basis_points: call.seller_fee_basis_points,
        bump: call.ctx.bump,
    }
}

/// The state and the result that `mint_nft` leaves.
pub open spec fn mint_step(state: RegistryState, call: MintCall, fee: Outcome) -> (
    RegistryState,
    Result<(), MetalaxError>,
) {
    let result = mint_result(state, call, fee);
    if result is Ok {
        (
            RegistryState {
                platform: state.platform.after_mint(),
                assets: state.assets.insert(call.ctx.mint, minted_record(call)),
            },
            result,
        )
    } else {
        (state, result)
    }
}

/// How a transfer ends: the asset must exist, the caller must own it, and
/// the token unit must have moved.
pub open spec fn transfer_result(
    assets: Map<Identity, NftMetadataView>,
    ctx: TransferNft,
    moved: Outcome,
) -> Result<(), MetalaxError> {
    if !assets.dom().contains(ctx.mint) {
        Err(MetalaxError::NotFound)
    } else if assets[ctx.mint].owner != ctx.current_owner {
        Err(MetalaxError::NotNftOwner)
    } else if moved == Outcome::Failed {
        Err(MetalaxError::TransferFailed)
    } else {
        Ok(())
    }
}

/// The records that a transfer leaves: on success the asset is the new
/// owner's and all else is as before; on failure nothing has changed.
pub open spec fn transfer_assets(
    assets: Map<Identity, NftMetadataView>,
    ctx: TransferNft,
    moved: Outcome,
) -> Map<Identity, NftMetadataView> {
    if transfer_result(assets, ctx, moved) is Ok {
        assets.insert(ctx.mint, assets[ctx.mint].owned_by(ctx.new_owner))
    } else {
        assets
    }
}

/// The state and the result that `transfer_nft` leaves.
pub open spec fn transfer_step(state: RegistryState, ctx: TransferNft, moved: Outcome) -> (
    RegistryState,
    Result<(), MetalaxError>,
) {
    (
        RegistryState { assets: transfer_assets(state.assets, ctx, moved), ..state },
        transfer_result(state.assets, ctx, moved),
    )
}

/// What `get_image_data` returns.
pub open spec fn image_result(assets: Map<Identity, NftMetadataView>, ctx: GetImageData) -> Result<
    Seq<u8>,
    MetalaxError,
> {
    if assets.dom().contains(ctx.mint) {
        Ok(assets[ctx.mint].image_data)
    } else {
        Err(MetalaxError::NotFound)
    }
}

/// The state and the result that `get_image_data` leaves.
pub open spec fn read_step(state: RegistryState, ctx: GetImageData) -> (
    RegistryState,
    Result<Seq<u8>, MetalaxError>,
) {
    (state, image_result(state.assets, ctx))
}

fn validate_mint(
    platform: &MetalaxPlatform,
    ctx: &MintNft,
    name: &str,
    symbol: &str,
    uri: &str,
    image_data: &[u8],
    seller_fee_basis_points: u16,
) -> (r: Result<(), MetalaxError>)
    ensures
        r == mint_validation(
            *platform,
            (MintCall {
                ctx: *ctx,
                name: name@,
                symbol: symbol@,
                uri: uri@,
                image_data: image_data@,
                seller_fee_basis_points,
            }),
        ),
{
    match check_limits(name, symbol, uri, image_data, seller_fee_basis_points) {
        Err(e) => {
            return Err(e);
        },
        Ok(_) => {},
    }
    if !ctx.platform_owner.same(&platform.owner) {
        return Err(MetalaxError::NotPlatformOwner);
    }
    Ok(())
}

/// Decides whether an issuance can go ahead once its fee is paid, and if so
/// names what is to be done outside the registry: `MINTING_FEE` lamports
/// from the payer to the platform's owner, and one unit of the new mint,
/// issued under the platform's authority, to the payer. Nothing is changed.
pub fn check_mint(
    platform: &MetalaxPlatform,
    ledger: &AssetLedger,
    ctx: &MintNft,
    name: &str,
    symbol: &str,
    uri: &str,
    image_data: &[u8],
    seller_fee_basis_points: u16,
) -> (r: Result<MintOrder, MetalaxError>)
    ensures
        ({
            let call = MintCall {
                ctx: *ctx,
                name: name@,
                symbol: symbol@,
                uri: uri@,
                image_data: image_data@,
                seller_fee_basis_points,
            };
            match mint_result(
                (RegistryState { platform: *platform, assets: ledger@ }),
                call,
                Outcome::Completed,
            ) {
                Ok(_) => r == Ok::<MintOrder, MetalaxError>(mint_order(*platform, *ctx)),
                Err(e) => r == Err::<MintOrder, MetalaxError>(e),
            }
        }),
{
    match validate_mint(platform, ctx, name, symbol, uri, image_data, seller_fee_basis_points) {
        Err(e) => Err(e),
        Ok(_) => {
            if ledger.contains(&ctx.mint) {
                Err(MetalaxError::DuplicateAsset)
            } else {
                Ok(
                    MintOrder {
                        fee: FeeTransfer {
                            from: ctx.payer,
                            to: platform.owner,
                            lamports: MINTING_FEE,
                        },
                        token: TokenIssue {
                            mint: ctx.mint,
                            holder: ctx.payer,
                            amount: 1,
                            authority_bump: platform.bump,
                        },
                    },
                )
            }
        },
    }
}

/// Issues an asset: creates its record with the payer as creator and owner,
/// and counts the issuance and its fee on the platform. `fee` says how the
/// fee movement ended. On any failure nothing is changed.
pub fn mint_nft(
    platform: &mut MetalaxPlatform,
    ledger: &mut AssetLedger,
    ctx: &MintNft,
    name: String,
    symbol: String,
    uri: String,
    image_data: Vec<u8>,
    seller_fee_basis_points: u16,
    fee: Outcome,
) -> (r: Result<(), MetalaxError>)
    requires
        old(platform).has_room(),
    ensures
        ({
            let call = MintCall {
                ctx: *ctx,
                name: name@,
                symbol: symbol@,
                uri: uri@,
                image_data: image_data@,
                seller_fee_basis_points,
            };
            let before = RegistryState { platform: *old(platform), assets: old(ledger)@ };
            let after = RegistryState { platform: *final(platform), assets: final(ledger)@ };
            &&& (after, r) == mint_step(before, call, fee)
            &&& r is Ok ==> after.assets[ctx.mint] == minted_record(call)
        }),
        r is Ok ==> final(platform).total_minted == old(platform).total_minted + 1,
        r is Ok ==> final(platform).total_fees_collected == old(platform).total_fees_collected
            + MINTING_FEE,
        r is Err ==> *final(platform) == *old(platform) && final(ledger)@ == old(ledger)@,
        old(platform).well_formed() ==> final(platform).well_formed(),
        sound(final(ledger)@),
{
    let taken = ledger.contains(&ctx.mint);
    match validate_mint(
        platform,
        ctx,
        name.as_str(),
        symbol.as_str(),
        uri.as_str(),
        image_data.as_slice(),
        seller_fee_basis_points,
    ) {
        Err(e) => {
            return Err(e);
        },
        Ok(_) => {},
    }
    match fee {
        Outcome::Failed => {
            return Err(MetalaxError::InsufficientFunds);
        },
        Outcome::Completed => {},
    }
    if taken {
        return Err(MetalaxError::DuplicateAsset);
    }
    let record = NftMetadata {
        mint: ctx.mint,
        name,
        symbol,
        uri,
        image_data,
        creator: ctx.payer,
        owner: ctx.payer,
        royalty_basis_points: seller_fee_basis_points,
        bump: ctx.bump,
    };
    ledger.create(record);
    platform.total_minted = platform.total_minted + 1;
    platform.total_fees_collected = platform.total_fees_collected + MINTING_FEE;
    Ok(())
}

/// Decides whether a transfer can go ahead once the token unit has moved,
/// and if so names the movement to make: the one unit of the mint, from the
/// caller to the new owner. Nothing is changed.
pub fn check_transfer(ledger: &AssetLedger, ctx: &TransferNft) -> (r: Result<
    TokenTransfer,
    MetalaxError,
>)
    ensures
        match transfer_result(ledger@, *ctx, Outcome::Completed) {
            Ok(_) => r == Ok::<TokenTransfer, MetalaxError>(
                (TokenTransfer {
                    mint: ctx.mint,
                    from: ctx.current_owner,
                    to: ctx.new_owner,
                    amount: 1,
                }),
            ),
            Err(e) => r == Err::<TokenTransfer, MetalaxError>(e),
        },
        sound(ledger@),
{
    match ledger.get(&ctx.mint) {
        None => Err(MetalaxError::NotFound),
        Some(record) => {
            if !record.owner.same(&ctx.current_owner) {
                Err(MetalaxError::NotNftOwner)
            } else {
                Ok(
                    TokenTransfer {
                        mint: ctx.mint,
                        from: ctx.current_owner,
                        to: ctx.new_owner,
                        amount: 1,
                    },
                )
            }
        },
    }
}

/// Hands an asset from the caller, who must own it, to the new owner.
/// `moved` says how the movement of the token unit ended. On any failure
/// nothing is changed; on success only the record's owner is.
pub fn transfer_nft(ledger: &mut AssetLedger, ctx: &TransferNft, moved: Outcome) -> (r: Result<
    (),
    MetalaxError,
>)
    ensures
        r == transfer_result(old(ledger)@, *ctx, moved),
        final(ledger)@ == transfer_assets(old(ledger)@, *ctx, moved),
        r is Ok ==> final(ledger)@[ctx.mint] == old(ledger)@[ctx.mint].owned_by(ctx.new_owner),
        r is Err ==> final(ledger)@ == old(ledger)@,
        old(ledger)@.dom().contains(ctx.mint) && old(ledger)@[ctx.mint].owner != ctx.current_owner
            ==> r == Err::<(), MetalaxError>(MetalaxError::NotNftOwner),
        final(ledger)@.dom() == old(ledger)@.dom(),
        sound(final(ledger)@),
{
    match check_transfer(ledger, ctx) {
        Err(e) => {
            return Err(e);
        },
        Ok(_) => {},
    }
    match moved {
        Outcome::Failed => {
            return Err(MetalaxError::TransferFailed);
        },
        Outcome::Completed => {},
    }
    ledger.set_owner(&ctx.mint, ctx.new_owner);
    assert(final(ledger)@.dom() =~= old(ledger)@.dom());
    Ok(())
}

/// The image of an asset, byte for byte as it was issued. Anyone may read it.
pub fn get_image_data(ledger: &AssetLedger, ctx: &GetImageData) -> (r: Result<
    Vec<u8>,
    MetalaxError,
>)
    ensures
        match image_result(ledger@, *ctx) {
            Ok(image) => r is Ok && r->Ok_0@ == image,
            Err(e) => r == Err::<Vec<u8>, MetalaxError>(e),
        },
{
    match ledger.get(&ctx.mint) {
        None => Err(MetalaxError::NotFound),
        Some(record) => {
            let image = record.image_data.clone();
            assert(image@ =~= record.image_data@);
            Ok(image)
        },
    }
}

} // verus!
