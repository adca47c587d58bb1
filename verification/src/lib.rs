//! An asset-issuance registry: one platform record, many asset records, and
//! the transitions that create, reassign and read them.

pub mod asset;
pub mod engine;
pub mod error;
pub mod identity;
pub mod keys;
pub mod laws;
pub mod platform;

pub use asset::{
    check_limits, AssetLedger, NftMetadata, MAX_IMAGE_LEN, MAX_NAME_LEN, MAX_ROYALTY_BASIS_POINTS,
    MAX_SYMBOL_LEN, MAX_URI_LEN,
};
pub use engine::{
    check_mint, check_transfer, get_image_data, mint_nft, transfer_nft, FeeTransfer, GetImageData,
    MintNft, MintOrder, Outcome, TokenIssue, TokenTransfer, TransferNft,
};
pub use error::MetalaxError;
pub use identity::Identity;
pub use keys::{asset_key, derive_key, platform_key, ASSET_NAMESPACE, PLATFORM_NAMESPACE};
pub use platform::{initialize, update_platform, Initialize, MetalaxPlatform, UpdatePlatform, MINTING_FEE};
