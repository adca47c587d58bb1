//! The typed failures of the registry's operations.

use vstd::prelude::*;

verus! {

/// Why an operation was refused. Every refusal leaves all records as they were.
#[derive(Clone, Copy, Debug, PartialEq, Eq, Structural)]
pub enum MetalaxError {
    /// The name is longer than `MAX_NAME_LEN` bytes.
    NameTooLong,
    /// The symbol is longer than `MAX_SYMBOL_LEN` bytes.
    SymbolTooLong,
    /// The URI is longer than `MAX_URI_LEN` bytes.
    UriTooLong,
    /// The image payload is longer than `MAX_IMAGE_LEN` bytes.
    ImageTooLarge,
    /// The royalty is more than `MAX_ROYALTY_BASIS_POINTS`.
    InvalidRoyalty,
    /// The caller does not own the asset.
    NotNftOwner,
    /// The identity given as platform owner is not the platform's owner.
    NotPlatformOwner,
    /// The platform record exists already.
    AlreadyInitialized,
    /// The payer could not cover the minting fee.
    InsufficientFunds,
    /// A record for this mint exists already.
    DuplicateAsset,
    /// The token unit could not be moved between holding accounts.
    TransferFailed,
    /// No record exists for this mint.
    NotFound,
}

impl MetalaxError {
    /// The text shown to a caller for this failure.
    pub open spec fn spec_message(self) -> Seq<char> {
        match self {
            MetalaxError::NameTooLong => "Name is too long (max 32 characters)"@,
            MetalaxError::SymbolTooLong => "Symbol is too long (max 10 characters)"@,
            MetalaxError::UriTooLong => "URI is too long (max 200 characters)"@,
            MetalaxError::ImageTooLarge => "Image data is too large (max 10KB for cost efficiency)"@,
            MetalaxError::InvalidRoyalty => "Invalid royalty percentage (max 100%)"@,
            MetalaxError::NotNftOwner => "Not the NFT owner"@,
            MetalaxError::NotPlatformOwner => "Not the platform owner"@,
            MetalaxError::AlreadyInitialized => "Platform is already initialized"@,
            MetalaxError::InsufficientFunds => "Insufficient funds for the minting fee"@,
            MetalaxError::DuplicateAsset => "An NFT already exists for this mint"@,
            MetalaxError::TransferFailed => "Token transfer failed"@,
            MetalaxError::NotFound => "No NFT exists for this mint"@,
        }
    }

    /// The text shown to a caller for this failure.
    pub fn message(&self) -> (text: &'static str)
        ensures
            text@ == self.spec_message(),
    {
        match self {
            MetalaxError::NameTooLong => "Name is too long (max 32 characters)",
            MetalaxError::SymbolTooLong => "Symbol is too long (max 10 characters)",
            MetalaxError::UriTooLong => "URI is too long (max 200 characters)",
            MetalaxError::ImageTooLarge => "Image data is too large (max 10KB for cost efficiency)",
            MetalaxError::InvalidRoyalty => "Invalid royalty percentage (max 100%)",
            MetalaxError::NotNftOwner => "Not the NFT owner",
            MetalaxError::NotPlatformOwner => "Not the platform owner",
            MetalaxError::AlreadyInitialized => "Platform is already initialized",
            MetalaxError::InsufficientFunds => "Insufficient funds for the minting fee",
            MetalaxError::DuplicateAsset => "An NFT already exists for this mint",
            MetalaxError::TransferFailed => "Token transfer failed",
            MetalaxError::NotFound => "No NFT exists for this mint",
        }
    }
}

} // verus!
