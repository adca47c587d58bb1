use metalax_nft::{
    initialize, update_platform, Identity, Initialize, MetalaxError, MetalaxPlatform,
    UpdatePlatform, MINTING_FEE,
};

fn id(n: u8) -> Identity {
    Identity::new([n; 32])
}

#[test]
fn identity_keeps_its_bytes() {
    let mut bytes = [0u8; 32];
    bytes[0] = 7;
    bytes[31] = 9;
    let a = Identity::new(bytes);
    assert_eq!(a.to_bytes(), bytes);
    assert_eq!(a.bytes, bytes);
}

#[test]
fn identity_same_compares_every_byte() {
    let a = id(1);
    let mut last = [1u8; 32];
    last[31] = 2;
    let mut first = [1u8; 32];
    first[0] = 2;
    assert!(a.same(&id(1)));
    assert!(!a.same(&id(2)));
    assert!(!a.same(&Identity::new(last)));
    assert!(!a.same(&Identity::new(first)));
}

#[test]
fn minting_fee_is_six_million_lamports() {
    assert_eq!(MINTING_FEE, 6_000_000);
}

#[test]
fn initialize_creates_platform_with_zero_counters() {
    let mut slot = None;
    let r = initialize(&mut slot, &Initialize { owner: id(1), bump: 254 });
    assert_eq!(r, Ok(()));
    assert_eq!(
        slot,
        Some(MetalaxPlatform { owner: id(1), bump: 254, total_minted: 0, total_fees_collected: 0 })
    );
}

#[test]
fn second_initialize_is_refused_and_owner_stays() {
    let mut slot = None;
    assert_eq!(initialize(&mut slot, &Initialize { owner: id(1), bump: 254 }), Ok(()));
    let before = slot;
    let r = initialize(&mut slot, &Initialize { owner: id(2), bump: 3 });
    assert_eq!(r, Err(MetalaxError::AlreadyInitialized));
    assert_eq!(slot, before);
    assert_eq!(slot.unwrap().owner, id(1));
    // The first caller is refused as well.
    let r = initialize(&mut slot, &Initialize { owner: id(1), bump: 254 });
    assert_eq!(r, Err(MetalaxError::AlreadyInitialized));
    assert_eq!(slot, before);
}

#[test]
fn update_by_stranger_is_refused() {
    let mut platform =
        MetalaxPlatform { owner: id(1), bump: 5, total_minted: 4, total_fees_collected: 24_000_000 };
    let before = platform;
    let r = update_platform(&mut platform, &UpdatePlatform { current_owner: id(2) }, Some(id(2)));
    assert_eq!(r, Err(MetalaxError::NotPlatformOwner));
    assert_eq!(platform, before);
    let r = update_platform(&mut platform, &UpdatePlatform { current_owner: id(2) }, None);
    assert_eq!(r, Err(MetalaxError::NotPlatformOwner));
    assert_eq!(platform, before);
}

#[test]
fn update_by_owner_hands_platform_on() {
    let mut platform =
        MetalaxPlatform { owner: id(1), bump: 5, total_minted: 4, total_fees_collected: 24_000_000 };
    let r = update_platform(&mut platform, &UpdatePlatform { current_owner: id(1) }, Some(id(3)));
    assert_eq!(r, Ok(()));
    assert_eq!(
        platform,
        MetalaxPlatform { owner: id(3), bump: 5, total_minted: 4, total_fees_collected: 24_000_000 }
    );
}

#[test]
fn update_without_new_owner_changes_nothing() {
    let mut platform =
        MetalaxPlatform { owner: id(1), bump: 5, total_minted: 4, total_fees_collected: 24_000_000 };
    let before = platform;
    let r = update_platform(&mut platform, &UpdatePlatform { current_owner: id(1) }, None);
    assert_eq!(r, Ok(()));
    assert_eq!(platform, before);
    let r = update_platform(&mut platform, &UpdatePlatform { current_owner: id(1) }, None);
    assert_eq!(r, Ok(()));
    assert_eq!(platform, before);
}

#[test]
fn after_rotation_only_the_successor_updates() {
    let mut platform =
        MetalaxPlatform { owner: id(1), bump: 5, total_minted: 0, total_fees_collected: 0 };
    assert_eq!(
        update_platform(&mut platform, &UpdatePlatform { current_owner: id(1) }, Some(id(3))),
        Ok(())
    );
    assert_eq!(
        update_platform(&mut platform, &UpdatePlatform { current_owner: id(1) }, Some(id(1))),
        Err(MetalaxError::NotPlatformOwner)
    );
    assert_eq!(platform.owner, id(3));
    assert_eq!(
        update_platform(&mut platform, &UpdatePlatform { current_owner: id(3) }, Some(id(4))),
        Ok(())
    );
    assert_eq!(platform.owner, id(4));
}

#[test]
fn update_may_name_the_owner_again() {
    let mut platform =
        MetalaxPlatform { owner: id(1), bump: 5, total_minted: 0, total_fees_collected: 0 };
    let before = platform;
    assert_eq!(
        update_platform(&mut platform, &UpdatePlatform { current_owner: id(1) }, Some(id(1))),
        Ok(())
    );
    assert_eq!(platform, before);
}

#[test]
fn error_messages() {
    assert_eq!(MetalaxError::NameTooLong.message(), "Name is too long (max 32 characters)");
    assert_eq!(MetalaxError::SymbolTooLong.message(), "Symbol is too long (max 10 characters)");
    assert_eq!(MetalaxError::UriTooLong.message(), "URI is too long (max 200 characters)");
    assert_eq!(
        MetalaxError::ImageTooLarge.message(),
        "Image data is too large (max 10KB for cost efficiency)"
    );
    assert_eq!(MetalaxError::InvalidRoyalty.message(), "Invalid royalty percentage (max 100%)");
    assert_eq!(MetalaxError::NotNftOwner.message(), "Not the NFT owner");
    assert_eq!(MetalaxError::NotPlatformOwner.message(), "Not the platform owner");
    assert_eq!(MetalaxError::AlreadyInitialized.message(), "Platform is already initialized");
    assert_eq!(
        MetalaxError::InsufficientFunds.message(),
        "Insufficient funds for the minting fee"
    );
    assert_eq!(MetalaxError::DuplicateAsset.message(), "An NFT already exists for this mint");
    assert_eq!(MetalaxError::TransferFailed.message(), "Token transfer failed");
    assert_eq!(MetalaxError::NotFound.message(), "No NFT exists for this mint");
}

#[test]
fn counters_have_room_until_u64_is_full() {
    let fresh = MetalaxPlatform { owner: id(1), bump: 0, total_minted: 0, total_fees_collected: 0 };
    assert!(fresh.can_count_mint());
    let last = MetalaxPlatform {
        owner: id(1),
        bump: 0,
        total_minted: u64::MAX - 1,
        total_fees_collected: u64::MAX - 6_000_000,
    };
    assert!(last.can_count_mint());
    let full_count = MetalaxPlatform { total_minted: u64::MAX, ..fresh };
    assert!(!full_count.can_count_mint());
    let full_fees = MetalaxPlatform { total_fees_collected: u64::MAX - 5_999_999, ..fresh };
    assert!(!full_fees.can_count_mint());
}
