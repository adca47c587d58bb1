use metalax_nft::{check_limits, AssetLedger, Identity, MetalaxError, NftMetadata};

fn id(n: u8) -> Identity {
    Identity::new([n; 32])
}

fn record(mint: u8, owner: u8) -> NftMetadata {
    NftMetadata {
        mint: id(mint),
        name: String::from("Crab"),
        symbol: String::from("CRB"),
        uri: String::from("https://example.org/crab.json"),
        image_data: vec![1, 2, 3],
        creator: id(9),
        owner: id(owner),
        royalty_basis_points: 250,
        bump: 255,
    }
}

#[test]
fn new_ledger_is_empty() {
    let ledger = AssetLedger::new();
    assert_eq!(ledger.len(), 0);
    assert!(!ledger.contains(&id(1)));
    assert_eq!(ledger.get(&id(1)), None);
}

#[test]
fn insert_files_the_record_under_its_mint() {
    let mut ledger = AssetLedger::new();
    assert_eq!(ledger.insert(record(1, 4)), Ok(()));
    assert_eq!(ledger.insert(record(2, 5)), Ok(()));
    assert_eq!(ledger.len(), 2);
    assert!(ledger.contains(&id(1)));
    assert!(ledger.contains(&id(2)));
    assert!(!ledger.contains(&id(3)));
    assert_eq!(ledger.get(&id(1)), Some(&record(1, 4)));
    assert_eq!(ledger.get(&id(2)), Some(&record(2, 5)));
    assert_eq!(ledger.get(&id(3)), None);
}

#[test]
fn insert_refuses_a_second_record_for_a_mint() {
    let mut ledger = AssetLedger::new();
    assert_eq!(ledger.insert(record(1, 4)), Ok(()));
    assert_eq!(ledger.insert(record(1, 5)), Err(MetalaxError::DuplicateAsset));
    assert_eq!(ledger.len(), 1);
    assert_eq!(ledger.get(&id(1)), Some(&record(1, 4)));
}

#[test]
fn insert_refuses_a_record_over_a_limit() {
    let mut ledger = AssetLedger::new();
    let mut long_name = record(1, 4);
    long_name.name = "n".repeat(33);
    assert_eq!(ledger.insert(long_name), Err(MetalaxError::NameTooLong));
    let mut high_royalty = record(1, 4);
    high_royalty.royalty_basis_points = 10_001;
    assert_eq!(ledger.insert(high_royalty), Err(MetalaxError::InvalidRoyalty));
    assert_eq!(ledger.len(), 0);
    // A limit is reported before a duplicate.
    assert_eq!(ledger.insert(record(1, 4)), Ok(()));
    let mut big = record(1, 4);
    big.image_data = vec![0; 10_001];
    assert_eq!(ledger.insert(big), Err(MetalaxError::ImageTooLarge));
}

#[test]
fn limits_at_their_boundaries() {
    let name = "n".repeat(32);
    let symbol = "s".repeat(10);
    let uri = "u".repeat(200);
    let image = vec![7u8; 10_000];
    assert_eq!(check_limits(&name, &symbol, &uri, &image, 10_000), Ok(()));
    assert_eq!(check_limits("", "", "", &[], 0), Ok(()));
    assert_eq!(
        check_limits(&"n".repeat(33), &symbol, &uri, &image, 10_000),
        Err(MetalaxError::NameTooLong)
    );
    assert_eq!(
        check_limits(&name, &"s".repeat(11), &uri, &image, 10_000),
        Err(MetalaxError::SymbolTooLong)
    );
    assert_eq!(
        check_limits(&name, &symbol, &"u".repeat(201), &image, 10_000),
        Err(MetalaxError::UriTooLong)
    );
    assert_eq!(
        check_limits(&name, &symbol, &uri, &vec![7u8; 10_001], 10_000),
        Err(MetalaxError::ImageTooLarge)
    );
    assert_eq!(
        check_limits(&name, &symbol, &uri, &image, 10_001),
        Err(MetalaxError::InvalidRoyalty)
    );
    assert_eq!(
        check_limits(&name, &symbol, &uri, &image, u16::MAX),
        Err(MetalaxError::InvalidRoyalty)
    );
}

#[test]
fn first_broken_limit_is_reported() {
    let long_name = "n".repeat(40);
    let long_symbol = "s".repeat(40);
    let long_uri = "u".repeat(400);
    let big = vec![0u8; 20_000];
    assert_eq!(
        check_limits(&long_name, &long_symbol, &long_uri, &big, 20_000),
        Err(MetalaxError::NameTooLong)
    );
    assert_eq!(
        check_limits("ok", &long_symbol, &long_uri, &big, 20_000),
        Err(MetalaxError::SymbolTooLong)
    );
    assert_eq!(
        check_limits("ok", "ok", &long_uri, &big, 20_000),
        Err(MetalaxError::UriTooLong)
    );
    assert_eq!(check_limits("ok", "ok", "ok", &big, 20_000), Err(MetalaxError::ImageTooLarge));
    assert_eq!(check_limits("ok", "ok", "ok", &[], 20_000), Err(MetalaxError::InvalidRoyalty));
}

#[test]
fn text_limits_count_bytes() {
    // Sixteen two-byte letters fill the name; one more is too many.
    let sixteen = "\u{e9}".repeat(16);
    let seventeen = "\u{e9}".repeat(17);
    assert_eq!(sixteen.len(), 32);
    assert_eq!(check_limits(&sixteen, "", "", &[], 0), Ok(()));
    assert_eq!(check_limits(&seventeen, "", "", &[], 0), Err(MetalaxError::NameTooLong));
    assert_eq!(check_limits("", &"\u{e9}".repeat(5), "", &[], 0), Ok(()));
    assert_eq!(
        check_limits("", &"\u{e9}".repeat(6), "", &[], 0),
        Err(MetalaxError::SymbolTooLong)
    );
}
