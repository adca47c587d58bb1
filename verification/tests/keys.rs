use metalax_nft::{
    asset_key, derive_key, platform_key, Identity, ASSET_NAMESPACE, PLATFORM_NAMESPACE,
};

#[test]
fn derive_key_appends_discriminator_to_namespace() {
    assert_eq!(derive_key(b"asset:", b"abc"), b"asset:abc".to_vec());
    assert_eq!(derive_key(b"platform", b""), b"platform".to_vec());
    assert_eq!(derive_key(b"", b"abc"), b"abc".to_vec());
    assert_eq!(derive_key(b"", b""), Vec::<u8>::new());
    assert_eq!(derive_key(&[0, 255], &[255, 0, 7]), vec![0, 255, 255, 0, 7]);
}

#[test]
fn derive_key_is_reproducible() {
    assert_eq!(derive_key(b"asset:", b"abc"), derive_key(b"asset:", b"abc"));
    assert_ne!(derive_key(b"asset:", b"abc"), derive_key(b"asset:", b"abd"));
}

#[test]
fn platform_key_is_its_namespace() {
    assert_eq!(PLATFORM_NAMESPACE, "metalax-platform");
    assert_eq!(platform_key(), b"metalax-platform".to_vec());
    assert_eq!(platform_key().len(), 16);
}

#[test]
fn asset_key_is_namespace_and_mint() {
    assert_eq!(ASSET_NAMESPACE, "nft-metadata");
    let mut bytes = [0u8; 32];
    bytes[0] = 1;
    bytes[31] = 2;
    let key = asset_key(&Identity::new(bytes));
    assert_eq!(key.len(), 44);
    assert_eq!(&key[..12], b"nft-metadata");
    assert_eq!(&key[12..], &bytes);
}

#[test]
fn asset_keys_differ_by_mint() {
    let a = asset_key(&Identity::new([1; 32]));
    let b = asset_key(&Identity::new([2; 32]));
    assert_ne!(a, b);
    assert_ne!(a, platform_key());
    assert_eq!(a, asset_key(&Identity::new([1; 32])));
}
