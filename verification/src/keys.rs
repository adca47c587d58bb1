//! Where records are stored: every record has a key derived from a
//! namespace and a discriminator, the same on every call.

use vstd::prelude::*;
use crate::identity::Identity;

verus! {

/// The namespace of the platform record, which has no discriminator.
pub const PLATFORM_NAMESPACE: &'static str = "metalax-platform";

/// The namespace of the asset records, whose discriminator is the mint.
pub const ASSET_NAMESPACE: &'static str = "nft-metadata";

/// The key of the record that `discriminator` picks within `namespace`.
pub open spec fn derived_key(namespace: Seq<u8>, discriminator: Seq<u8>) -> Seq<u8> {
    namespace + discriminator
}

/// The key of the platform record.
pub open spec fn platform_key_of() -> Seq<u8> {
    derived_key(vstd::utf8::encode_utf8(PLATFORM_NAMESPACE@), Seq::empty())
}

/// The key of the record of `mint`.
pub open spec fn asset_key_of(mint: Identity) -> Seq<u8> {
    derived_key(vstd::utf8::encode_utf8(ASSET_NAMESPACE@), mint.bytes@)
}

/// Derives the key of a record: the namespace followed by the discriminator.
pub fn derive_key(namespace: &[u8], discriminator: &[u8]) -> (key: Vec<u8>)
    ensures
        key@ == derived_key(namespace@, discriminator@),
{
    let mut key: Vec<u8> = Vec::new();
    let mut i: usize = 0;
    while i < namespace.len()
        invariant
            i <= namespace@.len(),
            key@ == namespace@.subrange(0, i as int),
        decreases namespace@.len() - i,
    {
        key.push(namespace[i]);
        assert(key@ =~= namespace@.subrange(0, i + 1));
        i += 1;
    }
    assert(key@ =~= namespace@);
    let mut j: usize = 0;
    while j < discriminator.len()
        invariant
            j <= discriminator@.len(),
            key@ == namespace@ + discriminator@.subrange(0, j as int),
        decreases discriminator@.len() - j,
    {
        key.push(discriminator[j]);
        assert(key@ =~= namespace@ + discriminator@.subrange(0, j + 1));
        j += 1;
    }
    assert(key@ =~= namespace@ + discriminator@);
    key
}

/// The key of the platform record.
pub fn platform_key() -> (key: Vec<u8>)
    ensures
        key@ == platform_key_of(),
{
    let none: [u8; 0] = [];
    let key = derive_key(PLATFORM_NAMESPACE.as_bytes(), none.as_slice());
    assert(none@ =~= Seq::<u8>::empty());
    key
}

/// The key of the record of `mint`.
pub fn asset_key(mint: &Identity) -> (key: Vec<u8>)
    ensures
        key@ == asset_key_of(*mint),
{
    derive_key(ASSET_NAMESPACE.as_bytes(), mint.bytes.as_slice())
}

/// Within a namespace, two discriminators never share a key.
pub proof fn law_keys_tell_discriminators_apart(namespace: Seq<u8>, a: Seq<u8>, b: Seq<u8>)
    requires
        derived_key(namespace, a) == derived_key(namespace, b),
    ensures
        a == b,
{
    let n = namespace.len() as int;
    assert(a =~= derived_key(namespace, a).subrange(n, n + a.len()));
    assert(b =~= derived_key(namespace, b).subrange(n, n + b.len()));
    assert(a.len() == b.len()) by {
        assert(derived_key(namespace, a).len() == n + a.len());
        assert(derived_key(namespace, b).len() == n + b.len());
    }
}

/// Two mints never share the key of their records.
pub proof fn law_asset_keys_tell_mints_apart(a: Identity, b: Identity)
    requires
        asset_key_of(a) == asset_key_of(b),
    ensures
        a == b,
{
    law_keys_tell_discriminators_apart(
        vstd::utf8::encode_utf8(ASSET_NAMESPACE@),
        a.bytes@,
        b.bytes@,
    );
    assert(a.bytes =~= b.bytes);
}

/// The platform record never shares its key with an asset's record.
pub proof fn law_platform_key_is_no_asset_key(mint: Identity)
    ensures
        platform_key_of() != asset_key_of(mint),
{
    reveal_strlit("metalax-platform");
    reveal_strlit("nft-metadata");
    vstd::string::is_ascii_spec_bytes(PLATFORM_NAMESPACE);
    vstd::string::is_ascii_spec_bytes(ASSET_NAMESPACE);
    assert(platform_key_of().len() == 16);
    assert(asset_key_of(mint).len() == 44);
}

} // verus!
