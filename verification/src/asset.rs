//! Asset records and the ledger that holds them, one record per mint.

use vstd::prelude::*;
use crate::error::MetalaxError;
use crate::identity::Identity;

verus! {

/// The most bytes a name may have.
pub const MAX_NAME_LEN: usize = 32;

/// The most bytes a symbol may have.
pub const MAX_SYMBOL_LEN: usize = 10;

/// The most bytes a URI may have.
pub const MAX_URI_LEN: usize = 200;

/// The most bytes an image payload may have.
pub const MAX_IMAGE_LEN: usize = 10_000;

/// The highest royalty, in basis points (100%).
pub const MAX_ROYALTY_BASIS_POINTS: u16 = 10_000;

/// The record of one issued asset. Only `owner` ever changes.
#[derive(Clone, Debug, PartialEq, Eq)]
pub struct NftMetadata {
    /// The token identity this record belongs to, and the key it is found by.
    pub mint: Identity,
    pub name: String,
    pub symbol: String,
    pub uri: String,
    /// The image itself, held in the record.
    pub image_data: Vec<u8>,
    /// Who issued the asset.
    pub creator: Identity,
    /// Who holds the asset now.
    pub owner: Identity,
    /// The royalty in basis points; stored, never charged.
    pub royalty_basis_points: u16,
    /// The bump of the address this record is stored under.
    pub bump: u8,
}

/// What a record holds, as mathematical values.
pub ghost struct NftMetadataView {
    pub mint: Identity,
    pub name: Seq<char>,
    pub symbol: Seq<char>,
    pub uri: Seq<char>,
    pub image_data: Seq<u8>,
    pub creator: Identity,
    pub owner: Identity,
    pub royalty_basis_points: u16,
    pub bump: u8,
}

/// The length of `text` in bytes, as UTF-8.
pub open spec fn byte_len(text: Seq<char>) -> nat {
    vstd::utf8::encode_utf8(text).len()
}

/// The first limit that the fields of a record break, in the order name,
/// symbol, URI, image, royalty.
pub open spec fn limit_violation(
    name: Seq<char>,
    symbol: Seq<char>,
    uri: Seq<char>,
    image_data: Seq<u8>,
    royalty_basis_points: u16,
) -> Option<MetalaxError> {
    if byte_len(name) > MAX_NAME_LEN {
        Some(MetalaxError::NameTooLong)
    } else if byte_len(symbol) > MAX_SYMBOL_LEN {
        Some(MetalaxError::SymbolTooLong)
    } else if byte_len(uri) > MAX_URI_LEN {
        Some(MetalaxError::UriTooLong)
    } else if image_data.len() > MAX_IMAGE_LEN {
        Some(MetalaxError::ImageTooLarge)
    } else if royalty_basis_points > MAX_ROYALTY_BASIS_POINTS {
        Some(MetalaxError::InvalidRoyalty)
    } else {
        None
    }
}

fn byte_length(text: &str) -> (n: usize)
    ensures
        n == byte_len(text@),
{
    text.as_bytes().len()
}

/// Holds the fields of a record against their limits and reports the first
/// that is broken.
pub fn check_limits(
    name: &str,
    symbol: &str,
    uri: &str,
    image_data: &[u8],
    royalty_basis_points: u16,
) -> (r: Result<(), MetalaxError>)
    ensures
        match limit_violation(name@, symbol@, uri@, image_data@, royalty_basis_points) {
            Some(e) => r == Err::<(), MetalaxError>(e),
            None => r is Ok,
        },
{
    if byte_length(name) > MAX_NAME_LEN {
        return Err(MetalaxError::NameTooLong);
    }
    if byte_length(symbol) > MAX_SYMBOL_LEN {
        return Err(MetalaxError::SymbolTooLong);
    }
    if byte_length(uri) > MAX_URI_LEN {
        return Err(MetalaxError::UriTooLong);
    }
    if image_data.len() > MAX_IMAGE_LEN {
        return Err(MetalaxError::ImageTooLarge);
    }
    if royalty_basis_points > MAX_ROYALTY_BASIS_POINTS {
        return Err(MetalaxError::InvalidRoyalty);
    }
    Ok(())
}

impl NftMetadataView {
    /// The first limit that this record breaks.
    pub open spec fn violation(self) -> Option<MetalaxError> {
        limit_violation(
            self.name,
            self.symbol,
            self.uri,
            self.image_data,
            self.royalty_basis_points,
        )
    }

    /// Every field is within its limit.
    pub open spec fn valid(self) -> bool {
        self.violation() is None
    }

    /// This record in the hands of `owner`.
    pub open spec fn owned_by(self, owner: Identity) -> NftMetadataView {
        NftMetadataView { owner, ..self }
    }
}

impl View for NftMetadata {
    type V = NftMetadataView;

    open spec fn view(&self) -> NftMetadataView {
        NftMetadataView {
            mint: self.mint,
            name: self.name@,
            symbol: self.symbol@,
            uri: self.uri@,
            image_data: self.image_data@,
            creator: self.creator,
            owner: self.owner,
            royalty_basis_points: self.royalty_basis_points,
            bump: self.bump,
        }
    }
}

/// There are finitely many records, each within its limits and filed under
/// its own mint.
pub open spec fn sound(assets: Map<Identity, NftMetadataView>) -> bool {
    &&& assets.dom().finite()
    &&& forall|mint: Identity| #[trigger]
        assets.dom().contains(mint) ==> assets[mint].valid() && assets[mint].mint == mint
}

/// The asset records, each found by its mint.
pub struct AssetLedger {
    records: Vec<NftMetadata>,
}

impl View for AssetLedger {
    type V = Map<Identity, NftMetadataView>;

    /// The records by mint.
    closed spec fn view(&self) -> Map<Identity, NftMetadataView> {
        Map::new(|mint: Identity| self.holds(mint), |mint: Identity| self.records@[self.slot_of(mint)]@)
    }
}

impl AssetLedger {
    spec fn holds_at(&self, mint: Identity, i: int) -> bool {
        0 <= i < self.records@.len() && self.records@[i].mint == mint
    }

    spec fn holds(&self, mint: Identity) -> bool {
        exists|i: int| self.holds_at(mint, i)
    }

    spec fn slot_of(&self, mint: Identity) -> int {
        choose|i: int| self.holds_at(mint, i)
    }

    /// No mint has two records, and every record is within its limits.
    #[verifier::type_invariant]
    spec fn wf(&self) -> bool {
        &&& forall|i: int, j: int|
            0 <= i < j < self.records@.len() ==> self.records@[i].mint != self.records@[j].mint
        &&& forall|i: int| 0 <= i < self.records@.len() ==> (#[trigger] self.records@[i])@.valid()
    }

    spec fn mints_before(&self, k: int) -> Set<Identity> {
        Set::new(|mint: Identity| exists|i: int| 0 <= i < k && self.holds_at(mint, i))
    }

    proof fn lemma_mints_before(&self, k: int)
        requires
            self.wf(),
            0 <= k <= self.records@.len(),
        ensures
            self.mints_before(k).finite(),
            self.mints_before(k).len() == k,
        decreases k,
    {
        if k == 0 {
            assert(self.mints_before(0) =~= Set::<Identity>::empty());
        } else {
            self.lemma_mints_before(k - 1);
            let last = self.records@[k - 1].mint;
            assert(self.holds_at(last, k - 1));
            assert(!self.mints_before(k - 1).contains(last));
            assert forall|mint: Identity|
                self.mints_before(k).contains(mint) <==> self.mints_before(k - 1).insert(
                    last,
                ).contains(mint) by {
                if self.mints_before(k).contains(mint) {
                    let i = choose|i: int| 0 <= i < k && self.holds_at(mint, i);
                    if i < k - 1 {
                        assert(self.mints_before(k - 1).contains(mint));
                    }
                }
            }
            assert(self.mints_before(k) =~= self.mints_before(k - 1).insert(last));
        }
    }

    proof fn lemma_len(&self)
        requires
            self.wf(),
        ensures
            self@.dom().finite(),
            self@.dom().len() == self.records@.len(),
    {
        let n = self.records@.len() as int;
        self.lemma_mints_before(n);
        assert(self@.dom() =~= self.mints_before(n));
    }

    proof fn lemma_sound(&self)
        requires
            self.wf(),
        ensures
            sound(self@),
    {
        self.lemma_len();
        assert forall|mint: Identity| #[trigger] self@.dom().contains(mint) implies self@[mint].valid()
            && self@[mint].mint == mint by {
            let i = self.slot_of(mint);
            assert(self.holds_at(mint, i));
        }
    }


    proof fn lemma_slot(&self, i: int)
        requires
            self.wf(),
            0 <= i < self.records@.len(),
        ensures
            self@.dom().contains(self.records@[i].mint),
            self@[self.records@[i].mint] == self.records@[i]@,
    {
        let mint = self.records@[i].mint;
        assert(self.holds_at(mint, i));
        let j = self.slot_of(mint);
        assert(self.holds_at(mint, j));
        assert(i == j);
    }

    /// A ledger without records.
    pub fn new() -> (ledger: AssetLedger)
        ensures
            ledger@ == Map::<Identity, NftMetadataView>::empty(),
    {
        let ledger = AssetLedger { records: Vec::new() };
        assert forall|mint: Identity| !ledger.holds(mint) by {
            assert forall|i: int| !ledger.holds_at(mint, i) by {}
        }
        assert(ledger@ =~= Map::<Identity, NftMetadataView>::empty());
        ledger
    }

    /// How many records the ledger holds.
    pub fn len(&self) -> (n: usize)
        ensures
            sound(self@),
            n == self@.dom().len(),
    {
        proof {
            use_type_invariant(&*self);
            self.lemma_len();
            self.lemma_sound();
        }
        self.records.len()
    }

    fn position(&self, mint: &Identity) -> (at: Option<usize>)
        ensures
            match at {
                Some(i) => self.holds_at(*mint, i as int) && self@.dom().contains(*mint) && self@[*mint]
                    == self.records@[i as int]@,
                None => !self@.dom().contains(*mint),
            },
            sound(self@),
    {
        proof {
            use_type_invariant(&*self);
            self.lemma_sound();
        }
        let mut i: usize = 0;
        while i < self.records.len()
            invariant
                self.wf(),
                sound(self@),
                i <= self.records@.len(),
                forall|k: int| 0 <= k < i ==> !self.holds_at(*mint, k),
            decreases self.records@.len() - i,
        {
            if self.records[i].mint.same(mint) {
                proof {
                    self.lemma_slot(i as int);
                }
                return Some(i);
            }
            i += 1;
        }
        assert(!self.holds(*mint));
        None
    }

    /// Whether the ledger holds a record for `mint`.
    pub fn contains(&self, mint: &Identity) -> (b: bool)
        ensures
            b == self@.dom().contains(*mint),
            sound(self@),
    {
        self.position(mint).is_some()
    }

    /// The record for `mint`, if the ledger holds one.
    pub fn get(&self, mint: &Identity) -> (found: Option<&NftMetadata>)
        ensures
            found is Some <==> self@.dom().contains(*mint),
            found is Some ==> found->Some_0@ == self@[*mint],
            sound(self@),
    {
        match self.position(mint) {
            Some(i) => Some(&self.records[i]),
            None => None,
        }
    }

    /// Files a record as it stands, whoever owns it by now. A record that
    /// breaks a limit is refused with the error of that limit, and one whose
    /// mint has a record already with `DuplicateAsset`.
    pub fn insert(&mut self, record: NftMetadata) -> (r: Result<(), MetalaxError>)
        ensures
            match record@.violation() {
                Some(e) => r == Err::<(), MetalaxError>(e),
                None => if old(self)@.dom().contains(record.mint) {
                    r == Err::<(), MetalaxError>(MetalaxError::DuplicateAsset)
                } else {
                    r is Ok
                },
            },
            r is Ok ==> final(self)@ == old(self)@.insert(record.mint, record@),
            r is Err ==> final(self)@ == old(self)@,
            sound(final(self)@),
    {
        proof {
            use_type_invariant(&*self);
            self.lemma_sound();
        }
        match check_limits(
            record.name.as_str(),
            record.symbol.as_str(),
            record.uri.as_str(),
            record.image_data.as_slice(),
            record.royalty_basis_points,
        ) {
            Err(e) => {
                return Err(e);
            },
            Ok(_) => {},
        }
        if self.contains(&record.mint) {
            return Err(MetalaxError::DuplicateAsset);
        }
        self.create(record);
        Ok(())
    }

    /// Adds the valid record of a mint that has none yet.
    pub(crate) fn create(&mut self, record: NftMetadata)
        requires
            record@.valid(),
            !old(self)@.dom().contains(record.mint),
        ensures
            final(self)@ == old(self)@.insert(record.mint, record@),
            sound(final(self)@),
    {
        proof {
            use_type_invariant(&*self);
        }
        let ghost added = record@;
        assert forall|i: int| 0 <= i < self.records@.len() implies self.records@[i].mint
            != record.mint by {
            self.lemma_slot(i);
        }
        let mut records = Vec::new();
        std::mem::swap(&mut records, &mut self.records);
        records.push(record);
        self.records = records;
        assert(self.wf());
        assert forall|mint: Identity| self.holds(mint) <==> (mint == added.mint || old(self).holds(
            mint,
        )) by {
            if self.holds(mint) {
                let i = self.slot_of(mint);
                assert(self.holds_at(mint, i));
                if i < old(self).records@.len() {
                    assert(old(self).holds_at(mint, i));
                }
            }
            if mint == added.mint {
                assert(self.holds_at(mint, self.records@.len() - 1));
            }
            if old(self).holds(mint) {
                let i = old(self).slot_of(mint);
                assert(old(self).holds_at(mint, i));
                assert(self.holds_at(mint, i));
            }
        }
        assert forall|mint: Identity| self.holds(mint) implies #[trigger] self@[mint] == old(
            self,
        )@.insert(added.mint, added)[mint] by {
            let i = self.slot_of(mint);
            assert(self.holds_at(mint, i));
            self.lemma_slot(i);
            if i < old(self).records@.len() {
                old(self).lemma_slot(i);
            }
        }
        assert(self@ =~= old(self)@.insert(added.mint, added));
        proof {
            self.lemma_sound();
        }
    }

    /// Hands the asset of `mint` to `new_owner`.
    pub(crate) fn set_owner(&mut self, mint: &Identity, new_owner: Identity)
        requires
            old(self)@.dom().contains(*mint),
        ensures
            final(self)@ == old(self)@.insert(*mint, old(self)@[*mint].owned_by(new_owner)),
            sound(final(self)@),
    {
        proof {
            use_type_invariant(&*self);
        }
        let at = self.position(mint);
        let i: usize = at.unwrap();
        let mut records = Vec::new();
        std::mem::swap(&mut records, &mut self.records);
        records[i].owner = new_owner;
        self.records = records;
        assert(self.records@.len() == old(self).records@.len());
        assert forall|k: int| 0 <= k < self.records@.len() implies self.records@[k].mint == old(
            self,
        ).records@[k].mint by {}
        assert(self.wf());
        assert forall|m: Identity| self.holds(m) <==> old(self).holds(m) by {
            if self.holds(m) {
                let k = self.slot_of(m);
                assert(self.holds_at(m, k));
                assert(old(self).holds_at(m, k));
            }
            if old(self).holds(m) {
                let k = old(self).slot_of(m);
                assert(old(self).holds_at(m, k));
                assert(self.holds_at(m, k));
            }
        }
        assert forall|m: Identity| self.holds(m) implies #[trigger] self@[m] == old(self)@.insert(
            *mint,
            old(self)@[*mint].owned_by(new_owner),
        )[m] by {
            let k = self.slot_of(m);
            assert(self.holds_at(m, k));
            self.lemma_slot(k);
            old(self).lemma_slot(k);
        }
        assert(self@ =~= old(self)@.insert(*mint, old(self)@[*mint].owned_by(new_owner)));
        proof {
            self.lemma_sound();
        }
    }
}

} // verus!
