//! The metadata record: what a token is called and who made it.
//!
//! The fields follow one another without gaps, so the place of each depends
//! on the lengths of those before it:
//!
//! | bytes          | field                                               |
//! |----------------|-----------------------------------------------------|
//! | 1              | tag, 4                                              |
//! | 32             | update authority                                    |
//! | 32             | mint                                                |
//! | 4 + n          | name: length n, little-endian, then n bytes of UTF-8 |
//! | 4 + n          | symbol, likewise                                    |
//! | 4 + n          | URI, likewise                                       |
//! | 2              | seller fee in basis points, little-endian           |
//! | 1, or 5 + 34 k | creators: 0 for none; or 1, a count k, k creators   |
//! | 1              | primary sale happened, 0 or 1                       |
//! | 1              | is mutable, 0 or 1                                  |
//! | 1 or 2         | edition nonce: 0 for none; or 1 and the nonce       |
//! | 1 or 2         | token standard: 0 for none; or 1 and 0, 1, 2 or 3   |
//! | 1 or 34        | collection: 0 for none; or 1, a flag, an identifier |
//! | 1 or 18        | uses: 0 for none; or 1, a method, two numbers       |
//!
//! A creator is an identifier, a verified flag (0 or 1) and a share. A
//! record has at least 83 and at most 679 bytes; bytes behind the last
//! field are padding and are not read.
//!
//! The last three fields came into the layout after the others. A record
//! written before them holds padding in their place, and what is left
//! there of an earlier, longer record is not always zeros. So the three are
//! taken together or not at all: where one of them is malformed or runs
//! past the end of the buffer, the record decodes and all three are absent.
//! A malformed field before them is an error.

use crate::error::{decoded_view, DecodeError, Field};
use crate::identifier::Identifier;
use crate::wire::{le_u16, le_u32, le_u64, read_u16, read_u32, read_u64};
use vstd::prelude::*;
use vstd::slice::{slice_subrange, slice_to_vec};
use vstd::utf8::{decode_utf8, valid_utf8};

verus! {

/// The first byte of a metadata record.
pub const METADATA_TAG: u8 = 4;

/// Least length of a metadata record: every text empty, no creators, no
/// nonce.
pub const MIN_METADATA_LEN: usize = 83;

/// Greatest length of a metadata record.
pub const MAX_METADATA_LEN: usize = 679;

/// Length of one creator in the list.
pub const CREATOR_LEN: usize = 34;

/// One of the creators of a token.
#[derive(Clone, Copy, Debug, PartialEq, Eq)]
pub struct Creator {
    /// The creator's address.
    pub address: Identifier,
    /// Whether the creator has signed the record.
    pub verified: bool,
    /// The creator's share of the fees, in percent.
    pub share: u8,
}

/// A creator with its address as a byte sequence.
pub struct CreatorView {
    pub address: Seq<u8>,
    pub verified: bool,
    pub share: u8,
}

impl View for Creator {
    type V = CreatorView;

    open spec fn view(&self) -> CreatorView {
        CreatorView { address: self.address@, verified: self.verified, share: self.share }
    }
}

/// What sort of token a record describes.
#[derive(Clone, Copy, Debug, PartialEq, Eq, Structural)]
pub enum TokenStandard {
    /// A token of which there is one, with a master edition.
    NonFungible,
    /// A token of which there are several, with attributes.
    FungibleAsset,
    /// A token of which there are several.
    Fungible,
    /// A print of a token with a master edition.
    NonFungibleEdition,
}

/// The collection that a token belongs to.
#[derive(Clone, Copy, Debug, PartialEq, Eq)]
pub struct Collection {
    /// Whether the collection has confirmed the membership.
    pub verified: bool,
    /// The mint of the collection.
    pub key: Identifier,
}

/// A collection with its identifier as a byte sequence.
pub struct CollectionView {
    pub verified: bool,
    pub key: Seq<u8>,
}

impl View for Collection {
    type V = CollectionView;

    open spec fn view(&self) -> CollectionView {
        CollectionView { verified: self.verified, key: self.key@ }
    }
}

/// How a token is used up.
#[derive(Clone, Copy, Debug, PartialEq, Eq, Structural)]
pub enum UseMethod {
    /// The token is burned with its last use.
    Burn,
    /// The token can be used several times.
    Multiple,
    /// The token can be used once.
    Single,
}

/// How often a token can be used.
#[derive(Clone, Copy, Debug, PartialEq, Eq, Structural)]
pub struct Uses {
    /// How the token is used up.
    pub use_method: UseMethod,
    /// Uses that are left.
    pub remaining: u64,
    /// Uses that there were at the start.
    pub total: u64,
}

/// A decoded metadata record.
#[derive(Clone, Debug, PartialEq, Eq)]
pub struct MetadataRecord {
    /// Who may change the record.
    pub update_authority: Identifier,
    /// The mint that the record describes.
    pub mint: Identifier,
    /// The name of the token, with any padding it was stored with.
    pub name: String,
    /// The symbol of the token, with any padding it was stored with.
    pub symbol: String,
    /// Where the description of the token lies, with any padding.
    pub uri: String,
    /// The fee on later sales, in hundredths of a percent.
    pub seller_fee_basis_points: u16,
    /// The creators, where the record lists them.
    pub creators: Option<Vec<Creator>>,
    /// Whether the first sale has taken place.
    pub primary_sale_happened: bool,
    /// Whether the record may still be changed.
    pub is_mutable: bool,
    /// The bump of the master-edition address, where it is recorded.
    pub edition_nonce: Option<u8>,
    /// The sort of token, where it is recorded.
    pub token_standard: Option<TokenStandard>,
    /// The collection that the token belongs to, if any.
    pub collection: Option<Collection>,
    /// How often the token can be used, where that is limited.
    pub uses: Option<Uses>,
}

/// A metadata record with identifiers as bytes and texts as characters.
pub struct MetadataView {
    pub update_authority: Seq<u8>,
    pub mint: Seq<u8>,
    pub name: Seq<char>,
    pub symbol: Seq<char>,
    pub uri: Seq<char>,
    pub seller_fee_basis_points: u16,
    pub creators: Option<Seq<CreatorView>>,
    pub primary_sale_happened: bool,
    pub is_mutable: bool,
    pub edition_nonce: Option<u8>,
    pub token_standard: Option<TokenStandard>,
    pub collection: Option<CollectionView>,
    pub uses: Option<Uses>,
}

/// The three fields that came into the layout last.
pub struct LaterFields {
    pub token_standard: Option<TokenStandard>,
    pub collection: Option<CollectionView>,
    pub uses: Option<Uses>,
}

/// An optional collection by its view.
pub open spec fn collection_view(collection: Option<Collection>) -> Option<CollectionView> {
    match collection {
        Some(c) => Some(c@),
        None => None,
    }
}

/// An optional list of creators, each by its view.
pub open spec fn creators_view(creators: Option<Vec<Creator>>) -> Option<Seq<CreatorView>> {
    match creators {
        Some(list) => Some(Seq::new(list@.len(), |i: int| list@[i]@)),
        None => None,
    }
}

impl View for MetadataRecord {
    type V = MetadataView;

    open spec fn view(&self) -> MetadataView {
        MetadataView {
            update_authority: self.update_authority@,
            mint: self.mint@,
            name: self.name@,
            symbol: self.symbol@,
            uri: self.uri@,
            seller_fee_basis_points: self.seller_fee_basis_points,
            creators: creators_view(self.creators),
            primary_sale_happened: self.primary_sale_happened,
            is_mutable: self.is_mutable,
            edition_nonce: self.edition_nonce,
            token_standard: self.token_standard,
            collection: collection_view(self.collection),
            uses: self.uses,
        }
    }
}

/// The bytes behind the length at `at`, and the place behind them; `None`
/// where the length or the bytes it announces run past the end.
pub open spec fn run_at(b: Seq<u8>, at: int) -> Option<(Seq<u8>, int)> {
    if at + 4 > b.len() {
        None
    } else if at + 4 + le_u32(b, at) > b.len() {
        None
    } else {
        Some((b.subrange(at + 4, at + 4 + le_u32(b, at)), at + 4 + le_u32(b, at)))
    }
}

/// The text behind the length at `at`, and the place behind it; `None`
/// where the bytes run past the end or are not UTF-8.
pub open spec fn text_at(b: Seq<u8>, at: int) -> Option<(Seq<char>, int)> {
    match run_at(b, at) {
        Some((bytes, next)) => if valid_utf8(bytes) {
            Some((decode_utf8(bytes), next))
        } else {
            None
        },
        None => None,
    }
}

/// The flag at `at`; `None` where `at` is past the end or the byte is
/// neither 0 nor 1.
pub open spec fn flag_at(b: Seq<u8>, at: int) -> Option<bool> {
    if at >= b.len() {
        None
    } else if b[at] == 0 {
        Some(false)
    } else if b[at] == 1 {
        Some(true)
    } else {
        None
    }
}

/// The creator whose 34 bytes start at `at`.
pub open spec fn creator_at(b: Seq<u8>, at: int) -> CreatorView {
    CreatorView { address: b.subrange(at, at + 32), verified: b[at + 32] == 1, share: b[at + 33] }
}

/// Creator `i` of a list whose first creator is at `start`.
pub open spec fn nth_creator(b: Seq<u8>, start: int, i: int) -> CreatorView {
    creator_at(b, start + CREATOR_LEN * i)
}

/// Whether creator `i` of a list whose first creator is at `start` has a
/// verified flag of 0 or 1.
pub open spec fn creator_flag_ok(b: Seq<u8>, start: int, i: int) -> bool {
    b[start + CREATOR_LEN * i + 32] <= 1
}

/// The optional list of creators at `at`, and the place behind it; `None`
/// where the marker is neither 0 nor 1, the count or the creators run past
/// the end, or a creator's verified flag is neither 0 nor 1.
pub open spec fn creator_list_at(b: Seq<u8>, at: int) -> Option<(Option<Seq<CreatorView>>, int)> {
    match flag_at(b, at) {
        None => None,
        Some(false) => Some((None, at + 1)),
        Some(true) => {
            let start = at + 5;
            if start > b.len() {
                None
            } else {
                let count = le_u32(b, at + 1) as int;
                if start + CREATOR_LEN * count > b.len() {
                    None
                } else if !(forall|i: int| 0 <= i < count ==> #[trigger] creator_flag_ok(b, start, i)) {
                    None
                } else {
                    Some(
                        (
                            Some(Seq::new(count as nat, |i: int| nth_creator(b, start, i))),
                            start + CREATOR_LEN * count,
                        ),
                    )
                }
            }
        },
    }
}

/// The optional edition nonce at `at`, and the place behind it; `None`
/// where the marker is neither 0 nor 1, or the nonce it announces is past
/// the end.
pub open spec fn nonce_at(b: Seq<u8>, at: int) -> Option<(Option<u8>, int)> {
    match flag_at(b, at) {
        None => None,
        Some(false) => Some((None, at + 1)),
        Some(true) => if at + 1 >= b.len() {
            None
        } else {
            Some((Some(b[at + 1]), at + 2))
        },
    }
}

/// The token standard that a byte stands for, if it stands for one.
pub open spec fn token_standard_of(byte: u8) -> Option<TokenStandard> {
    if byte == 0 {
        Some(TokenStandard::NonFungible)
    } else if byte == 1 {
        Some(TokenStandard::FungibleAsset)
    } else if byte == 2 {
        Some(TokenStandard::Fungible)
    } else if byte == 3 {
        Some(TokenStandard::NonFungibleEdition)
    } else {
        None
    }
}

/// The use method that a byte stands for, if it stands for one.
pub open spec fn use_method_of(byte: u8) -> Option<UseMethod> {
    if byte == 0 {
        Some(UseMethod::Burn)
    } else if byte == 1 {
        Some(UseMethod::Multiple)
    } else if byte == 2 {
        Some(UseMethod::Single)
    } else {
        None
    }
}

/// The optional token standard at `at`, and the place behind it; `None`
/// where it is malformed or runs past the end.
pub open spec fn token_standard_at(b: Seq<u8>, at: int) -> Option<(Option<TokenStandard>, int)> {
    match flag_at(b, at) {
        None => None,
        Some(false) => Some((None, at + 1)),
        Some(true) => if at + 2 > b.len() {
            None
        } else {
            match token_standard_of(b[at + 1]) {
                Some(standard) => Some((Some(standard), at + 2)),
                None => None,
            }
        },
    }
}

/// The optional collection at `at`, and the place behind it; `None` where
/// it is malformed or runs past the end.
pub open spec fn collection_at(b: Seq<u8>, at: int) -> Option<(Option<CollectionView>, int)> {
    match flag_at(b, at) {
        None => None,
        Some(false) => Some((None, at + 1)),
        Some(true) => if at + 34 > b.len() {
            None
        } else {
            match flag_at(b, at + 1) {
                Some(verified) => Some(
                    (Some(CollectionView { verified, key: b.subrange(at + 2, at + 34) }), at + 34),
                ),
                None => None,
            }
        },
    }
}

/// The optional uses at `at`, and the place behind them; `None` where they
/// are malformed or run past the end.
pub open spec fn uses_at(b: Seq<u8>, at: int) -> Option<(Option<Uses>, int)> {
    match flag_at(b, at) {
        None => None,
        Some(false) => Some((None, at + 1)),
        Some(true) => if at + 18 > b.len() {
            None
        } else {
            match use_method_of(b[at + 1]) {
                Some(use_method) => Some(
                    (
                        Some(
                            Uses {
                                use_method,
                                remaining: le_u64(b, at + 2),
                                total: le_u64(b, at + 10),
                            },
                        ),
                        at + 18,
                    ),
                ),
                None => None,
            }
        },
    }
}

/// The three later fields at `at`; `None` where one of them is malformed or
/// runs past the end.
pub open spec fn later_fields_at(b: Seq<u8>, at: int) -> Option<LaterFields> {
    match token_standard_at(b, at) {
        None => None,
        Some((token_standard, collection_at_)) => match collection_at(b, collection_at_) {
            None => None,
            Some((collection, uses_at_)) => match uses_at(b, uses_at_) {
                None => None,
                Some((uses, _)) => Some(LaterFields { token_standard, collection, uses }),
            },
        },
    }
}

/// The error for a malformed field.
pub open spec fn malformed(detail: Field) -> Result<(MetadataView, int), DecodeError> {
    Err(DecodeError::MalformedField { detail })
}

/// The fields up to the edition nonce of a buffer whose length and tag are
/// those of a metadata record: the record with the later fields absent and
/// the place behind the nonce, or the first field that is malformed.
pub open spec fn early_fields(b: Seq<u8>) -> Result<(MetadataView, int), DecodeError> {
    match text_at(b, 65) {
        None => malformed(Field::Name),
        Some((name, symbol_at)) => match text_at(b, symbol_at) {
            None => malformed(Field::Symbol),
            Some((symbol, uri_at)) => match text_at(b, uri_at) {
                None => malformed(Field::Uri),
                Some((uri, fee_at)) => if fee_at + 2 > b.len() {
                    malformed(Field::SellerFeeBasisPoints)
                } else {
                    match creator_list_at(b, fee_at + 2) {
                        None => malformed(Field::Creators),
                        Some((creators, flags_at)) => match flag_at(b, flags_at) {
                            None => malformed(Field::PrimarySaleHappened),
                            Some(primary_sale_happened) => match flag_at(b, flags_at + 1) {
                                None => malformed(Field::IsMutable),
                                Some(is_mutable) => match nonce_at(b, flags_at + 2) {
                                    None => malformed(Field::EditionNonce),
                                    Some((edition_nonce, later_at)) => Ok(
                                        (
                                            MetadataView {
                                                update_authority: b.subrange(1, 33),
                                                mint: b.subrange(33, 65),
                                                name,
                                                symbol,
                                                uri,
                                                seller_fee_basis_points: le_u16(b, fee_at),
                                                creators,
                                                primary_sale_happened,
                                                is_mutable,
                                                edition_nonce,
                                                token_standard: None,
                                                collection: None,
                                                uses: None,
                                            },
                                            later_at,
                                        ),
                                    ),
                                },
                            },
                        },
                    }
                },
            },
        },
    }
}

/// A record with its later fields set: to what was read, or to absent
/// where they were not well-formed.
pub open spec fn with_later_fields(early: MetadataView, later: Option<LaterFields>) -> MetadataView {
    match later {
        Some(fields) => MetadataView {
            token_standard: fields.token_standard,
            collection: fields.collection,
            uses: fields.uses,
            ..early
        },
        None => early,
    }
}

/// The fields of a buffer whose length and tag are those of a metadata
/// record: the record, or the first field before the later ones that is
/// malformed.
pub open spec fn metadata_fields(b: Seq<u8>) -> Result<MetadataView, DecodeError> {
    match early_fields(b) {
        Err(e) => Err(e),
        Ok((early, later_at)) => Ok(with_later_fields(early, later_fields_at(b, later_at))),
    }
}

/// What a buffer holds when read as a metadata record: the record, or the
/// first check that fails.
pub open spec fn metadata_layout(b: Seq<u8>) -> Result<MetadataView, DecodeError> {
    if b.len() < MIN_METADATA_LEN {
        Err(DecodeError::BufferTooShort)
    } else if b.len() > MAX_METADATA_LEN {
        Err(DecodeError::BufferTooLong)
    } else if b[0] != METADATA_TAG {
        Err(DecodeError::DiscriminatorMismatch { expected: METADATA_TAG, found: b[0] })
    } else {
        metadata_fields(b)
    }
}

/// Calls `String::from_utf8`. The contract claims that the call succeeds
/// exactly on the byte sequences that are UTF-8, and that the text it
/// returns is the one they encode.
#[verifier::external_body]
fn text_of(bytes: Vec<u8>) -> (r: Option<String>)
    ensures
        r is Some <==> valid_utf8(bytes@),
        r matches Some(text) ==> text@ == decode_utf8(bytes@),
{
    String::from_utf8(bytes).ok()
}

fn read_run(buf: &[u8], at: usize) -> (r: Option<(Vec<u8>, usize)>)
    requires
        at <= buf.len(),
    ensures
        match r {
            Some((bytes, next)) => run_at(buf@, at as int) == Some((bytes@, next as int)) && next
                <= buf.len(),
            None => run_at(buf@, at as int) is None,
        },
{
    if buf.len() - at < 4 {
        return None;
    }
    let n: usize = read_u32(buf, at) as usize;
    if n > buf.len() - at - 4 {
        return None;
    }
    let bytes = slice_to_vec(slice_subrange(buf, at + 4, at + 4 + n));
    Some((bytes, at + 4 + n))
}

fn read_text(buf: &[u8], at: usize) -> (r: Option<(String, usize)>)
    requires
        at <= buf.len(),
    ensures
        match r {
            Some((text, next)) => text_at(buf@, at as int) == Some((text@, next as int)) && next
                <= buf.len(),
            None => text_at(buf@, at as int) is None,
        },
{
    match read_run(buf, at) {
        Some((bytes, next)) => match text_of(bytes) {
            Some(text) => Some((text, next)),
            None => None,
        },
        None => None,
    }
}

fn read_flag(buf: &[u8], at: usize) -> (r: Option<bool>)
    ensures
        r == flag_at(buf@, at as int),
{
    if at >= buf.len() {
        None
    } else if buf[at] == 0 {
        Some(false)
    } else if buf[at] == 1 {
        Some(true)
    } else {
        None
    }
}

fn read_creators(buf: &[u8], at: usize) -> (r: Option<(Option<Vec<Creator>>, usize)>)
    requires
        at <= buf.len(),
    ensures
        match r {
            Some((creators, next)) => creator_list_at(buf@, at as int) == Some(
                (creators_view(creators), next as int),
            ) && next <= buf.len(),
            None => creator_list_at(buf@, at as int) is None,
        },
{
    match read_flag(buf, at) {
        None => None,
        Some(false) => Some((None, at + 1)),
        Some(true) => {
            if buf.len() - at < 5 {
                return None;
            }
            let start: usize = at + 5;
            let count: usize = read_u32(buf, at + 1) as usize;
            if count > (buf.len() - start) / CREATOR_LEN {
                return None;
            }
            let mut list: Vec<Creator> = Vec::new();
            let mut i: usize = 0;
            while i < count
                invariant
                    i <= count,
                    start == at + 5,
                    count == le_u32(buf@, at + 1),
                    flag_at(buf@, at as int) == Some(true),
                    start + CREATOR_LEN * count <= buf.len(),
                    list@.len() == i,
                    forall|j: int| 0 <= j < i ==> #[trigger] creator_flag_ok(buf@, start as int, j),
                    forall|j: int|
                        0 <= j < i ==> (#[trigger] list@[j])@ == nth_creator(buf@, start as int, j),
                decreases count - i,
            {
                let pos: usize = start + CREATOR_LEN * i;
                let flag: u8 = buf[pos + 32];
                if flag > 1 {
                    assert(!creator_flag_ok(buf@, start as int, i as int));
                    return None;
                }
                let creator = Creator {
                    address: Identifier::read(buf, pos),
                    verified: flag == 1,
                    share: buf[pos + 33],
                };
                list.push(creator);
                i = i + 1;
            }
            assert(creators_view(Some(list)) == Some(
                Seq::new(count as nat, |i: int| nth_creator(buf@, start as int, i)),
            )) by {
                assert(Seq::new(list@.len(), |i: int| list@[i]@) =~= Seq::new(
                    count as nat,
                    |i: int| nth_creator(buf@, start as int, i),
                ));
            }
            Some((Some(list), start + CREATOR_LEN * count))
        },
    }
}

fn read_nonce(buf: &[u8], at: usize) -> (r: Option<(Option<u8>, usize)>)
    requires
        at <= buf.len(),
    ensures
        match r {
            Some((nonce, next)) => nonce_at(buf@, at as int) == Some((nonce, next as int)) && next
                <= buf.len(),
            None => nonce_at(buf@, at as int) is None,
        },
{
    match read_flag(buf, at) {
        None => None,
        Some(false) => Some((None, at + 1)),
        Some(true) => if buf.len() - at < 2 {
            None
        } else {
            Some((Some(buf[at + 1]), at + 2))
        },
    }
}

fn read_token_standard(buf: &[u8], at: usize) -> (r: Option<(Option<TokenStandard>, usize)>)
    requires
        at <= buf.len(),
    ensures
        match r {
            Some((standard, next)) => token_standard_at(buf@, at as int) == Some(
                (standard, next as int),
            ) && next <= buf.len(),
            None => token_standard_at(buf@, at as int) is None,
        },
{
    match read_flag(buf, at) {
        None => None,
        Some(false) => Some((None, at + 1)),
        Some(true) => {
            if buf.len() - at < 2 {
                return None;
            }
            let byte: u8 = buf[at + 1];
            let standard = if byte == 0 {
                TokenStandard::NonFungible
            } else if byte == 1 {
                TokenStandard::FungibleAsset
            } else if byte == 2 {
                TokenStandard::Fungible
            } else if byte == 3 {
                TokenStandard::NonFungibleEdition
            } else {
                return None;
            };
            Some((Some(standard), at + 2))
        },
    }
}

fn read_collection(buf: &[u8], at: usize) -> (r: Option<(Option<Collection>, usize)>)
    requires
        at <= buf.len(),
    ensures
        match r {
            Some((collection, next)) => collection_at(buf@, at as int) == Some(
                (collection_view(collection), next as int),
            ) && next <= buf.len(),
            None => collection_at(buf@, at as int) is None,
        },
{
    match read_flag(buf, at) {
        None => None,
        Some(false) => Some((None, at + 1)),
        Some(true) => {
            if buf.len() - at < 34 {
                return None;
            }
            match read_flag(buf, at + 1) {
                Some(verified) => Some(
                    (Some(Collection { verified, key: Identifier::read(buf, at + 2) }), at + 34),
                ),
                None => None,
            }
        },
    }
}

fn read_uses(buf: &[u8], at: usize) -> (r: Option<(Option<Uses>, usize)>)
    requires
        at <= buf.len(),
    ensures
        match r {
            Some((uses, next)) => uses_at(buf@, at as int) == Some((uses, next as int)) && next
                <= buf.len(),
            None => uses_at(buf@, at as int) is None,
        },
{
    match read_flag(buf, at) {
        None => None,
        Some(false) => Some((None, at + 1)),
        Some(true) => {
            if buf.len() - at < 18 {
                return None;
            }
            let byte: u8 = buf[at + 1];
            let use_method = if byte == 0 {
                UseMethod::Burn
            } else if byte == 1 {
                UseMethod::Multiple
            } else if byte == 2 {
                UseMethod::Single
            } else {
                return None;
            };
            let remaining: u64 = read_u64(buf, at + 2);
            let total: u64 = read_u64(buf, at + 10);
            Some((Some(Uses { use_method, remaining, total }), at + 18))
        },
    }
}

fn read_later_fields(buf: &[u8], at: usize) -> (r: Option<
    (Option<TokenStandard>, Option<Collection>, Option<Uses>),
>)
    requires
        at <= buf.len(),
    ensures
        match r {
            Some((token_standard, collection, uses)) => later_fields_at(buf@, at as int) == Some(
                LaterFields { token_standard, collection: collection_view(collection), uses },
            ),
            None => later_fields_at(buf@, at as int) is None,
        },
{
    let (token_standard, collection_from) = match read_token_standard(buf, at) {
        Some(found) => found,
        None => {
            return None;
        },
    };
    let (collection, uses_from) = match read_collection(buf, collection_from) {
        Some(found) => found,
        None => {
            return None;
        },
    };
    match read_uses(buf, uses_from) {
        Some((uses, _)) => Some((token_standard, collection, uses)),
        None => None,
    }
}

/// Decodes a metadata record.
pub fn decode_metadata(buf: &[u8]) -> (r: Result<MetadataRecord, DecodeError>)
    ensures
        decoded_view(r) == metadata_layout(buf@),
{
    if buf.len() < MIN_METADATA_LEN {
        return Err(DecodeError::BufferTooShort);
    }
    if buf.len() > MAX_METADATA_LEN {
        return Err(DecodeError::BufferTooLong);
    }
    if buf[0] != METADATA_TAG {
        return Err(DecodeError::DiscriminatorMismatch { expected: METADATA_TAG, found: buf[0] });
    }
    let update_authority = Identifier::read(buf, 1);
    let mint = Identifier::read(buf, 33);
    let (name, symbol_at) = match read_text(buf, 65) {
        Some(found) => found,
        None => {
            return Err(DecodeError::MalformedField { detail: Field::Name });
        },
    };
    let (symbol, uri_at) = match read_text(buf, symbol_at) {
        Some(found) => found,
        None => {
            return Err(DecodeError::MalformedField { detail: Field::Symbol });
        },
    };
    let (uri, fee_at) = match read_text(buf, uri_at) {
        Some(found) => found,
        None => {
            return Err(DecodeError::MalformedField { detail: Field::Uri });
        },
    };
    if buf.len() - fee_at < 2 {
        return Err(DecodeError::MalformedField { detail: Field::SellerFeeBasisPoints });
    }
    let seller_fee_basis_points: u16 = read_u16(buf, fee_at);
    let (creators, flags_at) = match read_creators(buf, fee_at + 2) {
        Some(found) => found,
        None => {
            return Err(DecodeError::MalformedField { detail: Field::Creators });
        },
    };
    let primary_sale_happened = match read_flag(buf, flags_at) {
        Some(flag) => flag,
        None => {
            return Err(DecodeError::MalformedField { detail: Field::PrimarySaleHappened });
        },
    };
    let is_mutable = match read_flag(buf, flags_at + 1) {
        Some(flag) => flag,
        None => {
            return Err(DecodeError::MalformedField { detail: Field::IsMutable });
        },
    };
    let (edition_nonce, later_at) = match read_nonce(buf, flags_at + 2) {
        Some(found) => found,
        None => {
            return Err(DecodeError::MalformedField { detail: Field::EditionNonce });
        },
    };
    let (token_standard, collection, uses) = match read_later_fields(buf, later_at) {
        Some(found) => found,
        None => (None, None, None),
    };
    Ok(
        MetadataRecord {
            update_authority,
            mint,
            name,
            symbol,
            uri,
            seller_fee_basis_points,
            creators,
            primary_sale_happened,
            is_mutable,
            edition_nonce,
            token_standard,
            collection,
            uses,
        },
    )
}

/// A length-prefixed run that lies within a buffer is the same run when
/// more bytes follow the buffer.
proof fn lemma_run_padding(b: Seq<u8>, padding: Seq<u8>, at: int)
    requires
        0 <= at,
        run_at(b, at) is Some,
    ensures
        run_at(b + padding, at) == run_at(b, at),
{
    let longer = b + padding;
    assert(forall|i: int| 0 <= i < b.len() ==> longer[i] == b[i]);
    assert(le_u32(longer, at) == le_u32(b, at));
    let n = le_u32(b, at) as int;
    assert(longer.subrange(at + 4, at + 4 + n) =~= b.subrange(at + 4, at + 4 + n));
}

/// A list of creators that lies within a buffer is the same list when more
/// bytes follow the buffer.
proof fn lemma_creators_padding(b: Seq<u8>, padding: Seq<u8>, at: int)
    requires
        0 <= at,
        creator_list_at(b, at) is Some,
    ensures
        creator_list_at(b + padding, at) == creator_list_at(b, at),
{
    let longer = b + padding;
    assert(forall|i: int| 0 <= i < b.len() ==> longer[i] == b[i]);
    if flag_at(b, at) == Some(true) {
        let start = at + 5;
        let count = le_u32(b, at + 1) as int;
        assert(le_u32(longer, at + 1) == le_u32(b, at + 1));
        assert forall|i: int| 0 <= i < count implies #[trigger] creator_flag_ok(longer, start, i) by {
            assert(creator_flag_ok(b, start, i));
        }
        assert forall|i: int| 0 <= i < count implies #[trigger] nth_creator(longer, start, i)
            == nth_creator(b, start, i) by {
            let from = start + CREATOR_LEN * i;
            assert(longer.subrange(from, from + 32) =~= b.subrange(from, from + 32));
        }
        assert(Seq::new(count as nat, |i: int| nth_creator(longer, start, i)) =~= Seq::new(
            count as nat,
            |i: int| nth_creator(b, start, i),
        ));
    }
}

/// The fields up to the edition nonce do not depend on what follows the
/// buffer: where they are well-formed, they are the same when more bytes
/// follow.
pub proof fn lemma_early_fields_padding(b: Seq<u8>, padding: Seq<u8>)
    requires
        early_fields(b) is Ok,
    ensures
        early_fields(b + padding) == early_fields(b),
        0 <= (early_fields(b)->Ok_0).1 <= b.len(),
{
    let longer = b + padding;
    assert(forall|i: int| 0 <= i < b.len() ==> longer[i] == b[i]);
    assert(longer.subrange(1, 33) =~= b.subrange(1, 33));
    assert(longer.subrange(33, 65) =~= b.subrange(33, 65));
    lemma_run_padding(b, padding, 65);
    let symbol_at = (text_at(b, 65)->0).1;
    lemma_run_padding(b, padding, symbol_at);
    let uri_at = (text_at(b, symbol_at)->0).1;
    lemma_run_padding(b, padding, uri_at);
    let fee_at = (text_at(b, uri_at)->0).1;
    assert(le_u16(longer, fee_at) == le_u16(b, fee_at));
    lemma_creators_padding(b, padding, fee_at + 2);
    let flags_at = (creator_list_at(b, fee_at + 2)->0).1;
    assert(flag_at(longer, flags_at) == flag_at(b, flags_at));
    assert(flag_at(longer, flags_at + 1) == flag_at(b, flags_at + 1));
    assert(nonce_at(longer, flags_at + 2) == nonce_at(b, flags_at + 2));
}

/// The three later fields do not depend on what follows the buffer: where
/// they are well-formed, they are the same when more bytes follow.
proof fn lemma_later_fields_padding(b: Seq<u8>, padding: Seq<u8>, at: int)
    requires
        0 <= at,
        later_fields_at(b, at) is Some,
    ensures
        later_fields_at(b + padding, at) == later_fields_at(b, at),
{
    let longer = b + padding;
    assert(forall|i: int| 0 <= i < b.len() ==> longer[i] == b[i]);
    assert(token_standard_at(longer, at) == token_standard_at(b, at));
    let second = (token_standard_at(b, at)->0).1;
    assert(collection_at(longer, second) == collection_at(b, second)) by {
        if flag_at(b, second) == Some(true) {
            assert(longer.subrange(second + 2, second + 34) =~= b.subrange(
                second + 2,
                second + 34,
            ));
        }
    }
    let third = (collection_at(b, second)->0).1;
    assert(uses_at(longer, third) == uses_at(b, third)) by {
        if flag_at(b, third) == Some(true) {
            assert(le_u64(longer, third + 2) == le_u64(b, third + 2));
            assert(le_u64(longer, third + 10) == le_u64(b, third + 10));
        }
    }
}

/// Bytes behind the last field are not read: a buffer that decodes with its
/// three later fields well-formed still decodes, and to the same record,
/// when more bytes follow it, as long as it stays within the greatest
/// length.
pub proof fn lemma_metadata_padding(b: Seq<u8>, padding: Seq<u8>)
    requires
        metadata_layout(b) is Ok,
        later_fields_at(b, (early_fields(b)->Ok_0).1) is Some,
        b.len() + padding.len() <= MAX_METADATA_LEN,
    ensures
        metadata_layout(b + padding) == metadata_layout(b),
{
    let longer = b + padding;
    assert(longer[0] == b[0]);
    lemma_early_fields_padding(b, padding);
    lemma_later_fields_padding(b, padding, (early_fields(b)->Ok_0).1);
}

} // verus!
