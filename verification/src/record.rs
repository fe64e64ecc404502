//! Decoding a buffer as a record of a given kind.

use crate::error::{decoded_view, DecodeError};
use crate::master_edition::{
    decode_master_edition, master_edition_layout, MasterEditionRecord, MASTER_EDITION_TAG,
    MAX_MASTER_EDITION_LEN, MIN_MASTER_EDITION_LEN,
};
use crate::metadata::{
    decode_metadata, metadata_layout, MetadataRecord, MetadataView, MAX_METADATA_LEN,
    METADATA_TAG, MIN_METADATA_LEN,
};
use crate::mint::{decode_mint, mint_layout, MintRecord, MintView, MINT_LEN};
use crate::token_account::{
    decode_token_account, token_account_layout, TokenAccountRecord, TokenAccountView,
    TOKEN_ACCOUNT_LEN,
};
use vstd::prelude::*;

verus! {

/// The kinds of record.
#[derive(Clone, Copy, Debug, PartialEq, Eq, Structural)]
pub enum RecordKind {
    Mint,
    TokenAccount,
    Metadata,
    MasterEdition,
}

/// A decoded record of one of the four kinds.
#[derive(Clone, Debug, PartialEq, Eq)]
pub enum TypedRecord {
    Mint(MintRecord),
    TokenAccount(TokenAccountRecord),
    Metadata(MetadataRecord),
    MasterEdition(MasterEditionRecord),
}

/// A decoded record by its view.
pub enum TypedView {
    Mint(MintView),
    TokenAccount(TokenAccountView),
    Metadata(MetadataView),
    MasterEdition(MasterEditionRecord),
}

impl View for TypedRecord {
    type V = TypedView;

    open spec fn view(&self) -> TypedView {
        match *self {
            TypedRecord::Mint(m) => TypedView::Mint(m@),
            TypedRecord::TokenAccount(a) => TypedView::TokenAccount(a@),
            TypedRecord::Metadata(m) => TypedView::Metadata(m@),
            TypedRecord::MasterEdition(e) => TypedView::MasterEdition(e),
        }
    }
}

impl TypedView {
    /// The kind of the record.
    pub open spec fn kind(self) -> RecordKind {
        match self {
            TypedView::Mint(_) => RecordKind::Mint,
            TypedView::TokenAccount(_) => RecordKind::TokenAccount,
            TypedView::Metadata(_) => RecordKind::Metadata,
            TypedView::MasterEdition(_) => RecordKind::MasterEdition,
        }
    }
}

impl TypedRecord {
    /// The kind of the record.
    pub fn kind(&self) -> (k: RecordKind)
        ensures
            k == self@.kind(),
    {
        match self {
            TypedRecord::Mint(_) => RecordKind::Mint,
            TypedRecord::TokenAccount(_) => RecordKind::TokenAccount,
            TypedRecord::Metadata(_) => RecordKind::Metadata,
            TypedRecord::MasterEdition(_) => RecordKind::MasterEdition,
        }
    }
}

/// The least length of a buffer of a kind.
pub open spec fn min_len(kind: RecordKind) -> nat {
    match kind {
        RecordKind::Mint => MINT_LEN as nat,
        RecordKind::TokenAccount => TOKEN_ACCOUNT_LEN as nat,
        RecordKind::Metadata => MIN_METADATA_LEN as nat,
        RecordKind::MasterEdition => MIN_MASTER_EDITION_LEN as nat,
    }
}

/// The greatest length of a buffer of a kind.
pub open spec fn max_len(kind: RecordKind) -> nat {
    match kind {
        RecordKind::Mint => MINT_LEN as nat,
        RecordKind::TokenAccount => TOKEN_ACCOUNT_LEN as nat,
        RecordKind::Metadata => MAX_METADATA_LEN as nat,
        RecordKind::MasterEdition => MAX_MASTER_EDITION_LEN as nat,
    }
}

/// The tag that the first byte of a buffer of a kind must be, for the kinds
/// that have one.
pub open spec fn tag_of(kind: RecordKind) -> Option<u8> {
    match kind {
        RecordKind::Mint => None,
        RecordKind::TokenAccount => None,
        RecordKind::Metadata => Some(METADATA_TAG),
        RecordKind::MasterEdition => Some(MASTER_EDITION_TAG),
    }
}

/// What a buffer holds when read as a record of `kind`: the record, or the
/// first check that fails.
pub open spec fn record_layout(kind: RecordKind, b: Seq<u8>) -> Result<TypedView, DecodeError> {
    match kind {
        RecordKind::Mint => match mint_layout(b) {
            Ok(m) => Ok(TypedView::Mint(m)),
            Err(e) => Err(e),
        },
        RecordKind::TokenAccount => match token_account_layout(b) {
            Ok(a) => Ok(TypedView::TokenAccount(a)),
            Err(e) => Err(e),
        },
        RecordKind::Metadata => match metadata_layout(b) {
            Ok(m) => Ok(TypedView::Metadata(m)),
            Err(e) => Err(e),
        },
        RecordKind::MasterEdition => match master_edition_layout(b) {
            Ok(e) => Ok(TypedView::MasterEdition(e)),
            Err(e) => Err(e),
        },
    }
}

/// Decodes `buffer` as a record of `expected_kind`.
///
/// The length is checked first, then the tag of the kinds that have one,
/// then the fields in their order. The first check that fails gives the
/// error; a record comes back only when every check has passed.
pub fn decode(buffer: &[u8], expected_kind: RecordKind) -> (r: Result<TypedRecord, DecodeError>)
    ensures
        decoded_view(r) == record_layout(expected_kind, buffer@),
        r matches Ok(record) ==> record@.kind() == expected_kind,
{
    match expected_kind {
        RecordKind::Mint => match decode_mint(buffer) {
            Ok(m) => Ok(TypedRecord::Mint(m)),
            Err(e) => Err(e),
        },
        RecordKind::TokenAccount => match decode_token_account(buffer) {
            Ok(a) => Ok(TypedRecord::TokenAccount(a)),
            Err(e) => Err(e),
        },
        RecordKind::Metadata => match decode_metadata(buffer) {
            Ok(m) => Ok(TypedRecord::Metadata(m)),
            Err(e) => Err(e),
        },
        RecordKind::MasterEdition => match decode_master_edition(buffer) {
            Ok(e) => Ok(TypedRecord::MasterEdition(e)),
            Err(e) => Err(e),
        },
    }
}

/// A buffer shorter than the least length of the kind is refused as too
/// short, whatever it holds.
pub proof fn lemma_short_buffer_refused(kind: RecordKind, b: Seq<u8>)
    requires
        b.len() < min_len(kind),
    ensures
        record_layout(kind, b) == Err::<TypedView, DecodeError>(DecodeError::BufferTooShort),
{
}

/// A buffer longer than the greatest length of the kind is refused as too
/// long, whatever it holds.
pub proof fn lemma_long_buffer_refused(kind: RecordKind, b: Seq<u8>)
    requires
        b.len() > max_len(kind),
    ensures
        record_layout(kind, b) == Err::<TypedView, DecodeError>(DecodeError::BufferTooLong),
{
}

/// A buffer of an admissible length whose first byte is not the tag of the
/// kind is refused for its tag, whatever else it holds. So a buffer that
/// starts with the tag of a master edition never decodes as metadata, nor
/// the other way round.
pub proof fn lemma_wrong_tag_refused(kind: RecordKind, b: Seq<u8>)
    requires
        min_len(kind) <= b.len() <= max_len(kind),
        tag_of(kind) is Some,
        b[0] != tag_of(kind)->0,
    ensures
        record_layout(kind, b) == Err::<TypedView, DecodeError>(
            DecodeError::DiscriminatorMismatch { expected: tag_of(kind)->0, found: b[0] },
        ),
{
}

/// A record comes only out of a buffer whose length is admissible for the
/// kind asked for and whose first byte is the tag of that kind, where the
/// kind has one; and the record is of that kind.
pub proof fn lemma_record_matches_schema(kind: RecordKind, b: Seq<u8>)
    requires
        record_layout(kind, b) is Ok,
    ensures
        (record_layout(kind, b)->Ok_0).kind() == kind,
        min_len(kind) <= b.len() <= max_len(kind),
        tag_of(kind) matches Some(tag) ==> b[0] == tag,
{
}

} // verus!
