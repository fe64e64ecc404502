//! The master-edition record: how many prints of a token exist and how many
//! may exist.
//!
//! | bytes   | field                                            |
//! |---------|--------------------------------------------------|
//! | 0       | tag, 6                                           |
//! | 1..9    | supply, little-endian                            |
//! | 9       | 0: no greatest supply; 1: one follows            |
//! | 10..18  | greatest supply, little-endian, where one follows |
//!
//! A record has at least 10 and at most 282 bytes; bytes behind the last
//! field are padding and are not read.

use crate::error::{decoded_view, DecodeError, Field};
use crate::wire::{le_u64, read_u64};
use vstd::prelude::*;

verus! {

/// The first byte of a master-edition record.
pub const MASTER_EDITION_TAG: u8 = 6;

/// Least length of a master-edition record.
pub const MIN_MASTER_EDITION_LEN: usize = 10;

/// Greatest length of a master-edition record.
pub const MAX_MASTER_EDITION_LEN: usize = 282;

/// A decoded master-edition record.
#[derive(Clone, Copy, Debug, PartialEq, Eq, Structural)]
pub struct MasterEditionRecord {
    /// Prints made so far.
    pub supply: u64,
    /// The most prints that may be made, if there is a bound.
    pub max_supply: Option<u64>,
}

impl View for MasterEditionRecord {
    type V = MasterEditionRecord;

    open spec fn view(&self) -> MasterEditionRecord {
        *self
    }
}

/// The optional greatest supply of a buffer of at least 10 bytes; `None`
/// where the byte at 9 is neither 0 nor 1, or announces a value that the
/// buffer is too short to hold.
pub open spec fn max_supply_of(b: Seq<u8>) -> Option<Option<u64>> {
    if b[9] == 0 {
        Some(None)
    } else if b[9] == 1 && b.len() >= 18 {
        Some(Some(le_u64(b, 10)))
    } else {
        None
    }
}

/// What a buffer holds when read as a master-edition record: the record, or
/// the first check that fails.
pub open spec fn master_edition_layout(b: Seq<u8>) -> Result<MasterEditionRecord, DecodeError> {
    if b.len() < MIN_MASTER_EDITION_LEN {
        Err(DecodeError::BufferTooShort)
    } else if b.len() > MAX_MASTER_EDITION_LEN {
        Err(DecodeError::BufferTooLong)
    } else if b[0] != MASTER_EDITION_TAG {
        Err(DecodeError::DiscriminatorMismatch { expected: MASTER_EDITION_TAG, found: b[0] })
    } else if max_supply_of(b) is None {
        Err(DecodeError::MalformedField { detail: Field::MaxSupply })
    } else {
        Ok(MasterEditionRecord { supply: le_u64(b, 1), max_supply: max_supply_of(b)->0 })
    }
}

/// Decodes a master-edition record.
pub fn decode_master_edition(buf: &[u8]) -> (r: Result<MasterEditionRecord, DecodeError>)
    ensures
        decoded_view(r) == master_edition_layout(buf@),
{
    if buf.len() < MIN_MASTER_EDITION_LEN {
        return Err(DecodeError::BufferTooShort);
    }
    if buf.len() > MAX_MASTER_EDITION_LEN {
        return Err(DecodeError::BufferTooLong);
    }
    if buf[0] != MASTER_EDITION_TAG {
        return Err(
            DecodeError::DiscriminatorMismatch { expected: MASTER_EDITION_TAG, found: buf[0] },
        );
    }
    let supply: u64 = read_u64(buf, 1);
    let max_supply = if buf[9] == 0 {
        None
    } else if buf[9] == 1 && buf.len() >= 18 {
        Some(read_u64(buf, 10))
    } else {
        return Err(DecodeError::MalformedField { detail: Field::MaxSupply });
    };
    Ok(MasterEditionRecord { supply, max_supply })
}

/// Bytes behind the last field are not read: a buffer that decodes still
/// decodes, and to the same record, when more bytes follow it, as long as
/// it stays within the greatest length.
pub proof fn lemma_master_edition_padding(b: Seq<u8>, padding: Seq<u8>)
    requires
        master_edition_layout(b) is Ok,
        b.len() + padding.len() <= MAX_MASTER_EDITION_LEN,
    ensures
        master_edition_layout(b + padding) == master_edition_layout(b),
{
    let longer = b + padding;
    assert(forall|i: int| 0 <= i < b.len() ==> longer[i] == b[i]);
}

} // verus!
