//! The mint record: the supply side of a token, in a layout of exactly 82
//! bytes.
//!
//! | bytes    | field                                   |
//! |----------|-----------------------------------------|
//! | 0..36    | mint authority, optional identifier     |
//! | 36..44   | supply, little-endian                   |
//! | 44       | decimals                                |
//! | 45       | initialized flag, 0 or 1                |
//! | 46..82   | freeze authority, optional identifier   |

use crate::error::{decoded_view, DecodeError, Field};
use crate::identifier::Identifier;
use crate::optional::{
    key_view, key_well_formed, lemma_optional_key_at, lemma_optional_key_window,
    optional_key_at, optional_key_bytes, push_optional_key, read_optional_key, zeros,
};
use crate::wire::{
    le_u64, lemma_join, lemma_parts, lemma_u64_at, lemma_u64_value_bytes, push_u64, read_u64,
    u64_le_bytes,
};
use vstd::prelude::*;

verus! {

/// Length of a mint record.
pub const MINT_LEN: usize = 82;

/// A decoded mint record.
#[derive(Clone, Copy, Debug, PartialEq, Eq)]
pub struct MintRecord {
    /// Who may mint new tokens, if anyone.
    pub mint_authority: Option<Identifier>,
    /// Tokens in existence.
    pub supply: u64,
    /// Digits to the right of the decimal point.
    pub decimals: u8,
    /// Whether the record has been initialized.
    pub is_initialized: bool,
    /// Who may freeze token accounts, if anyone.
    pub freeze_authority: Option<Identifier>,
}

/// A mint record with its identifiers as byte sequences.
pub struct MintView {
    pub mint_authority: Option<Seq<u8>>,
    pub supply: u64,
    pub decimals: u8,
    pub is_initialized: bool,
    pub freeze_authority: Option<Seq<u8>>,
}

impl View for MintRecord {
    type V = MintView;

    open spec fn view(&self) -> MintView {
        MintView {
            mint_authority: key_view(self.mint_authority),
            supply: self.supply,
            decimals: self.decimals,
            is_initialized: self.is_initialized,
            freeze_authority: key_view(self.freeze_authority),
        }
    }
}

impl MintView {
    /// Every identifier that is present has 32 bytes.
    pub open spec fn well_formed(self) -> bool {
        key_well_formed(self.mint_authority) && key_well_formed(self.freeze_authority)
    }
}

/// What a buffer holds when read as a mint record: the record, or the first
/// check that fails.
pub open spec fn mint_layout(b: Seq<u8>) -> Result<MintView, DecodeError> {
    if b.len() < MINT_LEN {
        Err(DecodeError::BufferTooShort)
    } else if b.len() > MINT_LEN {
        Err(DecodeError::BufferTooLong)
    } else if optional_key_at(b, 0) is None {
        Err(DecodeError::MalformedField { detail: Field::MintAuthority })
    } else if b[45] > 1 {
        Err(DecodeError::MalformedField { detail: Field::IsInitialized })
    } else if optional_key_at(b, 46) is None {
        Err(DecodeError::MalformedField { detail: Field::FreezeAuthority })
    } else {
        Ok(
            MintView {
                mint_authority: optional_key_at(b, 0)->0,
                supply: le_u64(b, 36),
                decimals: b[44],
                is_initialized: b[45] == 1,
                freeze_authority: optional_key_at(b, 46)->0,
            },
        )
    }
}

/// The 82 bytes of a mint record.
pub open spec fn mint_bytes(m: MintView) -> Seq<u8> {
    optional_key_bytes(m.mint_authority) + u64_le_bytes(m.supply) + seq![m.decimals] + seq![
        if m.is_initialized {
            1u8
        } else {
            0u8
        },
    ] + optional_key_bytes(m.freeze_authority)
}

/// Decodes a mint record.
pub fn decode_mint(buf: &[u8]) -> (r: Result<MintRecord, DecodeError>)
    ensures
        decoded_view(r) == mint_layout(buf@),
{
    if buf.len() < MINT_LEN {
        return Err(DecodeError::BufferTooShort);
    }
    if buf.len() > MINT_LEN {
        return Err(DecodeError::BufferTooLong);
    }
    let mint_authority = match read_optional_key(buf, 0) {
        Some(key) => key,
        None => {
            return Err(DecodeError::MalformedField { detail: Field::MintAuthority });
        },
    };
    let supply: u64 = read_u64(buf, 36);
    let decimals: u8 = buf[44];
    if buf[45] > 1 {
        return Err(DecodeError::MalformedField { detail: Field::IsInitialized });
    }
    let is_initialized = buf[45] == 1;
    let freeze_authority = match read_optional_key(buf, 46) {
        Some(key) => key,
        None => {
            return Err(DecodeError::MalformedField { detail: Field::FreezeAuthority });
        },
    };
    Ok(MintRecord { mint_authority, supply, decimals, is_initialized, freeze_authority })
}

impl MintRecord {
    /// The 82 bytes of the record. They decode to the record again.
    pub fn encode(&self) -> (out: Vec<u8>)
        ensures
            out@ == mint_bytes(self@),
            out@.len() == MINT_LEN,
            mint_layout(out@) == Ok::<MintView, DecodeError>(self@),
    {
        let mut out: Vec<u8> = Vec::new();
        push_optional_key(&mut out, &self.mint_authority);
        push_u64(&mut out, self.supply);
        out.push(self.decimals);
        out.push(if self.is_initialized { 1 } else { 0 });
        push_optional_key(&mut out, &self.freeze_authority);
        assert(out@ =~= mint_bytes(self@));
        proof {
            lemma_mint_decodes_what_was_encoded(self@);
        }
        out
    }
}

/// The bytes written for a record decode to that record, so that decoding
/// them and encoding what came out gives the same bytes again.
pub proof fn lemma_mint_decodes_what_was_encoded(m: MintView)
    requires
        m.well_formed(),
    ensures
        mint_bytes(m).len() == MINT_LEN,
        mint_layout(mint_bytes(m)) == Ok::<MintView, DecodeError>(m),
        mint_bytes(mint_layout(mint_bytes(m))->Ok_0) == mint_bytes(m),
{
    let b = mint_bytes(m);
    let p0 = optional_key_bytes(m.mint_authority);
    let p1 = u64_le_bytes(m.supply);
    let p2 = seq![m.decimals];
    let p3 = seq![
        if m.is_initialized {
            1u8
        } else {
            0u8
        },
    ];
    let p4 = optional_key_bytes(m.freeze_authority);
    let x1 = p0 + p1;
    let x2 = x1 + p2;
    let x3 = x2 + p3;
    assert(p0.len() == 36 && p4.len() == 36);
    assert(b == x3 + p4);
    assert(b.subrange(0, 82) =~= b);
    lemma_parts(b, x3, p4);
    lemma_parts(b, x2, p3);
    lemma_parts(b, x1, p2);
    lemma_parts(b, p0, p1);
    lemma_optional_key_at(b, 0, m.mint_authority);
    lemma_u64_at(b, 36, m.supply);
    assert(b[44] == b.subrange(44, 45)[0]);
    assert(b[45] == b.subrange(45, 46)[0]);
    lemma_optional_key_at(b, 46, m.freeze_authority);
}

/// A buffer that decodes, and holds zeros in the place of each absent
/// identifier, is what the decoded record encodes to.
pub proof fn lemma_mint_encodes_what_was_decoded(b: Seq<u8>)
    requires
        mint_layout(b) is Ok,
        optional_key_at(b, 0) == Some(None::<Seq<u8>>) ==> b.subrange(4, 36) == zeros(32),
        optional_key_at(b, 46) == Some(None::<Seq<u8>>) ==> b.subrange(50, 82) == zeros(32),
    ensures
        mint_bytes(mint_layout(b)->Ok_0) == b,
{
    let m = mint_layout(b)->Ok_0;
    lemma_optional_key_window(b, 0);
    lemma_u64_value_bytes(b, 36);
    assert(seq![m.decimals] =~= b.subrange(44, 45));
    assert(seq![
        if m.is_initialized {
            1u8
        } else {
            0u8
        },
    ] =~= b.subrange(45, 46));
    lemma_optional_key_window(b, 46);
    lemma_join(b, 0, 36, 44);
    lemma_join(b, 0, 44, 45);
    lemma_join(b, 0, 45, 46);
    lemma_join(b, 0, 46, 82);
    assert(b.subrange(0, 82) =~= b);
}

} // verus!
