//! Optional fields of the fixed layouts: a four-byte marker, then the place
//! of the value, which is there whether the value is present or not.

use crate::identifier::Identifier;
use crate::wire::{
    le_u64, lemma_u64_at, lemma_u64_bytes_value, lemma_u64_value_bytes, push_u64, read_u64,
    u64_le_bytes,
};
use vstd::prelude::*;

verus! {

/// The marker at `at`: `Some(false)` for absent (0), `Some(true)` for
/// present (1), `None` for any other four bytes. The marker is a
/// little-endian 32-bit number.
pub open spec fn marker_at(b: Seq<u8>, at: int) -> Option<bool> {
    if b[at + 1] != 0 || b[at + 2] != 0 || b[at + 3] != 0 {
        None
    } else if b[at] == 0 {
        Some(false)
    } else if b[at] == 1 {
        Some(true)
    } else {
        None
    }
}

/// The optional identifier whose marker is at `at`; `None` for a marker that
/// is neither 0 nor 1.
pub open spec fn optional_key_at(b: Seq<u8>, at: int) -> Option<Option<Seq<u8>>> {
    match marker_at(b, at) {
        None => None,
        Some(false) => Some(None),
        Some(true) => Some(Some(b.subrange(at + 4, at + 36))),
    }
}

/// The optional 64-bit number whose marker is at `at`; `None` for a marker
/// that is neither 0 nor 1.
pub open spec fn optional_u64_at(b: Seq<u8>, at: int) -> Option<Option<u64>> {
    match marker_at(b, at) {
        None => None,
        Some(false) => Some(None),
        Some(true) => Some(Some(le_u64(b, at + 4))),
    }
}

/// `n` zero bytes.
pub open spec fn zeros(n: nat) -> Seq<u8> {
    Seq::new(n, |i: int| 0u8)
}

/// The 36 bytes of an optional identifier; an absent one leaves zeros in
/// the place of the value.
pub open spec fn optional_key_bytes(key: Option<Seq<u8>>) -> Seq<u8> {
    match key {
        Some(k) => seq![1u8, 0u8, 0u8, 0u8] + k,
        None => seq![0u8, 0u8, 0u8, 0u8] + zeros(32),
    }
}

/// The 12 bytes of an optional 64-bit number; an absent one leaves zeros in
/// the place of the value.
pub open spec fn optional_u64_bytes(v: Option<u64>) -> Seq<u8> {
    match v {
        Some(x) => seq![1u8, 0u8, 0u8, 0u8] + u64_le_bytes(x),
        None => seq![0u8, 0u8, 0u8, 0u8] + zeros(8),
    }
}

/// An optional identifier as a sequence of bytes.
pub open spec fn key_view(key: Option<Identifier>) -> Option<Seq<u8>> {
    match key {
        Some(k) => Some(k@),
        None => None,
    }
}

/// An optional identifier has 32 bytes where it is present.
pub open spec fn key_well_formed(key: Option<Seq<u8>>) -> bool {
    key matches Some(k) ==> k.len() == 32
}

/// Where the 36 bytes at `at` are those written for `key`, the optional
/// identifier read there is `key`.
pub proof fn lemma_optional_key_at(b: Seq<u8>, at: int, key: Option<Seq<u8>>)
    requires
        0 <= at,
        at + 36 <= b.len(),
        key_well_formed(key),
        b.subrange(at, at + 36) == optional_key_bytes(key),
    ensures
        optional_key_at(b, at) == Some(key),
{
    let w = b.subrange(at, at + 36);
    assert(forall|i: int| 0 <= i < 36 ==> b[at + i] == w[i]);
    assert(b[at] == w[0] && b[at + 1] == w[1] && b[at + 2] == w[2] && b[at + 3] == w[3]);
    if key is Some {
        assert forall|j: int| 0 <= j < 32 implies b.subrange(at + 4, at + 36)[j] == (key->0)[j] by {
            assert(b[at + (4 + j)] == w[4 + j]);
        }
        assert(b.subrange(at + 4, at + 36) =~= key->0);
    }
}

/// Where the 12 bytes at `at` are those written for `v`, the optional
/// number read there is `v`.
pub proof fn lemma_optional_u64_at(b: Seq<u8>, at: int, v: Option<u64>)
    requires
        0 <= at,
        at + 12 <= b.len(),
        b.subrange(at, at + 12) == optional_u64_bytes(v),
    ensures
        optional_u64_at(b, at) == Some(v),
{
    let w = b.subrange(at, at + 12);
    assert(forall|i: int| 0 <= i < 12 ==> b[at + i] == w[i]);
    assert(b[at] == w[0] && b[at + 1] == w[1] && b[at + 2] == w[2] && b[at + 3] == w[3]);
    if v is Some {
        lemma_u64_bytes_value(v->0);
        assert forall|j: int| 0 <= j < 8 implies b.subrange(at + 4, at + 12)[j] == u64_le_bytes(
            v->0,
        )[j] by {
            assert(b[at + (4 + j)] == w[4 + j]);
        }
        assert(b.subrange(at + 4, at + 12) =~= u64_le_bytes(v->0));
        lemma_u64_at(b, at + 4, v->0);
    }
}

/// The 36 bytes at `at`, where an optional identifier is read and the place
/// of an absent value holds zeros, are those written for what was read.
pub proof fn lemma_optional_key_window(b: Seq<u8>, at: int)
    requires
        0 <= at,
        at + 36 <= b.len(),
        optional_key_at(b, at) is Some,
        optional_key_at(b, at) == Some(None::<Seq<u8>>) ==> b.subrange(at + 4, at + 36) == zeros(
            32,
        ),
    ensures
        optional_key_bytes(optional_key_at(b, at)->0) == b.subrange(at, at + 36),
{
    let key = optional_key_at(b, at)->0;
    let w = b.subrange(at + 4, at + 36);
    assert forall|i: int| 0 <= i < 36 implies optional_key_bytes(key)[i] == b[at + i] by {
        if i >= 4 {
            assert(w[i - 4] == b[at + 4 + (i - 4)]);
        }
    }
    assert(optional_key_bytes(key) =~= b.subrange(at, at + 36));
}

/// The 12 bytes at `at`, where an optional number is read and the place of
/// an absent value holds zeros, are those written for what was read.
pub proof fn lemma_optional_u64_window(b: Seq<u8>, at: int)
    requires
        0 <= at,
        at + 12 <= b.len(),
        optional_u64_at(b, at) is Some,
        optional_u64_at(b, at) == Some(None::<u64>) ==> b.subrange(at + 4, at + 12) == zeros(8),
    ensures
        optional_u64_bytes(optional_u64_at(b, at)->0) == b.subrange(at, at + 12),
{
    let v = optional_u64_at(b, at)->0;
    let w = b.subrange(at + 4, at + 12);
    if v is Some {
        lemma_u64_value_bytes(b, at + 4);
    }
    assert forall|i: int| 0 <= i < 12 implies optional_u64_bytes(v)[i] == b[at + i] by {
        if i >= 4 {
            assert(w[i - 4] == b[at + 4 + (i - 4)]);
        }
    }
    assert(optional_u64_bytes(v) =~= b.subrange(at, at + 12));
}

fn read_marker(buf: &[u8], at: usize) -> (r: Option<bool>)
    requires
        at + 4 <= buf.len(),
    ensures
        r == marker_at(buf@, at as int),
{
    if buf[at + 1] != 0 || buf[at + 2] != 0 || buf[at + 3] != 0 {
        None
    } else if buf[at] == 0 {
        Some(false)
    } else if buf[at] == 1 {
        Some(true)
    } else {
        None
    }
}

/// Reads the optional identifier whose marker is at `at`.
pub(crate) fn read_optional_key(buf: &[u8], at: usize) -> (r: Option<Option<Identifier>>)
    requires
        at + 36 <= buf.len(),
    ensures
        match r {
            Some(key) => optional_key_at(buf@, at as int) == Some(key_view(key)),
            None => optional_key_at(buf@, at as int) is None,
        },
{
    match read_marker(buf, at) {
        None => None,
        Some(false) => Some(None),
        Some(true) => Some(Some(Identifier::read(buf, at + 4))),
    }
}

/// Reads the optional 64-bit number whose marker is at `at`.
pub(crate) fn read_optional_u64(buf: &[u8], at: usize) -> (r: Option<Option<u64>>)
    requires
        at + 12 <= buf.len(),
    ensures
        r == optional_u64_at(buf@, at as int),
{
    match read_marker(buf, at) {
        None => None,
        Some(false) => Some(None),
        Some(true) => Some(Some(read_u64(buf, at + 4))),
    }
}

fn push_zeros(out: &mut Vec<u8>, n: usize)
    ensures
        final(out)@ == old(out)@ + zeros(n as nat),
{
    let mut i: usize = 0;
    while i < n
        invariant
            i <= n,
            out@ == old(out)@ + zeros(i as nat),
        decreases n - i,
    {
        out.push(0);
        i = i + 1;
        assert(out@ =~= old(out)@ + zeros(i as nat));
    }
}

/// Appends the 32 bytes of an identifier.
pub(crate) fn push_key(out: &mut Vec<u8>, key: &Identifier)
    ensures
        final(out)@ == old(out)@ + key@,
{
    let mut i: usize = 0;
    while i < 32
        invariant
            i <= 32,
            out@ == old(out)@ + key@.subrange(0, i as int),
        decreases 32 - i,
    {
        out.push(key.bytes[i]);
        i = i + 1;
        assert(out@ =~= old(out)@ + key@.subrange(0, i as int));
    }
    assert(key@.subrange(0, 32) =~= key@);
}

/// Appends the 36 bytes of an optional identifier.
pub(crate) fn push_optional_key(out: &mut Vec<u8>, key: &Option<Identifier>)
    ensures
        final(out)@ == old(out)@ + optional_key_bytes(key_view(*key)),
{
    match key {
        Some(k) => {
            out.push(1);
            out.push(0);
            out.push(0);
            out.push(0);
            push_key(out, k);
            assert(out@ =~= old(out)@ + optional_key_bytes(key_view(*key)));
        },
        None => {
            out.push(0);
            out.push(0);
            out.push(0);
            out.push(0);
            push_zeros(out, 32);
            assert(out@ =~= old(out)@ + optional_key_bytes(key_view(*key)));
        },
    }
}

/// Appends the 12 bytes of an optional 64-bit number.
pub(crate) fn push_optional_u64(out: &mut Vec<u8>, v: Option<u64>)
    ensures
        final(out)@ == old(out)@ + optional_u64_bytes(v),
{
    match v {
        Some(x) => {
            out.push(1);
            out.push(0);
            out.push(0);
            out.push(0);
            push_u64(out, x);
            assert(out@ =~= old(out)@ + optional_u64_bytes(v));
        },
        None => {
            out.push(0);
            out.push(0);
            out.push(0);
            out.push(0);
            push_zeros(out, 8);
            assert(out@ =~= old(out)@ + optional_u64_bytes(v));
        },
    }
}

} // verus!
