//! Little-endian integers as they lie in an account buffer.

use vstd::prelude::*;

verus! {

/// The 16-bit value whose two little-endian bytes start at `at`.
pub open spec fn le_u16(b: Seq<u8>, at: int) -> u16 {
    (b[at] + 256 * b[at + 1]) as u16
}

/// The 32-bit value whose four little-endian bytes start at `at`.
pub open spec fn le_u32(b: Seq<u8>, at: int) -> u32 {
    (b[at] + 256 * b[at + 1] + 65536 * b[at + 2] + 16777216 * b[at + 3]) as u32
}

/// The 64-bit value whose eight little-endian bytes start at `at`.
pub open spec fn le_u64(b: Seq<u8>, at: int) -> u64 {
    (b[at] + 256 * b[at + 1] + 65536 * b[at + 2] + 16777216 * b[at + 3] + 4294967296 * b[at + 4]
        + 1099511627776 * b[at + 5] + 281474976710656 * b[at + 6] + 72057594037927936 * b[at
        + 7]) as u64
}

/// The eight little-endian bytes of `v`.
pub open spec fn u64_le_bytes(v: u64) -> Seq<u8> {
    let v1 = v / 256;
    let v2 = v1 / 256;
    let v3 = v2 / 256;
    let v4 = v3 / 256;
    let v5 = v4 / 256;
    let v6 = v5 / 256;
    let v7 = v6 / 256;
    seq![
        (v % 256) as u8,
        (v1 % 256) as u8,
        (v2 % 256) as u8,
        (v3 % 256) as u8,
        (v4 % 256) as u8,
        (v5 % 256) as u8,
        (v6 % 256) as u8,
        (v7 % 256) as u8,
    ]
}

/// Reading back the bytes written for `v` gives `v`.
pub proof fn lemma_u64_bytes_value(v: u64)
    ensures
        u64_le_bytes(v).len() == 8,
        le_u64(u64_le_bytes(v), 0) == v,
{
    let v1 = v / 256;
    let v2 = v1 / 256;
    let v3 = v2 / 256;
    let v4 = v3 / 256;
    let v5 = v4 / 256;
    let v6 = v5 / 256;
    let v7 = v6 / 256;
    assert(v7 < 256);
    assert(v6 == v6 % 256 + 256 * v7);
    assert(v5 == v5 % 256 + 256 * v6);
    assert(v4 == v4 % 256 + 256 * v5);
    assert(v3 == v3 % 256 + 256 * v4);
    assert(v2 == v2 % 256 + 256 * v3);
    assert(v1 == v1 % 256 + 256 * v2);
    assert(v == v % 256 + 256 * v1);
}

/// Writing the value read from eight bytes gives those bytes.
pub proof fn lemma_u64_value_bytes(b: Seq<u8>, at: int)
    requires
        0 <= at,
        at + 8 <= b.len(),
    ensures
        u64_le_bytes(le_u64(b, at)) == b.subrange(at, at + 8),
{
    let k7: int = b[at + 7] as int;
    let k6: int = b[at + 6] + 256 * k7;
    let k5: int = b[at + 5] + 256 * k6;
    let k4: int = b[at + 4] + 256 * k5;
    let k3: int = b[at + 3] + 256 * k4;
    let k2: int = b[at + 2] + 256 * k3;
    let k1: int = b[at + 1] + 256 * k2;
    let k0: int = b[at] + 256 * k1;
    assert(le_u64(b, at) == k0);
    let v = le_u64(b, at);
    assert(v / 256 == k1 && v % 256 == b[at]);
    assert(k1 / 256 == k2 && k1 % 256 == b[at + 1]);
    assert(k2 / 256 == k3 && k2 % 256 == b[at + 2]);
    assert(k3 / 256 == k4 && k3 % 256 == b[at + 3]);
    assert(k4 / 256 == k5 && k4 % 256 == b[at + 4]);
    assert(k5 / 256 == k6 && k5 % 256 == b[at + 5]);
    assert(k6 / 256 == k7 && k6 % 256 == b[at + 6]);
    assert(k7 % 256 == b[at + 7]);
    assert(u64_le_bytes(v) =~= b.subrange(at, at + 8));
}

/// Where the eight bytes at `at` are those written for `v`, the value read
/// there is `v`.
pub proof fn lemma_u64_at(b: Seq<u8>, at: int, v: u64)
    requires
        0 <= at,
        at + 8 <= b.len(),
        b.subrange(at, at + 8) == u64_le_bytes(v),
    ensures
        le_u64(b, at) == v,
{
    lemma_u64_bytes_value(v);
    let w = b.subrange(at, at + 8);
    assert(forall|i: int| 0 <= i < 8 ==> b[at + i] == w[i]);
    assert(le_u64(b, at) == le_u64(w, 0));
}

/// A buffer that starts with `head + part` holds `head` first and `part`
/// right behind it.
pub proof fn lemma_parts(b: Seq<u8>, head: Seq<u8>, part: Seq<u8>)
    requires
        head.len() + part.len() <= b.len(),
        b.subrange(0, (head.len() + part.len()) as int) == head + part,
    ensures
        b.subrange(0, head.len() as int) == head,
        b.subrange(head.len() as int, (head.len() + part.len()) as int) == part,
{
    let n = head.len() as int;
    let whole = head + part;
    assert forall|i: int| 0 <= i < whole.len() implies b[i] == whole[i] by {
        assert(b.subrange(0, n + part.len())[i] == b[i]);
    }
    assert forall|i: int| 0 <= i < n implies b[i] == head[i] by {
        assert(whole[i] == head[i]);
    }
    assert forall|i: int| 0 <= i < part.len() implies b[n + i] == part[i] by {
        assert(whole[n + i] == part[i]);
    }
    assert(b.subrange(0, n) =~= head);
    assert(b.subrange(n, n + part.len()) =~= part);
}

/// Two neighbouring windows of a buffer make up the window that spans both.
pub proof fn lemma_join(b: Seq<u8>, i: int, j: int, k: int)
    requires
        0 <= i <= j <= k <= b.len(),
    ensures
        b.subrange(i, j) + b.subrange(j, k) == b.subrange(i, k),
{
    assert(b.subrange(i, j) + b.subrange(j, k) =~= b.subrange(i, k));
}

/// Reads a little-endian `u16`.
pub(crate) fn read_u16(buf: &[u8], at: usize) -> (v: u16)
    requires
        at + 2 <= buf.len(),
    ensures
        v == le_u16(buf@, at as int),
{
    let b0: u16 = buf[at] as u16;
    let b1: u16 = buf[at + 1] as u16;
    b0 + b1 * 256
}

/// Reads a little-endian `u32`.
pub(crate) fn read_u32(buf: &[u8], at: usize) -> (v: u32)
    requires
        at + 4 <= buf.len(),
    ensures
        v == le_u32(buf@, at as int),
{
    let b0: u32 = buf[at] as u32;
    let b1: u32 = buf[at + 1] as u32;
    let b2: u32 = buf[at + 2] as u32;
    let b3: u32 = buf[at + 3] as u32;
    b0 + b1 * 256 + b2 * 65536 + b3 * 16777216
}

/// Reads a little-endian `u64`.
pub(crate) fn read_u64(buf: &[u8], at: usize) -> (v: u64)
    requires
        at + 8 <= buf.len(),
    ensures
        v == le_u64(buf@, at as int),
{
    let b0: u64 = buf[at] as u64;
    let b1: u64 = buf[at + 1] as u64;
    let b2: u64 = buf[at + 2] as u64;
    let b3: u64 = buf[at + 3] as u64;
    let b4: u64 = buf[at + 4] as u64;
    let b5: u64 = buf[at + 5] as u64;
    let b6: u64 = buf[at + 6] as u64;
    let b7: u64 = buf[at + 7] as u64;
    b0 + b1 * 256 + b2 * 65536 + b3 * 16777216 + b4 * 4294967296 + b5 * 1099511627776 + b6
        * 281474976710656 + b7 * 72057594037927936
}

/// Appends the eight little-endian bytes of `v`.
pub(crate) fn push_u64(out: &mut Vec<u8>, v: u64)
    ensures
        final(out)@ == old(out)@ + u64_le_bytes(v),
{
    let v1: u64 = v / 256;
    let v2: u64 = v1 / 256;
    let v3: u64 = v2 / 256;
    let v4: u64 = v3 / 256;
    let v5: u64 = v4 / 256;
    let v6: u64 = v5 / 256;
    let v7: u64 = v6 / 256;
    out.push((v % 256) as u8);
    out.push((v1 % 256) as u8);
    out.push((v2 % 256) as u8);
    out.push((v3 % 256) as u8);
    out.push((v4 % 256) as u8);
    out.push((v5 % 256) as u8);
    out.push((v6 % 256) as u8);
    out.push((v7 % 256) as u8);
    assert(out@ =~= old(out)@ + u64_le_bytes(v));
}

} // verus!
