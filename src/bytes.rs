use vstd::prelude::*;

use vstd::arithmetic::div_mod::{lemma_div_denominator, lemma_mod_breakdown};

verus! {

/// `n` bytes starting at `off` lie inside `b`.
pub open spec fn in_bounds(b: Seq<u8>, off: int, n: int) -> bool {
    0 <= off && 0 <= n && off + n <= b.len()
}

/// Little-endian 16-bit value at `off`.
pub open spec fn le16(b: Seq<u8>, off: int) -> nat {
    b[off] as nat + 256 * (b[off + 1] as nat)
}

/// Little-endian 32-bit value at `off`.
pub open spec fn le32(b: Seq<u8>, off: int) -> nat {
    le16(b, off) + 65536 * le16(b, off + 2)
}

/// Little-endian 64-bit value at `off`.
pub open spec fn le64(b: Seq<u8>, off: int) -> nat {
    le32(b, off) + 4294967296 * le32(b, off + 4)
}

pub fn read_u16(b: &[u8], off: usize) -> (r: u16)
    requires
        in_bounds(b@, off as int, 2),
    ensures
        r as nat == le16(b@, off as int),
{
    b[off] as u16 + (b[off + 1] as u16) * 256
}

pub fn read_u32(b: &[u8], off: usize) -> (r: u32)
    requires
        in_bounds(b@, off as int, 4),
    ensures
        r as nat == le32(b@, off as int),
{
    // The slice's length, and so every offset inside it, fits in a usize.
    assert(b@.len() == b.len());
    let lo = read_u16(b, off);
    let hi = read_u16(b, off + 2);
    lo as u32 + (hi as u32) * 65536
}

pub fn read_u64(b: &[u8], off: usize) -> (r: u64)
    requires
        in_bounds(b@, off as int, 8),
    ensures
        r as nat == le64(b@, off as int),
{
    // The slice's length, and so every offset inside it, fits in a usize.
    assert(b@.len() == b.len());
    let lo = read_u32(b, off);
    let hi = read_u32(b, off + 4);
    lo as u64 + (hi as u64) * 4294967296
}

/// The bytes `b[from..to]`, copied.
pub fn copy_range(b: &[u8], from: usize, to: usize) -> (r: Vec<u8>)
    requires
        from <= to <= b@.len(),
    ensures
        r@ == b@.subrange(from as int, to as int),
{
    let mut v: Vec<u8> = Vec::with_capacity(to - from);
    let mut i: usize = from;
    while i < to
        invariant
            from <= i <= to <= b@.len(),
            v@ == b@.subrange(from as int, i as int),
        decreases to - i,
    {
        v.push(b[i]);
        i = i + 1;
        proof {
            assert(v@ =~= b@.subrange(from as int, i as int));
        }
    }
    v
}

/// The `k`-th byte of `v`, least significant first.
pub open spec fn byte_of(v: nat, k: nat) -> u8
    decreases k,
{
    if k == 0 {
        (v % 256) as u8
    } else {
        byte_of(v / 256, (k - 1) as nat)
    }
}

proof fn lemma_byte_shift2(w: nat, k: nat)
    ensures
        byte_of(w, k + 2) == byte_of(w / 65536, k),
{
    assert(byte_of(w, k + 2) == byte_of(w / 256, k + 1));
    assert(byte_of(w / 256, k + 1) == byte_of(w / 256 / 256, k));
    lemma_div_denominator(w as int, 256, 256);
}

proof fn lemma_byte_shift4(w: nat, k: nat)
    ensures
        byte_of(w, k + 4) == byte_of(w / 4294967296, k),
{
    lemma_byte_shift2(w, k + 2);
    lemma_byte_shift2(w / 65536, k);
    lemma_div_denominator(w as int, 65536, 65536);
}

/// Bytes `off..off + n` of `b` are the first `n` bytes of `w`.
pub open spec fn holds_bytes(b: Seq<u8>, off: int, w: nat, n: nat) -> bool {
    in_bounds(b, off, n as int) && forall|k: nat| k < n ==> #[trigger] b[off + k] == byte_of(w, k)
}

pub proof fn lemma_le16_of(b: Seq<u8>, off: int, w: nat)
    requires
        holds_bytes(b, off, w, 2),
    ensures
        le16(b, off) == w % 65536,
{
    assert(b[off + 0nat] == byte_of(w, 0));
    assert(b[off + 1nat] == byte_of(w, 1));
    assert(byte_of(w, 1) == byte_of(w / 256, 0));
    lemma_mod_breakdown(w as int, 256, 256);
}

pub proof fn lemma_le32_of(b: Seq<u8>, off: int, w: nat)
    requires
        holds_bytes(b, off, w, 4),
    ensures
        le32(b, off) == w % 4294967296,
{
    lemma_le16_of(b, off, w);
    assert forall|k: nat| k < 2 implies #[trigger] b[(off + 2) + k] == byte_of(w / 65536, k) by {
        assert(b[off + (k + 2) as nat] == byte_of(w, (k + 2) as nat));
        lemma_byte_shift2(w, k);
    }
    lemma_le16_of(b, off + 2, w / 65536);
    lemma_mod_breakdown(w as int, 65536, 65536);
}

pub proof fn lemma_le64_of(b: Seq<u8>, off: int, w: nat)
    requires
        holds_bytes(b, off, w, 8),
    ensures
        le64(b, off) == w % 18446744073709551616,
{
    lemma_le32_of(b, off, w);
    assert forall|k: nat| k < 4 implies #[trigger] b[(off + 4) + k] == byte_of(w / 4294967296, k) by {
        assert(b[off + (k + 4) as nat] == byte_of(w, (k + 4) as nat));
        lemma_byte_shift4(w, k);
    }
    lemma_le32_of(b, off + 4, w / 4294967296);
    lemma_mod_breakdown(w as int, 4294967296, 4294967296);
}

} // verus!
