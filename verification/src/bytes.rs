//! Little-endian field decoding for packed native records.
//!
//! A native task-information record is a packed sequence of fixed-width
//! little-endian integers. These helpers give each field width one spec-level
//! meaning and one executable reader proved against it.

use vstd::prelude::*;

verus! {

/// Mathematical value of the 4 little-endian bytes starting at `off`.
pub open spec fn le32(b: Seq<u8>, off: int) -> int
    recommends
        0 <= off,
        off + 4 <= b.len(),
{
    b[off] + b[off + 1] * 0x100 + b[off + 2] * 0x1_0000 + b[off + 3] * 0x100_0000
}

/// Mathematical value of the 8 little-endian bytes starting at `off`.
pub open spec fn le64(b: Seq<u8>, off: int) -> int
    recommends
        0 <= off,
        off + 8 <= b.len(),
{
    le32(b, off) + le32(b, off + 4) * 0x1_0000_0000
}

/// The `u32` field stored at byte offset `off`.
pub open spec fn u32_at(b: Seq<u8>, off: int) -> u32 {
    le32(b, off) as u32
}

/// The `u64` field stored at byte offset `off`.
pub open spec fn u64_at(b: Seq<u8>, off: int) -> u64 {
    le64(b, off) as u64
}

/// The `i32` field stored at byte offset `off`: the same four bytes as the
/// unsigned field, reinterpreted as a two's-complement signed value.
pub open spec fn i32_at(b: Seq<u8>, off: int) -> i32 {
    u32_at(b, off) as i32
}

/// The value of 4 little-endian bytes fits in a `u32`.
pub proof fn lemma_le32_bounds(b: Seq<u8>, off: int)
    requires
        0 <= off,
        off + 4 <= b.len(),
    ensures
        0 <= le32(b, off) < 0x1_0000_0000,
        u32_at(b, off) == le32(b, off),
{
}

/// The value of 8 little-endian bytes fits in a `u64`.
pub proof fn lemma_le64_bounds(b: Seq<u8>, off: int)
    requires
        0 <= off,
        off + 8 <= b.len(),
    ensures
        0 <= le64(b, off) < 0x1_0000_0000_0000_0000,
        u64_at(b, off) == le64(b, off),
{
    lemma_le32_bounds(b, off);
    lemma_le32_bounds(b, off + 4);
}

/// Two byte strings with equal prefixes of length `n` agree byte for byte
/// inside those prefixes.
pub proof fn lemma_prefix_agreement(b1: Seq<u8>, b2: Seq<u8>, n: int)
    requires
        0 <= n <= b1.len(),
        n <= b2.len(),
        b1.subrange(0, n) == b2.subrange(0, n),
    ensures
        forall|j: int| 0 <= j < n ==> b1[j] == b2[j],
{
    assert forall|j: int| 0 <= j < n implies b1[j] == b2[j] by {
        assert(b1.subrange(0, n)[j] == b1[j]);
        assert(b2.subrange(0, n)[j] == b2[j]);
    }
}

/// Reads the `u32` field at byte offset `off`.
pub fn read_u32(b: &[u8], off: usize) -> (r: u32)
    requires
        off + 4 <= b@.len(),
    ensures
        r == u32_at(b@, off as int),
{
    proof {
        lemma_le32_bounds(b@, off as int);
    }
    let b0: u32 = b[off] as u32;
    let b1: u32 = b[off + 1] as u32;
    let b2: u32 = b[off + 2] as u32;
    let b3: u32 = b[off + 3] as u32;
    b0 + b1 * 0x100 + b2 * 0x1_0000 + b3 * 0x100_0000
}

/// Reads the `u64` field at byte offset `off`.
pub fn read_u64(b: &[u8], off: usize) -> (r: u64)
    requires
        off + 8 <= b@.len(),
    ensures
        r == u64_at(b@, off as int),
{
    proof {
        lemma_le64_bounds(b@, off as int);
        lemma_le32_bounds(b@, off as int);
        lemma_le32_bounds(b@, off + 4);
    }
    let _n: usize = b.len();
    let lo: u64 = read_u32(b, off) as u64;
    let hi: u64 = read_u32(b, off + 4) as u64;
    lo + hi * 0x1_0000_0000
}

/// Reads the `i32` field at byte offset `off`.
pub fn read_i32(b: &[u8], off: usize) -> (r: i32)
    requires
        off + 4 <= b@.len(),
    ensures
        r == i32_at(b@, off as int),
{
    let u: u32 = read_u32(b, off);
    #[verifier::truncate] (u as i32)
}

} // verus!

