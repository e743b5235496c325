//! Little-endian byte encodings and byte-vector helpers.
use vstd::prelude::*;
use vstd::bytes::{spec_u32_to_le_bytes, spec_u64_to_le_bytes, u32_to_le_bytes, u64_to_le_bytes};

verus! {

/// Little-endian bytes of a `u32`.
pub open spec fn le_u32(x: u32) -> Seq<u8> {
    spec_u32_to_le_bytes(x)
}

/// Little-endian bytes of a `u64`.
pub open spec fn le_u64(x: u64) -> Seq<u8> {
    spec_u64_to_le_bytes(x)
}

/// Little-endian bytes of an `i64` (two's complement, as `i64::to_le_bytes`).
pub open spec fn le_i64(x: i64) -> Seq<u8> {
    spec_u64_to_le_bytes(x as u64)
}

/// Appends every byte of `src` to `out`.
pub fn append_bytes(out: &mut Vec<u8>, src: &[u8])
    ensures
        final(out)@ == old(out)@ + src@,
{
    let ghost start = out@;
    let mut i: usize = 0;
    while i < src.len()
        invariant
            i <= src@.len(),
            out@ == start + src@.subrange(0, i as int),
        decreases src@.len() - i,
    {
        out.push(src[i]);
        i = i + 1;
        assert(out@ =~= start + src@.subrange(0, i as int));
    }
    assert(src@.subrange(0, src@.len() as int) =~= src@);
}

/// Appends the little-endian encoding of a `u32`.
pub fn push_u32_le(out: &mut Vec<u8>, x: u32)
    ensures
        final(out)@ == old(out)@ + le_u32(x),
{
    let b = u32_to_le_bytes(x);
    append_bytes(out, b.as_slice());
}

/// Appends the little-endian encoding of a `u64`.
pub fn push_u64_le(out: &mut Vec<u8>, x: u64)
    ensures
        final(out)@ == old(out)@ + le_u64(x),
{
    let b = u64_to_le_bytes(x);
    append_bytes(out, b.as_slice());
}

/// Appends the little-endian encoding of an `i64`.
pub fn push_i64_le(out: &mut Vec<u8>, x: i64)
    ensures
        final(out)@ == old(out)@ + le_i64(x),
{
    #[verifier::truncate]
    let u: u64 = x as u64;
    push_u64_le(out, u);
}

/// Whether every byte of a sequence is zero.
pub open spec fn all_zero(s: Seq<u8>) -> bool {
    forall|i: int| 0 <= i < s.len() ==> s[i] == 0
}

/// Tests whether every byte of `s` is zero.
pub fn is_all_zero(s: &[u8]) -> (r: bool)
    ensures
        r == all_zero(s@),
{
    let mut i: usize = 0;
    while i < s.len()
        invariant
            i <= s@.len(),
            forall|j: int| 0 <= j < i ==> s@[j] == 0,
        decreases s@.len() - i,
    {
        if s[i] != 0 {
            return false;
        }
        i = i + 1;
    }
    true
}

} // verus!
