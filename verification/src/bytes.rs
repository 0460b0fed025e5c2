//! Small byte-buffer helpers shared by the codec layers.

use vstd::prelude::*;

verus! {

/// Copy `src[from..to]` into a fresh vector.
pub fn copy_range(src: &[u8], from: usize, to: usize) -> (r: Vec<u8>)
    requires
        from <= to <= src@.len(),
    ensures
        r@ == src@.subrange(from as int, to as int),
{
    let mut v: Vec<u8> = Vec::new();
    let mut i: usize = from;
    while i < to
        invariant
            from <= i <= to <= src@.len(),
            v@ =~= src@.subrange(from as int, i as int),
        decreases to - i,
    {
        v.push(src[i]);
        i = i + 1;
    }
    assert(v@ =~= src@.subrange(from as int, to as int));
    v
}

/// Append all of `src` to `dst`.
pub fn push_all(dst: &mut Vec<u8>, src: &[u8])
    ensures
        final(dst)@ == old(dst)@ + src@,
{
    let mut i: usize = 0;
    while i < src.len()
        invariant
            i <= src@.len(),
            dst@ =~= old(dst)@ + src@.subrange(0, i as int),
        decreases src@.len() - i,
    {
        let b = src[i];
        dst.push(b);
        i = i + 1;
    }
    assert(dst@ =~= old(dst)@ + src@);
}

/// The 16-bit big-endian value of two bytes.
pub open spec fn spec_u16_be(hi: u8, lo: u8) -> int {
    (hi as int) * 256 + (lo as int)
}

/// The 32-bit big-endian value of four bytes.
pub open spec fn spec_u32_be(b0: u8, b1: u8, b2: u8, b3: u8) -> int {
    (((b0 as int) * 256 + (b1 as int)) * 256 + (b2 as int)) * 256 + (b3 as int)
}

/// Read a 16-bit big-endian value.
pub fn u16_from_be(hi: u8, lo: u8) -> (r: u16)
    ensures
        r as int == spec_u16_be(hi, lo),
{
    (hi as u16) * 256 + (lo as u16)
}

/// Read a 32-bit big-endian value.
pub fn u32_from_be(b0: u8, b1: u8, b2: u8, b3: u8) -> (r: u32)
    ensures
        r as int == spec_u32_be(b0, b1, b2, b3),
{
    (((b0 as u32) * 256 + (b1 as u32)) * 256 + (b2 as u32)) * 256 + (b3 as u32)
}

} // verus!
