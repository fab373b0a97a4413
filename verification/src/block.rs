//! Blocks: fixed-length runs of bytes, copied byte by byte.

use vstd::prelude::*;

verus! {

/// A copy of `len` bytes of `bytes` from `at` on.
pub fn copy_range(bytes: &Vec<u8>, at: usize, len: usize) -> (r: Vec<u8>)
    requires
        at + len <= bytes@.len(),
    ensures
        r@ == bytes@.subrange(at as int, at + len),
{
    let size: usize = bytes.len();
    let mut out: Vec<u8> = Vec::with_capacity(len);
    let mut i: usize = 0;
    while i < len
        invariant
            i <= len,
            at + len <= bytes@.len(),
            size == bytes@.len(),
            out@ == bytes@.subrange(at as int, at + i),
        decreases len - i,
    {
        out.push(bytes[at + i]);
        i += 1;
        assert(out@ =~= bytes@.subrange(at as int, at + i));
    }
    out
}

/// A copy of a block.
pub fn copy_block(block: &Vec<u8>) -> (r: Vec<u8>)
    ensures
        r@ == block@,
{
    let out = copy_range(block, 0, block.len());
    assert(out@ =~= block@);
    out
}

} // verus!
