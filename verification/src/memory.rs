//! Memory blocks: allocation of zeroed blocks, copying, filling and moving.
//! A block is a byte vector; an empty one stands for no block.
use vstd::prelude::*;

verus! {

/// A zeroed block of `size` bytes; no block for size 0.
pub fn LbMemoryAlloc(size: usize) -> (r: Vec<u8>)
    ensures
        r@.len() == size,
        forall|i: int| 0 <= i < size ==> #[trigger] r@[i] == 0,
{
    if size == 0 {
        return Vec::new();
    }
    vec![0u8; size]
}

/// Frees a block.
pub fn LbMemoryFree(block: Vec<u8>) {
}

/// Nothing to reset: blocks belong to their holders.
pub fn LbMemoryReset() {
}

/// Copies `size` bytes of `src` to the start of `dst`; nothing happens when
/// the size is 0 or either block is missing.
pub fn LbMemoryCopy(dst: &mut [u8], src: &[u8], size: usize)
    requires
        size > 0 && old(dst)@.len() > 0 && src@.len() > 0 ==> size <= old(dst)@.len() && size <= src@.len(),
    ensures
        final(dst)@.len() == old(dst)@.len(),
        size == 0 || old(dst)@.len() == 0 || src@.len() == 0 ==> final(dst)@ == old(dst)@,
        !(size == 0 || old(dst)@.len() == 0 || src@.len() == 0) ==> final(dst)@ == src@.subrange(0, size as int)
            + old(dst)@.subrange(size as int, old(dst)@.len() as int),
{
    if size == 0 || dst.len() == 0 || src.len() == 0 {
        return;
    }
    let mut i: usize = 0;
    while i < size
        invariant
            i <= size,
            size <= dst@.len(),
            size <= src@.len(),
            dst@.len() == old(dst)@.len(),
            forall|k: int| 0 <= k < i ==> #[trigger] dst@[k] == src@[k],
            forall|k: int| i <= k < dst@.len() ==> #[trigger] dst@[k] == old(dst)@[k],
        decreases size - i,
    {
        dst[i] = src[i];
        i = i + 1;
    }
    assert(dst@ =~= src@.subrange(0, size as int) + old(dst)@.subrange(size as int, old(dst)@.len() as int));
}

/// Fills the first `size` bytes of `dst` with `val`; nothing happens when the
/// size is 0 or the block is missing.
pub fn LbMemorySet(dst: &mut [u8], val: u8, size: usize)
    requires
        size <= old(dst)@.len() || old(dst)@.len() == 0,
    ensures
        final(dst)@.len() == old(dst)@.len(),
        forall|k: int| 0 <= k < old(dst)@.len() ==> #[trigger] final(dst)@[k] == if k < size { val } else { old(dst)@[k] },
{
    if size == 0 || dst.len() == 0 {
        return;
    }
    let mut i: usize = 0;
    while i < size
        invariant
            i <= size,
            size <= dst@.len(),
            dst@.len() == old(dst)@.len(),
            forall|k: int| 0 <= k < i ==> #[trigger] dst@[k] == val,
            forall|k: int| i <= k < dst@.len() ==> #[trigger] dst@[k] == old(dst)@[k],
        decreases size - i,
    {
        dst[i] = val;
        i = i + 1;
    }
}

/// Moves `size` bytes within `buf` from offset `src` to offset `dst`; the
/// ranges may overlap, and the bytes land as they were before the move.
pub fn LbMemoryMove(buf: &mut [u8], dst: usize, src: usize, size: usize)
    requires
        dst + size <= old(buf)@.len(),
        src + size <= old(buf)@.len(),
    ensures
        final(buf)@.len() == old(buf)@.len(),
        forall|k: int|
            0 <= k < old(buf)@.len() ==> #[trigger] final(buf)@[k] == if dst <= k < dst + size {
                old(buf)@[k - dst + src]
            } else {
                old(buf)@[k]
            },
{
    if size == 0 {
        return;
    }
    let n = buf.len();
    if dst <= src {
        let mut i: usize = 0;
        while i < size
            invariant
                i <= size,
                dst <= src,
                n == buf@.len(),
                dst + size <= buf@.len(),
                src + size <= buf@.len(),
                buf@.len() == old(buf)@.len(),
                forall|k: int| 0 <= k < buf@.len() ==> #[trigger] buf@[k] == if dst <= k < dst + i {
                    old(buf)@[k - dst + src]
                } else {
                    old(buf)@[k]
                },
            decreases size - i,
        {
            let b = buf[src + i];
            buf[dst + i] = b;
            i = i + 1;
        }
    } else {
        let mut i: usize = size;
        while i > 0
            invariant
                i <= size,
                dst > src,
                n == buf@.len(),
                dst + size <= buf@.len(),
                src + size <= buf@.len(),
                buf@.len() == old(buf)@.len(),
                forall|k: int| 0 <= k < buf@.len() ==> #[trigger] buf@[k] == if dst + i <= k < dst + size {
                    old(buf)@[k - dst + src]
                } else {
                    old(buf)@[k]
                },
            decreases i,
        {
            i = i - 1;
            let b = buf[src + i];
            buf[dst + i] = b;
        }
    }
}

} // verus!
