//! Bump allocation over a fixed heap range.
//!
//! The allocator hands out addresses from a region it never reclaims:
//! each allocation aligns the high-water mark up and advances it.  The
//! hardware version keeps the mark in an atomic word and returns a raw
//! pointer; here the address arithmetic itself is verified, and a
//! failed allocation reports `None` instead of faulting.

use vstd::prelude::*;

verus! {

/// The next address at or above `next` aligned to `align`.
pub open spec fn align_up(next: int, align: int) -> int {
    if next % align == 0 {
        next
    } else {
        next + align - next % align
    }
}

/// A bump allocator: the heap bounds and the high-water mark.
pub struct BumpAllocator {
    pub heap_start: usize,
    pub heap_end: usize,
    /// First free address; everything below (and at or above
    /// `heap_start`) is already handed out.
    pub next: usize,
}

impl BumpAllocator {
    /// The mark stays inside the heap range.
    pub open spec fn wf(&self) -> bool {
        self.heap_start <= self.next <= self.heap_end
    }

    /// A fresh allocator over `heap_size` bytes starting at `heap_start`.
    pub fn new(heap_start: usize, heap_size: usize) -> (r: BumpAllocator)
        requires
            heap_start + heap_size <= usize::MAX,
        ensures
            r.wf(),
            r.heap_start == heap_start,
            r.heap_end == heap_start + heap_size,
            r.next == heap_start,
    {
        BumpAllocator { heap_start, heap_end: heap_start + heap_size, next: heap_start }
    }

    /// The bump step behind the allocator entry point: allocates `size` bytes aligned to `align`: the mark is aligned
    /// up and advanced past the block.  `None` when the aligned block
    /// would not fit in the heap (or in the address space), with the
    /// mark unchanged.
    pub fn allocate(&mut self, size: usize, align: usize) -> (r: Option<usize>)
        requires
            old(self).wf(),
            align >= 1,
        ensures
            final(self).wf(),
            final(self).heap_start == old(self).heap_start,
            final(self).heap_end == old(self).heap_end,
            ({
                let aligned = align_up(old(self).next as int, align as int);
                &&& ((r is Some) <==> aligned + size <= old(self).heap_end)
                &&& (r matches Some(addr) ==> addr == aligned && addr as int % align as int == 0
                        && old(self).next <= addr && final(self).next == aligned + size)
                &&& (r is None ==> final(self).next == old(self).next)
            }),
    {
        let rem = self.next % align;
        let addr: usize;
        if rem == 0 {
            addr = self.next;
            proof {
                lemma_align_divides(self.next as int, align as int);
            }
        } else {
            let pad = align - rem;
            if self.next > usize::MAX - pad {
                proof {
                    assert(align_up(self.next as int, align as int) + size
                        > self.heap_end);
                }
                return None;
            }
            addr = self.next + pad;
            proof {
                lemma_align_divides(self.next as int, align as int);
            }
        }
        if addr > self.heap_end {
            return None;
        }
        if size > self.heap_end - addr {
            return None;
        }
        self.next = addr + size;
        Some(addr)
    }
}

/// The aligned-up address is divisible by the alignment and does not
/// fall below the original mark.
proof fn lemma_align_divides(next: int, align: int)
    requires
        0 <= next,
        1 <= align,
    ensures
        align_up(next, align) % align == 0,
        next <= align_up(next, align) < next + align,
{
    let rem = next % align;
    assert(0 <= rem < align) by (nonlinear_arith)
        requires
            0 <= next,
            1 <= align,
            rem == next % align,
    ;
    if rem != 0 {
        assert((next + align - rem) % align == 0) by (nonlinear_arith)
            requires
                1 <= align,
                0 <= next,
                rem == next % align,
                rem != 0,
        ;
    }
}

} // verus!
