//! The host's allocation scope, and exclusive ownership of one block in it.

use vstd::prelude::*;

verus! {

/// A bounded region of memory managed by the host runtime.
///
/// Every block address the host hands out points into one such region and
/// stays meaningful only while the region does. The region is created and
/// torn down by the host alone; this crate only ever borrows it, so every
/// handle and view below is tied to the region's lifetime and cannot
/// observe memory after the region is gone.
pub struct PgAllocator {
    mem: Vec<u8>,
}

impl View for PgAllocator {
    type V = Seq<u8>;

    closed spec fn view(&self) -> Seq<u8> {
        self.mem@
    }
}

impl PgAllocator {
    /// Wraps the bytes of a region that the host has set up.
    pub fn from_region(mem: Vec<u8>) -> (r: PgAllocator)
        ensures
            r@ == mem@,
    {
        PgAllocator { mem }
    }

    /// Read-only access to the region's bytes, for decoders.
    pub fn bytes(&self) -> (r: &[u8])
        ensures
            r@ == self@,
    {
        self.mem.as_slice()
    }
}

/// Exclusive ownership of one host-allocated block.
///
/// A handle pairs a non-null block address with the region that validates
/// it; at most one handle owns a given block at a time. Dropping a handle
/// frees nothing — the block is reclaimed when the host tears its region
/// down — while [`PgAllocated::take_ptr`] consumes the handle and returns
/// the address, handing ownership back to the host side. Because
/// extraction takes the handle by value, a handle is either owning or
/// gone: using one after extraction is rejected at compile time, and no
/// second extraction is possible.
pub struct PgAllocated<'mc> {
    alloc: &'mc PgAllocator,
    ptr: usize,
}

impl<'mc> PgAllocated<'mc> {
    /// The address of the owned block.
    pub closed spec fn addr(&self) -> usize {
        self.ptr
    }

    /// The bytes of the region the owned block lives in.
    pub closed spec fn region(&self) -> Seq<u8> {
        self.alloc@
    }

    /// A handle is well formed when its address is non-null.
    pub open spec fn wf(&self) -> bool {
        self.addr() != 0
    }

    /// Claims ownership of the block at `ptr` inside `alloc`'s region.
    ///
    /// The caller guarantees that `ptr` is non-null, that the block was
    /// allocated inside that region, and that no other handle owns it.
    pub fn from_raw(alloc: &'mc PgAllocator, ptr: usize) -> (r: PgAllocated<'mc>)
        requires
            ptr != 0,
        ensures
            r.addr() == ptr,
            r.region() == alloc@,
            r.wf(),
    {
        PgAllocated { alloc, ptr }
    }

    /// Yields the owned address for a decoder; ownership stays with the
    /// handle.
    pub fn ptr(&self) -> (r: usize)
        ensures
            r == self.addr(),
    {
        self.ptr
    }

    /// Borrows the region the owned block lives in.
    pub fn allocator(&self) -> (r: &'mc PgAllocator)
        ensures
            r@ == self.region(),
    {
        self.alloc
    }

    /// Extracts the owned address, consuming the handle.
    ///
    /// This is the one-shot transfer back to the host side: after it, the
    /// handle no longer exists, so its destruction performs nothing and the
    /// caller alone is responsible for the block.
    pub fn take_ptr(self) -> (r: usize)
        ensures
            r == self.addr(),
    {
        self.ptr
    }
}

} // verus!
