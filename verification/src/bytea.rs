//! A zero-overhead view of `bytea` data owned by the host.

use vstd::prelude::*;
use crate::pg_alloc::PgAllocated;
use crate::pg_alloc::PgAllocator;
use crate::varlena::VAR_HDR_SIZE;
use crate::varlena::VarLenA;
use crate::varlena::decoded_len;
use crate::varlena::payload_of;

verus! {

/// A zero-copy view of `bytea` data from the host.
///
/// A value of this type exclusively owns one variable-length block through
/// a [`PgAllocated`] handle. Every query decodes the block's header afresh
/// — nothing is cached, so nothing can go stale — and the payload is read
/// in place from the host's region, never copied. Ownership of the block
/// can be handed back to the host exactly once, by consuming the value.
pub struct ByteA<'mc>(PgAllocated<'mc>);

impl<'mc> View for ByteA<'mc> {
    type V = Seq<u8>;

    open spec fn view(&self) -> Seq<u8> {
        payload_of(self.region(), self.addr() as int)
    }
}

impl<'mc> ByteA<'mc> {
    /// The address of the owned block.
    pub closed spec fn addr(&self) -> usize {
        self.0.addr()
    }

    /// The bytes of the region the owned block lives in.
    pub closed spec fn region(&self) -> Seq<u8> {
        self.0.region()
    }

    /// A blob is well formed when its address is non-null and the header
    /// it points at, together with the payload length that the header
    /// encodes, lies inside the region. This is the caller contract every
    /// query relies on: the header is never re-validated at run time.
    pub open spec fn wf(&self) -> bool {
        &&& self.addr() != 0
        &&& self.addr() + VAR_HDR_SIZE + decoded_len(self.region(), self.addr() as int)
            <= self.region().len()
    }

    /// Create from the raw address of the host's data.
    ///
    /// The caller guarantees that `data_ptr` is non-null, points at a
    /// block allocated inside `alloc`'s region, and is not owned by any
    /// other value. Beyond non-nullness, nothing is validated.
    pub fn from_raw(alloc: &'mc PgAllocator, data_ptr: usize) -> (r: ByteA<'mc>)
        requires
            data_ptr != 0,
        ensures
            r.addr() == data_ptr,
            r.region() == alloc@,
    {
        ByteA(PgAllocated::from_raw(alloc, data_ptr))
    }

    /// Convert into the underlying address, consuming the value.
    ///
    /// This hands ownership of the block back to the host side. It is a
    /// one-shot operation: the value is gone afterwards, so no use of it —
    /// and no second extraction — can even be written.
    pub fn into_ptr(self) -> (r: usize)
        ensures
            r == self.addr(),
    {
        self.0.take_ptr()
    }

    /// Return true if this is empty.
    pub fn is_empty(&self) -> (r: bool)
        requires
            self.wf(),
        ensures
            r <==> self@.len() == 0,
    {
        self.len() == 0
    }

    /// Return the length of the `bytea` data, re-derived from the block's
    /// header on every call.
    pub fn len(&self) -> (r: usize)
        requires
            self.wf(),
        ensures
            r == self@.len(),
            r == decoded_len(self.region(), self.addr() as int),
    {
        let varlena = VarLenA::from_varlena(self.0.allocator(), self.0.ptr());
        varlena.len()
    }

    /// The payload as a borrowed byte slice, valid while the value (and
    /// transitively its region) is. The slice begins exactly at the block's
    /// address plus the header size and is read in place: no byte is
    /// copied, nothing is allocated, and nothing can be written through it.
    pub fn as_bytes(&self) -> (r: &[u8])
        requires
            self.wf(),
        ensures
            r@ == self@,
            r@ == self.region().subrange(
                self.addr() + VAR_HDR_SIZE,
                self.addr() + VAR_HDR_SIZE + self@.len(),
            ),
    {
        let varlena = VarLenA::from_varlena(self.0.allocator(), self.0.ptr());
        varlena.as_slice()
    }
}

} // verus!
