//! The length-prefixed header format of a variable-length block, and a
//! zero-copy view decoded from it.

use vstd::prelude::*;
use vstd::slice::slice_index_get;
use vstd::slice::slice_subrange;
use crate::pg_alloc::PgAllocator;

verus! {

/// Number of bytes in the length-prefix header of a variable-length block.
pub const VAR_HDR_SIZE: usize = 4;

/// The header word of the block at `addr`: its first four bytes, least
/// significant first.
pub open spec fn header_word(mem: Seq<u8>, addr: int) -> u32
    recommends
        0 <= addr,
        addr + VAR_HDR_SIZE <= mem.len(),
{
    (mem[addr] as u32) | ((mem[addr + 1] as u32) << 8) | ((mem[addr + 2] as u32) << 16) | ((mem[
        addr + 3] as u32) << 24)
}

/// The payload length a header word encodes. The two low bits of the word
/// carry control flags, not length: they are masked out, and the remaining
/// bits give the number of payload bytes.
pub open spec fn decoded_len_of_word(w: u32) -> nat {
    (w >> 2) as nat
}

/// The payload length encoded by the header of the block at `addr`.
pub open spec fn decoded_len(mem: Seq<u8>, addr: int) -> nat {
    decoded_len_of_word(header_word(mem, addr))
}

/// The payload bytes of the block at `addr`: they start immediately after
/// the header and run for the decoded length.
pub open spec fn payload_of(mem: Seq<u8>, addr: int) -> Seq<u8>
    recommends
        0 <= addr,
        addr + VAR_HDR_SIZE + decoded_len(mem, addr) <= mem.len(),
{
    mem.subrange(addr + VAR_HDR_SIZE, addr + VAR_HDR_SIZE + decoded_len(mem, addr))
}

/// For every block whose payload lies inside its region, the payload view
/// holds exactly the decoded number of bytes: the length answered from the
/// header, the emptiness test derived from it, and the byte view all agree.
pub proof fn lemma_view_len(mem: Seq<u8>, addr: int)
    requires
        0 <= addr,
        addr + VAR_HDR_SIZE + decoded_len(mem, addr) <= mem.len(),
    ensures
        payload_of(mem, addr).len() == decoded_len(mem, addr),
        payload_of(mem, addr).len() == 0 <==> decoded_len(mem, addr) == 0,
{
}

/// Decoding reads the header alone, never the payload: two regions that
/// agree on the four header bytes of a block decode to the same length. In
/// particular, repeated decodes of an unchanged block give identical
/// results.
pub proof fn lemma_decode_reads_header_only(mem1: Seq<u8>, mem2: Seq<u8>, addr: int)
    requires
        0 <= addr,
        addr + VAR_HDR_SIZE <= mem1.len(),
        addr + VAR_HDR_SIZE <= mem2.len(),
        forall|i: int| addr <= i < addr + VAR_HDR_SIZE ==> mem1[i] == mem2[i],
    ensures
        decoded_len(mem1, addr) == decoded_len(mem2, addr),
{
    assert(mem1[addr] == mem2[addr]);
    assert(mem1[addr + 1] == mem2[addr + 1]);
    assert(mem1[addr + 2] == mem2[addr + 2]);
    assert(mem1[addr + 3] == mem2[addr + 3]);
}

/// Flag bits never disturb the decoded length: a header word that encodes
/// payload length `len` decodes to exactly `len`, whatever flag bits are
/// set beside it.
pub proof fn lemma_flag_bits_masked(len: u32, flags: u32)
    requires
        len < 0x4000_0000,
        flags < 4,
    ensures
        decoded_len_of_word(((len << 2) | flags)) == len,
{
    assert(((len << 2) | flags) >> 2 == len) by (bit_vector)
        requires
            len < 0x4000_0000u32,
            flags < 4u32,
    ;
}

/// A transient, zero-copy view of one variable-length block: the payload
/// length recovered from the block's header, and the position of the first
/// payload byte inside the region. The view owns nothing and is recomputed
/// from a block's handle whenever it is needed; it never caches across a
/// change of the block.
pub struct VarLenA<'mc> {
    alloc: &'mc PgAllocator,
    len: usize,
    payload: usize,
}

impl<'mc> View for VarLenA<'mc> {
    type V = Seq<u8>;

    open spec fn view(&self) -> Seq<u8> {
        self.region().subrange(
            self.payload_addr() as int,
            self.payload_addr() + self.spec_len(),
        )
    }
}

impl<'mc> VarLenA<'mc> {
    /// The bytes of the region the viewed block lives in.
    pub closed spec fn region(&self) -> Seq<u8> {
        self.alloc@
    }

    /// The position of the first payload byte inside the region.
    pub closed spec fn payload_addr(&self) -> usize {
        self.payload
    }

    /// The decoded payload length the view carries.
    pub closed spec fn spec_len(&self) -> usize {
        self.len
    }

    /// A view is well formed when its payload window lies inside its
    /// region, immediately after a header that encodes the window's length.
    pub open spec fn wf(&self) -> bool {
        &&& VAR_HDR_SIZE <= self.payload_addr()
        &&& self.payload_addr() + self.spec_len() <= self.region().len()
        &&& self.spec_len() == decoded_len(self.region(), self.payload_addr() - VAR_HDR_SIZE)
    }

    /// Decodes the header of the block at `ptr`: reads the header word,
    /// masks the flag bits out of it, and places the payload right after
    /// the header. Nothing is copied. The caller guarantees that the header
    /// lies inside the region and that the length it encodes does not
    /// exceed the block's allocation; neither is re-checked at run time.
    pub fn from_varlena(alloc: &'mc PgAllocator, ptr: usize) -> (r: VarLenA<'mc>)
        requires
            ptr + VAR_HDR_SIZE <= alloc@.len(),
            ptr + VAR_HDR_SIZE + decoded_len(alloc@, ptr as int) <= alloc@.len(),
        ensures
            r.wf(),
            r.region() == alloc@,
            r.payload_addr() == ptr + VAR_HDR_SIZE,
            r@ == payload_of(alloc@, ptr as int),
            r@.len() == decoded_len(alloc@, ptr as int),
    {
        let bytes: &[u8] = alloc.bytes();
        let n: usize = bytes.len();
        assert(ptr + VAR_HDR_SIZE <= n);
        let b0: u8 = *slice_index_get(bytes, ptr);
        let b1: u8 = *slice_index_get(bytes, ptr + 1);
        let b2: u8 = *slice_index_get(bytes, ptr + 2);
        let b3: u8 = *slice_index_get(bytes, ptr + 3);
        let w: u32 = (b0 as u32) | ((b1 as u32) << 8) | ((b2 as u32) << 16) | ((b3 as u32) << 24);
        assert(w == header_word(alloc@, ptr as int));
        let len: usize = (w >> 2) as usize;
        VarLenA { alloc, len, payload: ptr + VAR_HDR_SIZE }
    }

    /// The payload length of the viewed block.
    pub fn len(&self) -> (r: usize)
        requires
            self.wf(),
        ensures
            r == self@.len(),
            r == decoded_len(self.region(), self.payload_addr() - VAR_HDR_SIZE),
    {
        self.len
    }

    /// True when the viewed block's payload is empty.
    pub fn is_empty(&self) -> (r: bool)
        requires
            self.wf(),
        ensures
            r <==> self@.len() == 0,
    {
        self.len == 0
    }

    /// The payload as a borrowed byte slice. The slice starts exactly at
    /// header position plus header size and is read in place from the
    /// region: no byte is copied and nothing is allocated.
    pub fn as_slice(&self) -> (r: &'mc [u8])
        requires
            self.wf(),
        ensures
            r@ == self@,
            r@ == self.region().subrange(
                self.payload_addr() as int,
                self.payload_addr() + self@.len(),
            ),
    {
        let bytes: &[u8] = self.alloc.bytes();
        let n: usize = bytes.len();
        assert(self.payload + self.len <= n);
        slice_subrange(bytes, self.payload, self.payload + self.len)
    }
}

} // verus!
