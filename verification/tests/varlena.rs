//! Behaviour of the header decoder and of the ownership handle on their
//! own, below the blob type.

use pg_extend::pg_alloc::PgAllocated;
use pg_extend::pg_alloc::PgAllocator;
use pg_extend::varlena::VarLenA;

#[test]
fn decoded_view_starts_right_after_the_header() {
    let region: Vec<u8> = vec![0xAA, 12, 0, 0, 0, 10, 20, 30];
    let alloc = PgAllocator::from_region(region);
    let v = VarLenA::from_varlena(&alloc, 1);
    assert_eq!(v.len(), 3);
    assert!(!v.is_empty());
    // Zero copy: the slice is the region's own bytes from position 5 on,
    // that is from header address 1 plus the four header bytes.
    assert_eq!(v.as_slice(), &alloc.bytes()[5..8]);
}

#[test]
fn view_of_empty_block() {
    let region: Vec<u8> = vec![0xAA, 1, 0, 0, 0];
    let alloc = PgAllocator::from_region(region);
    let v = VarLenA::from_varlena(&alloc, 1);
    assert_eq!(v.len(), 0);
    assert!(v.is_empty());
    assert_eq!(v.as_slice(), &[] as &[u8]);
}

#[test]
fn flag_bit_masked_at_the_view_level() {
    // Header word 13 = (3 << 2) | 1: length 3 with the low flag bit set.
    let region: Vec<u8> = vec![0xAA, 13, 0, 0, 0, 7, 8, 9];
    let alloc = PgAllocator::from_region(region);
    let v = VarLenA::from_varlena(&alloc, 1);
    assert_eq!(v.len(), 3);
    assert_eq!(v.as_slice(), &[7, 8, 9]);
}

#[test]
fn handle_keeps_the_address_until_taken() {
    let region: Vec<u8> = vec![0xAA, 0, 0, 0, 0];
    let alloc = PgAllocator::from_region(region);
    let h = PgAllocated::from_raw(&alloc, 1);
    assert_eq!(h.ptr(), 1);
    assert_eq!(h.ptr(), 1);
    let back: usize = h.take_ptr();
    assert_eq!(back, 1);
}
