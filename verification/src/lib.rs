//! Zero-copy access to variable-length binary values that live in memory
//! owned by a host runtime's memory manager.
//!
//! The host hands out block addresses inside an allocation region that it
//! alone creates, validates and tears down. [`pg_alloc`] models such a
//! region and exclusive ownership of one block inside it; [`varlena`]
//! decodes the length-prefixed header that a block begins with; [`bytea`]
//! combines the two into a read-only byte view that never copies the
//! payload and can hand ownership back to the host exactly once.

pub mod bytea;
pub mod pg_alloc;
pub mod varlena;
