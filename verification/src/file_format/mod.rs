//! The on-disk layout of a vault entry's header.

pub mod header;
