//! Identity-header parsing and byte-range annotation for ELF images.
//!
//! The crate turns the fixed sixteen-byte identity block of an ELF file into
//! display rows and records, per byte offset, which structural fields begin
//! and end there.  Every executable function is verified against the
//! contract written on it.

pub mod elf;
