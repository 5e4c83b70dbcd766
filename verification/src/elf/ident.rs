//! The identity block: the first sixteen bytes of an ELF file.

use crate::elf::defs::class_known;
use crate::elf::defs::ELF_EI_ABIVERSION;
use crate::elf::defs::ELF_EI_CLASS;
use crate::elf::defs::ELF_EI_DATA;
use crate::elf::defs::ELF_EI_NIDENT;
use crate::elf::defs::ELF_EI_OSABI;
use crate::elf::defs::ELF_EI_VERSION;
use crate::elf::defs::ELF_CLASS32;
use crate::elf::defs::ELF_CLASS64;
use crate::elf::defs::ELF_MAGIC;
use crate::elf::error::ParseError;
use crate::elf::error::ParseFailure;
use vstd::prelude::*;

verus! {

/// The fields of the identity block.
#[derive(Clone, Copy, Debug, PartialEq, Eq)]
pub struct ParsedIdent {
    pub magic: [u8; 4],
    pub class: u8,
    pub endianness: u8,
    pub version: u8,
    pub abi: u8,
    pub abi_ver: u8,
}

/// The mathematical value of a `ParsedIdent`.
pub struct IdentView {
    pub magic: Seq<u8>,
    pub class: u8,
    pub endianness: u8,
    pub version: u8,
    pub abi: u8,
    pub abi_ver: u8,
}

impl View for ParsedIdent {
    type V = IdentView;

    open spec fn view(&self) -> IdentView {
        IdentView {
            magic: self.magic@,
            class: self.class,
            endianness: self.endianness,
            version: self.version,
            abi: self.abi,
            abi_ver: self.abi_ver,
        }
    }
}

/// The identity record that the first bytes of a file hold.
pub open spec fn ident_of(bytes: Seq<u8>) -> IdentView
    recommends
        bytes.len() >= ELF_EI_NIDENT,
{
    IdentView {
        magic: bytes.subrange(0, 4),
        class: bytes[ELF_EI_CLASS as int],
        endianness: bytes[ELF_EI_DATA as int],
        version: bytes[ELF_EI_VERSION as int],
        abi: bytes[ELF_EI_OSABI as int],
        abi_ver: bytes[ELF_EI_ABIVERSION as int],
    }
}

/// The first check that a buffer fails on its way to an identity record:
/// its length, then its magic bytes, then its class.  `None` where it
/// passes all three.
pub open spec fn gate_failure(bytes: Seq<u8>) -> Option<ParseFailure> {
    if bytes.len() < ELF_EI_NIDENT {
        Some(ParseFailure::TooSmall)
    } else if bytes.subrange(0, 4) != ELF_MAGIC@ {
        Some(ParseFailure::BadMagic)
    } else if !class_known(bytes[ELF_EI_CLASS as int]) {
        Some(ParseFailure::UnknownClass(bytes[ELF_EI_CLASS as int]))
    } else {
        None
    }
}

impl ParsedIdent {
    /// Reads the identity record off the start of `buf`, unchecked.
    pub fn from_bytes(buf: &Vec<u8>) -> (ident: ParsedIdent)
        requires
            buf@.len() >= ELF_EI_NIDENT,
        ensures
            ident@ == ident_of(buf@),
    {
        let ident = ParsedIdent {
            magic: [buf[0], buf[1], buf[2], buf[3]],
            class: buf[ELF_EI_CLASS],
            endianness: buf[ELF_EI_DATA],
            version: buf[ELF_EI_VERSION],
            abi: buf[ELF_EI_OSABI],
            abi_ver: buf[ELF_EI_ABIVERSION],
        };
        assert(ident.magic@ =~= buf@.subrange(0, 4));
        ident
    }

    /// Whether the record starts with the magic bytes.
    pub fn has_magic(&self) -> (found: bool)
        ensures
            found == (self@.magic == ELF_MAGIC@),
    {
        let found = self.magic[0] == ELF_MAGIC[0] && self.magic[1] == ELF_MAGIC[1] && self.magic[2]
            == ELF_MAGIC[2] && self.magic[3] == ELF_MAGIC[3];
        assert(found ==> self.magic@ =~= ELF_MAGIC@);
        found
    }

    /// Reads the identity record off the start of `buf` and checks what the
    /// rest of a parse relies on: that the block is all there, that it
    /// starts with the magic bytes and that its class is known.
    pub fn parse(buf: &Vec<u8>) -> (r: Result<ParsedIdent, ParseError>)
        ensures
            match r {
                Ok(ident) => gate_failure(buf@) is None && ident@ == ident_of(buf@),
                Err(e) => gate_failure(buf@) == Some(e@),
            },
    {
        if buf.len() < ELF_EI_NIDENT {
            return Err(ParseError::TooSmall);
        }
        let ident = ParsedIdent::from_bytes(buf);
        if !ident.has_magic() {
            return Err(ParseError::BadMagic);
        }
        if ident.class != ELF_CLASS32 && ident.class != ELF_CLASS64 {
            return Err(ParseError::UnknownClass(ident.class));
        }
        Ok(ident)
    }
}

} // verus!
