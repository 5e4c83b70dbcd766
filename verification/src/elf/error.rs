//! Why a parse was given up.

use crate::elf::text::decimal;
use crate::elf::text::push_decimal;
use vstd::prelude::*;
use vstd::string::StringExecFns;

verus! {

/// The reason for which a parse stopped.  Each one ends the parse: nothing
/// that was gathered before it is handed out.
#[derive(Debug, PartialEq, Eq)]
pub enum ParseError {
    /// The buffer is shorter than the identity block.
    TooSmall,
    /// The buffer does not start with the magic bytes.
    BadMagic,
    /// The class byte names neither object class.
    UnknownClass(u8),
    /// The data-encoding byte names neither byte order.
    UnknownEndianness(u8),
    /// The structural parser gave up, with its own message.
    StructuralParseFailed(String),
}

/// The mathematical value of a `ParseError`: the message is its characters.
pub enum ParseFailure {
    TooSmall,
    BadMagic,
    UnknownClass(u8),
    UnknownEndianness(u8),
    StructuralParseFailed(Seq<char>),
}

impl View for ParseError {
    type V = ParseFailure;

    open spec fn view(&self) -> ParseFailure {
        match *self {
            ParseError::TooSmall => ParseFailure::TooSmall,
            ParseError::BadMagic => ParseFailure::BadMagic,
            ParseError::UnknownClass(class) => ParseFailure::UnknownClass(class),
            ParseError::UnknownEndianness(endianness) => ParseFailure::UnknownEndianness(
                endianness,
            ),
            ParseError::StructuralParseFailed(message) => ParseFailure::StructuralParseFailed(
                message@,
            ),
        }
    }
}

impl ParseFailure {
    /// The sentence that tells a user of the failure.
    pub open spec fn message(self) -> Seq<char> {
        match self {
            ParseFailure::TooSmall => "file is smaller than ELF header's e_ident"@,
            ParseFailure::BadMagic => "mismatched magic: not an ELF file"@,
            ParseFailure::UnknownClass(class) => "Unknown bitness: "@ + decimal(class as nat),
            ParseFailure::UnknownEndianness(endianness) => "Unknown endianness: "@ + decimal(
                endianness as nat,
            ),
            ParseFailure::StructuralParseFailed(message) => message,
        }
    }
}

impl ParseError {
    /// The sentence that tells a user of the failure.
    pub fn message(&self) -> (text: String)
        ensures
            text@ == self@.message(),
    {
        match self {
            ParseError::TooSmall => String::from_str("file is smaller than ELF header's e_ident"),
            ParseError::BadMagic => String::from_str("mismatched magic: not an ELF file"),
            ParseError::UnknownClass(class) => {
                let mut text = String::from_str("Unknown bitness: ");
                push_decimal(&mut text, *class);
                text
            },
            ParseError::UnknownEndianness(endianness) => {
                let mut text = String::from_str("Unknown endianness: ");
                push_decimal(&mut text, *endianness);
                text
            },
            ParseError::StructuralParseFailed(message) => message.clone(),
        }
    }
}

} // verus!
