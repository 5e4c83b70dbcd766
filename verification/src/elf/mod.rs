//! ELF parsing: constants, text helpers, the range store and the parser.

pub mod defs;
pub mod error;
pub mod ident;
pub mod parser;
pub mod range_type;
pub mod ranges;
pub mod rows;
pub mod text;
