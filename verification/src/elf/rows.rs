//! The rows of the table that describes a file, and those that the
//! identity record contributes.

use crate::elf::defs::abi_name;
use crate::elf::defs::class_known;
use crate::elf::defs::endianness_known;
use crate::elf::defs::ELF_CLASS32;
use crate::elf::defs::ELF_DATA2LSB;
use crate::elf::defs::ELF_EV_CURRENT;
use crate::elf::defs::ELF_OSABI_SYSV;
use crate::elf::error::ParseFailure;
use crate::elf::ident::IdentView;
use crate::elf::text::decimal;
use vstd::prelude::*;

verus! {

/// One row of the table that describes a file.
#[derive(Debug, PartialEq, Eq)]
pub struct InfoRow {
    /// The key of the row.
    pub id: &'static str,
    /// What the row is about.
    pub label: &'static str,
    /// The value, as it is shown.
    pub value: String,
    /// Whether the value is one that a reader should look at twice.
    pub anomalous: bool,
}

/// The mathematical value of an `InfoRow`.
pub struct RowView {
    pub id: Seq<char>,
    pub label: Seq<char>,
    pub value: Seq<char>,
    pub anomalous: bool,
}

impl View for InfoRow {
    type V = RowView;

    open spec fn view(&self) -> RowView {
        RowView {
            id: self.id@,
            label: self.label@,
            value: self.value@,
            anomalous: self.anomalous,
        }
    }
}

impl DeepView for InfoRow {
    type V = RowView;

    open spec fn deep_view(&self) -> RowView {
        self@
    }
}

/// The row that tells the object class.
pub open spec fn class_row(class: u8) -> RowView
    recommends
        class_known(class),
{
    RowView {
        id: "class"@,
        label: "Object class"@,
        value: if class == ELF_CLASS32 {
            "32-bit"@
        } else {
            "64-bit"@
        },
        anomalous: false,
    }
}

/// The row that tells the byte order.
pub open spec fn data_row(endianness: u8) -> RowView
    recommends
        endianness_known(endianness),
{
    RowView {
        id: "data"@,
        label: "Data encoding"@,
        value: if endianness == ELF_DATA2LSB {
            "Little endian"@
        } else {
            "Big endian"@
        },
        anomalous: false,
    }
}

/// The row that tells a version other than the current one.
pub open spec fn version_row(version: u8) -> RowView {
    RowView {
        id: "ver"@,
        label: "Uncommon version(!)"@,
        value: decimal(version as nat),
        anomalous: true,
    }
}

/// The row that tells the ABI.  Any ABI but the standard one is unexpected.
pub open spec fn abi_row(abi: u8) -> RowView {
    RowView {
        id: "abi"@,
        label: if abi == ELF_OSABI_SYSV {
            "ABI"@
        } else {
            "Uncommon ABI(!)"@
        },
        value: abi_name(abi),
        anomalous: abi != ELF_OSABI_SYSV,
    }
}

/// The row that tells the ABI version.  A version other than zero is
/// unexpected of the standard ABI, and of no other.
pub open spec fn abi_version_row(abi: u8, abi_ver: u8) -> RowView {
    RowView {
        id: "abi_ver"@,
        label: if abi == ELF_OSABI_SYSV && abi_ver != 0 {
            "Uncommon ABI version(!)"@
        } else {
            "ABI version"@
        },
        value: decimal(abi_ver as nat),
        anomalous: abi == ELF_OSABI_SYSV && abi_ver != 0,
    }
}

/// Whether the ABI version gets a row: always, but for version zero of the
/// standard ABI.
pub open spec fn shows_abi_version(ident: IdentView) -> bool {
    !(ident.abi == ELF_OSABI_SYSV && ident.abi_ver == 0)
}

/// Why an identity record yields no rows: its class is unknown, or else its
/// byte order is.
pub open spec fn ident_failure(ident: IdentView) -> Option<ParseFailure> {
    if !class_known(ident.class) {
        Some(ParseFailure::UnknownClass(ident.class))
    } else if !endianness_known(ident.endianness) {
        Some(ParseFailure::UnknownEndianness(ident.endianness))
    } else {
        None
    }
}

/// The rows that an identity record adds to the table: class and byte
/// order, the version if it is not the current one, the ABI, and the ABI
/// version unless it is version zero of the standard ABI.
pub open spec fn ident_rows(ident: IdentView) -> Seq<RowView>
    recommends
        ident_failure(ident) is None,
{
    seq![class_row(ident.class), data_row(ident.endianness)] + (if ident.version
        != ELF_EV_CURRENT {
        seq![version_row(ident.version)]
    } else {
        Seq::empty()
    }) + seq![abi_row(ident.abi)] + (if shows_abi_version(ident) {
        seq![abi_version_row(ident.abi, ident.abi_ver)]
    } else {
        Seq::empty()
    })
}

} // verus!
