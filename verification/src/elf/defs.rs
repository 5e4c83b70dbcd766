//! Offsets into the identity block, the legal values of its fields and the
//! names of the ABIs.

use crate::elf::text::decimal;
use crate::elf::text::push_decimal;
use vstd::prelude::*;
use vstd::string::StringExecFns;

verus! {

/// The four bytes every ELF file starts with.
pub const ELF_MAGIC: [u8; 4] = [0x7f, 0x45, 0x4c, 0x46];

/// Offset of the class byte.
pub const ELF_EI_CLASS: usize = 4;

/// Offset of the data-encoding byte.
pub const ELF_EI_DATA: usize = 5;

/// Offset of the version byte.
pub const ELF_EI_VERSION: usize = 6;

/// Offset of the ABI byte.
pub const ELF_EI_OSABI: usize = 7;

/// Offset of the ABI-version byte.
pub const ELF_EI_ABIVERSION: usize = 8;

/// Offset of the first padding byte.
pub const ELF_EI_PAD: usize = 9;

/// Length of the identity block.
pub const ELF_EI_NIDENT: usize = 16;

/// Class of a 32-bit object.
pub const ELF_CLASS32: u8 = 1;

/// Class of a 64-bit object.
pub const ELF_CLASS64: u8 = 2;

/// Little-endian data encoding.
pub const ELF_DATA2LSB: u8 = 1;

/// Big-endian data encoding.
pub const ELF_DATA2MSB: u8 = 2;

/// The current version of the format.
pub const ELF_EV_CURRENT: u8 = 1;

/// The standard ABI, UNIX System V.  The values that follow are the other
/// ABIs that have a name.
pub const ELF_OSABI_SYSV: u8 = 0;

pub const ELF_OSABI_HPUX: u8 = 1;

pub const ELF_OSABI_NETBSD: u8 = 2;

pub const ELF_OSABI_LINUX: u8 = 3;

pub const ELF_OSABI_HURD: u8 = 4;

pub const ELF_OSABI_SOLARIS: u8 = 6;

pub const ELF_OSABI_AIX: u8 = 7;

pub const ELF_OSABI_IRIX: u8 = 8;

pub const ELF_OSABI_FREEBSD: u8 = 9;

pub const ELF_OSABI_TRU64: u8 = 10;

pub const ELF_OSABI_MODESTO: u8 = 11;

pub const ELF_OSABI_OPENBSD: u8 = 12;

pub const ELF_OSABI_OPENVMS: u8 = 13;

pub const ELF_OSABI_NSK: u8 = 14;

pub const ELF_OSABI_AROS: u8 = 15;

pub const ELF_OSABI_FENIXOS: u8 = 16;

pub const ELF_OSABI_CLOUDABI: u8 = 17;

pub const ELF_OSABI_ARM_AEABI: u8 = 64;

pub const ELF_OSABI_ARM: u8 = 97;

pub const ELF_OSABI_STANDALONE: u8 = 255;

/// Whether `class` is one of the two object classes.
pub open spec fn class_known(class: u8) -> bool {
    class == ELF_CLASS32 || class == ELF_CLASS64
}

/// Whether `endianness` is one of the two data encodings.
pub open spec fn endianness_known(endianness: u8) -> bool {
    endianness == ELF_DATA2LSB || endianness == ELF_DATA2MSB
}

/// The name of an ABI that has one.
pub open spec fn known_abi_name(abi: u8) -> Option<Seq<char>> {
    if abi == ELF_OSABI_SYSV {
        Some("SysV"@)
    } else if abi == ELF_OSABI_HPUX {
        Some("HP-UX"@)
    } else if abi == ELF_OSABI_NETBSD {
        Some("NetBSD"@)
    } else if abi == ELF_OSABI_LINUX {
        Some("Linux"@)
    } else if abi == ELF_OSABI_HURD {
        Some("Hurd"@)
    } else if abi == ELF_OSABI_SOLARIS {
        Some("Solaris"@)
    } else if abi == ELF_OSABI_AIX {
        Some("AIX"@)
    } else if abi == ELF_OSABI_IRIX {
        Some("Irix"@)
    } else if abi == ELF_OSABI_FREEBSD {
        Some("FreeBSD"@)
    } else if abi == ELF_OSABI_TRU64 {
        Some("Tru64"@)
    } else if abi == ELF_OSABI_MODESTO {
        Some("Modesto"@)
    } else if abi == ELF_OSABI_OPENBSD {
        Some("OpenBSD"@)
    } else if abi == ELF_OSABI_OPENVMS {
        Some("OpenVMS"@)
    } else if abi == ELF_OSABI_NSK {
        Some("NSK"@)
    } else if abi == ELF_OSABI_AROS {
        Some("AROS"@)
    } else if abi == ELF_OSABI_FENIXOS {
        Some("FenixOS"@)
    } else if abi == ELF_OSABI_CLOUDABI {
        Some("CloudABI"@)
    } else if abi == ELF_OSABI_ARM_AEABI {
        Some("ARM EABI"@)
    } else if abi == ELF_OSABI_ARM {
        Some("ARM"@)
    } else if abi == ELF_OSABI_STANDALONE {
        Some("Standalone"@)
    } else {
        None
    }
}

/// The text shown for an ABI: its name, or its number where it has none.
pub open spec fn abi_name(abi: u8) -> Seq<char> {
    match known_abi_name(abi) {
        Some(name) => name,
        None => "Unknown: "@ + decimal(abi as nat),
    }
}

/// The name of an ABI that has one, as a string slice.
fn known_abi_str(abi: u8) -> (name: Option<&'static str>)
    ensures
        match name {
            Some(name) => known_abi_name(abi) == Some(name@),
            None => known_abi_name(abi) is None,
        },
{
    if abi == ELF_OSABI_SYSV {
        Some("SysV")
    } else if abi == ELF_OSABI_HPUX {
        Some("HP-UX")
    } else if abi == ELF_OSABI_NETBSD {
        Some("NetBSD")
    } else if abi == ELF_OSABI_LINUX {
        Some("Linux")
    } else if abi == ELF_OSABI_HURD {
        Some("Hurd")
    } else if abi == ELF_OSABI_SOLARIS {
        Some("Solaris")
    } else if abi == ELF_OSABI_AIX {
        Some("AIX")
    } else if abi == ELF_OSABI_IRIX {
        Some("Irix")
    } else if abi == ELF_OSABI_FREEBSD {
        Some("FreeBSD")
    } else if abi == ELF_OSABI_TRU64 {
        Some("Tru64")
    } else if abi == ELF_OSABI_MODESTO {
        Some("Modesto")
    } else if abi == ELF_OSABI_OPENBSD {
        Some("OpenBSD")
    } else if abi == ELF_OSABI_OPENVMS {
        Some("OpenVMS")
    } else if abi == ELF_OSABI_NSK {
        Some("NSK")
    } else if abi == ELF_OSABI_AROS {
        Some("AROS")
    } else if abi == ELF_OSABI_FENIXOS {
        Some("FenixOS")
    } else if abi == ELF_OSABI_CLOUDABI {
        Some("CloudABI")
    } else if abi == ELF_OSABI_ARM_AEABI {
        Some("ARM EABI")
    } else if abi == ELF_OSABI_ARM {
        Some("ARM")
    } else if abi == ELF_OSABI_STANDALONE {
        Some("Standalone")
    } else {
        None
    }
}

/// The text shown for an ABI.
pub fn abi_to_string(abi: u8) -> (name: String)
    ensures
        name@ == abi_name(abi),
{
    match known_abi_str(abi) {
        Some(name) => String::from_str(name),
        None => {
            let mut name = String::from_str("Unknown: ");
            push_decimal(&mut name, abi);
            name
        },
    }
}

} // verus!
