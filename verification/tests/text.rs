use elf_annotate::elf::defs::abi_to_string;
use elf_annotate::elf::text::decimal_string;
use elf_annotate::elf::text::push_decimal;
use elf_annotate::elf::text::str_eq;

#[test]
fn decimal_string_of_single_digits() {
    assert_eq!(decimal_string(0), "0");
    assert_eq!(decimal_string(7), "7");
    assert_eq!(decimal_string(9), "9");
}

#[test]
fn decimal_string_of_two_and_three_digits() {
    assert_eq!(decimal_string(10), "10");
    assert_eq!(decimal_string(42), "42");
    assert_eq!(decimal_string(99), "99");
    assert_eq!(decimal_string(100), "100");
    assert_eq!(decimal_string(101), "101");
    assert_eq!(decimal_string(110), "110");
    assert_eq!(decimal_string(255), "255");
}

#[test]
fn decimal_string_agrees_with_std_on_every_byte() {
    let mut value: u8 = 0;
    loop {
        assert_eq!(decimal_string(value), value.to_string());
        if value == u8::MAX {
            break;
        }
        value += 1;
    }
}

#[test]
fn push_decimal_appends_behind_what_is_there() {
    let mut text = String::from("n = ");
    push_decimal(&mut text, 203);
    assert_eq!(text, "n = 203");
    push_decimal(&mut text, 0);
    assert_eq!(text, "n = 2030");
}

#[test]
fn str_eq_compares_characters() {
    assert!(str_eq("", ""));
    assert!(str_eq("magic", "magic"));
    assert!(!str_eq("magic", "magi"));
    assert!(!str_eq("magi", "magic"));
    assert!(!str_eq("magic", "magid"));
    assert!(!str_eq("abi", "ver"));
    assert!(str_eq("caf\u{e9}", "caf\u{e9}"));
    assert!(!str_eq("caf\u{e9}", "cafe"));
}

#[test]
fn abi_to_string_names_the_known_abis() {
    assert_eq!(abi_to_string(0), "SysV");
    assert_eq!(abi_to_string(1), "HP-UX");
    assert_eq!(abi_to_string(2), "NetBSD");
    assert_eq!(abi_to_string(3), "Linux");
    assert_eq!(abi_to_string(4), "Hurd");
    assert_eq!(abi_to_string(6), "Solaris");
    assert_eq!(abi_to_string(7), "AIX");
    assert_eq!(abi_to_string(8), "Irix");
    assert_eq!(abi_to_string(9), "FreeBSD");
    assert_eq!(abi_to_string(10), "Tru64");
    assert_eq!(abi_to_string(11), "Modesto");
    assert_eq!(abi_to_string(12), "OpenBSD");
    assert_eq!(abi_to_string(13), "OpenVMS");
    assert_eq!(abi_to_string(14), "NSK");
    assert_eq!(abi_to_string(15), "AROS");
    assert_eq!(abi_to_string(16), "FenixOS");
    assert_eq!(abi_to_string(17), "CloudABI");
    assert_eq!(abi_to_string(64), "ARM EABI");
    assert_eq!(abi_to_string(97), "ARM");
    assert_eq!(abi_to_string(255), "Standalone");
}

#[test]
fn abi_to_string_numbers_the_others() {
    assert_eq!(abi_to_string(5), "Unknown: 5");
    assert_eq!(abi_to_string(18), "Unknown: 18");
    assert_eq!(abi_to_string(200), "Unknown: 200");
}
