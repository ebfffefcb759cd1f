use kuna_decomp::int_parse::parse_int_auto;
use kuna_decomp::name_map::NameMap;
use kuna_decomp::text::{
    before, decimal, join2, join3, parse_i32, parse_int, parse_u32, parse_unsigned, same_text,
    strip_prefix, to_lower, trim,
};
use kuna_decomp::toggle::on_or_off;

#[test]
fn texts_are_compared_by_character() {
    assert!(same_text("stack", "stack"));
    assert!(!same_text("stack", "stacks"));
    assert!(!same_text("stack", "Stack"));
    assert!(same_text("", ""));
    assert!(same_text("größe", "größe"));
}

#[test]
fn texts_are_joined_in_order() {
    assert_eq!(join2("a", "bc"), "abc");
    assert_eq!(join3("a", "", "bc"), "abc");
}

#[test]
fn white_space_is_trimmed_at_both_ends() {
    assert_eq!(trim("  \t a b \n"), "a b");
    assert_eq!(trim("\u{a0}x\u{3000}"), "x");
    assert_eq!(trim("   "), "");
    assert_eq!(trim(""), "");
}

#[test]
fn ascii_letters_are_lowered() {
    assert_eq!(to_lower("GlibC-É"), "glibc-É");
}

#[test]
fn prefixes_are_stripped() {
    assert_eq!(strip_prefix("piece12", "piece"), Some("12"));
    assert_eq!(strip_prefix("pie", "piece"), None);
    assert_eq!(strip_prefix("space", "piece"), None);
}

#[test]
fn numbers_are_written_in_decimal() {
    assert_eq!(decimal(0), "0");
    assert_eq!(decimal(1090), "1090");
    assert_eq!(decimal(u64::MAX), "18446744073709551615");
}

#[test]
fn unsigned_numbers_are_read_whole() {
    assert_eq!(parse_unsigned("+ff", 16), Some(255));
    assert_eq!(parse_unsigned("", 10), None);
    assert_eq!(parse_unsigned("+", 10), None);
    assert_eq!(parse_unsigned("-1", 10), None);
    assert_eq!(parse_unsigned("18446744073709551615", 10), Some(u64::MAX));
    assert_eq!(parse_unsigned("18446744073709551616", 10), None);
    assert_eq!(parse_u32("4294967295"), Some(u32::MAX));
    assert_eq!(parse_u32("4294967296"), None);
}

#[test]
fn signed_numbers_are_read_whole() {
    assert_eq!(parse_i32("-2147483648"), Some(i32::MIN));
    assert_eq!(parse_i32("-2147483649"), None);
    assert_eq!(parse_i32("+2147483647"), Some(i32::MAX));
    assert_eq!(parse_i32("2147483648"), None);
    assert_eq!(parse_i32("12 "), None);
    assert_eq!(parse_i32("-"), None);
}

#[test]
fn offsets_are_decimal_or_hexadecimal() {
    assert_eq!(parse_int(" 0x1f "), Some(31));
    assert_eq!(parse_int("31"), Some(31));
    assert_eq!(parse_int("0X1f"), None);
    assert_eq!(parse_int("0x"), None);
    assert_eq!(parse_int(""), None);
}

#[test]
fn names_are_ordered_by_character_code() {
    assert!(before("", "a"));
    assert!(before("a", "ab"));
    assert!(before("B", "a"));
    assert!(!before("a", "a"));
    assert!(!before("b", "ab"));
}

#[test]
fn option_numbers_tell_their_base() {
    assert_eq!(parse_int_auto::<i32>("  42"), Some(42));
    assert_eq!(parse_int_auto::<i32>("0x1F"), Some(31));
    assert_eq!(parse_int_auto::<i32>("017"), Some(15));
    assert_eq!(parse_int_auto::<i32>("-0x10"), Some(-16));
    assert_eq!(parse_int_auto::<i32>("+7rest"), Some(7));
    assert_eq!(parse_int_auto::<i32>("08"), Some(0));
}

#[test]
fn option_numbers_without_digits_are_zero() {
    assert_eq!(parse_int_auto::<i32>("abc"), Some(0));
    assert_eq!(parse_int_auto::<i32>("-"), Some(0));
    assert_eq!(parse_int_auto::<i32>("  abc"), Some(0));
    assert_eq!(parse_int_auto::<i32>("0xZ"), Some(0));
    assert_eq!(parse_int_auto::<i32>(".5"), Some(0));
}

#[test]
fn blank_option_numbers_are_nothing() {
    assert_eq!(parse_int_auto::<i32>(""), None);
    assert_eq!(parse_int_auto::<i32>(" \t\n"), None);
    assert_eq!(parse_int_auto::<u32>("   "), None);
}

#[test]
fn option_numbers_are_clamped_to_the_target() {
    assert_eq!(parse_int_auto::<i32>("3000000000"), Some(i32::MAX));
    assert_eq!(parse_int_auto::<i32>("-2147483648"), Some(i32::MIN));
    assert_eq!(parse_int_auto::<i32>("-2147483649"), Some(i32::MIN));
    assert_eq!(parse_int_auto::<i32>("99999999999999999999999"), Some(i32::MAX));
    assert_eq!(parse_int_auto::<u32>("0x100000000"), Some(u32::MAX));
    assert_eq!(parse_int_auto::<u32>("-1"), Some(u32::MAX));
    assert_eq!(parse_int_auto::<u32>("-0x100000000"), Some(u32::MAX));
    assert_eq!(parse_int_auto::<u32>("-2"), Some(0xffff_fffe));
}

#[test]
fn toggles_are_on_or_off() {
    assert!(on_or_off("").unwrap());
    assert!(on_or_off("on").unwrap());
    assert!(!on_or_off("off").unwrap());
    assert_eq!(
        on_or_off("ON").unwrap_err().explain(),
        "Must specify toggle value, on/off"
    );
}

#[test]
fn name_maps_keep_names_in_order() {
    let mut m: NameMap<u32> = NameMap::new();
    m.insert("b", 2);
    m.insert("c", 3);
    m.insert("a", 1);
    m.insert("b", 20);
    assert_eq!(m.len(), 3);
    assert_eq!(m.get("b"), Some(&20));
    assert_eq!(m.get("d"), None);
    assert!(m.contains("a"));
    assert_eq!(m.names(), vec!["a", "b", "c"]);
}

#[test]
fn what_follows_a_number_is_not_read() {
    for (text, value) in [("42", 42), ("-17", -17), ("0x1f", 31), ("017", 15), ("0", 0), ("+", 0)] {
        assert_eq!(parse_int_auto::<i32>(text), Some(value));
        for suffix in ["", " ", "xyz", "g", "-", "_!"] {
            assert_eq!(parse_int_auto::<i32>(&format!("{text}{suffix}")), Some(value));
        }
    }
    assert_eq!(parse_int_auto::<i32>("42abc"), Some(42));
    assert_eq!(parse_int_auto::<i32>("0x1fgf"), Some(31));
    assert_eq!(parse_int_auto::<i32>("0xf"), Some(15));
    assert_eq!(parse_int_auto::<i32>(""), None);
    assert_eq!(parse_int_auto::<i32>("g"), Some(0));
}
