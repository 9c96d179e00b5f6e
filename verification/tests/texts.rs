use workstation_app::bytes::format_binary_bytes;
use workstation_app::text::{
    append_decimal_padded3, ascii_lowercase, before, chars_of, decimal_text, join,
    same_ignoring_ascii_case, starts_with, text_of_chars, text_of_range, to_ascii_lower, trim,
};

#[test]
fn numbers_are_written_as_they_are_read() {
    assert_eq!(decimal_text(0), "0");
    assert_eq!(decimal_text(1_075), "1075");
    assert_eq!(decimal_text(u64::MAX), "18446744073709551615");
    let mut text = String::new();
    append_decimal_padded3(&mut text, 7);
    assert_eq!(text, "007");
    append_decimal_padded3(&mut text, 1_234);
    assert_eq!(text, "0071234");
}

#[test]
fn sizes_are_in_binary_units_to_a_tenth() {
    assert_eq!(format_binary_bytes(1_073_741_824), "1.0 GiB");
    assert_eq!(format_binary_bytes(1_572_864), "1.5 MiB");
}

#[test]
fn texts_are_trimmed_of_every_white_space_and_nothing_else() {
    assert_eq!(trim("  KTLX\t\n"), "KTLX");
    assert_eq!(trim("\u{a0}\u{3000}a b\u{2028}"), "a b");
    assert_eq!(trim("\u{200b}x"), "\u{200b}x");
    assert_eq!(trim(" \n "), "");
    for code in 0..0x3100_u32 {
        if let Some(letter) = char::from_u32(code) {
            let text = format!("{letter}x{letter}");
            assert_eq!(trim(&text), text.trim(), "{code:x}");
        }
    }
}

#[test]
fn texts_are_compared_cut_and_joined() {
    assert!(same_ignoring_ascii_case("KoAx", "kOaX"));
    assert!(!same_ignoring_ascii_case("KOAX", "KOA"));
    assert!(!same_ignoring_ascii_case("É", "é"));
    assert_eq!(ascii_lowercase("ÀBc"), "Àbc");
    assert_eq!(to_ascii_lower('Z'), 'z');
    assert!(starts_with("STALLED", "STALL"));
    assert!(!starts_with("STALL", "STALLED"));
    assert!(before("a", "b") && before("a", "aa") && !before("b", "a") && !before("a", "a"));
    assert_eq!(join(&vec!["a".to_owned(), "b".to_owned()], ", "), "a, b");
    assert_eq!(join(&vec![], ", "), "");
    let chars = chars_of("héllo");
    assert_eq!(text_of_range(&chars, 1, 3), "él");
    assert_eq!(text_of_chars(&chars), "héllo");
}
