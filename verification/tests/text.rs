use broker_client::text::{
    bool_to_string, chars_of, encode_path_segment, i64_to_string, is_whitespace, owned,
    parse_i32, push_decimal, to_ascii_uppercase, trim,
    trim_end_matches_char, trim_start_matches_char, u64_to_string,
};

#[test]
fn path_segments_keep_only_ascii_alphanumerics() {
    assert_eq!(encode_path_segment("ABCxyz019"), "ABCxyz019");
    assert_eq!(encode_path_segment("a/b c"), "a%2Fb%20c");
    assert_eq!(encode_path_segment("C-1_2.3~"), "C%2D1%5F2%2E3%7E");
    assert_eq!(encode_path_segment("台"), "%E5%8F%B0");
    assert_eq!(encode_path_segment(""), "");
}

#[test]
fn numbers_render_in_decimal() {
    assert_eq!(u64_to_string(0), "0");
    assert_eq!(u64_to_string(u64::MAX), "18446744073709551615");
    assert_eq!(i64_to_string(-42), "-42");
    assert_eq!(i64_to_string(i64::MIN), "-9223372036854775808");
    assert_eq!(i64_to_string(i64::MAX), "9223372036854775807");
    let mut s = owned("n=");
    push_decimal(&mut s, 1200);
    assert_eq!(s, "n=1200");
    assert_eq!(bool_to_string(true), "true");
    assert_eq!(bool_to_string(false), "false");
}

#[test]
fn i32_parsing_follows_str_parse() {
    for text in ["0", "7", "+2", "-2147483648", "2147483647", "007", "-0"] {
        assert_eq!(parse_i32(text), text.parse::<i32>().ok(), "{text}");
    }
    for text in ["", "+", "-", "2147483648", "-2147483649", " 1", "1 ", "1.0", "0x1", "++1"] {
        assert_eq!(parse_i32(text), None, "{text}");
        assert!(text.parse::<i32>().is_err());
    }
}

#[test]
fn trimming_and_case_mapping() {
    assert_eq!(trim("  a b \t\n"), "a b");
    assert_eq!(trim("\u{3000}x\u{a0}"), "x");
    assert_eq!(trim("   "), "");
    assert!(is_whitespace('\u{2003}'));
    assert!(!is_whitespace('x'));
    assert_eq!(to_ascii_uppercase("odd_lot é"), "ODD_LOT é");
    assert_eq!(trim_end_matches_char("a///", '/'), "a");
    assert_eq!(trim_start_matches_char("///a/", '/'), "a/");
    assert_eq!(trim_end_matches_char("///", '/'), "");
}

#[test]
fn characters_round_trip() {
    assert_eq!(chars_of("a台b"), vec!['a', '台', 'b']);
    assert!(chars_of("").is_empty());
}
