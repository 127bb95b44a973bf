//! Text building blocks: decimal rendering and parsing, hex, search and
//! trim helpers.

use pixivdwn::text::{
    u64_to_dec, i64_to_dec, parse_u64, bytes_to_hex, str_eq, str_starts_with, str_ends_with,
    find_first_char, find_last_char, split_char, trim_ws, find_colon_space,
};

#[test]
fn decimal_rendering() {
    assert_eq!(u64_to_dec(0), "0");
    assert_eq!(u64_to_dec(7), "7");
    assert_eq!(u64_to_dec(10), "10");
    assert_eq!(u64_to_dec(90400), "90400");
    assert_eq!(u64_to_dec(u64::MAX), "18446744073709551615");
    assert_eq!(i64_to_dec(-1), "-1");
    assert_eq!(i64_to_dec(0), "0");
    assert_eq!(i64_to_dec(i64::MIN), "-9223372036854775808");
}

#[test]
fn decimal_parsing() {
    assert_eq!(parse_u64("0"), Some(0));
    assert_eq!(parse_u64("00123"), Some(123));
    assert_eq!(parse_u64("18446744073709551615"), Some(u64::MAX));
    assert_eq!(parse_u64("18446744073709551616"), None);
    assert_eq!(parse_u64(""), None);
    assert_eq!(parse_u64("12a"), None);
    assert_eq!(parse_u64("-3"), None);
}

#[test]
fn hex_rendering() {
    assert_eq!(bytes_to_hex(&vec![]), "");
    assert_eq!(bytes_to_hex(&vec![0x00]), "00");
    assert_eq!(bytes_to_hex(&vec![0xde, 0xad, 0xbe, 0xef]), "deadbeef");
    assert_eq!(bytes_to_hex(&vec![0x0f, 0xf0]), "0ff0");
}

#[test]
fn searching_and_comparing() {
    assert!(str_eq("abc", "abc"));
    assert!(!str_eq("abc", "abd"));
    assert!(!str_eq("abc", "ab"));
    assert!(str_starts_with("filename.png", "file"));
    assert!(!str_starts_with("file", "filename"));
    assert!(str_ends_with("archive.zip", ".zip"));
    assert!(!str_ends_with("archive.zip", ".rar"));
    assert_eq!(find_first_char("a_b_c", '_'), Some(1));
    assert_eq!(find_last_char("a_b_c", '_'), Some(3));
    assert_eq!(find_first_char("abc", '_'), None);
    assert_eq!(find_colon_space("Name: value"), Some(4));
    assert_eq!(find_colon_space("novalue"), None);
}

#[test]
fn splitting_and_trimming() {
    assert_eq!(split_char("a\nb\nc", '\n'), vec!["a", "b", "c"]);
    assert_eq!(split_char("", '\n'), vec![""]);
    assert_eq!(split_char("a\n\nb", '\n'), vec!["a", "", "b"]);
    assert_eq!(split_char("\na", '\n'), vec!["", "a"]);
    assert_eq!(trim_ws("  hi \r\n"), "hi");
    assert_eq!(trim_ws("hi"), "hi");
    assert_eq!(trim_ws(" \t "), "");
}
