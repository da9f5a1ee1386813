use sqlite3dyn::code::{open_create_flags, SQLITE_RESULT};
use sqlite3dyn::error::Sqlite3ConnError;
use sqlite3dyn::text::{bit_pattern, decimal_string, parse_i32, radix_string, utf8_text, with_nul};

#[test]
fn result_codes_compare_by_number() {
    assert!(SQLITE_RESULT(0) == SQLITE_RESULT::ok());
    assert!(SQLITE_RESULT(1) != SQLITE_RESULT(0));
    assert!(!(SQLITE_RESULT(5) != SQLITE_RESULT(5)));
    assert!(SQLITE_RESULT(0).is_ok());
    assert!(!SQLITE_RESULT(21).is_ok());
}

#[test]
fn result_code_forms() {
    let c = SQLITE_RESULT(26);
    assert_eq!(c.display_text(), "26");
    assert_eq!(c.binary_text(), "11010");
    assert_eq!(c.octal_text(), "32");
    assert_eq!(c.lower_hex_text(), "1a");
    assert_eq!(c.upper_hex_text(), "1A");
    let n = SQLITE_RESULT(-1);
    assert_eq!(n.display_text(), "-1");
    assert_eq!(n.binary_text(), format!("{:b}", -1i32));
    assert_eq!(n.lower_hex_text(), "ffffffff");
    assert_eq!(n.octal_text(), format!("{:o}", -1i32));
    assert_eq!(SQLITE_RESULT(i32::MIN).display_text(), "-2147483648");
    assert_eq!(SQLITE_RESULT(0).display_text(), "0");
    assert_eq!(SQLITE_RESULT(0).binary_text(), "0");
}

#[test]
fn decimal_matches_std_formatting() {
    for v in [0i32, 7, 10, 99, 100, -5, -100, 123456789, i32::MAX, i32::MIN] {
        assert_eq!(decimal_string(v), format!("{}", v));
    }
    assert_eq!(radix_string(255, 16, true), "FF");
    assert_eq!(radix_string(8, 8, false), "10");
    assert_eq!(bit_pattern(-2), 0xffff_fffe);
    assert_eq!(bit_pattern(3), 3);
}

#[test]
fn parse_follows_std_parse() {
    let cases = [
        "3", "+3", "-3", "0", "", "-", "+", "3a", " 3", "3 ", "2147483647", "2147483648",
        "-2147483648", "-2147483649", "99999999999999999999", "+-1", "٣", "007",
    ];
    for c in cases {
        assert_eq!(parse_i32(c), c.parse::<i32>().ok(), "text {:?}", c);
    }
    assert_eq!(parse_i32("12"), Some(12));
    assert_eq!(parse_i32("x"), None);
}

#[test]
fn nul_termination_and_utf8() {
    assert_eq!(with_nul("test.db"), "test.db\0");
    assert_eq!(with_nul(""), "\0");
    assert_eq!(utf8_text(b"abc"), Some("abc".to_string()));
    assert_eq!(utf8_text("héllo".as_bytes()), Some("héllo".to_string()));
    assert_eq!(utf8_text(&[0xff, 0x41]), None);
    assert_eq!(utf8_text(&[0xed, 0xa0, 0x80]), None);
    assert_eq!(open_create_flags(), 6);
}

#[test]
fn error_forms() {
    let e = Sqlite3ConnError::create("src/lib.rs", 42, "Sqlite3ConnError", "not opened yet");
    assert_eq!(e.msg, "not opened yet");
    assert_eq!(e.lineno, 42);
    assert_eq!(e.detailed_text(), "[src/lib.rs:42][Sqlite3ConnError]not opened yet");
    assert_eq!(e.render(None), "not opened yet");
    assert_eq!(e.render(Some("2")), "not opened yet");
    assert_eq!(e.render(Some("3")), "[src/lib.rs:42][Sqlite3ConnError]not opened yet");
    assert_eq!(e.render(Some("10")), "[src/lib.rs:42][Sqlite3ConnError]not opened yet");
    assert_eq!(e.render(Some("high")), "not opened yet");
    assert_eq!(e.render(Some("")), "not opened yet");
    let c = Sqlite3ConnError::connection("a.rs", 7, "boom");
    assert_eq!(c.types, "Sqlite3ConnError");
    assert_eq!(c.clone().detailed_text(), "[a.rs:7][Sqlite3ConnError]boom");
}
