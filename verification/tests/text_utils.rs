use spatial_import_tool::database::dameng::escape_sql_string;
use spatial_import_tool::text::{
    cat, contains_str, i64_to_decimal, parse_i32, parse_i64, quote_double, replace_char, str_eq, strip_prefix,
    u64_to_decimal,
};

#[test]
fn decimal_texts() {
    assert_eq!(u64_to_decimal(0), "0");
    assert_eq!(u64_to_decimal(10), "10");
    assert_eq!(u64_to_decimal(u64::MAX), "18446744073709551615");
    assert_eq!(i64_to_decimal(-42), "-42");
    assert_eq!(i64_to_decimal(i64::MIN), "-9223372036854775808");
    assert_eq!(i64_to_decimal(i64::MAX), "9223372036854775807");
    for n in [-1000i64, -7, 0, 3, 65535, 123456789] {
        assert_eq!(i64_to_decimal(n), n.to_string());
    }
}

#[test]
fn parsing_integers_as_str_parse_does() {
    for s in ["4326", "+12", "-0", "-2147483648", "2147483647", "", "+", "-", "12a", " 1", "1 ", "99999999999", "007"] {
        assert_eq!(parse_i32(s), s.parse::<i32>().ok(), "{:?}", s);
    }
    for s in ["9223372036854775807", "-9223372036854775808", "9223372036854775808", "0", "-", "1e3", "١٢"] {
        assert_eq!(parse_i64(s), s.parse::<i64>().ok(), "{:?}", s);
    }
    assert_eq!(parse_i32("3857"), Some(3857));
    assert_eq!(parse_i32("2147483648"), None);
}

#[test]
fn prefixes_and_substrings() {
    assert_eq!(strip_prefix("EPSG:4326", "EPSG:"), Some("4326"));
    assert_eq!(strip_prefix("epsg:4326", "EPSG:"), None);
    assert_eq!(strip_prefix("EPS", "EPSG:"), None);
    assert_eq!(strip_prefix("abc", ""), Some("abc"));
    assert!(contains_str("DM8 ODBC DRIVER", "DM8"));
    assert!(contains_str("abc", ""));
    assert!(!contains_str("DM", "DM8"));
    assert!(contains_str("x dameng y", "dameng"));
    assert!(!contains_str("Dameng", "dameng"));
}

#[test]
fn replacing_and_quoting() {
    assert_eq!(replace_char("a'b'", '\'', "''"), "a''b''");
    assert_eq!(replace_char("héllo", 'l', "L"), "héLLo");
    assert_eq!(quote_double("na\"me"), "\"na\"\"me\"");
    assert!(str_eq("中文", "中文"));
    assert!(!str_eq("a", "ab"));
    assert_eq!(cat("表 ", "t"), "表 t");
}

#[test]
fn decimal_text_reads_back() {
    for n in [i64::MIN, -4326, -1, 0, 1, 4490, i64::MAX] {
        assert_eq!(parse_i64(&i64_to_decimal(n)), Some(n));
    }
}

#[test]
fn quoting_and_escaping_keep_texts_apart() {
    let texts = ["a", "a\"", "a\"\"", "\"", "", "a'b", "a''b", "a\\", "a\\\\", "'\\"];
    for x in texts {
        for y in texts {
            if x != y {
                assert_ne!(quote_double(x), quote_double(y));
                assert_ne!(escape_sql_string(x), escape_sql_string(y));
            }
        }
    }
}

#[test]
fn escaped_text_length_and_quote_pairs() {
    for s in ["", "abc", "O'Neil", "a\\b", "''\\'", "中'文"] {
        let e = escape_sql_string(s);
        let quotes = s.chars().filter(|c| *c == '\'').count();
        let slashes = s.chars().filter(|c| *c == '\\').count();
        assert_eq!(e.chars().count(), s.chars().count() + quotes + slashes);
        for run in e.split(|c| c != '\'') {
            assert_eq!(run.len() % 2, 0, "{:?}", e);
        }
    }
}
