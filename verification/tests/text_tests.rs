use tools_interface::dates::{padded_number, year_string, Date, DateTime};
use tools_interface::error::ToolsError;
use tools_interface::json::{JsonNumber, JsonValue};
use tools_interface::text::{
    char_is_whitespace, i64_to_string, join, parse_i32, parse_u32, parse_u64, replace_char,
    split_char, str_eq, to_ascii_lowercase, to_chars, trim, u64_to_string,
};

#[test]
fn text_trim_matches_std() {
    for s in ["", " ", "a", "  a b  ", "\t\n x \r\n", "\u{a0}x\u{3000}", "\u{200b}x", "x\u{85}", "\u{1680}\u{2000}\u{200a}\u{2028}\u{2029}\u{202f}\u{205f}y"] {
        assert_eq!(trim(s), s.trim());
    }
    for c in (0u32..0x3100).filter_map(char::from_u32) {
        assert_eq!(char_is_whitespace(c), c.is_whitespace());
    }
}

#[test]
fn text_replace_and_lowercase() {
    assert_eq!(replace_char("a-b--c", '-', '_'), "a_b__c");
    assert_eq!(replace_char("", '-', '_'), "");
    assert_eq!(replace_char("äöü ß", ' ', '_'), "äöü_ß");
    assert_eq!(to_ascii_lowercase("ABC xyz ÄÖ Z[@`{"), "abc xyz ÄÖ z[@`{");
    assert_eq!(to_ascii_lowercase("ABC xyz ÄÖ"), "ABC xyz ÄÖ".to_ascii_lowercase());
    assert_eq!(to_chars("añ"), vec!['a', 'ñ']);
    assert!(str_eq("wiki", "wiki"));
    assert!(!str_eq("wiki", "wik"));
}

#[test]
fn text_numbers() {
    assert_eq!(u64_to_string(0), "0");
    assert_eq!(u64_to_string(7), "7");
    assert_eq!(u64_to_string(1234567890), "1234567890");
    assert_eq!(u64_to_string(u64::MAX), "18446744073709551615");
    assert_eq!(i64_to_string(0), "0");
    assert_eq!(i64_to_string(-1), "-1");
    assert_eq!(i64_to_string(i64::MIN), "-9223372036854775808");
    assert_eq!(i64_to_string(i64::MAX), "9223372036854775807");
    for s in ["", "+", "-", "0", "007", "+5", "-5", "4294967295", "4294967296", "18446744073709551615", "18446744073709551616", "99999999999999999999999", "1 ", " 1", "1a", "٣", "--1", "-+1", "+-1", "-0", "2147483647", "2147483648", "-2147483648", "-2147483649"] {
        assert_eq!(parse_u64(s), s.parse::<u64>().ok(), "{s}");
        assert_eq!(parse_u32(s), s.parse::<u32>().ok(), "{s}");
        assert_eq!(parse_i32(s), s.parse::<i32>().ok(), "{s}");
    }
}

#[test]
fn text_join_and_split() {
    assert_eq!(join(&vec![], ","), "");
    assert_eq!(join(&vec!["a".to_string()], ","), "a");
    assert_eq!(join(&vec!["a".to_string(), "".to_string(), "c".to_string()], "|"), "a||c");
    for s in ["", "a", "a\tb", "\t", "a\t\tb\t", "\ta", "äö\tü"] {
        let expected: Vec<String> = s.split('\t').map(|p| p.to_string()).collect();
        assert_eq!(split_char(s, '\t'), expected);
    }
}

#[test]
fn dates_are_checked_and_spelled() {
    assert_eq!(Date::from_ymd_opt(2024, 2, 29), Some(Date { year: 2024, month: 2, day: 29 }));
    assert_eq!(Date::from_ymd_opt(2023, 2, 29), None);
    assert_eq!(Date::from_ymd_opt(1900, 2, 29), None);
    assert_eq!(Date::from_ymd_opt(2000, 2, 29), Some(Date { year: 2000, month: 2, day: 29 }));
    assert_eq!(Date::from_ymd_opt(-4, 2, 29), Some(Date { year: -4, month: 2, day: 29 }));
    assert_eq!(Date::from_ymd_opt(2015, 0, 14), None);
    assert_eq!(Date::from_ymd_opt(2015, 13, 1), None);
    assert_eq!(Date::from_ymd_opt(2015, 4, 31), None);
    assert_eq!(Date::from_ymd_opt(2015, 4, 0), None);
    assert_eq!(Date::from_ymd_opt(262142, 12, 31), Some(Date { year: 262142, month: 12, day: 31 }));
    assert_eq!(Date::from_ymd_opt(262143, 1, 1), None);
    assert_eq!(Date::from_ymd_opt(-262143, 1, 1), Some(Date { year: -262143, month: 1, day: 1 }));
    assert_eq!(Date::from_ymd_opt(-262144, 12, 31), None);
    assert!(Date { year: 2024, month: 6, day: 30 }.check_valid());
    assert!(!Date { year: 2024, month: 6, day: 31 }.check_valid());
    let d = |y, m, dd| Date { year: y, month: m, day: dd };
    assert_eq!(d(2024, 3, 1).pred_opt(), Some(d(2024, 2, 29)));
    assert_eq!(d(2023, 3, 1).pred_opt(), Some(d(2023, 2, 28)));
    assert_eq!(d(2024, 1, 1).pred_opt(), Some(d(2023, 12, 31)));
    assert_eq!(d(2024, 5, 17).pred_opt(), Some(d(2024, 5, 16)));
    assert_eq!(d(2024, 12, 1).pred_opt(), Some(d(2024, 11, 30)));
    assert_eq!(d(2024, 8, 1).pred_opt(), Some(d(2024, 7, 31)));
    assert_eq!(d(-262143, 1, 1).pred_opt(), None);
    assert_eq!(d(2024, 2, 30).pred_opt(), None);
    assert_eq!(Date::default(), d(1970, 1, 1));
    assert_eq!(DateTime::default(), d(1970, 1, 1).and_midnight());
    for date in [d(2024, 12, 31), d(7, 1, 2), d(0, 1, 1), d(9999, 9, 9), d(10000, 1, 1), d(-1, 12, 31), d(-262143, 1, 1), d(262142, 12, 31)] {
        assert_eq!(Some(date.to_iso()), date.format("%Y-%m-%d"));
        assert_eq!(Some(date.to_compact()), date.format("%Y%m%d"));
    }
    assert_eq!(d(2024, 12, 31).to_iso(), "2024-12-31");
    assert_eq!(d(7, 1, 2).to_compact(), "00070102");
    assert_eq!(d(-5, 1, 2).to_iso(), "-0005-01-02");
    assert_eq!(d(12345, 1, 2).to_iso(), "+12345-01-02");
    assert_eq!(year_string(0), "0000");
    assert_eq!(padded_number(5, 2), "05");
    assert_eq!(padded_number(123, 2), "123");
    assert_eq!(padded_number(0, 0), "0");
    assert_eq!(d(2024, 2, 30).format("%Y"), None);
    assert_eq!(d(2024, 2, 3).format("%d.%m.%Y"), Some("03.02.2024".to_string()));
    assert_eq!(d(2024, 2, 3).format("%Q"), None);
}

#[test]
fn dates_are_read() {
    assert_eq!(
        Date::parse_from_str("2024-12-31", "%Y-%m-%d"),
        Some(Date { year: 2024, month: 12, day: 31 })
    );
    assert_eq!(Date::parse_from_str("2024-02-30", "%Y-%m-%d"), None);
    assert_eq!(Date::parse_from_str("yesterday", "%Y-%m-%d"), None);
    let t = DateTime::parse_from_str("20240501123456", "%Y%m%d%H%M%S").unwrap();
    assert_eq!(
        t,
        DateTime { date: Date { year: 2024, month: 5, day: 1 }, hour: 12, minute: 34, second: 56 }
    );
    assert_eq!(t.to_compact(), "20240501123456");
    assert_eq!(DateTime::parse_from_str("2024-01-02 03:04", "%Y-%m-%d %H:%M").unwrap().minute, 4);
    assert_eq!(DateTime::parse_from_str("20240501", "%Y%m%d%H%M%S"), None);
    assert_eq!(DateTime::parse_from_str("20241301000000", "%Y%m%d%H%M%S"), None);
}

#[test]
fn json_values_are_read() {
    let doc = JsonValue::object(vec![
        ("name".to_string(), JsonValue::string("x")),
        ("count".to_string(), JsonValue::unsigned(3)),
        ("low".to_string(), JsonValue::Number(JsonNumber::NegInt(-3))),
        ("big".to_string(), JsonValue::unsigned(u64::MAX)),
        ("ratio".to_string(), JsonValue::Number(JsonNumber::Float("1.5".to_string()))),
        ("flag".to_string(), JsonValue::boolean(true)),
        ("list".to_string(), JsonValue::array(vec![JsonValue::Null, JsonValue::unsigned(1)])),
        ("inner".to_string(), JsonValue::object(vec![("k".to_string(), JsonValue::Null)])),
        ("name".to_string(), JsonValue::string("second")),
    ]);
    assert_eq!(doc.str_at("name"), Some("x"));
    assert_eq!(doc.get("name"), Some(&JsonValue::string("x")));
    assert_eq!(doc.get("missing"), None);
    assert_eq!(doc.str_at("count"), None);
    assert_eq!(doc.u64_at("count"), Some(3));
    assert_eq!(doc.i64_at("count"), Some(3));
    assert_eq!(doc.u64_at("low"), None);
    assert_eq!(doc.i64_at("low"), Some(-3));
    assert_eq!(doc.u64_at("big"), Some(u64::MAX));
    assert_eq!(doc.i64_at("big"), None);
    assert_eq!(doc.u64_at("ratio"), None);
    assert_eq!(doc.i64_at("ratio"), None);
    assert_eq!(doc.bool_at("flag"), Some(true));
    assert_eq!(doc.bool_at("name"), None);
    assert_eq!(doc.array_at("list").unwrap().len(), 2);
    assert_eq!(doc.array_at("inner"), None);
    assert_eq!(doc.object_at("inner").unwrap().len(), 1);
    assert_eq!(doc.object_at("list"), None);
    assert_eq!(doc.as_object().unwrap().len(), 9);
    assert_eq!(JsonValue::Null.get("x"), None);
    assert_eq!(JsonValue::string("s").as_str(), Some("s"));
    assert_eq!(JsonValue::Null.as_str(), None);
    assert_eq!(JsonValue::unsigned(1).as_array(), None);
    assert_eq!(doc.copy(), doc);
    assert_eq!(JsonNumber::Float("2.5".to_string()).copy(), JsonNumber::Float("2.5".to_string()));
}

#[test]
fn errors_have_messages() {
    assert_eq!(ToolsError::Tool("broken".to_string()).message(), "Tool error: broken");
    assert_eq!(ToolsError::Json("odd".to_string()).message(), "JSON error: odd");
}
