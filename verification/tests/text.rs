use iota::text::{
    contains, count_leading_spaces, lines, matches_at, parse_i32, parse_i64, parse_u64, push_decimal, push_i64,
    remove_all, remove_char, repeat_char, split_on_char, split_str, str_eq, strip_prefix, trim_start_matches,
};

const SAMPLES: [&str; 22] = [
    "", "0", "7", "+7", "-7", "+", "-", "--1", "12a", " 1", "1 ", "007", "-0", "2147483647", "2147483648",
    "-2147483648", "-2147483649", "9223372036854775807", "9223372036854775808", "-9223372036854775808",
    "18446744073709551615", "18446744073709551616",
];

#[test]
fn numbers_parse_as_std_does() {
    for s in SAMPLES {
        assert_eq!(parse_u64(s), s.parse::<u64>().ok(), "u64 {:?}", s);
        assert_eq!(parse_i64(s), s.parse::<i64>().ok(), "i64 {:?}", s);
        assert_eq!(parse_i32(s), s.parse::<i32>().ok(), "i32 {:?}", s);
    }
}

#[test]
fn decimals_print_as_std_does() {
    for n in [0u64, 9, 10, 12345, u64::MAX] {
        let mut s = String::from("x=");
        push_decimal(&mut s, n);
        assert_eq!(s, format!("x={}", n));
    }
    for n in [0i64, -1, 42, i64::MIN, i64::MAX] {
        let mut s = String::new();
        push_i64(&mut s, n);
        assert_eq!(s, n.to_string());
    }
}

#[test]
fn lines_as_std_does() {
    for s in ["", "a", "a\n", "a\nb", "a\r\nb\r\n", "\n\n", "a\r", "x\r\r\ny"] {
        let ours = lines(s);
        let std: Vec<String> = s.lines().map(String::from).collect();
        assert_eq!(ours, std, "lines of {:?}", s);
    }
}

#[test]
fn splits_as_std_does() {
    for s in ["", "a", "a,b", ",a,,b,", ",,"] {
        let std: Vec<String> = s.split(',').map(String::from).collect();
        assert_eq!(split_on_char(s, ','), std);
    }
    for s in ["", "{}", "a{}b{}", "{{}}", "x{}{}y"] {
        let std: Vec<String> = s.split("{}").map(String::from).collect();
        assert_eq!(split_str(s, "{}"), std);
    }
}

#[test]
fn searching() {
    assert!(contains("hello world", "o w"));
    assert!(contains("abc", ""));
    assert!(!contains("abc", "abcd"));
    assert!(matches_at("abcdef", "cd", 2));
    assert!(!matches_at("abcdef", "cd", 3));
    assert!(!matches_at("abcdef", "ef", 5));
    assert!(str_eq("ä", "ä"));
    assert!(!str_eq("a", "b"));
    assert_eq!(strip_prefix("EULA=true", "EULA="), Some("true"));
    assert_eq!(strip_prefix("EULA", "EULA="), None);
}

#[test]
fn removing_and_trimming() {
    assert_eq!(remove_char("a_b_c", '_'), "abc");
    assert_eq!(remove_all("```rust```", "```"), "rust");
    assert_eq!(remove_all("aaa", "aa"), "a");
    assert_eq!(trim_start_matches("# # x", "# "), "x");
    assert_eq!(trim_start_matches("##x", "# "), "##x");
    assert_eq!(count_leading_spaces("   - a"), 3);
    assert_eq!(count_leading_spaces("\t a"), 0);
    assert_eq!(repeat_char('─', 3), "───");
    assert_eq!(repeat_char('x', 0), "");
}
