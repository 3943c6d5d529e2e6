use rust_neon_template::text::{
    chars_of, joined, contains_exec, decimal_i32, decimal_u64, parse_u16, split_first_exec,
    split_second_exec, strip_prefix_exec,
};

fn cs(s: &str) -> Vec<char> {
    chars_of(s)
}

#[test]
fn decimal_of_signed_and_unsigned() {
    assert_eq!(decimal_i32(0), "0");
    assert_eq!(decimal_i32(42), "42");
    assert_eq!(decimal_i32(-7), "-7");
    assert_eq!(decimal_i32(i32::MIN), "-2147483648");
    assert_eq!(decimal_i32(i32::MAX), "2147483647");
    assert_eq!(decimal_u64(u64::MAX), "18446744073709551615");
    assert_eq!(decimal_u64(1000), "1000");
}

#[test]
fn parse_u16_follows_str_parse() {
    let cases = ["8080", "+80", "+", "-1", "65535", "65536", "", "12a", "007", " 1", "99999999999"];
    for case in cases {
        assert_eq!(parse_u16(&cs(case)), case.parse::<u16>().ok(), "case {:?}", case);
    }
}

#[test]
fn port_text_round_trips() {
    for n in 0..=u16::MAX {
        let text = decimal_u64(n as u64);
        assert_eq!(parse_u16(&cs(&text)), Some(n));
    }
}

#[test]
fn split_pieces() {
    let msg = cs("error: 401 Unauthorized: x - body - more");
    assert_eq!(split_second_exec(&msg, &cs(": ")), Some("401 Unauthorized".to_string()));
    assert_eq!(split_second_exec(&msg, &cs(" - ")), Some("body".to_string()));
    assert_eq!(split_second_exec(&cs("no separator"), &cs(": ")), None);
    assert_eq!(split_second_exec(&cs("a: tail"), &cs(": ")), Some("tail".to_string()));
    assert_eq!(split_first_exec(&cs("401 Unauthorized"), &cs(" ")), "401");
    assert_eq!(split_first_exec(&cs("single"), &cs(" ")), "single");
    assert_eq!(split_first_exec(&cs(""), &cs(";")), "");
}

#[test]
fn prefix_and_contains() {
    assert_eq!(strip_prefix_exec(&cs("Bearer abc"), &cs("Bearer ")), Some("abc".to_string()));
    assert_eq!(strip_prefix_exec(&cs("Bearer"), &cs("Bearer ")), None);
    assert_eq!(strip_prefix_exec(&cs("bearer abc"), &cs("Bearer ")), None);
    assert!(contains_exec(&cs("user already exists"), &cs("already exists")));
    assert!(!contains_exec(&cs("already exist"), &cs("already exists")));
    assert_eq!(joined("ab", "cd"), "abcd");
}

