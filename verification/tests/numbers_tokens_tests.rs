use editor_server::numbers::{i32_to_dec, parse_i32, parse_u32, u32_to_dec, u64_to_dec};
use editor_server::tokens::{join_space, split_string, splitn_string};

#[test]
fn parse_u32_accepts_what_std_accepts() {
    assert_eq!(parse_u32("0"), Some(0));
    assert_eq!(parse_u32("42"), Some(42));
    assert_eq!(parse_u32("+12"), Some(12));
    assert_eq!(parse_u32("007"), Some(7));
    assert_eq!(parse_u32("4294967295"), Some(u32::MAX));
}

#[test]
fn parse_u32_rejects_what_std_rejects() {
    assert_eq!(parse_u32(""), None);
    assert_eq!(parse_u32("+"), None);
    assert_eq!(parse_u32("-1"), None);
    assert_eq!(parse_u32("12a"), None);
    assert_eq!(parse_u32(" 12"), None);
    assert_eq!(parse_u32("4294967296"), None);
    assert_eq!(parse_u32("99999999999999999999999999"), None);
}

#[test]
fn parse_i32_accepts_what_std_accepts() {
    assert_eq!(parse_i32("0"), Some(0));
    assert_eq!(parse_i32("-0"), Some(0));
    assert_eq!(parse_i32("+7"), Some(7));
    assert_eq!(parse_i32("-13"), Some(-13));
    assert_eq!(parse_i32("2147483647"), Some(i32::MAX));
    assert_eq!(parse_i32("-2147483648"), Some(i32::MIN));
}

#[test]
fn parse_i32_rejects_what_std_rejects() {
    assert_eq!(parse_i32(""), None);
    assert_eq!(parse_i32("-"), None);
    assert_eq!(parse_i32("+"), None);
    assert_eq!(parse_i32("--1"), None);
    assert_eq!(parse_i32("2147483648"), None);
    assert_eq!(parse_i32("-2147483649"), None);
    assert_eq!(parse_i32("1 2"), None);
}

#[test]
fn rendering_matches_std_formatting() {
    assert_eq!(u64_to_dec(0), "0");
    assert_eq!(u64_to_dec(10), "10");
    assert_eq!(u64_to_dec(90210), "90210");
    assert_eq!(u32_to_dec(u32::MAX), "4294967295");
    assert_eq!(i32_to_dec(0), "0");
    assert_eq!(i32_to_dec(42), "42");
    assert_eq!(i32_to_dec(-1), "-1");
    assert_eq!(i32_to_dec(i32::MIN), "-2147483648");
}

#[test]
fn rendering_then_parsing_is_identity() {
    for v in [0i32, 1, -1, 7, -13, 90210, i32::MAX, i32::MIN] {
        assert_eq!(parse_i32(&i32_to_dec(v)), Some(v));
    }
    for v in [0u32, 5, 10, 99, u32::MAX] {
        assert_eq!(parse_u32(&u32_to_dec(v)), Some(v));
    }
}

#[test]
fn split_behaves_like_str_split_on_a_space() {
    let cases = ["", " ", "a", "a b", "a  b", " a", "a ", "hello world again"];
    for s in cases {
        let expected: Vec<String> = s.split(' ').map(|t| t.to_string()).collect();
        assert_eq!(split_string(s, ' '), expected, "splitting {:?}", s);
    }
}

#[test]
fn splitn_behaves_like_str_splitn_on_a_space() {
    let cases = ["", "a b c d", "a", "0 3 0 3 5 -1 hello world", "x  y z"];
    for s in cases {
        for n in 1..=8usize {
            let expected: Vec<String> = s.splitn(n, ' ').map(|t| t.to_string()).collect();
            assert_eq!(splitn_string(s, n, ' '), expected, "splitting {:?} into {}", s, n);
        }
    }
}

#[test]
fn join_space_is_the_inverse_of_split_on_clean_tokens() {
    let parts: Vec<String> = vec!["a".into(), "".into(), "bc".into()];
    let joined = join_space(&parts);
    assert_eq!(joined, "a  bc");
    assert_eq!(split_string(&joined, ' '), parts);
    assert_eq!(join_space(&Vec::new()), "");
}
