use tweetchive::id_map::IdMap;
use tweetchive::strings::{chars_of, contains_str, split_on};
use tweetchive::text::{
    append_decimal, digit_str, i64_to_decimal, parse_i64, parse_u64, u64_to_decimal,
};
use tweetchive::uuid_text::uuid_to_string;

#[test]
fn decimal_of_unsigned_numbers() {
    assert_eq!(u64_to_decimal(0), "0");
    assert_eq!(u64_to_decimal(7), "7");
    assert_eq!(u64_to_decimal(10), "10");
    assert_eq!(u64_to_decimal(1234567890), "1234567890");
    assert_eq!(u64_to_decimal(u64::MAX), "18446744073709551615");
}

#[test]
fn decimal_of_signed_numbers() {
    assert_eq!(i64_to_decimal(0), "0");
    assert_eq!(i64_to_decimal(-42), "-42");
    assert_eq!(i64_to_decimal(42), "42");
    assert_eq!(i64_to_decimal(i64::MIN), "-9223372036854775808");
    assert_eq!(i64_to_decimal(i64::MAX), "9223372036854775807");
}

#[test]
fn decimal_matches_format() {
    for n in [0u64, 1, 9, 99, 100, 65535, 4294967296, 1u64 << 63, u64::MAX] {
        assert_eq!(u64_to_decimal(n), format!("{n}"));
    }
    for n in [i64::MIN, -1000, -1, 0, 1, 31337, i64::MAX] {
        assert_eq!(i64_to_decimal(n), format!("{n}"));
    }
}

#[test]
fn digit_strings() {
    for d in 0u64..10 {
        assert_eq!(digit_str(d), format!("{d}"));
    }
}

#[test]
fn appending_decimals() {
    let mut s = String::from("id=");
    append_decimal(&mut s, 305);
    assert_eq!(s, "id=305");
}

#[test]
fn parse_unsigned_accepts_what_std_accepts() {
    assert_eq!(parse_u64("0"), Some(0));
    assert_eq!(parse_u64("123"), Some(123));
    assert_eq!(parse_u64("+5"), Some(5));
    assert_eq!(parse_u64("007"), Some(7));
    assert_eq!(parse_u64("18446744073709551615"), Some(u64::MAX));
}

#[test]
fn parse_unsigned_rejects_what_std_rejects() {
    assert_eq!(parse_u64(""), None);
    assert_eq!(parse_u64("+"), None);
    assert_eq!(parse_u64("-1"), None);
    assert_eq!(parse_u64("12a"), None);
    assert_eq!(parse_u64(" 1"), None);
    assert_eq!(parse_u64("18446744073709551616"), None);
}

#[test]
fn parse_signed_numbers() {
    assert_eq!(parse_i64("-0"), Some(0));
    assert_eq!(parse_i64("+7"), Some(7));
    assert_eq!(parse_i64("-42"), Some(-42));
    assert_eq!(parse_i64("-9223372036854775808"), Some(i64::MIN));
    assert_eq!(parse_i64("9223372036854775807"), Some(i64::MAX));
    assert_eq!(parse_i64("9223372036854775808"), None);
    assert_eq!(parse_i64("-9223372036854775809"), None);
    assert_eq!(parse_i64("-"), None);
    assert_eq!(parse_i64(""), None);
    assert_eq!(parse_i64("1.5"), None);
}

#[test]
fn parse_agrees_with_std() {
    for s in ["", "+", "-", "0", "+0", "-0", "12", "-12", "+12", "9x", "99999999999999999999"] {
        assert_eq!(parse_u64(s), s.parse::<u64>().ok());
        assert_eq!(parse_i64(s), s.parse::<i64>().ok());
    }
}

#[test]
fn decimal_round_trip() {
    for n in [0u64, 5, 10, 12345, u64::MAX - 1, u64::MAX] {
        assert_eq!(parse_u64(&u64_to_decimal(n)), Some(n));
    }
    for n in [i64::MIN, -77, 0, 77, i64::MAX] {
        assert_eq!(parse_i64(&i64_to_decimal(n)), Some(n));
    }
}

#[test]
fn uuid_text_is_hyphenated_lower_hex() {
    let v: u128 = 0x123e4567_e89b_12d3_a456_426614174000;
    assert_eq!(uuid_to_string(v), "123e4567-e89b-12d3-a456-426614174000");
    assert_eq!(uuid_to_string(0), "00000000-0000-0000-0000-000000000000");
    assert_eq!(uuid_to_string(u128::MAX), "ffffffff-ffff-ffff-ffff-ffffffffffff");
}

#[test]
fn uuid_text_matches_uuid_crate() {
    for v in [1u128, 0xdead_beef, 0x0123_4567_89ab_cdef_0123_4567_89ab_cdef, u128::MAX / 3] {
        assert_eq!(uuid_to_string(v), uuid::Uuid::from_u128(v).hyphenated().to_string());
    }
}

#[test]
fn characters_and_infixes() {
    assert_eq!(chars_of("aé"), vec!['a', 'é']);
    assert!(contains_str("animated_gif", "gif"));
    assert!(contains_str("abc", ""));
    assert!(!contains_str("ab", "abc"));
    assert!(!contains_str("picture", "video"));
}

#[test]
fn splitting_like_str_split() {
    assert_eq!(split_on("a.b..c", '.'), vec!["a", "b", "", "c"]);
    assert_eq!(split_on("", '.'), vec![""]);
    assert_eq!(split_on(".", '.'), vec!["", ""]);
    assert_eq!(split_on("abc", '.'), vec!["abc"]);
    let s = "/user/status/123/";
    let expected: Vec<&str> = s.split('/').collect();
    assert_eq!(split_on(s, '/'), expected);
}

#[test]
fn id_map_replaces_and_keeps_first_order() {
    let mut m: IdMap<&str> = IdMap::new();
    assert_eq!(m.len(), 0);
    m.insert(5, "five");
    m.insert(2, "two");
    m.insert(5, "FIVE");
    assert_eq!(m.len(), 2);
    assert!(m.contains_key(5));
    assert!(m.contains_key(2));
    assert!(!m.contains_key(7));
    assert_eq!(m.into_values(), vec!["FIVE", "two"]);
}
