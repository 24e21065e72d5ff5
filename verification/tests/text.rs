use axel::api::RemoteDataItemType;
use axel::bool_as_int;
use axel::text::{i64_text, parse_i32, parse_i64, parse_u32, u64_text};

#[test]
fn integers_parse_like_std() {
    for s in ["0", "-0", "+5", "-9223372036854775808", "9223372036854775808", "", "-", "1a", " 1", "007"] {
        assert_eq!(parse_i64(s), s.parse::<i64>().ok(), "{s}");
        assert_eq!(parse_i32(s), s.parse::<i32>().ok(), "{s}");
        assert_eq!(parse_u32(s), s.parse::<u32>().ok(), "{s}");
    }
    assert_eq!(parse_u32("4294967295"), Some(u32::MAX));
    assert_eq!(parse_u32("4294967296"), None);
}

#[test]
fn integers_print_like_std() {
    for v in [0i64, 7, -7, i64::MIN, i64::MAX, 1234567890] {
        assert_eq!(i64_text(v), v.to_string());
        assert_eq!(parse_i64(&i64_text(v)), Some(v));
    }
    assert_eq!(u64_text(u64::MAX), u64::MAX.to_string());
}

#[test]
fn item_type_codes_roundtrip() {
    for code in -3..60 {
        assert_eq!(RemoteDataItemType::of_code(code).code(), code);
    }
    assert_eq!(RemoteDataItemType::CollaborationMedal.code(), 46);
    assert!(matches!(RemoteDataItemType::of_code(26), RemoteDataItemType::Another(26)));
}

#[test]
fn bools_as_ints() {
    assert_eq!(bool_as_int::serialize(true), 1);
    assert_eq!(bool_as_int::deserialize(0), Ok(false));
    assert_eq!(bool_as_int::deserialize(1), Ok(true));
    assert!(bool_as_int::deserialize(2).is_err());
}
