use bacnet::text::{decimal_text, parse_bool, parse_i32, parse_u64};
use bacnet::value::BACnetValue;

fn samples() -> Vec<&'static str> {
    vec![
        "", " ", "0", "7", "007", "42", "+42", "-42", "+", "-", "+-1", "-+1", "--1", "++1", "+0",
        "-0", "1 ", " 1", "1_000", "1e3", "1.5", "0x10", "true", "false", "True", "FALSE", "true ",
        "tru", "truee", "falsee", "fals", "18446744073709551615", "18446744073709551616",
        "+18446744073709551615", "-18446744073709551615", "99999999999999999999999999",
        "00000000000000000000000000000000000012", "2147483647", "2147483648", "-2147483648",
        "-2147483649", "+2147483647", "+2147483648", "4294967295", "-4294967296", "١٢٣", "1é", "é1",
        "+é", "-é", "trué", "９", "12a", "a12", "1-2", "1+2", "\u{0}1", "1\u{7f}",
    ]
}

#[test]
fn parse_bool_agrees_with_the_standard_library() {
    for text in samples() {
        assert_eq!(parse_bool(text), text.parse::<bool>().ok(), "{:?}", text);
    }
}

#[test]
fn parse_u64_agrees_with_the_standard_library() {
    for text in samples() {
        assert_eq!(parse_u64(text), text.parse::<u64>().ok(), "{:?}", text);
    }
}

#[test]
fn parse_i32_agrees_with_the_standard_library() {
    for text in samples() {
        assert_eq!(parse_i32(text), text.parse::<i32>().ok(), "{:?}", text);
    }
}

#[test]
fn parse_exact_values() {
    assert_eq!(parse_bool("true"), Some(true));
    assert_eq!(parse_bool("false"), Some(false));
    assert_eq!(parse_bool("yes"), None);
    assert_eq!(parse_u64("0"), Some(0));
    assert_eq!(parse_u64("+42"), Some(42));
    assert_eq!(parse_u64("18446744073709551615"), Some(u64::MAX));
    assert_eq!(parse_u64("18446744073709551616"), None);
    assert_eq!(parse_u64("-1"), None);
    assert_eq!(parse_u64(""), None);
    assert_eq!(parse_i32("-2147483648"), Some(i32::MIN));
    assert_eq!(parse_i32("2147483647"), Some(i32::MAX));
    assert_eq!(parse_i32("2147483648"), None);
    assert_eq!(parse_i32("-2147483649"), None);
    assert_eq!(parse_i32("-0"), Some(0));
    assert_eq!(parse_i32("-"), None);
}

#[test]
fn decimal_text_agrees_with_the_standard_library() {
    for n in [0u32, 1, 9, 10, 11, 99, 100, 101, 999, 1000, 65535, 65536, 4294967294, u32::MAX] {
        assert_eq!(decimal_text(n), n.to_string());
    }
}

#[test]
fn decimal_text_is_read_back() {
    for n in [0u32, 5, 10, 123, 4000000000, u32::MAX] {
        assert_eq!(parse_u64(&decimal_text(n)), Some(n as u64));
    }
}

#[test]
fn from_text_tries_the_kinds_in_order() {
    assert_eq!(BACnetValue::from_text(String::from("true"), None, None), BACnetValue::Bool(true));
    assert_eq!(BACnetValue::from_text(String::from("false"), None, None), BACnetValue::Bool(false));
    // a number without a sign is unsigned, even where it fits a signed one
    assert_eq!(
        BACnetValue::from_text(String::from("42"), Some(42f32.to_bits()), Some(42f64.to_bits())),
        BACnetValue::Uint(42)
    );
    assert_eq!(
        BACnetValue::from_text(String::from("+42"), Some(42f32.to_bits()), Some(42f64.to_bits())),
        BACnetValue::Uint(42)
    );
    assert_eq!(
        BACnetValue::from_text(String::from("-42"), Some((-42f32).to_bits()), None),
        BACnetValue::Int(-42)
    );
    assert_eq!(
        BACnetValue::from_text(String::from("18446744073709551615"), None, None),
        BACnetValue::Uint(u64::MAX)
    );
    // too large for an unsigned number: a real one
    let huge = "18446744073709551616";
    assert_eq!(
        BACnetValue::from_text(
            String::from(huge),
            huge.parse::<f32>().ok().map(f32::to_bits),
            huge.parse::<f64>().ok().map(f64::to_bits)
        ),
        BACnetValue::Real(18446744073709551616f32.to_bits())
    );
    // too small for a signed number: a real one
    assert_eq!(
        BACnetValue::from_text(String::from("-2147483649"), Some((-2147483649f32).to_bits()), None),
        BACnetValue::Real((-2147483649f32).to_bits())
    );
    assert_eq!(
        BACnetValue::from_text(String::from("1.5"), Some(1.5f32.to_bits()), Some(1.5f64.to_bits())),
        BACnetValue::Real(1.5f32.to_bits())
    );
    assert_eq!(
        BACnetValue::from_text(String::from("1.5"), None, Some(1.5f64.to_bits())),
        BACnetValue::Double(1.5f64.to_bits())
    );
    assert_eq!(
        BACnetValue::from_text(String::from("room 1"), None, None),
        BACnetValue::String(String::from("room 1"))
    );
    assert_eq!(
        BACnetValue::from_text(String::new(), None, None),
        BACnetValue::String(String::new())
    );
    assert_eq!(
        BACnetValue::from_text(String::from("True"), None, None),
        BACnetValue::String(String::from("True"))
    );
}
