use bacnet::errors::BACnetErr;
use bacnet::value::BACnetValue;

#[test]
fn uint_is_a_number() {
    assert_eq!(BACnetValue::Uint(5).try_into_u64(), Ok(5));
    assert_eq!(BACnetValue::Uint(u64::MAX).try_into_u64(), Ok(u64::MAX));
}

#[test]
fn no_other_value_is_a_number() {
    assert_eq!(BACnetValue::Int(5).try_into_u64(), Err(BACnetErr::InvalidValue));
    assert_eq!(BACnetValue::Null.try_into_u64(), Err(BACnetErr::InvalidValue));
    assert_eq!(BACnetValue::Enum(5, None).try_into_u64(), Err(BACnetErr::InvalidValue));
    assert_eq!(
        BACnetValue::String(String::from("5")).try_into_u64(),
        Err(BACnetErr::InvalidValue)
    );
}

#[test]
fn string_is_a_text() {
    assert_eq!(
        BACnetValue::String(String::from("hello")).try_into_string(),
        Ok(String::from("hello"))
    );
}

#[test]
fn named_enum_is_its_name() {
    assert_eq!(
        BACnetValue::Enum(1, Some(String::from("active"))).try_into_string(),
        Ok(String::from("active"))
    );
}

#[test]
fn unnamed_enum_is_its_decimal_numeral() {
    assert_eq!(BACnetValue::Enum(0, None).try_into_string(), Ok(String::from("0")));
    assert_eq!(BACnetValue::Enum(7, None).try_into_string(), Ok(String::from("7")));
    assert_eq!(BACnetValue::Enum(10, None).try_into_string(), Ok(String::from("10")));
    assert_eq!(BACnetValue::Enum(1234567890, None).try_into_string(), Ok(String::from("1234567890")));
    assert_eq!(
        BACnetValue::Enum(u32::MAX, None).try_into_string(),
        Ok(String::from("4294967295"))
    );
}

#[test]
fn no_other_value_is_a_text() {
    assert_eq!(BACnetValue::Uint(5).try_into_string(), Err(BACnetErr::InvalidValue));
    assert_eq!(BACnetValue::Bool(true).try_into_string(), Err(BACnetErr::InvalidValue));
    assert_eq!(BACnetValue::Array(vec![]).try_into_string(), Err(BACnetErr::InvalidValue));
}

#[test]
fn clone_gives_an_equal_value() {
    let values = vec![
        BACnetValue::Null,
        BACnetValue::Bool(true),
        BACnetValue::Uint(1),
        BACnetValue::Int(-1),
        BACnetValue::Real(3),
        BACnetValue::Double(4),
        BACnetValue::String(String::from("s")),
        BACnetValue::Bytes(vec![1, 2]),
        BACnetValue::BitString(vec![true, false]),
        BACnetValue::Date { year: 2024, month: 1, day: 15, weekday: 1 },
        BACnetValue::Enum(2, Some(String::from("two"))),
        BACnetValue::Enum(2, None),
        BACnetValue::ObjectId { object_type: 8, object_instance: 1 },
        BACnetValue::Array(vec![
            BACnetValue::Uint(1),
            BACnetValue::Array(vec![BACnetValue::String(String::from("deep"))]),
        ]),
    ];
    for value in values {
        assert_eq!(value.clone(), value);
    }
}

#[test]
fn errors_tell_timeouts_and_unknown_properties_apart() {
    assert!(BACnetErr::TsmTimeout.is_timeout());
    assert!(BACnetErr::ApduTimeout.is_timeout());
    assert!(!BACnetErr::NoValue.is_timeout());
    assert!(!BACnetErr::Rejected { code: 1 }.is_timeout());
    let unknown = BACnetErr::Error {
        class_text: String::from("property"),
        class: 2,
        text: String::from("unknown-property"),
        code: 32,
    };
    assert!(unknown.is_unknown_property());
    assert!(!unknown.is_timeout());
    let other = BACnetErr::Error {
        class_text: String::from("property"),
        class: 2,
        text: String::from("write-access-denied"),
        code: 40,
    };
    assert!(!other.is_unknown_property());
    let other_class = BACnetErr::Error {
        class_text: String::from("object"),
        class: 1,
        text: String::from("unknown-object"),
        code: 32,
    };
    assert!(!other_class.is_unknown_property());
    assert!(!BACnetErr::TsmTimeout.is_unknown_property());
    assert_eq!(unknown.clone(), unknown);
}
