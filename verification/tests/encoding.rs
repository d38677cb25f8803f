use bacnet::encoding::{
    decode_data, encode_data, enum_name_table, ApplicationData, EnumNameTable, ReadPropertyData,
    MAX_BITSTRING_BITS, MAX_CHARACTER_STRING_BYTES, MAX_OCTET_STRING_BYTES,
};
use bacnet::errors::BACnetErr;
use bacnet::value::BACnetValue;

fn reply(object_type: u32, property: u32, data: Option<ApplicationData>) -> ReadPropertyData {
    ReadPropertyData {
        object_type,
        object_instance: 1,
        object_property: property,
        array_index: u32::MAX,
        application_data: data,
    }
}

fn round_trip(value: BACnetValue) -> Result<BACnetValue, BACnetErr> {
    let data = encode_data(value)?;
    decode_data(reply(0, 0, Some(data)), None, String::from("tag"))
}

#[test]
fn round_trip_uint() {
    assert_eq!(round_trip(BACnetValue::Uint(42)), Ok(BACnetValue::Uint(42)));
}

#[test]
fn round_trip_string() {
    assert_eq!(
        round_trip(BACnetValue::String(String::from("hello"))),
        Ok(BACnetValue::String(String::from("hello")))
    );
}

#[test]
fn round_trip_bit_string() {
    assert_eq!(
        round_trip(BACnetValue::BitString(vec![true, false, true])),
        Ok(BACnetValue::BitString(vec![true, false, true]))
    );
}

#[test]
fn round_trip_date() {
    let date = BACnetValue::Date { year: 2024, month: 1, day: 15, weekday: 1 };
    assert_eq!(
        round_trip(date),
        Ok(BACnetValue::Date { year: 2024, month: 1, day: 15, weekday: 1 })
    );
}

#[test]
fn round_trip_object_id() {
    let id = BACnetValue::ObjectId { object_type: 8, object_instance: 0 };
    assert_eq!(
        round_trip(id),
        Ok(BACnetValue::ObjectId { object_type: 8, object_instance: 0 })
    );
}

#[test]
fn round_trip_other_scalars() {
    assert_eq!(round_trip(BACnetValue::Null), Ok(BACnetValue::Null));
    assert_eq!(round_trip(BACnetValue::Bool(true)), Ok(BACnetValue::Bool(true)));
    assert_eq!(round_trip(BACnetValue::Int(-7)), Ok(BACnetValue::Int(-7)));
    let real = 1.5f32.to_bits();
    assert_eq!(round_trip(BACnetValue::Real(real)), Ok(BACnetValue::Real(real)));
    let double = (-2.25f64).to_bits();
    assert_eq!(round_trip(BACnetValue::Double(double)), Ok(BACnetValue::Double(double)));
    assert_eq!(
        round_trip(BACnetValue::Bytes(vec![0, 255, 7])),
        Ok(BACnetValue::Bytes(vec![0, 255, 7]))
    );
    assert_eq!(round_trip(BACnetValue::Enum(3, None)), Ok(BACnetValue::Enum(3, None)));
}

#[test]
fn round_trip_drops_a_name_that_decoding_does_not_attach() {
    let named = BACnetValue::Enum(3, Some(String::from("three")));
    assert_eq!(round_trip(named), Ok(BACnetValue::Enum(3, None)));
}

#[test]
fn round_trip_keeps_the_name_that_decoding_attaches() {
    let data = encode_data(BACnetValue::Enum(62, Some(String::from("degrees-celsius")))).unwrap();
    let back = decode_data(
        reply(0, 117, Some(data)),
        Some(String::from("degrees-celsius")),
        String::from("tag"),
    );
    assert_eq!(back, Ok(BACnetValue::Enum(62, Some(String::from("degrees-celsius")))));
}

#[test]
fn encode_gives_the_datum_of_each_kind() {
    assert_eq!(encode_data(BACnetValue::Null), Ok(ApplicationData::Null));
    assert_eq!(encode_data(BACnetValue::Bool(false)), Ok(ApplicationData::Boolean(false)));
    assert_eq!(encode_data(BACnetValue::Uint(42)), Ok(ApplicationData::UnsignedInt(42)));
    assert_eq!(encode_data(BACnetValue::Int(-1)), Ok(ApplicationData::SignedInt(-1)));
    assert_eq!(encode_data(BACnetValue::Real(7)), Ok(ApplicationData::Real(7)));
    assert_eq!(encode_data(BACnetValue::Double(9)), Ok(ApplicationData::Double(9)));
    assert_eq!(
        encode_data(BACnetValue::Enum(5, Some(String::from("x")))),
        Ok(ApplicationData::Enumerated(5))
    );
    assert_eq!(
        encode_data(BACnetValue::ObjectId { object_type: 8, object_instance: 4 }),
        Ok(ApplicationData::ObjectId { object_type: 8, instance: 4 })
    );
    assert_eq!(
        encode_data(BACnetValue::Date { year: 2024, month: 1, day: 15, weekday: 1 }),
        Ok(ApplicationData::Date { year: 2024, month: 1, day: 15, wday: 1 })
    );
}

#[test]
fn encode_array_fails() {
    assert_eq!(encode_data(BACnetValue::Array(vec![])), Err(BACnetErr::EncodeFailed));
    assert_eq!(
        encode_data(BACnetValue::Array(vec![BACnetValue::Uint(1), BACnetValue::Null])),
        Err(BACnetErr::EncodeFailed)
    );
    assert_eq!(
        encode_data(BACnetValue::Array(vec![BACnetValue::Array(vec![])])),
        Err(BACnetErr::EncodeFailed)
    );
}

#[test]
fn encode_refuses_an_oversize_octet_string() {
    let fits = vec![1u8; MAX_OCTET_STRING_BYTES];
    assert_eq!(
        encode_data(BACnetValue::Bytes(fits.clone())),
        Ok(ApplicationData::OctetString(fits))
    );
    let too_long = vec![1u8; MAX_OCTET_STRING_BYTES + 1];
    assert_eq!(encode_data(BACnetValue::Bytes(too_long)), Err(BACnetErr::EncodeFailed));
}

#[test]
fn encode_refuses_an_oversize_character_string() {
    let fits = "a".repeat(MAX_CHARACTER_STRING_BYTES);
    assert_eq!(
        encode_data(BACnetValue::String(fits.clone())),
        Ok(ApplicationData::CharacterString(fits))
    );
    let too_long = "a".repeat(MAX_CHARACTER_STRING_BYTES + 1);
    assert_eq!(encode_data(BACnetValue::String(too_long)), Err(BACnetErr::EncodeFailed));
}

#[test]
fn encode_counts_the_octets_of_a_character_string() {
    // 735 characters of two octets each fill the string; one more octet does not fit.
    let fits = "é".repeat(735);
    assert_eq!(fits.len(), 1470);
    assert!(encode_data(BACnetValue::String(fits)).is_ok());
    let mut too_long = "é".repeat(735);
    too_long.push('a');
    assert_eq!(too_long.chars().count(), 736);
    assert_eq!(encode_data(BACnetValue::String(too_long)), Err(BACnetErr::EncodeFailed));
}

#[test]
fn encode_refuses_an_oversize_bit_string() {
    let fits = vec![true; MAX_BITSTRING_BITS];
    assert_eq!(
        encode_data(BACnetValue::BitString(fits.clone())),
        Ok(ApplicationData::BitString(fits))
    );
    let too_long = vec![true; MAX_BITSTRING_BITS + 1];
    assert_eq!(encode_data(BACnetValue::BitString(too_long)), Err(BACnetErr::EncodeFailed));
}

#[test]
fn decode_without_a_datum_fails() {
    assert_eq!(
        decode_data(reply(0, 85, None), None, String::from("tag")),
        Err(BACnetErr::DecodeFailed)
    );
}

#[test]
fn decode_reports_a_tag_it_does_not_handle() {
    let time = ApplicationData::Other { tag: 11 };
    assert_eq!(
        decode_data(reply(0, 85, Some(time)), None, String::from("Time")),
        Err(BACnetErr::UnhandledTag { tag_name: String::from("Time"), tag: 11 })
    );
}

#[test]
fn decode_gives_the_value_of_each_kind() {
    let name = || String::from("tag");
    assert_eq!(
        decode_data(reply(0, 0, Some(ApplicationData::Null)), None, name()),
        Ok(BACnetValue::Null)
    );
    assert_eq!(
        decode_data(reply(0, 0, Some(ApplicationData::Boolean(true))), None, name()),
        Ok(BACnetValue::Bool(true))
    );
    assert_eq!(
        decode_data(reply(0, 0, Some(ApplicationData::UnsignedInt(9))), None, name()),
        Ok(BACnetValue::Uint(9))
    );
    assert_eq!(
        decode_data(reply(0, 0, Some(ApplicationData::SignedInt(-9))), None, name()),
        Ok(BACnetValue::Int(-9))
    );
    assert_eq!(
        decode_data(reply(0, 0, Some(ApplicationData::Real(1))), None, name()),
        Ok(BACnetValue::Real(1))
    );
    assert_eq!(
        decode_data(reply(0, 0, Some(ApplicationData::Double(2))), None, name()),
        Ok(BACnetValue::Double(2))
    );
    assert_eq!(
        decode_data(reply(0, 0, Some(ApplicationData::OctetString(vec![1, 2]))), None, name()),
        Ok(BACnetValue::Bytes(vec![1, 2]))
    );
    assert_eq!(
        decode_data(
            reply(0, 0, Some(ApplicationData::CharacterString(String::from("room")))),
            None,
            name()
        ),
        Ok(BACnetValue::String(String::from("room")))
    );
    assert_eq!(
        decode_data(reply(0, 0, Some(ApplicationData::BitString(vec![false, true]))), None, name()),
        Ok(BACnetValue::BitString(vec![false, true]))
    );
    assert_eq!(
        decode_data(
            reply(0, 0, Some(ApplicationData::ObjectId { object_type: 8, instance: 12 })),
            None,
            name()
        ),
        Ok(BACnetValue::ObjectId { object_type: 8, object_instance: 12 })
    );
    assert_eq!(
        decode_data(
            reply(0, 0, Some(ApplicationData::Date { year: 2024, month: 1, day: 15, wday: 1 })),
            None,
            name()
        ),
        Ok(BACnetValue::Date { year: 2024, month: 1, day: 15, weekday: 1 })
    );
}

#[test]
fn decode_names_units_below_256() {
    let named = decode_data(
        reply(0, 117, Some(ApplicationData::Enumerated(255))),
        Some(String::from("unit")),
        String::from("tag"),
    );
    assert_eq!(named, Ok(BACnetValue::Enum(255, Some(String::from("unit")))));
    let unnamed = decode_data(
        reply(0, 117, Some(ApplicationData::Enumerated(256))),
        Some(String::from("unit")),
        String::from("tag"),
    );
    assert_eq!(unnamed, Ok(BACnetValue::Enum(256, None)));
}

#[test]
fn decode_names_no_value_of_another_property() {
    let value = decode_data(
        reply(0, 77, Some(ApplicationData::Enumerated(1))),
        Some(String::from("name")),
        String::from("tag"),
    );
    assert_eq!(value, Ok(BACnetValue::Enum(1, None)));
}

#[test]
fn decode_attaches_no_name_where_none_was_found() {
    let value = decode_data(
        reply(0, 117, Some(ApplicationData::Enumerated(1))),
        None,
        String::from("tag"),
    );
    assert_eq!(value, Ok(BACnetValue::Enum(1, None)));
}

#[test]
fn enum_name_table_follows_the_property() {
    assert_eq!(enum_name_table(117, 0, 0), Some(EnumNameTable::EngineeringUnit));
    assert_eq!(enum_name_table(117, 0, 255), Some(EnumNameTable::EngineeringUnit));
    assert_eq!(enum_name_table(117, 0, 256), None);
    assert_eq!(enum_name_table(79, 0, 8), Some(EnumNameTable::ObjectType));
    assert_eq!(enum_name_table(79, 0, 59), Some(EnumNameTable::ObjectType));
    assert_eq!(enum_name_table(79, 0, 60), None);
    assert_eq!(enum_name_table(85, 3, 1), Some(EnumNameTable::BinaryPresentValue));
    assert_eq!(enum_name_table(104, 127, 1), Some(EnumNameTable::BinaryPresentValue));
    assert_eq!(enum_name_table(85, 128, 1), None);
    assert_eq!(enum_name_table(104, 128, 1), None);
    assert_eq!(enum_name_table(76, 8, 1), None);
}

#[test]
fn tag_of_each_datum() {
    assert_eq!(ApplicationData::Null.tag(), 0);
    assert_eq!(ApplicationData::Boolean(true).tag(), 1);
    assert_eq!(ApplicationData::UnsignedInt(1).tag(), 2);
    assert_eq!(ApplicationData::SignedInt(1).tag(), 3);
    assert_eq!(ApplicationData::Real(1).tag(), 4);
    assert_eq!(ApplicationData::Double(1).tag(), 5);
    assert_eq!(ApplicationData::OctetString(vec![]).tag(), 6);
    assert_eq!(ApplicationData::CharacterString(String::new()).tag(), 7);
    assert_eq!(ApplicationData::BitString(vec![]).tag(), 8);
    assert_eq!(ApplicationData::Enumerated(1).tag(), 9);
    assert_eq!(ApplicationData::Date { year: 1, month: 1, day: 1, wday: 1 }.tag(), 10);
    assert_eq!(ApplicationData::ObjectId { object_type: 1, instance: 1 }.tag(), 12);
    assert_eq!(ApplicationData::Other { tag: 11 }.tag(), 11);
}
