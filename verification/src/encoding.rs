//! Conversion between the value model and tagged application data.
//!
//! The protocol stack turns the octets of a reply into one tagged datum, and
//! a tagged datum into the octets of a request. This module maps such a datum
//! to a [`BACnetValue`] and back.

use crate::errors::{BACnetErr, ErrView};
use crate::value::{text_view, BACnetValue, ValueView};
use vstd::prelude::*;

verus! {

pub const BACNET_APPLICATION_TAG_NULL: u8 = 0;

pub const BACNET_APPLICATION_TAG_BOOLEAN: u8 = 1;

pub const BACNET_APPLICATION_TAG_UNSIGNED_INT: u8 = 2;

pub const BACNET_APPLICATION_TAG_SIGNED_INT: u8 = 3;

pub const BACNET_APPLICATION_TAG_REAL: u8 = 4;

pub const BACNET_APPLICATION_TAG_DOUBLE: u8 = 5;

pub const BACNET_APPLICATION_TAG_OCTET_STRING: u8 = 6;

pub const BACNET_APPLICATION_TAG_CHARACTER_STRING: u8 = 7;

pub const BACNET_APPLICATION_TAG_BIT_STRING: u8 = 8;

pub const BACNET_APPLICATION_TAG_ENUMERATED: u8 = 9;

pub const BACNET_APPLICATION_TAG_DATE: u8 = 10;

pub const BACNET_APPLICATION_TAG_OBJECT_ID: u8 = 12;

/// Most octets that a character string can hold.
pub const MAX_CHARACTER_STRING_BYTES: usize = 1470;

/// Most octets that an octet string can hold.
pub const MAX_OCTET_STRING_BYTES: usize = 1470;

/// Most bits that a bit string can hold.
pub const MAX_BITSTRING_BITS: usize = 120;

/// The type of the device object.
pub const OBJECT_DEVICE: u32 = 8;

/// The property that lists the objects of a device.
pub const PROP_OBJECT_LIST: u32 = 76;

pub const PROP_OBJECT_TYPE: u32 = 79;

pub const PROP_PRESENT_VALUE: u32 = 85;

pub const PROP_RELINQUISH_DEFAULT: u32 = 104;

pub const PROP_UNITS: u32 = 117;

/// Number of engineering units that have a name.
pub const MAX_NAMED_UNITS: u32 = 256;

/// Object types below this one are defined by the standard and have a name.
pub const MAX_ASHRAE_OBJECT_TYPE: u32 = 60;

/// First object type that vendors define.
pub const OBJECT_PROPRIETARY_MIN: u32 = 128;

/// One tagged datum as the protocol stack holds it: the variant is the
/// application tag, its fields are the payload under that tag.
#[derive(Debug, PartialEq)]
pub enum ApplicationData {
    Null,
    Boolean(bool),
    UnsignedInt(u64),
    SignedInt(i32),
    /// IEEE 754 single precision, as its bits.
    Real(u32),
    /// IEEE 754 double precision, as its bits.
    Double(u64),
    OctetString(Vec<u8>),
    CharacterString(String),
    BitString(Vec<bool>),
    Enumerated(u32),
    Date { year: u16, month: u8, day: u8, wday: u8 },
    ObjectId { object_type: u32, instance: u32 },
    /// A datum under a tag that this library does not decode.
    Other { tag: u8 },
}

/// The mathematical value of an [`ApplicationData`].
pub enum ApplicationDataView {
    Null,
    Boolean(bool),
    UnsignedInt(u64),
    SignedInt(i32),
    Real(u32),
    Double(u64),
    OctetString(Seq<u8>),
    CharacterString(Seq<char>),
    BitString(Seq<bool>),
    Enumerated(u32),
    Date { year: u16, month: u8, day: u8, wday: u8 },
    ObjectId { object_type: u32, instance: u32 },
    Other { tag: u8 },
}

impl View for ApplicationData {
    type V = ApplicationDataView;

    open spec fn view(&self) -> ApplicationDataView {
        match self {
            ApplicationData::Null => ApplicationDataView::Null,
            ApplicationData::Boolean(b) => ApplicationDataView::Boolean(*b),
            ApplicationData::UnsignedInt(u) => ApplicationDataView::UnsignedInt(*u),
            ApplicationData::SignedInt(i) => ApplicationDataView::SignedInt(*i),
            ApplicationData::Real(bits) => ApplicationDataView::Real(*bits),
            ApplicationData::Double(bits) => ApplicationDataView::Double(*bits),
            ApplicationData::OctetString(b) => ApplicationDataView::OctetString(b@),
            ApplicationData::CharacterString(s) => ApplicationDataView::CharacterString(s@),
            ApplicationData::BitString(b) => ApplicationDataView::BitString(b@),
            ApplicationData::Enumerated(e) => ApplicationDataView::Enumerated(*e),
            ApplicationData::Date { year, month, day, wday } => ApplicationDataView::Date {
                year: *year,
                month: *month,
                day: *day,
                wday: *wday,
            },
            ApplicationData::ObjectId { object_type, instance } => ApplicationDataView::ObjectId {
                object_type: *object_type,
                instance: *instance,
            },
            ApplicationData::Other { tag } => ApplicationDataView::Other { tag: *tag },
        }
    }
}

impl ApplicationDataView {
    /// The application tag of the datum.
    pub open spec fn tag(self) -> u8 {
        match self {
            ApplicationDataView::Null => BACNET_APPLICATION_TAG_NULL,
            ApplicationDataView::Boolean(_) => BACNET_APPLICATION_TAG_BOOLEAN,
            ApplicationDataView::UnsignedInt(_) => BACNET_APPLICATION_TAG_UNSIGNED_INT,
            ApplicationDataView::SignedInt(_) => BACNET_APPLICATION_TAG_SIGNED_INT,
            ApplicationDataView::Real(_) => BACNET_APPLICATION_TAG_REAL,
            ApplicationDataView::Double(_) => BACNET_APPLICATION_TAG_DOUBLE,
            ApplicationDataView::OctetString(_) => BACNET_APPLICATION_TAG_OCTET_STRING,
            ApplicationDataView::CharacterString(_) => BACNET_APPLICATION_TAG_CHARACTER_STRING,
            ApplicationDataView::BitString(_) => BACNET_APPLICATION_TAG_BIT_STRING,
            ApplicationDataView::Enumerated(_) => BACNET_APPLICATION_TAG_ENUMERATED,
            ApplicationDataView::Date { .. } => BACNET_APPLICATION_TAG_DATE,
            ApplicationDataView::ObjectId { .. } => BACNET_APPLICATION_TAG_OBJECT_ID,
            ApplicationDataView::Other { tag } => tag,
        }
    }
}

impl ApplicationData {
    /// The application tag of the datum.
    pub fn tag(&self) -> (tag: u8)
        ensures
            tag == self@.tag(),
    {
        match self {
            ApplicationData::Null => BACNET_APPLICATION_TAG_NULL,
            ApplicationData::Boolean(_) => BACNET_APPLICATION_TAG_BOOLEAN,
            ApplicationData::UnsignedInt(_) => BACNET_APPLICATION_TAG_UNSIGNED_INT,
            ApplicationData::SignedInt(_) => BACNET_APPLICATION_TAG_SIGNED_INT,
            ApplicationData::Real(_) => BACNET_APPLICATION_TAG_REAL,
            ApplicationData::Double(_) => BACNET_APPLICATION_TAG_DOUBLE,
            ApplicationData::OctetString(_) => BACNET_APPLICATION_TAG_OCTET_STRING,
            ApplicationData::CharacterString(_) => BACNET_APPLICATION_TAG_CHARACTER_STRING,
            ApplicationData::BitString(_) => BACNET_APPLICATION_TAG_BIT_STRING,
            ApplicationData::Enumerated(_) => BACNET_APPLICATION_TAG_ENUMERATED,
            ApplicationData::Date { .. } => BACNET_APPLICATION_TAG_DATE,
            ApplicationData::ObjectId { .. } => BACNET_APPLICATION_TAG_OBJECT_ID,
            ApplicationData::Other { tag } => *tag,
        }
    }
}

/// What the acknowledgement of a read carries: the property that was read
/// and its datum, `None` where the stack could not decode the octets.
#[derive(Debug, PartialEq)]
pub struct ReadPropertyData {
    pub object_type: u32,
    pub object_instance: u32,
    pub object_property: u32,
    pub array_index: u32,
    pub application_data: Option<ApplicationData>,
}

/// The mathematical value of a [`ReadPropertyData`].
pub struct ReadPropertyDataView {
    pub object_type: u32,
    pub object_instance: u32,
    pub object_property: u32,
    pub array_index: u32,
    pub application_data: Option<ApplicationDataView>,
}

impl View for ReadPropertyData {
    type V = ReadPropertyDataView;

    open spec fn view(&self) -> ReadPropertyDataView {
        ReadPropertyDataView {
            object_type: self.object_type,
            object_instance: self.object_instance,
            object_property: self.object_property,
            array_index: self.array_index,
            application_data: match self.application_data {
                Some(d) => Some(d@),
                None => None,
            },
        }
    }
}

/// The table of names in which an enumerated value is looked up.
#[derive(Clone, Copy, Debug, PartialEq, Eq)]
pub enum EnumNameTable {
    EngineeringUnit,
    ObjectType,
    BinaryPresentValue,
}

/// The table that names the enumerated value `value` read from property
/// `object_property` of an object of type `object_type`, if any does.
pub open spec fn enum_name_table_spec(object_property: u32, object_type: u32, value: u32) -> Option<
    EnumNameTable,
> {
    if object_property == PROP_UNITS {
        if value < MAX_NAMED_UNITS {
            Some(EnumNameTable::EngineeringUnit)
        } else {
            None
        }
    } else if object_property == PROP_OBJECT_TYPE {
        if value < MAX_ASHRAE_OBJECT_TYPE {
            Some(EnumNameTable::ObjectType)
        } else {
            None
        }
    } else if object_property == PROP_PRESENT_VALUE || object_property
        == PROP_RELINQUISH_DEFAULT {
        if object_type < OBJECT_PROPRIETARY_MIN {
            Some(EnumNameTable::BinaryPresentValue)
        } else {
            None
        }
    } else {
        None
    }
}

/// Says in which table of names an enumerated value is to be looked up.
///
/// Units have a name below 256, object types where the standard defines
/// them, and the present value and the relinquish default on objects whose
/// type is not proprietary. Nothing else has a name.
pub fn enum_name_table(object_property: u32, object_type: u32, value: u32) -> (table: Option<
    EnumNameTable,
>)
    ensures
        table == enum_name_table_spec(object_property, object_type, value),
{
    if object_property == PROP_UNITS {
        if value < MAX_NAMED_UNITS {
            Some(EnumNameTable::EngineeringUnit)
        } else {
            None
        }
    } else if object_property == PROP_OBJECT_TYPE {
        if value < MAX_ASHRAE_OBJECT_TYPE {
            Some(EnumNameTable::ObjectType)
        } else {
            None
        }
    } else if object_property == PROP_PRESENT_VALUE || object_property
        == PROP_RELINQUISH_DEFAULT {
        if object_type < OBJECT_PROPRIETARY_MIN {
            Some(EnumNameTable::BinaryPresentValue)
        } else {
            None
        }
    } else {
        None
    }
}

/// The name that decoding attaches to an enumerated value: the name that was
/// looked up, where a table names the value, and none otherwise.
pub open spec fn attached_name(
    object_property: u32,
    object_type: u32,
    value: u32,
    enum_name: Option<Seq<char>>,
) -> Option<Seq<char>> {
    if enum_name_table_spec(object_property, object_type, value) is Some {
        enum_name
    } else {
        None
    }
}

/// The value that a read acknowledgement decodes to.
pub open spec fn decode_spec(
    data: ReadPropertyDataView,
    enum_name: Option<Seq<char>>,
    tag_name: Seq<char>,
) -> Result<ValueView, ErrView> {
    match data.application_data {
        None => Err(ErrView::DecodeFailed),
        Some(ApplicationDataView::Null) => Ok(ValueView::Null),
        Some(ApplicationDataView::Boolean(b)) => Ok(ValueView::Bool(b)),
        Some(ApplicationDataView::UnsignedInt(u)) => Ok(ValueView::Uint(u)),
        Some(ApplicationDataView::SignedInt(i)) => Ok(ValueView::Int(i)),
        Some(ApplicationDataView::Real(bits)) => Ok(ValueView::Real(bits)),
        Some(ApplicationDataView::Double(bits)) => Ok(ValueView::Double(bits)),
        Some(ApplicationDataView::OctetString(b)) => Ok(ValueView::Bytes(b)),
        Some(ApplicationDataView::CharacterString(s)) => Ok(ValueView::String(s)),
        Some(ApplicationDataView::BitString(b)) => Ok(ValueView::BitString(b)),
        Some(ApplicationDataView::Enumerated(e)) => Ok(
            ValueView::Enum(
                e,
                attached_name(data.object_property, data.object_type, e, enum_name),
            ),
        ),
        Some(ApplicationDataView::Date { year, month, day, wday }) => Ok(
            ValueView::Date { year, month, day, weekday: wday },
        ),
        Some(ApplicationDataView::ObjectId { object_type, instance }) => Ok(
            ValueView::ObjectId { object_type, object_instance: instance },
        ),
        Some(ApplicationDataView::Other { tag }) => Err(ErrView::UnhandledTag { tag_name, tag }),
    }
}

/// Decodes the datum of a read acknowledgement.
///
/// `enum_name` is the name found for an enumerated datum in the table that
/// [`enum_name_table`] gives for it; it is attached only where that function
/// names a table. `tag_name` is the name of the datum's tag, and is used only
/// to report a tag that is not decoded.
pub fn decode_data(data: ReadPropertyData, enum_name: Option<String>, tag_name: String) -> (res:
    Result<BACnetValue, BACnetErr>)
    ensures
        crate::value::outcome_view(res) == decode_spec(data@, text_view(enum_name), tag_name@),
{
    let object_property = data.object_property;
    let object_type = data.object_type;
    match data.application_data {
        None => Err(BACnetErr::DecodeFailed),
        Some(ApplicationData::Null) => Ok(BACnetValue::Null),
        Some(ApplicationData::Boolean(b)) => Ok(BACnetValue::Bool(b)),
        Some(ApplicationData::UnsignedInt(u)) => Ok(BACnetValue::Uint(u)),
        Some(ApplicationData::SignedInt(i)) => Ok(BACnetValue::Int(i)),
        Some(ApplicationData::Real(bits)) => Ok(BACnetValue::Real(bits)),
        Some(ApplicationData::Double(bits)) => Ok(BACnetValue::Double(bits)),
        Some(ApplicationData::OctetString(b)) => Ok(BACnetValue::Bytes(b)),
        Some(ApplicationData::CharacterString(s)) => Ok(BACnetValue::String(s)),
        Some(ApplicationData::BitString(b)) => Ok(BACnetValue::BitString(b)),
        Some(ApplicationData::Enumerated(e)) => {
            let name = match enum_name_table(object_property, object_type, e) {
                Some(_) => enum_name,
                None => None,
            };
            Ok(BACnetValue::Enum(e, name))
        },
        Some(ApplicationData::Date { year, month, day, wday }) => Ok(
            BACnetValue::Date { year, month, day, weekday: wday },
        ),
        Some(ApplicationData::ObjectId { object_type, instance }) => Ok(
            BACnetValue::ObjectId { object_type, object_instance: instance },
        ),
        Some(ApplicationData::Other { tag }) => Err(BACnetErr::UnhandledTag { tag_name, tag }),
    }
}

/// Whether a value has an encoding: it is no array, and a string in it is
/// not longer than the protocol allows.
pub open spec fn encodable(value: ValueView) -> bool {
    match value {
        ValueView::Array(_) => false,
        ValueView::String(s) => vstd::utf8::encode_utf8(s).len() <= MAX_CHARACTER_STRING_BYTES,
        ValueView::Bytes(b) => b.len() <= MAX_OCTET_STRING_BYTES,
        ValueView::BitString(b) => b.len() <= MAX_BITSTRING_BITS,
        _ => true,
    }
}

/// The datum that an encodable value is encoded as.
pub open spec fn encoded(value: ValueView) -> ApplicationDataView {
    match value {
        ValueView::Null => ApplicationDataView::Null,
        ValueView::Bool(b) => ApplicationDataView::Boolean(b),
        ValueView::Uint(u) => ApplicationDataView::UnsignedInt(u),
        ValueView::Int(i) => ApplicationDataView::SignedInt(i),
        ValueView::Real(bits) => ApplicationDataView::Real(bits),
        ValueView::Double(bits) => ApplicationDataView::Double(bits),
        ValueView::String(s) => ApplicationDataView::CharacterString(s),
        ValueView::Bytes(b) => ApplicationDataView::OctetString(b),
        ValueView::BitString(b) => ApplicationDataView::BitString(b),
        ValueView::Date { year, month, day, weekday } => ApplicationDataView::Date {
            year,
            month,
            day,
            wday: weekday,
        },
        ValueView::Enum(e, _) => ApplicationDataView::Enumerated(e),
        ValueView::ObjectId { object_type, object_instance } => ApplicationDataView::ObjectId {
            object_type,
            instance: object_instance,
        },
        ValueView::Array(_) => ApplicationDataView::Null,
    }
}

/// The outcome of encoding a value.
pub open spec fn encode_spec(value: ValueView) -> Result<ApplicationDataView, ErrView> {
    if encodable(value) {
        Ok(encoded(value))
    } else {
        Err(ErrView::EncodeFailed)
    }
}

/// The view of the outcome of encoding.
pub open spec fn encoded_view(res: Result<ApplicationData, BACnetErr>) -> Result<
    ApplicationDataView,
    ErrView,
> {
    match res {
        Ok(d) => Ok(d@),
        Err(e) => Err(e@),
    }
}

/// Encodes a value as one tagged datum.
///
/// An array has no encoding, and a string, an octet string or a bit string
/// that is longer than the protocol allows is refused rather than cut: both
/// give `EncodeFailed`. The name of an enumerated value is not encoded.
pub fn encode_data(value: BACnetValue) -> (res: Result<ApplicationData, BACnetErr>)
    ensures
        encoded_view(res) == encode_spec(value@),
{
    match value {
        BACnetValue::Null => Ok(ApplicationData::Null),
        BACnetValue::Bool(b) => Ok(ApplicationData::Boolean(b)),
        BACnetValue::Int(i) => Ok(ApplicationData::SignedInt(i)),
        BACnetValue::Uint(u) => Ok(ApplicationData::UnsignedInt(u)),
        BACnetValue::Real(bits) => Ok(ApplicationData::Real(bits)),
        BACnetValue::Double(bits) => Ok(ApplicationData::Double(bits)),
        BACnetValue::Bytes(s) => {
            if s.len() <= MAX_OCTET_STRING_BYTES {
                Ok(ApplicationData::OctetString(s))
            } else {
                Err(BACnetErr::EncodeFailed)
            }
        },
        BACnetValue::String(s) => {
            if s.as_str().as_bytes().len() <= MAX_CHARACTER_STRING_BYTES {
                Ok(ApplicationData::CharacterString(s))
            } else {
                Err(BACnetErr::EncodeFailed)
            }
        },
        BACnetValue::BitString(s) => {
            if s.len() <= MAX_BITSTRING_BITS {
                Ok(ApplicationData::BitString(s))
            } else {
                Err(BACnetErr::EncodeFailed)
            }
        },
        BACnetValue::Enum(e, _) => Ok(ApplicationData::Enumerated(e)),
        BACnetValue::ObjectId { object_type, object_instance } => Ok(
            ApplicationData::ObjectId { object_type, instance: object_instance },
        ),
        BACnetValue::Date { year, month, day, weekday } => Ok(
            ApplicationData::Date { year, month, day, wday: weekday },
        ),
        BACnetValue::Array(_) => Err(BACnetErr::EncodeFailed),
    }
}

/// Decoding what was encoded gives the value back.
///
/// This holds of every encodable value, that is of every value but an array
/// and a string that is too long, read under any property, with one
/// condition: the name of an enumerated value is not encoded, so it comes
/// back only where it is the name that decoding attaches.
pub proof fn lemma_decode_encode(
    value: ValueView,
    object_type: u32,
    object_instance: u32,
    object_property: u32,
    array_index: u32,
    enum_name: Option<Seq<char>>,
    tag_name: Seq<char>,
)
    requires
        encodable(value),
        value matches ValueView::Enum(code, name) ==> name == attached_name(
            object_property,
            object_type,
            code,
            enum_name,
        ),
    ensures
        encode_spec(value) is Ok,
        decode_spec(
            ReadPropertyDataView {
                object_type,
                object_instance,
                object_property,
                array_index,
                application_data: Some(encode_spec(value)->Ok_0),
            },
            enum_name,
            tag_name,
        ) == Ok::<ValueView, ErrView>(value),
{
}

/// No array has an encoding.
pub proof fn lemma_array_not_encoded(items: Seq<ValueView>)
    ensures
        encode_spec(ValueView::Array(items)) == Err::<ApplicationDataView, ErrView>(
            ErrView::EncodeFailed,
        ),
{
}

} // verus!
