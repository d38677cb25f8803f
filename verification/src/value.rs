//! The tagged value model.

use crate::errors::{BACnetErr, ErrView};
use crate::text::{
    decimal, decimal_text, parse_bool, parse_i32, parse_u64, signed_of, truth_of, unsigned_of,
};
use vstd::prelude::*;

verus! {

/// A decoded application value. The tag implies the kind of payload.
///
/// `Real` and `Double` hold the IEEE 754 bit pattern of the number. `Array`
/// is not a value of the protocol: it gathers the elements of a property that
/// was read index by index.
#[derive(Debug, PartialEq)]
pub enum BACnetValue {
    Null,
    Bool(bool),
    Uint(u64),
    Int(i32),
    Real(u32),
    Double(u64),
    String(String),
    Bytes(Vec<u8>),
    BitString(Vec<bool>),
    Date { year: u16, month: u8, day: u8, weekday: u8 },
    /// An enumerated code and, where one is known, its name.
    Enum(u32, Option<String>),
    ObjectId { object_type: u32, object_instance: u32 },
    Array(Vec<BACnetValue>),
}

/// The mathematical value of a [`BACnetValue`].
pub enum ValueView {
    Null,
    Bool(bool),
    Uint(u64),
    Int(i32),
    Real(u32),
    Double(u64),
    String(Seq<char>),
    Bytes(Seq<u8>),
    BitString(Seq<bool>),
    Date { year: u16, month: u8, day: u8, weekday: u8 },
    Enum(u32, Option<Seq<char>>),
    ObjectId { object_type: u32, object_instance: u32 },
    Array(Seq<ValueView>),
}

/// The view of an optional text.
pub open spec fn text_view(text: Option<String>) -> Option<Seq<char>> {
    match text {
        Some(s) => Some(s@),
        None => None,
    }
}

impl View for BACnetValue {
    type V = ValueView;

    open spec fn view(&self) -> ValueView
        decreases self,
    {
        match self {
            BACnetValue::Null => ValueView::Null,
            BACnetValue::Bool(b) => ValueView::Bool(*b),
            BACnetValue::Uint(u) => ValueView::Uint(*u),
            BACnetValue::Int(i) => ValueView::Int(*i),
            BACnetValue::Real(bits) => ValueView::Real(*bits),
            BACnetValue::Double(bits) => ValueView::Double(*bits),
            BACnetValue::String(s) => ValueView::String(s@),
            BACnetValue::Bytes(b) => ValueView::Bytes(b@),
            BACnetValue::BitString(b) => ValueView::BitString(b@),
            BACnetValue::Date { year, month, day, weekday } => ValueView::Date {
                year: *year,
                month: *month,
                day: *day,
                weekday: *weekday,
            },
            BACnetValue::Enum(code, name) => ValueView::Enum(*code, text_view(*name)),
            BACnetValue::ObjectId { object_type, object_instance } => ValueView::ObjectId {
                object_type: *object_type,
                object_instance: *object_instance,
            },
            BACnetValue::Array(items) => ValueView::Array(values_view(items@)),
        }
    }
}

/// The views of the values in a sequence, in their order.
pub open spec fn values_view(items: Seq<BACnetValue>) -> Seq<ValueView>
    decreases items,
{
    Seq::new(
        items.len(),
        |i: int|
            if 0 <= i < items.len() {
                items[i].view()
            } else {
                ValueView::Null
            },
    )
}

impl Clone for BACnetValue {
    fn clone(&self) -> (res: Self)
        ensures
            res@ == self@,
        decreases self,
    {
        match self {
            BACnetValue::Null => BACnetValue::Null,
            BACnetValue::Bool(b) => BACnetValue::Bool(*b),
            BACnetValue::Uint(u) => BACnetValue::Uint(*u),
            BACnetValue::Int(i) => BACnetValue::Int(*i),
            BACnetValue::Real(bits) => BACnetValue::Real(*bits),
            BACnetValue::Double(bits) => BACnetValue::Double(*bits),
            BACnetValue::String(s) => BACnetValue::String(s.clone()),
            BACnetValue::Bytes(b) => BACnetValue::Bytes(b.clone()),
            BACnetValue::BitString(b) => BACnetValue::BitString(b.clone()),
            BACnetValue::Date { year, month, day, weekday } => BACnetValue::Date {
                year: *year,
                month: *month,
                day: *day,
                weekday: *weekday,
            },
            BACnetValue::Enum(code, name) => {
                let name = match name {
                    Some(s) => Some(s.clone()),
                    None => None,
                };
                BACnetValue::Enum(*code, name)
            },
            BACnetValue::ObjectId { object_type, object_instance } => BACnetValue::ObjectId {
                object_type: *object_type,
                object_instance: *object_instance,
            },
            BACnetValue::Array(items) => {
                let mut copy: Vec<BACnetValue> = Vec::new();
                let mut i: usize = 0;
                while i < items.len()
                    invariant
                        *self == BACnetValue::Array(*items),
                        i <= items.len(),
                        copy@.len() == i,
                        forall|k: int| 0 <= k < i ==> copy[k]@ == items[k]@,
                    decreases items.len() - i,
                {
                    proof {
                        assert(decreases_to!(self => self->Array_0));
                        assert(decreases_to!(*items => items[i as int]));
                    }
                    copy.push(items[i].clone());
                    i += 1;
                }
                assert(values_view(copy@) =~= values_view(items@));
                BACnetValue::Array(copy)
            },
        }
    }
}

/// The view of the outcome of a read.
pub open spec fn outcome_view(outcome: Result<BACnetValue, BACnetErr>) -> Result<
    ValueView,
    ErrView,
> {
    match outcome {
        Ok(v) => Ok(v@),
        Err(e) => Err(e@),
    }
}

/// The number that a value stands for: an unsigned integer is its own
/// number, and no other value is a number.
pub open spec fn as_u64(value: ValueView) -> Result<u64, ErrView> {
    match value {
        ValueView::Uint(u) => Ok(u),
        _ => Err(ErrView::InvalidValue),
    }
}

/// The text that a value stands for: a character string is its own text, an
/// enumerated value is its name or, without a name, the decimal numeral of
/// its code; no other value is a text.
pub open spec fn as_text(value: ValueView) -> Result<Seq<char>, ErrView> {
    match value {
        ValueView::String(s) => Ok(s),
        ValueView::Enum(_, Some(name)) => Ok(name),
        ValueView::Enum(code, None) => Ok(decimal(code as nat)),
        _ => Err(ErrView::InvalidValue),
    }
}

/// The view of the outcome of a conversion to a number.
pub open spec fn number_view(res: Result<u64, BACnetErr>) -> Result<u64, ErrView> {
    match res {
        Ok(u) => Ok(u),
        Err(e) => Err(e@),
    }
}

/// The view of the outcome of a conversion to a text.
pub open spec fn string_view(res: Result<String, BACnetErr>) -> Result<Seq<char>, ErrView> {
    match res {
        Ok(s) => Ok(s@),
        Err(e) => Err(e@),
    }
}

/// The value that a text denotes: a truth value, else an unsigned number,
/// else a signed number, else a real number of single and else of double
/// precision, and else the text itself. `single` and `double` are the bits of
/// the real numbers that the text denotes, where it denotes any.
pub open spec fn text_value(text: Seq<char>, single: Option<u32>, double: Option<u64>) -> ValueView {
    if truth_of(text) is Some {
        ValueView::Bool(truth_of(text)->0)
    } else if unsigned_of(text) is Some {
        ValueView::Uint(unsigned_of(text)->0)
    } else if signed_of(text) is Some {
        ValueView::Int(signed_of(text)->0)
    } else if single is Some {
        ValueView::Real(single->0)
    } else if double is Some {
        ValueView::Double(double->0)
    } else {
        ValueView::String(text)
    }
}

impl BACnetValue {
    /// The value that a text denotes. `single` and `double` are the bits of the
    /// real numbers of single and of double precision that the text denotes,
    /// where it denotes any.
    pub fn from_text(raw: String, single: Option<u32>, double: Option<u64>) -> (value: BACnetValue)
        ensures
            value@ == text_value(raw@, single, double),
    {
        if let Some(value) = parse_bool(raw.as_str()) {
            return BACnetValue::Bool(value);
        }
        if let Some(value) = parse_u64(raw.as_str()) {
            return BACnetValue::Uint(value);
        }
        if let Some(value) = parse_i32(raw.as_str()) {
            return BACnetValue::Int(value);
        }
        if let Some(bits) = single {
            return BACnetValue::Real(bits);
        }
        if let Some(bits) = double {
            return BACnetValue::Double(bits);
        }
        BACnetValue::String(raw)
    }

    /// The number that the value stands for, or `InvalidValue`.
    pub fn try_into_u64(self) -> (res: Result<u64, BACnetErr>)
        ensures
            number_view(res) == as_u64(self@),
    {
        match self {
            BACnetValue::Uint(u) => Ok(u),
            _ => Err(BACnetErr::InvalidValue),
        }
    }

    /// The text that the value stands for, or `InvalidValue`.
    pub fn try_into_string(self) -> (res: Result<String, BACnetErr>)
        ensures
            string_view(res) == as_text(self@),
    {
        match self {
            BACnetValue::String(s) => Ok(s),
            BACnetValue::Enum(_, Some(name)) => Ok(name),
            BACnetValue::Enum(code, None) => Ok(decimal_text(code)),
            _ => Err(BACnetErr::InvalidValue),
        }
    }
}

} // verus!
