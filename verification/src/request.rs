//! The requests that a session asks the transport to transmit.

use crate::encoding::{ApplicationData, ApplicationDataView};
use vstd::prelude::*;

verus! {

/// The type of an object, by its number.
pub type ObjectType = u32;

/// The identifier of a property.
pub type ObjectPropertyId = u32;

/// The array index that stands for the whole property.
pub const BACNET_ARRAY_ALL: u32 = 0xFFFF_FFFF;

/// The priority at which this library writes: none.
pub const NO_PRIORITY: u8 = 0;

/// The read of one property of one object, whole or at one array index.
#[derive(Clone, Copy, Debug, PartialEq, Eq)]
pub struct ReadRequest {
    pub object_type: u32,
    pub object_instance: u32,
    pub property_id: u32,
    pub index: u32,
}

/// The write of one property of one object, whole or at one array index.
#[derive(Debug, PartialEq)]
pub struct WriteRequest {
    pub object_type: u32,
    pub object_instance: u32,
    pub property_id: u32,
    pub value: ApplicationData,
    pub priority: u8,
    pub index: u32,
}

/// The mathematical value of a [`WriteRequest`].
pub struct WriteRequestView {
    pub object_type: u32,
    pub object_instance: u32,
    pub property_id: u32,
    pub value: ApplicationDataView,
    pub priority: u8,
    pub index: u32,
}

impl View for WriteRequest {
    type V = WriteRequestView;

    open spec fn view(&self) -> WriteRequestView {
        WriteRequestView {
            object_type: self.object_type,
            object_instance: self.object_instance,
            property_id: self.property_id,
            value: self.value@,
            priority: self.priority,
            index: self.index,
        }
    }
}

} // verus!
