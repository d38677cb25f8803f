//! Client-side session layer for BACnet/IP: the tagged value model, the
//! correlation of replies with outstanding requests, the property scan of a
//! device, and the Who-Is / Who-Has discovery helpers.

pub mod address;
pub mod encoding;
pub mod epics;
pub mod errors;
pub mod request;
pub mod scan;
pub mod session;
pub mod table;
pub mod text;
pub mod value;
pub mod whohas;
pub mod whois;

pub use crate::epics::Epics;
pub use crate::errors::BACnetErr;
pub use crate::request::{ObjectPropertyId, ObjectType};
pub use crate::session::{BACnetServer, BACnetServerBuilder};
