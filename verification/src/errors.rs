//! The typed errors of the session layer.

use crate::text::{decimal, decimal_text};
use vstd::prelude::*;
use vstd::string::StringExecFns;

verus! {

/// The class of the errors that concern a property.
pub const ERROR_CLASS_PROPERTY: u32 = 2;

/// The code of the error of a device that does not know a property.
pub const ERROR_CODE_UNKNOWN_PROPERTY: u32 = 32;

/// Why a request, a conversion or a scan did not give a value.
#[derive(Debug, PartialEq)]
#[allow(inconsistent_fields)]
pub enum BACnetErr {
    /// The device rejected the request, with this reason code.
    Rejected { code: u8 },
    /// The device aborted the request, with this reason code and its name.
    Aborted { text: String, code: u8 },
    /// The device reported an application error: class and code, each with
    /// its name.
    Error { class_text: String, class: u32, text: String, code: u32 },
    /// The request was still pending when its outcome was taken.
    RequestOngoing,
    /// No outcome was stored for the request.
    NoValue,
    /// The value is not of the kind that was asked for.
    InvalidValue,
    /// No device with this identifier has been bound.
    NotConnected { device_id: u32 },
    /// The transport gave up retrying the request.
    TsmTimeout,
    /// The overall time allowed for a request has passed.
    ApduTimeout,
    /// The reply could not be decoded.
    DecodeFailed,
    /// The value has no encoding.
    EncodeFailed,
    /// The reply carries a tag that this library does not decode.
    UnhandledTag { tag_name: String, tag: u8 },
    /// The shared state could not be locked.
    CouldntGetLock,
}

/// The mathematical value of a [`BACnetErr`]: texts are sequences of
/// characters.
#[allow(inconsistent_fields)]
pub enum ErrView {
    Rejected { code: u8 },
    Aborted { text: Seq<char>, code: u8 },
    Error { class_text: Seq<char>, class: u32, text: Seq<char>, code: u32 },
    RequestOngoing,
    NoValue,
    InvalidValue,
    NotConnected { device_id: u32 },
    TsmTimeout,
    ApduTimeout,
    DecodeFailed,
    EncodeFailed,
    UnhandledTag { tag_name: Seq<char>, tag: u8 },
    CouldntGetLock,
}

impl View for BACnetErr {
    type V = ErrView;

    open spec fn view(&self) -> ErrView {
        match self {
            BACnetErr::Rejected { code } => ErrView::Rejected { code: *code },
            BACnetErr::Aborted { text, code } => ErrView::Aborted { text: text@, code: *code },
            BACnetErr::Error { class_text, class, text, code } => ErrView::Error {
                class_text: class_text@,
                class: *class,
                text: text@,
                code: *code,
            },
            BACnetErr::RequestOngoing => ErrView::RequestOngoing,
            BACnetErr::NoValue => ErrView::NoValue,
            BACnetErr::InvalidValue => ErrView::InvalidValue,
            BACnetErr::NotConnected { device_id } => ErrView::NotConnected {
                device_id: *device_id,
            },
            BACnetErr::TsmTimeout => ErrView::TsmTimeout,
            BACnetErr::ApduTimeout => ErrView::ApduTimeout,
            BACnetErr::DecodeFailed => ErrView::DecodeFailed,
            BACnetErr::EncodeFailed => ErrView::EncodeFailed,
            BACnetErr::UnhandledTag { tag_name, tag } => ErrView::UnhandledTag {
                tag_name: tag_name@,
                tag: *tag,
            },
            BACnetErr::CouldntGetLock => ErrView::CouldntGetLock,
        }
    }
}

impl ErrView {
    /// What the error says to a reader: its kind, with the codes that the
    /// device gave as decimal numerals beside their names.
    pub open spec fn message(self) -> Seq<char> {
        match self {
            ErrView::Rejected { code } => "Rejected: code "@ + decimal(code as nat),
            ErrView::Aborted { text, code } => "Aborted: "@ + text + " (code "@ + decimal(
                code as nat,
            ) + ")"@,
            ErrView::Error { class_text, class, text, code } => "Error: class="@ + class_text
                + " ("@ + decimal(class as nat) + ") "@ + text + " ("@ + decimal(code as nat)
                + ")"@,
            ErrView::RequestOngoing => "Request is still ongoing"@,
            ErrView::NoValue => "No value was extracted"@,
            ErrView::InvalidValue => "Invalid value was extracted"@,
            ErrView::NotConnected { device_id } => "Not connected to server with Device ID "@
                + decimal(device_id as nat),
            ErrView::TsmTimeout => "TSM Timeout"@,
            ErrView::ApduTimeout => "APDU Timeout"@,
            ErrView::DecodeFailed => "Decoding failed"@,
            ErrView::EncodeFailed => "Encode failed"@,
            ErrView::UnhandledTag { tag_name, tag } => "Unhandled type tag "@ + tag_name + " ("@
                + decimal(tag as nat) + ")"@,
            ErrView::CouldntGetLock => "Couldn't get lock"@,
        }
    }

    /// A timeout says that the device or the network cannot be reached.
    pub open spec fn is_timeout(self) -> bool {
        self is TsmTimeout || self is ApduTimeout
    }

    /// The error of a device that does not know the property it was asked
    /// for. A scan expects it, and passes over it quietly.
    pub open spec fn is_unknown_property(self) -> bool {
        self matches ErrView::Error { class, code, .. } && class == ERROR_CLASS_PROPERTY && code
            == ERROR_CODE_UNKNOWN_PROPERTY
    }
}

impl Clone for BACnetErr {
    fn clone(&self) -> (res: Self)
        ensures
            res@ == self@,
    {
        match self {
            BACnetErr::Rejected { code } => BACnetErr::Rejected { code: *code },
            BACnetErr::Aborted { text, code } => BACnetErr::Aborted {
                text: text.clone(),
                code: *code,
            },
            BACnetErr::Error { class_text, class, text, code } => BACnetErr::Error {
                class_text: class_text.clone(),
                class: *class,
                text: text.clone(),
                code: *code,
            },
            BACnetErr::RequestOngoing => BACnetErr::RequestOngoing,
            BACnetErr::NoValue => BACnetErr::NoValue,
            BACnetErr::InvalidValue => BACnetErr::InvalidValue,
            BACnetErr::NotConnected { device_id } => BACnetErr::NotConnected {
                device_id: *device_id,
            },
            BACnetErr::TsmTimeout => BACnetErr::TsmTimeout,
            BACnetErr::ApduTimeout => BACnetErr::ApduTimeout,
            BACnetErr::DecodeFailed => BACnetErr::DecodeFailed,
            BACnetErr::EncodeFailed => BACnetErr::EncodeFailed,
            BACnetErr::UnhandledTag { tag_name, tag } => BACnetErr::UnhandledTag {
                tag_name: tag_name.clone(),
                tag: *tag,
            },
            BACnetErr::CouldntGetLock => BACnetErr::CouldntGetLock,
        }
    }
}

impl BACnetErr {
    /// Whether the error is one of the two timeouts.
    pub fn is_timeout(&self) -> (r: bool)
        ensures
            r == self@.is_timeout(),
    {
        match self {
            BACnetErr::TsmTimeout => true,
            BACnetErr::ApduTimeout => true,
            _ => false,
        }
    }

    /// What the error says to a reader.
    pub fn message(&self) -> (text: String)
        ensures
            text@ == self@.message(),
    {
        match self {
            BACnetErr::Rejected { code } => {
                let mut text = String::from_str("Rejected: code ");
                text.append(decimal_text(*code as u32).as_str());
                text
            },
            BACnetErr::Aborted { text: reason, code } => {
                let mut text = String::from_str("Aborted: ");
                text.append(reason.as_str());
                text.append(" (code ");
                text.append(decimal_text(*code as u32).as_str());
                text.append(")");
                text
            },
            BACnetErr::Error { class_text, class, text: reason, code } => {
                let mut text = String::from_str("Error: class=");
                text.append(class_text.as_str());
                text.append(" (");
                text.append(decimal_text(*class).as_str());
                text.append(") ");
                text.append(reason.as_str());
                text.append(" (");
                text.append(decimal_text(*code).as_str());
                text.append(")");
                text
            },
            BACnetErr::RequestOngoing => String::from_str("Request is still ongoing"),
            BACnetErr::NoValue => String::from_str("No value was extracted"),
            BACnetErr::InvalidValue => String::from_str("Invalid value was extracted"),
            BACnetErr::NotConnected { device_id } => {
                let mut text = String::from_str("Not connected to server with Device ID ");
                text.append(decimal_text(*device_id).as_str());
                text
            },
            BACnetErr::TsmTimeout => String::from_str("TSM Timeout"),
            BACnetErr::ApduTimeout => String::from_str("APDU Timeout"),
            BACnetErr::DecodeFailed => String::from_str("Decoding failed"),
            BACnetErr::EncodeFailed => String::from_str("Encode failed"),
            BACnetErr::UnhandledTag { tag_name, tag } => {
                let mut text = String::from_str("Unhandled type tag ");
                text.append(tag_name.as_str());
                text.append(" (");
                text.append(decimal_text(*tag as u32).as_str());
                text.append(")");
                text
            },
            BACnetErr::CouldntGetLock => String::from_str("Couldn't get lock"),
        }
    }

    /// Whether the error says that the device does not know the property.
    pub fn is_unknown_property(&self) -> (r: bool)
        ensures
            r == self@.is_unknown_property(),
    {
        match self {
            BACnetErr::Error { class, code, .. } => *class == ERROR_CLASS_PROPERTY && *code
                == ERROR_CODE_UNKNOWN_PROPERTY,
            _ => false,
        }
    }
}

} // verus!
