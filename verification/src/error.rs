//! Error kinds shared by parsing, validation, catalog lookup and scanning.

use vstd::prelude::*;

verus! {

/// Why a command, lookup or scan was rejected.
#[derive(Debug, Clone, PartialEq, Eq)]
pub enum ErrorKind {
    /// A parameter value lies outside its declared semantic domain; the
    /// payload names the offending field.
    InvalidArgument(String),
    /// The command requires a capability the resolved device lacks; the
    /// payload names the missing feature tag.
    UnsupportedFeature(String),
    /// No catalog entry matches the scanned vendor/product id.
    DeviceNotFound,
    /// The HID subsystem could not be opened.
    DeviceUnavailable,
}

} // verus!
