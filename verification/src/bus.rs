//! The one failure shape of the bus protocol, into which both conversion
//! errors are flattened.

use crate::bond::InvalidBondMode;
use crate::device::InvalidDeviceType;
use vstd::prelude::*;
use vstd::string::*;

verus! {

/// The error type of the bus protocol, carried through unread.
#[verifier::external_type_specification]
#[verifier::external_body]
pub struct ExFdoError(zbus::fdo::Error);

/// The generic failure of the bus protocol that carries the given message:
/// `zbus::fdo::Error::Failed` around that text.
pub uninterp spec fn failed(message: Seq<char>) -> zbus::fdo::Error;

/// Builds `zbus::fdo::Error::Failed` around the message. The variant holds
/// the string as it is given, so the result depends on the message alone.
#[verifier::external_body]
fn new_failed(message: String) -> (error: zbus::fdo::Error)
    ensures
        error == failed(message@),
{
    zbus::fdo::Error::Failed(message)
}

/// The text of a failure at the bus boundary: a fixed prefix, then the reason.
pub open spec fn network_error_text(reason: Seq<char>) -> Seq<char> {
    "Network error: "@ + reason
}

/// Writes the text of a failure at the bus boundary.
pub fn network_error(reason: &str) -> (text: String)
    ensures
        text@ == network_error_text(reason@),
{
    String::from_str("Network error: ").concat(reason)
}

impl vstd::std_specs::convert::FromSpecImpl<InvalidDeviceType> for zbus::fdo::Error {
    open spec fn obeys_from_spec() -> bool {
        true
    }

    open spec fn from_spec(value: InvalidDeviceType) -> zbus::fdo::Error {
        failed(network_error_text(value.text()))
    }
}

impl From<InvalidDeviceType> for zbus::fdo::Error {
    /// Flattens the error into the generic failure, with its text as the reason.
    fn from(value: InvalidDeviceType) -> (error: zbus::fdo::Error)
        ensures
            error == failed(network_error_text(value.text())),
    {
        new_failed(network_error(value.to_string().as_str()))
    }
}

impl vstd::std_specs::convert::FromSpecImpl<InvalidBondMode> for zbus::fdo::Error {
    open spec fn obeys_from_spec() -> bool {
        true
    }

    open spec fn from_spec(value: InvalidBondMode) -> zbus::fdo::Error {
        failed(network_error_text(value.text()))
    }
}

impl From<InvalidBondMode> for zbus::fdo::Error {
    /// Flattens the error into the generic failure, with its text as the reason.
    fn from(value: InvalidBondMode) -> (error: zbus::fdo::Error)
        ensures
            error == failed(network_error_text(value.text())),
    {
        new_failed(network_error(value.to_string().as_str()))
    }
}

} // verus!
