//! Network devices and the numeric codes of their kinds.

use crate::text::{decimal, decimal_string};
use vstd::prelude::*;
use vstd::string::*;

verus! {

/// The kind of a network device.
#[derive(Debug, PartialEq, Eq, Structural, Copy, Clone)]
pub enum DeviceType {
    Loopback,
    Ethernet,
    Wireless,
    Dummy,
    Bond,
}

/// A network device: a caller-assigned name and the device's kind.
#[derive(Debug)]
pub struct Device {
    pub name: String,
    pub type_: DeviceType,
}

/// The rejected code of a device kind.
#[derive(Debug, PartialEq, Eq, Structural)]
pub struct InvalidDeviceType(pub u8);

impl Clone for Device {
    /// A copy has the same name and kind.
    fn clone(&self) -> (copy: Device)
        ensures
            copy == *self,
    {
        Device { name: self.name.clone(), type_: self.type_ }
    }
}

impl InvalidDeviceType {
    /// The diagnostic of the error: a fixed phrase, then the code in decimal.
    pub open spec fn text(&self) -> Seq<char> {
        "Invalid device type: "@ + decimal(self.0 as nat)
    }

    /// Writes the diagnostic of the error.
    pub fn to_string(&self) -> (text: String)
        ensures
            text@ == self.text(),
    {
        String::from_str("Invalid device type: ").concat(decimal_string(self.0).as_str())
    }
}

impl DeviceType {
    /// The wire code of each kind.
    pub open spec fn code(self) -> u8 {
        match self {
            DeviceType::Loopback => 0,
            DeviceType::Ethernet => 1,
            DeviceType::Wireless => 2,
            DeviceType::Dummy => 3,
            DeviceType::Bond => 4,
        }
    }

    /// The kind that a wire code stands for, if it stands for one.
    pub open spec fn from_code(code: u8) -> Option<DeviceType> {
        if code == 0 {
            Some(DeviceType::Loopback)
        } else if code == 1 {
            Some(DeviceType::Ethernet)
        } else if code == 2 {
            Some(DeviceType::Wireless)
        } else if code == 3 {
            Some(DeviceType::Dummy)
        } else if code == 4 {
            Some(DeviceType::Bond)
        } else {
            None
        }
    }

    /// Returns the wire code of this kind, from which the kind is found again.
    pub fn as_code(self) -> (code: u8)
        ensures
            code == self.code(),
            code <= 4,
            DeviceType::from_code(code) == Some(self),
    {
        match self {
            DeviceType::Loopback => 0,
            DeviceType::Ethernet => 1,
            DeviceType::Wireless => 2,
            DeviceType::Dummy => 3,
            DeviceType::Bond => 4,
        }
    }
}

impl vstd::std_specs::convert::TryFromSpecImpl<u8> for DeviceType {
    open spec fn obeys_try_from_spec() -> bool {
        true
    }

    open spec fn try_from_spec(value: u8) -> Result<Self, Self::Error> {
        match DeviceType::from_code(value) {
            Some(kind) => Ok(kind),
            None => Err(InvalidDeviceType(value)),
        }
    }
}

impl TryFrom<u8> for DeviceType {
    type Error = InvalidDeviceType;

    /// Reads a wire code. Codes 0 to 4 give their kind; every other code is
    /// handed back in the error.
    fn try_from(value: u8) -> (res: Result<Self, Self::Error>)
        ensures
            res is Ok <==> value <= 4,
            match res {
                Ok(kind) => DeviceType::from_code(value) == Some(kind) && kind.code() == value,
                Err(e) => DeviceType::from_code(value) is None && e == InvalidDeviceType(value),
            },
    {
        match value {
            0 => Ok(DeviceType::Loopback),
            1 => Ok(DeviceType::Ethernet),
            2 => Ok(DeviceType::Wireless),
            3 => Ok(DeviceType::Dummy),
            4 => Ok(DeviceType::Bond),
            _ => Err(InvalidDeviceType(value)),
        }
    }
}

/// Every code from 0 to 4 stands for a kind, that kind has the code, and no
/// other code stands for a kind.
pub proof fn lemma_code_names_kind(code: u8)
    ensures
        DeviceType::from_code(code) is Some <==> code <= 4,
        DeviceType::from_code(code) matches Some(kind) ==> kind.code() == code,
{
}

/// Every kind is found again from its code.
pub proof fn lemma_kind_found_by_code(kind: DeviceType)
    ensures
        kind.code() <= 4,
        DeviceType::from_code(kind.code()) == Some(kind),
{
}

} // verus!
