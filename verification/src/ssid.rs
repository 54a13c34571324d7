//! Wireless network identifiers: raw bytes with a text rendering.

use vstd::prelude::*;
use vstd::string::*;
use vstd::utf8::*;

verus! {

/// What `core::str::from_utf8` reports of bytes that are not UTF-8, carried
/// through unread.
#[verifier::external_type_specification]
#[verifier::external_body]
pub struct ExUtf8Error(core::str::Utf8Error);

/// `core::str::from_utf8` accepts exactly the byte sequences that are valid
/// UTF-8 and then returns a string slice over those same bytes.
pub assume_specification[ core::str::from_utf8 ](bytes: &[u8]) -> (res: Result<
    &str,
    core::str::Utf8Error,
>)
    ensures
        res is Ok <==> valid_utf8(bytes@),
        res matches Ok(text) ==> text.spec_bytes() == bytes@,
;

/// The identifier of a wireless network: any sequence of bytes.
#[derive(Debug)]
pub struct SSID(pub Vec<u8>);

impl View for SSID {
    type V = Seq<u8>;

    open spec fn view(&self) -> Seq<u8> {
        self.0@
    }
}

impl SSID {
    /// Lends the bytes of the identifier.
    pub fn to_vec(&self) -> (bytes: &Vec<u8>)
        ensures
            bytes == &self.0,
            bytes@ == self@,
    {
        &self.0
    }

    /// Reads the identifier as UTF-8 text, if it is such text.
    pub fn try_to_string(&self) -> (text: Option<String>)
        ensures
            text is Some <==> valid_utf8(self@),
            text matches Some(t) ==> t@ == decode_utf8(self@),
    {
        match core::str::from_utf8(self.0.as_slice()) {
            Ok(text) => {
                proof {
                    encode_utf8_decode_utf8(text@);
                }
                Some(text.to_owned())
            },
            Err(_) => None,
        }
    }

    /// Reads the identifier as UTF-8 text.
    pub fn to_string(&self) -> (text: String)
        requires
            valid_utf8(self@),
        ensures
            text@ == decode_utf8(self@),
    {
        self.try_to_string().unwrap()
    }
}

impl vstd::std_specs::cmp::PartialEqSpecImpl for SSID {
    open spec fn obeys_eq_spec() -> bool {
        true
    }

    open spec fn eq_spec(&self, other: &SSID) -> bool {
        self@ == other@
    }
}

impl PartialEq for SSID {
    /// Two identifiers are equal when they hold the same bytes.
    fn eq(&self, other: &SSID) -> (same: bool) {
        let same = self.0 == other.0;
        proof {
            if same {
                assert(self.0@ =~= other.0@);
            }
        }
        same
    }
}

impl Clone for SSID {
    /// A copy holds the same bytes.
    fn clone(&self) -> (copy: SSID)
        ensures
            copy@ == self@,
    {
        SSID(self.0.clone())
    }
}

impl Default for SSID {
    /// The empty identifier.
    fn default() -> (ssid: SSID)
        ensures
            ssid@ == Seq::<u8>::empty(),
    {
        SSID(Vec::new())
    }
}

impl vstd::std_specs::convert::FromSpecImpl<SSID> for Vec<u8> {
    open spec fn obeys_from_spec() -> bool {
        true
    }

    open spec fn from_spec(value: SSID) -> Vec<u8> {
        value.0
    }
}

impl From<SSID> for Vec<u8> {
    /// Unwraps the identifier into its bytes.
    fn from(value: SSID) -> (bytes: Vec<u8>)
        ensures
            bytes == value.0,
            bytes@ == value@,
    {
        value.0
    }
}

} // verus!
