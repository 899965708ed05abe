//! The audio-codec status codes.

use vstd::prelude::*;
use crate::OSStatus;

verus! {

/// The codec errors, one per defined native status code, with a
/// catch-all for every other nonzero status.
#[derive(Copy, Clone, Debug, PartialEq, Eq, Structural)]
pub enum Error {
    Unspecified,
    UnknownProperty,
    BadPropertySize,
    IllegalOperation,
    UnsupportedFormat,
    State,
    NotEnoughBufferSpace,
    BadData,
    Unknown,
}

impl Error {
    /// The reading this module gives a native status: zero is success,
    /// each defined code its error, anything else `Unknown`.
    pub open spec fn spec_from_os_status(os_status: OSStatus) -> Result<(), Error> {
        if os_status == 0 {
            Ok(())
        } else if os_status == 0x77686174 {
            Err(Error::Unspecified)
        } else if os_status == 0x77686f3f {
            Err(Error::UnknownProperty)
        } else if os_status == 0x2173697a {
            Err(Error::BadPropertySize)
        } else if os_status == 0x6e6f7065 {
            Err(Error::IllegalOperation)
        } else if os_status == 0x21646174 {
            Err(Error::UnsupportedFormat)
        } else if os_status == 0x21737474 {
            Err(Error::State)
        } else if os_status == 0x21627566 {
            Err(Error::NotEnoughBufferSpace)
        } else if os_status == 0x62616461 {
            Err(Error::BadData)
        } else {
            Err(Error::Unknown)
        }
    }

    /// Read a native status under this module's codes.
    pub fn from_os_status(os_status: OSStatus) -> (r: Result<(), Error>)
        ensures
            r == Self::spec_from_os_status(os_status),
    {
        match os_status {
            0 => Ok(()),
            0x77686174 => Err(Error::Unspecified),
            0x77686f3f => Err(Error::UnknownProperty),
            0x2173697a => Err(Error::BadPropertySize),
            0x6e6f7065 => Err(Error::IllegalOperation),
            0x21646174 => Err(Error::UnsupportedFormat),
            0x21737474 => Err(Error::State),
            0x21627566 => Err(Error::NotEnoughBufferSpace),
            0x62616461 => Err(Error::BadData),
            _ => Err(Error::Unknown),
        }
    }

    /// The native status code of this error; `Unknown`, which stands for
    /// no defined code, carries the value right after the last defined
    /// one.
    pub open spec fn spec_as_os_status(self) -> OSStatus {
        match self {
            Error::Unspecified => 0x77686174i32,
            Error::UnknownProperty => 0x77686f3fi32,
            Error::BadPropertySize => 0x2173697ai32,
            Error::IllegalOperation => 0x6e6f7065i32,
            Error::UnsupportedFormat => 0x21646174i32,
            Error::State => 0x21737474i32,
            Error::NotEnoughBufferSpace => 0x21627566i32,
            Error::BadData => 0x62616461i32,
            Error::Unknown => 0x62616462i32,
        }
    }

    /// The native status code of this error.
    pub fn as_os_status(&self) -> (r: OSStatus)
        ensures
            r == self.spec_as_os_status(),
    {
        match *self {
            Error::Unspecified => 0x77686174,
            Error::UnknownProperty => 0x77686f3f,
            Error::BadPropertySize => 0x2173697a,
            Error::IllegalOperation => 0x6e6f7065,
            Error::UnsupportedFormat => 0x21646174,
            Error::State => 0x21737474,
            Error::NotEnoughBufferSpace => 0x21627566,
            Error::BadData => 0x62616461,
            Error::Unknown => 0x62616462,
        }
    }
}

} // verus!
