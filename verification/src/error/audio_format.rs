//! The audio-format status codes.

use vstd::prelude::*;
use crate::OSStatus;

verus! {

/// The format errors, one per defined native status code, with a
/// catch-all for every other nonzero status.
#[derive(Copy, Clone, Debug, PartialEq, Eq, Structural)]
pub enum Error {
    Unspecified,
    UnsupportedProperty,
    BadPropertySize,
    BadSpecifierSize,
    UnsupportedDataFormat,
    UnknownFormat,
    Unknown,
}

impl Error {
    /// The reading this module gives a native status: zero is success,
    /// each defined code its error, anything else `Unknown`.
    pub open spec fn spec_from_os_status(os_status: OSStatus) -> Result<(), Error> {
        if os_status == 0 {
            Ok(())
        } else if os_status == 0x77686174 {
            Err(Error::Unspecified)
        } else if os_status == 0x70726f70 {
            Err(Error::UnsupportedProperty)
        } else if os_status == 0x2173697a {
            Err(Error::BadPropertySize)
        } else if os_status == 0x21737063 {
            Err(Error::BadSpecifierSize)
        } else if os_status == 0x666d743f {
            Err(Error::UnsupportedDataFormat)
        } else if os_status == 0x21666d74 {
            Err(Error::UnknownFormat)
        } else {
            Err(Error::Unknown)
        }
    }

    /// Read a native status under this module's codes.
    pub fn from_os_status(os_status: OSStatus) -> (r: Result<(), Error>)
        ensures
            r == Self::spec_from_os_status(os_status),
    {
        match os_status {
            0 => Ok(()),
            0x77686174 => Err(Error::Unspecified),
            0x70726f70 => Err(Error::UnsupportedProperty),
            0x2173697a => Err(Error::BadPropertySize),
            0x21737063 => Err(Error::BadSpecifierSize),
            0x666d743f => Err(Error::UnsupportedDataFormat),
            0x21666d74 => Err(Error::UnknownFormat),
            _ => Err(Error::Unknown),
        }
    }

    /// The native status code of this error; `Unknown`, which stands for
    /// no defined code, carries the value right after the last defined
    /// one.
    pub open spec fn spec_as_os_status(self) -> OSStatus {
        match self {
            Error::Unspecified => 0x77686174i32,
            Error::UnsupportedProperty => 0x70726f70i32,
            Error::BadPropertySize => 0x2173697ai32,
            Error::BadSpecifierSize => 0x21737063i32,
            Error::UnsupportedDataFormat => 0x666d743fi32,
            Error::UnknownFormat => 0x21666d74i32,
            Error::Unknown => 0x21666d75i32,
        }
    }

    /// The native status code of this error.
    pub fn as_os_status(&self) -> (r: OSStatus)
        ensures
            r == self.spec_as_os_status(),
    {
        match *self {
            Error::Unspecified => 0x77686174,
            Error::UnsupportedProperty => 0x70726f70,
            Error::BadPropertySize => 0x2173697a,
            Error::BadSpecifierSize => 0x21737063,
            Error::UnsupportedDataFormat => 0x666d743f,
            Error::UnknownFormat => 0x21666d74,
            Error::Unknown => 0x21666d75,
        }
    }
}

} // verus!
