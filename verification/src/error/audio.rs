//! The general audio status codes.

use vstd::prelude::*;
use crate::OSStatus;

verus! {

/// The general audio errors, one per defined native status code, with a
/// catch-all for every other nonzero status.
#[derive(Copy, Clone, Debug, PartialEq, Eq, Structural)]
pub enum Error {
    Unimplemented,
    FileNotFound,
    FilePermission,
    TooManyFilesOpen,
    BadFilePath,
    Param,
    MemFull,
    Unknown,
}

impl Error {
    /// The reading this module gives a native status: zero is success,
    /// each defined code its error, anything else `Unknown`.
    pub open spec fn spec_from_os_status(os_status: OSStatus) -> Result<(), Error> {
        if os_status == 0 {
            Ok(())
        } else if os_status == -4 {
            Err(Error::Unimplemented)
        } else if os_status == -43 {
            Err(Error::FileNotFound)
        } else if os_status == -54 {
            Err(Error::FilePermission)
        } else if os_status == -42 {
            Err(Error::TooManyFilesOpen)
        } else if os_status == 0x21707468 {
            Err(Error::BadFilePath)
        } else if os_status == -50 {
            Err(Error::Param)
        } else if os_status == -108 {
            Err(Error::MemFull)
        } else {
            Err(Error::Unknown)
        }
    }

    /// Read a native status under this module's codes.
    pub fn from_os_status(os_status: OSStatus) -> (r: Result<(), Error>)
        ensures
            r == Self::spec_from_os_status(os_status),
    {
        match os_status {
            0 => Ok(()),
            -4 => Err(Error::Unimplemented),
            -43 => Err(Error::FileNotFound),
            -54 => Err(Error::FilePermission),
            -42 => Err(Error::TooManyFilesOpen),
            0x21707468 => Err(Error::BadFilePath),
            -50 => Err(Error::Param),
            -108 => Err(Error::MemFull),
            _ => Err(Error::Unknown),
        }
    }

    /// The native status code of this error; `Unknown`, which stands for
    /// no defined code, carries the value right after the last defined
    /// one.
    pub open spec fn spec_as_os_status(self) -> OSStatus {
        match self {
            Error::Unimplemented => -4i32,
            Error::FileNotFound => -43i32,
            Error::FilePermission => -54i32,
            Error::TooManyFilesOpen => -42i32,
            Error::BadFilePath => 0x21707468i32,
            Error::Param => -50i32,
            Error::MemFull => -108i32,
            Error::Unknown => -107i32,
        }
    }

    /// The native status code of this error.
    pub fn as_os_status(&self) -> (r: OSStatus)
        ensures
            r == self.spec_as_os_status(),
    {
        match *self {
            Error::Unimplemented => -4,
            Error::FileNotFound => -43,
            Error::FilePermission => -54,
            Error::TooManyFilesOpen => -42,
            Error::BadFilePath => 0x21707468,
            Error::Param => -50,
            Error::MemFull => -108,
            Error::Unknown => -107,
        }
    }
}

} // verus!
