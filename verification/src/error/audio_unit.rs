//! The audio-unit status codes.

use vstd::prelude::*;
use crate::OSStatus;

verus! {

/// The audio-unit errors, one per defined native status code, with a
/// catch-all for every other status.
#[derive(Copy, Clone, Debug, PartialEq, Eq, Structural)]
pub enum Error {
    InvalidProperty,
    InvalidParameter,
    InvalidElement,
    NoConnection,
    FailedInitialization,
    TooManyFramesToProcess,
    InvalidFile,
    FormatNotSupported,
    Uninitialized,
    InvalidScope,
    PropertyNotWritable,
    CannotDoInCurrentContext,
    InvalidPropertyValue,
    PropertyNotInUse,
    Initialized,
    InvalidOfflineRender,
    Unauthorized,
    Unknown,
}

impl Error {
    /// The reading this module gives a native status. Unlike the other
    /// status families, this one treats no status as success — the
    /// caller filters the zero status first — so every input maps to an
    /// error, each defined code to its own and anything else to
    /// `Unknown`.
    pub open spec fn spec_from_os_status(os_status: OSStatus) -> Result<(), Error> {
        if os_status == -10879 {
            Err(Error::InvalidProperty)
        } else if os_status == -10878 {
            Err(Error::InvalidParameter)
        } else if os_status == -10877 {
            Err(Error::InvalidElement)
        } else if os_status == -10876 {
            Err(Error::NoConnection)
        } else if os_status == -10875 {
            Err(Error::FailedInitialization)
        } else if os_status == -10874 {
            Err(Error::TooManyFramesToProcess)
        } else if os_status == -10871 {
            Err(Error::InvalidFile)
        } else if os_status == -10868 {
            Err(Error::FormatNotSupported)
        } else if os_status == -10867 {
            Err(Error::Uninitialized)
        } else if os_status == -10866 {
            Err(Error::InvalidScope)
        } else if os_status == -10865 {
            Err(Error::PropertyNotWritable)
        } else if os_status == -10863 {
            Err(Error::CannotDoInCurrentContext)
        } else if os_status == -10851 {
            Err(Error::InvalidPropertyValue)
        } else if os_status == -10850 {
            Err(Error::PropertyNotInUse)
        } else if os_status == -10849 {
            Err(Error::Initialized)
        } else if os_status == -10848 {
            Err(Error::InvalidOfflineRender)
        } else if os_status == -10847 {
            Err(Error::Unauthorized)
        } else {
            Err(Error::Unknown)
        }
    }

    /// Read a native status under this module's codes.
    pub fn from_os_status(os_status: OSStatus) -> (r: Result<(), Error>)
        ensures
            r == Self::spec_from_os_status(os_status),
    {
        match os_status {
            -10879 => Err(Error::InvalidProperty),
            -10878 => Err(Error::InvalidParameter),
            -10877 => Err(Error::InvalidElement),
            -10876 => Err(Error::NoConnection),
            -10875 => Err(Error::FailedInitialization),
            -10874 => Err(Error::TooManyFramesToProcess),
            -10871 => Err(Error::InvalidFile),
            -10868 => Err(Error::FormatNotSupported),
            -10867 => Err(Error::Uninitialized),
            -10866 => Err(Error::InvalidScope),
            -10865 => Err(Error::PropertyNotWritable),
            -10863 => Err(Error::CannotDoInCurrentContext),
            -10851 => Err(Error::InvalidPropertyValue),
            -10850 => Err(Error::PropertyNotInUse),
            -10849 => Err(Error::Initialized),
            -10848 => Err(Error::InvalidOfflineRender),
            -10847 => Err(Error::Unauthorized),
            _ => Err(Error::Unknown),
        }
    }

    /// The native status code of this error; `Unknown`, which stands for
    /// no defined code, carries the value right after the last defined
    /// one.
    pub open spec fn spec_as_os_status(self) -> OSStatus {
        match self {
            Error::InvalidProperty => -10879i32,
            Error::InvalidParameter => -10878i32,
            Error::InvalidElement => -10877i32,
            Error::NoConnection => -10876i32,
            Error::FailedInitialization => -10875i32,
            Error::TooManyFramesToProcess => -10874i32,
            Error::InvalidFile => -10871i32,
            Error::FormatNotSupported => -10868i32,
            Error::Uninitialized => -10867i32,
            Error::InvalidScope => -10866i32,
            Error::PropertyNotWritable => -10865i32,
            Error::CannotDoInCurrentContext => -10863i32,
            Error::InvalidPropertyValue => -10851i32,
            Error::PropertyNotInUse => -10850i32,
            Error::Initialized => -10849i32,
            Error::InvalidOfflineRender => -10848i32,
            Error::Unauthorized => -10847i32,
            Error::Unknown => -10846i32,
        }
    }

    /// The native status code of this error.
    pub fn as_os_status(&self) -> (r: OSStatus)
        ensures
            r == self.spec_as_os_status(),
    {
        match *self {
            Error::InvalidProperty => -10879,
            Error::InvalidParameter => -10878,
            Error::InvalidElement => -10877,
            Error::NoConnection => -10876,
            Error::FailedInitialization => -10875,
            Error::TooManyFramesToProcess => -10874,
            Error::InvalidFile => -10871,
            Error::FormatNotSupported => -10868,
            Error::Uninitialized => -10867,
            Error::InvalidScope => -10866,
            Error::PropertyNotWritable => -10865,
            Error::CannotDoInCurrentContext => -10863,
            Error::InvalidPropertyValue => -10851,
            Error::PropertyNotInUse => -10850,
            Error::Initialized => -10849,
            Error::InvalidOfflineRender => -10848,
            Error::Unauthorized => -10847,
            Error::Unknown => -10846,
        }
    }
}

} // verus!
