//! Typed readings of the native status codes, one module per status
//! family, and a wrapper that covers them all.

use vstd::prelude::*;
use crate::OSStatus;

pub mod audio;
pub mod audio_codec;
pub mod audio_format;
pub mod audio_unit;

pub use self::audio::Error as AudioError;
pub use self::audio_codec::Error as AudioCodecError;
pub use self::audio_format::Error as AudioFormatError;
pub use self::audio_unit::Error as AudioUnitError;

verus! {

/// A typed reading of any native status code, together with the errors
/// this crate raises itself.
#[derive(Copy, Clone, Debug, PartialEq, Eq, Structural)]
pub enum Error {
    Unspecified,
    SystemSoundClientMessageTimedOut,
    NoMatchingDefaultAudioUnitFound,
    RenderCallbackBufferFormatDoesNotMatchAudioUnitStreamFormat,
    NoKnownSubtype,
    NonInterleavedInputOnlySupportsMono,
    UnsupportedSampleRate,
    UnsupportedStreamFormat,
    Audio(AudioError),
    AudioCodec(AudioCodecError),
    AudioFormat(AudioFormatError),
    AudioUnit(AudioUnitError),
    Unknown(OSStatus),
}

impl Error {
    /// The reading the status families together give a native status:
    /// zero is success; the two system-sound codes come first, then each
    /// family is asked in turn (general audio, codec, format, audio
    /// unit), and the first family that recognises the code names the
    /// error; a code no family recognises is kept as `Unknown`.
    pub open spec fn spec_from_os_status(os_status: OSStatus) -> Result<(), Error> {
        if os_status == 0 {
            Ok(())
        } else if os_status == -1500 {
            Err(Error::Unspecified)
        } else if os_status == -1501 {
            Err(Error::SystemSoundClientMessageTimedOut)
        } else {
            match AudioError::spec_from_os_status(os_status) {
                Ok(_) | Err(AudioError::Unknown) => match AudioCodecError::spec_from_os_status(
                    os_status,
                ) {
                    Ok(_) | Err(AudioCodecError::Unknown) => match AudioFormatError::spec_from_os_status(
                        os_status,
                    ) {
                        Ok(_) | Err(AudioFormatError::Unknown) => match AudioUnitError::spec_from_os_status(
                            os_status,
                        ) {
                            Ok(_) | Err(AudioUnitError::Unknown) => Err(Error::Unknown(os_status)),
                            Err(e) => Err(Error::AudioUnit(e)),
                        },
                        Err(e) => Err(Error::AudioFormat(e)),
                    },
                    Err(e) => Err(Error::AudioCodec(e)),
                },
                Err(e) => Err(Error::Audio(e)),
            }
        }
    }

    /// Read a native status, asking each status family in turn.
    pub fn from_os_status(os_status: OSStatus) -> (r: Result<(), Error>)
        ensures
            r == Self::spec_from_os_status(os_status),
    {
        match os_status {
            0 => Ok(()),
            -1500 => Err(Error::Unspecified),
            -1501 => Err(Error::SystemSoundClientMessageTimedOut),
            _ => {
                match AudioError::from_os_status(os_status) {
                    Ok(()) => {
                        return Ok(());
                    },
                    Err(AudioError::Unknown) => (),
                    Err(err) => {
                        return Err(Error::Audio(err));
                    },
                }
                match AudioCodecError::from_os_status(os_status) {
                    Ok(()) => {
                        return Ok(());
                    },
                    Err(AudioCodecError::Unknown) => (),
                    Err(err) => {
                        return Err(Error::AudioCodec(err));
                    },
                }
                match AudioFormatError::from_os_status(os_status) {
                    Ok(()) => {
                        return Ok(());
                    },
                    Err(AudioFormatError::Unknown) => (),
                    Err(err) => {
                        return Err(Error::AudioFormat(err));
                    },
                }
                match AudioUnitError::from_os_status(os_status) {
                    Ok(()) => {
                        return Ok(());
                    },
                    Err(AudioUnitError::Unknown) => (),
                    Err(err) => {
                        return Err(Error::AudioUnit(err));
                    },
                }
                Err(Error::Unknown(os_status))
            },
        }
    }

    /// The native status code this error reports: a wrapped family
    /// error keeps its own code, except that a wrapped format error —
    /// like every error with no native code of its own — falls back to
    /// the unspecified system-sound code.
    pub open spec fn spec_as_os_status(self) -> OSStatus {
        match self {
            Error::Unspecified => -1500i32,
            Error::NoMatchingDefaultAudioUnitFound => -1500i32,
            Error::RenderCallbackBufferFormatDoesNotMatchAudioUnitStreamFormat => -1500i32,
            Error::SystemSoundClientMessageTimedOut => -1501i32,
            Error::Audio(err) => err.spec_as_os_status(),
            Error::AudioCodec(err) => err.spec_as_os_status(),
            Error::AudioUnit(err) => err.spec_as_os_status(),
            _ => -1500i32,
        }
    }

    /// The native status code this error reports.
    pub fn as_os_status(&self) -> (r: OSStatus)
        ensures
            r == self.spec_as_os_status(),
    {
        match *self {
            Error::Unspecified => -1500,
            Error::NoMatchingDefaultAudioUnitFound => -1500,
            Error::RenderCallbackBufferFormatDoesNotMatchAudioUnitStreamFormat => -1500,
            Error::SystemSoundClientMessageTimedOut => -1501,
            Error::Audio(err) => err.as_os_status(),
            Error::AudioCodec(err) => err.as_os_status(),
            Error::AudioUnit(err) => err.as_os_status(),
            _ => -1500,
        }
    }
}

} // verus!
