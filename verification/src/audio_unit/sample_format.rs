//! The sample formats the linear-PCM subset supports, and how a format is
//! recognised from a native flag word and bit width.

use vstd::prelude::*;
use crate::audio_unit::audio_format::LinearPcmFlags;

verus! {

/// The numeric representation of one audio sample.
///
/// Every variant is a packed, native-endian linear-PCM encoding with a
/// fixed byte width.
#[derive(Copy, Clone, Debug, PartialEq, Eq, Structural)]
pub enum SampleFormat {
    /// 32-bit floating point.
    F32,
    /// 32-bit signed integer.
    I32,
    /// 16-bit signed integer.
    I16,
    /// 8-bit signed integer.
    I8,
}

impl SampleFormat {
    /// The width of one sample of this format, in bytes.
    pub open spec fn spec_size_in_bytes(self) -> usize {
        match self {
            SampleFormat::F32 => 4,
            SampleFormat::I32 => 4,
            SampleFormat::I16 => 2,
            SampleFormat::I8 => 1,
        }
    }

    /// The width of one sample of this format, in bytes.
    pub fn size_in_bytes(&self) -> (r: usize)
        ensures
            r == self.spec_size_in_bytes(),
            1 <= r <= 4,
    {
        match *self {
            SampleFormat::F32 => 4,
            SampleFormat::I32 => 4,
            SampleFormat::I16 => 2,
            SampleFormat::I8 => 1,
        }
    }

    /// Whether a linear-PCM flag word describes samples of this format's
    /// numeric kind: floating point for the float format, and signed
    /// integer (and not floating point) for the integer formats.
    pub open spec fn spec_does_match_flags(self, flags: LinearPcmFlags) -> bool {
        match self {
            SampleFormat::F32 => flags.spec_is_float() && !flags.spec_is_signed_integer(),
            SampleFormat::I32 | SampleFormat::I16 | SampleFormat::I8 => flags.spec_is_signed_integer()
                && !flags.spec_is_float(),
        }
    }

    /// Whether a linear-PCM flag word describes samples of this format's
    /// numeric kind.
    pub fn does_match_flags(&self, flags: LinearPcmFlags) -> (r: bool)
        ensures
            r == self.spec_does_match_flags(flags),
    {
        let is_float = flags.is_float();
        let is_signed_integer = flags.is_signed_integer();
        match *self {
            SampleFormat::F32 => is_float && !is_signed_integer,
            SampleFormat::I32 | SampleFormat::I16 | SampleFormat::I8 => is_signed_integer
                && !is_float,
        }
    }

    /// The sample format a linear-PCM flag word and sample width
    /// describe, if the pair is one of the supported packed encodings.
    pub open spec fn spec_from_flags_and_bits_per_sample(
        flags: LinearPcmFlags,
        bits_per_sample: u32,
    ) -> Option<SampleFormat> {
        if !flags.spec_is_packed() {
            None
        } else if flags.spec_is_float() {
            if bits_per_sample == 32 {
                Some(SampleFormat::F32)
            } else {
                None
            }
        } else if flags.spec_is_signed_integer() {
            if bits_per_sample == 8 {
                Some(SampleFormat::I8)
            } else if bits_per_sample == 16 {
                Some(SampleFormat::I16)
            } else if bits_per_sample == 32 {
                Some(SampleFormat::I32)
            } else {
                None
            }
        } else {
            None
        }
    }

    /// The sample format a linear-PCM flag word and sample width
    /// describe: only packed words are supported, a float word must
    /// declare 32 bits, and a signed-integer word 8, 16 or 32.
    pub fn from_flags_and_bits_per_sample(flags: LinearPcmFlags, bits_per_sample: u32) -> (r:
        Option<SampleFormat>)
        ensures
            r == Self::spec_from_flags_and_bits_per_sample(flags, bits_per_sample),
            r matches Some(f) ==> bits_per_sample == 8 * f.spec_size_in_bytes(),
    {
        if !flags.is_packed() {
            return None;
        }
        let sample_format = if flags.is_float() {
            match bits_per_sample {
                32 => SampleFormat::F32,
                _ => {
                    return None;
                },
            }
        } else if flags.is_signed_integer() {
            match bits_per_sample {
                8 => SampleFormat::I8,
                16 => SampleFormat::I16,
                32 => SampleFormat::I32,
                _ => {
                    return None;
                },
            }
        } else {
            return None;
        };
        Some(sample_format)
    }

    /// The width of one sample of this format, in bits.
    pub fn size_in_bits(&self) -> (r: u32)
        ensures
            r == 8 * self.spec_size_in_bytes(),
    {
        match *self {
            SampleFormat::F32 => 32,
            SampleFormat::I32 => 32,
            SampleFormat::I16 => 16,
            SampleFormat::I8 => 8,
        }
    }
}

/// Sample types an application can register a callback over.
pub trait Sample {
    /// The run-time description of this sample type.
    fn sample_format() -> SampleFormat;
}

impl Sample for i32 {
    fn sample_format() -> SampleFormat {
        SampleFormat::I32
    }
}

impl Sample for i16 {
    fn sample_format() -> SampleFormat {
        SampleFormat::I16
    }
}

impl Sample for i8 {
    fn sample_format() -> SampleFormat {
        SampleFormat::I8
    }
}

} // verus!
