//! The stream-format description an audio unit is configured with, and
//! its conversion to and from the OS's binary descriptor.

use vstd::prelude::*;
use crate::audio_unit::audio_format::{AudioFormat, LinearPcmFlags, LINEAR_PCM_FORMAT_ID};
use crate::audio_unit::sample_format::SampleFormat;
use crate::error::{AudioUnitError, Error};

verus! {

/// The most channels a stream format may declare: with the widest
/// four-byte samples, an interleaved frame of this many channels is the
/// largest that still fits the descriptor's 32-bit byte counts.
pub const MAX_CHANNELS: u32 = 0x3fffffff;

/// A plain-value mirror of the OS's binary stream descriptor, field for
/// field. The native structure stores the sample rate as a
/// floating-point number of frames per second; this mirror keeps the
/// whole frames-per-second count, which the supported formats use.
#[derive(Copy, Clone, Debug, PartialEq, Eq, Structural)]
pub struct AudioStreamBasicDescription {
    pub sample_rate: u64,
    pub format_id: u32,
    pub format_flags: u32,
    pub bytes_per_packet: u32,
    pub frames_per_packet: u32,
    pub bytes_per_frame: u32,
    pub channels_per_frame: u32,
    pub bits_per_channel: u32,
    pub reserved: u32,
}

/// An audio unit's stream format: how the samples of each frame are
/// represented and laid out, and how many frames pass per second.
///
/// Only the packed, native-endian linear-PCM subset is representable,
/// so the descriptor's derived fields (bytes per frame and packet,
/// frames per packet, bits per channel) follow from these four fields
/// and are not stored.
#[derive(Copy, Clone, Debug, PartialEq, Eq, Structural)]
pub struct StreamFormat {
    /// Frames per second; always positive.
    pub sample_rate: u64,
    /// The numeric representation of one sample.
    pub sample_format: SampleFormat,
    /// Channels per frame; always positive.
    pub channels: u32,
    /// Whether each frame's channels share one buffer (`true`) or each
    /// channel has a buffer of its own (`false`).
    pub interleaved: bool,
}

impl StreamFormat {
    /// A stream format is well formed when its rate and channel count
    /// are positive and the channel count keeps the derived byte counts
    /// within the descriptor's 32-bit fields.
    pub open spec fn wf(self) -> bool {
        &&& self.sample_rate > 0
        &&& 1 <= self.channels <= MAX_CHANNELS
    }

    /// The bytes one frame occupies: one sample per channel when the
    /// channels are interleaved in one buffer, and one sample alone when
    /// each channel has its own buffer.
    pub open spec fn spec_bytes_per_frame(self) -> u32 {
        if self.interleaved {
            (self.sample_format.spec_size_in_bytes() * self.channels) as u32
        } else {
            self.sample_format.spec_size_in_bytes() as u32
        }
    }

    /// The descriptor this stream format encodes to: linear PCM, the
    /// standard packed flag word, one frame per packet, and the derived
    /// byte counts.
    pub open spec fn spec_to_asbd(self) -> AudioStreamBasicDescription {
        AudioStreamBasicDescription {
            sample_rate: self.sample_rate,
            format_id: LINEAR_PCM_FORMAT_ID,
            format_flags: LinearPcmFlags::spec_standard(
                self.sample_format is F32,
                !self.interleaved,
            ),
            bytes_per_packet: self.spec_bytes_per_frame(),
            frames_per_packet: 1,
            bytes_per_frame: self.spec_bytes_per_frame(),
            channels_per_frame: self.channels,
            bits_per_channel: (8 * self.sample_format.spec_size_in_bytes()) as u32,
            reserved: 0,
        }
    }

    /// Encode this stream format as the OS's binary descriptor.
    ///
    /// Encoding is total on well-formed formats: every field follows
    /// from the four stored ones.
    pub fn to_asbd(&self) -> (r: AudioStreamBasicDescription)
        requires
            self.wf(),
        ensures
            r == self.spec_to_asbd(),
    {
        let width: u32 = self.sample_format.size_in_bytes() as u32;
        let bytes_per_frame: u32 = if self.interleaved {
            proof {
                assert(width as int * self.channels as int <= 4 * MAX_CHANNELS as int)
                    by (nonlinear_arith)
                    requires
                        width <= 4,
                        self.channels <= MAX_CHANNELS,
                ;
            }
            width * self.channels
        } else {
            width
        };
        AudioStreamBasicDescription {
            sample_rate: self.sample_rate,
            format_id: LINEAR_PCM_FORMAT_ID,
            format_flags: LinearPcmFlags::standard(
                matches!(self.sample_format, SampleFormat::F32),
                !self.interleaved,
            ).bits(),
            bytes_per_packet: bytes_per_frame,
            frames_per_packet: 1,
            bytes_per_frame,
            channels_per_frame: self.channels,
            bits_per_channel: 8 * width,
            reserved: 0,
        }
    }

    /// The stream format a descriptor decodes to, or the error that
    /// rejects it.
    ///
    /// A descriptor is accepted exactly when it is one this crate could
    /// itself have encoded: linear PCM under the standard packed flag
    /// word, a supported sample width, positive rate and channel count,
    /// and derived fields that agree with the stored ones. Anything
    /// else — another encoding, an undefined or non-canonical flag word,
    /// or a descriptor whose byte counts contradict its format — is a
    /// hard error, never coerced.
    pub open spec fn spec_from_asbd(asbd: AudioStreamBasicDescription) -> Result<
        StreamFormat,
        Error,
    > {
        match AudioFormat::spec_from_format_and_flag(asbd.format_id, Some(asbd.format_flags)) {
            Some(AudioFormat::LinearPCM(flags)) => match SampleFormat::spec_from_flags_and_bits_per_sample(
                flags,
                asbd.bits_per_channel,
            ) {
                Some(sample_format) => {
                    let interleaved = !flags.spec_is_non_interleaved();
                    let format = StreamFormat {
                        sample_rate: asbd.sample_rate,
                        sample_format,
                        channels: asbd.channels_per_frame,
                        interleaved,
                    };
                    if {
                        &&& flags.spec_bits() == LinearPcmFlags::spec_standard(
                            sample_format is F32,
                            !interleaved,
                        )
                        &&& format.wf()
                        &&& asbd.bytes_per_frame == format.spec_bytes_per_frame()
                        &&& asbd.bytes_per_packet == format.spec_bytes_per_frame()
                        &&& asbd.frames_per_packet == 1
                        &&& asbd.reserved == 0
                    } {
                        Ok(format)
                    } else {
                        Err(Error::AudioUnit(AudioUnitError::FormatNotSupported))
                    }
                },
                None => Err(Error::AudioUnit(AudioUnitError::FormatNotSupported)),
            },
            _ => Err(Error::AudioUnit(AudioUnitError::FormatNotSupported)),
        }
    }

    /// Whether a descriptor belongs to the supported set: the
    /// descriptors the decoder accepts.
    pub open spec fn spec_is_supported_asbd(asbd: AudioStreamBasicDescription) -> bool {
        StreamFormat::spec_from_asbd(asbd) is Ok
    }

    /// Decode the OS's binary descriptor into a stream format.
    pub fn from_asbd(asbd: AudioStreamBasicDescription) -> (r: Result<StreamFormat, Error>)
        ensures
            r == Self::spec_from_asbd(asbd),
            r is Ok <==> Self::spec_is_supported_asbd(asbd),
            r matches Ok(f) ==> f.wf(),
    {
        let not_supported = Error::AudioUnit(AudioUnitError::FormatNotSupported);
        let flags = match AudioFormat::from_format_and_flag(asbd.format_id, Some(asbd.format_flags))
        {
            Some(AudioFormat::LinearPCM(flags)) => flags,
            _ => {
                return Err(not_supported);
            },
        };
        let sample_format = match SampleFormat::from_flags_and_bits_per_sample(
            flags,
            asbd.bits_per_channel,
        ) {
            Some(sample_format) => sample_format,
            None => {
                return Err(not_supported);
            },
        };
        let interleaved = !flags.is_non_interleaved();
        let format = StreamFormat {
            sample_rate: asbd.sample_rate,
            sample_format,
            channels: asbd.channels_per_frame,
            interleaved,
        };
        let standard = LinearPcmFlags::standard(
            matches!(sample_format, SampleFormat::F32),
            !interleaved,
        );
        let width: u32 = sample_format.size_in_bytes() as u32;
        let bytes_per_frame: u32 = if interleaved {
            if asbd.channels_per_frame > MAX_CHANNELS {
                return Err(not_supported);
            }
            proof {
                assert(width as int * asbd.channels_per_frame as int <= 4 * MAX_CHANNELS as int)
                    by (nonlinear_arith)
                    requires
                        width <= 4,
                        asbd.channels_per_frame <= MAX_CHANNELS,
                ;
            }
            width * asbd.channels_per_frame
        } else {
            width
        };
        if {
            &&& flags.bits() == standard.bits()
            &&& asbd.sample_rate > 0
            &&& 1 <= asbd.channels_per_frame && asbd.channels_per_frame <= MAX_CHANNELS
            &&& asbd.bytes_per_frame == bytes_per_frame
            &&& asbd.bytes_per_packet == bytes_per_frame
            &&& asbd.frames_per_packet == 1
            &&& asbd.reserved == 0
        } {
            Ok(format)
        } else {
            Err(not_supported)
        }
    }
}

/// Encoding a well-formed stream format and decoding the result gives
/// the format back: the supported set loses nothing.
pub proof fn lemma_stream_format_round_trip(f: StreamFormat)
    requires
        f.wf(),
    ensures
        StreamFormat::spec_from_asbd(f.spec_to_asbd()) == Ok::<StreamFormat, Error>(f),
{
}

/// Decoding a supported descriptor and encoding the result gives the
/// descriptor back, bit for bit: nothing in the supported set is
/// silently coerced.
pub proof fn lemma_asbd_round_trip(asbd: AudioStreamBasicDescription)
    requires
        StreamFormat::spec_is_supported_asbd(asbd),
    ensures
        StreamFormat::spec_from_asbd(asbd) matches Ok(f) && f.spec_to_asbd() == asbd,
{
}


} // verus!
