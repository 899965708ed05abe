//! The native audio-format identifiers and flag words, modelled as plain
//! values, with the conversions between the numeric form the OS uses and
//! the typed form the rest of the crate works with.

use vstd::prelude::*;

verus! {

/// The format identifier of linear PCM, the only encoding the stream
/// format conversions support.
pub const LINEAR_PCM_FORMAT_ID: u32 = 0x6c70636d;

/// The lowest value that holds a bit outside the seven defined
/// linear-PCM flag bits (so a flag word is recognised iff it is below
/// this bound).
pub const LINEAR_PCM_FLAG_LIMIT: u32 = 128;

/// A decoded linear-PCM flag word.
///
/// The word is kept in its native form; the accessors read one defined
/// bit each. A word holding any bit outside the seven defined ones
/// (including the sample-fraction field of fixed-point formats) is never
/// stored: `from_bits` rejects it.
#[derive(Copy, Clone, Debug, PartialEq, Eq, Structural)]
pub struct LinearPcmFlags {
    /// The native flag word; `wf` bounds it to the defined bits.
    pub bits: u32,
}

/// Whether the bit worth `place` (a power of two) is set in `bits`,
/// stated with division so that plain arithmetic reasons about it.
pub open spec fn spec_bit_set(bits: u32, place: u32) -> bool
    recommends
        place >= 1,
{
    (bits / place) % 2 == 1
}

impl LinearPcmFlags {
    /// The native flag word this value stands for.
    pub open spec fn spec_bits(self) -> u32 {
        self.bits
    }

    /// Every stored word is within the defined flag bits.
    pub open spec fn wf(self) -> bool {
        self.bits < LINEAR_PCM_FLAG_LIMIT
    }

    /// The flag set a native word decodes to, if it holds only defined
    /// bits.
    pub open spec fn spec_from_bits(bits: u32) -> Option<LinearPcmFlags> {
        if bits < LINEAR_PCM_FLAG_LIMIT {
            Some(LinearPcmFlags { bits })
        } else {
            None
        }
    }

    /// Decode a native flag word; a word with any undefined bit set is
    /// not a flag set this crate recognises.
    pub fn from_bits(bits: u32) -> (r: Option<LinearPcmFlags>)
        ensures
            r == Self::spec_from_bits(bits),
            r is Some <==> bits < LINEAR_PCM_FLAG_LIMIT,
            r matches Some(f) ==> f.spec_bits() == bits && f.wf(),
    {
        if bits < LINEAR_PCM_FLAG_LIMIT {
            Some(LinearPcmFlags { bits })
        } else {
            None
        }
    }

    /// The native flag word.
    pub fn bits(&self) -> (r: u32)
        ensures
            r == self.spec_bits(),
    {
        self.bits
    }

    /// Whether the samples are floating point.
    pub open spec fn spec_is_float(self) -> bool {
        spec_bit_set(self.spec_bits(), 1)
    }

    /// Whether the samples are big endian.
    pub open spec fn spec_is_big_endian(self) -> bool {
        spec_bit_set(self.spec_bits(), 2)
    }

    /// Whether the samples are signed integers.
    pub open spec fn spec_is_signed_integer(self) -> bool {
        spec_bit_set(self.spec_bits(), 4)
    }

    /// Whether the samples fill their whole byte width.
    pub open spec fn spec_is_packed(self) -> bool {
        spec_bit_set(self.spec_bits(), 8)
    }

    /// Whether unpacked samples sit in the high bits of their bytes.
    pub open spec fn spec_is_aligned_high(self) -> bool {
        spec_bit_set(self.spec_bits(), 16)
    }

    /// Whether each channel lives in a buffer of its own.
    pub open spec fn spec_is_non_interleaved(self) -> bool {
        spec_bit_set(self.spec_bits(), 32)
    }

    /// Whether the stream must not be mixed with others.
    pub open spec fn spec_is_non_mixable(self) -> bool {
        spec_bit_set(self.spec_bits(), 64)
    }

    /// Whether the samples are floating point.
    pub fn is_float(&self) -> (r: bool)
        ensures
            r == self.spec_is_float(),
    {
        (self.bits / 1) % 2 == 1
    }

    /// Whether the samples are big endian.
    pub fn is_big_endian(&self) -> (r: bool)
        ensures
            r == self.spec_is_big_endian(),
    {
        (self.bits / 2) % 2 == 1
    }

    /// Whether the samples are signed integers.
    pub fn is_signed_integer(&self) -> (r: bool)
        ensures
            r == self.spec_is_signed_integer(),
    {
        (self.bits / 4) % 2 == 1
    }

    /// Whether the samples fill their whole byte width.
    pub fn is_packed(&self) -> (r: bool)
        ensures
            r == self.spec_is_packed(),
    {
        (self.bits / 8) % 2 == 1
    }

    /// Whether unpacked samples sit in the high bits of their bytes.
    pub fn is_aligned_high(&self) -> (r: bool)
        ensures
            r == self.spec_is_aligned_high(),
    {
        (self.bits / 16) % 2 == 1
    }

    /// Whether each channel lives in a buffer of its own.
    pub fn is_non_interleaved(&self) -> (r: bool)
        ensures
            r == self.spec_is_non_interleaved(),
    {
        (self.bits / 32) % 2 == 1
    }

    /// Whether the stream must not be mixed with others.
    pub fn is_non_mixable(&self) -> (r: bool)
        ensures
            r == self.spec_is_non_mixable(),
    {
        (self.bits / 64) % 2 == 1
    }

    /// The flag word a packed native-endian stream carries: the float or
    /// signed-integer bit, the packed bit, and the non-interleaved bit
    /// when each channel has its own buffer.
    pub open spec fn spec_standard(is_float: bool, non_interleaved: bool) -> u32 {
        ((if is_float { 1u32 } else { 4u32 }) + 8 + (if non_interleaved { 32u32 } else { 0u32 })) as u32
    }

    /// Build the flag set of a packed native-endian stream.
    pub fn standard(is_float: bool, non_interleaved: bool) -> (r: LinearPcmFlags)
        ensures
            r.spec_bits() == Self::spec_standard(is_float, non_interleaved),
            r.wf(),
    {
        let base: u32 = if is_float { 1 } else { 4 };
        let ni: u32 = if non_interleaved { 32 } else { 0 };
        LinearPcmFlags { bits: base + 8 + ni }
    }
}

/// The individual linear-PCM flag constants, with the two fields of the
/// sample-fraction sub-word, as single values.
#[derive(Copy, Clone, Debug, PartialEq, Eq, Structural)]
pub enum LinearPCMFlag {
    IsFloat,
    IsBigEndian,
    IsSignedInteger,
    IsPacked,
    IsAlignedHigh,
    IsNonInterleaved,
    IsNonMixable,
    FlagsSampleFractionShift,
    FlagsSampleFractionMask,
}

impl LinearPCMFlag {
    /// The numeric value of this flag constant.
    pub open spec fn spec_as_u32(self) -> u32 {
        match self {
            LinearPCMFlag::IsFloat => 1,
            LinearPCMFlag::IsBigEndian => 2,
            LinearPCMFlag::IsSignedInteger => 4,
            LinearPCMFlag::IsPacked => 8,
            LinearPCMFlag::IsAlignedHigh => 16,
            LinearPCMFlag::IsNonInterleaved => 32,
            LinearPCMFlag::IsNonMixable => 64,
            LinearPCMFlag::FlagsSampleFractionShift => 7,
            LinearPCMFlag::FlagsSampleFractionMask => 8064,
        }
    }

    /// The numeric value of this flag constant.
    pub fn as_u32(&self) -> (r: u32)
        ensures
            r == self.spec_as_u32(),
    {
        match *self {
            LinearPCMFlag::IsFloat => 1,
            LinearPCMFlag::IsBigEndian => 2,
            LinearPCMFlag::IsSignedInteger => 4,
            LinearPCMFlag::IsPacked => 8,
            LinearPCMFlag::IsAlignedHigh => 16,
            LinearPCMFlag::IsNonInterleaved => 32,
            LinearPCMFlag::IsNonMixable => 64,
            LinearPCMFlag::FlagsSampleFractionShift => 7,
            LinearPCMFlag::FlagsSampleFractionMask => 8064,
        }
    }

    /// The flag constant a numeric value stands for, if any.
    pub open spec fn spec_from_u32(i: u32) -> Option<LinearPCMFlag> {
        match i {
            1u32 => Some(LinearPCMFlag::IsFloat),
            2u32 => Some(LinearPCMFlag::IsBigEndian),
            4u32 => Some(LinearPCMFlag::IsSignedInteger),
            8u32 => Some(LinearPCMFlag::IsPacked),
            16u32 => Some(LinearPCMFlag::IsAlignedHigh),
            32u32 => Some(LinearPCMFlag::IsNonInterleaved),
            64u32 => Some(LinearPCMFlag::IsNonMixable),
            7u32 => Some(LinearPCMFlag::FlagsSampleFractionShift),
            8064u32 => Some(LinearPCMFlag::FlagsSampleFractionMask),
            _ => None,
        }
    }

    /// The flag constant a numeric value stands for, if any.
    pub fn from_u32(i: u32) -> (r: Option<LinearPCMFlag>)
        ensures
            r == Self::spec_from_u32(i),
            r matches Some(f) ==> f.spec_as_u32() == i,
    {
        match i {
            1 => Some(LinearPCMFlag::IsFloat),
            2 => Some(LinearPCMFlag::IsBigEndian),
            4 => Some(LinearPCMFlag::IsSignedInteger),
            8 => Some(LinearPCMFlag::IsPacked),
            16 => Some(LinearPCMFlag::IsAlignedHigh),
            32 => Some(LinearPCMFlag::IsNonInterleaved),
            64 => Some(LinearPCMFlag::IsNonMixable),
            7 => Some(LinearPCMFlag::FlagsSampleFractionShift),
            8064 => Some(LinearPCMFlag::FlagsSampleFractionMask),
            _ => None,
        }
    }
}

/// The flag constants shared by the standard non-PCM stream layouts.
#[derive(Copy, Clone, Debug, PartialEq, Eq, Structural)]
pub enum StandardFlag {
    IsFloat,
    IsBigEndian,
    IsSignedInteger,
    IsPacked,
    IsAlignedHigh,
    IsNonInterleaved,
    IsNonMixable,
}

impl StandardFlag {
    /// The numeric value of this flag constant.
    pub open spec fn spec_as_u32(self) -> u32 {
        match self {
            StandardFlag::IsFloat => 1,
            StandardFlag::IsBigEndian => 2,
            StandardFlag::IsSignedInteger => 4,
            StandardFlag::IsPacked => 8,
            StandardFlag::IsAlignedHigh => 16,
            StandardFlag::IsNonInterleaved => 32,
            StandardFlag::IsNonMixable => 64,
        }
    }

    /// The numeric value of this flag constant.
    pub fn as_u32(&self) -> (r: u32)
        ensures
            r == self.spec_as_u32(),
    {
        match *self {
            StandardFlag::IsFloat => 1,
            StandardFlag::IsBigEndian => 2,
            StandardFlag::IsSignedInteger => 4,
            StandardFlag::IsPacked => 8,
            StandardFlag::IsAlignedHigh => 16,
            StandardFlag::IsNonInterleaved => 32,
            StandardFlag::IsNonMixable => 64,
        }
    }

    /// The flag constant a numeric value stands for, if any.
    pub open spec fn spec_from_u32(i: u32) -> Option<StandardFlag> {
        match i {
            1u32 => Some(StandardFlag::IsFloat),
            2u32 => Some(StandardFlag::IsBigEndian),
            4u32 => Some(StandardFlag::IsSignedInteger),
            8u32 => Some(StandardFlag::IsPacked),
            16u32 => Some(StandardFlag::IsAlignedHigh),
            32u32 => Some(StandardFlag::IsNonInterleaved),
            64u32 => Some(StandardFlag::IsNonMixable),
            _ => None,
        }
    }

    /// The flag constant a numeric value stands for, if any.
    pub fn from_u32(i: u32) -> (r: Option<StandardFlag>)
        ensures
            r == Self::spec_from_u32(i),
            r matches Some(f) ==> f.spec_as_u32() == i,
    {
        match i {
            1 => Some(StandardFlag::IsFloat),
            2 => Some(StandardFlag::IsBigEndian),
            4 => Some(StandardFlag::IsSignedInteger),
            8 => Some(StandardFlag::IsPacked),
            16 => Some(StandardFlag::IsAlignedHigh),
            32 => Some(StandardFlag::IsNonInterleaved),
            64 => Some(StandardFlag::IsNonMixable),
            _ => None,
        }
    }
}

/// The source-width flags of the lossless encoder.
#[derive(Copy, Clone, Debug, PartialEq, Eq, Structural)]
pub enum AppleLosslessFlag {
    Bit16SourceData,
    Bit20SourceData,
    Bit24SourceData,
    Bit32SourceData,
}

impl AppleLosslessFlag {
    /// The numeric value of this flag constant.
    pub open spec fn spec_as_u32(self) -> u32 {
        match self {
            AppleLosslessFlag::Bit16SourceData => 1,
            AppleLosslessFlag::Bit20SourceData => 2,
            AppleLosslessFlag::Bit24SourceData => 3,
            AppleLosslessFlag::Bit32SourceData => 4,
        }
    }

    /// The numeric value of this flag constant.
    pub fn as_u32(&self) -> (r: u32)
        ensures
            r == self.spec_as_u32(),
    {
        match *self {
            AppleLosslessFlag::Bit16SourceData => 1,
            AppleLosslessFlag::Bit20SourceData => 2,
            AppleLosslessFlag::Bit24SourceData => 3,
            AppleLosslessFlag::Bit32SourceData => 4,
        }
    }

    /// The flag constant a numeric value stands for, if any.
    pub open spec fn spec_from_u32(i: u32) -> Option<AppleLosslessFlag> {
        match i {
            1u32 => Some(AppleLosslessFlag::Bit16SourceData),
            2u32 => Some(AppleLosslessFlag::Bit20SourceData),
            3u32 => Some(AppleLosslessFlag::Bit24SourceData),
            4u32 => Some(AppleLosslessFlag::Bit32SourceData),
            _ => None,
        }
    }

    /// The flag constant a numeric value stands for, if any.
    pub fn from_u32(i: u32) -> (r: Option<AppleLosslessFlag>)
        ensures
            r == Self::spec_from_u32(i),
            r matches Some(f) ==> f.spec_as_u32() == i,
    {
        match i {
            1 => Some(AppleLosslessFlag::Bit16SourceData),
            2 => Some(AppleLosslessFlag::Bit20SourceData),
            3 => Some(AppleLosslessFlag::Bit24SourceData),
            4 => Some(AppleLosslessFlag::Bit32SourceData),
            _ => None,
        }
    }
}

/// The lowest value outside the defined object-type identifiers of an
/// MPEG-4 stream.
pub const MPEG4_OBJECT_ID_LIMIT: i64 = 16;

/// The object-type field an MPEG-4 stream carries in its flag word.
#[derive(Copy, Clone, Debug, PartialEq, Eq, Structural)]
pub struct Mpeg4ObjectId {
    /// The native value; `wf` bounds it to the defined identifiers.
    pub bits: i64,
}

impl Mpeg4ObjectId {
    /// Every stored value is within the defined identifiers.
    pub open spec fn wf(self) -> bool {
        0 <= self.bits < MPEG4_OBJECT_ID_LIMIT
    }

    /// The value a native word decodes to, if it is within the defined
    /// identifiers.
    pub open spec fn spec_from_bits(bits: i64) -> Option<Mpeg4ObjectId> {
        if 0 <= bits < MPEG4_OBJECT_ID_LIMIT {
            Some(Mpeg4ObjectId { bits })
        } else {
            None
        }
    }

    /// Decode a native object-type value.
    pub fn from_bits(bits: i64) -> (r: Option<Mpeg4ObjectId>)
        ensures
            r == Self::spec_from_bits(bits),
    {
        if 0 <= bits && bits < MPEG4_OBJECT_ID_LIMIT {
            Some(Mpeg4ObjectId { bits })
        } else {
            None
        }
    }

    /// The native value.
    pub fn bits(&self) -> (r: i64)
        ensures
            r == self.bits,
    {
        self.bits
    }
}

/// The lowest value that holds a bit outside the five defined
/// time-stamp validity flags.
pub const AUDIO_TIME_STAMP_FLAG_LIMIT: u32 = 32;

/// The validity flags of a native time stamp.
#[derive(Copy, Clone, Debug, PartialEq, Eq, Structural)]
pub struct AudioTimeStampFlag {
    /// The native flag word; `wf` bounds it to the defined bits.
    pub bits: u32,
}

impl AudioTimeStampFlag {
    /// Every stored word is within the defined flag bits.
    pub open spec fn wf(self) -> bool {
        self.bits < AUDIO_TIME_STAMP_FLAG_LIMIT
    }

    /// The flag set a native word decodes to, if it holds only defined
    /// bits.
    pub open spec fn spec_from_bits(bits: u32) -> Option<AudioTimeStampFlag> {
        if bits < AUDIO_TIME_STAMP_FLAG_LIMIT {
            Some(AudioTimeStampFlag { bits })
        } else {
            None
        }
    }

    /// Decode a native validity-flag word.
    pub fn from_bits(bits: u32) -> (r: Option<AudioTimeStampFlag>)
        ensures
            r == Self::spec_from_bits(bits),
    {
        if bits < AUDIO_TIME_STAMP_FLAG_LIMIT {
            Some(AudioTimeStampFlag { bits })
        } else {
            None
        }
    }

    /// The native flag word.
    pub fn bits(&self) -> (r: u32)
        ensures
            r == self.bits,
    {
        self.bits
    }
}

/// The audio-format identifiers the OS defines, with the flag payload
/// each carries where its flag word has a typed reading.
#[derive(Copy, Clone, Debug, PartialEq, Eq, Structural)]
#[allow(non_camel_case_types)]
pub enum AudioFormat {
    LinearPCM(LinearPcmFlags),
    AC3,
    F60958AC3(Option<StandardFlag>),
    AppleIMA4,
    MPEG4AAC(Option<Mpeg4ObjectId>),
    MPEG4CELP(Option<Mpeg4ObjectId>),
    MPEG4HVXC(Option<Mpeg4ObjectId>),
    MPEG4TwinVQ(Option<Mpeg4ObjectId>),
    MACE3,
    MACE6,
    ULaw,
    ALaw,
    QDesign,
    QDesign2,
    QUALCOMM,
    MPEGLayer1,
    MPEGLayer2,
    MPEGLayer3,
    TimeCode(Option<AudioTimeStampFlag>),
    MIDIStream,
    ParameterValueStream,
    AppleLossless,
    MPEG4AAC_HE,
    MPEG4AAC_LD,
    MPEG4AAC_ELD,
    MPEG4AAC_ELD_SBR,
    MPEG4AAC_ELD_V2,
    MPEG4AAC_HE_V2,
    MPEG4AAC_Spatial,
    AMR,
    AMR_WB,
    Audible,
    iLBC,
    DVIIntelIMA,
    MicrosoftGSM,
    AES3,
}

impl AudioFormat {
    /// The typed format a native identifier and flag word decode to, if
    /// any.
    ///
    /// A linear-PCM identifier needs a flag word, and one holding an
    /// undefined bit is not recognised; the typed flag payloads of the
    /// other flag-carrying formats degrade to `None` when their word is
    /// out of range, as the numeric table the OS defines leaves those
    /// words meaningless rather than invalid.
    pub open spec fn spec_from_format_and_flag(format: u32, flag: Option<u32>) -> Option<
        AudioFormat,
    > {
        match (format, flag) {
            (0x6c70636du32, Some(i)) => match LinearPcmFlags::spec_from_bits(i) {
                Some(f) => Some(AudioFormat::LinearPCM(f)),
                None => None,
            },
            (0x61632d33u32, _) => Some(AudioFormat::AC3),
            (0x63616333u32, Some(i)) => Some(AudioFormat::F60958AC3(StandardFlag::spec_from_u32(i))),
            (0x696d6134u32, _) => Some(AudioFormat::AppleIMA4),
            (0x61616320u32, Some(i)) => Some(
                AudioFormat::MPEG4AAC(Mpeg4ObjectId::spec_from_bits(i as i64)),
            ),
            (0x63656c70u32, Some(i)) => Some(
                AudioFormat::MPEG4CELP(Mpeg4ObjectId::spec_from_bits(i as i64)),
            ),
            (0x68767863u32, Some(i)) => Some(
                AudioFormat::MPEG4HVXC(Mpeg4ObjectId::spec_from_bits(i as i64)),
            ),
            (0x74777671u32, Some(i)) => Some(
                AudioFormat::MPEG4TwinVQ(Mpeg4ObjectId::spec_from_bits(i as i64)),
            ),
            (0x4d414333u32, _) => Some(AudioFormat::MACE3),
            (0x4d414336u32, _) => Some(AudioFormat::MACE6),
            (0x756c6177u32, _) => Some(AudioFormat::ULaw),
            (0x616c6177u32, _) => Some(AudioFormat::ALaw),
            (0x51444d43u32, _) => Some(AudioFormat::QDesign),
            (0x51444d32u32, _) => Some(AudioFormat::QDesign2),
            (0x51636c70u32, _) => Some(AudioFormat::QUALCOMM),
            (0x2e6d7031u32, _) => Some(AudioFormat::MPEGLayer1),
            (0x2e6d7032u32, _) => Some(AudioFormat::MPEGLayer2),
            (0x2e6d7033u32, _) => Some(AudioFormat::MPEGLayer3),
            (0x74696d65u32, Some(i)) => Some(
                AudioFormat::TimeCode(AudioTimeStampFlag::spec_from_bits(i)),
            ),
            (0x6d696469u32, _) => Some(AudioFormat::MIDIStream),
            (0x61707673u32, _) => Some(AudioFormat::ParameterValueStream),
            (0x616c6163u32, _) => Some(AudioFormat::AppleLossless),
            (0x61616368u32, _) => Some(AudioFormat::MPEG4AAC_HE),
            (0x6161636cu32, _) => Some(AudioFormat::MPEG4AAC_LD),
            (0x61616365u32, _) => Some(AudioFormat::MPEG4AAC_ELD),
            (0x61616366u32, _) => Some(AudioFormat::MPEG4AAC_ELD_SBR),
            (0x61616367u32, _) => Some(AudioFormat::MPEG4AAC_ELD_V2),
            (0x61616370u32, _) => Some(AudioFormat::MPEG4AAC_HE_V2),
            (0x61616373u32, _) => Some(AudioFormat::MPEG4AAC_Spatial),
            (0x73616d72u32, _) => Some(AudioFormat::AMR),
            (0x73617762u32, _) => Some(AudioFormat::AMR_WB),
            (0x41554442u32, _) => Some(AudioFormat::Audible),
            (0x696c6263u32, _) => Some(AudioFormat::iLBC),
            (0x6d730011u32, _) => Some(AudioFormat::DVIIntelIMA),
            (0x6d730031u32, _) => Some(AudioFormat::MicrosoftGSM),
            (0x61657333u32, _) => Some(AudioFormat::AES3),
            _ => None,
        }
    }

    /// Decode a native identifier and flag word into a typed format.
    pub fn from_format_and_flag(format: u32, flag: Option<u32>) -> (r: Option<AudioFormat>)
        ensures
            r == Self::spec_from_format_and_flag(format, flag),
    {
        match (format, flag) {
            (0x6c70636d, Some(i)) => match LinearPcmFlags::from_bits(i) {
                Some(f) => Some(AudioFormat::LinearPCM(f)),
                None => None,
            },
            (0x61632d33, _) => Some(AudioFormat::AC3),
            (0x63616333, Some(i)) => Some(AudioFormat::F60958AC3(StandardFlag::from_u32(i))),
            (0x696d6134, _) => Some(AudioFormat::AppleIMA4),
            (0x61616320, Some(i)) => Some(AudioFormat::MPEG4AAC(Mpeg4ObjectId::from_bits(i as i64))),
            (0x63656c70, Some(i)) => Some(
                AudioFormat::MPEG4CELP(Mpeg4ObjectId::from_bits(i as i64)),
            ),
            (0x68767863, Some(i)) => Some(
                AudioFormat::MPEG4HVXC(Mpeg4ObjectId::from_bits(i as i64)),
            ),
            (0x74777671, Some(i)) => Some(
                AudioFormat::MPEG4TwinVQ(Mpeg4ObjectId::from_bits(i as i64)),
            ),
            (0x4d414333, _) => Some(AudioFormat::MACE3),
            (0x4d414336, _) => Some(AudioFormat::MACE6),
            (0x756c6177, _) => Some(AudioFormat::ULaw),
            (0x616c6177, _) => Some(AudioFormat::ALaw),
            (0x51444d43, _) => Some(AudioFormat::QDesign),
            (0x51444d32, _) => Some(AudioFormat::QDesign2),
            (0x51636c70, _) => Some(AudioFormat::QUALCOMM),
            (0x2e6d7031, _) => Some(AudioFormat::MPEGLayer1),
            (0x2e6d7032, _) => Some(AudioFormat::MPEGLayer2),
            (0x2e6d7033, _) => Some(AudioFormat::MPEGLayer3),
            (0x74696d65, Some(i)) => Some(AudioFormat::TimeCode(AudioTimeStampFlag::from_bits(i))),
            (0x6d696469, _) => Some(AudioFormat::MIDIStream),
            (0x61707673, _) => Some(AudioFormat::ParameterValueStream),
            (0x616c6163, _) => Some(AudioFormat::AppleLossless),
            (0x61616368, _) => Some(AudioFormat::MPEG4AAC_HE),
            (0x6161636c, _) => Some(AudioFormat::MPEG4AAC_LD),
            (0x61616365, _) => Some(AudioFormat::MPEG4AAC_ELD),
            (0x61616366, _) => Some(AudioFormat::MPEG4AAC_ELD_SBR),
            (0x61616367, _) => Some(AudioFormat::MPEG4AAC_ELD_V2),
            (0x61616370, _) => Some(AudioFormat::MPEG4AAC_HE_V2),
            (0x61616373, _) => Some(AudioFormat::MPEG4AAC_Spatial),
            (0x73616d72, _) => Some(AudioFormat::AMR),
            (0x73617762, _) => Some(AudioFormat::AMR_WB),
            (0x41554442, _) => Some(AudioFormat::Audible),
            (0x696c6263, _) => Some(AudioFormat::iLBC),
            (0x6d730011, _) => Some(AudioFormat::DVIIntelIMA),
            (0x6d730031, _) => Some(AudioFormat::MicrosoftGSM),
            (0x61657333, _) => Some(AudioFormat::AES3),
            _ => None,
        }
    }

    /// The native identifier and flag word of a typed format.
    pub open spec fn spec_to_format_and_flag(self) -> (u32, Option<u32>) {
        match self {
            AudioFormat::LinearPCM(f) => (0x6c70636du32, Some(f.spec_bits())),
            AudioFormat::AC3 => (0x61632d33u32, None),
            AudioFormat::F60958AC3(f) => (
                0x63616333u32,
                match f {
                    Some(g) => Some(g.spec_as_u32()),
                    None => None,
                },
            ),
            AudioFormat::AppleIMA4 => (0x696d6134u32, None),
            AudioFormat::MPEG4AAC(f) => (
                0x61616320u32,
                match f {
                    Some(g) => Some(g.bits as u32),
                    None => None,
                },
            ),
            AudioFormat::MPEG4CELP(f) => (
                0x63656c70u32,
                match f {
                    Some(g) => Some(g.bits as u32),
                    None => None,
                },
            ),
            AudioFormat::MPEG4HVXC(f) => (
                0x68767863u32,
                match f {
                    Some(g) => Some(g.bits as u32),
                    None => None,
                },
            ),
            AudioFormat::MPEG4TwinVQ(f) => (
                0x74777671u32,
                match f {
                    Some(g) => Some(g.bits as u32),
                    None => None,
                },
            ),
            AudioFormat::MACE3 => (0x4d414333u32, None),
            AudioFormat::MACE6 => (0x4d414336u32, None),
            AudioFormat::ULaw => (0x756c6177u32, None),
            AudioFormat::ALaw => (0x616c6177u32, None),
            AudioFormat::QDesign => (0x51444d43u32, None),
            AudioFormat::QDesign2 => (0x51444d32u32, None),
            AudioFormat::QUALCOMM => (0x51636c70u32, None),
            AudioFormat::MPEGLayer1 => (0x2e6d7031u32, None),
            AudioFormat::MPEGLayer2 => (0x2e6d7032u32, None),
            AudioFormat::MPEGLayer3 => (0x2e6d7033u32, None),
            AudioFormat::TimeCode(f) => (
                0x74696d65u32,
                match f {
                    Some(g) => Some(g.bits),
                    None => None,
                },
            ),
            AudioFormat::MIDIStream => (0x6d696469u32, None),
            AudioFormat::ParameterValueStream => (0x61707673u32, None),
            AudioFormat::AppleLossless => (0x616c6163u32, None),
            AudioFormat::MPEG4AAC_HE => (0x61616368u32, None),
            AudioFormat::MPEG4AAC_LD => (0x6161636cu32, None),
            AudioFormat::MPEG4AAC_ELD => (0x61616365u32, None),
            AudioFormat::MPEG4AAC_ELD_SBR => (0x61616366u32, None),
            AudioFormat::MPEG4AAC_ELD_V2 => (0x61616367u32, None),
            AudioFormat::MPEG4AAC_HE_V2 => (0x61616370u32, None),
            AudioFormat::MPEG4AAC_Spatial => (0x61616373u32, None),
            AudioFormat::AMR => (0x73616d72u32, None),
            AudioFormat::AMR_WB => (0x73617762u32, None),
            AudioFormat::Audible => (0x41554442u32, None),
            AudioFormat::iLBC => (0x696c6263u32, None),
            AudioFormat::DVIIntelIMA => (0x6d730011u32, None),
            AudioFormat::MicrosoftGSM => (0x6d730031u32, None),
            AudioFormat::AES3 => (0x61657333u32, None),
        }
    }

    /// Encode a typed format back into its native identifier and flag
    /// word.
    pub fn to_format_and_flag(&self) -> (r: (u32, Option<u32>))
        ensures
            r == self.spec_to_format_and_flag(),
    {
        match *self {
            AudioFormat::LinearPCM(f) => (0x6c70636d, Some(f.bits())),
            AudioFormat::AC3 => (0x61632d33, None),
            AudioFormat::F60958AC3(f) => (
                0x63616333,
                match f {
                    Some(g) => Some(g.as_u32()),
                    None => None,
                },
            ),
            AudioFormat::AppleIMA4 => (0x696d6134, None),
            AudioFormat::MPEG4AAC(f) => (
                0x61616320,
                match f {
                    Some(g) => Some(g.bits() as u32),
                    None => None,
                },
            ),
            AudioFormat::MPEG4CELP(f) => (
                0x63656c70,
                match f {
                    Some(g) => Some(g.bits() as u32),
                    None => None,
                },
            ),
            AudioFormat::MPEG4HVXC(f) => (
                0x68767863,
                match f {
                    Some(g) => Some(g.bits() as u32),
                    None => None,
                },
            ),
            AudioFormat::MPEG4TwinVQ(f) => (
                0x74777671,
                match f {
                    Some(g) => Some(g.bits() as u32),
                    None => None,
                },
            ),
            AudioFormat::MACE3 => (0x4d414333, None),
            AudioFormat::MACE6 => (0x4d414336, None),
            AudioFormat::ULaw => (0x756c6177, None),
            AudioFormat::ALaw => (0x616c6177, None),
            AudioFormat::QDesign => (0x51444d43, None),
            AudioFormat::QDesign2 => (0x51444d32, None),
            AudioFormat::QUALCOMM => (0x51636c70, None),
            AudioFormat::MPEGLayer1 => (0x2e6d7031, None),
            AudioFormat::MPEGLayer2 => (0x2e6d7032, None),
            AudioFormat::MPEGLayer3 => (0x2e6d7033, None),
            AudioFormat::TimeCode(f) => (
                0x74696d65,
                match f {
                    Some(g) => Some(g.bits()),
                    None => None,
                },
            ),
            AudioFormat::MIDIStream => (0x6d696469, None),
            AudioFormat::ParameterValueStream => (0x61707673, None),
            AudioFormat::AppleLossless => (0x616c6163, None),
            AudioFormat::MPEG4AAC_HE => (0x61616368, None),
            AudioFormat::MPEG4AAC_LD => (0x6161636c, None),
            AudioFormat::MPEG4AAC_ELD => (0x61616365, None),
            AudioFormat::MPEG4AAC_ELD_SBR => (0x61616366, None),
            AudioFormat::MPEG4AAC_ELD_V2 => (0x61616367, None),
            AudioFormat::MPEG4AAC_HE_V2 => (0x61616370, None),
            AudioFormat::MPEG4AAC_Spatial => (0x61616373, None),
            AudioFormat::AMR => (0x73616d72, None),
            AudioFormat::AMR_WB => (0x73617762, None),
            AudioFormat::Audible => (0x41554442, None),
            AudioFormat::iLBC => (0x696c6263, None),
            AudioFormat::DVIIntelIMA => (0x6d730011, None),
            AudioFormat::MicrosoftGSM => (0x6d730031, None),
            AudioFormat::AES3 => (0x61657333, None),
        }
    }

    /// Whether a typed format's encoding decodes back to the same value:
    /// its flag payload, where the format has one, must be present (an
    /// absent payload encodes to no flag word, which the decoder cannot
    /// tell apart from a flagless format), and a linear-PCM payload must
    /// be a stored flag set.
    pub open spec fn encodes_canonically(self) -> bool {
        match self {
            AudioFormat::LinearPCM(f) => f.wf(),
            AudioFormat::F60958AC3(f) => f is Some,
            AudioFormat::MPEG4AAC(f) => f matches Some(g) && g.wf(),
            AudioFormat::MPEG4CELP(f) => f matches Some(g) && g.wf(),
            AudioFormat::MPEG4HVXC(f) => f matches Some(g) && g.wf(),
            AudioFormat::MPEG4TwinVQ(f) => f matches Some(g) && g.wf(),
            AudioFormat::TimeCode(f) => f matches Some(g) && g.wf(),
            _ => true,
        }
    }
}

/// Encoding a typed format and decoding the result gives the format
/// back, whenever the format encodes canonically.
pub proof fn lemma_format_round_trip(f: AudioFormat)
    requires
        f.encodes_canonically(),
    ensures
        AudioFormat::spec_from_format_and_flag(
            f.spec_to_format_and_flag().0,
            f.spec_to_format_and_flag().1,
        ) == Some(f),
{
}

} // verus!

