use coreaudio::audio_unit::action_flags;
use coreaudio::audio_unit::action_flags::{ActionFlags, Handle};
use coreaudio::audio_unit::audio_format::{
    AppleLosslessFlag, AudioFormat, LinearPCMFlag, LinearPcmFlags, StandardFlag,
};
use coreaudio::audio_unit::sample_format::{Sample, SampleFormat};
use coreaudio::audio_unit::{Element, Scope, SubType, Type};

#[test]
fn sample_sizes() {
    assert_eq!(SampleFormat::F32.size_in_bytes(), 4);
    assert_eq!(SampleFormat::I32.size_in_bytes(), 4);
    assert_eq!(SampleFormat::I16.size_in_bytes(), 2);
    assert_eq!(SampleFormat::I8.size_in_bytes(), 1);
    assert_eq!(SampleFormat::F32.size_in_bits(), 32);
    assert_eq!(SampleFormat::I16.size_in_bits(), 16);
    assert_eq!(SampleFormat::I8.size_in_bits(), 8);
}

#[test]
fn sample_trait_formats() {
    assert_eq!(<i32 as Sample>::sample_format(), SampleFormat::I32);
    assert_eq!(<i16 as Sample>::sample_format(), SampleFormat::I16);
    assert_eq!(<i8 as Sample>::sample_format(), SampleFormat::I8);
}

#[test]
fn linear_pcm_flags_round_trip() {
    for bits in [0u32, 1, 9, 12, 41, 44, 73, 127] {
        let flags = LinearPcmFlags::from_bits(bits).unwrap();
        assert_eq!(flags.bits(), bits);
    }
    assert!(LinearPcmFlags::from_bits(128).is_none());
    assert!(LinearPcmFlags::from_bits(1 | 256).is_none());
    assert!(LinearPcmFlags::from_bits(u32::MAX).is_none());
}

#[test]
fn linear_pcm_flag_accessors() {
    let flags = LinearPcmFlags::from_bits(41).unwrap();
    assert!(flags.is_float());
    assert!(!flags.is_signed_integer());
    assert!(flags.is_packed());
    assert!(flags.is_non_interleaved());
    assert!(!flags.is_big_endian());
    assert!(!flags.is_aligned_high());
    assert!(!flags.is_non_mixable());
    let flags = LinearPcmFlags::from_bits(12).unwrap();
    assert!(!flags.is_float());
    assert!(flags.is_signed_integer());
    assert!(flags.is_packed());
    assert!(!flags.is_non_interleaved());
}

#[test]
fn standard_flag_words() {
    assert_eq!(LinearPcmFlags::standard(true, false).bits(), 9);
    assert_eq!(LinearPcmFlags::standard(true, true).bits(), 41);
    assert_eq!(LinearPcmFlags::standard(false, false).bits(), 12);
    assert_eq!(LinearPcmFlags::standard(false, true).bits(), 44);
}

#[test]
fn sample_format_matches_flags() {
    let float_packed = LinearPcmFlags::from_bits(9).unwrap();
    let int_packed = LinearPcmFlags::from_bits(12).unwrap();
    let both = LinearPcmFlags::from_bits(13).unwrap();
    assert!(SampleFormat::F32.does_match_flags(float_packed));
    assert!(!SampleFormat::I16.does_match_flags(float_packed));
    assert!(SampleFormat::I8.does_match_flags(int_packed));
    assert!(SampleFormat::I16.does_match_flags(int_packed));
    assert!(SampleFormat::I32.does_match_flags(int_packed));
    assert!(!SampleFormat::F32.does_match_flags(int_packed));
    // A word claiming both numeric kinds matches no format.
    assert!(!SampleFormat::F32.does_match_flags(both));
    assert!(!SampleFormat::I32.does_match_flags(both));
}

#[test]
fn sample_format_from_flags_and_width() {
    let float_packed = LinearPcmFlags::from_bits(9).unwrap();
    let int_packed = LinearPcmFlags::from_bits(12).unwrap();
    let unpacked_float = LinearPcmFlags::from_bits(1).unwrap();
    let packed_only = LinearPcmFlags::from_bits(8).unwrap();
    assert_eq!(
        SampleFormat::from_flags_and_bits_per_sample(float_packed, 32),
        Some(SampleFormat::F32)
    );
    assert_eq!(SampleFormat::from_flags_and_bits_per_sample(float_packed, 16), None);
    assert_eq!(
        SampleFormat::from_flags_and_bits_per_sample(int_packed, 8),
        Some(SampleFormat::I8)
    );
    assert_eq!(
        SampleFormat::from_flags_and_bits_per_sample(int_packed, 16),
        Some(SampleFormat::I16)
    );
    assert_eq!(
        SampleFormat::from_flags_and_bits_per_sample(int_packed, 32),
        Some(SampleFormat::I32)
    );
    assert_eq!(SampleFormat::from_flags_and_bits_per_sample(int_packed, 24), None);
    // Unpacked words are never supported, nor words naming no numeric
    // kind.
    assert_eq!(SampleFormat::from_flags_and_bits_per_sample(unpacked_float, 32), None);
    assert_eq!(SampleFormat::from_flags_and_bits_per_sample(packed_only, 32), None);
}

#[test]
fn audio_format_decodes_linear_pcm() {
    let decoded = AudioFormat::from_format_and_flag(0x6c70636d, Some(41));
    let flags = LinearPcmFlags::from_bits(41).unwrap();
    assert_eq!(decoded, Some(AudioFormat::LinearPCM(flags)));
    // An undefined flag bit makes the pair unrecognised, and a missing
    // flag word does too.
    assert_eq!(AudioFormat::from_format_and_flag(0x6c70636d, Some(200)), None);
    assert_eq!(AudioFormat::from_format_and_flag(0x6c70636d, None), None);
}

#[test]
fn audio_format_decodes_other_identifiers() {
    assert_eq!(AudioFormat::from_format_and_flag(0x61632d33, None), Some(AudioFormat::AC3));
    assert_eq!(AudioFormat::from_format_and_flag(0x61632d33, Some(9)), Some(AudioFormat::AC3));
    assert_eq!(
        AudioFormat::from_format_and_flag(0x63616333, Some(4)),
        Some(AudioFormat::F60958AC3(Some(StandardFlag::IsSignedInteger)))
    );
    assert_eq!(
        AudioFormat::from_format_and_flag(0x63616333, Some(99)),
        Some(AudioFormat::F60958AC3(None))
    );
    assert_eq!(
        AudioFormat::from_format_and_flag(0x616c6163, None),
        Some(AudioFormat::AppleLossless)
    );
    assert_eq!(AudioFormat::from_format_and_flag(0, None), None);
    assert_eq!(AudioFormat::from_format_and_flag(123456, Some(1)), None);
}

#[test]
fn audio_format_encodes_back() {
    let flags = LinearPcmFlags::from_bits(9).unwrap();
    assert_eq!(
        AudioFormat::LinearPCM(flags).to_format_and_flag(),
        (0x6c70636d, Some(9))
    );
    assert_eq!(AudioFormat::MACE3.to_format_and_flag(), (0x4d414333, None));
    assert_eq!(
        AudioFormat::F60958AC3(Some(StandardFlag::IsFloat)).to_format_and_flag(),
        (0x63616333, Some(1))
    );
    assert_eq!(AudioFormat::F60958AC3(None).to_format_and_flag(), (0x63616333, None));
}

#[test]
fn audio_format_round_trips_through_the_native_pair() {
    let flags = LinearPcmFlags::from_bits(44).unwrap();
    for format in [
        AudioFormat::LinearPCM(flags),
        AudioFormat::AC3,
        AudioFormat::F60958AC3(Some(StandardFlag::IsPacked)),
        AudioFormat::ULaw,
        AudioFormat::MPEGLayer3,
        AudioFormat::AppleLossless,
        AudioFormat::AES3,
    ] {
        let (id, flag) = format.to_format_and_flag();
        assert_eq!(AudioFormat::from_format_and_flag(id, flag.or(Some(0))), Some(format));
    }
}

#[test]
fn single_flag_tables_round_trip() {
    for value in [1u32, 2, 4, 8, 16, 32, 64, 7, 8064] {
        let flag = LinearPCMFlag::from_u32(value).unwrap();
        assert_eq!(flag.as_u32(), value);
    }
    assert!(LinearPCMFlag::from_u32(3).is_none());
    for value in [1u32, 2, 4, 8, 16, 32, 64] {
        let flag = StandardFlag::from_u32(value).unwrap();
        assert_eq!(flag.as_u32(), value);
    }
    assert!(StandardFlag::from_u32(128).is_none());
    for value in [1u32, 2, 3, 4] {
        let flag = AppleLosslessFlag::from_u32(value).unwrap();
        assert_eq!(flag.as_u32(), value);
    }
    assert!(AppleLosslessFlag::from_u32(5).is_none());
}

#[test]
fn scope_element_and_type_identifiers() {
    assert_eq!(Scope::Output.as_u32(), 0);
    assert_eq!(Scope::Input.as_u32(), 1);
    assert_eq!(Element::Output.as_u32(), 0);
    assert_eq!(Element::Input.as_u32(), 1);
    assert_eq!(Type::Output.as_u32(), 1635086197);
    assert_eq!(Type::MusicDevice.as_u32(), 1635085685);
    assert_eq!(Type::Generator.as_u32(), 1635084142);
    assert_eq!(SubType::HalOutput.as_u32(), 1634230636);
    assert_eq!(SubType::DefaultOutput.as_u32(), 1684366880);
    assert_eq!(SubType::StereoMixer.as_u32(), 1936554098);
    assert_eq!(SubType::AudioFilePlayer.as_u32(), 1634103404);
}

#[test]
fn action_flag_sets() {
    let all = ActionFlags::from_bits_truncate(u32::MAX);
    assert_eq!(all.bits(), 1020);
    assert!(all.is_all());
    assert!(!all.is_empty());
    let empty = ActionFlags::empty();
    assert!(empty.is_empty());
    assert!(!empty.is_all());

    let mut flags = ActionFlags::empty();
    flags.insert(ActionFlags { bits: action_flags::PRE_RENDER });
    flags.insert(ActionFlags { bits: action_flags::OUTPUT_IS_SILENCE });
    assert_eq!(flags.bits(), 20);
    assert!(flags.contains(ActionFlags { bits: action_flags::PRE_RENDER }));
    assert!(flags.intersects(ActionFlags { bits: action_flags::OUTPUT_IS_SILENCE }));
    assert!(!flags.contains(ActionFlags { bits: action_flags::POST_RENDER }));
    flags.remove(ActionFlags { bits: action_flags::PRE_RENDER });
    assert_eq!(flags.bits(), 16);
    flags.toggle(ActionFlags { bits: action_flags::OUTPUT_IS_SILENCE | action_flags::POST_RENDER });
    assert_eq!(flags.bits(), 8);
}

#[test]
fn flag_handle_reads_and_writes_the_stored_word() {
    // An undefined bit in the stored word is never reported and is
    // cleared by the first write.
    let mut handle = Handle::from_raw(action_flags::PRE_RENDER | 1);
    assert_eq!(handle.bits(), action_flags::PRE_RENDER);
    assert!(!handle.is_empty());
    assert!(!handle.is_all());
    assert!(handle.contains(ActionFlags { bits: action_flags::PRE_RENDER }));
    assert!(!handle.intersects(ActionFlags { bits: action_flags::POST_RENDER }));
    handle.insert(ActionFlags { bits: action_flags::OUTPUT_IS_SILENCE });
    assert_eq!(handle.raw, action_flags::PRE_RENDER | action_flags::OUTPUT_IS_SILENCE);
    handle.remove(ActionFlags { bits: action_flags::PRE_RENDER });
    assert_eq!(handle.raw, action_flags::OUTPUT_IS_SILENCE);
    handle.toggle(ActionFlags { bits: action_flags::OUTPUT_IS_SILENCE | action_flags::POST_RENDER });
    assert_eq!(handle.raw, action_flags::POST_RENDER);
    let all = Handle::from_raw(1020);
    assert!(all.is_all());
}
