use coreaudio::audio_unit::data::{
    AudioBuffer, AudioBufferList, BufferViewKind, CallbackFormat, Interleaved, NonInterleaved,
};
use coreaudio::audio_unit::sample_format::SampleFormat;
use coreaudio::audio_unit::stream_format::StreamFormat;

fn list(number_buffers: u32, present: usize, frames: u32) -> AudioBufferList {
    let mut buffers = Vec::new();
    for _ in 0..present {
        buffers.push(AudioBuffer { number_channels: 1, data_byte_size: frames * 4 });
    }
    AudioBufferList { number_buffers, buffers }
}

#[test]
fn noninterleaved_view_caps_at_registered_channel_count() {
    // The native structure has spare capacity well past the two
    // registered channels; the view exposes exactly two.
    let view = NonInterleaved::from_input_proc_args(512, &list(8, 128, 512), 2);
    assert_eq!(view.channel_count(), 2);
}

#[test]
fn noninterleaved_view_caps_at_declared_count() {
    // Only three buffers are declared in use, though eight channels are
    // registered and five slots are present.
    let view = NonInterleaved::from_input_proc_args(64, &list(3, 5, 64), 8);
    assert_eq!(view.channel_count(), 3);
}

#[test]
fn noninterleaved_view_never_reads_past_present_slots() {
    // The list lies: it declares more buffers than are present.
    let view = NonInterleaved::from_input_proc_args(64, &list(64, 3, 64), 8);
    assert_eq!(view.channel_count(), 3);
}

#[test]
fn noninterleaved_view_over_empty_list_is_empty() {
    let view = NonInterleaved::from_input_proc_args(64, &list(0, 0, 64), 2);
    assert_eq!(view.channel_count(), 0);
}

#[test]
fn noninterleaved_channel_lengths_follow_frames() {
    let view = NonInterleaved::from_input_proc_args(512, &list(2, 2, 512), 2);
    assert_eq!(view.channel_len(0), 512);
    assert_eq!(view.channel_len(1), 512);
    assert_eq!(view.channel(0), AudioBuffer { number_channels: 1, data_byte_size: 2048 });
}

#[test]
fn interleaved_view_reads_the_first_buffer() {
    let io_data = AudioBufferList {
        number_buffers: 1,
        buffers: vec![AudioBuffer { number_channels: 2, data_byte_size: 512 * 8 }],
    };
    let view = Interleaved::from_input_proc_args(512, &io_data).unwrap();
    assert_eq!(view.channels(), 2);
    assert_eq!(view.len(), 1024);
}

#[test]
fn interleaved_view_needs_a_declared_present_buffer() {
    assert!(Interleaved::from_input_proc_args(512, &list(0, 0, 512)).is_none());
    // Declared but not present, or present but not declared: neither is
    // readable.
    assert!(Interleaved::from_input_proc_args(512, &list(1, 0, 512)).is_none());
    assert!(Interleaved::from_input_proc_args(512, &list(0, 1, 512)).is_none());
}

#[test]
fn callback_format_matches_on_layout_and_sample_format_only() {
    let noninterleaved = CallbackFormat {
        kind: BufferViewKind::NonInterleaved,
        sample_format: SampleFormat::F32,
    };
    let interleaved = CallbackFormat {
        kind: BufferViewKind::Interleaved,
        sample_format: SampleFormat::F32,
    };
    let base = StreamFormat {
        sample_rate: 44100,
        sample_format: SampleFormat::F32,
        channels: 2,
        interleaved: false,
    };
    assert!(noninterleaved.does_stream_format_match(&base));
    assert!(!interleaved.does_stream_format_match(&base));

    // Rate and channel count play no part.
    let other_shape = StreamFormat { sample_rate: 96000, channels: 6, ..base };
    assert!(noninterleaved.does_stream_format_match(&other_shape));

    // The sample format must agree exactly.
    let int_format = StreamFormat { sample_format: SampleFormat::I32, ..base };
    assert!(!noninterleaved.does_stream_format_match(&int_format));

    let interleaved_stream = StreamFormat { interleaved: true, ..base };
    assert!(interleaved.does_stream_format_match(&interleaved_stream));
    assert!(!noninterleaved.does_stream_format_match(&interleaved_stream));
}
