use coreaudio::audio_unit::action_flags;
use coreaudio::audio_unit::action_flags::ActionFlags;
use coreaudio::audio_unit::data::{
    AudioBuffer, AudioBufferList, BufferView, BufferViewKind, CallbackFormat,
};
use coreaudio::audio_unit::render_callback::{
    status_for_render_result, Args, AudioTimeStamp, CallbackBridge, RenderCallback, RenderError,
};
use coreaudio::audio_unit::sample_format::SampleFormat;
use coreaudio::audio_unit::stream_format::StreamFormat;
use coreaudio::error::Error;
use std::cell::{Cell, RefCell};
use std::rc::Rc;

/// A callback for the simulated trampoline: counts its invocations and
/// drops, records what it observes, and returns what it is told to.
struct Recorder {
    calls: Rc<Cell<usize>>,
    drops: Rc<Cell<usize>>,
    frames_seen: Rc<RefCell<Vec<usize>>>,
    sample_times_seen: Rc<RefCell<Vec<u64>>>,
    channel_counts_seen: Rc<RefCell<Vec<usize>>>,
    set_silence_flag: bool,
    result: Result<(), RenderError>,
}

impl Recorder {
    fn new(calls: &Rc<Cell<usize>>, drops: &Rc<Cell<usize>>) -> Recorder {
        Recorder {
            calls: Rc::clone(calls),
            drops: Rc::clone(drops),
            frames_seen: Rc::new(RefCell::new(Vec::new())),
            sample_times_seen: Rc::new(RefCell::new(Vec::new())),
            channel_counts_seen: Rc::new(RefCell::new(Vec::new())),
            set_silence_flag: false,
            result: Ok(()),
        }
    }
}

impl RenderCallback for Recorder {
    fn render(&mut self, args: &mut Args) -> Result<(), RenderError> {
        self.calls.set(self.calls.get() + 1);
        self.frames_seen.borrow_mut().push(args.num_frames);
        self.sample_times_seen.borrow_mut().push(args.time_stamp.sample_time);
        if let BufferView::NonInterleaved(view) = &args.data {
            self.channel_counts_seen.borrow_mut().push(view.channel_count());
        }
        if self.set_silence_flag {
            args.flags.insert(ActionFlags { bits: action_flags::OUTPUT_IS_SILENCE });
        }
        self.result
    }
}

impl Drop for Recorder {
    fn drop(&mut self) {
        self.drops.set(self.drops.get() + 1);
    }
}

fn noninterleaved_stereo_format() -> StreamFormat {
    StreamFormat {
        sample_rate: 44100,
        sample_format: SampleFormat::F32,
        channels: 2,
        interleaved: false,
    }
}

fn noninterleaved_f32() -> CallbackFormat {
    CallbackFormat { kind: BufferViewKind::NonInterleaved, sample_format: SampleFormat::F32 }
}

fn interleaved_f32() -> CallbackFormat {
    CallbackFormat { kind: BufferViewKind::Interleaved, sample_format: SampleFormat::F32 }
}

/// A buffer list as the OS would hand it for a stereo non-interleaved
/// stream, with `spare` unused slots after the declared ones.
fn stereo_list(frames: u32, spare: usize) -> AudioBufferList {
    let mut buffers = Vec::new();
    for _ in 0..(2 + spare) {
        buffers.push(AudioBuffer { number_channels: 1, data_byte_size: frames * 4 });
    }
    AudioBufferList { number_buffers: 2, buffers }
}

fn empty_list() -> AudioBufferList {
    AudioBufferList { number_buffers: 0, buffers: Vec::new() }
}

const NO_CONNECTION: i32 = -10876;
const MISMATCH: Error = Error::RenderCallbackBufferFormatDoesNotMatchAudioUnitStreamFormat;

#[test]
fn attach_succeeds_on_matching_format() {
    let calls = Rc::new(Cell::new(0));
    let drops = Rc::new(Cell::new(0));
    let mut bridge = CallbackBridge::new();
    assert!(!bridge.is_attached());
    let r = bridge.attach(&noninterleaved_stereo_format(), noninterleaved_f32(), Recorder::new(&calls, &drops));
    assert_eq!(r, Ok(()));
    assert!(bridge.is_attached());
    assert_eq!(bridge.attached_token(), Some(0));
}

#[test]
fn mismatched_attach_fails_and_leaves_prior_callback_callable() {
    let calls1 = Rc::new(Cell::new(0));
    let drops1 = Rc::new(Cell::new(0));
    let calls2 = Rc::new(Cell::new(0));
    let drops2 = Rc::new(Cell::new(0));
    let format = noninterleaved_stereo_format();
    let mut bridge = CallbackBridge::new();
    bridge.attach(&format, noninterleaved_f32(), Recorder::new(&calls1, &drops1)).unwrap();
    let token = bridge.attached_token().unwrap();

    // The layout does not match; the sample format alone is not enough.
    let r = bridge.attach(&format, interleaved_f32(), Recorder::new(&calls2, &drops2));
    assert_eq!(r, Err(MISMATCH));
    // A mismatched sample format fails the same way.
    let wrong_sample = CallbackFormat {
        kind: BufferViewKind::NonInterleaved,
        sample_format: SampleFormat::I16,
    };
    let r = bridge.attach(&format, wrong_sample, Recorder::new(&calls2, &drops2));
    assert_eq!(r, Err(MISMATCH));

    // The prior callback is still attached under its token and still
    // callable.
    assert_eq!(bridge.attached_token(), Some(token));
    let mut flags: u32 = 0;
    let stamp = AudioTimeStamp { sample_time: 0, host_time: 0, flags: 0 };
    let status = bridge.dispatch(token, &mut flags, stamp, 0, 64, &stereo_list(64, 0));
    assert_eq!(status, 0);
    assert_eq!(calls1.get(), 1);
    assert_eq!(calls2.get(), 0);
    assert_eq!(drops1.get(), 0);
}

#[test]
fn replacement_drops_prior_callback_exactly_once() {
    let calls = Rc::new(Cell::new(0));
    let drops = Rc::new(Cell::new(0));
    let format = noninterleaved_stereo_format();
    let mut bridge = CallbackBridge::new();
    bridge.attach(&format, noninterleaved_f32(), Recorder::new(&calls, &drops)).unwrap();
    assert_eq!(drops.get(), 0);
    bridge.attach(&format, noninterleaved_f32(), Recorder::new(&calls, &drops)).unwrap();
    assert_eq!(drops.get(), 1);
    bridge.attach(&format, noninterleaved_f32(), Recorder::new(&calls, &drops)).unwrap();
    assert_eq!(drops.get(), 2);
    bridge.detach();
    assert_eq!(drops.get(), 3);
    drop(bridge);
    assert_eq!(drops.get(), 3);
}

#[test]
fn scenario_noninterleaved_attach_then_interleaved_attach() {
    // Descriptor: 44100 Hz, 32-bit float, 2 channels, not interleaved.
    let format = StreamFormat {
        sample_rate: 44100,
        sample_format: SampleFormat::F32,
        channels: 2,
        interleaved: false,
    };
    let calls = Rc::new(Cell::new(0));
    let drops = Rc::new(Cell::new(0));
    let mut bridge = CallbackBridge::new();
    // A non-interleaved float callback attaches.
    let r = bridge.attach(&format, noninterleaved_f32(), Recorder::new(&calls, &drops));
    assert_eq!(r, Ok(()));
    // An interleaved float callback is refused with the configuration
    // error.
    let r = bridge.attach(&format, interleaved_f32(), Recorder::new(&calls, &drops));
    assert_eq!(r, Err(MISMATCH));
}

#[test]
fn hundred_invocations_observe_frames_and_monotonic_time() {
    let calls = Rc::new(Cell::new(0));
    let drops = Rc::new(Cell::new(0));
    let recorder = Recorder::new(&calls, &drops);
    let frames_seen = Rc::clone(&recorder.frames_seen);
    let times_seen = Rc::clone(&recorder.sample_times_seen);
    let format = noninterleaved_stereo_format();
    let mut bridge = CallbackBridge::new();
    bridge.attach(&format, noninterleaved_f32(), recorder).unwrap();
    let token = bridge.attached_token().unwrap();

    let list = stereo_list(512, 0);
    for k in 0..100u64 {
        let mut flags: u32 = 0;
        let stamp = AudioTimeStamp { sample_time: 512 * k, host_time: k, flags: 1 };
        let status = bridge.dispatch(token, &mut flags, stamp, 0, 512, &list);
        assert_eq!(status, 0);
    }
    assert_eq!(calls.get(), 100);
    let frames = frames_seen.borrow();
    assert_eq!(frames.len(), 100);
    assert!(frames.iter().all(|&f| f == 512));
    let times = times_seen.borrow();
    for pair in times.windows(2) {
        assert!(pair[0] < pair[1]);
    }
}

#[test]
fn detach_then_dispatch_rejects_stale_token() {
    let calls = Rc::new(Cell::new(0));
    let drops = Rc::new(Cell::new(0));
    let format = noninterleaved_stereo_format();
    let mut bridge = CallbackBridge::new();
    bridge.attach(&format, noninterleaved_f32(), Recorder::new(&calls, &drops)).unwrap();
    let stale = bridge.attached_token().unwrap();
    bridge.detach();
    assert_eq!(drops.get(), 1);

    let mut flags: u32 = 7;
    let stamp = AudioTimeStamp { sample_time: 0, host_time: 0, flags: 0 };
    let status = bridge.dispatch(stale, &mut flags, stamp, 0, 512, &stereo_list(512, 0));
    assert_eq!(status, NO_CONNECTION);
    assert_eq!(calls.get(), 0);
    assert_eq!(flags, 7);
}

#[test]
fn replaced_token_is_rejected_and_new_token_dispatches() {
    let calls1 = Rc::new(Cell::new(0));
    let drops1 = Rc::new(Cell::new(0));
    let calls2 = Rc::new(Cell::new(0));
    let drops2 = Rc::new(Cell::new(0));
    let format = noninterleaved_stereo_format();
    let mut bridge = CallbackBridge::new();
    bridge.attach(&format, noninterleaved_f32(), Recorder::new(&calls1, &drops1)).unwrap();
    let stale = bridge.attached_token().unwrap();
    bridge.attach(&format, noninterleaved_f32(), Recorder::new(&calls2, &drops2)).unwrap();
    let current = bridge.attached_token().unwrap();
    assert_ne!(stale, current);

    let list = stereo_list(64, 0);
    let stamp = AudioTimeStamp { sample_time: 0, host_time: 0, flags: 0 };
    let mut flags: u32 = 0;
    assert_eq!(bridge.dispatch(stale, &mut flags, stamp, 0, 64, &list), NO_CONNECTION);
    assert_eq!(calls1.get(), 0);
    assert_eq!(calls2.get(), 0);
    assert_eq!(bridge.dispatch(current, &mut flags, stamp, 0, 64, &list), 0);
    assert_eq!(calls2.get(), 1);
}

#[test]
fn detach_is_idempotent() {
    let calls = Rc::new(Cell::new(0));
    let drops = Rc::new(Cell::new(0));
    let format = noninterleaved_stereo_format();
    let mut bridge = CallbackBridge::new();
    bridge.attach(&format, noninterleaved_f32(), Recorder::new(&calls, &drops)).unwrap();
    bridge.detach();
    bridge.detach();
    assert_eq!(drops.get(), 1);
    assert!(!bridge.is_attached());
}

#[test]
fn callback_error_maps_to_no_connection_status() {
    let calls = Rc::new(Cell::new(0));
    let drops = Rc::new(Cell::new(0));
    let mut recorder = Recorder::new(&calls, &drops);
    recorder.result = Err(RenderError {});
    let format = noninterleaved_stereo_format();
    let mut bridge = CallbackBridge::new();
    bridge.attach(&format, noninterleaved_f32(), recorder).unwrap();
    let token = bridge.attached_token().unwrap();
    let mut flags: u32 = 0;
    let stamp = AudioTimeStamp { sample_time: 0, host_time: 0, flags: 0 };
    let status = bridge.dispatch(token, &mut flags, stamp, 0, 64, &stereo_list(64, 0));
    assert_eq!(status, NO_CONNECTION);
    assert_eq!(calls.get(), 1);
}

#[test]
fn status_mapping_is_exact() {
    assert_eq!(status_for_render_result(&Ok(())), 0);
    assert_eq!(status_for_render_result(&Err(RenderError {})), NO_CONNECTION);
}

#[test]
fn interleaved_reconstruction_violation_is_contained() {
    // An interleaved callback dispatched over a list with no buffer:
    // the callback is never reached and the unspecified-error status is
    // returned instead of a crash.
    let format = StreamFormat {
        sample_rate: 44100,
        sample_format: SampleFormat::F32,
        channels: 2,
        interleaved: true,
    };
    let calls = Rc::new(Cell::new(0));
    let drops = Rc::new(Cell::new(0));
    let mut bridge = CallbackBridge::new();
    bridge.attach(&format, interleaved_f32(), Recorder::new(&calls, &drops)).unwrap();
    let token = bridge.attached_token().unwrap();
    let mut flags: u32 = 3;
    let stamp = AudioTimeStamp { sample_time: 0, host_time: 0, flags: 0 };
    let status = bridge.dispatch(token, &mut flags, stamp, 0, 64, &empty_list());
    assert_eq!(status, -1500);
    assert_eq!(calls.get(), 0);
    assert_eq!(flags, 3);
    // The callback stays attached and a well-formed list reaches it.
    let one_buffer = AudioBufferList {
        number_buffers: 1,
        buffers: vec![AudioBuffer { number_channels: 2, data_byte_size: 64 * 8 }],
    };
    assert_eq!(bridge.dispatch(token, &mut flags, stamp, 0, 64, &one_buffer), 0);
    assert_eq!(calls.get(), 1);
}

#[test]
fn dispatch_caps_channels_at_registered_count() {
    // The list advertises more slots than the registered channel count;
    // the callback must see exactly the registered two.
    let calls = Rc::new(Cell::new(0));
    let drops = Rc::new(Cell::new(0));
    let recorder = Recorder::new(&calls, &drops);
    let channel_counts = Rc::clone(&recorder.channel_counts_seen);
    let format = noninterleaved_stereo_format();
    let mut bridge = CallbackBridge::new();
    bridge.attach(&format, noninterleaved_f32(), recorder).unwrap();
    let token = bridge.attached_token().unwrap();

    let mut buffers = Vec::new();
    for _ in 0..8 {
        buffers.push(AudioBuffer { number_channels: 1, data_byte_size: 64 * 4 });
    }
    let list = AudioBufferList { number_buffers: 8, buffers };
    let mut flags: u32 = 0;
    let stamp = AudioTimeStamp { sample_time: 0, host_time: 0, flags: 0 };
    assert_eq!(bridge.dispatch(token, &mut flags, stamp, 0, 64, &list), 0);
    assert_eq!(channel_counts.borrow().as_slice(), &[2]);
}

#[test]
fn callback_flag_hints_are_written_back() {
    let calls = Rc::new(Cell::new(0));
    let drops = Rc::new(Cell::new(0));
    let mut recorder = Recorder::new(&calls, &drops);
    recorder.set_silence_flag = true;
    let format = noninterleaved_stereo_format();
    let mut bridge = CallbackBridge::new();
    bridge.attach(&format, noninterleaved_f32(), recorder).unwrap();
    let token = bridge.attached_token().unwrap();
    let mut flags: u32 = action_flags::PRE_RENDER;
    let stamp = AudioTimeStamp { sample_time: 0, host_time: 0, flags: 0 };
    assert_eq!(bridge.dispatch(token, &mut flags, stamp, 0, 64, &stereo_list(64, 0)), 0);
    assert_eq!(flags, action_flags::PRE_RENDER | action_flags::OUTPUT_IS_SILENCE);
}

#[test]
fn dispatch_on_fresh_bridge_is_rejected() {
    let mut bridge: CallbackBridge<Recorder> = CallbackBridge::new();
    let mut flags: u32 = 0;
    let stamp = AudioTimeStamp { sample_time: 0, host_time: 0, flags: 0 };
    let status = bridge.dispatch(0, &mut flags, stamp, 0, 64, &stereo_list(64, 0));
    assert_eq!(status, NO_CONNECTION);
}
