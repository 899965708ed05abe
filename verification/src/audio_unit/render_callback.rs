//! The render-callback bridge: ownership of the registered callback,
//! validation at attach time, and the dispatch decisions of the
//! trampoline the OS render thread drives.
//!
//! The native side of the bridge — registering a C-ABI function pointer
//! and an opaque token with the OS, and slicing the raw buffer memory —
//! is unverifiable glue and lives in the application layer. Everything
//! that layer must decide is here: when an attach is accepted, which
//! callback a token names, what view an invocation's buffer list is
//! read through, and which status every outcome maps to.

use vstd::prelude::*;
use crate::audio_unit::action_flags::Handle;
use crate::audio_unit::data::{
    AudioBufferList,
    BufferView,
    BufferViewKind,
    CallbackFormat,
    Interleaved,
    NonInterleaved,
};
use crate::audio_unit::stream_format::StreamFormat;
use crate::error::{AudioUnitError, Error};
use crate::OSStatus;

verus! {

/// A plain-value mirror of the native time stamp a callback invocation
/// carries. The native structure stores the sample time as a
/// floating-point frame count; this mirror keeps the whole frame
/// count, which render schedules use.
#[derive(Copy, Clone, Debug, PartialEq, Eq, Structural)]
pub struct AudioTimeStamp {
    /// The position of the invocation's first frame in the stream.
    pub sample_time: u64,
    /// The host clock's tick count for the invocation.
    pub host_time: u64,
    /// The native validity flags of the time stamp.
    pub flags: u32,
}

/// The error a callback reports when it cannot fill its buffers; the
/// bridge turns it into the fixed no-connection status.
#[derive(Copy, Clone, Debug, PartialEq, Eq, Structural)]
pub struct RenderError {}

/// Arguments given to the render callback for one invocation. The view
/// and flags borrow that invocation's native memory and must not be
/// kept beyond it; the bridge builds a fresh value for every call.
#[derive(Clone, Debug, PartialEq, Eq)]
pub struct Args {
    /// The typed view over the invocation's buffer list.
    pub data: BufferView,
    /// Timing information for the invocation.
    pub time_stamp: AudioTimeStamp,
    /// The bus the invocation renders on.
    pub bus_number: u32,
    /// The frames to render.
    pub num_frames: usize,
    /// The invocation's render-action flag storage; hints written here
    /// are handed back to the OS.
    pub flags: Handle,
}

/// A render callback: the decision a registered closure makes on each
/// invocation, filling the viewed buffers or reporting that it cannot.
pub trait RenderCallback {
    /// Render one invocation's buffers.
    fn render(&mut self, args: &mut Args) -> Result<(), RenderError>;
}

/// One registered callback: the callback itself, the format it was
/// validated against, and the token under which the OS invokes it.
pub struct AttachedCallback<F> {
    /// The token handed to the OS as the invocation's opaque context;
    /// an invocation is dispatched only while its token is current.
    pub token: u64,
    /// The layout and sample format the callback was registered over.
    pub format: CallbackFormat,
    /// The channel count of the stream format at registration; a
    /// non-interleaved view never exposes more channels than this.
    pub channels: u32,
    /// The callback itself, owned exclusively by the bridge.
    pub callback: F,
}

/// The bridge between an audio unit and its render callback.
///
/// The bridge owns at most one callback. Attaching a new one replaces —
/// and thereby drops, exactly once — the one before it; detaching drops
/// it likewise. Each registration gets a token no earlier registration
/// ever had, so an invocation arriving under a stale token (after a
/// detach or a replacement) is rejected instead of reaching a dropped
/// callback.
pub struct CallbackBridge<F> {
    /// The currently registered callback, if any.
    pub callback: Option<AttachedCallback<F>>,
    /// The token the next registration will get; past tokens are all
    /// below it.
    pub next_token: u64,
}

/// Whether a buffer list can be read through views of the given kind:
/// an interleaved view needs the list's first buffer to be declared and
/// present, a non-interleaved view caps itself to whatever is there.
pub open spec fn spec_view_reconstructible(kind: BufferViewKind, io_data: AudioBufferList) -> bool {
    kind is NonInterleaved || (io_data.number_buffers >= 1 && io_data.buffers@.len() >= 1)
}

/// The status the bridge reports for a callback's result: success maps
/// to the zero status, an error to the fixed no-connection status.
pub open spec fn spec_status_for_render_result(result: Result<(), RenderError>) -> OSStatus {
    match result {
        Ok(_) => 0i32,
        Err(_) => AudioUnitError::NoConnection.spec_as_os_status(),
    }
}

/// Turn a callback's result into the status the OS expects.
pub fn status_for_render_result(result: &Result<(), RenderError>) -> (r: OSStatus)
    ensures
        r == spec_status_for_render_result(*result),
{
    match result {
        Ok(_) => 0,
        Err(_) => AudioUnitError::NoConnection.as_os_status(),
    }
}

impl<F> CallbackBridge<F> {
    /// A bridge is well formed when its registered token, if any, is
    /// below the next one to be handed out: no later registration can
    /// repeat it.
    pub open spec fn wf(self) -> bool {
        self.callback matches Some(c) ==> c.token < self.next_token
    }

    /// Whether a callback is currently registered.
    pub open spec fn spec_is_attached(self) -> bool {
        self.callback is Some
    }

    /// Whether an invocation arriving under `token` names the currently
    /// registered callback.
    pub open spec fn accepts(self, token: u64) -> bool {
        self.callback matches Some(c) && c.token == token
    }

    /// A bridge with nothing attached.
    pub fn new() -> (r: CallbackBridge<F>)
        ensures
            !r.spec_is_attached(),
            r.next_token == 0,
            r.wf(),
    {
        CallbackBridge { callback: None, next_token: 0 }
    }

    /// Whether a callback is currently registered.
    pub fn is_attached(&self) -> (r: bool)
        ensures
            r == self.spec_is_attached(),
    {
        self.callback.is_some()
    }

    /// The token of the current registration, if any: what the OS holds
    /// as the invocation context while the callback is attached.
    pub fn attached_token(&self) -> (r: Option<u64>)
        ensures
            r is Some <==> self.spec_is_attached(),
            r matches Some(t) ==> self.accepts(t),
    {
        match &self.callback {
            Some(c) => Some(c.token),
            None => None,
        }
    }

    /// Register a callback, validated against the stream format the
    /// unit is configured with.
    ///
    /// When the callback's expected layout or sample format does not
    /// match the stream format, the attach fails with the format
    /// mismatch error and the bridge — any callback attached before,
    /// included — is left exactly as it was. When it matches, the
    /// previous callback (if any) is replaced, and with it dropped, and
    /// the new one takes a token no earlier registration ever had.
    pub fn attach(&mut self, stream_format: &StreamFormat, format: CallbackFormat, callback: F) -> (r:
        Result<(), Error>)
        requires
            old(self).next_token < u64::MAX,
        ensures
            r is Ok <==> format.spec_does_stream_format_match(*stream_format),
            r matches Err(e) ==> e
                == Error::RenderCallbackBufferFormatDoesNotMatchAudioUnitStreamFormat && *final(self)
                == *old(self),
            r is Ok ==> (final(self).callback matches Some(c) && c.token == old(self).next_token
                && c.format == format && c.channels == stream_format.channels && c.callback
                == callback),
            r is Ok ==> final(self).next_token == old(self).next_token + 1,
            old(self).wf() ==> final(self).wf(),
    {
        if !format.does_stream_format_match(stream_format) {
            return Err(Error::RenderCallbackBufferFormatDoesNotMatchAudioUnitStreamFormat);
        }
        let token = self.next_token;
        self.callback = Some(
            AttachedCallback { token, format, channels: stream_format.channels, callback },
        );
        self.next_token = token + 1;
        Ok(())
    }

    /// Unregister and drop the current callback.
    ///
    /// Infallible and idempotent: detaching an already detached bridge
    /// changes nothing. Once a detach returns, no token is accepted
    /// until the next attach.
    pub fn detach(&mut self)
        ensures
            !final(self).spec_is_attached(),
            final(self).next_token == old(self).next_token,
            final(self).wf(),
            forall|token: u64| !final(self).accepts(token),
    {
        self.callback = None;
    }
}

impl<F: RenderCallback> CallbackBridge<F> {
    /// Dispatch one invocation of the render trampoline.
    ///
    /// The arguments mirror what the OS hands the C-ABI trampoline:
    /// the opaque token it stored at registration, the invocation's
    /// flag word, time stamp, bus and frame count, and its buffer
    /// list.
    ///
    /// An invocation under a token that is not the current registration
    /// — the bridge is detached, or the token is from an earlier
    /// registration — is rejected with the no-connection status and
    /// touches nothing. With the current token, a buffer list the
    /// registered view cannot be reconstructed over is reported with
    /// the unspecified-error status, the callback never reached;
    /// otherwise the callback runs on a fresh view and its result maps
    /// to the zero or no-connection status, its flag hints written
    /// back.
    pub fn dispatch(
        &mut self,
        token: u64,
        io_flags: &mut u32,
        time_stamp: AudioTimeStamp,
        bus_number: u32,
        num_frames: u32,
        io_data: &AudioBufferList,
    ) -> (r: OSStatus)
        ensures
            !old(self).accepts(token) ==> r == AudioUnitError::NoConnection.spec_as_os_status()
                && *final(self) == *old(self) && *final(io_flags) == *old(io_flags),
            old(self).accepts(token) ==> (final(self).callback matches Some(c) && old(
                self,
            ).callback matches Some(c0) && c.token == c0.token && c.format == c0.format
                && c.channels == c0.channels),
            old(self).accepts(token) ==> final(self).next_token == old(self).next_token,
            old(self).accepts(token) && !spec_view_reconstructible(
                old(self).callback->Some_0.format.kind,
                *io_data,
            ) ==> r == Error::Unspecified.spec_as_os_status() && *final(self) == *old(self)
                && *final(io_flags) == *old(io_flags),
            old(self).accepts(token) && spec_view_reconstructible(
                old(self).callback->Some_0.format.kind,
                *io_data,
            ) ==> r == 0 || r == AudioUnitError::NoConnection.spec_as_os_status(),
            old(self).wf() ==> final(self).wf(),
    {
        let slot = self.callback.take();
        match slot {
            None => AudioUnitError::NoConnection.as_os_status(),
            Some(mut attached) => {
                if attached.token != token {
                    self.callback = Some(attached);
                    return AudioUnitError::NoConnection.as_os_status();
                }
                let data = match attached.format.kind {
                    BufferViewKind::Interleaved => match Interleaved::from_input_proc_args(
                        num_frames,
                        io_data,
                    ) {
                        Some(view) => BufferView::Interleaved(view),
                        None => {
                            self.callback = Some(attached);
                            return Error::Unspecified.as_os_status();
                        },
                    },
                    BufferViewKind::NonInterleaved => BufferView::NonInterleaved(
                        NonInterleaved::from_input_proc_args(
                            num_frames,
                            io_data,
                            attached.channels,
                        ),
                    ),
                };
                let mut args = Args {
                    data,
                    time_stamp,
                    bus_number,
                    num_frames: num_frames as usize,
                    flags: Handle::from_raw(*io_flags),
                };
                let result = attached.callback.render(&mut args);
                *io_flags = args.flags.raw;
                self.callback = Some(attached);
                status_for_render_result(&result)
            },
        }
    }
}

/// A stale token is never accepted again: once a registration holds a
/// token at or above a bridge state's next one — as every later
/// registration does, since tokens only grow — an invocation under a
/// token that state accepted is rejected.
pub proof fn lemma_stale_token_rejected<F>(
    before: CallbackBridge<F>,
    after: CallbackBridge<F>,
    token: u64,
)
    requires
        before.wf(),
        before.accepts(token),
        after.callback matches Some(c) ==> c.token >= before.next_token,
    ensures
        !after.accepts(token),
{
}


} // verus!
