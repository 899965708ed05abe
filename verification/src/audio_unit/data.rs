//! Plain-value mirrors of the native buffer-list structures a render
//! callback receives, and the typed views a callback reads them
//! through.

use vstd::prelude::*;
use crate::audio_unit::sample_format::SampleFormat;
use crate::audio_unit::stream_format::StreamFormat;

verus! {

/// A plain-value mirror of one native buffer: how many interleaved
/// channels it carries and how many bytes it declares.
#[derive(Copy, Clone, Debug, PartialEq, Eq, Structural)]
pub struct AudioBuffer {
    pub number_channels: u32,
    pub data_byte_size: u32,
}

/// A plain-value mirror of the native buffer list a render callback
/// receives: the count of buffers the OS declares in use, and the
/// buffer slots actually present.
///
/// The native structure's slot array has a fixed capacity that is
/// usually larger than the declared count, and the declared count is
/// not trusted to be within the slots present: a view never reads past
/// either bound.
#[derive(Clone, Debug, PartialEq, Eq)]
pub struct AudioBufferList {
    pub number_buffers: u32,
    pub buffers: Vec<AudioBuffer>,
}

/// The two buffer layouts a callback can be registered over.
#[derive(Copy, Clone, Debug, PartialEq, Eq, Structural)]
pub enum BufferViewKind {
    /// One buffer holding every channel's samples, frame by frame.
    Interleaved,
    /// One buffer per channel.
    NonInterleaved,
}

/// The data format a callback is registered over: which buffer layout
/// it expects, and of which sample format.
#[derive(Copy, Clone, Debug, PartialEq, Eq, Structural)]
pub struct CallbackFormat {
    pub kind: BufferViewKind,
    pub sample_format: SampleFormat,
}

impl CallbackFormat {
    /// Whether a stream format delivers data this callback format can
    /// view: the layouts must agree and the sample formats must be the
    /// same. Sample rate and channel count play no part — the layout
    /// constraint is about representation, not cardinality.
    pub open spec fn spec_does_stream_format_match(self, format: StreamFormat) -> bool {
        &&& (self.kind is Interleaved <==> format.interleaved)
        &&& self.sample_format == format.sample_format
    }

    /// Whether a stream format delivers data this callback format can
    /// view.
    pub fn does_stream_format_match(&self, format: &StreamFormat) -> (r: bool)
        ensures
            r == self.spec_does_stream_format_match(*format),
    {
        let kind_matches = match self.kind {
            BufferViewKind::Interleaved => format.interleaved,
            BufferViewKind::NonInterleaved => !format.interleaved,
        };
        kind_matches && self.sample_format == format.sample_format
    }
}

/// The view over one interleaved buffer: every channel of every frame
/// in one run of samples.
#[derive(Copy, Clone, Debug, PartialEq, Eq, Structural)]
pub struct Interleaved {
    /// The channel count the buffer itself declares.
    pub channels: u32,
    /// The frames of this invocation.
    pub frames: usize,
}

impl Interleaved {
    /// The channel count the buffer declares.
    pub open spec fn spec_channels(self) -> u32 {
        self.channels
    }

    /// The frames of this invocation.
    pub open spec fn spec_frames(self) -> usize {
        self.frames
    }

    /// The view an interleaved reconstruction gives: the first declared
    /// and present buffer, or nothing when the list has no such buffer.
    pub open spec fn spec_from_input_proc_args(
        num_frames: u32,
        io_data: AudioBufferList,
    ) -> Option<Interleaved> {
        if io_data.number_buffers >= 1 && io_data.buffers@.len() >= 1 {
            Some(
                Interleaved {
                    channels: io_data.buffers@[0].number_channels,
                    frames: num_frames as usize,
                },
            )
        } else {
            None
        }
    }

    /// Reconstruct the view from the raw callback arguments: the single
    /// interleaved buffer is the first of the list. A list without one
    /// is a reconstruction violation, reported rather than read.
    pub fn from_input_proc_args(num_frames: u32, io_data: &AudioBufferList) -> (r: Option<
        Interleaved,
    >)
        ensures
            r == Self::spec_from_input_proc_args(num_frames, *io_data),
    {
        if io_data.number_buffers >= 1 && io_data.buffers.len() >= 1 {
            Some(
                Interleaved {
                    channels: io_data.buffers[0].number_channels,
                    frames: num_frames as usize,
                },
            )
        } else {
            None
        }
    }

    /// The channel count the buffer declares.
    pub fn channels(&self) -> (r: u32)
        ensures
            r == self.spec_channels(),
    {
        self.channels
    }

    /// How many samples the buffer holds: one per channel for each
    /// frame.
    pub fn len(&self) -> (r: usize)
        requires
            self.spec_frames() * self.spec_channels() <= usize::MAX,
        ensures
            r == self.spec_frames() * self.spec_channels(),
    {
        self.frames * (self.channels as usize)
    }
}

/// The view over a non-interleaved buffer list: one buffer per channel,
/// capped at the channel count the callback was registered with, so
/// that spare slots of the native structure are never exposed as
/// channels.
#[derive(Clone, Debug, PartialEq, Eq)]
pub struct NonInterleaved {
    /// The exposed channel buffers, in order.
    pub buffers: Vec<AudioBuffer>,
    /// The frames of this invocation.
    pub frames: usize,
}

impl NonInterleaved {
    /// The exposed channel buffers.
    pub open spec fn spec_buffers(self) -> Seq<AudioBuffer> {
        self.buffers@
    }

    /// The frames of this invocation.
    pub open spec fn spec_frames(self) -> usize {
        self.frames
    }

    /// How many channel buffers a reconstruction exposes: no more than
    /// the registered channel count, no more than the list declares in
    /// use, and no more than are present.
    pub open spec fn spec_exposed_count(io_data: AudioBufferList, max_channels: u32) -> int {
        vstd::math::min(
            vstd::math::min(io_data.number_buffers as int, max_channels as int),
            io_data.buffers@.len() as int,
        )
    }

    /// Reconstruct the view from the raw callback arguments, exposing
    /// the first buffers up to the registered channel count.
    pub fn from_input_proc_args(num_frames: u32, io_data: &AudioBufferList, max_channels: u32) -> (r:
        NonInterleaved)
        ensures
            r.spec_frames() == num_frames as usize,
            r.spec_buffers().len() == Self::spec_exposed_count(*io_data, max_channels),
            r.spec_buffers() == io_data.buffers@.take(Self::spec_exposed_count(*io_data, max_channels)),
    {
        let declared = if io_data.number_buffers < max_channels {
            io_data.number_buffers
        } else {
            max_channels
        };
        let mut count: usize = declared as usize;
        if io_data.buffers.len() < count {
            count = io_data.buffers.len();
        }
        let mut buffers: Vec<AudioBuffer> = Vec::new();
        let mut i: usize = 0;
        while i < count
            invariant
                i <= count,
                count == Self::spec_exposed_count(*io_data, max_channels),
                count <= io_data.buffers@.len(),
                buffers@ == io_data.buffers@.take(i as int),
            decreases count - i,
        {
            buffers.push(io_data.buffers[i]);
            proof {
                assert(buffers@ == io_data.buffers@.take(i + 1 as int));
            }
            i = i + 1;
        }
        NonInterleaved { buffers, frames: num_frames as usize }
    }

    /// How many channel buffers the view exposes.
    pub fn channel_count(&self) -> (r: usize)
        ensures
            r == self.spec_buffers().len(),
    {
        self.buffers.len()
    }

    /// The buffer of one exposed channel.
    pub fn channel(&self, i: usize) -> (r: AudioBuffer)
        requires
            i < self.spec_buffers().len(),
        ensures
            r == self.spec_buffers()[i as int],
    {
        self.buffers[i]
    }

    /// How many samples one exposed channel's buffer holds: the buffer's
    /// own channel count (one, for a canonical non-interleaved list) for
    /// each frame.
    pub fn channel_len(&self, i: usize) -> (r: usize)
        requires
            i < self.spec_buffers().len(),
            self.spec_buffers()[i as int].number_channels * self.spec_frames() <= usize::MAX,
        ensures
            r == self.spec_buffers()[i as int].number_channels * self.spec_frames(),
    {
        (self.buffers[i].number_channels as usize) * self.frames
    }
}

/// The typed view a dispatched callback reads its buffers through.
#[derive(Clone, Debug, PartialEq, Eq)]
pub enum BufferView {
    Interleaved(Interleaved),
    NonInterleaved(NonInterleaved),
}

/// A non-interleaved view never exposes more channel buffers than the
/// count its callback was registered with — however many slots the
/// native structure declares or allocates beyond it.
pub proof fn lemma_view_never_exceeds_registered_channels(
    io_data: AudioBufferList,
    max_channels: u32,
)
    ensures
        NonInterleaved::spec_exposed_count(io_data, max_channels) <= max_channels,
{
}

} // verus!
