//! The decisions inside the device-configuration helpers: matching a
//! requested stream format against a device's physical formats, picking
//! a nominal-rate range, comparing descriptors, and reading a stream
//! configuration. The property calls that fetch the data these work on
//! are opaque system calls and live in the application layer.

use vstd::prelude::*;
use crate::audio_unit::audio_format::AudioFormat;
use crate::audio_unit::data::AudioBufferList;
use crate::audio_unit::sample_format::SampleFormat;
use crate::audio_unit::stream_format::{AudioStreamBasicDescription, StreamFormat};

verus! {

/// A plain-value mirror of the native value range: the native structure
/// stores both ends as floating-point numbers; this mirror keeps the
/// whole values, which nominal sample rates use.
#[derive(Copy, Clone, Debug, PartialEq, Eq, Structural)]
pub struct AudioValueRange {
    pub minimum: u64,
    pub maximum: u64,
}

/// A plain-value mirror of the native ranged descriptor: one physical
/// format a device supports, with the sample-rate range it supports it
/// over.
#[derive(Copy, Clone, Debug, PartialEq, Eq, Structural)]
pub struct AudioStreamRangedDescription {
    pub format: AudioStreamBasicDescription,
    pub sample_rate_range: AudioValueRange,
}

/// Whether two descriptors describe the same stream: every field is
/// compared but the reserved padding.
pub open spec fn spec_asbds_are_equal(
    left: AudioStreamBasicDescription,
    right: AudioStreamBasicDescription,
) -> bool {
    &&& left.sample_rate == right.sample_rate
    &&& left.format_id == right.format_id
    &&& left.format_flags == right.format_flags
    &&& left.bytes_per_packet == right.bytes_per_packet
    &&& left.frames_per_packet == right.frames_per_packet
    &&& left.bytes_per_frame == right.bytes_per_frame
    &&& left.channels_per_frame == right.channels_per_frame
    &&& left.bits_per_channel == right.bits_per_channel
}

/// Whether two descriptors describe the same stream.
pub fn asbds_are_equal(
    left: &AudioStreamBasicDescription,
    right: &AudioStreamBasicDescription,
) -> (r: bool)
    ensures
        r == spec_asbds_are_equal(*left, *right),
{
    left.sample_rate == right.sample_rate && left.format_id == right.format_id
        && left.format_flags == right.format_flags && left.bytes_per_packet
        == right.bytes_per_packet && left.frames_per_packet == right.frames_per_packet
        && left.bytes_per_frame == right.bytes_per_frame && left.channels_per_frame
        == right.channels_per_frame && left.bits_per_channel == right.bits_per_channel
}

/// Whether one physical format a device offers can carry the requested
/// stream format: it must be linear PCM of the same numeric kind (and
/// not of an ambiguous flag word claiming both kinds), declare the
/// requested sample width, offer at least the requested channels, and
/// either run at the requested rate or carry it within its range. The
/// requested format's own flags and interleaving play no part.
pub open spec fn spec_format_matches_request(
    entry: AudioStreamRangedDescription,
    request: StreamFormat,
) -> bool {
    match AudioFormat::spec_from_format_and_flag(
        entry.format.format_id,
        Some(entry.format.format_flags),
    ) {
        Some(AudioFormat::LinearPCM(flags)) => {
            let is_float = flags.spec_is_float();
            let is_int = flags.spec_is_signed_integer();
            &&& !(is_int && is_float)
            &&& (request.sample_format is F32 ==> is_float)
            &&& (!(request.sample_format is F32) ==> is_int)
            &&& entry.format.bits_per_channel == 8 * request.sample_format.spec_size_in_bytes()
            &&& request.channels <= entry.format.channels_per_frame
            &&& (entry.format.sample_rate == request.sample_rate
                || (entry.sample_rate_range.minimum <= request.sample_rate
                    && request.sample_rate <= entry.sample_rate_range.maximum))
        },
        _ => false,
    }
}

/// Whether one physical format a device offers can carry the requested
/// stream format.
pub fn format_matches_request(entry: &AudioStreamRangedDescription, request: &StreamFormat) -> (r:
    bool)
    ensures
        r == spec_format_matches_request(*entry, *request),
{
    let flags = match AudioFormat::from_format_and_flag(
        entry.format.format_id,
        Some(entry.format.format_flags),
    ) {
        Some(AudioFormat::LinearPCM(flags)) => flags,
        _ => {
            return false;
        },
    };
    let is_float = flags.is_float();
    let is_int = flags.is_signed_integer();
    if is_int && is_float {
        return false;
    }
    let requested_float = matches!(request.sample_format, SampleFormat::F32);
    if requested_float && !is_float {
        return false;
    }
    if !requested_float && !is_int {
        return false;
    }
    if entry.format.bits_per_channel != request.sample_format.size_in_bits() {
        return false;
    }
    if request.channels > entry.format.channels_per_frame {
        return false;
    }
    entry.format.sample_rate == request.sample_rate || (entry.sample_rate_range.minimum
        <= request.sample_rate && request.sample_rate <= entry.sample_rate_range.maximum)
}

/// Find the closest match of a device's physical formats to the
/// requested stream format: the first format of the list that supports
/// the requested sample format, rate and channel count. The requested
/// format's flags and interleaving are ignored.
pub fn find_matching_physical_format(
    all_formats: &Vec<AudioStreamRangedDescription>,
    stream_format: StreamFormat,
) -> (r: Option<AudioStreamBasicDescription>)
    ensures
        r is None ==> forall|i: int|
            0 <= i < all_formats@.len() ==> !spec_format_matches_request(
                #[trigger] all_formats@[i],
                stream_format,
            ),
        r matches Some(f) ==> exists|i: int|
            {
                &&& 0 <= i < all_formats@.len()
                &&& spec_format_matches_request(#[trigger] all_formats@[i], stream_format)
                &&& f == all_formats@[i].format
                &&& forall|j: int|
                    0 <= j < i ==> !spec_format_matches_request(
                        #[trigger] all_formats@[j],
                        stream_format,
                    )
            },
{
    let mut i: usize = 0;
    while i < all_formats.len()
        invariant
            i <= all_formats@.len(),
            forall|j: int|
                0 <= j < i ==> !spec_format_matches_request(
                    #[trigger] all_formats@[j],
                    stream_format,
                ),
        decreases all_formats@.len() - i,
    {
        if format_matches_request(&all_formats[i], &stream_format) {
            return Some(all_formats[i].format);
        }
        i = i + 1;
    }
    None
}

/// Whether a nominal-rate range offers exactly one rate, the requested
/// one: a device lists its supported discrete rates as ranges whose two
/// ends agree.
pub open spec fn spec_range_is_rate(range: AudioValueRange, rate: u64) -> bool {
    range.minimum == rate && range.maximum == rate
}

/// Find, among a device's nominal-rate ranges, the first that is
/// exactly the requested rate; a device that lists no such range does
/// not support the rate.
pub fn find_rate_range_index(ranges: &Vec<AudioValueRange>, rate: u64) -> (r: Option<usize>)
    ensures
        r is None ==> forall|i: int|
            0 <= i < ranges@.len() ==> !spec_range_is_rate(#[trigger] ranges@[i], rate),
        r matches Some(i) ==> i < ranges@.len() && spec_range_is_rate(ranges@[i as int], rate)
            && forall|j: int| 0 <= j < i ==> !spec_range_is_rate(#[trigger] ranges@[j], rate),
{
    let mut i: usize = 0;
    while i < ranges.len()
        invariant
            i <= ranges@.len(),
            forall|j: int| 0 <= j < i ==> !spec_range_is_rate(#[trigger] ranges@[j], rate),
        decreases ranges@.len() - i,
    {
        if ranges[i].minimum == rate && ranges[i].maximum == rate {
            return Some(i);
        }
        i = i + 1;
    }
    None
}

/// Whether a device's stream configuration carries any channel on the
/// queried scope: some buffer, among those declared and present,
/// declares at least one channel.
pub open spec fn spec_buffer_list_has_channels(list: AudioBufferList) -> bool {
    exists|i: int|
        0 <= i < list.number_buffers && i < list.buffers@.len() && #[trigger] list.buffers@[i].number_channels
            > 0
}

/// Whether a device's stream configuration carries any channel on the
/// queried scope.
pub fn buffer_list_has_channels(list: &AudioBufferList) -> (r: bool)
    ensures
        r == spec_buffer_list_has_channels(*list),
{
    let mut count: usize = list.buffers.len();
    if (list.number_buffers as usize) < count {
        count = list.number_buffers as usize;
    }
    let mut i: usize = 0;
    while i < count
        invariant
            i <= count,
            count <= list.buffers@.len(),
            count <= list.number_buffers,
            count == vstd::math::min(list.number_buffers as int, list.buffers@.len() as int),
            forall|j: int|
                0 <= j < i ==> #[trigger] list.buffers@[j].number_channels == 0,
        decreases count - i,
    {
        if list.buffers[i].number_channels > 0 {
            return true;
        }
        i = i + 1;
    }
    false
}

} // verus!
