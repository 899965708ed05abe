//! The audio-unit model: formats, buffer views, and the render-callback
//! bridge.

use vstd::prelude::*;

pub mod action_flags;
pub mod audio_format;
pub mod data;
pub mod macos_helpers;
pub mod render_callback;
pub mod sample_format;
pub mod stream_format;

verus! {

/// The input and output scopes a property can be addressed under.
#[derive(Copy, Clone, Debug, PartialEq, Eq, Structural)]
pub enum Scope {
    Output,
    Input,
}

/// The input and output elements a property can be addressed under.
#[derive(Copy, Clone, Debug, PartialEq, Eq, Structural)]
pub enum Element {
    Output,
    Input,
}

/// The kinds of audio unit the component registry offers.
#[derive(Copy, Clone, Debug, PartialEq, Eq, Structural)]
pub enum Type {
    /// Provides input, output, or both; can head a processing graph.
    Output,
    /// A software musical instrument driven by control signals.
    MusicDevice,
    /// An effect that also responds to control messages.
    MusicEffect,
    /// Transforms audio formats, such as by sample-rate conversion.
    FormatConverter,
    /// Processes a stream of samples into as many samples.
    Effect,
    /// Mixes a number of inputs to one or more outputs.
    Mixer,
    /// Distributes input channels over output channels by panning
    /// coordinates.
    Panner,
    /// Produces output with no audio input.
    Generator,
    /// An effect that cannot run in real time and is preflighted first.
    OfflineEffect,
    /// Processes control data rather than audio.
    MidiProcessor,
}

impl Type {
    /// The numeric identifier the component registry uses for this
    /// kind.
    pub open spec fn spec_as_u32(self) -> u32 {
        match self {
            Type::Output => 0x61756f75,
            Type::MusicDevice => 0x61756d75,
            Type::MusicEffect => 0x61756d66,
            Type::FormatConverter => 0x61756663,
            Type::Effect => 0x61756678,
            Type::Mixer => 0x61756d78,
            Type::Panner => 0x6175706e,
            Type::Generator => 0x6175676e,
            Type::OfflineEffect => 0x61756f6c,
            Type::MidiProcessor => 0x61756d69,
        }
    }

    /// The numeric identifier the component registry uses for this
    /// kind.
    pub fn as_u32(&self) -> (r: u32)
        ensures
            r == self.spec_as_u32(),
    {
        match *self {
            Type::Output => 0x61756f75,
            Type::MusicDevice => 0x61756d75,
            Type::MusicEffect => 0x61756d66,
            Type::FormatConverter => 0x61756663,
            Type::Effect => 0x61756678,
            Type::Mixer => 0x61756d78,
            Type::Panner => 0x6175706e,
            Type::Generator => 0x6175676e,
            Type::OfflineEffect => 0x61756f6c,
            Type::MidiProcessor => 0x61756d69,
        }
    }
}

/// The audio unit sub-kinds the component registry offers.
#[derive(Copy, Clone, Debug, PartialEq, Eq, Structural)]
pub enum SubType {
    GenericOutput,
    HalOutput,
    DefaultOutput,
    SystemOutput,
    VoiceProcessingIO,
    DLSSynth,
    Sampler,
    MIDISynth,
    AUConverter,
    Varispeed,
    DeferredRenderer,
    Splitter,
    Merger,
    NewTimePitch,
    AUiPodTimeOther,
    RoundTripAAC,
    PeakLimiter,
    DynamicsProcessor,
    LowPassFilter,
    HighPassFilter,
    BandPassFilter,
    HighShelfFilter,
    LowShelfFilter,
    ParametricEQ,
    Distortion,
    Delay,
    SampleDelay,
    GraphicEQ,
    MultiBandCompressor,
    MatrixReverb,
    Pitch,
    AUFilter,
    NetSend,
    RogerBeep,
    NBandEQ,
    MultiChannelMixer,
    MatrixMixer,
    SpatialMixer,
    StereoMixer,
    Mixer3D,
    SphericalHeadPanner,
    VectorPanner,
    SoundFieldPanner,
    HRTFPanner,
    NetReceive,
    ScheduledSoundPlayer,
    AudioFilePlayer,
}

impl SubType {
    /// The numeric identifier the component registry uses for this
    /// sub-kind.
    pub open spec fn spec_as_u32(self) -> u32 {
        match self {
            SubType::GenericOutput => 0x67656e72,
            SubType::HalOutput => 0x6168616c,
            SubType::DefaultOutput => 0x64656620,
            SubType::SystemOutput => 0x73797320,
            SubType::VoiceProcessingIO => 0x7670696f,
            SubType::DLSSynth => 0x646c7320,
            SubType::Sampler => 0x73616d70,
            SubType::MIDISynth => 0x6d73796e,
            SubType::AUConverter => 0x636f6e76,
            SubType::Varispeed => 0x76617269,
            SubType::DeferredRenderer => 0x64656672,
            SubType::Splitter => 0x73706c74,
            SubType::Merger => 0x6d657267,
            SubType::NewTimePitch => 0x6e757470,
            SubType::AUiPodTimeOther => 0x6970746f,
            SubType::RoundTripAAC => 0x72616163,
            SubType::PeakLimiter => 0x6c6d7472,
            SubType::DynamicsProcessor => 0x64636d70,
            SubType::LowPassFilter => 0x6c706173,
            SubType::HighPassFilter => 0x68706173,
            SubType::BandPassFilter => 0x62706173,
            SubType::HighShelfFilter => 0x68736866,
            SubType::LowShelfFilter => 0x6c736866,
            SubType::ParametricEQ => 0x706d6571,
            SubType::Distortion => 0x64697374,
            SubType::Delay => 0x64656c79,
            SubType::SampleDelay => 0x73646c79,
            SubType::GraphicEQ => 0x67726571,
            SubType::MultiBandCompressor => 0x6d636d70,
            SubType::MatrixReverb => 0x6d726576,
            SubType::Pitch => 0x746d7074,
            SubType::AUFilter => 0x66696c74,
            SubType::NetSend => 0x6e736e64,
            SubType::RogerBeep => 0x726f6772,
            SubType::NBandEQ => 0x6e626571,
            SubType::MultiChannelMixer => 0x6d636d78,
            SubType::MatrixMixer => 0x6d786d78,
            SubType::SpatialMixer => 0x3364656d,
            SubType::StereoMixer => 0x736d7872,
            SubType::Mixer3D => 0x33646d78,
            SubType::SphericalHeadPanner => 0x73706872,
            SubType::VectorPanner => 0x76626173,
            SubType::SoundFieldPanner => 0x616d6269,
            SubType::HRTFPanner => 0x68727466,
            SubType::NetReceive => 0x6e726376,
            SubType::ScheduledSoundPlayer => 0x7373706c,
            SubType::AudioFilePlayer => 0x6166706c,
        }
    }

    /// The numeric identifier the component registry uses for this
    /// sub-kind.
    pub fn as_u32(&self) -> (r: u32)
        ensures
            r == self.spec_as_u32(),
    {
        match *self {
            SubType::GenericOutput => 0x67656e72,
            SubType::HalOutput => 0x6168616c,
            SubType::DefaultOutput => 0x64656620,
            SubType::SystemOutput => 0x73797320,
            SubType::VoiceProcessingIO => 0x7670696f,
            SubType::DLSSynth => 0x646c7320,
            SubType::Sampler => 0x73616d70,
            SubType::MIDISynth => 0x6d73796e,
            SubType::AUConverter => 0x636f6e76,
            SubType::Varispeed => 0x76617269,
            SubType::DeferredRenderer => 0x64656672,
            SubType::Splitter => 0x73706c74,
            SubType::Merger => 0x6d657267,
            SubType::NewTimePitch => 0x6e757470,
            SubType::AUiPodTimeOther => 0x6970746f,
            SubType::RoundTripAAC => 0x72616163,
            SubType::PeakLimiter => 0x6c6d7472,
            SubType::DynamicsProcessor => 0x64636d70,
            SubType::LowPassFilter => 0x6c706173,
            SubType::HighPassFilter => 0x68706173,
            SubType::BandPassFilter => 0x62706173,
            SubType::HighShelfFilter => 0x68736866,
            SubType::LowShelfFilter => 0x6c736866,
            SubType::ParametricEQ => 0x706d6571,
            SubType::Distortion => 0x64697374,
            SubType::Delay => 0x64656c79,
            SubType::SampleDelay => 0x73646c79,
            SubType::GraphicEQ => 0x67726571,
            SubType::MultiBandCompressor => 0x6d636d70,
            SubType::MatrixReverb => 0x6d726576,
            SubType::Pitch => 0x746d7074,
            SubType::AUFilter => 0x66696c74,
            SubType::NetSend => 0x6e736e64,
            SubType::RogerBeep => 0x726f6772,
            SubType::NBandEQ => 0x6e626571,
            SubType::MultiChannelMixer => 0x6d636d78,
            SubType::MatrixMixer => 0x6d786d78,
            SubType::SpatialMixer => 0x3364656d,
            SubType::StereoMixer => 0x736d7872,
            SubType::Mixer3D => 0x33646d78,
            SubType::SphericalHeadPanner => 0x73706872,
            SubType::VectorPanner => 0x76626173,
            SubType::SoundFieldPanner => 0x616d6269,
            SubType::HRTFPanner => 0x68727466,
            SubType::NetReceive => 0x6e726376,
            SubType::ScheduledSoundPlayer => 0x7373706c,
            SubType::AudioFilePlayer => 0x6166706c,
        }
    }
}

impl Scope {
    /// The numeric value the native property calls expect for this scope.
    pub fn as_u32(&self) -> (r: u32)
        ensures
            r == self.spec_as_u32(),
    {
        match *self {
            Scope::Output => 0,
            Scope::Input => 1,
        }
    }

    /// The numeric scope value, as a mathematical function.
    pub open spec fn spec_as_u32(self) -> u32 {
        match self {
            Scope::Output => 0,
            Scope::Input => 1,
        }
    }
}

impl Element {
    /// The numeric value the native property calls expect for this element.
    pub fn as_u32(&self) -> (r: u32)
        ensures
            r == self.spec_as_u32(),
    {
        match *self {
            Element::Output => 0,
            Element::Input => 1,
        }
    }

    /// The numeric element value, as a mathematical function.
    pub open spec fn spec_as_u32(self) -> u32 {
        match self {
            Element::Output => 0,
            Element::Input => 1,
        }
    }
}

} // verus!
