//! Output stream configuration: the typestate markers a stream moves
//! through, the parameters it is opened with, and the fixed facts about
//! its buffers and sample format.
//!
//! Opening and driving the platform stream is the runtime's business; what
//! the engine decides about a stream — its direction, its lifecycle state,
//! its parameters — is modeled here.

use vstd::prelude::*;

use crate::{BUFFER_FRAMES, SAMPLE_RATE};
use crate::device::FORMAT_FLOAT32;

verus! {

/// Stream option flag: non-interleaved channel layout.
pub const STREAM_FLAG_NONINTERLEAVED: u64 = 0x1;

/// Stream option flag: ask the platform for minimal latency.
pub const STREAM_FLAG_MINIMIZE_LATENCY: u64 = 0x2;

/// Stream option flag: claim the device exclusively.
pub const STREAM_FLAG_HOG_DEVICE: u64 = 0x4;

/// Stream option flag: schedule the callback with realtime priority.
pub const STREAM_FLAG_SCHEDULE_REALTIME: u64 = 0x8;

/// Stream option flag: use the platform's default device routing.
pub const STREAM_FLAG_ALSA_USE_DEFAULT: u64 = 0x10;

/// Stream option flag: leave the stream unconnected at open.
pub const STREAM_FLAG_JACK_DONT_CONNECT: u64 = 0x20;

/// A stream's direction, as a typestate.
pub trait StreamDirection {
}

/// An output stream.
pub struct StreamOutput;

impl StreamDirection for StreamOutput {
}

/// A stream whose direction is not yet fixed.
pub struct StreamUnspecified;

impl StreamDirection for StreamUnspecified {
}

/// A stream's lifecycle state, as a typestate.
pub trait StreamState {
}

/// Any lifecycle state.
pub struct StreamAny;

impl StreamState for StreamAny {
}

/// Opened but not yet running.
pub struct StreamInactive;

impl StreamState for StreamInactive {
}

/// Running: the platform is invoking the callback at block rate.
pub struct StreamActive;

impl StreamState for StreamActive {
}

/// The block geometry of a stream's buffers.
#[derive(Clone, Copy, Debug, PartialEq, Eq, Structural)]
pub struct StreamBuffersInfo {
    pub frames: u32,
    pub interleaved: bool,
}

impl StreamBuffersInfo {
    /// The engine's buffer geometry: one block of frames, non-interleaved.
    pub fn new() -> (r: StreamBuffersInfo)
        ensures
            r.frames == BUFFER_FRAMES as u32,
            !r.interleaved,
    {
        StreamBuffersInfo { frames: BUFFER_FRAMES as u32, interleaved: false }
    }
}

/// How many channels a stream carries in each direction.
#[derive(Clone, Copy, Debug, PartialEq, Eq, Structural)]
pub struct StreamChannelsInfo {
    pub input: u32,
    pub output: u32,
}

impl StreamChannelsInfo {
    /// A channel layout with the given counts.
    pub fn new(input: u32, output: u32) -> (r: StreamChannelsInfo)
        ensures
            r.input == input,
            r.output == output,
    {
        StreamChannelsInfo { input, output }
    }
}

/// The sample format and rate a stream runs at.
#[derive(Clone, Copy, Debug, PartialEq, Eq, Structural)]
pub struct StreamSamplesInfo {
    pub format: u64,
    pub rate: u32,
}

impl StreamSamplesInfo {
    /// The engine's device-boundary format: 32-bit float samples at the
    /// fixed sample rate.
    pub fn new() -> (r: StreamSamplesInfo)
        ensures
            r.format == FORMAT_FLOAT32,
            r.rate == SAMPLE_RATE as u32,
    {
        StreamSamplesInfo { format: FORMAT_FLOAT32, rate: SAMPLE_RATE as u32 }
    }
}

/// Options a stream is opened with.
#[derive(Debug)]
pub struct StreamOptions {
    pub buffers: u32,
    pub flags: u64,
    pub name: String,
    pub priority: i32,
}

impl Default for StreamOptions {
    /// The defaults a stream is opened with when nothing is asked for:
    /// four buffers, no flags, no name, the platform's own priority.
    fn default() -> (r: StreamOptions)
        ensures
            r.buffers == 4,
            r.flags == 0,
            r.name@.len() == 0,
            r.priority == -1,
    {
        StreamOptions { buffers: 4, flags: 0, name: String::new(), priority: -1 }
    }
}

/// The parameters an output stream is opened with: the device, how many
/// channels, and at which channel offset they start.
#[derive(Clone, Copy, Debug, PartialEq, Eq, Structural)]
pub struct StreamParameters {
    pub device: u32,
    pub channels: u32,
    pub channels_offset: u32,
}

impl StreamParameters {
    /// Starts building parameters for the given device.
    pub fn for_device(device: u32) -> (r: StreamParametersBuilder)
        ensures
            r.device == device,
            r.channels is None,
            r.channels_offset is None,
    {
        StreamParametersBuilder { device, channels: None, channels_offset: None }
    }
}

/// Accumulates stream parameters; what is not set falls to its default.
#[derive(Clone, Copy, Debug, PartialEq, Eq, Structural)]
pub struct StreamParametersBuilder {
    pub device: u32,
    pub channels: Option<u32>,
    pub channels_offset: Option<u32>,
}

impl StreamParametersBuilder {
    /// Sets the channel count.
    pub fn channels(self, channels: u32) -> (r: Self)
        ensures
            r.device == self.device,
            r.channels == Some(channels),
            r.channels_offset == self.channels_offset,
    {
        StreamParametersBuilder {
            device: self.device,
            channels: Some(channels),
            channels_offset: self.channels_offset,
        }
    }

    /// Sets the channel offset.
    pub fn channels_offset(self, channels_offset: u32) -> (r: Self)
        ensures
            r.device == self.device,
            r.channels == self.channels,
            r.channels_offset == Some(channels_offset),
    {
        StreamParametersBuilder {
            device: self.device,
            channels: self.channels,
            channels_offset: Some(channels_offset),
        }
    }

    /// Finishes the parameters: two channels from offset zero, unless set
    /// otherwise.
    pub fn build(self) -> (r: StreamParameters)
        ensures
            r.device == self.device,
            r.channels == (match self.channels {
                Some(c) => c,
                None => 2,
            }),
            r.channels_offset == (match self.channels_offset {
                Some(o) => o,
                None => 0,
            }),
    {
        StreamParameters {
            device: self.device,
            channels: match self.channels {
                Some(c) => c,
                None => 2,
            },
            channels_offset: match self.channels_offset {
                Some(o) => o,
                None => 0,
            },
        }
    }
}

} // verus!
