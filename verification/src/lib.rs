//! A realtime modular audio synthesis engine core: a dynamic graph of
//! processing modules exchanging fixed-length sample blocks through typed
//! ports, driven one block per iteration by a processor that owns the module
//! instances.

pub mod block;
pub mod bus;
pub mod collections;
pub mod config;
pub mod device;
pub mod error;
pub mod module;
pub mod modules;
pub mod perf;
pub mod port;
pub mod processor;
pub mod protocol;
pub mod runtime;
pub mod stream;
pub mod sync;
pub mod time;

use vstd::prelude::*;

verus! {

/// Number of sample frames in one block. All signal exchange happens in units
/// of one block of this length.
pub const BUFFER_FRAMES: usize = 64;

/// Fixed sample rate, in frames per second.
pub const SAMPLE_RATE: usize = 48_000;

/// Fewest output channels a usable audio device offers.
pub const MIN_CHANNELS: usize = 2;

/// Most output channels an audio output module addresses.
pub const MAX_CHANNELS: usize = 16;

/// Nanoseconds in one second.
pub const NANOSECONDS_PER_SECOND: usize = 1_000_000_000;

/// Nanoseconds spanned by a single frame at [`SAMPLE_RATE`].
pub const NANOSECONDS_PER_FRAME: usize = NANOSECONDS_PER_SECOND / SAMPLE_RATE;

/// Nanoseconds spanned by one whole block of [`BUFFER_FRAMES`] frames.
pub const NANOSECONDS_PER_BUFFER: usize = NANOSECONDS_PER_FRAME * BUFFER_FRAMES;

} // verus!
