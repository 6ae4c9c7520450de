//! Audio configuration: which platform audio interface to use, and which
//! device and channel count the output stream opens with.

use vstd::prelude::*;

verus! {

/// The audio layer's configuration.
pub struct Configuration {
    pub api: String,
    pub output: ConfigurationStream,
}

impl Configuration {
    /// A configuration naming the platform audio interface and the output
    /// stream to open.
    pub fn new(api: String, output: ConfigurationStream) -> (r: Configuration)
        ensures
            r.api == api,
            r.output == output,
    {
        Configuration { api, output }
    }
}

/// The output stream's configuration: device identifier and channel count.
#[derive(Clone, Copy, Debug, PartialEq, Eq, Structural)]
pub struct ConfigurationStream {
    pub device: u32,
    pub channels: u32,
}

impl ConfigurationStream {
    /// A stream configuration for the given device and channel count.
    pub fn new(device: u32, channels: u32) -> (r: ConfigurationStream)
        ensures
            r.device == device,
            r.channels == channels,
    {
        ConfigurationStream { device, channels }
    }
}

} // verus!
