//! Audio device descriptions, and the filter that picks the devices a
//! realtime output stream can actually be opened on.
//!
//! Querying the platform for devices is the runtime's business; the
//! descriptions here carry what the engine's logic reads of one.

use vstd::prelude::*;

use crate::{MIN_CHANNELS, SAMPLE_RATE};

verus! {

/// Sample format flag: signed 8-bit integer samples.
pub const FORMAT_SINT8: u64 = 0x1;

/// Sample format flag: signed 16-bit integer samples.
pub const FORMAT_SINT16: u64 = 0x2;

/// Sample format flag: signed 24-bit integer samples.
pub const FORMAT_SINT24: u64 = 0x4;

/// Sample format flag: signed 32-bit integer samples.
pub const FORMAT_SINT32: u64 = 0x8;

/// Sample format flag: 32-bit floating-point samples.
pub const FORMAT_FLOAT32: u64 = 0x10;

/// Sample format flag: 64-bit floating-point samples.
pub const FORMAT_FLOAT64: u64 = 0x20;

/// How many channels a device offers in each direction.
#[derive(Clone, Copy, Debug, PartialEq, Eq, Structural)]
pub struct DeviceChannels {
    pub duplex: u32,
    pub input: u32,
    pub output: u32,
}

/// Whether the platform holds the device as its default input or output.
#[derive(Clone, Copy, Debug, PartialEq, Eq, Structural)]
pub struct DeviceDefaults {
    pub input: bool,
    pub output: bool,
}

/// The sample formats a device speaks natively, as format flags.
#[derive(Clone, Copy, Debug, PartialEq, Eq, Structural)]
pub struct DeviceFormats {
    pub bits: u64,
}

impl DeviceFormats {
    /// Whether every format in `flags` is among the device's.
    pub open spec fn contains_spec(&self, flags: u64) -> bool {
        self.bits & flags == flags
    }

    /// Whether every format in `flags` is among the device's.
    pub fn contains(&self, flags: u64) -> (r: bool)
        ensures
            r <==> self.contains_spec(flags),
    {
        self.bits & flags == flags
    }
}

/// A device's display name.
#[derive(Clone, Debug)]
pub struct DeviceName {
    pub name: String,
}

/// The sample rates a device offers, and the one it prefers.
#[derive(Clone, Debug)]
pub struct DeviceRates {
    pub available: Vec<u32>,
    pub preferred: u32,
}

/// One audio device as the platform describes it.
#[derive(Clone, Debug)]
pub struct Device {
    pub id: u32,
    pub name: DeviceName,
    pub channels: DeviceChannels,
    pub defaults: DeviceDefaults,
    pub formats: DeviceFormats,
    pub rates: DeviceRates,
}

/// Whether the engine can open its output stream on the device: enough
/// output channels, native 32-bit float samples, and the engine's fixed
/// sample rate on offer.
pub open spec fn usable_output(device: Device) -> bool {
    &&& device.channels.output >= MIN_CHANNELS
    &&& device.formats.contains_spec(FORMAT_FLOAT32)
    &&& device.rates.available@.contains(SAMPLE_RATE as u32)
}

/// The devices of a listing that a realtime output stream can be opened
/// on, kept in their listed order.
pub open spec fn usable_outputs(devices: Seq<Device>) -> Seq<Device> {
    devices.filter(|d: Device| usable_output(d))
}

/// Whether `rates` offers the rate `rate`.
fn rates_offer(rates: &Vec<u32>, rate: u32) -> (r: bool)
    ensures
        r <==> rates@.contains(rate),
{
    let mut i: usize = 0;
    while i < rates.len()
        invariant
            i <= rates@.len(),
            forall|j: int| 0 <= j < i ==> rates@[j] != rate,
        decreases rates@.len() - i,
    {
        if rates[i] == rate {
            return true;
        }
        i = i + 1;
    }
    false
}

/// Filters a device listing down to the devices a realtime output stream
/// can be opened on.
pub trait DeviceOutputFilter: View<V = Seq<Device>> + Sized {
    /// The devices usable for output, in their listed order.
    fn output(self) -> (r: Vec<Device>)
        ensures
            r@ == usable_outputs(self@),
    ;
}

impl DeviceOutputFilter for Vec<Device> {
    fn output(self) -> (r: Vec<Device>)
        ensures
            r@ == usable_outputs(self@),
    {
        let ghost orig = self@;
        let min_channels: u32 = MIN_CHANNELS as u32;
        let rate: u32 = SAMPLE_RATE as u32;
        let mut rest = self;
        let mut r: Vec<Device> = Vec::new();
        let ghost mut i: int = 0;
        proof {
            reveal_with_fuel(Seq::<Device>::filter, 2);
            assert(orig.subrange(0, 0) =~= Seq::<Device>::empty());
            assert(r@ =~= usable_outputs(orig.subrange(0, 0)));
        }
        while rest.len() > 0
            invariant
                0 <= i <= orig.len(),
                rest@ == orig.subrange(i, orig.len() as int),
                min_channels == MIN_CHANNELS as u32,
                rate == SAMPLE_RATE as u32,
                r@ == usable_outputs(orig.subrange(0, i)),
            decreases rest@.len(),
        {
            let device = rest.remove(0);
            proof {
                assert(device == orig[i]);
            }
            let usable = device.channels.output >= min_channels && device.formats.contains(
                FORMAT_FLOAT32,
            ) && rates_offer(&device.rates.available, rate);
            if usable {
                r.push(device);
            }
            proof {
                reveal_with_fuel(Seq::<Device>::filter, 2);
                assert(orig.subrange(0, i + 1).drop_last() =~= orig.subrange(0, i));
                assert(orig.subrange(0, i + 1).last() == orig[i]);
                assert(orig.subrange(0, i + 1).len() == i + 1);
                assert(r@ == usable_outputs(orig.subrange(0, i + 1)));
                i = i + 1;
                assert(rest@ =~= orig.subrange(i, orig.len() as int));
            }
        }
        proof {
            assert(orig.subrange(0, orig.len() as int) =~= orig);
        }
        r
    }
}

} // verus!
