//! The worker roles around the engine: what each of the three phases of
//! the loop decides, the demo patch the compute role configures on first
//! run, and the runtime's own configuration and fault types.
//!
//! Blocking — barriers, sleeps, channels, the audio callback — belongs to
//! the runtime around the library; every decision those loops take stands
//! here as a function from plain state to plain action.

use vstd::prelude::*;

use crate::module::{ModuleInstanceId, ModuleSource};
use crate::modules::{
    AUDIO_OUTPUT_MODULE_ID, CONSTANT_MODULE_ID, Module, ModuleContext, MULTIPLE_MODULE_ID,
};
use crate::port::{Port, PortInputReference, PortOutputReference};
use crate::processor::{Processor, connect_ok, find_entry, lemma_find_entry_from};
use crate::protocol::{Protocol, ProtocolAdd, ProtocolConnect};

verus! {

/// Whether a worker goes on into this iteration's phases or leaves the
/// loop.
#[derive(Clone, Copy, Debug, PartialEq, Eq, Structural)]
pub enum ProcessControl {
    Continue,
    Exit,
}

/// One worker role of the three-phase loop: bookkeeping before the block,
/// the block itself, and what follows it. A worker exits when its first
/// phase says so; the loop around these, and the barriers closing each
/// phase, belong to the runtime.
pub trait Process {
    /// The configure phase: bookkeeping that must precede the block.
    fn phase_0(&mut self) -> ProcessControl;

    /// The compute phase: the block's work.
    fn phase_1(&mut self);

    /// The io phase: publishing what the block produced.
    fn phase_2(&mut self);
}

/// The runtime's configuration.
pub struct Configuration {
    pub audio: crate::config::Configuration,
}

/// A fault of the runtime: one of the audio layer's, or its own.
#[derive(Debug)]
pub enum Error {
    Audio(crate::error::Error),
    General { message: String },
}

/// One audio output the platform offers, as the io role reports it to
/// audio-output modules asking for a device.
#[derive(Clone, Debug)]
pub struct AudioOutput {
    pub channels: u32,
    pub id: u32,
    pub name: String,
}

impl AudioOutput {
    /// A description of the output `id` with `channels` channels.
    pub fn new(channels: u32, id: u32, name: String) -> (r: AudioOutput)
        ensures
            r.channels == channels,
            r.id == id,
            r.name == name,
    {
        AudioOutput { channels, id, name }
    }
}

/// How often the control-facing workers look up from their hot loop to
/// check the exit flag and serve pending requests.
pub const SERVICE_INTERVAL: usize = 325;

/// What the io role does with its iteration counter this time around:
/// leave the loop, serve pending requests and start counting afresh, or
/// just count.
#[derive(Clone, Copy, Debug, PartialEq, Eq, Structural)]
pub enum IoStep {
    Exit,
    Serve,
    Tick,
}

/// The io role's bookkeeping decision: every [`SERVICE_INTERVAL`]-th
/// iteration it observes the exit flag and, still running, serves pending
/// capability requests; otherwise it only counts.
pub fn io_step(iteration: usize, exit_triggered: bool) -> (r: IoStep)
    ensures
        r == (if iteration >= SERVICE_INTERVAL {
            if exit_triggered {
                IoStep::Exit
            } else {
                IoStep::Serve
            }
        } else {
            IoStep::Tick
        }),
{
    if iteration >= SERVICE_INTERVAL {
        if exit_triggered {
            IoStep::Exit
        } else {
            IoStep::Serve
        }
    } else {
        IoStep::Tick
    }
}

/// The edit commands the control role sends to bring the demo patch up: a
/// constant source into a four-way multiple, and the multiple's first two
/// outputs into the audio output's two channels — adds first, then the
/// connects, in one deterministic order.
pub fn control_commands(
    source_instance: ModuleInstanceId,
    mult_instance: ModuleInstanceId,
    out_instance: ModuleInstanceId,
) -> (r: Vec<Protocol>)
    ensures
        r@.len() == 6,
        r@[0] == Protocol::Add(
            (ProtocolAdd { instance: source_instance, module: CONSTANT_MODULE_ID }),
        ),
        r@[1] == Protocol::Add(
            (ProtocolAdd { instance: mult_instance, module: MULTIPLE_MODULE_ID }),
        ),
        r@[2] == Protocol::Add(
            (ProtocolAdd { instance: out_instance, module: AUDIO_OUTPUT_MODULE_ID }),
        ),
        r@[3] == Protocol::Connect(
            (ProtocolConnect {
                input_instance: mult_instance,
                input_port: 0,
                output_instance: source_instance,
                output_port: 0,
            }),
        ),
        r@[4] == Protocol::Connect(
            (ProtocolConnect {
                input_instance: out_instance,
                input_port: 0,
                output_instance: mult_instance,
                output_port: 0,
            }),
        ),
        r@[5] == Protocol::Connect(
            (ProtocolConnect {
                input_instance: out_instance,
                input_port: 1,
                output_instance: mult_instance,
                output_port: 1,
            }),
        ),
{
    let mut r: Vec<Protocol> = Vec::new();
    r.push(Protocol::Add(ProtocolAdd { instance: source_instance, module: CONSTANT_MODULE_ID }));
    r.push(Protocol::Add(ProtocolAdd { instance: mult_instance, module: MULTIPLE_MODULE_ID }));
    r.push(Protocol::Add(ProtocolAdd { instance: out_instance, module: AUDIO_OUTPUT_MODULE_ID }));
    r.push(
        Protocol::Connect(
            ProtocolConnect {
                input_instance: mult_instance,
                input_port: 0,
                output_instance: source_instance,
                output_port: 0,
            },
        ),
    );
    r.push(
        Protocol::Connect(
            ProtocolConnect {
                input_instance: out_instance,
                input_port: 0,
                output_instance: mult_instance,
                output_port: 0,
            },
        ),
    );
    r.push(
        Protocol::Connect(
            ProtocolConnect {
                input_instance: out_instance,
                input_port: 1,
                output_instance: mult_instance,
                output_port: 1,
            },
        ),
    );
    r
}

/// Builds the demo patch directly on the processor, as the compute role
/// does on its first run: the three instances come in under the given
/// fresh identifiers, and the pipeline is wired source → multiple →
/// audio output.
pub fn configure(
    processor: &mut Processor<Module>,
    context: &ModuleContext,
    source_instance: ModuleInstanceId,
    mult_instance: ModuleInstanceId,
    out_instance: ModuleInstanceId,
)
    requires
        old(processor).wf(),
        source_instance != mult_instance,
        mult_instance != out_instance,
        source_instance != out_instance,
        find_entry(old(processor)@, source_instance) == -1,
        find_entry(old(processor)@, mult_instance) == -1,
        find_entry(old(processor)@, out_instance) == -1,
    ensures
        final(processor).wf(),
        ({
            let s = final(processor)@;
            let sj = find_entry(s, source_instance);
            let mj = find_entry(s, mult_instance);
            let oj = find_entry(s, out_instance);
            &&& sj >= 0
            &&& mj >= 0
            &&& oj >= 0
            &&& s[sj].outputs@.len() == 1
            &&& s[sj].outputs@[0] is Connected
            &&& s[mj].inputs@[0] == Port::<PortOutputReference>::Connected(
                (PortOutputReference { instance: source_instance, port: 0 }),
            )
            &&& s[mj].outputs@[0] is Connected
            &&& s[mj].outputs@[1] is Connected
            &&& s[oj].inputs@[0] == Port::<PortOutputReference>::Connected(
                (PortOutputReference { instance: mult_instance, port: 0 }),
            )
            &&& s[oj].inputs@[1] == Port::<PortOutputReference>::Connected(
                (PortOutputReference { instance: mult_instance, port: 1 }),
            )
        }),
{
    let ghost s0 = processor@;
    let (source, source_inputs, source_outputs) = match Module::get(CONSTANT_MODULE_ID, context) {
        Some(t) => t,
        None => {
            proof {
                assert(false);
            }
            return ;
        },
    };
    processor.add(source_instance, source, source_inputs, source_outputs);
    let ghost s1 = processor@;
    let (mult, mult_inputs, mult_outputs) = match Module::get(MULTIPLE_MODULE_ID, context) {
        Some(t) => t,
        None => {
            proof {
                assert(false);
            }
            return ;
        },
    };
    processor.add(mult_instance, mult, mult_inputs, mult_outputs);
    let ghost s2 = processor@;
    let (out, out_inputs, out_outputs) = match Module::get(AUDIO_OUTPUT_MODULE_ID, context) {
        Some(t) => t,
        None => {
            proof {
                assert(false);
            }
            return ;
        },
    };
    processor.add(out_instance, out, out_inputs, out_outputs);
    let ghost s3 = processor@;
    proof {
        lemma_find_entry_from(s0, source_instance, 0);
        lemma_find_entry_from(s0, mult_instance, 0);
        lemma_find_entry_from(s0, out_instance, 0);
        lemma_find_entry_from(s1, mult_instance, 0);
        lemma_find_entry_from(s2, out_instance, 0);
        lemma_find_entry_from(s3, source_instance, 0);
        lemma_find_entry_from(s3, mult_instance, 0);
        lemma_find_entry_from(s3, out_instance, 0);
        assert(s3[s0.len() as int].id == source_instance);
        assert(s3[s0.len() as int + 1].id == mult_instance);
        assert(s3[s0.len() as int + 2].id == out_instance);
        assert(find_entry(s3, source_instance) == s0.len() as int);
        assert(find_entry(s3, mult_instance) == s0.len() as int + 1);
        assert(find_entry(s3, out_instance) == s0.len() as int + 2);
    }
    let source_out0 = PortOutputReference { instance: source_instance, port: 0 };
    let mult_in0 = PortInputReference { instance: mult_instance, port: 0 };
    let r1 = processor.connect(&source_out0, &mult_in0);
    let ghost s4 = processor@;
    proof {
        assert(connect_ok(s3, source_out0, mult_in0));
        assert(r1 is Ok);
        crate::processor::lemma_find_entry_same_ids(s3, s4, source_instance, 0);
        crate::processor::lemma_find_entry_same_ids(s3, s4, mult_instance, 0);
        crate::processor::lemma_find_entry_same_ids(s3, s4, out_instance, 0);
    }
    let mult_out0 = PortOutputReference { instance: mult_instance, port: 0 };
    let out_in0 = PortInputReference { instance: out_instance, port: 0 };
    let r2 = processor.connect(&mult_out0, &out_in0);
    let ghost s5 = processor@;
    proof {
        assert(connect_ok(s4, mult_out0, out_in0));
        assert(r2 is Ok);
        crate::processor::lemma_find_entry_same_ids(s4, s5, source_instance, 0);
        crate::processor::lemma_find_entry_same_ids(s4, s5, mult_instance, 0);
        crate::processor::lemma_find_entry_same_ids(s4, s5, out_instance, 0);
    }
    let mult_out1 = PortOutputReference { instance: mult_instance, port: 1 };
    let out_in1 = PortInputReference { instance: out_instance, port: 1 };
    let r3 = processor.connect(&mult_out1, &out_in1);
    let ghost s6 = processor@;
    proof {
        assert(connect_ok(s5, mult_out1, out_in1));
        assert(r3 is Ok);
        crate::processor::lemma_find_entry_same_ids(s5, s6, source_instance, 0);
        crate::processor::lemma_find_entry_same_ids(s5, s6, mult_instance, 0);
        crate::processor::lemma_find_entry_same_ids(s5, s6, out_instance, 0);
    }
}

} // verus!
