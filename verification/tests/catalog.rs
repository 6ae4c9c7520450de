//! The module catalog: definitions, instantiation, the audio sink's
//! acquisition states, and edit commands applied through the protocol.

use open_modular::block::Block;
use open_modular::bus::Bus;
use open_modular::module::ModuleSource;
use open_modular::modules::{
    AUDIO_OUTPUT_MODULE_ID, CONSTANT_MODULE_ID, MULTIPLE_MODULE_ID, Module, ModuleContext,
    Output, OutputState, definitions,
};
use open_modular::port::{PortInputReference, PortInputs, PortOutputReference, PortOutputs, Port};
use open_modular::processor::{Error, Processor};
use open_modular::protocol::{Protocol, ProtocolAdd, ProtocolConnect, ProtocolRemove, compute_block};
use open_modular::runtime::{configure, control_commands};

#[test]
fn catalog_lists_its_three_kinds() {
    let defs = definitions();
    assert_eq!(defs.len(), 3);
    assert_eq!(defs[0].0, CONSTANT_MODULE_ID);
    assert_eq!(defs[0].1.name, "source/constant");
    assert_eq!(defs[0].1.inputs.len(), 0);
    assert_eq!(defs[0].1.outputs.len(), 1);
    assert_eq!(defs[1].0, MULTIPLE_MODULE_ID);
    assert_eq!(defs[1].1.name, "util/mult");
    assert_eq!(defs[1].1.inputs.len(), 1);
    assert_eq!(defs[1].1.outputs.len(), 4);
    assert_eq!(defs[2].0, AUDIO_OUTPUT_MODULE_ID);
    assert_eq!(defs[2].1.name, "audio/out");
    assert_eq!(defs[2].1.inputs.len(), 16);
    assert_eq!(defs[2].1.outputs.len(), 0);
}

#[test]
fn unknown_kind_is_refused() {
    let context = ModuleContext { constant_value: 0 };
    assert!(Module::get(0xdeadbeef, &context).is_none());
}

#[test]
fn instantiation_matches_definition_arity() {
    let context = ModuleContext { constant_value: 0 };
    let (_m, inputs, outputs) = Module::get(MULTIPLE_MODULE_ID, &context).expect("known kind");
    assert_eq!(inputs.len(), 1);
    assert_eq!(outputs.len(), 4);
}

#[test]
fn audio_sink_acquisition_states() {
    let mut sink = Output::instantiate();
    assert_eq!(sink.state(), OutputState::AwaitingOutputs);
    // Buffer arriving out of order changes nothing.
    sink.notify_output_buffer();
    assert_eq!(sink.state(), OutputState::AwaitingOutputs);
    sink.notify_outputs();
    assert_eq!(sink.state(), OutputState::AwaitingOutputBuffer);
    sink.notify_outputs();
    assert_eq!(sink.state(), OutputState::AwaitingOutputBuffer);
    sink.notify_output_buffer();
    assert_eq!(sink.state(), OutputState::Active);
    // Channels start as silence.
    for c in 0..16 {
        assert_eq!(sink.channel(c).expect("channel exists").samples(), &vec![0u64; 64]);
    }
    assert!(sink.channel(16).is_none());
}

#[test]
fn active_sink_captures_connected_inputs() {
    let mut p: Processor<Module> = Processor::new();
    let context = ModuleContext { constant_value: 27 };
    let (source, source_inputs, source_outputs) =
        Module::get(CONSTANT_MODULE_ID, &context).expect("known kind");
    p.add(1, source, source_inputs, source_outputs);
    // Bring the sink to its live state before it joins the graph.
    let mut sink = Output::instantiate();
    sink.notify_outputs();
    sink.notify_output_buffer();
    p.add(2, Module::AudioOutput(sink), PortInputs::with_len(16), PortOutputs::with_len(0));
    p.connect(
        &PortOutputReference { instance: 1, port: 0 },
        &PortInputReference { instance: 2, port: 3 },
    )
    .expect("connect succeeds");
    p.process(0);
    p.process(1);
    let sink = p.module(2).expect("sink held").as_audio_output().expect("is the sink");
    // Channel 3 carries the source's block of the previous iteration;
    // every other channel stays silent.
    assert_eq!(sink.channel(3).expect("channel exists").samples(), &vec![27u64; 64]);
    assert_eq!(sink.channel(0).expect("channel exists").samples(), &vec![0u64; 64]);
}

#[test]
fn protocol_commands_drive_the_processor() {
    let mut p: Processor<Module> = Processor::new();
    let context = ModuleContext { constant_value: 8 };
    let mut bus = Bus::new();
    for command in control_commands(1, 2, 3) {
        assert!(bus.send(command).is_none());
    }
    // The compute side drains at most one command per block; every demo
    // command takes effect.
    let mut iteration: u64 = 0;
    while !bus.is_empty() {
        assert!(compute_block(&mut p, &mut bus, &context, iteration).is_ok());
        iteration += 1;
    }
    assert_eq!(p.len(), 3);
    // The patch stands: the multiple reads the source.
    match p
        .read_input(&PortInputReference { instance: 2, port: 0 }, (iteration % 2) as usize)
        .expect("input reference resolves")
    {
        Port::Connected(b) => assert_eq!(b.samples(), &vec![8u64; 64]),
        Port::Disconnected => panic!("connection should be live"),
    }
    // An add of an unknown kind is rejected and leaves the graph alone; a
    // remove of an absent instance fails silently.
    assert_eq!(
        Protocol::Add(ProtocolAdd { instance: 9, module: 0x1234 }).apply(&context, &mut p),
        Err(Error::NotFound)
    );
    assert_eq!(p.len(), 3);
    assert!(Protocol::Remove(ProtocolRemove { instance: 9 }).apply(&context, &mut p).is_ok());
    assert_eq!(p.len(), 3);
    // A connect against occupied ports is refused with the rejection
    // surfaced, and the graph stands.
    assert_eq!(
        Protocol::Connect(ProtocolConnect {
            input_instance: 2,
            input_port: 0,
            output_instance: 1,
            output_port: 0,
        })
        .apply(&context, &mut p),
        Err(Error::InvalidState)
    );
    assert_eq!(p.len(), 3);
}

#[test]
fn configure_builds_the_demo_patch() {
    let mut p: Processor<Module> = Processor::new();
    let context = ModuleContext { constant_value: 12 };
    configure(&mut p, &context, 10, 20, 30);
    assert_eq!(p.len(), 3);
    p.process(0);
    p.process(1);
    p.process(2);
    // Two hops: after two blocks the sink's first channels carry the
    // source's block.
    let sink = p.module(30).expect("sink held").as_audio_output().expect("is the sink");
    assert_eq!(sink.state(), OutputState::AwaitingOutputs);
    // The sink is not yet active, so its channels are still silence even
    // though its inputs carry signal.
    assert_eq!(sink.channel(0).expect("channel exists").samples(), &vec![0u64; 64]);
    match p
        .read_input(&PortInputReference { instance: 30, port: 0 }, 1)
        .expect("input reference resolves")
    {
        Port::Connected(b) => assert_eq!(b.samples(), &vec![12u64; 64]),
        Port::Disconnected => panic!("connection should be live"),
    }
}

#[test]
fn constant_block_value() {
    let b = Block::splat(5);
    assert_eq!(b.samples(), &vec![5u64; 64]);
    let z = Block::zero();
    assert_eq!(z.samples(), &vec![0u64; 64]);
}
