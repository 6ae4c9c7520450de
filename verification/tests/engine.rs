//! Engine behavior: the striped read/write protocol, topology edits, and
//! the one-block latency contract, exercised on concrete patches.

use open_modular::block::Block;
use open_modular::module::ModuleSource;
use open_modular::modules::{
    AUDIO_OUTPUT_MODULE_ID, CONSTANT_MODULE_ID, MULTIPLE_MODULE_ID, Module, ModuleContext,
};
use open_modular::port::{Port, PortInputReference, PortOutputReference};
use open_modular::processor::{Error, Processor};

fn add_kind(processor: &mut Processor<Module>, kind: u128, instance: u128, value: u64) {
    let context = ModuleContext { constant_value: value };
    let (module, inputs, outputs) = Module::get(kind, &context).expect("known kind");
    processor.add(instance, module, inputs, outputs);
}

fn read_input(processor: &Processor<Module>, instance: u128, port: usize, token: usize) -> Port<Block> {
    processor
        .read_input(&PortInputReference { instance, port }, token)
        .expect("input reference resolves")
}

fn read_output(processor: &Processor<Module>, instance: u128, port: usize, half: usize) -> Port<Block> {
    processor
        .read_output(&PortOutputReference { instance, port }, half)
        .expect("output reference resolves")
}

#[test]
fn connect_yields_zero_initialized_read() {
    let mut p: Processor<Module> = Processor::new();
    add_kind(&mut p, CONSTANT_MODULE_ID, 1, 7);
    add_kind(&mut p, MULTIPLE_MODULE_ID, 2, 0);
    p.connect(
        &PortOutputReference { instance: 1, port: 0 },
        &PortInputReference { instance: 2, port: 0 },
    )
    .expect("connect succeeds");
    // Before any block ran, a read through the new connection sees the
    // all-zeros block, in either half.
    for token in 0..2 {
        match read_input(&p, 2, 0, token) {
            Port::Connected(b) => assert_eq!(b.samples(), &vec![0u64; 64]),
            Port::Disconnected => panic!("connection should be live"),
        }
    }
}

#[test]
fn one_block_latency() {
    let mut p: Processor<Module> = Processor::new();
    add_kind(&mut p, CONSTANT_MODULE_ID, 1, 41);
    add_kind(&mut p, MULTIPLE_MODULE_ID, 2, 0);
    p.connect(
        &PortOutputReference { instance: 1, port: 0 },
        &PortInputReference { instance: 2, port: 0 },
    )
    .expect("connect succeeds");
    // Iteration 0 writes half 0; a reader of iteration 0 sees zeros.
    p.process(0);
    match read_input(&p, 2, 0, 1) {
        // Token 1 is what iteration 1 uses: it reads half 0, published in
        // iteration 0.
        Port::Connected(b) => assert_eq!(b.samples(), &vec![41u64; 64]),
        Port::Disconnected => panic!("connection should be live"),
    }
    // What iteration 0 itself read (half 1) is still the zero block.
    match read_input(&p, 2, 0, 0) {
        Port::Connected(b) => assert_eq!(b.samples(), &vec![0u64; 64]),
        Port::Disconnected => panic!("connection should be live"),
    }
}

#[test]
fn multiple_copies_previous_block_to_all_four_outputs() {
    let mut p: Processor<Module> = Processor::new();
    add_kind(&mut p, CONSTANT_MODULE_ID, 1, 9);
    add_kind(&mut p, MULTIPLE_MODULE_ID, 2, 0);
    p.connect(
        &PortOutputReference { instance: 1, port: 0 },
        &PortInputReference { instance: 2, port: 0 },
    )
    .expect("source to multiple");
    // Tap every output of the multiple so it owns buffers to write into.
    add_kind(&mut p, AUDIO_OUTPUT_MODULE_ID, 3, 0);
    for port in 0..4 {
        p.connect(
            &PortOutputReference { instance: 2, port },
            &PortInputReference { instance: 3, port },
        )
        .expect("multiple to sink");
    }
    // Iteration 0: the multiple still reads zeros, and writes zeros.
    p.process(0);
    for port in 0..4 {
        match read_output(&p, 2, port, 0) {
            Port::Connected(b) => assert_eq!(b.samples(), &vec![0u64; 64]),
            Port::Disconnected => panic!("output should be live"),
        }
    }
    // Every later iteration: all four outputs carry the block the source
    // published one iteration earlier.
    for k in 1..6u64 {
        p.process(k);
        let half = (k % 2) as usize;
        for port in 0..4 {
            match read_output(&p, 2, port, half) {
                Port::Connected(b) => assert_eq!(b.samples(), &vec![9u64; 64]),
                Port::Disconnected => panic!("output should be live"),
            }
        }
    }
}

#[test]
fn changing_signal_arrives_one_block_late_regardless_of_order() {
    // One consumer inserted after its producer, one before: both see the
    // producer's block of the previous iteration, never the current one.
    let mut p: Processor<Module> = Processor::new();
    add_kind(&mut p, MULTIPLE_MODULE_ID, 1, 0);  // consumer inserted first
    add_kind(&mut p, CONSTANT_MODULE_ID, 2, 0);  // the producer
    add_kind(&mut p, MULTIPLE_MODULE_ID, 3, 0);  // consumer inserted last
    p.connect(
        &PortOutputReference { instance: 2, port: 0 },
        &PortInputReference { instance: 1, port: 0 },
    )
    .expect("fan-in to early consumer");
    // One-to-one connections: give the late consumer its own source.
    add_kind(&mut p, CONSTANT_MODULE_ID, 4, 0);
    p.connect(
        &PortOutputReference { instance: 4, port: 0 },
        &PortInputReference { instance: 3, port: 0 },
    )
    .expect("fan-in to late consumer");
    let mut previous: u64 = 0;
    for k in 0..8u64 {
        // A control-phase edit before each block: the sources publish k.
        match p.module_mut(2) {
            Module::Constant(c) => c.set_value(&Block::splat(k)),
            _ => panic!("expected the constant source"),
        }
        match p.module_mut(4) {
            Module::Constant(c) => c.set_value(&Block::splat(k)),
            _ => panic!("expected the constant source"),
        }
        p.process(k);
        // During block k both consumers read the value of block k - 1.
        let reader_half = (k % 2) as usize;
        for consumer in [1u128, 3u128] {
            match read_input(&p, consumer, 0, reader_half) {
                Port::Connected(b) => assert_eq!(b.samples(), &vec![previous; 64]),
                Port::Disconnected => panic!("connection should be live"),
            }
        }
        previous = k;
    }
}

#[test]
fn connect_disconnect_round_trip_repeated() {
    let mut p: Processor<Module> = Processor::new();
    add_kind(&mut p, CONSTANT_MODULE_ID, 1, 3);
    add_kind(&mut p, MULTIPLE_MODULE_ID, 2, 0);
    let oref = PortOutputReference { instance: 1, port: 0 };
    let iref = PortInputReference { instance: 2, port: 0 };
    for _ in 0..10_000 {
        p.connect(&oref, &iref).expect("connect succeeds");
        p.disconnect(&iref).expect("disconnect succeeds");
    }
    // Both ends stand disconnected again.
    assert!(matches!(read_output(&p, 1, 0, 0), Port::Disconnected));
    assert!(matches!(read_input(&p, 2, 0, 0), Port::Disconnected));
}

#[test]
fn connect_rejects_wrong_states() {
    let mut p: Processor<Module> = Processor::new();
    add_kind(&mut p, CONSTANT_MODULE_ID, 1, 0);
    add_kind(&mut p, MULTIPLE_MODULE_ID, 2, 0);
    let oref = PortOutputReference { instance: 1, port: 0 };
    let iref = PortInputReference { instance: 2, port: 0 };
    // Unknown instance or port position: not found.
    assert_eq!(
        p.connect(&PortOutputReference { instance: 9, port: 0 }, &iref),
        Err(Error::NotFound)
    );
    assert_eq!(
        p.connect(&PortOutputReference { instance: 1, port: 5 }, &iref),
        Err(Error::NotFound)
    );
    // Connecting twice: the ports are no longer disconnected.
    p.connect(&oref, &iref).expect("first connect succeeds");
    assert_eq!(p.connect(&oref, &iref), Err(Error::InvalidState));
    // Disconnecting what is not connected: invalid state.
    p.disconnect(&iref).expect("disconnect succeeds");
    assert_eq!(p.disconnect(&iref), Err(Error::InvalidState));
    // Disconnecting an unknown reference: not found.
    assert_eq!(
        p.disconnect(&PortInputReference { instance: 9, port: 0 }),
        Err(Error::NotFound)
    );
}

#[test]
fn add_replaces_under_same_identifier() {
    let mut p: Processor<Module> = Processor::new();
    add_kind(&mut p, CONSTANT_MODULE_ID, 1, 0);
    assert_eq!(p.len(), 1);
    add_kind(&mut p, MULTIPLE_MODULE_ID, 1, 0);
    assert_eq!(p.len(), 1);
    // The replacement is the new kind: it now has an input port.
    assert!(p.read_input(&PortInputReference { instance: 1, port: 0 }, 0).is_some());
}

#[test]
fn remove_invalidates_dangling_connections() {
    let mut p: Processor<Module> = Processor::new();
    add_kind(&mut p, CONSTANT_MODULE_ID, 1, 5);
    add_kind(&mut p, MULTIPLE_MODULE_ID, 2, 0);
    p.connect(
        &PortOutputReference { instance: 1, port: 0 },
        &PortInputReference { instance: 2, port: 0 },
    )
    .expect("connect succeeds");
    p.remove(1);
    assert_eq!(p.len(), 1);
    // The input still holds its reference, but the read resolves to
    // nothing: the connection is invalidated, and the engine keeps
    // running.
    assert!(matches!(read_input(&p, 2, 0, 0), Port::Disconnected));
    p.process(0);
    p.process(1);
    // Removing an absent identifier is silent.
    p.remove(9);
    assert_eq!(p.len(), 1);
}

#[test]
fn fifty_pairs_run_many_iterations() {
    let mut p: Processor<Module> = Processor::new();
    for pair in 0..50u128 {
        let source = 2 * pair + 1;
        let mult = 2 * pair + 2;
        add_kind(&mut p, CONSTANT_MODULE_ID, source, pair as u64);
        add_kind(&mut p, MULTIPLE_MODULE_ID, mult, 0);
        p.connect(
            &PortOutputReference { instance: source, port: 0 },
            &PortInputReference { instance: mult, port: 0 },
        )
        .expect("connect succeeds");
    }
    assert_eq!(p.len(), 100);
    for k in 0..750u64 {
        p.process(k);
    }
    // Spot check: the last pair's multiple still reads its own source.
    match read_input(&p, 100, 0, (750 % 2) as usize) {
        Port::Connected(b) => assert_eq!(b.samples(), &vec![49u64; 64]),
        Port::Disconnected => panic!("connection should be live"),
    }
}
