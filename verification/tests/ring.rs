//! The edit ring: bounded capacity, first-in first-out order, and
//! back-pressure that returns the rejected command verbatim.

use open_modular::bus::{BUS_CAPACITY, Bus};
use open_modular::protocol::{Protocol, ProtocolAdd, ProtocolConnect};

fn add_command(n: u128) -> Protocol {
    Protocol::Add(ProtocolAdd { instance: n, module: n + 1000 })
}

#[test]
fn ring_keeps_commands_in_order() {
    let mut bus = Bus::new();
    for n in 0..5u128 {
        assert!(bus.send(add_command(n)).is_none());
    }
    assert_eq!(bus.len(), 5);
    for n in 0..5u128 {
        assert_eq!(bus.receive(), Some(add_command(n)));
    }
    assert!(bus.is_empty());
    assert_eq!(bus.receive(), None);
}

#[test]
fn ring_backpressure_returns_excess_commands() {
    let mut bus = Bus::default();
    // Saturate the ring with five commands more than its capacity: the
    // first BUS_CAPACITY all go in, exactly five come straight back.
    let mut rejected = Vec::new();
    for n in 0..(BUS_CAPACITY as u128 + 5) {
        let command = Protocol::Connect(ProtocolConnect {
            input_instance: n,
            input_port: 0,
            output_instance: n + 500,
            output_port: 1,
        });
        if let Some(back) = bus.send(command.clone()) {
            // The rejected command comes back verbatim.
            assert_eq!(back, command);
            rejected.push(back);
        }
    }
    assert_eq!(rejected.len(), 5);
    assert_eq!(bus.len(), BUS_CAPACITY);
    // The accepted commands drain in the order they were sent.
    for n in 0..BUS_CAPACITY as u128 {
        match bus.receive() {
            Some(Protocol::Connect(c)) => {
                assert_eq!(c.input_instance, n);
                assert_eq!(c.output_instance, n + 500);
            },
            other => panic!("expected a connect command, got {other:?}"),
        }
    }
    assert!(bus.is_empty());
}
