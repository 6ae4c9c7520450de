//! The worked tone example: sine blocks computed at the boundary are
//! carried through the engine bit-for-bit, and the accumulated oscillator
//! phase stays within tolerance of the ideal waveform across 750 blocks.

use open_modular::block::Block;
use open_modular::module::ModuleSource;
use open_modular::modules::{CONSTANT_MODULE_ID, MULTIPLE_MODULE_ID, Module, ModuleContext};
use open_modular::port::{Port, PortInputReference, PortOutputReference};
use open_modular::processor::Processor;

#[test]
fn sine_fed_source_reproduces_the_waveform() {
    let mut p: Processor<Module> = Processor::new();
    let context = ModuleContext { constant_value: 0 };
    let (source, si, so) = Module::get(CONSTANT_MODULE_ID, &context).expect("known kind");
    p.add(1, source, si, so);
    let (mult, mi, mo) = Module::get(MULTIPLE_MODULE_ID, &context).expect("known kind");
    p.add(2, mult, mi, mo);
    p.connect(
        &PortOutputReference { instance: 1, port: 0 },
        &PortInputReference { instance: 2, port: 0 },
    )
    .expect("connect succeeds");

    let tau = std::f64::consts::TAU;
    let factor = 440.0 * tau;
    let increment = 1.0 / 48_000.0;
    let scale = 0.15;
    // The oscillator's running time vector: advanced one block before each
    // output, as the boundary-side oscillator does.
    let mut time: Vec<f64> = (0..64).map(|i| i as f64 * increment).collect();

    for k in 0..750u64 {
        for t in time.iter_mut() {
            *t += 64.0 * increment;
        }
        let samples: Vec<u64> =
            time.iter().map(|t| ((t * factor).sin() * scale).to_bits()).collect();
        match p.module_mut(1) {
            Module::Constant(c) => c.set_value(&Block::from_samples(samples)),
            _ => panic!("expected the constant source"),
        }
        p.process(k);
        // What a reader of the next block sees is exactly block k's write:
        // sampled against the ideal waveform, the accumulated phase stays
        // within 1e-10.
        let next_token = ((k + 1) % 2) as usize;
        match p
            .read_input(&PortInputReference { instance: 2, port: 0 }, next_token)
            .expect("input reference resolves")
        {
            Port::Connected(b) => {
                for (i, bits) in b.samples().iter().enumerate() {
                    let carried = f64::from_bits(*bits);
                    let t = (i as f64 + 64.0 * (k as f64 + 1.0)) * increment;
                    let ideal = (t * factor).sin() * scale;
                    assert!(
                        (carried - ideal).abs() < 1e-10,
                        "block {k} frame {i}: carried {carried}, ideal {ideal}"
                    );
                }
            },
            Port::Disconnected => panic!("connection should be live"),
        }
    }
}
