//! The audio boundary's data: device filtering, stream parameters and
//! options, configuration, and the fault constructors.

use open_modular::config::{Configuration, ConfigurationStream};
use open_modular::device::{
    Device, DeviceChannels, DeviceDefaults, DeviceFormats, DeviceName, DeviceOutputFilter,
    DeviceRates, FORMAT_FLOAT32, FORMAT_SINT16,
};
use open_modular::error::{Error, GeneralError, ParameterisationError, RtAudioError};
use open_modular::runtime::AudioOutput;
use open_modular::stream::{
    StreamBuffersInfo, StreamChannelsInfo, StreamOptions, StreamParameters, StreamSamplesInfo,
};

fn device(id: u32, output_channels: u32, formats: u64, rates: Vec<u32>) -> Device {
    Device {
        id,
        name: DeviceName { name: format!("device {id}") },
        channels: DeviceChannels { duplex: 0, input: 0, output: output_channels },
        defaults: DeviceDefaults { input: false, output: false },
        formats: DeviceFormats { bits: formats },
        rates: DeviceRates { available: rates, preferred: 48_000 },
    }
}

#[test]
fn output_filter_keeps_usable_devices() {
    let listing = vec![
        // Usable: stereo, float samples, the engine's rate.
        device(1, 2, FORMAT_FLOAT32, vec![44_100, 48_000]),
        // Too few output channels.
        device(2, 1, FORMAT_FLOAT32, vec![48_000]),
        // No 32-bit float support.
        device(3, 8, FORMAT_SINT16, vec![48_000]),
        // The engine's sample rate is not offered.
        device(4, 2, FORMAT_FLOAT32, vec![44_100]),
        // Usable again, with more formats than needed.
        device(5, 16, FORMAT_FLOAT32 | FORMAT_SINT16, vec![48_000, 96_000]),
    ];
    let usable = listing.output();
    assert_eq!(usable.len(), 2);
    assert_eq!(usable[0].id, 1);
    assert_eq!(usable[1].id, 5);
}

#[test]
fn format_flags_contain() {
    let formats = DeviceFormats { bits: FORMAT_FLOAT32 | FORMAT_SINT16 };
    assert!(formats.contains(FORMAT_FLOAT32));
    assert!(formats.contains(FORMAT_SINT16));
    assert!(formats.contains(FORMAT_FLOAT32 | FORMAT_SINT16));
    assert!(!formats.contains(0x8));
}

#[test]
fn stream_parameters_builder_defaults() {
    let parameters: StreamParameters = StreamParameters::for_device(7).build();
    assert_eq!(parameters.device, 7);
    assert_eq!(parameters.channels, 2);
    assert_eq!(parameters.channels_offset, 0);
    let parameters = StreamParameters::for_device(7).channels(8).channels_offset(2).build();
    assert_eq!(parameters.channels, 8);
    assert_eq!(parameters.channels_offset, 2);
}

#[test]
fn stream_info_constants() {
    let buffers = StreamBuffersInfo::new();
    assert_eq!(buffers.frames, 64);
    assert!(!buffers.interleaved);
    let channels = StreamChannelsInfo::new(0, 2);
    assert_eq!(channels.input, 0);
    assert_eq!(channels.output, 2);
    let samples = StreamSamplesInfo::new();
    assert_eq!(samples.format, FORMAT_FLOAT32);
    assert_eq!(samples.rate, 48_000);
    let options = StreamOptions::default();
    assert_eq!(options.buffers, 4);
    assert_eq!(options.flags, 0);
    assert_eq!(options.name, "");
    assert_eq!(options.priority, -1);
}

#[test]
fn configuration_carries_its_fields() {
    let configuration =
        Configuration::new("pulse".to_string(), ConfigurationStream::new(131, 2));
    assert_eq!(configuration.api, "pulse");
    assert_eq!(configuration.output.device, 131);
    assert_eq!(configuration.output.channels, 2);
}

#[test]
fn audio_output_description() {
    let output = AudioOutput::new(2, 131, "card".to_string());
    assert_eq!(output.channels, 2);
    assert_eq!(output.id, 131);
    assert_eq!(output.name, "card");
}

#[test]
fn error_constructors_carry_their_context() {
    let general = GeneralError::create("no apis available".to_string());
    assert!(matches!(general, Error::General { .. }));
    assert_eq!(general.message(), "no apis available");
    let parameterisation = ParameterisationError::create("invalid sample rate".to_string());
    assert!(matches!(parameterisation, Error::Parameterisation { .. }));
    assert_eq!(parameterisation.message(), "invalid sample rate");
    let rtaudio = RtAudioError::create(3, "rtaudio validation error".to_string());
    match &rtaudio {
        Error::RtAudio { code, message } => {
            assert_eq!(*code, 3);
            assert_eq!(message, "rtaudio validation error");
        },
        other => panic!("expected a platform fault, got {other:?}"),
    }
}
