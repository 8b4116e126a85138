use rodio::stream::{
    BufferSize, DecoderError, DeviceModel, HostModel, OpenParams, OutputStream,
    OutputStreamBuilder, OutputStreamConfig, PlayError, SampleFormat, StreamConfig, StreamError,
    SupportedBufferSize, SupportedStreamConfig, SupportedStreamConfigRange,
};

fn accepting_device(accepts: Vec<OpenParams>) -> DeviceModel {
    DeviceModel {
        default_config: Some(SupportedStreamConfig {
            channels: 2,
            sample_rate: 48000,
            buffer_size: SupportedBufferSize::Unknown,
            sample_format: SampleFormat::F32,
        }),
        supported_configs: Some(vec![SupportedStreamConfigRange {
            channels: 1,
            min_sample_rate: 8000,
            max_sample_rate: 96000,
            buffer_size: SupportedBufferSize::Unknown,
            sample_format: SampleFormat::I16,
        }]),
        accepts,
        fails_to_play: false,
    }
}

#[test]
fn builder_defaults() {
    let builder = OutputStreamBuilder::default();
    assert!(builder.device.is_none());
    assert_eq!(
        builder.config,
        OutputStreamConfig {
            channel_count: 2,
            sample_rate: 44100,
            buffer_size: BufferSize::Default,
            sample_format: SampleFormat::I8,
        }
    );
}

#[test]
fn builder_setters() {
    let builder = OutputStreamBuilder::default()
        .with_channels(6)
        .with_sample_rate(96000)
        .with_buffer_size(BufferSize::Fixed(256))
        .with_sample_format(SampleFormat::F64);
    assert_eq!(
        builder.config,
        OutputStreamConfig {
            channel_count: 6,
            sample_rate: 96000,
            buffer_size: BufferSize::Fixed(256),
            sample_format: SampleFormat::F64,
        }
    );
}

#[test]
fn supported_config_clamps_buffer_size() {
    let mut supported = SupportedStreamConfig {
        channels: 2,
        sample_rate: 48000,
        buffer_size: SupportedBufferSize::Range { min: 1024, max: 2048 },
        sample_format: SampleFormat::I16,
    };
    let builder = OutputStreamBuilder::default().with_supported_config(&supported);
    assert_eq!(builder.config.buffer_size, BufferSize::Fixed(1024));
    assert_eq!(builder.config.channel_count, 2);
    assert_eq!(builder.config.sample_rate, 48000);
    assert_eq!(builder.config.sample_format, SampleFormat::I16);

    supported.buffer_size = SupportedBufferSize::Range { min: 64, max: 256 };
    let builder = OutputStreamBuilder::default().with_supported_config(&supported);
    assert_eq!(builder.config.buffer_size, BufferSize::Fixed(256));

    supported.buffer_size = SupportedBufferSize::Range { min: 64, max: 1024 };
    let builder = OutputStreamBuilder::default().with_supported_config(&supported);
    assert_eq!(builder.config.buffer_size, BufferSize::Fixed(512));

    supported.buffer_size = SupportedBufferSize::Unknown;
    let builder = OutputStreamBuilder::default().with_supported_config(&supported);
    assert_eq!(builder.config.buffer_size, BufferSize::Fixed(512));
}

#[test]
fn with_config_keeps_encoding() {
    let builder = OutputStreamBuilder::default()
        .with_sample_format(SampleFormat::U16)
        .with_config(&StreamConfig {
            channels: 4,
            sample_rate: 22050,
            buffer_size: BufferSize::Fixed(128),
        });
    assert_eq!(builder.config.channel_count, 4);
    assert_eq!(builder.config.sample_rate, 22050);
    assert_eq!(builder.config.buffer_size, BufferSize::Fixed(128));
    assert_eq!(builder.config.sample_format, SampleFormat::U16);
}

#[test]
fn open_stream_on_accepting_device() {
    let device = accepting_device(vec![OpenParams {
        channel_count: 2,
        sample_rate: 48000,
        sample_format: SampleFormat::F32,
    }]);
    let builder = OutputStreamBuilder::from_device(device).unwrap();
    let stream = builder.open_stream().unwrap();
    assert_eq!(stream.config.channel_count, 2);
    assert_eq!(stream.config.sample_rate, 48000);
    assert_eq!(stream.config.buffer_size, BufferSize::Fixed(512));
    let mixer = stream.mixer();
    assert_eq!(mixer.channels, 2);
    assert_eq!(mixer.sample_rate, 48000);
}

#[test]
fn open_stream_on_rejecting_device() {
    let device = accepting_device(vec![]);
    let builder = OutputStreamBuilder::from_device(device).unwrap();
    assert_eq!(builder.open_stream(), Err(StreamError::BuildStreamError));
}

#[test]
fn open_stream_when_playback_fails() {
    let mut device = accepting_device(vec![OpenParams {
        channel_count: 2,
        sample_rate: 48000,
        sample_format: SampleFormat::F32,
    }]);
    device.fails_to_play = true;
    let builder = OutputStreamBuilder::from_device(device).unwrap();
    assert_eq!(builder.open_stream(), Err(StreamError::PlayStreamError));
}

#[test]
fn from_device_without_default_config() {
    let mut device = accepting_device(vec![]);
    device.default_config = None;
    assert_eq!(
        OutputStreamBuilder::from_device(device).err(),
        Some(StreamError::DefaultStreamConfigError)
    );
}

#[test]
fn try_open_stream_falls_back() {
    // The device rejects its own default configuration (2 channels at 48000
    // in 32-bit floating) but accepts a secondary supported one: one channel
    // at its maximum rate in 16-bit integers.
    let device = accepting_device(vec![OpenParams {
        channel_count: 1,
        sample_rate: 96000,
        sample_format: SampleFormat::I16,
    }]);
    let builder = OutputStreamBuilder::from_device(device).unwrap();
    assert_eq!(builder.config.channel_count, 2);
    assert_eq!(builder.config.sample_rate, 48000);

    let stream = builder.try_open_stream().unwrap();
    assert_eq!(stream.config.channel_count, 1);
    assert_eq!(stream.config.sample_rate, 96000);
    assert_eq!(stream.config.sample_format, SampleFormat::I16);
    let mixer = stream.mixer();
    assert_eq!(mixer.channels, 1);
    assert_eq!(mixer.sample_rate, 96000);
}

#[test]
fn try_open_stream_prefers_nominal_rate_over_minimum() {
    // Neither the default configuration nor the maximum rate is accepted;
    // the nominal rate lies strictly inside the supported range and is tried
    // before the minimum.
    let device = accepting_device(vec![
        OpenParams {
            channel_count: 1,
            sample_rate: 44100,
            sample_format: SampleFormat::I16,
        },
        OpenParams {
            channel_count: 1,
            sample_rate: 8000,
            sample_format: SampleFormat::I16,
        },
    ]);
    let builder = OutputStreamBuilder::from_device(device).unwrap();
    let stream = builder.try_open_stream().unwrap();
    assert_eq!(stream.config.sample_rate, 44100);
}

#[test]
fn try_open_stream_propagates_original_error() {
    let device = accepting_device(vec![]);
    let builder = OutputStreamBuilder::from_device(device).unwrap();
    assert_eq!(builder.try_open_stream(), Err(StreamError::BuildStreamError));
}

#[test]
fn try_open_stream_aborts_on_query_failure() {
    let mut device = accepting_device(vec![]);
    device.supported_configs = None;
    let builder = OutputStreamBuilder::from_device(device).unwrap();
    assert_eq!(
        builder.try_open_stream(),
        Err(StreamError::SupportedStreamConfigsError)
    );
}

#[test]
fn try_default_stream_uses_default_device() {
    let host = HostModel {
        default_device: Some(accepting_device(vec![OpenParams {
            channel_count: 2,
            sample_rate: 48000,
            sample_format: SampleFormat::F32,
        }])),
        output_devices: None,
    };
    let stream = OutputStreamBuilder::try_default_stream(host).unwrap();
    assert_eq!(stream.config.channel_count, 2);
    assert_eq!(stream.config.sample_rate, 48000);
}

#[test]
fn try_default_stream_falls_back_across_devices() {
    let working = accepting_device(vec![OpenParams {
        channel_count: 1,
        sample_rate: 96000,
        sample_format: SampleFormat::I16,
    }]);
    let host = HostModel {
        default_device: None,
        output_devices: Some(vec![accepting_device(vec![]), working]),
    };
    let stream = OutputStreamBuilder::try_default_stream(host).unwrap();
    assert_eq!(stream.config.channel_count, 1);
    assert_eq!(stream.config.sample_rate, 96000);
}

#[test]
fn try_default_stream_without_any_device() {
    let host = HostModel {
        default_device: None,
        output_devices: None,
    };
    assert_eq!(
        OutputStreamBuilder::try_default_stream(host),
        Err(StreamError::NoDevice)
    );
}

#[test]
fn try_default_stream_keeps_original_error() {
    // The default device fails on its default configuration and every
    // fallback attempt fails too: the first error is the one reported.
    let host = HostModel {
        default_device: Some(accepting_device(vec![])),
        output_devices: Some(vec![accepting_device(vec![])]),
    };
    assert_eq!(
        OutputStreamBuilder::try_default_stream(host),
        Err(StreamError::BuildStreamError)
    );
}

#[test]
fn stream_config_from_output_config() {
    let config = OutputStreamConfig {
        channel_count: 2,
        sample_rate: 44100,
        buffer_size: BufferSize::Fixed(256),
        sample_format: SampleFormat::I32,
    };
    let plain = StreamConfig::from(config);
    assert_eq!(plain.channels, 2);
    assert_eq!(plain.sample_rate, 44100);
    assert_eq!(plain.buffer_size, BufferSize::Fixed(256));
}

#[test]
fn play_error_from_decoder_error() {
    let err = DecoderError { message: String::from("bad header") };
    let play_err = PlayError::from(err.clone());
    assert_eq!(play_err, PlayError::DecoderError(err));
}

#[test]
fn output_stream_is_plain_data() {
    let device = accepting_device(vec![OpenParams {
        channel_count: 2,
        sample_rate: 48000,
        sample_format: SampleFormat::F32,
    }]);
    let config = OutputStreamConfig {
        channel_count: 2,
        sample_rate: 48000,
        buffer_size: BufferSize::Default,
        sample_format: SampleFormat::F32,
    };
    let stream = OutputStream::open(&device, &config).unwrap();
    assert_eq!(stream.config, config);
}

#[test]
fn error_messages() {
    assert_eq!(StreamError::NoDevice.message(), "NoDevice");
    assert_eq!(
        StreamError::BuildStreamError.message(),
        "the device rejected the configuration"
    );
    assert_eq!(PlayError::NoDevice.message(), "NoDevice");
    let err = PlayError::DecoderError(DecoderError { message: String::from("bad header") });
    assert_eq!(err.message(), "bad header");
}
