//! Hardware output bridge: negotiating a working device configuration.
//!
//! A builder accumulates the wanted channel count, sample rate, buffer size
//! and sample encoding, then opens a stream from them. `open_stream` attempts
//! exactly the configured parameters; `try_open_stream` falls back across the
//! device's own supported configurations; `try_default_stream` additionally
//! falls back across every other enumerable output device.
//!
//! The device itself belongs to the host audio subsystem. What negotiation
//! reads of it stands here as plain values in `DeviceModel` and `HostModel`:
//! its default configuration, its supported configurations in the device's
//! own preference order, which parameter combinations it accepts a stream
//! with, and whether it can start playback. An adapter around the host
//! subsystem fills these in; every decision taken over them is verified.

use vstd::prelude::*;
use crate::common::{ChannelCount, SampleRate};

verus! {

/// The nominal sample rate tried during fallback when a configuration
/// supports it.
pub const HZ_44100: SampleRate = 44100;

/// The preferred buffer size, clamped into the device's supported range.
pub const PREFERRED_BUFFER_SIZE: u32 = 512;

/// A sample encoding the device buffer may use. Every encoding listed here
/// has a statically known conversion rule from the internal representation.
#[derive(Clone, Copy, PartialEq, Eq, Structural, Debug)]
pub enum SampleFormat {
    I8,
    I16,
    I32,
    I64,
    U8,
    U16,
    U32,
    U64,
    F32,
    F64,
}

/// The buffer size a stream is opened with.
#[derive(Clone, Copy, PartialEq, Eq, Structural, Debug)]
pub enum BufferSize {
    /// Let the device pick its default.
    Default,
    /// A fixed number of frames.
    Fixed(u32),
}

/// The buffer sizes a device reports as supported.
#[derive(Clone, Copy, PartialEq, Eq, Structural, Debug)]
pub enum SupportedBufferSize {
    Range { min: u32, max: u32 },
    Unknown,
}

/// The configuration an output stream is opened with.
#[derive(Clone, Copy, PartialEq, Eq, Structural, Debug)]
pub struct OutputStreamConfig {
    pub channel_count: ChannelCount,
    pub sample_rate: SampleRate,
    pub buffer_size: BufferSize,
    pub sample_format: SampleFormat,
}

impl OutputStreamConfig {
    /// The starting configuration: stereo at the nominal rate, the device's
    /// default buffer size, and the narrowest integer encoding.
    pub open spec fn spec_default() -> OutputStreamConfig {
        OutputStreamConfig {
            channel_count: 2,
            sample_rate: HZ_44100,
            buffer_size: BufferSize::Default,
            sample_format: SampleFormat::I8,
        }
    }
}

impl Default for OutputStreamConfig {
    fn default() -> (r: Self)
        ensures
            r == OutputStreamConfig::spec_default(),
    {
        OutputStreamConfig {
            channel_count: 2,
            sample_rate: HZ_44100,
            buffer_size: BufferSize::Default,
            sample_format: SampleFormat::I8,
        }
    }
}

/// A device-supported configuration at one concrete sample rate.
#[derive(Clone, Copy, PartialEq, Eq, Structural, Debug)]
pub struct SupportedStreamConfig {
    pub channels: ChannelCount,
    pub sample_rate: SampleRate,
    pub buffer_size: SupportedBufferSize,
    pub sample_format: SampleFormat,
}

/// A device-supported configuration: fixed channel count, buffer sizes and
/// encoding over a range of sample rates.
#[derive(Clone, Copy, PartialEq, Eq, Structural, Debug)]
pub struct SupportedStreamConfigRange {
    pub channels: ChannelCount,
    pub min_sample_rate: SampleRate,
    pub max_sample_rate: SampleRate,
    pub buffer_size: SupportedBufferSize,
    pub sample_format: SampleFormat,
}

impl SupportedStreamConfigRange {
    pub open spec fn wf(&self) -> bool {
        self.min_sample_rate <= self.max_sample_rate
    }

    /// This configuration pinned at one sample rate.
    pub open spec fn spec_at_rate(self, rate: SampleRate) -> SupportedStreamConfig {
        SupportedStreamConfig {
            channels: self.channels,
            sample_rate: rate,
            buffer_size: self.buffer_size,
            sample_format: self.sample_format,
        }
    }

    /// This configuration pinned at one sample rate.
    pub fn at_rate(&self, rate: SampleRate) -> (r: SupportedStreamConfig)
        ensures
            r == self.spec_at_rate(rate),
    {
        SupportedStreamConfig {
            channels: self.channels,
            sample_rate: rate,
            buffer_size: self.buffer_size,
            sample_format: self.sample_format,
        }
    }
}

/// The parameter combination a device checks when a stream is opened.
#[derive(Clone, Copy, PartialEq, Eq, Structural, Debug)]
pub struct OpenParams {
    pub channel_count: ChannelCount,
    pub sample_rate: SampleRate,
    pub sample_format: SampleFormat,
}

/// What this core reads of one output device, as plain values: its default
/// configuration (when querying it succeeds), its supported configurations in
/// the device's own preference order (when enumerating them succeeds), the
/// parameter combinations it accepts a stream with, and whether it can start
/// playback of an accepted stream.
pub struct DeviceModel {
    pub default_config: Option<SupportedStreamConfig>,
    pub supported_configs: Option<Vec<SupportedStreamConfigRange>>,
    pub accepts: Vec<OpenParams>,
    pub fails_to_play: bool,
}

impl DeviceModel {
    pub open spec fn wf(&self) -> bool {
        match self.supported_configs {
            Some(ranges) => forall|i: int|
                0 <= i < ranges@.len() ==> (#[trigger] ranges@[i]).wf(),
            None => true,
        }
    }

    /// Whether the device accepts a stream with this configuration.
    pub open spec fn spec_accepts(&self, config: OutputStreamConfig) -> bool {
        exists|i: int|
            0 <= i < self.accepts@.len() && self.accepts@[i] == spec_params_of(config)
    }
}

/// What this core reads of the host audio subsystem: its default output
/// device and its enumerable output devices, when either query succeeds.
pub struct HostModel {
    pub default_device: Option<DeviceModel>,
    pub output_devices: Option<Vec<DeviceModel>>,
}

impl HostModel {
    pub open spec fn wf(&self) -> bool {
        &&& match self.default_device {
            Some(d) => d.wf(),
            None => true,
        }
        &&& match self.output_devices {
            Some(devs) => forall|i: int|
                0 <= i < devs@.len() ==> (#[trigger] devs@[i]).wf(),
            None => true,
        }
    }
}

/// The parameters the device checks in `config`.
pub open spec fn spec_params_of(config: OutputStreamConfig) -> OpenParams {
    OpenParams {
        channel_count: config.channel_count,
        sample_rate: config.sample_rate,
        sample_format: config.sample_format,
    }
}

/// An error that occurred opening an output stream.
#[derive(Clone, Copy, PartialEq, Eq, Structural, Debug)]
pub enum StreamError {
    /// The device accepted the configuration but could not begin playback.
    PlayStreamError,
    /// Querying the device's default configuration failed.
    DefaultStreamConfigError,
    /// The device rejected the requested configuration.
    BuildStreamError,
    /// Enumerating the device's supported configurations failed.
    SupportedStreamConfigsError,
    /// No output device is available.
    NoDevice,
}

impl StreamError {
    /// What `message` reports for each failure.
    pub open spec fn spec_message(&self) -> Seq<char> {
        match self {
            StreamError::PlayStreamError => "the device could not begin playback"@,
            StreamError::DefaultStreamConfigError => "no default stream configuration"@,
            StreamError::BuildStreamError => "the device rejected the configuration"@,
            StreamError::SupportedStreamConfigsError => "could not query stream configurations"@,
            StreamError::NoDevice => "NoDevice"@,
        }
    }

    /// A short description of the failure, in place of a formatting trait.
    pub fn message(&self) -> (r: &'static str)
        ensures
            r@ == self.spec_message(),
    {
        match self {
            StreamError::PlayStreamError => "the device could not begin playback",
            StreamError::DefaultStreamConfigError => "no default stream configuration",
            StreamError::BuildStreamError => "the device rejected the configuration",
            StreamError::SupportedStreamConfigsError => "could not query stream configurations",
            StreamError::NoDevice => "NoDevice",
        }
    }
}

/// The externally-owned decoder could not interpret its input bytes.
#[derive(Clone, PartialEq, Eq, Debug)]
pub struct DecoderError {
    pub message: String,
}

/// An error that occurred while attempting to play a sound.
#[derive(Clone, PartialEq, Eq, Debug)]
pub enum PlayError {
    /// Attempting to decode the audio failed.
    DecoderError(DecoderError),
    /// The output device was lost.
    NoDevice,
}

impl PlayError {
    /// A short description of the failure, in place of a formatting trait:
    /// the decoder's own message, or the lost-device note.
    pub fn message(&self) -> (r: &str)
        ensures
            match self {
                PlayError::DecoderError(e) => r@ == e.message@,
                PlayError::NoDevice => r@ == "NoDevice"@,
            },
    {
        match self {
            PlayError::DecoderError(e) => e.message.as_str(),
            PlayError::NoDevice => "NoDevice",
        }
    }
}

impl From<DecoderError> for PlayError {
    fn from(err: DecoderError) -> (r: Self)
        ensures
            r == PlayError::DecoderError(err),
    {
        PlayError::DecoderError(err)
    }
}

impl vstd::std_specs::convert::FromSpecImpl<DecoderError> for PlayError {
    open spec fn obeys_from_spec() -> bool {
        true
    }

    open spec fn from_spec(err: DecoderError) -> Self {
        PlayError::DecoderError(err)
    }
}

/// Handle to the externally-owned mixer that feeds a stream. What this core
/// reads of it is its output format; merging and resampling are outside it.
#[derive(Clone, Copy, PartialEq, Eq, Structural, Debug)]
pub struct Mixer {
    pub channels: ChannelCount,
    pub sample_rate: SampleRate,
}

/// An open output stream. While it lives, the device pulls one sample per
/// buffer slot from the mixer that feeds the stream; dropping it ends
/// playback.
#[derive(Clone, Copy, PartialEq, Eq, Structural, Debug)]
pub struct OutputStream {
    pub config: OutputStreamConfig,
    pub mixer: Mixer,
}

/// The buffer size `PREFERRED_BUFFER_SIZE` clamped into what the device
/// supports.
pub open spec fn spec_clamp_buffer_size(buffer_size: SupportedBufferSize) -> BufferSize {
    match buffer_size {
        SupportedBufferSize::Range { min, max } => if PREFERRED_BUFFER_SIZE < min {
            BufferSize::Fixed(min)
        } else if PREFERRED_BUFFER_SIZE > max {
            BufferSize::Fixed(max)
        } else {
            BufferSize::Fixed(PREFERRED_BUFFER_SIZE)
        },
        SupportedBufferSize::Unknown => BufferSize::Fixed(PREFERRED_BUFFER_SIZE),
    }
}

fn clamp_supported_buffer_size(buffer_size: &SupportedBufferSize) -> (r: BufferSize)
    ensures
        r == spec_clamp_buffer_size(*buffer_size),
{
    match buffer_size {
        SupportedBufferSize::Range { min, max } => {
            if PREFERRED_BUFFER_SIZE < *min {
                BufferSize::Fixed(*min)
            } else if PREFERRED_BUFFER_SIZE > *max {
                BufferSize::Fixed(*max)
            } else {
                BufferSize::Fixed(PREFERRED_BUFFER_SIZE)
            }
        },
        SupportedBufferSize::Unknown => BufferSize::Fixed(PREFERRED_BUFFER_SIZE),
    }
}

/// The stream configuration taken from a device-supported configuration.
pub open spec fn spec_config_from_supported(c: SupportedStreamConfig) -> OutputStreamConfig {
    OutputStreamConfig {
        channel_count: c.channels,
        sample_rate: c.sample_rate,
        buffer_size: spec_clamp_buffer_size(c.buffer_size),
        sample_format: c.sample_format,
    }
}

/// What opening a stream on `device` with `config` returns: the stream when
/// the device accepts the parameters and playback starts; the rejection or
/// the start failure otherwise.
pub open spec fn spec_open(device: DeviceModel, config: OutputStreamConfig) -> Result<
    OutputStream,
    StreamError,
> {
    if !device.spec_accepts(config) {
        Err(StreamError::BuildStreamError)
    } else if device.fails_to_play {
        Err(StreamError::PlayStreamError)
    } else {
        Ok(
            OutputStream {
                config,
                mixer: Mixer {
                    channels: config.channel_count,
                    sample_rate: config.sample_rate,
                },
            },
        )
    }
}

impl OutputStream {
    /// The mixer that feeds this stream.
    pub fn mixer(&self) -> (r: Mixer)
        ensures
            r == self.mixer,
    {
        self.mixer
    }

    /// Opens a stream on `device` with exactly `config`, connecting a mixer
    /// with the configured channel count and rate to it.
    ///
    /// Every encoding this core defines has a conversion rule, so the attempt
    /// fails only when the device rejects the parameters or cannot begin
    /// playback.
    pub fn open(device: &DeviceModel, config: &OutputStreamConfig) -> (r: Result<
        OutputStream,
        StreamError,
    >)
        ensures
            r == spec_open(*device, *config),
    {
        if !device_accepts(device, config) {
            Err(StreamError::BuildStreamError)
        } else if device.fails_to_play {
            Err(StreamError::PlayStreamError)
        } else {
            Ok(
                OutputStream {
                    config: *config,
                    mixer: Mixer {
                        channels: config.channel_count,
                        sample_rate: config.sample_rate,
                    },
                },
            )
        }
    }
}

/// Whether the device accepts a stream with these parameters.
fn device_accepts(device: &DeviceModel, config: &OutputStreamConfig) -> (r: bool)
    ensures
        r == device.spec_accepts(*config),
{
    let params = OpenParams {
        channel_count: config.channel_count,
        sample_rate: config.sample_rate,
        sample_format: config.sample_format,
    };
    let mut i: usize = 0;
    while i < device.accepts.len()
        invariant
            i <= device.accepts.len(),
            params == spec_params_of(*config),
            forall|k: int| 0 <= k < i ==> device.accepts@[k] != params,
        decreases device.accepts.len() - i,
    {
        if device.accepts[i] == params {
            return true;
        }
        i = i + 1;
    }
    false
}

/// The configurations fallback tries for one supported range: its maximum
/// rate; the nominal rate when it lies strictly inside the range; its
/// minimum rate.
pub open spec fn spec_range_candidates(r: SupportedStreamConfigRange) -> Seq<
    SupportedStreamConfig,
> {
    if r.min_sample_rate < HZ_44100 && HZ_44100 < r.max_sample_rate {
        seq![
            r.spec_at_rate(r.max_sample_rate),
            r.spec_at_rate(HZ_44100),
            r.spec_at_rate(r.min_sample_rate),
        ]
    } else {
        seq![r.spec_at_rate(r.max_sample_rate), r.spec_at_rate(r.min_sample_rate)]
    }
}

/// The configurations fallback tries, in order: per supported range (already
/// in the device's preference order), that range's candidates.
pub open spec fn spec_candidates(ranges: Seq<SupportedStreamConfigRange>) -> Seq<
    SupportedStreamConfig,
> {
    ranges.flat_map(|r: SupportedStreamConfigRange| spec_range_candidates(r))
}

/// Every configuration the device offers for fallback, in the order they are
/// tried. Fails when the device cannot enumerate its supported
/// configurations.
fn supported_output_configs(device: &DeviceModel) -> (r: Result<
    Vec<SupportedStreamConfig>,
    StreamError,
>)
    ensures
        match device.supported_configs {
            Some(ranges) => r matches Ok(v) && v@ == spec_candidates(ranges@),
            None => r == Err::<Vec<SupportedStreamConfig>, StreamError>(
                StreamError::SupportedStreamConfigsError,
            ),
        },
{
    let ranges = match &device.supported_configs {
        Some(ranges) => ranges,
        None => {
            return Err(StreamError::SupportedStreamConfigsError);
        },
    };
    let ghost f = |r: SupportedStreamConfigRange| spec_range_candidates(r);
    let mut out: Vec<SupportedStreamConfig> = Vec::new();
    let mut i: usize = 0;
    proof {
        assert(out@ =~= ranges@.take(0).flat_map(f));
    }
    while i < ranges.len()
        invariant
            i <= ranges.len(),
            f == (|r: SupportedStreamConfigRange| spec_range_candidates(r)),
            out@ == ranges@.take(i as int).flat_map(f),
        decreases ranges.len() - i,
    {
        let ghost prev = out@;
        let range = ranges[i];
        out.push(range.at_rate(range.max_sample_rate));
        if range.min_sample_rate < HZ_44100 && HZ_44100 < range.max_sample_rate {
            out.push(range.at_rate(HZ_44100));
        }
        out.push(range.at_rate(range.min_sample_rate));
        proof {
            assert(out@ =~= prev + spec_range_candidates(ranges@[i as int]));
            ranges@.lemma_flat_map_take_append(f, i as int);
            assert(out@ =~= ranges@.take(i + 1).flat_map(f));
        }
        i = i + 1;
    }
    proof {
        assert(ranges@.take(ranges@.len() as int) =~= ranges@);
    }
    Ok(out)
}

/// The first fallback candidate that opens, tried in order; `None` when none
/// does.
pub open spec fn spec_first_opening(
    device: DeviceModel,
    cands: Seq<SupportedStreamConfig>,
) -> Option<OutputStreamConfig>
    decreases cands.len(),
{
    if cands.len() == 0 {
        None
    } else if spec_open(device, spec_config_from_supported(cands[0])) is Ok {
        Some(spec_config_from_supported(cands[0]))
    } else {
        spec_first_opening(device, cands.drop_first())
    }
}

/// What `try_open_stream` returns for a builder over `device` wanting
/// `config`: the stream on `config` when that opens; else, when the device
/// cannot even enumerate its supported configurations, that failure; else the
/// stream on the first fallback candidate that opens; else the failure of the
/// original attempt.
pub open spec fn spec_try_open(device: DeviceModel, config: OutputStreamConfig) -> Result<
    OutputStream,
    StreamError,
> {
    if spec_open(device, config) is Ok {
        spec_open(device, config)
    } else {
        match device.supported_configs {
            None => Err(StreamError::SupportedStreamConfigsError),
            Some(ranges) => match spec_first_opening(device, spec_candidates(ranges@)) {
                Some(c) => spec_open(device, c),
                None => spec_open(device, config),
            },
        }
    }
}

/// Builds the configuration an output stream is opened with.
pub struct OutputStreamBuilder {
    pub device: Option<DeviceModel>,
    pub config: OutputStreamConfig,
}

impl Default for OutputStreamBuilder {
    fn default() -> (r: Self)
        ensures
            r.device is None,
            r.config == OutputStreamConfig::spec_default(),
    {
        OutputStreamBuilder { device: None, config: OutputStreamConfig::default() }
    }
}

impl OutputStreamBuilder {
    /// A builder over `device`, configured from the device's default output
    /// configuration; fails when querying that configuration fails.
    pub fn from_device(device: DeviceModel) -> (r: Result<OutputStreamBuilder, StreamError>)
        ensures
            match device.default_config {
                Some(c) => r matches Ok(b) && b.device == Some(device) && b.config
                    == spec_config_from_supported(c),
                None => r == Err::<OutputStreamBuilder, StreamError>(
                    StreamError::DefaultStreamConfigError,
                ),
            },
    {
        let default_config = match device.default_config {
            Some(c) => c,
            None => {
                return Err(StreamError::DefaultStreamConfigError);
            },
        };
        Ok(Self::default().with_device(device).with_supported_config(&default_config))
    }

    /// A builder over the host's default output device; fails when the host
    /// has none or querying its default configuration fails.
    pub fn from_default_device(host: HostModel) -> (r: Result<OutputStreamBuilder, StreamError>)
        ensures
            match host.default_device {
                None => r == Err::<OutputStreamBuilder, StreamError>(StreamError::NoDevice),
                Some(d) => match d.default_config {
                    Some(c) => r matches Ok(b) && b.device == Some(d) && b.config
                        == spec_config_from_supported(c),
                    None => r == Err::<OutputStreamBuilder, StreamError>(
                        StreamError::DefaultStreamConfigError,
                    ),
                },
            },
    {
        let default_device = match host.default_device {
            Some(d) => d,
            None => {
                return Err(StreamError::NoDevice);
            },
        };
        Self::from_device(default_device)
    }

    pub fn with_device(self, device: DeviceModel) -> (r: OutputStreamBuilder)
        ensures
            r.device == Some(device),
            r.config == self.config,
    {
        OutputStreamBuilder { device: Some(device), config: self.config }
    }

    pub fn with_channels(self, channel_count: ChannelCount) -> (r: OutputStreamBuilder)
        requires
            channel_count > 0,
        ensures
            r.device == self.device,
            r.config == (OutputStreamConfig { channel_count, ..self.config }),
    {
        OutputStreamBuilder {
            device: self.device,
            config: OutputStreamConfig { channel_count, ..self.config },
        }
    }

    pub fn with_sample_rate(self, sample_rate: SampleRate) -> (r: OutputStreamBuilder)
        ensures
            r.device == self.device,
            r.config == (OutputStreamConfig { sample_rate, ..self.config }),
    {
        OutputStreamBuilder {
            device: self.device,
            config: OutputStreamConfig { sample_rate, ..self.config },
        }
    }

    pub fn with_buffer_size(self, buffer_size: BufferSize) -> (r: OutputStreamBuilder)
        ensures
            r.device == self.device,
            r.config == (OutputStreamConfig { buffer_size, ..self.config }),
    {
        OutputStreamBuilder {
            device: self.device,
            config: OutputStreamConfig { buffer_size, ..self.config },
        }
    }

    pub fn with_sample_format(self, sample_format: SampleFormat) -> (r: OutputStreamBuilder)
        ensures
            r.device == self.device,
            r.config == (OutputStreamConfig { sample_format, ..self.config }),
    {
        OutputStreamBuilder {
            device: self.device,
            config: OutputStreamConfig { sample_format, ..self.config },
        }
    }

    /// Takes channel count, sample rate, buffer size and encoding from a
    /// device-supported configuration, clamping the preferred buffer size
    /// into its supported range.
    pub fn with_supported_config(self, config: &SupportedStreamConfig) -> (r: OutputStreamBuilder)
        ensures
            r.device == self.device,
            r.config == spec_config_from_supported(*config),
    {
        OutputStreamBuilder {
            device: self.device,
            config: OutputStreamConfig {
                channel_count: config.channels,
                sample_rate: config.sample_rate,
                buffer_size: clamp_supported_buffer_size(&config.buffer_size),
                sample_format: config.sample_format,
            },
        }
    }

    /// Takes channel count, sample rate and buffer size from a plain stream
    /// configuration, keeping the configured encoding.
    pub fn with_config(self, config: &StreamConfig) -> (r: OutputStreamBuilder)
        ensures
            r.device == self.device,
            r.config == (OutputStreamConfig {
                channel_count: config.channels,
                sample_rate: config.sample_rate,
                buffer_size: config.buffer_size,
                ..self.config
            }),
    {
        OutputStreamBuilder {
            device: self.device,
            config: OutputStreamConfig {
                channel_count: config.channels,
                sample_rate: config.sample_rate,
                buffer_size: config.buffer_size,
                ..self.config
            },
        }
    }

    /// Opens a stream with exactly the configured parameters.
    pub fn open_stream(&self) -> (r: Result<OutputStream, StreamError>)
        requires
            self.device is Some,
        ensures
            r == spec_open(self.device->Some_0, self.config),
    {
        let device = self.device.as_ref().unwrap();
        OutputStream::open(device, &self.config)
    }

    /// Opens a stream with the configured parameters; on failure, tries every
    /// configuration the device offers, in the device's preference order, and
    /// propagates the original error when none opens. A device that cannot
    /// enumerate its configurations aborts the fallback with that failure.
    pub fn try_open_stream(&self) -> (r: Result<OutputStream, StreamError>)
        requires
            self.device is Some,
        ensures
            r == spec_try_open(self.device->Some_0, self.config),
    {
        let device = self.device.as_ref().unwrap();
        let first = OutputStream::open(device, &self.config);
        let err = match first {
            Ok(stream) => {
                return Ok(stream);
            },
            Err(err) => err,
        };
        let candidates = match supported_output_configs(device) {
            Ok(candidates) => candidates,
            Err(e) => {
                return Err(e);
            },
        };
        let ghost cands = candidates@;
        let mut i: usize = 0;
        proof {
            assert(cands.skip(0int) =~= cands);
        }
        while i < candidates.len()
            invariant
                i <= candidates.len(),
                candidates@ == cands,
                self.device is Some,
                *device == self.device->Some_0,
                spec_open(self.device->Some_0, self.config) is Err,
                err == spec_open(self.device->Some_0, self.config)->Err_0,
                self.device->Some_0.supported_configs is Some,
                cands == spec_candidates(self.device->Some_0.supported_configs->Some_0@),
                forall|k: int|
                    0 <= k < i ==> spec_open(
                        *device,
                        spec_config_from_supported(#[trigger] cands[k]),
                    ) is Err,
                spec_first_opening(*device, cands) == spec_first_opening(
                    *device,
                    cands.skip(i as int),
                ),
            decreases candidates.len() - i,
        {
            let supported_config = candidates[i];
            let config = Self::default().with_supported_config(&supported_config).config;
            match OutputStream::open(device, &config) {
                Ok(handle) => {
                    proof {
                        assert(cands.skip(i as int)[0] == cands[i as int]);
                        assert(spec_first_opening(*device, cands.skip(i as int)) == Some(
                            spec_config_from_supported(cands[i as int]),
                        ));
                    }
                    return Ok(handle);
                },
                Err(_) => {},
            }
            proof {
                assert(cands.skip(i as int)[0] == cands[i as int]);
                assert(cands.skip(i as int).drop_first() =~= cands.skip(i + 1));
            }
            i = i + 1;
        }
        proof {
            assert(cands.skip(cands.len() as int) =~= Seq::<SupportedStreamConfig>::empty());
        }
        Err(err)
    }
}

/// What attempting a device in the fallback chain yields: its builder from
/// the default configuration, then `try_open_stream`.
pub open spec fn spec_device_attempt(device: DeviceModel) -> Result<OutputStream, StreamError> {
    match device.default_config {
        None => Err(StreamError::DefaultStreamConfigError),
        Some(c) => spec_try_open(device, spec_config_from_supported(c)),
    }
}

/// The stream of the first fallback device whose attempt succeeds; `None`
/// when none succeeds.
pub open spec fn spec_first_device_opening(devices: Seq<DeviceModel>) -> Option<OutputStream>
    decreases devices.len(),
{
    if devices.len() == 0 {
        None
    } else {
        match spec_device_attempt(devices[0]) {
            Ok(stream) => Some(stream),
            Err(_) => spec_first_device_opening(devices.drop_first()),
        }
    }
}

/// What the first step of `try_default_stream` yields: a stream opened on
/// the host's default device with that device's default configuration.
pub open spec fn spec_default_open(host: HostModel) -> Result<OutputStream, StreamError> {
    match host.default_device {
        None => Err(StreamError::NoDevice),
        Some(d) => match d.default_config {
            None => Err(StreamError::DefaultStreamConfigError),
            Some(c) => spec_open(d, spec_config_from_supported(c)),
        },
    }
}

/// What `try_default_stream` returns: the stream opened on the host's
/// default device with its default configuration; on any failure there, the
/// first other enumerable device whose fallback attempt succeeds; else the
/// original failure.
pub open spec fn spec_try_default(host: HostModel) -> Result<OutputStream, StreamError> {
    match spec_default_open(host) {
        Ok(stream) => Ok(stream),
        Err(original_err) => match host.output_devices {
            None => Err(original_err),
            Some(devices) => match spec_first_device_opening(devices@) {
                Some(stream) => Ok(stream),
                None => Err(original_err),
            },
        },
    }
}

impl OutputStreamBuilder {
    /// Opens a stream on the host's default output device with its default
    /// configuration; on failure, falls back across every enumerable output
    /// device, returning the original failure when none succeeds.
    pub fn try_default_stream(host: HostModel) -> (r: Result<OutputStream, StreamError>)
        ensures
            r == spec_try_default(host),
    {
        let HostModel { default_device, output_devices } = host;
        let original_err = match default_device {
            None => StreamError::NoDevice,
            Some(device) => {
                let first = match Self::from_device(device) {
                    Ok(builder) => builder.open_stream(),
                    Err(e) => Err(e),
                };
                match first {
                    Ok(stream) => {
                        return Ok(stream);
                    },
                    Err(e) => e,
                }
            },
        };
        let mut devices = match output_devices {
            Some(devices) => devices,
            None => {
                return Err(original_err);
            },
        };
        let ghost devs = devices@;
        let total = devices.len();
        let mut i: usize = 0;
        proof {
            assert(devs.skip(0int) =~= devs);
            assert(devs.len() == total);
        }
        while devices.len() > 0
            invariant
                i <= devs.len(),
                devs.len() <= usize::MAX,
                devices@ == devs.skip(i as int),
                spec_default_open(host) == Err::<OutputStream, StreamError>(original_err),
                host.output_devices is Some,
                host.output_devices->Some_0@ == devs,
                forall|k: int| 0 <= k < i ==> spec_device_attempt(#[trigger] devs[k]) is Err,
                spec_first_device_opening(devs) == spec_first_device_opening(
                    devs.skip(i as int),
                ),
            decreases devices.len(),
        {
            let device = devices.remove(0);
            proof {
                assert(devs.skip(i as int)[0] == devs[i as int]);
                assert(device == devs[i as int]);
                assert(devices@ =~= devs.skip(i + 1));
                assert(devs.skip(i as int).drop_first() =~= devs.skip(i + 1));
            }
            let attempt = match Self::from_device(device) {
                Ok(builder) => builder.try_open_stream(),
                Err(e) => Err(e),
            };
            match attempt {
                Ok(stream) => {
                    proof {
                        assert(attempt == spec_device_attempt(devs[i as int]));
                        assert(spec_first_device_opening(devs.skip(i as int)) == Some(stream));
                    }
                    return Ok(stream);
                },
                Err(_) => {},
            }
            i = i + 1;
        }
        proof {
            assert(devs.skip(i as int) =~= Seq::<DeviceModel>::empty());
        }
        Err(original_err)
    }
}

/// A plain stream configuration without an encoding, as handed to the host
/// subsystem.
#[derive(Clone, Copy, PartialEq, Eq, Structural, Debug)]
pub struct StreamConfig {
    pub channels: ChannelCount,
    pub sample_rate: SampleRate,
    pub buffer_size: BufferSize,
}

impl From<OutputStreamConfig> for StreamConfig {
    fn from(config: OutputStreamConfig) -> (r: Self)
        ensures
            r == (StreamConfig {
                channels: config.channel_count,
                sample_rate: config.sample_rate,
                buffer_size: config.buffer_size,
            }),
    {
        StreamConfig {
            channels: config.channel_count,
            sample_rate: config.sample_rate,
            buffer_size: config.buffer_size,
        }
    }
}

impl vstd::std_specs::convert::FromSpecImpl<OutputStreamConfig> for StreamConfig {
    open spec fn obeys_from_spec() -> bool {
        true
    }

    open spec fn from_spec(config: OutputStreamConfig) -> Self {
        StreamConfig {
            channels: config.channel_count,
            sample_rate: config.sample_rate,
            buffer_size: config.buffer_size,
        }
    }
}

} // verus!
