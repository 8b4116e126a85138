//! The pull-based sample sources the queue plays: a finite in-memory buffer,
//! a bounded run of digital silence, and an already-ended source.
//!
//! A source produces its remaining samples one at a time and reports the
//! format (channel count and sample rate) of its current span. A span is a
//! maximal run of consecutive samples sharing one format; each source here is
//! a single span, so its reported span length is the number of samples left.

use vstd::prelude::*;
use crate::common::{ChannelCount, Sample, SampleRate};

verus! {

/// Why a seek request was refused.
#[derive(Clone, Copy, PartialEq, Eq, Structural, Debug)]
pub enum SeekError {
    /// The requested position lies beyond the end of the source.
    OutOfRange,
}

/// A finite, already-decoded buffer of samples with a fixed format.
pub struct SamplesBuffer {
    pub channels: ChannelCount,
    pub sample_rate: SampleRate,
    pub data: Vec<Sample>,
    pub pos: usize,
}

impl SamplesBuffer {
    /// Well-formed: a positive format and a read position inside the buffer.
    pub open spec fn wf(&self) -> bool {
        &&& self.channels > 0
        &&& self.sample_rate > 0
        &&& self.pos <= self.data.len()
    }

    /// The samples not yet produced.
    pub open spec fn samples(&self) -> Seq<Sample> {
        self.data@.skip(self.pos as int)
    }

    pub open spec fn spec_channels(&self) -> ChannelCount {
        self.channels
    }

    pub open spec fn spec_sample_rate(&self) -> SampleRate {
        self.sample_rate
    }

    /// A buffer over the given samples, positioned at its start.
    pub fn new(channels: ChannelCount, sample_rate: SampleRate, data: Vec<Sample>) -> (r:
        SamplesBuffer)
        requires
            channels > 0,
            sample_rate > 0,
        ensures
            r.wf(),
            r.samples() == data@,
            r.spec_channels() == channels,
            r.spec_sample_rate() == sample_rate,
    {
        let r = SamplesBuffer { channels, sample_rate, data, pos: 0 };
        proof {
            assert(r.samples() =~= r.data@);
        }
        r
    }
}

/// Nanoseconds per second, for positions and durations.
pub const NANOS_PER_SEC: u64 = 1_000_000_000;

impl SamplesBuffer {
    /// The sample index a seek to `pos_ns` nanoseconds lands on: the frame
    /// at that time, scaled by the channel count.
    pub open spec fn seek_target(&self, pos_ns: u64) -> int {
        (pos_ns as int * self.sample_rate as int / (NANOS_PER_SEC as int))
            * self.channels as int
    }

    /// The whole buffer's playing time in nanoseconds.
    pub open spec fn duration_nanos(&self) -> int {
        (self.data.len() as int / self.channels as int) * (NANOS_PER_SEC as int)
            / self.sample_rate as int
    }
}

/// A bounded run of digital silence: one channel at the nominal rate.
pub struct SilenceSource {
    pub remaining: usize,
}

/// The channel count of the synthetic silence source.
pub const SILENCE_CHANNELS: ChannelCount = 1;

/// The sample rate of the synthetic silence source.
pub const SILENCE_SAMPLE_RATE: SampleRate = 44100;

impl SilenceSource {
    /// The samples not yet produced: all silence.
    pub open spec fn samples(&self) -> Seq<Sample> {
        Seq::new(self.remaining as nat, |i: int| Sample::spec_silence())
    }

    /// A silence source with the given number of samples left.
    pub fn new(len: usize) -> (r: SilenceSource)
        ensures
            r == (SilenceSource { remaining: len }),
            r.samples() == Seq::new(len as nat, |i: int| Sample::spec_silence()),
    {
        SilenceSource { remaining: len }
    }
}

/// A source that has already ended: it never produces a sample.
pub struct EmptySource {}

/// The channel count an ended source reports for its (empty) span.
pub const EMPTY_CHANNELS: ChannelCount = 1;

/// The sample rate an ended source reports for its (empty) span.
pub const EMPTY_SAMPLE_RATE: SampleRate = 48000;

/// One sound the queue can play, over the closed set of source kinds this
/// core defines.
pub enum Sound {
    Buffer(SamplesBuffer),
    Silence(SilenceSource),
    Empty(EmptySource),
}

impl Sound {
    pub open spec fn wf(&self) -> bool {
        match self {
            Sound::Buffer(b) => b.wf(),
            Sound::Silence(_) => true,
            Sound::Empty(_) => true,
        }
    }

    /// The samples this sound has not yet produced.
    pub open spec fn samples(&self) -> Seq<Sample> {
        match self {
            Sound::Buffer(b) => b.samples(),
            Sound::Silence(z) => z.samples(),
            Sound::Empty(_) => Seq::empty(),
        }
    }

    /// The channel count of the current span.
    pub open spec fn spec_channels(&self) -> ChannelCount {
        match self {
            Sound::Buffer(b) => b.spec_channels(),
            Sound::Silence(_) => SILENCE_CHANNELS,
            Sound::Empty(_) => EMPTY_CHANNELS,
        }
    }

    /// The sample rate of the current span.
    pub open spec fn spec_sample_rate(&self) -> SampleRate {
        match self {
            Sound::Buffer(b) => b.spec_sample_rate(),
            Sound::Silence(_) => SILENCE_SAMPLE_RATE,
            Sound::Empty(_) => EMPTY_SAMPLE_RATE,
        }
    }

    /// The reported span length: each source kind here is one span, so it is
    /// the number of samples left.
    pub open spec fn spec_span_len(&self) -> Option<usize> {
        match self {
            Sound::Buffer(b) => Some((b.data.len() - b.pos) as usize),
            Sound::Silence(z) => Some(z.remaining),
            Sound::Empty(_) => Some(0usize),
        }
    }

    /// The lower bound a source gives for how many samples are left.
    pub open spec fn spec_size_hint_lower(&self) -> usize {
        match self {
            Sound::Buffer(b) => (b.data.len() - b.pos) as usize,
            Sound::Silence(z) => z.remaining,
            Sound::Empty(_) => 0usize,
        }
    }

    /// A sound playing the given buffer.
    pub fn buffer(b: SamplesBuffer) -> (r: Sound)
        ensures
            r == Sound::Buffer(b),
    {
        Sound::Buffer(b)
    }

    /// A sound of `len` samples of silence.
    pub fn silence(len: usize) -> (r: Sound)
        ensures
            r == (Sound::Silence(SilenceSource { remaining: len })),
            r.wf(),
            r.samples() == Seq::new(len as nat, |i: int| Sample::spec_silence()),
            r.spec_channels() == SILENCE_CHANNELS,
            r.spec_sample_rate() == SILENCE_SAMPLE_RATE,
    {
        Sound::Silence(SilenceSource::new(len))
    }

    /// A sound that has already ended.
    pub fn empty() -> (r: Sound)
        ensures
            r.wf(),
            r.samples() == Seq::<Sample>::empty(),
            r.spec_channels() == EMPTY_CHANNELS,
            r.spec_sample_rate() == EMPTY_SAMPLE_RATE,
            r.spec_span_len() == Some(0usize),
    {
        Sound::Empty(EmptySource {})
    }

    /// The sound after one sample is produced: advanced by one position, or
    /// unchanged when it had already ended.
    pub open spec fn spec_after_next(&self) -> Sound {
        match self {
            Sound::Buffer(b) => if b.pos < b.data.len() {
                Sound::Buffer(SamplesBuffer { pos: (b.pos + 1) as usize, ..*b })
            } else {
                *self
            },
            Sound::Silence(z) => if z.remaining > 0 {
                Sound::Silence(SilenceSource { remaining: (z.remaining - 1) as usize })
            } else {
                *self
            },
            Sound::Empty(_) => *self,
        }
    }

    /// Produce the next sample, or report end of stream. Within one sound the
    /// format never changes; an exhausted sound is left unchanged.
    pub fn next(&mut self) -> (r: Option<Sample>)
        requires
            old(self).wf(),
        ensures
            final(self).wf(),
            *final(self) == old(self).spec_after_next(),
            old(self).samples().len() > 0 ==> {
                &&& r == Some(old(self).samples()[0])
                &&& final(self).samples() == old(self).samples().drop_first()
            },
            old(self).samples().len() == 0 ==> r is None && *final(self) == *old(self),
            final(self).spec_channels() == old(self).spec_channels(),
            final(self).spec_sample_rate() == old(self).spec_sample_rate(),
    {
        match self {
            Sound::Buffer(b) => {
                if b.pos < b.data.len() {
                    let s = b.data[b.pos];
                    proof {
                        assert(b.samples()[0] == b.data@[b.pos as int]);
                        assert(b.data@.skip(b.pos + 1) =~= b.data@.skip(
                            b.pos as int,
                        ).drop_first());
                    }
                    b.pos = b.pos + 1;
                    Some(s)
                } else {
                    proof {
                        assert(b.samples().len() == 0);
                    }
                    None
                }
            },
            Sound::Silence(z) => {
                if z.remaining > 0 {
                    let ghost before = z.samples();
                    z.remaining = z.remaining - 1;
                    proof {
                        assert(z.samples() =~= before.drop_first());
                    }
                    Some(Sample::silence())
                } else {
                    None
                }
            },
            Sound::Empty(_) => None,
        }
    }

    /// The channel count of the current span.
    pub fn channels(&self) -> (r: ChannelCount)
        ensures
            r == self.spec_channels(),
    {
        match self {
            Sound::Buffer(b) => b.channels,
            Sound::Silence(_) => SILENCE_CHANNELS,
            Sound::Empty(_) => EMPTY_CHANNELS,
        }
    }

    /// The sample rate of the current span.
    pub fn sample_rate(&self) -> (r: SampleRate)
        ensures
            r == self.spec_sample_rate(),
    {
        match self {
            Sound::Buffer(b) => b.sample_rate,
            Sound::Silence(_) => SILENCE_SAMPLE_RATE,
            Sound::Empty(_) => EMPTY_SAMPLE_RATE,
        }
    }

    /// The remaining length of the current span.
    pub fn current_span_len(&self) -> (r: Option<usize>)
        requires
            self.wf(),
        ensures
            r == self.spec_span_len(),
            r matches Some(n) && n == self.samples().len(),
    {
        match self {
            Sound::Buffer(b) => Some(b.data.len() - b.pos),
            Sound::Silence(z) => Some(z.remaining),
            Sound::Empty(_) => Some(0),
        }
    }

    /// Whether a seek to `pos_ns` nanoseconds is in range. Silence and ended
    /// sources accept any position; a buffer accepts positions up to its end.
    pub open spec fn seek_ok(&self, pos_ns: u64) -> bool {
        match self {
            Sound::Buffer(b) => b.seek_target(pos_ns) <= b.data.len(),
            Sound::Silence(_) => true,
            Sound::Empty(_) => true,
        }
    }

    /// The sound after a seek to `pos_ns` nanoseconds: repositioned when the
    /// seek is in range, unchanged otherwise. Seeking within silence or an
    /// ended source changes nothing.
    pub open spec fn after_seek(&self, pos_ns: u64) -> Sound {
        match self {
            Sound::Buffer(b) => if b.seek_target(pos_ns) <= b.data.len() {
                Sound::Buffer(
                    SamplesBuffer {
                        pos: b.seek_target(pos_ns) as usize,
                        ..*b
                    },
                )
            } else {
                *self
            },
            Sound::Silence(_) => *self,
            Sound::Empty(_) => *self,
        }
    }

    /// Repositions the sound at `pos_ns` nanoseconds from its start; fails
    /// with `SeekError::OutOfRange` when that position lies beyond its end.
    pub fn try_seek(&mut self, pos_ns: u64) -> (r: Result<(), SeekError>)
        requires
            old(self).wf(),
        ensures
            final(self).wf(),
            *final(self) == old(self).after_seek(pos_ns),
            r is Ok <==> old(self).seek_ok(pos_ns),
            r is Err ==> r == Err::<(), SeekError>(SeekError::OutOfRange),
    {
        match self {
            Sound::Buffer(b) => {
                proof {
                    assert((pos_ns as int) * (b.sample_rate as int) <= (u64::MAX as int) * (
                    u32::MAX as int)) by (nonlinear_arith)
                        requires
                            pos_ns <= u64::MAX,
                            b.sample_rate <= u32::MAX,
                    ;
                }
                let frames: u128 = (pos_ns as u128) * (b.sample_rate as u128) / (
                NANOS_PER_SEC as u128);
                proof {
                    vstd::arithmetic::div_mod::lemma_div_nonincreasing(
                        (pos_ns as int) * (b.sample_rate as int),
                        NANOS_PER_SEC as int,
                    );
                    assert(frames * (b.channels as int) <= (u64::MAX as int) * (u32::MAX as int)
                        * (u16::MAX as int)) by (nonlinear_arith)
                        requires
                            0 <= frames <= (u64::MAX as int) * (u32::MAX as int),
                            b.channels <= u16::MAX,
                    ;
                }
                let target: u128 = frames * (b.channels as u128);
                if target <= b.data.len() as u128 {
                    b.pos = target as usize;
                    Ok(())
                } else {
                    Err(SeekError::OutOfRange)
                }
            },
            Sound::Silence(_) => Ok(()),
            Sound::Empty(_) => Ok(()),
        }
    }

    /// A best-effort estimate of the sound's whole playing time in
    /// nanoseconds: exact for a buffer (when it fits the result type),
    /// zero for an ended source, unknown for the silence filler.
    pub fn total_duration(&self) -> (r: Option<u64>)
        requires
            self.wf(),
        ensures
            match self {
                Sound::Buffer(b) => if b.duration_nanos() <= u64::MAX {
                    r == Some(b.duration_nanos() as u64)
                } else {
                    r is None
                },
                Sound::Silence(_) => r is None,
                Sound::Empty(_) => r == Some(0u64),
            },
    {
        match self {
            Sound::Buffer(b) => {
                let frames: u128 = (b.data.len() / (b.channels as usize)) as u128;
                proof {
                    assert(frames * (NANOS_PER_SEC as int) <= (usize::MAX as int) * (
                    NANOS_PER_SEC as int)) by (nonlinear_arith)
                        requires
                            0 <= frames <= usize::MAX,
                    ;
                }
                let nanos: u128 = frames * (NANOS_PER_SEC as u128) / (b.sample_rate as u128);
                if nanos <= u64::MAX as u128 {
                    Some(nanos as u64)
                } else {
                    None
                }
            },
            Sound::Silence(_) => None,
            Sound::Empty(_) => Some(0),
        }
    }

    /// The lower bound on how many samples are left.
    pub fn size_hint_lower(&self) -> (r: usize)
        requires
            self.wf(),
        ensures
            r == self.spec_size_hint_lower(),
            r == self.samples().len(),
    {
        match self {
            Sound::Buffer(b) => b.data.len() - b.pos,
            Sound::Silence(z) => z.remaining,
            Sound::Empty(_) => 0,
        }
    }
}

} // verus!
