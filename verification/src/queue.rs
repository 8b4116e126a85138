//! Queue that plays sounds one after the other.
//!
//! The queue presents a live-growing list of appended sounds as one
//! continuous source. Appended sounds play in strict first-in first-out
//! order; the boundary between two sounds always coincides with a span
//! boundary. When everything appended is exhausted the queue either ends or,
//! with keep-alive enabled, plays bounded runs of silence instead.
//!
//! The composite stream still owed to callers is the `remaining` view: the
//! samples left in the sound now playing followed by every pending sound's
//! samples in append order. Every sample-level contract below is stated over
//! it; how a pull moves across span boundaries — and with it the reported
//! format and the firing of completion signals — is pinned by `spec_settled`
//! and `spec_pull`.

use vstd::prelude::*;
use crate::common::{ChannelCount, Sample, SampleRate};
use crate::source::{SeekError, SilenceSource, Sound, SILENCE_CHANNELS, SILENCE_SAMPLE_RATE};

verus! {

/// The span length reported when nothing better is known, and the length of
/// each synthetic silence span: the default span-probe size.
pub const THRESHOLD: usize = 512;

#[verifier::external_type_specification]
#[verifier::external_body]
#[verifier::reject_recursive_types(T)]
pub struct ExSender<T>(crossbeam_channel::Sender<T>);

#[verifier::external_type_specification]
#[verifier::external_body]
#[verifier::reject_recursive_types(T)]
pub struct ExReceiver<T>(crossbeam_channel::Receiver<T>);

/// Relies on crossbeam_channel::unbounded: creates a connected sender and
/// receiver pair, used here as a one-shot completion signal.
#[verifier::external_body]
fn signal_channel() -> (r: (crossbeam_channel::Sender<()>, crossbeam_channel::Receiver<()>)) {
    crossbeam_channel::unbounded()
}

/// Relies on crossbeam_channel::Sender::send: on an unbounded channel it
/// never blocks; when the receiver was dropped it only returns an error,
/// which the queue deliberately ignores (the signal is best effort).
#[verifier::external_body]
fn send_signal(signal: crossbeam_channel::Sender<()>) {
    let _ = signal.send(());
}

/// The input of the queue: the pending sounds in append order, each with an
/// optional completion signal, and the keep-alive policy flag.
pub struct SourcesQueueInput {
    pub next_sounds: Vec<(Sound, Option<crossbeam_channel::Sender<()>>)>,
    pub keep_alive_if_empty: bool,
}

impl SourcesQueueInput {
    /// The pending sounds, in the order they will play.
    pub open spec fn sounds(&self) -> Seq<Sound> {
        self.next_sounds@.map_values(
            |e: (Sound, Option<crossbeam_channel::Sender<()>>)| e.0,
        )
    }

    /// The samples of each pending sound, in play order.
    pub open spec fn pending(&self) -> Seq<Seq<Sample>> {
        self.sounds().map_values(|s: Sound| s.samples())
    }

    /// Whether the queue substitutes silence instead of ending when empty.
    pub open spec fn keep_alive(&self) -> bool {
        self.keep_alive_if_empty
    }

    pub open spec fn wf(&self) -> bool {
        forall|i: int| 0 <= i < self.sounds().len() ==> (#[trigger] self.sounds()[i]).wf()
    }

    /// Adds a sound to the end of the queue, with no completion signal.
    pub fn append(&mut self, source: Sound)
        requires
            old(self).wf(),
            source.wf(),
        ensures
            final(self).wf(),
            final(self).sounds() == old(self).sounds().push(source),
            final(self).next_sounds@ == old(self).next_sounds@.push((source, None)),
            final(self).keep_alive() == old(self).keep_alive(),
    {
        self.next_sounds.push((source, None));
        proof {
            assert(self.sounds() =~= old(self).sounds().push(source));
        }
    }

    /// Adds a sound to the end of the queue. The returned receiver is
    /// signalled exactly once, when the queue finishes (or moves past) that
    /// sound.
    pub fn append_with_signal(&mut self, source: Sound) -> (r: crossbeam_channel::Receiver<()>)
        requires
            old(self).wf(),
            source.wf(),
        ensures
            final(self).wf(),
            final(self).sounds() == old(self).sounds().push(source),
            final(self).next_sounds@.len() == old(self).next_sounds@.len() + 1,
            final(self).next_sounds@.drop_last() == old(self).next_sounds@,
            final(self).next_sounds@.last().0 == source,
            final(self).next_sounds@.last().1 is Some,
            final(self).keep_alive() == old(self).keep_alive(),
    {
        let (tx, rx) = signal_channel();
        self.next_sounds.push((source, Some(tx)));
        proof {
            assert(self.sounds() =~= old(self).sounds().push(source));
            assert(self.next_sounds@.drop_last() =~= old(self).next_sounds@);
        }
        rx
    }

    /// Sets whether the queue stays alive when there is no more sound to
    /// play.
    pub fn set_keep_alive_if_empty(&mut self, keep_alive_if_empty: bool)
        requires
            old(self).wf(),
        ensures
            final(self).wf(),
            final(self).keep_alive() == keep_alive_if_empty,
            final(self).sounds() == old(self).sounds(),
    {
        self.keep_alive_if_empty = keep_alive_if_empty;
        proof {
            assert(self.sounds() =~= old(self).sounds());
        }
    }

    /// Removes every sound not yet started and returns how many were
    /// removed. The sound currently playing is not affected.
    pub fn clear(&mut self) -> (r: usize)
        requires
            old(self).wf(),
        ensures
            final(self).wf(),
            r == old(self).sounds().len(),
            final(self).sounds() == Seq::<Sound>::empty(),
            final(self).keep_alive() == old(self).keep_alive(),
    {
        let len = self.next_sounds.len();
        self.next_sounds.clear();
        proof {
            assert(self.sounds() =~= Seq::<Sound>::empty());
        }
        len
    }
}

/// The output of the queue: a single continuous source concatenating the
/// appended sounds.
pub struct SourcesQueueOutput {
    pub current: Sound,
    pub signal_after_end: Option<crossbeam_channel::Sender<()>>,
    pub input: SourcesQueueInput,
}

/// Whether every sample of `s` is the silence value.
pub open spec fn all_silence(s: Seq<Sample>) -> bool {
    forall|i: int| 0 <= i < s.len() ==> s[i] == Sample::spec_silence()
}

/// The queue state once spent sounds are moved past: the current sound and
/// the pending list after popping pending sounds while the current one is
/// exhausted. Afterwards the current sound holds samples or nothing pends.
pub open spec fn spec_settled(current: Sound, pending: Seq<Sound>) -> (Sound, Seq<Sound>)
    decreases pending.len(),
{
    if current.samples().len() > 0 || pending.len() == 0 {
        (current, pending)
    } else {
        spec_settled(pending[0], pending.drop_first())
    }
}

/// What one pull does to the queue: the returned sample and the state after.
/// Spent sounds are moved past, the first owed sample is taken, and spent
/// sounds are moved past again; with nothing owed, keep-alive yields the
/// first sample of a fresh silence filler, and otherwise the stream ends.
pub open spec fn spec_pull(current: Sound, pending: Seq<Sound>, keep_alive: bool) -> (
    Option<Sample>,
    Sound,
    Seq<Sound>,
) {
    let settled = spec_settled(current, pending);
    if settled.0.samples().len() > 0 {
        let resettled = spec_settled(settled.0.spec_after_next(), settled.1);
        (Some(settled.0.samples()[0]), resettled.0, resettled.1)
    } else if keep_alive {
        (
            Some(Sample::spec_silence()),
            Sound::Silence(SilenceSource { remaining: (THRESHOLD - 1) as usize }),
            settled.1,
        )
    } else {
        (None, settled.0, settled.1)
    }
}

impl SourcesQueueOutput {
    pub open spec fn wf(&self) -> bool {
        &&& self.current.wf()
        &&& self.input.wf()
    }

    /// Every sample still owed to the caller: what is left of the sound now
    /// playing, then every pending sound's samples in append order.
    pub open spec fn remaining(&self) -> Seq<Sample> {
        self.current.samples() + self.input.pending().flatten()
    }

    pub open spec fn keep_alive(&self) -> bool {
        self.input.keep_alive()
    }
}

/// Builds a new queue. The output plays the sounds appended through the
/// input, one after the other.
///
/// `keep_alive_if_empty` selects what an empty queue does: `true` plays
/// silence until a new sound is appended, `false` reports that the queue has
/// finished playing.
pub fn queue(keep_alive_if_empty: bool) -> (r: SourcesQueueOutput)
    ensures
        r.wf(),
        r.remaining() == Seq::<Sample>::empty(),
        r.input.sounds() == Seq::<Sound>::empty(),
        r.keep_alive() == keep_alive_if_empty,
        r.signal_after_end is None,
        r.current.spec_channels() == crate::source::EMPTY_CHANNELS,
        r.current.spec_sample_rate() == crate::source::EMPTY_SAMPLE_RATE,
{
    let r = SourcesQueueOutput {
        current: Sound::empty(),
        signal_after_end: None,
        input: SourcesQueueInput { next_sounds: Vec::new(), keep_alive_if_empty },
    };
    proof {
        assert(r.input.sounds() =~= Seq::<Sound>::empty());
        assert(r.input.pending() =~= Seq::<Seq<Sample>>::empty());
        assert(r.remaining() =~= Seq::<Sample>::empty());
    }
    r
}

impl SourcesQueueOutput {
    /// Called when `current` is exhausted: fire its completion signal if one
    /// is pending, then make the front pending sound current, or install a
    /// silence filler (keep-alive), or report that the queue ended.
    fn go_next(&mut self) -> (r: Result<(), ()>)
        requires
            old(self).wf(),
            old(self).current.samples().len() == 0,
        ensures
            final(self).wf(),
            final(self).keep_alive() == old(self).keep_alive(),
            old(self).input.sounds().len() > 0 ==> {
                &&& r is Ok
                &&& final(self).current == old(self).input.sounds()[0]
                &&& final(self).signal_after_end == old(self).input.next_sounds@[0].1
                &&& final(self).input.next_sounds@ == old(self).input.next_sounds@.drop_first()
                &&& final(self).input.sounds() == old(self).input.sounds().drop_first()
                &&& final(self).remaining() == old(self).remaining()
            },
            old(self).input.sounds().len() == 0 && old(self).keep_alive() ==> {
                &&& r is Ok
                &&& final(self).current == (Sound::Silence(SilenceSource { remaining: THRESHOLD }))
                &&& final(self).current.samples() == Seq::new(
                    THRESHOLD as nat,
                    |i: int| Sample::spec_silence(),
                )
                &&& final(self).current.spec_channels() == SILENCE_CHANNELS
                &&& final(self).current.spec_sample_rate() == SILENCE_SAMPLE_RATE
                &&& final(self).signal_after_end is None
                &&& final(self).input.sounds().len() == 0
            },
            old(self).input.sounds().len() == 0 && !old(self).keep_alive() ==> {
                &&& r is Err
                &&& final(self).current == old(self).current
                &&& final(self).signal_after_end is None
                &&& final(self).remaining().len() == 0
                &&& final(self).input.sounds().len() == 0
            },
    {
        if let Some(signal) = self.signal_after_end.take() {
            send_signal(signal);
        }
        if self.next_sounds_is_empty() {
            if self.input.keep_alive_if_empty {
                self.current = Sound::silence(THRESHOLD);
                self.signal_after_end = None;
                proof {
                    assert(self.input.sounds() =~= old(self).input.sounds());
                }
                Ok(())
            } else {
                proof {
                    assert(self.remaining() =~= old(self).remaining());
                }
                Err(())
            }
        } else {
            let ghost prev = self.input.sounds();
            let ghost prev_entries = self.input.next_sounds@;
            let (next, signal) = self.input.next_sounds.remove(0);
            self.current = next;
            self.signal_after_end = signal;
            proof {
                assert(self.input.next_sounds@ =~= prev_entries.drop_first());
                assert(self.input.sounds() =~= prev.drop_first());
                assert(self.current == prev[0]);
                lemma_flatten_head(prev.map_values(|s: Sound| s.samples()));
                assert(prev.map_values(|s: Sound| s.samples()).drop_first()
                    =~= self.input.pending());
                assert(old(self).remaining() =~= self.remaining());
            }
            Ok(())
        }
    }

    /// Whether the pending list is empty (one bounded look at the list).
    fn next_sounds_is_empty(&self) -> (r: bool)
        ensures
            r == (self.input.sounds().len() == 0),
    {
        self.input.next_sounds.len() == 0
    }

    /// Moves past spent sounds: while the current sound is exhausted and a
    /// pending sound exists, that sound becomes current (firing the spent
    /// sound's completion signal). Afterwards the current sound either still
    /// holds samples or nothing is pending.
    fn settle(&mut self)
        requires
            old(self).wf(),
        ensures
            final(self).wf(),
            final(self).keep_alive() == old(self).keep_alive(),
            final(self).remaining() == old(self).remaining(),
            final(self).current == spec_settled(
                old(self).current,
                old(self).input.sounds(),
            ).0,
            final(self).input.sounds() == spec_settled(
                old(self).current,
                old(self).input.sounds(),
            ).1,
    {
        loop
            invariant
                self.wf(),
                self.keep_alive() == old(self).keep_alive(),
                self.remaining() == old(self).remaining(),
                spec_settled(self.current, self.input.sounds()) == spec_settled(
                    old(self).current,
                    old(self).input.sounds(),
                ),
            decreases self.input.sounds().len(),
        {
            if self.current.size_hint_lower() > 0 || self.next_sounds_is_empty() {
                return;
            }
            let ghost before = spec_settled(self.current, self.input.sounds());
            let _ = self.go_next();
            proof {
                assert(spec_settled(self.current, self.input.sounds()) == before);
            }
        }
    }

    /// Produce the next sample of the composite stream.
    ///
    /// The samples come in exactly the order promised by `remaining`: the
    /// first owed sample is returned and dropped from the view. When nothing
    /// is owed, keep-alive decides: enabled, the result is the silence value
    /// and a fresh bounded silence span is owed afterwards — so with
    /// keep-alive enabled a pull always yields a sample, and a queue owing
    /// only silence keeps yielding silence; disabled, the stream ends.
    ///
    /// The pull also moves past every sound it spends: a boundary between
    /// two sounds is crossed the moment the earlier sound's last sample is
    /// returned, so the reported channel count and sample rate are already
    /// the next span's, and the spent sound's completion signal has fired.
    /// The post state is exactly `spec_pull` of the old one.
    pub fn next(&mut self) -> (r: Option<Sample>)
        requires
            old(self).wf(),
        ensures
            final(self).wf(),
            final(self).keep_alive() == old(self).keep_alive(),
            ({
                let st = spec_pull(
                    old(self).current,
                    old(self).input.sounds(),
                    old(self).keep_alive(),
                );
                &&& r == st.0
                &&& final(self).current == st.1
                &&& final(self).input.sounds() == st.2
            }),
            final(self).current.samples().len() == 0 ==> final(self).input.sounds().len() == 0,
            old(self).remaining().len() > 0 ==> {
                &&& r == Some(old(self).remaining()[0])
                &&& final(self).remaining() == old(self).remaining().drop_first()
            },
            old(self).remaining().len() == 0 && old(self).keep_alive() ==> {
                &&& r == Some(Sample::spec_silence())
                &&& final(self).remaining() == Seq::new(
                    (THRESHOLD - 1) as nat,
                    |i: int| Sample::spec_silence(),
                )
            },
            old(self).remaining().len() == 0 && !old(self).keep_alive() ==> {
                &&& r is None
                &&& final(self).remaining().len() == 0
            },
            old(self).keep_alive() ==> r is Some,
            old(self).keep_alive() && all_silence(old(self).remaining()) ==> {
                &&& r == Some(Sample::spec_silence())
                &&& all_silence(final(self).remaining())
            },
    {
        self.settle();
        let ghost settled = *self;
        proof {
            lemma_settled_exhausted(old(self).current, old(self).input.sounds());
        }
        let sample = match self.current.next() {
            Some(sample) => sample,
            None => {
                // Nothing is owed at all: keep-alive installs a silence
                // filler, otherwise the composite stream ends here.
                if self.go_next().is_err() {
                    proof {
                        assert(self.input.sounds() =~= settled.input.sounds());
                    }
                    return None;
                }
                match self.current.next() {
                    Some(sample) => sample,
                    // Unreachable: the freshly installed filler is not empty.
                    None => {
                        return None;
                    },
                }
            },
        };
        proof {
            if settled.current.samples().len() > 0 {
                assert(settled.remaining()[0] == settled.current.samples()[0]);
                assert(self.remaining() =~= settled.remaining().drop_first());
            } else {
                assert(settled.remaining() =~= Seq::<Sample>::empty());
                assert(self.remaining() =~= Seq::new(
                    (THRESHOLD - 1) as nat,
                    |i: int| Sample::spec_silence(),
                ));
            }
        }
        let ghost mid = *self;
        self.settle();
        proof {
            lemma_settled_exhausted(mid.current, mid.input.sounds());
            if settled.current.samples().len() == 0 {
                assert(self.input.sounds() =~= settled.input.sounds());
            }
        }
        Some(sample)
    }

    /// The channel count of the span now playing.
    pub fn channels(&self) -> (r: ChannelCount)
        ensures
            r == self.current.spec_channels(),
    {
        self.current.channels()
    }

    /// The sample rate of the span now playing.
    pub fn sample_rate(&self) -> (r: SampleRate)
        ensures
            r == self.current.spec_sample_rate(),
    {
        self.current.sample_rate()
    }

    /// The number of samples before the next span boundary.
    ///
    /// First applicable wins: a non-zero span length reported by the sound
    /// now playing; the silence filler's span length, when the sound reports
    /// a zero span but keep-alive will follow it with silence; the sound's
    /// own non-zero lower size estimate; else the fixed span-probe bound.
    pub fn current_span_len(&self) -> (r: Option<usize>)
        requires
            self.wf(),
        ensures
            r == self.spec_span_len(),
    {
        if let Some(val) = self.current.current_span_len() {
            if val != 0 {
                return Some(val);
            } else if self.input.keep_alive_if_empty && self.next_sounds_is_empty() {
                return Some(THRESHOLD);
            }
        }
        let lower_bound = self.current.size_hint_lower();
        if lower_bound > 0 {
            return Some(lower_bound);
        }
        Some(THRESHOLD)
    }

    /// What `current_span_len` reports, by the priority order it promises.
    pub open spec fn spec_span_len(&self) -> Option<usize> {
        match self.current.spec_span_len() {
            Some(v) => if v != 0 {
                Some(v)
            } else if self.keep_alive() && self.input.sounds().len() == 0 {
                Some(THRESHOLD)
            } else if self.current.spec_size_hint_lower() > 0 {
                Some(self.current.spec_size_hint_lower())
            } else {
                Some(THRESHOLD)
            },
            None => if self.current.spec_size_hint_lower() > 0 {
                Some(self.current.spec_size_hint_lower())
            } else {
                Some(THRESHOLD)
            },
        }
    }

    /// Seeks within the sound now playing only: the queue cannot go back to
    /// earlier sounds, and seeking forward across pending sounds is not in
    /// line with queue behaviour.
    pub fn try_seek(&mut self, pos_ns: u64) -> (r: Result<(), SeekError>)
        requires
            old(self).wf(),
        ensures
            final(self).wf(),
            final(self).current == old(self).current.after_seek(pos_ns),
            final(self).input == old(self).input,
            final(self).signal_after_end == old(self).signal_after_end,
            r is Ok <==> old(self).current.seek_ok(pos_ns),
            r is Err ==> r == Err::<(), SeekError>(SeekError::OutOfRange),
    {
        self.current.try_seek(pos_ns)
    }

    /// The gather step of the per-buffer output callback: one sample per
    /// destination slot, pulled from the composite stream, with the silence
    /// value written once the stream is exhausted rather than stale data.
    pub fn pull_samples(&mut self, count: usize) -> (r: Vec<Sample>)
        requires
            old(self).wf(),
        ensures
            final(self).wf(),
            final(self).keep_alive() == old(self).keep_alive(),
            r@.len() == count,
            forall|i: int|
                0 <= i < count ==> r@[i] == if i < old(self).remaining().len() {
                    old(self).remaining()[i]
                } else {
                    Sample::spec_silence()
                },
            count <= old(self).remaining().len() ==> final(self).remaining() == old(
                self,
            ).remaining().skip(count as int),
            count >= old(self).remaining().len() && old(self).keep_alive() ==> all_silence(
                final(self).remaining(),
            ),
            count >= old(self).remaining().len() && !old(self).keep_alive()
                ==> final(self).remaining().len() == 0,
    {
        let mut out: Vec<Sample> = Vec::new();
        let mut j: usize = 0;
        proof {
            assert(self.remaining() =~= old(self).remaining().skip(0int));
        }
        while j < count
            invariant
                j <= count,
                out@.len() == j,
                self.wf(),
                self.keep_alive() == old(self).keep_alive(),
                forall|i: int|
                    0 <= i < j ==> out@[i] == if i < old(self).remaining().len() {
                        old(self).remaining()[i]
                    } else {
                        Sample::spec_silence()
                    },
                j <= old(self).remaining().len() ==> self.remaining() == old(
                    self,
                ).remaining().skip(j as int),
                j >= old(self).remaining().len() ==> all_silence(self.remaining()),
                j >= old(self).remaining().len() && !self.keep_alive() ==> self.remaining().len()
                    == 0,
            decreases count - j,
        {
            let ghost before = *self;
            let sample = match self.next() {
                Some(sample) => sample,
                None => Sample::silence(),
            };
            proof {
                if j < old(self).remaining().len() {
                    assert(before.remaining()[0] == old(self).remaining()[j as int]);
                    assert(before.remaining().drop_first() =~= old(self).remaining().skip(j + 1));
                }
            }
            out.push(sample);
            j = j + 1;
        }
        out
    }

    /// The composite stream never promises a total duration: sounds can be
    /// appended at any time.
    pub fn total_duration(&self) -> (r: Option<u64>)
        ensures
            r is None,
    {
        None
    }

    /// The lower size bound of the composite stream: at least what the sound
    /// now playing still holds.
    pub fn size_hint(&self) -> (r: (usize, Option<usize>))
        requires
            self.wf(),
        ensures
            r.0 == self.current.spec_size_hint_lower(),
            r.1 is None,
    {
        (self.current.size_hint_lower(), None)
    }
}

/// A settled queue state never pairs an exhausted current sound with a
/// non-empty pending list.
proof fn lemma_settled_exhausted(current: Sound, pending: Seq<Sound>)
    ensures
        spec_settled(current, pending).0.samples().len() == 0 ==> spec_settled(
            current,
            pending,
        ).1.len() == 0,
    decreases pending.len(),
{
    if current.samples().len() == 0 && pending.len() > 0 {
        lemma_settled_exhausted(pending[0], pending.drop_first());
    }
}

/// Flattening a non-empty sequence of sequences yields the first sequence
/// followed by the flattening of the rest.
proof fn lemma_flatten_head(s: Seq<Seq<Sample>>)
    requires
        s.len() > 0,
    ensures
        s.flatten() == s[0] + s.drop_first().flatten(),
{
    reveal_with_fuel(Seq::<_>::flatten, 2);
    assert(s.first() == s[0]);
}

/// Appending `s1` and then `s2` to a queue that has nothing left of its own
/// makes the composite stream exactly `s1`'s samples followed by `s2`'s:
/// sounds play whole and in first-in first-out order.
pub proof fn lemma_fifo_order(q: SourcesQueueOutput, s1: Sound, s2: Sound)
    requires
        q.current.samples().len() == 0,
        q.input.sounds() == seq![s1, s2],
    ensures
        q.remaining() == s1.samples() + s2.samples(),
{
    let p = q.input.pending();
    assert(p =~= seq![s1.samples(), s2.samples()]);
    lemma_flatten_head(p);
    lemma_flatten_head(p.drop_first());
    assert(p.drop_first()[0] == s2.samples());
    assert(p.drop_first().drop_first() =~= Seq::<Seq<Sample>>::empty());
    assert(q.remaining() =~= s1.samples() + s2.samples());
}

} // verus!
