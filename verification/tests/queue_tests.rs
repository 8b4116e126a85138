use rodio::common::Sample;
use rodio::queue::{queue, THRESHOLD};
use rodio::source::{SamplesBuffer, Sound};

fn s(x: f32) -> Sample {
    Sample::from_bits(x.to_bits())
}

#[test]
fn immediate_end() {
    let mut rx = queue(false);
    assert_eq!(rx.next(), None);
}

#[test]
fn keep_alive() {
    let mut rx = queue(true);
    rx.input.append(Sound::buffer(SamplesBuffer::new(
        1,
        48000,
        vec![s(10.0), s(-10.0), s(10.0), s(-10.0)],
    )));

    assert_eq!(rx.next(), Some(s(10.0)));
    assert_eq!(rx.next(), Some(s(-10.0)));
    assert_eq!(rx.next(), Some(s(10.0)));
    assert_eq!(rx.next(), Some(s(-10.0)));

    for _ in 0..100000 {
        assert_eq!(rx.next(), Some(s(0.0)));
    }
}

#[test]
fn fifo_order() {
    let mut rx = queue(false);
    rx.input.append(Sound::buffer(SamplesBuffer::new(
        1,
        48000,
        vec![s(10.0), s(-10.0), s(10.0), s(-10.0)],
    )));
    rx.input.append(Sound::buffer(SamplesBuffer::new(
        2,
        96000,
        vec![s(5.0), s(5.0), s(5.0), s(5.0)],
    )));

    assert_eq!(rx.next(), Some(s(10.0)));
    assert_eq!(rx.next(), Some(s(-10.0)));
    assert_eq!(rx.next(), Some(s(10.0)));
    assert_eq!(rx.next(), Some(s(-10.0)));
    assert_eq!(rx.next(), Some(s(5.0)));
    assert_eq!(rx.next(), Some(s(5.0)));
    assert_eq!(rx.next(), Some(s(5.0)));
    assert_eq!(rx.next(), Some(s(5.0)));
    assert_eq!(rx.next(), None);
}

#[test]
fn basic() {
    let mut rx = queue(false);

    rx.input.append(Sound::buffer(SamplesBuffer::new(
        1,
        48000,
        vec![s(10.0), s(-10.0), s(10.0), s(-10.0)],
    )));
    rx.input.append(Sound::buffer(SamplesBuffer::new(
        2,
        96000,
        vec![s(5.0), s(5.0), s(5.0), s(5.0)],
    )));

    assert_eq!(rx.channels(), 1);
    assert_eq!(rx.sample_rate(), 48000);
    assert_eq!(rx.next(), Some(s(10.0)));
    assert_eq!(rx.next(), Some(s(-10.0)));
    assert_eq!(rx.next(), Some(s(10.0)));
    assert_eq!(rx.next(), Some(s(-10.0)));
    assert_eq!(rx.channels(), 2);
    assert_eq!(rx.sample_rate(), 96000);
    assert_eq!(rx.next(), Some(s(5.0)));
    assert_eq!(rx.next(), Some(s(5.0)));
    assert_eq!(rx.next(), Some(s(5.0)));
    assert_eq!(rx.next(), Some(s(5.0)));
    assert_eq!(rx.next(), None);
}

#[test]
fn span_format_boundary() {
    let mut rx = queue(false);
    rx.input.append(Sound::buffer(SamplesBuffer::new(
        1,
        48000,
        vec![s(10.0), s(-10.0), s(10.0), s(-10.0)],
    )));
    rx.input.append(Sound::buffer(SamplesBuffer::new(
        2,
        96000,
        vec![s(5.0), s(5.0), s(5.0), s(5.0)],
    )));

    // While any sample of the first sound is still owed, its format is the
    // one reported.
    assert_eq!(rx.next(), Some(s(10.0)));
    assert_eq!(rx.channels(), 1);
    assert_eq!(rx.sample_rate(), 48000);
    assert_eq!(rx.current_span_len(), Some(3));
    assert_eq!(rx.next(), Some(s(-10.0)));
    assert_eq!(rx.next(), Some(s(10.0)));
    assert_eq!(rx.channels(), 1);
    assert_eq!(rx.sample_rate(), 48000);

    // Pulling the first sound's last sample crosses the span boundary: the
    // reported format switches exactly here, never mid-run.
    assert_eq!(rx.next(), Some(s(-10.0)));
    assert_eq!(rx.channels(), 2);
    assert_eq!(rx.sample_rate(), 96000);
    assert_eq!(rx.current_span_len(), Some(4));

    assert_eq!(rx.next(), Some(s(5.0)));
    assert_eq!(rx.channels(), 2);
    assert_eq!(rx.sample_rate(), 96000);
    assert_eq!(rx.current_span_len(), Some(3));
}

#[test]
fn signal_fires_once() {
    let mut rx = queue(false);
    let receiver = rx.input.append_with_signal(Sound::buffer(SamplesBuffer::new(
        1,
        48000,
        vec![s(1.0), s(2.0), s(3.0), s(4.0)],
    )));

    assert_eq!(rx.next(), Some(s(1.0)));
    assert_eq!(rx.next(), Some(s(2.0)));
    assert_eq!(rx.next(), Some(s(3.0)));
    assert_eq!(rx.next(), Some(s(4.0)));
    // The sound is exhausted but the queue has not yet moved past it.
    assert!(receiver.try_recv().is_err());

    // Moving past the sound fires the signal, exactly once.
    assert_eq!(rx.next(), None);
    assert!(receiver.try_recv().is_ok());
    assert!(receiver.try_recv().is_err());
}

#[test]
fn signal_fires_at_boundary() {
    // With another sound pending, the signal fires on the pull that crosses
    // past the signalled sound, before the next sound's samples come.
    let mut rx = queue(false);
    let receiver = rx.input.append_with_signal(Sound::buffer(SamplesBuffer::new(
        1,
        48000,
        vec![s(1.0), s(2.0)],
    )));
    rx.input.append(Sound::buffer(SamplesBuffer::new(1, 48000, vec![s(3.0)])));

    assert_eq!(rx.next(), Some(s(1.0)));
    assert!(receiver.try_recv().is_err());
    assert_eq!(rx.next(), Some(s(2.0)));
    assert!(receiver.try_recv().is_ok());
    assert!(receiver.try_recv().is_err());
    assert_eq!(rx.next(), Some(s(3.0)));
}

#[test]
fn clear_returns_count() {
    let mut rx = queue(false);
    rx.input.append(Sound::buffer(SamplesBuffer::new(1, 48000, vec![s(1.0)])));
    rx.input.append(Sound::buffer(SamplesBuffer::new(1, 48000, vec![s(2.0)])));
    rx.input.append(Sound::buffer(SamplesBuffer::new(1, 48000, vec![s(3.0)])));

    assert_eq!(rx.input.clear(), 3);
    assert_eq!(rx.input.clear(), 0);
    assert_eq!(rx.next(), None);
}

#[test]
fn keep_alive_toggle() {
    let mut rx = queue(false);
    rx.input.set_keep_alive_if_empty(true);
    assert_eq!(rx.next(), Some(s(0.0)));
    rx.input.set_keep_alive_if_empty(false);
    // The silence filler installed above still plays out before the end.
    let mut pulled: usize = 0;
    while rx.next().is_some() {
        pulled += 1;
    }
    assert_eq!(pulled, THRESHOLD - 1);
}

#[test]
fn span_len_of_fresh_queue() {
    // Nothing appended and keep-alive on: the zero-length span of the ended
    // source is reported as the silence filler's span instead.
    let rx = queue(true);
    assert_eq!(rx.current_span_len(), Some(THRESHOLD));

    // Keep-alive off: no better estimate exists, the probe bound is used.
    let rx = queue(false);
    assert_eq!(rx.current_span_len(), Some(THRESHOLD));
}

#[test]
fn pull_samples_pads_with_silence() {
    let mut rx = queue(false);
    rx.input.append(Sound::buffer(SamplesBuffer::new(
        1,
        48000,
        vec![s(10.0), s(-10.0), s(10.0), s(-10.0)],
    )));

    let buf = rx.pull_samples(6);
    assert_eq!(
        buf,
        vec![s(10.0), s(-10.0), s(10.0), s(-10.0), s(0.0), s(0.0)]
    );
    assert_eq!(rx.next(), None);
}

#[test]
fn seek_within_current_sound() {
    let mut rx = queue(false);
    // One channel at 1000 frames per second: one frame per millisecond.
    rx.input.append(Sound::buffer(SamplesBuffer::new(
        1,
        1000,
        vec![s(1.0), s(2.0), s(3.0), s(4.0)],
    )));

    assert_eq!(rx.next(), Some(s(1.0)));
    // Two milliseconds in: the third sample plays next.
    assert!(rx.try_seek(2_000_000).is_ok());
    assert_eq!(rx.next(), Some(s(3.0)));
    // Five milliseconds is beyond the end of the sound.
    assert!(rx.try_seek(5_000_000).is_err());
}

#[test]
fn queue_duration_is_unknown() {
    let rx = queue(false);
    assert_eq!(rx.total_duration(), None);
}

#[test]
fn size_hint_counts_current_sound() {
    let mut rx = queue(false);
    rx.input.append(Sound::buffer(SamplesBuffer::new(
        1,
        48000,
        vec![s(1.0), s(2.0), s(3.0), s(4.0)],
    )));
    assert_eq!(rx.size_hint(), (0, None));
    assert_eq!(rx.next(), Some(s(1.0)));
    assert_eq!(rx.size_hint(), (3, None));
}
