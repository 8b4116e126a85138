use rodio::common::Sample;
use rodio::source::{SamplesBuffer, Sound};

fn s(x: f32) -> Sample {
    Sample::from_bits(x.to_bits())
}

#[test]
fn buffer_produces_samples_in_order() {
    let mut sound = Sound::buffer(SamplesBuffer::new(2, 44100, vec![s(0.5), s(-0.5)]));
    assert_eq!(sound.channels(), 2);
    assert_eq!(sound.sample_rate(), 44100);
    assert_eq!(sound.current_span_len(), Some(2));
    assert_eq!(sound.next(), Some(s(0.5)));
    assert_eq!(sound.current_span_len(), Some(1));
    assert_eq!(sound.next(), Some(s(-0.5)));
    assert_eq!(sound.next(), None);
    assert_eq!(sound.next(), None);
}

#[test]
fn silence_produces_zeroes_then_ends() {
    let mut sound = Sound::silence(3);
    assert_eq!(sound.channels(), 1);
    assert_eq!(sound.sample_rate(), 44100);
    assert_eq!(sound.next(), Some(s(0.0)));
    assert_eq!(sound.next(), Some(s(0.0)));
    assert_eq!(sound.next(), Some(s(0.0)));
    assert_eq!(sound.next(), None);
}

#[test]
fn empty_ends_immediately() {
    let mut sound = Sound::empty();
    assert_eq!(sound.current_span_len(), Some(0));
    assert_eq!(sound.next(), None);
}

#[test]
fn buffer_duration_is_exact() {
    // Four samples over two channels is two frames; at a thousand frames a
    // second they last two million nanoseconds.
    let sound = Sound::buffer(SamplesBuffer::new(
        2,
        1000,
        vec![s(1.0), s(1.0), s(1.0), s(1.0)],
    ));
    assert_eq!(sound.total_duration(), Some(2_000_000));

    let silence = Sound::silence(4);
    assert_eq!(silence.total_duration(), None);

    let empty = Sound::empty();
    assert_eq!(empty.total_duration(), Some(0));
}

#[test]
fn buffer_seek_lands_on_frame() {
    let mut sound = Sound::buffer(SamplesBuffer::new(
        2,
        1000,
        vec![s(1.0), s(2.0), s(3.0), s(4.0)],
    ));
    // One millisecond is one frame of two samples.
    assert!(sound.try_seek(1_000_000).is_ok());
    assert_eq!(sound.next(), Some(s(3.0)));
    // Seeking back to the start is in range.
    assert!(sound.try_seek(0).is_ok());
    assert_eq!(sound.next(), Some(s(1.0)));
    // Three milliseconds is past the last frame.
    assert!(sound.try_seek(3_000_000).is_err());
    assert_eq!(sound.next(), Some(s(2.0)));
}
