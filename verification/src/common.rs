use vstd::prelude::*;

verus! {

/// Stream sample rate (frames per second per channel).
pub type SampleRate = u32;

/// Number of channels in a stream.
pub type ChannelCount = u16;

/// Value of a single sample, held as the bit pattern of its 32-bit floating
/// amplitude. The expected amplitude range is -1.0..=1.0; silence is the
/// amplitude zero, whose bit pattern is zero.
#[derive(Clone, Copy, PartialEq, Eq, Structural, Debug)]
pub struct Sample {
    pub bits: u32,
}

impl Sample {
    /// The silence value: amplitude zero.
    pub open spec fn spec_silence() -> Sample {
        Sample { bits: 0 }
    }

    /// The silence value: amplitude zero.
    pub fn silence() -> (r: Sample)
        ensures
            r == Sample::spec_silence(),
    {
        Sample { bits: 0 }
    }

    /// A sample from the bit pattern of its 32-bit floating amplitude.
    pub fn from_bits(bits: u32) -> (r: Sample)
        ensures
            r == (Sample { bits }),
    {
        Sample { bits }
    }
}

} // verus!
