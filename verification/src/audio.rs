//! Decoded audio as it passes from stage to stage.

use vstd::prelude::*;

verus! {

/// The sample rate that the recogniser expects, in Hz.
pub const TARGET_RATE: u32 = 16000;

/// Samples with the rate and channel layout they were decoded with.
/// `samples` holds the channels interleaved, in ticks.
#[derive(Debug, Clone, PartialEq, Eq)]
pub struct DecodedAudio {
    pub samples: Vec<i32>,
    pub sample_rate: u32,
    pub channel_count: u16,
}

impl DecodedAudio {
    /// Whether this is what the recogniser takes: one channel at the target
    /// rate.
    pub open spec fn is_normalized(&self) -> bool {
        self.channel_count == 1 && self.sample_rate == 16000
    }

    /// Puts samples, rate and channel count together.
    pub fn new(samples: Vec<i32>, sample_rate: u32, channel_count: u16) -> (audio: DecodedAudio)
        ensures
            audio.samples@ == samples@,
            audio.sample_rate == sample_rate,
            audio.channel_count == channel_count,
    {
        DecodedAudio { samples, sample_rate, channel_count }
    }

    /// Tells whether this is one channel at the target rate.
    pub fn normalized(&self) -> (r: bool)
        ensures
            r == self.is_normalized(),
    {
        self.channel_count == 1 && self.sample_rate == TARGET_RATE
    }
}

} // verus!
