//! Downmixing of interleaved samples to one channel.

use vstd::prelude::*;

verus! {

/// The mean of two amplitudes, in whole ticks; a half tick is rounded down.
pub open spec fn mean_ticks(left: int, right: int) -> int {
    (left + right) / 2
}

/// The mono signal of an interleaved stereo signal: one sample per complete
/// pair, the mean of the two. A last sample without a partner is left out.
pub open spec fn stereo_mean(samples: Seq<i32>) -> Seq<i32> {
    Seq::new(
        samples.len() / 2,
        |i: int| mean_ticks(samples[2 * i] as int, samples[2 * i + 1] as int) as i32,
    )
}

/// What `downmix_to_mono` returns for `samples` with `channel_count` channels.
pub open spec fn downmixed(samples: Seq<i32>, channel_count: u16) -> Option<Seq<i32>> {
    if channel_count == 1 {
        Some(samples)
    } else if channel_count == 2 {
        Some(stereo_mean(samples))
    } else {
        None
    }
}

/// A channel count that the mixer cannot reduce to mono.
#[derive(Debug, Clone, Copy, PartialEq, Eq, Structural)]
pub struct UnsupportedChannelLayout {
    /// The channel count that was asked for.
    pub channel_count: u16,
}

/// The mean of two samples.
pub fn mean_of_pair(left: i32, right: i32) -> (mean: i32)
    ensures
        mean as int == mean_ticks(left as int, right as int),
{
    let sum: i64 = (left as i64) + (right as i64);
    if sum >= 0 {
        (sum / 2) as i32
    } else {
        (-((1 - sum) / 2)) as i32
    }
}

/// Averages each pair of an interleaved stereo signal.
pub fn convert_stereo_to_mono(stereo_samples: Vec<i32>) -> (mono: Vec<i32>)
    ensures
        mono@ == stereo_mean(stereo_samples@),
{
    let frames: usize = stereo_samples.len() / 2;
    let mut mono: Vec<i32> = Vec::with_capacity(frames);
    let mut i: usize = 0;
    while i < frames
        invariant
            frames == stereo_samples.len() / 2,
            i <= frames,
            mono.len() == i,
            forall|k: int|
                0 <= k < i ==> mono[k] as int == mean_ticks(
                    #[trigger] stereo_samples[2 * k] as int,
                    stereo_samples[2 * k + 1] as int,
                ),
        decreases frames - i,
    {
        mono.push(mean_of_pair(stereo_samples[2 * i], stereo_samples[2 * i + 1]));
        i += 1;
    }
    assert(mono@ =~= stereo_mean(stereo_samples@));
    mono
}

/// Reduces interleaved samples to one channel. One channel is returned as it
/// is, two channels are averaged pair by pair, and any other count is refused.
pub fn downmix_to_mono(samples: Vec<i32>, channel_count: u16) -> (r: Result<
    Vec<i32>,
    UnsupportedChannelLayout,
>)
    ensures
        match r {
            Ok(mono) => downmixed(samples@, channel_count) == Some(mono@),
            Err(e) => downmixed(samples@, channel_count).is_none() && e.channel_count
                == channel_count,
        },
{
    if channel_count == 1 {
        Ok(samples)
    } else if channel_count == 2 {
        Ok(convert_stereo_to_mono(samples))
    } else {
        Err(UnsupportedChannelLayout { channel_count })
    }
}

/// A stereo signal of even length gives half as many samples, and twice each
/// of them is the sum of its pair, up to the half tick that is rounded down.
pub proof fn lemma_stereo_mean_of_even(samples: Seq<i32>, i: int)
    requires
        samples.len() % 2 == 0,
        0 <= i < samples.len() / 2,
    ensures
        stereo_mean(samples).len() * 2 == samples.len(),
        stereo_mean(samples)[i] as int == mean_ticks(
            samples[2 * i] as int,
            samples[2 * i + 1] as int,
        ),
        0 <= samples[2 * i] + samples[2 * i + 1] - 2 * stereo_mean(samples)[i] <= 1,
{
}

/// The mean of two amplitudes that both are a whole number of PCM steps is
/// exact: twice the mean is the sum.
pub proof fn lemma_mean_of_pcm_is_exact(left: i16, right: i16)
    ensures
        2 * mean_ticks(2 * (left as int), 2 * (right as int)) == 2 * (left as int) + 2 * (
        right as int),
{
}

} // verus!
