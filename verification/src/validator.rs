//! Turning away signals that are too short or too quiet to transcribe.

use vstd::prelude::*;

verus! {

/// The least number of samples that is worth transcribing: a tenth of a
/// second at 16 kHz.
pub const MIN_SAMPLES: usize = 1600;

/// The smallest magnitude, in ticks, that counts as sound. The limit is an
/// amplitude of 0.001, which is 65.536 ticks, so 66 is the first whole number
/// of ticks above it.
pub const AUDIBLE_TICKS: i32 = 66;

/// Why a signal was turned away.
#[derive(Debug, Clone, Copy, PartialEq, Eq, Structural)]
pub enum ValidationError {
    /// Fewer samples than `MIN_SAMPLES`.
    TooShort { samples: usize },
    /// No sample is audible.
    Silent { samples: usize },
    /// Less than one sample in a hundred is audible.
    MostlySilent { audible: usize, samples: usize },
}

/// Whether a sample of `ticks` ticks counts as sound.
pub open spec fn is_audible(ticks: i32) -> bool {
    ticks >= 66 || ticks <= -66
}

/// The number of audible samples in `samples`.
pub open spec fn audible_count(samples: Seq<i32>) -> nat
    decreases samples.len(),
{
    if samples.len() == 0 {
        0
    } else {
        audible_count(samples.drop_last()) + if is_audible(samples.last()) {
            1nat
        } else {
            0nat
        }
    }
}

/// What `validate` answers for `samples`: the first of the three checks that
/// fails, in the order too short, silent, mostly silent.
pub open spec fn verdict(samples: Seq<i32>) -> Option<ValidationError> {
    let total = samples.len();
    let audible = audible_count(samples);
    if total < 1600 {
        Some(ValidationError::TooShort { samples: total as usize })
    } else if audible == 0 {
        Some(ValidationError::Silent { samples: total as usize })
    } else if 100 * audible < total {
        Some(ValidationError::MostlySilent { audible: audible as usize, samples: total as usize })
    } else {
        None
    }
}

/// Tells whether a sample counts as sound.
pub fn sample_is_audible(ticks: i32) -> (r: bool)
    ensures
        r == is_audible(ticks),
{
    ticks >= AUDIBLE_TICKS || ticks <= -AUDIBLE_TICKS
}

/// Counts the audible samples.
pub fn count_audible(samples: &Vec<i32>) -> (count: usize)
    ensures
        count == audible_count(samples@),
{
    let mut count: usize = 0;
    let mut i: usize = 0;
    while i < samples.len()
        invariant
            i <= samples.len(),
            count == audible_count(samples@.take(i as int)),
            count <= i,
        decreases samples.len() - i,
    {
        proof {
            assert(samples@.take(i + 1).drop_last() =~= samples@.take(i as int));
        }
        if sample_is_audible(samples[i]) {
            count += 1;
        }
        i += 1;
    }
    proof {
        assert(samples@.take(i as int) =~= samples@);
    }
    count
}

/// Checks that a mono signal is long enough and carries sound. The sample
/// rate takes no part in the decision: the length limit is a count of
/// samples, whatever the rate.
pub fn validate(samples: &Vec<i32>, sample_rate: u32) -> (r: Result<(), ValidationError>)
    ensures
        match r {
            Ok(_) => verdict(samples@).is_none(),
            Err(e) => verdict(samples@) == Some(e),
        },
{
    let total: usize = samples.len();
    let audible: usize = count_audible(samples);
    let too_short: bool = total < MIN_SAMPLES;
    let silent: bool = audible == 0;
    let mostly_silent: bool = (audible as u128) * 100 < (total as u128);
    if too_short {
        Err(ValidationError::TooShort { samples: total })
    } else if silent {
        Err(ValidationError::Silent { samples: total })
    } else if mostly_silent {
        Err(ValidationError::MostlySilent { audible, samples: total })
    } else {
        Ok(())
    }
}

/// A signal of at least `MIN_SAMPLES` samples passes exactly when at least
/// one sample in a hundred is audible.
pub proof fn lemma_passes_iff_enough_sound(samples: Seq<i32>)
    requires
        samples.len() >= 1600,
    ensures
        verdict(samples).is_none() <==> 100 * audible_count(samples) >= samples.len(),
{
}

} // verus!
