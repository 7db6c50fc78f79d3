//! Writing normalised samples as the container that the recogniser reads.

use vstd::prelude::*;
use crate::audio::TARGET_RATE;
use crate::container::{
    error_text, pcm16_container, pcm16_written, write_pcm16, MAX_PCM16_SAMPLES,
};
use crate::error::IoError;
use crate::sample::{quantize_all, quantized_all};

verus! {

/// The container for the mono signal `samples`: each sample scaled by 32767,
/// rounded and clamped to 16 bits, under a header for one channel at 16 kHz.
pub open spec fn encoded(samples: Seq<i32>) -> Seq<u8> {
    pcm16_container(quantized_all(samples), 16000, 1)
}

/// Whether `samples` fit into one container.
pub open spec fn fits_container(samples: Seq<i32>) -> bool {
    samples.len() <= MAX_PCM16_SAMPLES
}

/// What the writer makes of `samples`: nothing where they do not fit into
/// one container, else what it leaves in memory for the quantised samples as
/// one channel at 16 kHz.
pub open spec fn encoding_of(samples: Seq<i32>) -> Option<Seq<u8>> {
    if fits_container(samples) {
        pcm16_written(quantized_all(samples), 16000, 1)
    } else {
        None
    }
}

/// Encodes a mono 16 kHz signal as a 16-bit PCM container, in memory. More
/// samples than a container can hold are refused. Below that limit the
/// quantised samples go to the writer: the call succeeds exactly where the
/// writer does, and then returns its bytes, which are `encoded(samples)`.
pub fn encode_pcm16(samples: &Vec<i32>) -> (r: Result<Vec<u8>, IoError>)
    ensures
        match r {
            Ok(bytes) => encoding_of(samples@) == Some(bytes@),
            Err(_) => encoding_of(samples@).is_none(),
        },
        !fits_container(samples@) ==> r is Err,
        r matches Ok(bytes) ==> bytes@ == encoded(samples@),
{
    if samples.len() > MAX_PCM16_SAMPLES {
        return Err(IoError { detail: "too many samples for one container".to_owned() });
    }
    let codes: Vec<i16> = quantize_all(samples);
    match write_pcm16(&codes, TARGET_RATE, 1) {
        Ok(bytes) => Ok(bytes),
        Err(e) => Err(IoError { detail: error_text(&e) }),
    }
}

} // verus!
