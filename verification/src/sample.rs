//! Fixed-point sample values.
//!
//! A sample is a signed count of *ticks*; one tick is 2^-16 of full scale, so
//! full scale (1.0) is 65536 ticks. A 16-bit PCM code `s` stands for the
//! amplitude `s / 32768`, which is exactly `2 * s` ticks, and the mean of two
//! such amplitudes is a whole number of ticks as well.

use vstd::prelude::*;

verus! {

/// Ticks in one unit of amplitude.
pub const TICKS_PER_UNIT: i32 = 65536;

/// The factor by which an amplitude is scaled when it is written as 16-bit PCM.
pub const ENCODE_SCALE: i32 = 32767;

/// The amplitude of the 16-bit PCM code `code`, in ticks: `code / 32768`.
pub open spec fn pcm_ticks(code: i16) -> int {
    2 * (code as int)
}

/// `num / den` rounded to the nearest integer, halves away from zero.
pub open spec fn round_div(num: int, den: int) -> int
    recommends
        den > 0,
{
    if num >= 0 {
        (2 * num + den) / (2 * den)
    } else {
        -((2 * (-num) + den) / (2 * den))
    }
}

/// `x` held to the range of a 16-bit signed integer.
pub open spec fn clamp16(x: int) -> int {
    if x < -32768 {
        -32768
    } else if x > 32767 {
        32767
    } else {
        x
    }
}

/// The 16-bit PCM code written for an amplitude of `ticks` ticks: the
/// amplitude times 32767, rounded to the nearest integer and clamped.
pub open spec fn quantized(ticks: int) -> int {
    clamp16(round_div(ticks * 32767, 65536))
}

/// The sequence of PCM codes written for `samples`.
pub open spec fn quantized_all(samples: Seq<i32>) -> Seq<i16> {
    Seq::new(samples.len(), |i: int| quantized(samples[i] as int) as i16)
}

/// The amplitudes of the PCM codes `codes`, in ticks.
pub open spec fn pcm_ticks_all(codes: Seq<i16>) -> Seq<i32> {
    Seq::new(codes.len(), |i: int| pcm_ticks(codes[i]) as i32)
}

/// Converts a 16-bit PCM code to its amplitude in ticks.
pub fn ticks_from_pcm(code: i16) -> (ticks: i32)
    ensures
        ticks as int == pcm_ticks(code),
{
    2 * (code as i32)
}

/// Converts an amplitude to the 16-bit PCM code that is written for it.
pub fn quantize(ticks: i32) -> (code: i16)
    ensures
        code as int == quantized(ticks as int),
{
    let scaled: i64 = (ticks as i64) * 32767;
    let rounded: i64 = if scaled >= 0 {
        (2 * scaled + 65536) / 131072
    } else {
        -((2 * (-scaled) + 65536) / 131072)
    };
    if rounded < -32768 {
        -32768
    } else if rounded > 32767 {
        32767
    } else {
        rounded as i16
    }
}

/// Converts every PCM code of `codes` to ticks.
pub fn ticks_from_pcm_all(codes: &Vec<i16>) -> (out: Vec<i32>)
    ensures
        out@ == pcm_ticks_all(codes@),
{
    let mut out: Vec<i32> = Vec::with_capacity(codes.len());
    let mut i: usize = 0;
    while i < codes.len()
        invariant
            i <= codes.len(),
            out.len() == i,
            forall|k: int| 0 <= k < i ==> out[k] as int == pcm_ticks(#[trigger] codes[k]),
        decreases codes.len() - i,
    {
        out.push(ticks_from_pcm(codes[i]));
        i += 1;
    }
    assert(out@ =~= pcm_ticks_all(codes@));
    out
}

/// Quantises every sample of `samples`.
pub fn quantize_all(samples: &Vec<i32>) -> (out: Vec<i16>)
    ensures
        out@ == quantized_all(samples@),
{
    let mut out: Vec<i16> = Vec::with_capacity(samples.len());
    let mut i: usize = 0;
    while i < samples.len()
        invariant
            i <= samples.len(),
            out.len() == i,
            forall|k: int| 0 <= k < i ==> out[k] as int == quantized(#[trigger] samples[k] as int),
        decreases samples.len() - i,
    {
        out.push(quantize(samples[i]));
        i += 1;
    }
    assert(out@ =~= quantized_all(samples@));
    out
}

/// Reading a 16-bit PCM code and writing it again gives a code at most one
/// step away from the one that was read.
pub proof fn lemma_pcm_round_trip(code: i16)
    ensures
        code as int - 1 <= quantized(pcm_ticks(code)) <= code as int + 1,
{
    let c = code as int;
    let n = 2 * c * 32767;
    if c >= 0 {
        assert((2 * n + 65536) / 131072 >= c - 1 && (2 * n + 65536) / 131072 <= c) by {
            assert(2 * n + 65536 == 131072 * c - 4 * c + 65536);
            assert(0 <= c <= 32767);
        }
    } else {
        assert((2 * (-n) + 65536) / 131072 >= -c - 1 && (2 * (-n) + 65536) / 131072 <= -c) by {
            assert(2 * (-n) + 65536 == 131072 * (-c) + 4 * c + 65536);
            assert(-32768 <= c < 0);
        }
    }
}

} // verus!
