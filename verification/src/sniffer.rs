//! Recognising a byte buffer as a canonical PCM container and decoding it.

use vstd::prelude::*;
use crate::audio::DecodedAudio;
use crate::container::{
    error_text, read_format, read_pcm16, wav_format_of, wav_pcm16_of, SampleEncoding, WavFormat,
};
use crate::sample::{pcm_ticks_all, ticks_from_pcm_all};

verus! {

/// The buffer is no container that can be decoded here.
#[derive(Debug, Clone, PartialEq, Eq)]
pub struct NotRecognized {
    /// What the reader objected to.
    pub reason: String,
}

/// A container that was recognised.
#[derive(Debug, Clone, PartialEq, Eq)]
pub enum Recognized {
    /// Integer samples, decoded in full.
    Decoded(DecodedAudio),
    /// Floating-point samples. Only the header is given: the samples have to
    /// be converted to ticks by the caller.
    FloatSamples(WavFormat),
}

/// The header and the samples of `bytes`, where `bytes` is a container with
/// integer samples that can all be read at 16 bits.
pub open spec fn integer_container(bytes: Seq<u8>) -> Option<(WavFormat, Seq<i16>)> {
    match (wav_format_of(bytes), wav_pcm16_of(bytes)) {
        (Some(format), Some(codes)) => if format.encoding == SampleEncoding::Int {
            Some((format, codes))
        } else {
            None
        },
        _ => None,
    }
}

/// The header of `bytes`, where `bytes` is a container with floating-point
/// samples.
pub open spec fn float_container(bytes: Seq<u8>) -> Option<WavFormat> {
    match wav_format_of(bytes) {
        Some(format) => if format.encoding == SampleEncoding::Float {
            Some(format)
        } else {
            None
        },
        None => None,
    }
}

/// Whether `audio` is what the integer samples `codes` under the header
/// `format` decode to: each code divided by 32768, with the header's rate
/// and channel count.
pub open spec fn decodes_to(format: WavFormat, codes: Seq<i16>, audio: DecodedAudio) -> bool {
    &&& audio.samples@ == pcm_ticks_all(codes)
    &&& audio.sample_rate == format.sample_rate
    &&& audio.channel_count == format.channels
}

/// Decodes integer samples that were read under the header `format`.
pub fn decode_pcm(format: WavFormat, codes: &Vec<i16>) -> (audio: DecodedAudio)
    ensures
        decodes_to(format, codes@, audio),
{
    DecodedAudio {
        samples: ticks_from_pcm_all(codes),
        sample_rate: format.sample_rate,
        channel_count: format.channels,
    }
}

/// Whether `found` is what `bytes` hold: the decoded samples of a container
/// with integer samples, or the header of one with floating-point samples.
pub open spec fn recognized_as(bytes: Seq<u8>, found: Recognized) -> bool {
    match found {
        Recognized::Decoded(audio) => integer_container(bytes) matches Some((format, codes))
            && decodes_to(format, codes, audio),
        Recognized::FloatSamples(format) => float_container(bytes) == Some(format),
    }
}

/// Whether `bytes` are no container, or one with integer samples that cannot
/// all be read at 16 bits.
pub open spec fn unrecognizable(bytes: Seq<u8>) -> bool {
    integer_container(bytes).is_none() && float_container(bytes).is_none()
}

/// Tries to read `bytes` as a canonical PCM container. Integer samples are
/// decoded at once; of floating-point samples only the header is returned.
/// Anything that the reader rejects is reported as not recognised, with the
/// reader's words.
pub fn sniff(bytes: &Vec<u8>) -> (r: Result<Recognized, NotRecognized>)
    ensures
        match r {
            Ok(found) => recognized_as(bytes@, found),
            Err(_) => unrecognizable(bytes@),
        },
{
    match read_format(bytes) {
        Err(e) => Err(NotRecognized { reason: error_text(&e) }),
        Ok(format) => match format.encoding {
            SampleEncoding::Float => Ok(Recognized::FloatSamples(format)),
            SampleEncoding::Int => match read_pcm16(bytes) {
                Err(e) => Err(NotRecognized { reason: error_text(&e) }),
                Ok(codes) => Ok(Recognized::Decoded(decode_pcm(format, &codes))),
            },
        },
    }
}

} // verus!
