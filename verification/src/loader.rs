//! Reading back a normalised container for the recogniser.

use vstd::prelude::*;
use crate::audio::TARGET_RATE;
use crate::container::{
    error_text, read_format, read_pcm16, wav_format_of, wav_pcm16_of, SampleEncoding, WavFormat,
};
use crate::sample::{pcm_ticks_all, ticks_from_pcm_all};

verus! {

/// Why a container cannot be handed to the recogniser.
#[derive(Debug, Clone, PartialEq, Eq)]
pub enum LoadError {
    /// The bytes are no container, or a sample could not be read.
    Unreadable { detail: String },
    /// The sample rate is not 16 kHz.
    WrongSampleRate { sample_rate: u32 },
    /// There is more than one channel.
    NotMono { channels: u16 },
}

/// The samples of a container that the recogniser takes.
#[derive(Debug, Clone, PartialEq, Eq)]
pub enum Loaded {
    /// Integer samples, in ticks.
    Samples(Vec<i32>),
    /// The container holds floating-point samples, which the caller reads.
    FloatSamples(WavFormat),
}

/// What `load_audio_file` answers for a container with the header `format`
/// whose integer samples read as `codes`. The rate is checked before the
/// channel count, and both before the samples are looked at.
pub open spec fn loaded(format: WavFormat, codes: Option<Seq<i16>>, r: Result<Loaded, LoadError>)
    -> bool {
    if format.sample_rate != 16000 {
        r == Err::<Loaded, LoadError>(LoadError::WrongSampleRate { sample_rate: format.sample_rate })
    } else if format.channels != 1 {
        r == Err::<Loaded, LoadError>(LoadError::NotMono { channels: format.channels })
    } else if format.encoding == SampleEncoding::Float {
        r == Ok::<Loaded, LoadError>(Loaded::FloatSamples(format))
    } else {
        match codes {
            Some(codes) => r matches Ok(Loaded::Samples(samples)) && samples@ == pcm_ticks_all(
                codes,
            ),
            None => r matches Err(LoadError::Unreadable { detail }),
        }
    }
}

/// Checks a header against what the recogniser takes: 16 kHz, one channel.
pub fn check_format(format: WavFormat) -> (r: Result<(), LoadError>)
    ensures
        format.sample_rate != 16000 ==> r == Err::<(), LoadError>(
            LoadError::WrongSampleRate { sample_rate: format.sample_rate },
        ),
        format.sample_rate == 16000 && format.channels != 1 ==> r == Err::<(), LoadError>(
            LoadError::NotMono { channels: format.channels },
        ),
        format.sample_rate == 16000 && format.channels == 1 ==> r is Ok,
{
    if format.sample_rate != TARGET_RATE {
        Err(LoadError::WrongSampleRate { sample_rate: format.sample_rate })
    } else if format.channels != 1 {
        Err(LoadError::NotMono { channels: format.channels })
    } else {
        Ok(())
    }
}

/// Reads the bytes of a normalised container back into samples. Bytes that
/// are no container are unreadable; a container at another rate or with more
/// channels is refused.
pub fn load_audio_file(bytes: &Vec<u8>) -> (r: Result<Loaded, LoadError>)
    ensures
        match wav_format_of(bytes@) {
            None => r matches Err(LoadError::Unreadable { detail }),
            Some(format) => loaded(format, wav_pcm16_of(bytes@), r),
        },
{
    let format = match read_format(bytes) {
        Ok(format) => format,
        Err(e) => {
            return Err(LoadError::Unreadable { detail: error_text(&e) });
        },
    };
    match check_format(format) {
        Ok(_) => {},
        Err(e) => {
            return Err(e);
        },
    }
    match format.encoding {
        SampleEncoding::Float => Ok(Loaded::FloatSamples(format)),
        SampleEncoding::Int => match read_pcm16(bytes) {
            Ok(codes) => Ok(Loaded::Samples(ticks_from_pcm_all(&codes))),
            Err(e) => Err(LoadError::Unreadable { detail: error_text(&e) }),
        },
    }
}

} // verus!
