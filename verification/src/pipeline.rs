//! The pipeline as a sequence of steps: sniff, decode externally where
//! needed, downmix, validate, resample where needed, encode.
//!
//! Each function here takes what has happened and answers with what is to
//! happen next. Running a program, converting floating-point samples and
//! running the filter are the caller's part; every decision is taken here.

use vstd::prelude::*;
use crate::audio::{DecodedAudio, TARGET_RATE};
use crate::bridge::{decode_with_ffmpeg, ToolOutcome};
use crate::container::WavFormat;
use crate::encoder::{encode_pcm16, encoded, encoding_of, fits_container};
use crate::error::{of_validation, IoError, PipelineError};
use crate::mixer::{downmix_to_mono, downmixed};
use crate::resampler::{resample_audio, standard_config, ResamplePlan, ResampleRequest};
use crate::container::pcm16_container;
use crate::sample::{lemma_pcm_round_trip, pcm_ticks_all, quantized_all};
use crate::sniffer::{float_container, integer_container, sniff, unrecognizable, Recognized};
use crate::validator::{validate, verdict};

verus! {

/// What is to happen next in a run of the pipeline.
#[derive(Debug, Clone, PartialEq, Eq)]
pub enum Step {
    /// Run the external decoder on the input and report with
    /// `resume_external`.
    DecodeExternally,
    /// The container last handed in holds floating-point samples: convert
    /// them to ticks and report with `resume_decoded`.
    ReadFloatSamples(WavFormat),
    /// Run the filter on this request and report with `resume_resampled`.
    Resample(ResampleRequest),
    /// The run is over: these bytes are the normalised container.
    Done(Vec<u8>),
    /// The run is over and has failed.
    Failed(PipelineError),
}

/// How a run of the filter ended.
#[derive(Debug, Clone, PartialEq, Eq)]
pub enum FilterOutcome {
    /// The filter could not be set up.
    InitFailed { detail: String },
    /// The filter failed on the signal.
    ProcessFailed { detail: String },
    /// The signal at the new rate, in ticks.
    Resampled(Vec<i32>),
}

/// Whether `step` is the end of a run whose normalised signal is `mono`:
/// where the writer gives a container, that container, which is
/// `encoded(mono)`; where it gives none, a failed write. A signal too long
/// for a container always fails.
pub open spec fn finished(mono: Seq<i32>, step: Step) -> bool {
    &&& match step {
        Step::Done(bytes) => encoding_of(mono) == Some(bytes@) && bytes@ == encoded(mono),
        Step::Failed(e) => e is IoError && encoding_of(mono).is_none(),
        _ => false,
    }
    &&& !fits_container(mono) ==> step is Failed
}

/// Whether `step` is what follows decoded audio: a refusal of the channel
/// layout, else the validator's verdict on the mono signal, else at 16 kHz
/// the end of the run, and at any other rate a request to the filter.
pub open spec fn carried_on(
    samples: Seq<i32>,
    sample_rate: u32,
    channel_count: u16,
    step: Step,
) -> bool {
    match downmixed(samples, channel_count) {
        None => step == Step::Failed(PipelineError::UnsupportedChannelLayout { channel_count }),
        Some(mono) => match verdict(mono) {
            Some(e) => step == Step::Failed(of_validation(e)),
            None => if sample_rate == 16000 {
                finished(mono, step)
            } else if sample_rate == 0 {
                step matches Step::Failed(e) && e is ResamplerInitFailed
            } else {
                step matches Step::Resample(request) && request.samples@ == mono
                    && request.input_rate == sample_rate && request.output_rate == 16000
                    && request.config == standard_config(mono.len())
            },
        },
    }
}

/// Whether `step` is what follows a look at the input `bytes`.
pub open spec fn begun(bytes: Seq<u8>, step: Step) -> bool {
    if bytes.len() == 0 {
        step == Step::Failed(PipelineError::EmptyInput)
    } else {
        match step {
            Step::DecodeExternally => unrecognizable(bytes),
            Step::ReadFloatSamples(format) => float_container(bytes) == Some(format),
            _ => integer_container(bytes) matches Some((format, codes)) && carried_on(
                pcm_ticks_all(codes),
                format.sample_rate,
                format.channels,
                step,
            ),
        }
    }
}

/// Whether `step` is what follows a run of the external decoder that ended
/// as `outcome` and left `output` behind.
pub open spec fn after_external(outcome: ToolOutcome, output: Seq<u8>, step: Step) -> bool {
    match outcome {
        ToolOutcome::NotStarted { detail } => step == Step::Failed(
            PipelineError::ExternalToolMissing { detail },
        ),
        ToolOutcome::Exited { success, stderr } => if !success {
            step == Step::Failed(PipelineError::ExternalToolFailed { stderr })
        } else {
            match step {
                Step::ReadFloatSamples(format) => float_container(output) == Some(format),
                Step::Failed(PipelineError::UnsupportedSampleFormat { detail }) => unrecognizable(
                    output,
                ),
                _ => integer_container(output) matches Some((format, codes)) && carried_on(
                    pcm_ticks_all(codes),
                    format.sample_rate,
                    format.channels,
                    step,
                ),
            }
        },
    }
}

/// Whether `step` is what follows a run of the filter that ended as
/// `outcome`.
pub open spec fn after_filter(outcome: FilterOutcome, step: Step) -> bool {
    match outcome {
        FilterOutcome::InitFailed { detail } => step == Step::Failed(
            PipelineError::ResamplerInitFailed { detail },
        ),
        FilterOutcome::ProcessFailed { detail } => step == Step::Failed(
            PipelineError::ResamplerProcessFailed { detail },
        ),
        FilterOutcome::Resampled(samples) => finished(samples@, step),
    }
}

/// The last step of a run whose container was written as `written`.
pub open spec fn concluded(written: Result<Vec<u8>, IoError>) -> Step {
    match written {
        Ok(bytes) => Step::Done(bytes),
        Err(e) => Step::Failed(PipelineError::IoError { detail: e.detail }),
    }
}

/// Makes the last step of a run from what the encoder returned.
pub fn conclude(written: Result<Vec<u8>, IoError>) -> (step: Step)
    ensures
        step == concluded(written),
{
    match written {
        Ok(bytes) => Step::Done(bytes),
        Err(e) => Step::Failed(PipelineError::from_io(e)),
    }
}

/// Ends a run: encodes the normalised signal.
pub fn finish(mono: &Vec<i32>) -> (step: Step)
    ensures
        finished(mono@, step),
{
    conclude(encode_pcm16(mono))
}

/// Carries on with decoded audio: downmix, validate, then encode or ask for
/// the filter.
pub fn resume_decoded(audio: DecodedAudio) -> (step: Step)
    ensures
        carried_on(audio.samples@, audio.sample_rate, audio.channel_count, step),
{
    let sample_rate: u32 = audio.sample_rate;
    let mono = match downmix_to_mono(audio.samples, audio.channel_count) {
        Ok(mono) => mono,
        Err(e) => {
            return Step::Failed(PipelineError::from_channel_layout(e));
        },
    };
    match validate(&mono, sample_rate) {
        Ok(_) => {},
        Err(e) => {
            return Step::Failed(PipelineError::from_validation(e));
        },
    }
    match resample_audio(mono, sample_rate, TARGET_RATE) {
        ResamplePlan::Unchanged(same) => finish(&same),
        ResamplePlan::Filter(request) => Step::Resample(request),
        ResamplePlan::NoRatio => Step::Failed(
            PipelineError::ResamplerInitFailed { detail: "the source rate is zero".to_owned() },
        ),
    }
}

/// Carries on with what a look at a buffer gave.
fn resume_recognized(found: Recognized) -> (step: Step)
    ensures
        match found {
            Recognized::Decoded(audio) => carried_on(
                audio.samples@,
                audio.sample_rate,
                audio.channel_count,
                step,
            ),
            Recognized::FloatSamples(format) => step == Step::ReadFloatSamples(format),
        },
        !(step is DecodeExternally),
        found is Decoded ==> !(step is ReadFloatSamples),
{
    match found {
        Recognized::Decoded(audio) => resume_decoded(audio),
        Recognized::FloatSamples(format) => Step::ReadFloatSamples(format),
    }
}

/// Starts a run on the raw input. An empty buffer fails at once; a
/// recognised container is decoded and carried on with; anything else is
/// sent to the external decoder.
pub fn process_audio_blob(audio_data: &Vec<u8>) -> (step: Step)
    ensures
        begun(audio_data@, step),
{
    if audio_data.len() == 0 {
        return Step::Failed(PipelineError::EmptyInput);
    }
    match sniff(audio_data) {
        Ok(found) => resume_recognized(found),
        Err(_) => Step::DecodeExternally,
    }
}

/// Carries on after a run of the external decoder, whose output file held
/// `output`.
pub fn resume_external(outcome: ToolOutcome, output: &Vec<u8>) -> (step: Step)
    ensures
        after_external(outcome, output@, step),
{
    match decode_with_ffmpeg(outcome, output) {
        Ok(found) => resume_recognized(found),
        Err(e) => Step::Failed(e),
    }
}

/// Carries on after a run of the filter.
pub fn resume_resampled(outcome: FilterOutcome) -> (step: Step)
    ensures
        after_filter(outcome, step),
{
    match outcome {
        FilterOutcome::InitFailed { detail } => Step::Failed(
            PipelineError::ResamplerInitFailed { detail },
        ),
        FilterOutcome::ProcessFailed { detail } => Step::Failed(
            PipelineError::ResamplerProcessFailed { detail },
        ),
        FilterOutcome::Resampled(samples) => finish(&samples),
    }
}

/// Mono 16-bit input at 16 kHz that passes validation is only put into a
/// new container: the run ends without the decoder or the filter, and where
/// the container is written, it holds as many samples as came in, each at
/// most one step away from the one it was made from.
pub proof fn lemma_normalized_input_passes_through(codes: Seq<i16>, step: Step)
    requires
        verdict(pcm_ticks_all(codes)).is_none(),
        carried_on(pcm_ticks_all(codes), 16000, 1, step),
    ensures
        match step {
            Step::Done(bytes) => {
                let written = quantized_all(pcm_ticks_all(codes));
                &&& bytes@ == pcm16_container(written, 16000, 1)
                &&& written.len() == codes.len()
                &&& forall|i: int|
                    0 <= i < codes.len() ==> codes[i] - 1 <= #[trigger] written[i] <= codes[i] + 1
            },
            Step::Failed(e) => e is IoError,
            _ => false,
        },
{
    let written = quantized_all(pcm_ticks_all(codes));
    assert forall|i: int| 0 <= i < codes.len() implies codes[i] - 1 <= #[trigger] written[i]
        <= codes[i] + 1 by {
        lemma_pcm_round_trip(codes[i]);
    }
}

} // verus!
