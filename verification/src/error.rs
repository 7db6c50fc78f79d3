//! The ways in which a run of the pipeline can fail.

use vstd::prelude::*;
use crate::mixer::UnsupportedChannelLayout;
use crate::validator::ValidationError;

verus! {

/// A read or write that failed, with what the failing party said.
#[derive(Debug, Clone, PartialEq, Eq)]
pub struct IoError {
    pub detail: String,
}

/// Every failure of the pipeline. Text that came from outside (a tool's
/// standard error, a reader's complaint) is carried along as a field.
#[derive(Debug, Clone, PartialEq, Eq)]
pub enum PipelineError {
    /// The input buffer holds no bytes.
    EmptyInput,
    /// The external decoder could not be started.
    ExternalToolMissing { detail: String },
    /// The external decoder ran and reported failure.
    ExternalToolFailed { stderr: String },
    /// The external decoder's output could not be decoded.
    UnsupportedSampleFormat { detail: String },
    /// Neither one nor two channels.
    UnsupportedChannelLayout { channel_count: u16 },
    /// Fewer samples than the recogniser needs.
    TooShort { samples: usize },
    /// No audible sample.
    Silent { samples: usize },
    /// Less than one audible sample in a hundred.
    MostlySilent { audible: usize, samples: usize },
    /// The resampler could not be set up.
    ResamplerInitFailed { detail: String },
    /// The resampler failed on the signal.
    ResamplerProcessFailed { detail: String },
    /// Reading, writing or finishing a container failed.
    IoError { detail: String },
}

/// The pipeline error that stands for a verdict of the validator.
pub open spec fn of_validation(e: ValidationError) -> PipelineError {
    match e {
        ValidationError::TooShort { samples } => PipelineError::TooShort { samples },
        ValidationError::Silent { samples } => PipelineError::Silent { samples },
        ValidationError::MostlySilent { audible, samples } => PipelineError::MostlySilent {
            audible,
            samples,
        },
    }
}

impl PipelineError {
    /// Turns a verdict of the validator into a pipeline error.
    pub fn from_validation(e: ValidationError) -> (r: PipelineError)
        ensures
            r == of_validation(e),
    {
        match e {
            ValidationError::TooShort { samples } => PipelineError::TooShort { samples },
            ValidationError::Silent { samples } => PipelineError::Silent { samples },
            ValidationError::MostlySilent { audible, samples } => PipelineError::MostlySilent {
                audible,
                samples,
            },
        }
    }

    /// Turns a refusal of the mixer into a pipeline error.
    pub fn from_channel_layout(e: UnsupportedChannelLayout) -> (r: PipelineError)
        ensures
            r == (PipelineError::UnsupportedChannelLayout { channel_count: e.channel_count }),
    {
        PipelineError::UnsupportedChannelLayout { channel_count: e.channel_count }
    }

    /// Turns a failed read or write into a pipeline error.
    pub fn from_io(e: IoError) -> (r: PipelineError)
        ensures
            r == (PipelineError::IoError { detail: e.detail }),
    {
        PipelineError::IoError { detail: e.detail }
    }
}

} // verus!
