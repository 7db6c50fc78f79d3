//! The fallback for buffers that are no canonical container: an external
//! media decoder. The caller runs the program; this module says how to call
//! it and what to make of its result.

use vstd::prelude::*;
use crate::error::PipelineError;
use crate::sniffer::{recognized_as, sniff, unrecognizable, Recognized};

verus! {

/// The sample rate that the external decoder is asked for, in Hz.
pub const EXTERNAL_RATE: u32 = 48000;

/// How a run of the external decoder ended.
#[derive(Debug, Clone, PartialEq, Eq)]
pub enum ToolOutcome {
    /// The program could not be started.
    NotStarted { detail: String },
    /// The program ran; `success` tells whether its exit status was zero.
    Exited { success: bool, stderr: String },
}

/// The name of the decoder program.
pub open spec fn program_name() -> Seq<char> {
    "ffmpeg"@
}

/// The decoder's arguments: read `input`, write 48 kHz mono signed 16-bit
/// PCM in the canonical container to `output`, replace an existing file, and
/// log errors only.
pub open spec fn arguments(input: Seq<char>, output: Seq<char>) -> Seq<Seq<char>> {
    seq![
        "-i"@,
        input,
        "-ar"@,
        "48000"@,
        "-ac"@,
        "1"@,
        "-acodec"@,
        "pcm_s16le"@,
        "-f"@,
        "wav"@,
        "-y"@,
        "-loglevel"@,
        "error"@,
        output,
    ]
}

/// The views of a list of strings.
pub open spec fn views(strings: Seq<String>) -> Seq<Seq<char>> {
    Seq::new(strings.len(), |i: int| strings[i]@)
}

/// The name of the decoder program.
pub fn decoder_program() -> (name: String)
    ensures
        name@ == program_name(),
{
    "ffmpeg".to_owned()
}

/// The arguments with which the decoder turns the file at `input_path` into
/// a canonical container at `output_path`.
pub fn decoder_arguments(input_path: &str, output_path: &str) -> (args: Vec<String>)
    ensures
        views(args@) == arguments(input_path@, output_path@),
{
    let mut args: Vec<String> = Vec::with_capacity(14);
    args.push("-i".to_owned());
    args.push(input_path.to_owned());
    args.push("-ar".to_owned());
    args.push("48000".to_owned());
    args.push("-ac".to_owned());
    args.push("1".to_owned());
    args.push("-acodec".to_owned());
    args.push("pcm_s16le".to_owned());
    args.push("-f".to_owned());
    args.push("wav".to_owned());
    args.push("-y".to_owned());
    args.push("-loglevel".to_owned());
    args.push("error".to_owned());
    args.push(output_path.to_owned());
    assert(views(args@) =~= arguments(input_path@, output_path@));
    args
}

/// Whether `r` is what `decode_with_ffmpeg` makes of a run of the decoder
/// that ended as `outcome` and left `output` behind.
pub open spec fn interpreted(
    outcome: ToolOutcome,
    output: Seq<u8>,
    r: Result<Recognized, PipelineError>,
) -> bool {
    match outcome {
        ToolOutcome::NotStarted { detail } => r == Err::<Recognized, PipelineError>(
            PipelineError::ExternalToolMissing { detail },
        ),
        ToolOutcome::Exited { success, stderr } => if !success {
            r == Err::<Recognized, PipelineError>(PipelineError::ExternalToolFailed { stderr })
        } else {
            match r {
                Ok(found) => recognized_as(output, found),
                Err(e) => e is UnsupportedSampleFormat && unrecognizable(output),
            }
        },
    }
}

/// Makes audio, or an error, of a run of the external decoder. A decoder
/// that did not start is reported as missing, one that failed with its
/// standard error text. After a successful run the bytes it wrote are
/// decoded as any container is.
pub fn decode_with_ffmpeg(outcome: ToolOutcome, output: &Vec<u8>) -> (r: Result<
    Recognized,
    PipelineError,
>)
    ensures
        interpreted(outcome, output@, r),
{
    match outcome {
        ToolOutcome::NotStarted { detail } => Err(PipelineError::ExternalToolMissing { detail }),
        ToolOutcome::Exited { success, stderr } => {
            if !success {
                Err(PipelineError::ExternalToolFailed { stderr })
            } else {
                match sniff(output) {
                    Ok(found) => Ok(found),
                    Err(e) => Err(PipelineError::UnsupportedSampleFormat { detail: e.reason }),
                }
            }
        },
    }
}

} // verus!
