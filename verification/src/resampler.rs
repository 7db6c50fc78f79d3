//! Deciding how a signal gets from its own rate to another.
//!
//! The filter itself works in floating point and is run by the caller; what
//! is fixed here is when it runs and with which parameters.

use vstd::prelude::*;

verus! {

/// How the filter interpolates between the taps of its oversampled kernel.
#[derive(Debug, Clone, Copy, PartialEq, Eq, Structural)]
pub enum Interpolation {
    Linear,
}

/// The window that shapes the filter's kernel.
#[derive(Debug, Clone, Copy, PartialEq, Eq, Structural)]
pub enum Window {
    /// Blackman-Harris, second order.
    BlackmanHarris2,
}

/// The parameters of the band-limited interpolation filter.
#[derive(Debug, Clone, Copy, PartialEq, Eq, Structural)]
pub struct SincConfig {
    /// Length of the kernel, in taps.
    pub sinc_len: usize,
    /// Cutoff frequency, in hundredths of the Nyquist frequency.
    pub cutoff_percent: u8,
    /// Interpolation between kernel taps.
    pub interpolation: Interpolation,
    /// How many times the kernel is oversampled.
    pub oversampling_factor: usize,
    /// The kernel's window.
    pub window: Window,
    /// Frames handed to the filter at once.
    pub chunk_size: usize,
    /// The most by which the ratio may later be changed, as a factor.
    pub max_relative_ratio: u8,
    /// Channels filtered side by side.
    pub channels: usize,
}

/// A signal for the filter, with the rates it has and is to have.
#[derive(Debug, Clone, PartialEq, Eq)]
pub struct ResampleRequest {
    pub samples: Vec<i32>,
    pub input_rate: u32,
    pub output_rate: u32,
    pub config: SincConfig,
}

/// What has to happen to a signal to change its rate.
#[derive(Debug, Clone, PartialEq, Eq)]
pub enum ResamplePlan {
    /// The rates are equal: these are the samples, untouched.
    Unchanged(Vec<i32>),
    /// The filter has to run on this request.
    Filter(ResampleRequest),
    /// A rate of zero: there is no ratio to resample by.
    NoRatio,
}

/// The filter parameters for a signal of `len` samples: a kernel of 256 taps
/// cut off at 0.95 of Nyquist, windowed with Blackman-Harris, oversampled 256
/// times with linear interpolation, run on the whole signal as one block of
/// one channel.
pub open spec fn standard_config(len: nat) -> SincConfig {
    SincConfig {
        sinc_len: 256,
        cutoff_percent: 95,
        interpolation: Interpolation::Linear,
        oversampling_factor: 256,
        window: Window::BlackmanHarris2,
        chunk_size: len as usize,
        max_relative_ratio: 2,
        channels: 1,
    }
}

/// What `resample_audio` plans for the given rates: nothing where they are
/// equal, else the filter, unless one of them is zero.
pub open spec fn planned(samples: Seq<i32>, input_rate: u32, output_rate: u32, plan: ResamplePlan)
    -> bool {
    if input_rate == output_rate {
        plan matches ResamplePlan::Unchanged(same) && same@ == samples
    } else if input_rate == 0 || output_rate == 0 {
        plan is NoRatio
    } else {
        plan matches ResamplePlan::Filter(request) && request.samples@ == samples
            && request.input_rate == input_rate && request.output_rate == output_rate
            && request.config == standard_config(samples.len())
    }
}

/// Builds the filter parameters for a signal of `len` samples.
pub fn config_for(len: usize) -> (config: SincConfig)
    ensures
        config == standard_config(len as nat),
{
    SincConfig {
        sinc_len: 256,
        cutoff_percent: 95,
        interpolation: Interpolation::Linear,
        oversampling_factor: 256,
        window: Window::BlackmanHarris2,
        chunk_size: len,
        max_relative_ratio: 2,
        channels: 1,
    }
}

/// Plans the change of `samples` from `input_rate` to `output_rate`. Equal
/// rates hand the samples back as they are.
pub fn resample_audio(samples: Vec<i32>, input_rate: u32, output_rate: u32) -> (plan: ResamplePlan)
    ensures
        planned(samples@, input_rate, output_rate, plan),
{
    if input_rate == output_rate {
        ResamplePlan::Unchanged(samples)
    } else if input_rate == 0 || output_rate == 0 {
        ResamplePlan::NoRatio
    } else {
        let config = config_for(samples.len());
        ResamplePlan::Filter(ResampleRequest { samples, input_rate, output_rate, config })
    }
}

/// Resampling to the rate that a signal already has changes nothing.
pub proof fn lemma_same_rate_is_identity(samples: Seq<i32>, rate: u32, plan: ResamplePlan)
    requires
        planned(samples, rate, rate, plan),
    ensures
        plan matches ResamplePlan::Unchanged(same) && same@ == samples,
{
}

} // verus!
