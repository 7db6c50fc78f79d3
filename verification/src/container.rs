//! The canonical PCM container (RIFF/WAVE), read and written through `hound`.
//!
//! Reading is `hound`'s work and its result is only named here. What is
//! written for 16-bit integer samples is short enough to be stated outright:
//! see [`pcm16_container`].

use vstd::prelude::*;

verus! {

/// How a container stores one sample.
#[derive(Debug, Clone, Copy, PartialEq, Eq, Structural)]
pub enum SampleEncoding {
    /// Signed integers.
    Int,
    /// IEEE floating point.
    Float,
}

/// What the header of a container says of its samples.
#[derive(Debug, Clone, Copy, PartialEq, Eq, Structural)]
pub struct WavFormat {
    /// Samples per second and channel.
    pub sample_rate: u32,
    /// Number of interleaved channels.
    pub channels: u16,
    /// Significant bits in one sample.
    pub bits_per_sample: u16,
    /// Integer or floating point.
    pub encoding: SampleEncoding,
}

/// `hound`'s error type, carried through unopened.
#[verifier::external_type_specification]
#[verifier::external_body]
pub struct ExHoundError(hound::Error);

/// The format that `hound::WavReader::new` finds in the header of `bytes`, or
/// `None` where it rejects them.
pub uninterp spec fn wav_format_of(bytes: Seq<u8>) -> Option<WavFormat>;

/// The samples that `hound` reads from `bytes` as 16-bit integers, all of
/// them in file order, or `None` where the header or any sample is rejected.
pub uninterp spec fn wav_pcm16_of(bytes: Seq<u8>) -> Option<Seq<i16>>;

/// The two bytes of `x`, low byte first.
pub open spec fn le16(x: int) -> Seq<u8>
    recommends
        0 <= x < 0x1_0000,
{
    seq![(x % 256) as u8, (x / 256) as u8]
}

/// The four bytes of `x`, low byte first.
pub open spec fn le32(x: int) -> Seq<u8>
    recommends
        0 <= x < 0x1_0000_0000,
{
    seq![
        (x % 256) as u8,
        (x / 256 % 256) as u8,
        (x / 65536 % 256) as u8,
        (x / 16777216) as u8,
    ]
}

/// The 16-bit pattern of a signed sample, as an unsigned number.
pub open spec fn pattern16(code: i16) -> int {
    if code < 0 {
        code + 0x1_0000
    } else {
        code as int
    }
}

/// The samples of a data chunk: two bytes each, low byte first.
pub open spec fn pcm16_data(samples: Seq<i16>) -> Seq<u8> {
    Seq::new(
        2 * samples.len(),
        |i: int|
            if i % 2 == 0 {
                (pattern16(samples[i / 2]) % 256) as u8
            } else {
                (pattern16(samples[i / 2]) / 256) as u8
            },
    )
}

/// The 44 bytes that stand before the samples of a 16-bit integer container
/// with `data_len` bytes of samples.
pub open spec fn pcm16_header(data_len: int, sample_rate: u32, channels: u16) -> Seq<u8> {
    seq![0x52u8, 0x49, 0x46, 0x46] + le32(data_len + 36) + seq![
        0x57u8,
        0x41,
        0x56,
        0x45,
        0x66,
        0x6d,
        0x74,
        0x20,
    ] + le32(16) + le16(1) + le16(channels as int) + le32(sample_rate as int) + le32(
        sample_rate * 2 * channels,
    ) + le16(2 * channels) + le16(16) + seq![0x64u8, 0x61, 0x74, 0x61] + le32(data_len)
}

/// The whole container for `samples`: header, then data.
pub open spec fn pcm16_container(samples: Seq<i16>, sample_rate: u32, channels: u16) -> Seq<u8> {
    pcm16_header(2 * (samples.len() as int), sample_rate, channels) + pcm16_data(samples)
}

/// What `hound::WavWriter` leaves in memory when `samples` are written as a
/// 16-bit integer container at `sample_rate` with `channels` channels, or
/// `None` where it reports an error.
pub uninterp spec fn pcm16_written(samples: Seq<i16>, sample_rate: u32, channels: u16) -> Option<
    Seq<u8>,
>;

/// The largest number of 16-bit samples that one container can hold: its
/// length fields are 32 bits wide and count the 36 header bytes too.
pub const MAX_PCM16_SAMPLES: usize = 2147483629;

/// Calls `hound::WavReader::new` on `bytes` and then `spec`. The contract
/// claims only that the outcome is a function of the bytes: it succeeds where
/// `wav_format_of` has a value, and then returns that value.
#[verifier::external_body]
pub(crate) fn read_format(bytes: &Vec<u8>) -> (r: Result<WavFormat, hound::Error>)
    ensures
        match r {
            Ok(format) => wav_format_of(bytes@) == Some(format),
            Err(_) => wav_format_of(bytes@).is_none(),
        },
{
    let spec = hound::WavReader::new(std::io::Cursor::new(bytes))?.spec();
    Ok(
        WavFormat {
            sample_rate: spec.sample_rate,
            channels: spec.channels,
            bits_per_sample: spec.bits_per_sample,
            encoding: match spec.sample_format {
                hound::SampleFormat::Int => SampleEncoding::Int,
                hound::SampleFormat::Float => SampleEncoding::Float,
            },
        },
    )
}

/// Calls `hound::WavReader::new` on `bytes` and collects `into_samples` at
/// 16 bits. The contract claims only that the outcome is a function of the
/// bytes: it succeeds where `wav_pcm16_of` has a value, and then returns it.
#[verifier::external_body]
pub(crate) fn read_pcm16(bytes: &Vec<u8>) -> (r: Result<Vec<i16>, hound::Error>)
    ensures
        match r {
            Ok(codes) => wav_pcm16_of(bytes@) == Some(codes@),
            Err(_) => wav_pcm16_of(bytes@).is_none(),
        },
{
    hound::WavReader::new(std::io::Cursor::new(bytes))?.into_samples().collect()
}

/// Writes `samples` with `hound::WavWriter` (`new`, `write_sample` for each,
/// `finalize`) into memory and returns the bytes. The contract claims that a
/// successful write gives exactly `pcm16_container`: the PCMWAVEFORMAT header
/// of 44 bytes that `hound` writes for 16-bit integer samples on one or two
/// channels, then each sample as two bytes. Of when the write succeeds it
/// claims only that this is a function of the arguments, named
/// `pcm16_written`. The bounds keep `hound`'s 32-bit byte counts from
/// overflowing and its divisions by rate and channel count from dividing by
/// zero.
#[verifier::external_body]
pub(crate) fn write_pcm16(samples: &Vec<i16>, sample_rate: u32, channels: u16) -> (r: Result<
    Vec<u8>,
    hound::Error,
>)
    requires
        samples.len() <= MAX_PCM16_SAMPLES,
        1 <= channels <= 2,
        1 <= sample_rate,
        sample_rate * 2 * channels <= u32::MAX,
    ensures
        match r {
            Ok(bytes) => pcm16_written(samples@, sample_rate, channels) == Some(bytes@),
            Err(_) => pcm16_written(samples@, sample_rate, channels).is_none(),
        },
        r matches Ok(bytes) ==> bytes@ == pcm16_container(samples@, sample_rate, channels),
{
    let spec = hound::WavSpec {
        channels,
        sample_rate,
        bits_per_sample: 16,
        sample_format: hound::SampleFormat::Int,
    };
    let mut sink = std::io::Cursor::new(Vec::new());
    let mut writer = hound::WavWriter::new(&mut sink, spec)?;
    for code in samples.iter() {
        writer.write_sample(*code)?;
    }
    writer.finalize()?;
    Ok(sink.into_inner())
}

/// Formats a `hound::Error` with its `Display` impl. Nothing is claimed of
/// the text.
#[verifier::external_body]
pub(crate) fn error_text(error: &hound::Error) -> (text: String) {
    format!("{}", error)
}

} // verus!
