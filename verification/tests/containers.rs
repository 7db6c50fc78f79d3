use audio_normalizer::audio::DecodedAudio;
use audio_normalizer::container::{SampleEncoding, WavFormat, MAX_PCM16_SAMPLES};
use audio_normalizer::encoder::encode_pcm16;
use audio_normalizer::sniffer::{decode_pcm, sniff, Recognized};
use std::io::Cursor;

fn container_of(
    sample_rate: u32,
    channels: u16,
    bits_per_sample: u16,
    sample_format: hound::SampleFormat,
) -> (Cursor<Vec<u8>>, hound::WavSpec) {
    (
        Cursor::new(Vec::new()),
        hound::WavSpec { channels, sample_rate, bits_per_sample, sample_format },
    )
}

fn int16_container(sample_rate: u32, channels: u16, codes: &[i16]) -> Vec<u8> {
    let (mut sink, spec) = container_of(sample_rate, channels, 16, hound::SampleFormat::Int);
    let mut writer = hound::WavWriter::new(&mut sink, spec).unwrap();
    for code in codes {
        writer.write_sample(*code).unwrap();
    }
    writer.finalize().unwrap();
    sink.into_inner()
}

#[test]
fn encoded_container_is_byte_exact() {
    let bytes = encode_pcm16(&vec![0, 65536, -65536]).unwrap();
    let expected: Vec<u8> = vec![
        0x52, 0x49, 0x46, 0x46, 0x2a, 0x00, 0x00, 0x00, 0x57, 0x41, 0x56, 0x45, 0x66, 0x6d, 0x74,
        0x20, 0x10, 0x00, 0x00, 0x00, 0x01, 0x00, 0x01, 0x00, 0x80, 0x3e, 0x00, 0x00, 0x00, 0x7d,
        0x00, 0x00, 0x02, 0x00, 0x10, 0x00, 0x64, 0x61, 0x74, 0x61, 0x06, 0x00, 0x00, 0x00, 0x00,
        0x00, 0xff, 0x7f, 0x01, 0x80,
    ];
    assert_eq!(bytes, expected);
}

#[test]
fn empty_signal_is_a_bare_header() {
    let bytes = encode_pcm16(&Vec::new()).unwrap();
    assert_eq!(bytes.len(), 44);
    assert_eq!(&bytes[4..8], &[36, 0, 0, 0]);
    assert_eq!(&bytes[40..44], &[0, 0, 0, 0]);
}

#[test]
fn encoded_container_reads_back_as_mono_16_khz_16_bit() {
    let samples: Vec<i32> = vec![0, 2, -2, 32768, -32768, 65536, -65536, 70000, -70000, 12345];
    let bytes = encode_pcm16(&samples).unwrap();
    assert_eq!(bytes.len(), 44 + 2 * samples.len());
    let reader = hound::WavReader::new(Cursor::new(&bytes)).unwrap();
    let spec = reader.spec();
    assert_eq!(spec.channels, 1);
    assert_eq!(spec.sample_rate, 16000);
    assert_eq!(spec.bits_per_sample, 16);
    assert_eq!(spec.sample_format, hound::SampleFormat::Int);
    let codes: Vec<i16> = reader.into_samples::<i16>().map(|s| s.unwrap()).collect();
    assert_eq!(codes, vec![0, 1, -1, 16384, -16384, 32767, -32767, 32767, -32768, 6172]);
}

#[test]
fn sample_limit_of_a_container_leaves_room_for_the_header() {
    assert_eq!(MAX_PCM16_SAMPLES as u64 * 2 + 36, u32::MAX as u64 - 1);
}

#[test]
fn integer_container_is_decoded_in_full() {
    let bytes = int16_container(44100, 2, &[0, 1, -1, 32767, -32768, 100]);
    let expected = DecodedAudio {
        samples: vec![0, 2, -2, 65534, -65536, 200],
        sample_rate: 44100,
        channel_count: 2,
    };
    assert_eq!(sniff(&bytes), Ok(Recognized::Decoded(expected)));
}

#[test]
fn eight_bit_samples_are_read_on_the_16_bit_scale() {
    let (mut sink, spec) = container_of(8000, 1, 8, hound::SampleFormat::Int);
    let mut writer = hound::WavWriter::new(&mut sink, spec).unwrap();
    for code in [0i8, 127, -128, 5] {
        writer.write_sample(code).unwrap();
    }
    writer.finalize().unwrap();
    let expected =
        DecodedAudio { samples: vec![0, 254, -256, 10], sample_rate: 8000, channel_count: 1 };
    assert_eq!(sniff(&sink.into_inner()), Ok(Recognized::Decoded(expected)));
}

#[test]
fn float_container_gives_its_header_only() {
    let (mut sink, spec) = container_of(48000, 1, 32, hound::SampleFormat::Float);
    let mut writer = hound::WavWriter::new(&mut sink, spec).unwrap();
    for amplitude in [0.0f32, 0.5, -0.25] {
        writer.write_sample(amplitude).unwrap();
    }
    writer.finalize().unwrap();
    let expected = WavFormat {
        sample_rate: 48000,
        channels: 1,
        bits_per_sample: 32,
        encoding: SampleEncoding::Float,
    };
    assert_eq!(sniff(&sink.into_inner()), Ok(Recognized::FloatSamples(expected)));
}

#[test]
fn wide_integer_samples_are_not_recognized() {
    let (mut sink, spec) = container_of(44100, 1, 24, hound::SampleFormat::Int);
    let mut writer = hound::WavWriter::new(&mut sink, spec).unwrap();
    writer.write_sample(1000i32).unwrap();
    writer.finalize().unwrap();
    let r = sniff(&sink.into_inner());
    assert!(r.is_err());
    assert!(!r.unwrap_err().reason.is_empty());
}

#[test]
fn bad_magic_is_not_recognized() {
    let mut bytes = int16_container(16000, 1, &[1, 2, 3]);
    bytes[0] = b'X';
    assert!(sniff(&bytes).is_err());
    assert!(sniff(&Vec::new()).is_err());
    assert!(sniff(&b"OggS\0\x02garbage that is no container at all".to_vec()).is_err());
}

#[test]
fn truncated_container_is_not_recognized() {
    let bytes = int16_container(16000, 1, &[1, 2, 3, 4]);
    assert!(sniff(&bytes[..20].to_vec()).is_err());
    // A header that promises more samples than follow.
    assert!(sniff(&bytes[..bytes.len() - 2].to_vec()).is_err());
}

#[test]
fn decoding_keeps_rate_and_channels_of_the_header() {
    let format = WavFormat {
        sample_rate: 22050,
        channels: 2,
        bits_per_sample: 16,
        encoding: SampleEncoding::Int,
    };
    let audio = decode_pcm(format, &vec![3, -4]);
    assert_eq!(audio, DecodedAudio::new(vec![6, -8], 22050, 2));
    assert!(!audio.normalized());
    assert!(DecodedAudio::new(Vec::new(), 16000, 1).normalized());
    assert!(!DecodedAudio::new(Vec::new(), 16000, 2).normalized());
}
