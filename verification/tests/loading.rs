use audio_normalizer::container::{SampleEncoding, WavFormat};
use audio_normalizer::encoder::encode_pcm16;
use audio_normalizer::loader::{check_format, load_audio_file, LoadError, Loaded};
use std::io::Cursor;

fn written(spec: hound::WavSpec, codes: &[i16]) -> Vec<u8> {
    let mut sink = Cursor::new(Vec::new());
    let mut writer = hound::WavWriter::new(&mut sink, spec).unwrap();
    for code in codes {
        writer.write_sample(*code).unwrap();
    }
    writer.finalize().unwrap();
    sink.into_inner()
}

fn int_spec(sample_rate: u32, channels: u16) -> hound::WavSpec {
    hound::WavSpec {
        channels,
        sample_rate,
        bits_per_sample: 16,
        sample_format: hound::SampleFormat::Int,
    }
}

#[test]
fn normalized_container_loads_as_ticks() {
    let bytes = written(int_spec(16000, 1), &[0, 1, -1, 32767, -32768]);
    assert_eq!(load_audio_file(&bytes), Ok(Loaded::Samples(vec![0, 2, -2, 65534, -65536])));
}

#[test]
fn what_the_encoder_wrote_loads_within_one_step() {
    let samples: Vec<i32> = (-2000..2000).map(|i| i * 32).collect();
    let bytes = encode_pcm16(&samples).unwrap();
    match load_audio_file(&bytes) {
        Ok(Loaded::Samples(back)) => {
            assert_eq!(back.len(), samples.len());
            for (a, b) in samples.iter().zip(back.iter()) {
                assert!((a - b).abs() <= 2, "{} came back as {}", a, b);
            }
        }
        other => panic!("unexpected {:?}", other),
    }
}

#[test]
fn other_rates_are_refused() {
    let bytes = written(int_spec(44100, 1), &[1, 2, 3]);
    assert_eq!(load_audio_file(&bytes), Err(LoadError::WrongSampleRate { sample_rate: 44100 }));
}

#[test]
fn more_than_one_channel_is_refused() {
    let bytes = written(int_spec(16000, 2), &[1, 2, 3, 4]);
    assert_eq!(load_audio_file(&bytes), Err(LoadError::NotMono { channels: 2 }));
}

#[test]
fn rate_is_checked_before_channels() {
    let bytes = written(int_spec(48000, 2), &[1, 2, 3, 4]);
    assert_eq!(load_audio_file(&bytes), Err(LoadError::WrongSampleRate { sample_rate: 48000 }));
    let format = WavFormat {
        sample_rate: 48000,
        channels: 2,
        bits_per_sample: 16,
        encoding: SampleEncoding::Int,
    };
    assert_eq!(check_format(format), Err(LoadError::WrongSampleRate { sample_rate: 48000 }));
    assert_eq!(
        check_format(WavFormat { sample_rate: 16000, ..format }),
        Err(LoadError::NotMono { channels: 2 })
    );
    assert_eq!(check_format(WavFormat { sample_rate: 16000, channels: 1, ..format }), Ok(()));
}

#[test]
fn bytes_that_are_no_container_are_unreadable() {
    assert!(matches!(load_audio_file(&vec![1, 2, 3]), Err(LoadError::Unreadable { .. })));
    assert!(matches!(load_audio_file(&Vec::new()), Err(LoadError::Unreadable { .. })));
}

#[test]
fn float_container_at_the_target_rate_is_left_to_the_caller() {
    let spec = hound::WavSpec {
        channels: 1,
        sample_rate: 16000,
        bits_per_sample: 32,
        sample_format: hound::SampleFormat::Float,
    };
    let mut sink = Cursor::new(Vec::new());
    let mut writer = hound::WavWriter::new(&mut sink, spec).unwrap();
    writer.write_sample(0.5f32).unwrap();
    writer.finalize().unwrap();
    let expected = WavFormat {
        sample_rate: 16000,
        channels: 1,
        bits_per_sample: 32,
        encoding: SampleEncoding::Float,
    };
    assert_eq!(load_audio_file(&sink.into_inner()), Ok(Loaded::FloatSamples(expected)));
}
