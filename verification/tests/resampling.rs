use audio_normalizer::resampler::{
    config_for, resample_audio, Interpolation, ResamplePlan, ResampleRequest, SincConfig, Window,
};

#[test]
fn equal_rates_leave_the_samples_untouched() {
    let samples = vec![1, -2, 3, 65536, -65536, i32::MAX, i32::MIN];
    assert_eq!(resample_audio(samples.clone(), 16000, 16000), ResamplePlan::Unchanged(samples.clone()));
    assert_eq!(resample_audio(samples.clone(), 44100, 44100), ResamplePlan::Unchanged(samples.clone()));
    assert_eq!(resample_audio(samples.clone(), 0, 0), ResamplePlan::Unchanged(samples));
    assert_eq!(resample_audio(Vec::new(), 8000, 8000), ResamplePlan::Unchanged(Vec::new()));
}

#[test]
fn different_rates_ask_for_the_filter() {
    let samples = vec![7; 22050];
    let plan = resample_audio(samples.clone(), 44100, 16000);
    let expected = ResampleRequest {
        samples,
        input_rate: 44100,
        output_rate: 16000,
        config: SincConfig {
            sinc_len: 256,
            cutoff_percent: 95,
            interpolation: Interpolation::Linear,
            oversampling_factor: 256,
            window: Window::BlackmanHarris2,
            chunk_size: 22050,
            max_relative_ratio: 2,
            channels: 1,
        },
    };
    assert_eq!(plan, ResamplePlan::Filter(expected));
}

#[test]
fn filter_works_on_the_whole_signal_as_one_block() {
    assert_eq!(config_for(0).chunk_size, 0);
    assert_eq!(config_for(48000).chunk_size, 48000);
    assert_eq!(config_for(48000).sinc_len, 256);
    assert_eq!(config_for(48000).oversampling_factor, 256);
    assert_eq!(config_for(48000).cutoff_percent, 95);
    assert_eq!(config_for(48000).max_relative_ratio, 2);
    assert_eq!(config_for(48000).channels, 1);
}

#[test]
fn a_rate_of_zero_gives_no_ratio() {
    assert_eq!(resample_audio(vec![1, 2, 3], 0, 16000), ResamplePlan::NoRatio);
    assert_eq!(resample_audio(vec![1, 2, 3], 16000, 0), ResamplePlan::NoRatio);
}

fn filtered_len(len: usize, input_rate: u32, output_rate: u32) -> usize {
    let samples: Vec<i32> = (0..len).map(|i| if (i / 16) % 2 == 0 { 20000 } else { -20000 }).collect();
    let request = match resample_audio(samples, input_rate, output_rate) {
        ResamplePlan::Filter(request) => request,
        other => panic!("unexpected {:?}", other),
    };
    let parameters = rubato::SincInterpolationParameters {
        sinc_len: request.config.sinc_len,
        f_cutoff: f32::from(request.config.cutoff_percent) / 100.0,
        interpolation: rubato::SincInterpolationType::Linear,
        oversampling_factor: request.config.oversampling_factor,
        window: rubato::WindowFunction::BlackmanHarris2,
    };
    let mut filter = rubato::SincFixedIn::<f32>::new(
        f64::from(request.output_rate) / f64::from(request.input_rate),
        f64::from(request.config.max_relative_ratio),
        parameters,
        request.config.chunk_size,
        request.config.channels,
    )
    .unwrap();
    let input: Vec<f32> = request.samples.iter().map(|t| *t as f32 / 65536.0).collect();
    rubato::Resampler::process(&mut filter, &[input], None).unwrap()[0].len()
}

#[test]
fn resampled_length_follows_the_rate_ratio() {
    for (len, input_rate, output_rate) in
        [(48000usize, 48000u32, 16000u32), (8000, 8000, 16000), (22050, 44100, 16000), (3000, 22050, 16000)]
    {
        let expected = len as u64 * u64::from(output_rate) / u64::from(input_rate);
        let got = filtered_len(len, input_rate, output_rate) as u64;
        // The filter holds back half a kernel of input, and a few samples more.
        let delay = 128 * u64::from(output_rate) / u64::from(input_rate) + 16;
        assert!(
            got + delay >= expected && got <= expected + delay,
            "{} samples at {} Hz gave {} at {} Hz",
            len,
            input_rate,
            got,
            output_rate
        );
    }
}
