use signal_stats::stats::{
    get_cov, get_mean, get_rms, get_std_dev, get_typical_error, StatsError, QUANTIZED_DOMAIN_MAX,
};

fn bits(x: f64) -> u64 {
    x.to_bits()
}

fn val(b: u64) -> f64 {
    f64::from_bits(b)
}

fn ones(n: usize) -> Vec<u64> {
    vec![bits(1.0); n]
}

#[test]
fn window_constant_is_eleven() {
    assert_eq!(QUANTIZED_DOMAIN_MAX, 11);
}

#[test]
fn mean_of_eleven_ones() {
    // sum of the indices 0 through 10 is 55; divided by the count 11.
    let m = get_mean(&ones(11), 11).unwrap();
    assert_eq!(val(m), 5.0);
}

#[test]
fn mean_is_pure() {
    let signal = vec![bits(0.25), bits(-1.5), bits(3.0)]
        .into_iter()
        .chain(ones(8))
        .collect::<Vec<u64>>();
    let a = get_mean(&signal, 42).unwrap();
    let b = get_mean(&signal, 42).unwrap();
    assert_eq!(a, b);
}

#[test]
fn std_dev_of_eleven_ones() {
    // only the last window index contributes: sqrt(10 - 5) * 1, over 10.
    let d = get_std_dev(&ones(11), bits(5.0), 11).unwrap();
    assert!((val(d) - 0.2236068).abs() < 5e-4);
    assert_eq!(val(d), 5.0f64.sqrt() * 1.0 / 10.0);
}

#[test]
fn std_dev_reads_only_the_last_window_index() {
    let mut a = ones(11);
    a[0] = bits(100.0);
    a[5] = bits(-3.75);
    let b = ones(11);
    let da = get_std_dev(&a, bits(5.0), 11).unwrap();
    let db = get_std_dev(&b, bits(5.0), 11).unwrap();
    assert_eq!(da, db);
}

#[test]
fn std_dev_is_nan_when_mean_exceeds_ten() {
    let d = get_std_dev(&ones(11), bits(12.0), 11).unwrap();
    assert!(val(d).is_nan());
}

#[test]
fn rms_of_eleven_ones() {
    // eleven squares of one sum to 11; divided by the count 11; root is 1.
    let r = get_rms(&ones(11), 11).unwrap();
    assert_eq!(val(r), 1.0);
}

#[test]
fn rms_squares_each_sample() {
    // eleven twos: squares sum to 44; over 11 gives 4; root is 2.
    let r = get_rms(&vec![bits(2.0); 11], 11).unwrap();
    assert_eq!(val(r), 2.0);
}

#[test]
fn rms_is_non_negative_on_a_mixed_signal() {
    let signal = vec![
        bits(-3.0),
        bits(2.5),
        bits(-0.001),
        bits(7.0),
        bits(-8.25),
        bits(0.0),
        bits(1.0),
        bits(-1.0),
        bits(4.5),
        bits(-6.125),
        bits(9.0),
    ];
    let r = get_rms(&signal, 11).unwrap();
    assert!(val(r) >= 0.0);
}

#[test]
fn short_signals_are_rejected() {
    for n in [0usize, 1, 5, 10] {
        let signal = ones(n);
        assert!(matches!(get_mean(&signal, n), Err(StatsError::InsufficientSamples)));
        assert!(matches!(
            get_std_dev(&signal, bits(1.0), n),
            Err(StatsError::InsufficientSamples)
        ));
        assert!(matches!(get_rms(&signal, n), Err(StatsError::InsufficientSamples)));
    }
    assert!(get_mean(&ones(11), 11).is_ok());
}

#[test]
fn typical_error_divides_by_squared_count() {
    let t = get_typical_error(bits(2.0), 10).unwrap();
    assert_eq!(val(t), 0.02);
}

#[test]
fn cov_as_a_percentage() {
    let c = get_cov(bits(5.0), bits(0.5)).unwrap();
    assert_eq!(val(c), 10.0);
}

#[test]
fn cov_with_zero_mean_is_not_finite() {
    let c = get_cov(bits(0.0), bits(5.0)).unwrap();
    assert!(val(c).is_infinite());
    let c = get_cov(bits(0.0), bits(0.0)).unwrap();
    assert!(val(c).is_nan());
}

#[test]
fn stats_read_only_the_window() {
    let mut long = ones(101);
    for k in 11..101 {
        long[k] = bits(1000.0 + k as f64);
    }
    let short = ones(11);
    assert_eq!(get_mean(&long, 101).unwrap(), get_mean(&short, 101).unwrap());
    assert_eq!(
        get_std_dev(&long, bits(5.0), 101).unwrap(),
        get_std_dev(&short, bits(5.0), 101).unwrap()
    );
    assert_eq!(get_rms(&long, 101).unwrap(), get_rms(&short, 101).unwrap());
}

#[test]
fn full_pipeline_on_a_sine_signal() {
    let args = signal_stats::signal::sine_arguments(100, bits(1.57));
    let sines: Vec<u64> = args.iter().map(|&a| bits(val(a).sin())).collect();
    let signal = signal_stats::signal::scale_samples(bits(1.0), &sines);
    let n = signal.len();

    let mean = get_mean(&signal, n).unwrap();
    let std_dev = get_std_dev(&signal, mean, n).unwrap();
    let rms = get_rms(&signal, n).unwrap();
    let err = get_typical_error(std_dev, n).unwrap();
    let cov = get_cov(mean, std_dev).unwrap();

    // the window holds sin(0), sin(1.57), ..., sin(15.7); the weighted
    // sum, the squares and the quotients below are computed with
    // ordinary hardware arithmetic for comparison.
    let window: Vec<f64> = (0..11).map(|k| (1.57 * k as f64).sin()).collect();
    let mut wsum = 0.0f64;
    for (k, v) in window.iter().enumerate() {
        wsum += k as f64 * v;
    }
    let expect_mean = wsum / 101.0;
    assert!((val(mean) - expect_mean).abs() < 1e-9);

    let expect_sd = (10.0f64 - expect_mean).sqrt() * window[10] / 100.0;
    assert!((val(std_dev) - expect_sd).abs() < 1e-9);

    let mut sq = 0.0f64;
    for v in window.iter() {
        sq += v * v;
    }
    let expect_rms = (sq / 101.0).sqrt();
    assert!((val(rms) - expect_rms).abs() < 1e-9);

    assert!((val(err) - expect_sd / (101.0 * 101.0)).abs() < 1e-12);
    assert!((val(cov) - expect_sd / expect_mean * 100.0).abs() < 1e-6);
}

#[test]
fn rms_with_a_nan_sample_is_nan() {
    let mut signal = ones(11);
    signal[3] = bits(f64::NAN);
    let r = get_rms(&signal, 11).unwrap();
    assert!(val(r).is_nan());
}
