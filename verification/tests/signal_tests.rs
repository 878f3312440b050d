use rand::Rng;
use signal_stats::signal::{scale_samples, sine_arguments, validate_random_signal};

fn bits(x: f64) -> u64 {
    x.to_bits()
}

fn val(b: u64) -> f64 {
    f64::from_bits(b)
}

#[test]
fn sine_arguments_are_exact_multiples() {
    let period = 1.57f64;
    let args = sine_arguments(4, bits(period));
    assert_eq!(args.len(), 5);
    for (i, &a) in args.iter().enumerate() {
        assert_eq!(a, bits(period * i as f64));
    }
}

#[test]
fn scale_samples_multiplies_each_sample() {
    let samples = vec![bits(0.5), bits(-2.0), bits(3.25)];
    let scaled = scale_samples(bits(4.0), &samples);
    assert_eq!(scaled.len(), 3);
    assert_eq!(val(scaled[0]), 2.0);
    assert_eq!(val(scaled[1]), -8.0);
    assert_eq!(val(scaled[2]), 13.0);
}

#[test]
fn sine_signal_end_to_end() {
    let sample_count = 100;
    let args = sine_arguments(sample_count, bits(1.57));
    assert_eq!(args.len(), 101);
    let sines: Vec<u64> = args.iter().map(|&a| bits(val(a).sin())).collect();
    let signal = scale_samples(bits(1.0), &sines);
    assert_eq!(signal.len(), 101);
    assert_eq!(val(signal[0]), 0.0);
    assert!((val(signal[1]) - 0.99999968).abs() < 1e-6);
}

#[test]
fn random_signal_in_range_is_accepted() {
    let mut rng = rand::thread_rng();
    let samples: Vec<u64> = (0..=50).map(|_| bits(rng.gen_range(0.0f64..=10.0))).collect();
    assert!(validate_random_signal(&samples, 50));
}

#[test]
fn random_signal_of_wrong_length_is_rejected() {
    let samples = vec![bits(1.0); 50];
    assert!(!validate_random_signal(&samples, 50));
}

#[test]
fn random_signal_out_of_range_is_rejected() {
    let mut samples = vec![bits(5.0); 51];
    samples[17] = bits(10.5);
    assert!(!validate_random_signal(&samples, 50));
    samples[17] = bits(-0.25);
    assert!(!validate_random_signal(&samples, 50));
    samples[17] = bits(f64::NAN);
    assert!(!validate_random_signal(&samples, 50));
    samples[17] = bits(10.0);
    assert!(validate_random_signal(&samples, 50));
}
