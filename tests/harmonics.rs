use seriessynth::harmonics::{
    nyquist_limit, partial_at, partial_count, width_divisor, AmpWidth, Partial, Waveform, HARMONICS_COUNT,
};

#[test]
fn width_divisors_follow_the_mode() {
    assert_eq!(width_divisor(AmpWidth::Flat, 0), 1);
    assert_eq!(width_divisor(AmpWidth::Flat, 9), 1);
    assert_eq!(width_divisor(AmpWidth::InverseLinear, 0), 1);
    assert_eq!(width_divisor(AmpWidth::InverseLinear, 4), 5);
    assert_eq!(width_divisor(AmpWidth::InverseSquare, 0), 1);
    assert_eq!(width_divisor(AmpWidth::InverseSquare, 4), 25);
    assert_eq!(width_divisor(AmpWidth::InverseSquare, 30), 961);
}

#[test]
fn relative_weight_against_the_fundamental() {
    for i in 0..HARMONICS_COUNT {
        let n = (i + 1) as f64;
        for (width, expected) in [
            (AmpWidth::Flat, 1.0),
            (AmpWidth::InverseLinear, 1.0 / n),
            (AmpWidth::InverseSquare, 1.0 / (n * n)),
        ] {
            let p = partial_at(width, Waveform::Plain, 0, i as u64);
            assert!(!p.squared);
            let fundamental = partial_at(width, Waveform::Plain, 0, 0);
            let ratio = (1.0 / p.divisor as f64) / (1.0 / fundamental.divisor as f64);
            assert!((ratio - expected).abs() < 1e-12);
        }
    }
}

#[test]
fn amp_width_index_round_trip() {
    for i in 0..3 {
        assert_eq!(AmpWidth::from_index(i).to_index(), i);
    }
    assert_eq!(AmpWidth::from_index(1), AmpWidth::InverseLinear);
}

#[test]
fn nyquist_limit_guards_a_still_voice() {
    assert_eq!(nyquist_limit(0), 0);
}

#[test]
fn nyquist_limit_counts_harmonics_below_the_rate() {
    // A 440 Hz tone at 44.1 kHz advances 440/44100 of a cycle per sample.
    let step = ((440.0f64 / 44100.0) * 4294967296.0).round() as u32;
    assert_eq!(nyquist_limit(step), 100);
    assert_eq!(nyquist_limit(1 << 31), 2);
    assert_eq!(nyquist_limit(1), 1 << 32);
}

#[test]
fn plain_waveform_has_only_the_explicit_harmonics() {
    assert_eq!(partial_count(Waveform::Plain, 0), 31);
    assert_eq!(partial_count(Waveform::Plain, 100_000), 31);
}

#[test]
fn pure_fundamental_is_the_first_partial() {
    let p = partial_at(AmpWidth::Flat, Waveform::Plain, 100, 0);
    assert_eq!(p, Partial { multiple: 1, divisor: 1, squared: false, negative: false, coefficient: Some(0) });
    let last = partial_at(AmpWidth::Flat, Waveform::Plain, 100, 30);
    assert_eq!(last, Partial { multiple: 31, divisor: 1, squared: false, negative: false, coefficient: Some(30) });
}

#[test]
fn square_series_continues_past_the_table() {
    assert_eq!(partial_count(Waveform::Square, 100), 31 + 68);
    assert_eq!(partial_count(Waveform::Square, 32), 31);
    assert_eq!(partial_count(Waveform::Square, 30), 31);
    let first = partial_at(AmpWidth::Flat, Waveform::Square, 100, 31);
    assert_eq!(first, Partial { multiple: 32, divisor: 64, squared: false, negative: false, coefficient: None });
    let last = partial_at(AmpWidth::Flat, Waveform::Square, 100, 31 + 67);
    assert_eq!(last, Partial { multiple: 99, divisor: 198, squared: false, negative: false, coefficient: None });
}

#[test]
fn triangle_series_alternates_sign() {
    assert_eq!(partial_count(Waveform::Triangle, 40), 31 + 8);
    let even = partial_at(AmpWidth::Flat, Waveform::Triangle, 40, 31);
    assert_eq!(even, Partial { multiple: 32, divisor: 64, squared: true, negative: true, coefficient: None });
    let odd = partial_at(AmpWidth::Flat, Waveform::Triangle, 40, 32);
    assert_eq!(odd, Partial { multiple: 33, divisor: 66, squared: true, negative: false, coefficient: None });
    let last = partial_at(AmpWidth::Flat, Waveform::Triangle, 40, 38);
    assert_eq!(last.multiple, 39);
}

#[test]
fn sawtooth_series_starts_past_the_table() {
    assert_eq!(partial_count(Waveform::Sawtooth, 32), 31);
    assert_eq!(partial_count(Waveform::Sawtooth, 40), 31 + 8);
    let first = partial_at(AmpWidth::InverseSquare, Waveform::Sawtooth, 40, 31);
    assert_eq!(first, Partial { multiple: 32, divisor: 32, squared: false, negative: false, coefficient: None });
    let last = partial_at(AmpWidth::InverseSquare, Waveform::Sawtooth, 40, 38);
    assert_eq!(last.multiple, 39);
}

#[test]
fn every_extra_partial_lies_between_the_table_and_the_limit() {
    for waveform in [Waveform::Square, Waveform::Triangle, Waveform::Sawtooth] {
        let limit = 200;
        let n = partial_count(waveform, limit);
        assert_eq!(n, 31 + 168);
        for j in 31..n {
            let p = partial_at(AmpWidth::Flat, waveform, limit, j);
            assert!(p.multiple > 31 && p.multiple < limit);
        }
    }
}

#[test]
fn huge_limit_does_not_overflow_divisors() {
    let limit = u64::MAX;
    let n = partial_count(Waveform::Triangle, limit);
    let p = partial_at(AmpWidth::Flat, Waveform::Triangle, limit, n - 1);
    assert_eq!(p.multiple, u64::MAX - 1);
    assert_eq!(p.divisor, 2 * (u64::MAX - 1) as u128);
    assert!(p.squared);
    let n = partial_count(Waveform::Square, limit);
    let p = partial_at(AmpWidth::Flat, Waveform::Square, limit, n - 1);
    assert_eq!(p.divisor, 2 * (u64::MAX - 1) as u128);
}
