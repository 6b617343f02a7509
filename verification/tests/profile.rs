use itm::{encode_profile, Quantity};

#[test]
fn profile_is_count_then_spacing_then_samples() {
    let samples = [10.0, 20.5, 15.25];
    let pfl = encode_profile(30.0, &samples);
    assert_eq!(
        pfl,
        vec![
            Quantity::Count(3),
            Quantity::Measured(30.0),
            Quantity::Measured(10.0),
            Quantity::Measured(20.5),
            Quantity::Measured(15.25),
        ]
    );
}

#[test]
fn profile_of_no_samples_has_only_the_header() {
    let samples: [f64; 0] = [];
    let pfl = encode_profile(90.0, &samples);
    assert_eq!(pfl, vec![Quantity::Count(0), Quantity::Measured(90.0)]);
}

#[test]
fn profile_of_one_sample() {
    let pfl = encode_profile(1.5f32, &[7.0f32]);
    assert_eq!(pfl, vec![Quantity::Count(1), Quantity::Measured(1.5), Quantity::Measured(7.0)]);
}

#[test]
fn profile_keeps_length_and_order() {
    for n in 0..50usize {
        let samples: Vec<f64> = (0..n).map(|i| 1000.0 - (i as f64) * 3.5).collect();
        let spacing = 12.5 + n as f64;
        let pfl = encode_profile(spacing, &samples);
        assert_eq!(pfl.len(), n + 2);
        assert_eq!(pfl[0], Quantity::Count(n));
        assert_eq!(pfl[1], Quantity::Measured(spacing));
        for i in 0..n {
            assert_eq!(pfl[i + 2], Quantity::Measured(samples[i]));
        }
    }
}

#[test]
fn profile_does_not_judge_spacing_or_samples() {
    let pfl = encode_profile(-1.0, &[f64::INFINITY, -5.0]);
    assert_eq!(
        pfl,
        vec![
            Quantity::Count(2),
            Quantity::Measured(-1.0),
            Quantity::Measured(f64::INFINITY),
            Quantity::Measured(-5.0),
        ]
    );
}

#[test]
fn profile_keeps_repeated_samples() {
    let pfl = encode_profile(86.97297f32, &[1990.0f32, 1990.0, 2005.0, 1990.0]);
    assert_eq!(
        pfl,
        vec![
            Quantity::Count(4),
            Quantity::Measured(86.97297),
            Quantity::Measured(1990.0),
            Quantity::Measured(1990.0),
            Quantity::Measured(2005.0),
            Quantity::Measured(1990.0),
        ]
    );
}
