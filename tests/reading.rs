use tempest_exporter::reading::{Reading, TimeSpan, Timestamp};

fn whole(x: f64) -> i64 {
    Reading::from_bits(x.to_bits()).truncate()
}

#[test]
fn truncate_rounds_toward_zero() {
    assert_eq!(whole(1.5), 1);
    assert_eq!(whole(-2.7), -2);
    assert_eq!(whole(0.999), 0);
    assert_eq!(whole(-0.5), 0);
    assert_eq!(whole(9.0), 9);
}

#[test]
fn truncate_zero_and_subnormal() {
    assert_eq!(whole(0.0), 0);
    assert_eq!(whole(-0.0), 0);
    assert_eq!(whole(f64::MIN_POSITIVE / 4.0), 0);
}

#[test]
fn truncate_large_whole_numbers() {
    assert_eq!(whole(1_588_948_614.0), 1_588_948_614);
    assert_eq!(whole(4_503_599_627_370_497.0), 4_503_599_627_370_497);
    assert_eq!(whole(9_007_199_254_740_992.0), 9_007_199_254_740_992);
    assert_eq!(whole(4_611_686_018_427_387_904.0), 4_611_686_018_427_387_904);
    assert_eq!(whole(-9_223_372_036_854_775_808.0), i64::MIN);
}

#[test]
fn truncate_saturates() {
    assert_eq!(whole(9_223_372_036_854_775_808.0), i64::MAX);
    assert_eq!(whole(1e300), i64::MAX);
    assert_eq!(whole(-1e300), i64::MIN);
    assert_eq!(whole(f64::INFINITY), i64::MAX);
    assert_eq!(whole(f64::NEG_INFINITY), i64::MIN);
}

#[test]
fn truncate_nan_is_zero() {
    assert_eq!(whole(f64::NAN), 0);
}

#[test]
fn truncate_matches_cast() {
    let samples = [
        0.1, 1.0, 2.5, 3.75, 100.25, -100.25, 12345.678, 1e15, -1e15, 123456789012.9, 0.5e-300,
    ];
    for x in samples {
        assert_eq!(whole(x), x as i64);
    }
}

#[test]
fn reading_keeps_its_bits() {
    let r = Reading::from_bits(2.5f64.to_bits());
    assert_eq!(r.to_bits(), 2.5f64.to_bits());
    assert_eq!(r.bits, 2.5f64.to_bits());
}

#[test]
fn time_span_from_minutes() {
    assert_eq!(TimeSpan::from_minutes(1).seconds, 60);
    assert_eq!(TimeSpan::from_minutes(-3).seconds, -180);
    assert_eq!(TimeSpan::from_minutes(i64::MAX).seconds, i64::MAX as i128 * 60);
    assert_eq!(TimeSpan::from_seconds(42).seconds, 42);
    assert_eq!(Timestamp::from_unix_seconds(7).unix_seconds, 7);
}
