use timekeeper::enums::Track;
use timekeeper::diagnostics::Event;
use timekeeper::estimator::{
    floor_sqrt, saturate_i128, Estimator, KalmanFilter, MAX_COVARIANCE, MIN_COVARIANCE,
};
use timekeeper::sample::Sample;

const SECOND: i64 = 1_000_000_000;

#[test]
fn first_sample_seeds_the_estimate() {
    let estimator = Estimator::new(Track::Primary, Sample::new(900 * SECOND, 100 * SECOND, 88_000_000));
    assert_eq!(estimator.offset(), 800 * SECOND);
    assert_eq!(estimator.sqrt_covariance(), 88_000_000);
    assert_eq!(estimator.estimate(150 * SECOND), 950 * SECOND);
    assert_eq!(estimator.estimate(50 * SECOND), 850 * SECOND);
    assert_eq!(
        estimator.report(),
        Event::EstimateUpdated { track: Track::Primary, offset: 800 * SECOND, sqrt_covariance: 88_000_000 }
    );
}

#[test]
fn covariance_is_kept_within_its_limits() {
    let precise = KalmanFilter::new(Sample::new(10 * SECOND, SECOND, 0));
    assert_eq!(precise.sqrt_covariance(), 1_000_000);
    let vague = KalmanFilter::new(Sample::new(10 * SECOND, SECOND, -50 * SECOND));
    assert_eq!(vague.sqrt_covariance(), 2_000_000_000);
}

#[test]
fn equal_variances_fuse_near_midpoint() {
    let mut filter = KalmanFilter::new(Sample::new(1_000 * SECOND, 100 * SECOND, 88_000_000));
    filter.update(Sample::new(2_100 * SECOND + 100_000_000, 100 * SECOND + 100_000_000, 88_000_000));
    // Offsets 900 s and 2000 s: the result lies just past the midpoint toward the newer sample.
    assert_eq!(filter.offset(), 1_450 * SECOND + 79);
    assert_eq!(filter.sqrt_covariance(), 62225396);
}

#[test]
fn precise_sample_pulls_harder() {
    let mut filter = KalmanFilter::new(Sample::new(1_000 * SECOND, 100 * SECOND, 100_000_000));
    filter.update(Sample::new(1_001 * SECOND, 100 * SECOND, 10_000_000));
    // Gain 1e16 / (1e16 + 1e14) of a one second innovation.
    assert_eq!(filter.offset(), 900 * SECOND + 990_099_009);
    assert!(filter.sqrt_covariance() < 10_000_000);
    let mut filter = KalmanFilter::new(Sample::new(1_000 * SECOND, 100 * SECOND, 10_000_000));
    filter.update(Sample::new(1_001 * SECOND, 100 * SECOND, 100_000_000));
    assert_eq!(filter.offset(), 900 * SECOND + 9_900_990);
}

#[test]
fn negative_innovation_rounds_toward_zero() {
    let mut filter = KalmanFilter::new(Sample::new(1_000 * SECOND, 100 * SECOND, 100_000_000));
    filter.update(Sample::new(999 * SECOND, 100 * SECOND, 10_000_000));
    assert_eq!(filter.offset(), 900 * SECOND - 990_099_009);
}

#[test]
fn drift_grows_uncertainty_with_elapsed_time() {
    let mut filter = KalmanFilter::new(Sample::new(1_000 * SECOND, 0, 1_000_000));
    // After 1000 s the drift alone has a standard deviation of 15 ms.
    filter.update(Sample::new(2_000 * SECOND, 1_000 * SECOND, 2_000_000_000));
    let p: u128 = 1_000_000_000_000 + 15_000_000u128 * 15_000_000;
    let r: u128 = 4_000_000_000_000_000_000;
    let expected = p - p * p / (p + r);
    assert_eq!(filter.sqrt_covariance() as u128, floor_sqrt(expected) as u128);
}

#[test]
fn estimate_saturates() {
    let filter = KalmanFilter::new(Sample::new(i64::MAX, 0, 1));
    assert_eq!(filter.estimate(10), i64::MAX);
    let filter = KalmanFilter::new(Sample::new(i64::MIN, i64::MAX, 1));
    assert_eq!(filter.offset(), i64::MIN);
    assert_eq!(filter.estimate(i64::MAX), i64::MIN);
}

#[test]
fn integer_square_roots() {
    assert_eq!(floor_sqrt(0), 0);
    assert_eq!(floor_sqrt(15), 3);
    assert_eq!(floor_sqrt(16), 4);
    assert_eq!(floor_sqrt(MIN_COVARIANCE), 1_000_000);
    assert_eq!(floor_sqrt(MAX_COVARIANCE), 2_000_000_000);
    assert_eq!(floor_sqrt(MAX_COVARIANCE - 1), 1_999_999_999);
}

#[test]
fn saturation_limits() {
    assert_eq!(saturate_i128(i64::MAX as i128 + 1), i64::MAX);
    assert_eq!(saturate_i128(i64::MIN as i128 - 1), i64::MIN);
    assert_eq!(saturate_i128(-42), -42);
}
