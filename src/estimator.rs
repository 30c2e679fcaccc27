use vstd::prelude::*;
use crate::diagnostics::Event;
use crate::enums::Track;
use crate::sample::{sample_offset, Sample};

verus! {

/// The smallest covariance the filter admits, in nanoseconds squared: (1 ms)². It keeps the
/// filter from becoming so confident after a very precise sample that it stops learning.
pub const MIN_COVARIANCE: u128 = 1_000_000_000_000;

/// The largest covariance the filter admits, in nanoseconds squared: (2 s)². Samples less
/// certain than this are fused as if they were this certain.
pub const MAX_COVARIANCE: u128 = 4_000_000_000_000_000_000;

/// The standard deviation of the oscillator's frequency error, in parts per million. The
/// uncertainty of the offset grows by this fraction of the monotonic time elapsed.
pub const OSCILLATOR_ERROR_STD_DEV_PPM: u128 = 15;

/// The largest magnitude of an offset between two 64-bit times.
pub open spec fn offset_bound() -> int {
    0x1_0000_0000_0000_0000
}

pub open spec fn abs(x: int) -> int {
    if x < 0 { -x } else { x }
}

/// `x` limited to the range of `i64`.
pub open spec fn saturate(x: int) -> int {
    if x < i64::MIN { i64::MIN as int } else if x > i64::MAX { i64::MAX as int } else { x }
}

/// `c` limited to the admitted covariances.
pub open spec fn clamp_covariance(c: int) -> int {
    if c < MIN_COVARIANCE { MIN_COVARIANCE as int }
    else if c > MAX_COVARIANCE { MAX_COVARIANCE as int }
    else { c }
}

/// The variance of a sample's UTC error.
pub open spec fn measurement_variance(std_dev: int) -> int {
    std_dev * std_dev
}

/// The covariance a filter starts from: the first sample's variance.
pub open spec fn initial_covariance(std_dev: int) -> int {
    clamp_covariance(measurement_variance(std_dev))
}

/// The standard deviation of the offset drift accumulated over `step` nanoseconds.
pub open spec fn drift_std_dev(step: int) -> int {
    abs(step) * OSCILLATOR_ERROR_STD_DEV_PPM / 1_000_000
}

/// The covariance carried `step` nanoseconds forward (or backward) before a measurement.
pub open spec fn apriori_covariance(covariance: int, step: int) -> int {
    let grown = covariance + drift_std_dev(step) * drift_std_dev(step);
    if grown > MAX_COVARIANCE { MAX_COVARIANCE as int } else { grown }
}

/// The share `p / (p + r)` of the innovation `diff` taken into the estimate, rounded
/// toward zero.
pub open spec fn gain_correction(diff: int, p: int, r: int) -> int {
    if diff >= 0 { diff * p / (p + r) } else { -((-diff) * p / (p + r)) }
}

/// The covariance after fusing a measurement of variance `r` into a prior of covariance `p`:
/// `p·r / (p + r)`, rounded up, no smaller than the floor.
pub open spec fn aposteriori_covariance(p: int, r: int) -> int {
    let c = p - p * p / (p + r);
    if c < MIN_COVARIANCE { MIN_COVARIANCE as int } else { c }
}

/// `r` is the integer square root of `n`.
pub open spec fn is_floor_sqrt(n: int, r: int) -> bool {
    0 <= r && r * r <= n && n < (r + 1) * (r + 1)
}

/// The integer square root of `n`, for `n >= 0`.
pub open spec fn floor_sqrt_of(n: int) -> int {
    choose|r: int| is_floor_sqrt(n, r)
}

/// The integer square root is unique.
pub proof fn lemma_floor_sqrt_of(n: int, r: int)
    requires
        is_floor_sqrt(n, r),
    ensures
        floor_sqrt_of(n) == r,
{
    let c = floor_sqrt_of(n);
    assert(is_floor_sqrt(n, c));
    if c < r {
        assert((c + 1) * (c + 1) <= r * r) by (nonlinear_arith)
            requires 0 <= c < r;
    } else if c > r {
        assert((r + 1) * (r + 1) <= c * c) by (nonlinear_arith)
            requires 0 <= r < c;
    }
}

/// The abstract state of a filter.
pub struct FilterModel {
    /// The monotonic time the estimate refers to.
    pub monotonic: int,
    /// The estimated UTC minus monotonic at that time.
    pub offset: int,
    /// The variance of the offset estimate, in nanoseconds squared.
    pub covariance: int,
}

/// The filter seeded from one sample: its offset, at its monotonic time, with its variance.
pub open spec fn initial_filter(sample: Sample) -> FilterModel {
    FilterModel {
        monotonic: sample.monotonic as int,
        offset: sample_offset(sample),
        covariance: initial_covariance(sample.std_dev as int),
    }
}

/// The filter `f` after fusing `sample`: the prior is carried to the sample's monotonic time,
/// its covariance grown by the oscillator's drift, and then combined with the sample by
/// inverse-variance weighting.
pub open spec fn updated_filter(f: FilterModel, sample: Sample) -> FilterModel {
    let p = apriori_covariance(f.covariance, sample.monotonic - f.monotonic);
    let r = measurement_variance(sample.std_dev as int);
    FilterModel {
        monotonic: sample.monotonic as int,
        offset: f.offset + gain_correction(sample_offset(sample) - f.offset, p, r),
        covariance: aposteriori_covariance(p, r),
    }
}

/// The UTC that filter `f` estimates at monotonic time `monotonic`, limited to `i64`.
pub open spec fn estimate_utc(f: FilterModel, monotonic: int) -> int {
    saturate(monotonic + f.offset)
}

/// The diagnostics event that reports the estimate of `f` on `track`.
pub open spec fn estimate_event(track: Track, f: FilterModel) -> Event {
    Event::EstimateUpdated {
        track,
        offset: saturate(f.offset) as i64,
        sqrt_covariance: floor_sqrt_of(f.covariance) as i64,
    }
}

/// A one-dimensional Kalman filter over the offset between UTC and monotonic time.
pub struct KalmanFilter {
    monotonic: i64,
    offset: i128,
    covariance: u128,
}

impl View for KalmanFilter {
    type V = FilterModel;

    closed spec fn view(&self) -> FilterModel {
        FilterModel {
            monotonic: self.monotonic as int,
            offset: self.offset as int,
            covariance: self.covariance as int,
        }
    }
}

/// The magnitude of `x`, for `|x|` within `u128`.
fn magnitude(x: i128) -> (r: u128)
    requires
        x > i128::MIN,
    ensures
        r == abs(x as int),
{
    if x < 0 { (-x) as u128 } else { x as u128 }
}

/// The integer square root of a covariance.
pub fn floor_sqrt(n: u128) -> (r: u64)
    requires
        n <= MAX_COVARIANCE,
    ensures
        is_floor_sqrt(n as int, r as int),
{
    let mut lo: u128 = 0;
    let mut hi: u128 = 2_000_000_001;
    assert(n < hi * hi) by (nonlinear_arith)
        requires n <= 4_000_000_000_000_000_000u128, hi == 2_000_000_001u128;
    while hi - lo > 1
        invariant
            lo < hi <= 2_000_000_001,
            lo * lo <= n,
            n < hi * hi,
        decreases hi - lo,
    {
        let mid = lo + (hi - lo) / 2;
        assert(mid * mid <= 2_000_000_001u128 * 2_000_000_001u128) by (nonlinear_arith)
            requires mid < 2_000_000_001u128;
        if mid * mid <= n {
            lo = mid;
        } else {
            hi = mid;
        }
    }
    assert(hi == lo + 1);
    lo as u64
}

impl KalmanFilter {
    pub closed spec fn wf(&self) -> bool {
        &&& MIN_COVARIANCE <= self.covariance <= MAX_COVARIANCE
        &&& abs(self.offset as int) <= offset_bound()
    }

    #[verifier::type_invariant]
    spec fn inv(&self) -> bool {
        self.wf()
    }

    /// Seeds a filter from one sample.
    pub fn new(sample: Sample) -> (r: KalmanFilter)
        ensures
            r@ == initial_filter(sample),
    {
        let sd = magnitude(sample.std_dev as i128);
        assert(sd * sd <= 0x8000_0000_0000_0000u128 * 0x8000_0000_0000_0000u128)
            by (nonlinear_arith)
            requires sd <= 0x8000_0000_0000_0000u128;
        let variance = sd * sd;
        assert(sd * sd == sample.std_dev * sample.std_dev) by (nonlinear_arith)
            requires sd == abs(sample.std_dev as int);
        let covariance = if variance < MIN_COVARIANCE {
            MIN_COVARIANCE
        } else if variance > MAX_COVARIANCE {
            MAX_COVARIANCE
        } else {
            variance
        };
        KalmanFilter {
            monotonic: sample.monotonic,
            offset: sample.utc as i128 - sample.monotonic as i128,
            covariance,
        }
    }

    /// Fuses a sample into the filter.
    pub fn update(&mut self, sample: Sample)
        ensures
            final(self)@ == updated_filter(old(self)@, sample),
    {
        proof {
            use_type_invariant(&*self);
        }
        let step = magnitude(sample.monotonic as i128 - self.monotonic as i128);
        let drift = step * OSCILLATOR_ERROR_STD_DEV_PPM / 1_000_000;
        assert(drift * drift <= 300_000_000_000_000u128 * 300_000_000_000_000u128)
            by (nonlinear_arith)
            requires drift <= 300_000_000_000_000u128;
        let grown = self.covariance + drift * drift;
        let p = if grown > MAX_COVARIANCE { MAX_COVARIANCE } else { grown };

        let sd = magnitude(sample.std_dev as i128);
        assert(sd * sd <= 0x8000_0000_0000_0000u128 * 0x8000_0000_0000_0000u128)
            by (nonlinear_arith)
            requires sd <= 0x8000_0000_0000_0000u128;
        let r = sd * sd;
        assert(sd * sd == sample.std_dev * sample.std_dev) by (nonlinear_arith)
            requires sd == abs(sample.std_dev as int);

        let measured = sample.utc as i128 - sample.monotonic as i128;
        let diff = measured - self.offset;
        let diff_mag = magnitude(diff);
        assert(diff_mag * p <= 0x2_0000_0000_0000_0000u128 * 4_000_000_000_000_000_000u128)
            by (nonlinear_arith)
            requires diff_mag <= 0x2_0000_0000_0000_0000u128, p <= 4_000_000_000_000_000_000u128;
        let share = diff_mag * p / (p + r);
        proof {
            lemma_share_bounded(diff_mag as int, p as int, r as int);
        }
        let correction: i128 = if diff >= 0 { share as i128 } else { -(share as i128) };

        assert(p * p <= 4_000_000_000_000_000_000u128 * 4_000_000_000_000_000_000u128)
            by (nonlinear_arith)
            requires p <= 4_000_000_000_000_000_000u128;
        let shrink = p * p / (p + r);
        proof {
            lemma_share_bounded(p as int, p as int, r as int);
        }
        let posterior = p - shrink;

        self.monotonic = sample.monotonic;
        self.offset = self.offset + correction;
        self.covariance = if posterior < MIN_COVARIANCE { MIN_COVARIANCE } else { posterior };
    }

    /// The UTC estimated at a monotonic time, limited to the range of `i64`.
    pub fn estimate(&self, monotonic: i64) -> (r: i64)
        ensures
            r == estimate_utc(self@, monotonic as int),
    {
        proof {
            use_type_invariant(self);
        }
        saturate_i128(monotonic as i128 + self.offset)
    }

    /// The estimated UTC minus monotonic offset, limited to the range of `i64`.
    pub fn offset(&self) -> (r: i64)
        ensures
            r == saturate(self@.offset),
    {
        saturate_i128(self.offset)
    }

    /// The standard deviation of the offset estimate: the integer square root of its
    /// covariance.
    pub fn sqrt_covariance(&self) -> (r: i64)
        ensures
            is_floor_sqrt(self@.covariance, r as int),
            r == floor_sqrt_of(self@.covariance),
    {
        proof {
            use_type_invariant(self);
        }
        let root = floor_sqrt(self.covariance);
        assert(root <= 2_000_000_000) by (nonlinear_arith)
            requires root * root <= 4_000_000_000_000_000_000u64 as int, root >= 0;
        proof {
            lemma_floor_sqrt_of(self@.covariance, root as int);
        }
        root as i64
    }
}

/// The running estimate of one track: a filter seeded by the track's first sample.
pub struct Estimator {
    filter: KalmanFilter,
    track: Track,
}

/// The abstract state of an estimator.
pub struct EstimatorModel {
    pub track: Track,
    pub filter: FilterModel,
}

impl View for Estimator {
    type V = EstimatorModel;

    closed spec fn view(&self) -> EstimatorModel {
        EstimatorModel { track: self.track, filter: self.filter@ }
    }
}

impl Estimator {
    /// Creates the estimator of `track` from its first sample.
    pub fn new(track: Track, sample: Sample) -> (r: Estimator)
        ensures
            r@.track == track,
            r@.filter == initial_filter(sample),
    {
        Estimator { filter: KalmanFilter::new(sample), track }
    }

    /// Fuses a further sample into the estimate.
    pub fn update(&mut self, sample: Sample)
        ensures
            final(self)@.track == old(self)@.track,
            final(self)@.filter == updated_filter(old(self)@.filter, sample),
    {
        self.filter.update(sample);
    }

    /// The UTC estimated at a monotonic time, limited to the range of `i64`.
    pub fn estimate(&self, monotonic: i64) -> (r: i64)
        ensures
            r == estimate_utc(self@.filter, monotonic as int),
    {
        self.filter.estimate(monotonic)
    }

    /// The estimated UTC minus monotonic offset, limited to the range of `i64`.
    pub fn offset(&self) -> (r: i64)
        ensures
            r == saturate(self@.filter.offset),
    {
        self.filter.offset()
    }

    /// The standard deviation of the offset estimate.
    pub fn sqrt_covariance(&self) -> (r: i64)
        ensures
            r == floor_sqrt_of(self@.filter.covariance),
    {
        self.filter.sqrt_covariance()
    }

    /// The event that reports the current estimate.
    pub fn report(&self) -> (r: Event)
        ensures
            r == estimate_event(self@.track, self@.filter),
    {
        Event::EstimateUpdated {
            track: self.track,
            offset: self.filter.offset(),
            sqrt_covariance: self.filter.sqrt_covariance(),
        }
    }
}

/// `x` limited to the range of `i64`.
pub fn saturate_i128(x: i128) -> (r: i64)
    ensures
        r == saturate(x as int),
{
    if x < i64::MIN as i128 {
        i64::MIN
    } else if x > i64::MAX as i128 {
        i64::MAX
    } else {
        x as i64
    }
}

/// The share `d·p / (p + r)` of a nonnegative `d` lies between 0 and `d`.
proof fn lemma_share_bounded(d: int, p: int, r: int)
    requires
        d >= 0,
        p > 0,
        r >= 0,
    ensures
        0 <= d * p / (p + r) <= d,
{
    assert(d * p <= d * (p + r)) by (nonlinear_arith)
        requires d >= 0, p > 0, r >= 0;
    assert(0 <= d * p) by (nonlinear_arith)
        requires d >= 0, p > 0;
    vstd::arithmetic::div_mod::lemma_div_is_ordered(d * p, d * (p + r), p + r);
    vstd::arithmetic::div_mod::lemma_div_multiples_vanish(d, p + r);
    vstd::arithmetic::div_mod::lemma_div_pos_is_pos(d * p, p + r);
}

/// Fusing a sample never leaves the filter less certain than the prior carried to the
/// sample's time, which is the previous covariance plus the drift accumulated since.
pub proof fn lemma_update_bounds_uncertainty(f: FilterModel, sample: Sample)
    requires
        MIN_COVARIANCE <= f.covariance <= MAX_COVARIANCE,
    ensures
        updated_filter(f, sample).covariance <= apriori_covariance(
            f.covariance,
            sample.monotonic - f.monotonic,
        ),
        updated_filter(f, sample).covariance <= f.covariance + drift_std_dev(
            sample.monotonic - f.monotonic,
        ) * drift_std_dev(sample.monotonic - f.monotonic),
{
    let p = apriori_covariance(f.covariance, sample.monotonic - f.monotonic);
    let r = measurement_variance(sample.std_dev as int);
    let d = drift_std_dev(sample.monotonic - f.monotonic);
    assert(d * d >= 0) by (nonlinear_arith);
    assert(r >= 0) by (nonlinear_arith)
        requires r == sample.std_dev * sample.std_dev;
    lemma_share_bounded(p, p, r);
    assert(p * p >= 0) by (nonlinear_arith);
}

/// Of two samples at the same point, the one with the smaller standard deviation moves the
/// estimate at least as far toward itself.
pub proof fn lemma_precise_samples_pull_harder(d: int, p: int, sd1: int, sd2: int)
    requires
        p > 0,
        abs(sd1) <= abs(sd2),
    ensures
        abs(gain_correction(d, p, measurement_variance(sd2))) <= abs(
            gain_correction(d, p, measurement_variance(sd1)),
        ),
{
    let r1 = measurement_variance(sd1);
    let r2 = measurement_variance(sd2);
    assert(0 <= r1 <= r2) by (nonlinear_arith)
        requires r1 == sd1 * sd1, r2 == sd2 * sd2, abs(sd1) <= abs(sd2),
            abs(sd1) == (if sd1 < 0 { -sd1 } else { sd1 }),
            abs(sd2) == (if sd2 < 0 { -sd2 } else { sd2 });
    let m = abs(d);
    assert(m * p >= 0) by (nonlinear_arith)
        requires m >= 0, p > 0;
    vstd::arithmetic::div_mod::lemma_div_is_ordered_by_denominator(m * p, p + r1, p + r2);
    vstd::arithmetic::div_mod::lemma_div_pos_is_pos(m * p, p + r2);
}

/// The fused offset lies between the prior offset and the offset the sample observes.
pub proof fn lemma_fused_offset_between(f: FilterModel, sample: Sample)
    requires
        MIN_COVARIANCE <= f.covariance <= MAX_COVARIANCE,
    ensures
        ({
            let o = updated_filter(f, sample).offset;
            let measured = sample_offset(sample);
            (f.offset <= o <= measured) || (measured <= o <= f.offset)
        }),
{
    let p = apriori_covariance(f.covariance, sample.monotonic - f.monotonic);
    let r = measurement_variance(sample.std_dev as int);
    let d = drift_std_dev(sample.monotonic - f.monotonic);
    assert(d * d >= 0) by (nonlinear_arith);
    assert(r >= 0) by (nonlinear_arith)
        requires r == sample.std_dev * sample.std_dev;
    let diff = sample_offset(sample) - f.offset;
    if diff >= 0 {
        lemma_share_bounded(diff, p, r);
    } else {
        lemma_share_bounded(-diff, p, r);
    }
}

} // verus!
