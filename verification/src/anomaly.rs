//! Anomaly executor: a dispersion score per sensor series (standard
//! deviation over shifted mean), averaged across sensors and compared with a
//! reconfigurable threshold.

use vstd::prelude::*;
use vstd::arithmetic::div_mod::{lemma_div_is_ordered, lemma_div_multiples_vanish};
use crate::numeric::{isqrt64, SENSOR_LIMIT, SERIES_LIMIT, TIMESTAMP_LIMIT, VALUE_LIMIT};
use crate::runtime::random_below;

verus! {

/// Per-mille threshold a fresh detector compares scores against.
pub const DEFAULT_ANOMALY_THRESHOLD: i64 = 850;

/// Half-width of the simulated noise band added to the averaged score.
pub const SCORE_JITTER: i64 = 100;

/// One named series of readings, in milli units.
pub struct SensorData {
    pub sensor_type: String,
    pub values: Vec<i64>,
    pub timestamp: i64,
}

impl SensorData {
    pub open spec fn wf(&self) -> bool {
        &&& 1 <= self.values@.len() <= SERIES_LIMIT
        &&& -TIMESTAMP_LIMIT <= self.timestamp <= TIMESTAMP_LIMIT
        &&& forall|i: int| 0 <= i < self.values@.len() ==> -VALUE_LIMIT <= #[trigger] self.values@[i]
            <= VALUE_LIMIT
    }
}

pub struct AnomalyDetectionInput {
    pub sensor_readings: Vec<SensorData>,
}

impl AnomalyDetectionInput {
    pub open spec fn wf(&self) -> bool {
        &&& self.sensor_readings@.len() <= SENSOR_LIMIT
        &&& forall|i: int|
            0 <= i < self.sensor_readings@.len() ==> (#[trigger] self.sensor_readings@[i]).wf()
    }
}

pub struct AnomalyDetectionOutput {
    /// Averaged per-mille score, shifted by bounded simulated noise.
    pub anomaly_score: i64,
    pub is_anomaly: bool,
    /// The threshold the score was compared against.
    pub threshold: i64,
    /// Per-sensor scores, one per series, in input order.
    pub sensor_scores: Vec<(String, u64)>,
}

pub open spec fn sum_seq(s: Seq<i64>) -> int
    decreases s.len(),
{
    if s.len() == 0 {
        0
    } else {
        sum_seq(s.drop_last()) + s.last()
    }
}

/// Sum of squared deviations of `s` from `m`.
pub open spec fn sq_dev_sum(s: Seq<i64>, m: int) -> int
    decreases s.len(),
{
    if s.len() == 0 {
        0
    } else {
        sq_dev_sum(s.drop_last(), m) + (s.last() - m) * (s.last() - m)
    }
}

/// Integer division truncated toward zero (what the executor computes on a
/// possibly negative sum).
pub open spec fn div_trunc(a: int, b: int) -> int {
    if a >= 0 {
        a / b
    } else {
        -((-a) / b)
    }
}

/// `r` is the integer square root of `v`.
pub open spec fn is_isqrt(v: int, r: int) -> bool {
    0 <= r && r * r <= v && v < (r + 1) * (r + 1)
}

pub open spec fn spec_isqrt(v: int) -> int
    decreases v,
{
    if v <= 0 {
        0
    } else {
        let r = spec_isqrt(v - 1);
        if (r + 1) * (r + 1) <= v {
            r + 1
        } else {
            r
        }
    }
}

pub proof fn lemma_spec_isqrt(v: int)
    requires
        v >= 0,
    ensures
        is_isqrt(v, spec_isqrt(v)),
    decreases v,
{
    if v > 0 {
        lemma_spec_isqrt(v - 1);
        let r = spec_isqrt(v - 1);
        if (r + 1) * (r + 1) <= v {
            assert(v == (r + 1) * (r + 1));
            assert((r + 1) * (r + 1) < (r + 2) * (r + 2)) by (nonlinear_arith)
                requires
                    r >= 0,
            ;
        }
    }
}

pub proof fn lemma_isqrt_agrees(v: int, a: int, b: int)
    requires
        is_isqrt(v, a),
        is_isqrt(v, b),
    ensures
        a == b,
{
    if a < b {
        assert((a + 1) * (a + 1) <= b * b) by (nonlinear_arith)
            requires
                0 <= a,
                0 <= b,
                a < b,
        ;
    }
    if b < a {
        assert((b + 1) * (b + 1) <= a * a) by (nonlinear_arith)
            requires
                0 <= a,
                0 <= b,
                b < a,
        ;
    }
}

/// Denominator of the dispersion score: the mean shifted by one milli unit,
/// clamped to stay positive.
pub open spec fn spec_denominator(mean: int) -> int {
    if mean >= 0 {
        mean + 1
    } else {
        1
    }
}

/// The per-mille dispersion score of one series: the standard deviation of
/// the readings over the shifted mean.
pub open spec fn spec_sensor_score(values: Seq<i64>) -> int
    recommends
        values.len() >= 1,
{
    let n = values.len() as int;
    let mean = div_trunc(sum_seq(values), n);
    let variance = sq_dev_sum(values, mean) / n;
    spec_isqrt(variance) * 1000 / spec_denominator(mean)
}

pub open spec fn scores_sum(s: Seq<(String, u64)>) -> int
    decreases s.len(),
{
    if s.len() == 0 {
        0
    } else {
        scores_sum(s.drop_last()) + s.last().1
    }
}

/// What the anomaly executor owes for `input` under `threshold`: one exact
/// dispersion score per series, in input order; an overall score within the
/// noise band around the average of those scores; and a flag that compares
/// the overall score against the echoed threshold.
pub open spec fn anomaly_output_ok(
    input: AnomalyDetectionInput,
    threshold: int,
    out: AnomalyDetectionOutput,
) -> bool {
    let n = input.sensor_readings@.len() as int;
    let base = if n == 0 {
        0int
    } else {
        scores_sum(out.sensor_scores@) / n
    };
    &&& out.threshold == threshold
    &&& out.sensor_scores@.len() == n
    &&& forall|i: int|
        0 <= i < n ==> {
            let sc = #[trigger] out.sensor_scores@[i];
            &&& sc.0@ == input.sensor_readings@[i].sensor_type@
            &&& sc.1 == spec_sensor_score(input.sensor_readings@[i].values@)
            &&& sc.1 <= 2_000_000_000_000
        }
    &&& base - SCORE_JITTER <= out.anomaly_score <= base + SCORE_JITTER
    &&& out.is_anomaly == (out.anomaly_score > threshold)
}

/// Dispersion-based detector standing in for a learned anomaly model; only
/// its threshold is tunable, through the registry's write path.
pub struct AnomalyDetector {
    threshold: i64,
}

impl AnomalyDetector {
    /// The threshold the detector currently compares scores against.
    pub closed spec fn spec_threshold(&self) -> int {
        self.threshold as int
    }

    pub fn new() -> (r: Self)
        ensures
            r.spec_threshold() == DEFAULT_ANOMALY_THRESHOLD,
    {
        AnomalyDetector { threshold: DEFAULT_ANOMALY_THRESHOLD }
    }

    pub fn update_threshold(&mut self, new_threshold: i64)
        ensures
            final(self).spec_threshold() == new_threshold,
    {
        self.threshold = new_threshold;
    }

    /// The dispersion score of one well-formed series.
    fn sensor_score(values: &Vec<i64>) -> (score: u64)
        requires
            1 <= values@.len() <= SERIES_LIMIT,
            forall|i: int|
                0 <= i < values@.len() ==> -VALUE_LIMIT <= #[trigger] values@[i] <= VALUE_LIMIT,
        ensures
            score == spec_sensor_score(values@),
            score <= 2_000_000_000_000,
    {
        let n = values.len();
        let mut sum: i64 = 0;
        let mut j: usize = 0;
        while j < n
            invariant
                n == values@.len(),
                1 <= n <= SERIES_LIMIT,
                j <= n,
                forall|i: int|
                    0 <= i < values@.len() ==> -VALUE_LIMIT <= #[trigger] values@[i] <= VALUE_LIMIT,
                sum == sum_seq(values@.take(j as int)),
                -(VALUE_LIMIT * j) <= sum <= VALUE_LIMIT * j,
            decreases n - j,
        {
            proof {
                assert(values@.take(j + 1).drop_last() =~= values@.take(j as int));
                assert(VALUE_LIMIT * (j as int + 1) == VALUE_LIMIT * (j as int) + VALUE_LIMIT)
                    by (nonlinear_arith);
                assert(-(VALUE_LIMIT * (j as int + 1)) <= sum + values@[j as int] <= VALUE_LIMIT * (
                j as int + 1));
            }
            sum = sum + values[j];
            j = j + 1;
        }
        proof {
            assert(values@.take(n as int) =~= values@);
        }
        let mean: i64 = if sum >= 0 {
            proof {
                lemma_div_is_ordered(sum as int, (n as int) * VALUE_LIMIT, n as int);
                lemma_div_multiples_vanish(VALUE_LIMIT as int, n as int);
            }
            ((sum as u64) / (n as u64)) as i64
        } else {
            proof {
                lemma_div_is_ordered(-(sum as int), (n as int) * VALUE_LIMIT, n as int);
                lemma_div_multiples_vanish(VALUE_LIMIT as int, n as int);
            }
            -((((-sum) as u64) / (n as u64)) as i64)
        };
        proof {
            assert(mean == div_trunc(sum_seq(values@), n as int));
            assert(-VALUE_LIMIT <= mean <= VALUE_LIMIT);
        }
        let mut sq_sum: u64 = 0;
        let mut j: usize = 0;
        while j < n
            invariant
                n == values@.len(),
                1 <= n <= SERIES_LIMIT,
                j <= n,
                forall|i: int|
                    0 <= i < values@.len() ==> -VALUE_LIMIT <= #[trigger] values@[i] <= VALUE_LIMIT,
                -VALUE_LIMIT <= mean <= VALUE_LIMIT,
                sq_sum == sq_dev_sum(values@.take(j as int), mean as int),
                sq_sum <= 4_000_000_000_000 * j,
            decreases n - j,
        {
            proof {
                assert(values@.take(j + 1).drop_last() =~= values@.take(j as int));
                assert(4_000_000_000_000 * (j as int + 1) == 4_000_000_000_000 * (j as int)
                    + 4_000_000_000_000) by (nonlinear_arith);
            }
            let dev: i64 = values[j] - mean;
            proof {
                assert(0 <= dev * dev <= 4_000_000_000_000) by (nonlinear_arith)
                    requires
                        -2_000_000 <= dev <= 2_000_000,
                ;
            }
            let sq: u64 = (dev * dev) as u64;
            sq_sum = sq_sum + sq;
            j = j + 1;
        }
        proof {
            assert(values@.take(n as int) =~= values@);
        }
        let variance: u64 = sq_sum / (n as u64);
        let stddev: u64 = isqrt64(variance);
        proof {
            lemma_spec_isqrt(variance as int);
            lemma_isqrt_agrees(variance as int, stddev as int, spec_isqrt(variance as int));
            assert(stddev <= 2_000_000_000) by (nonlinear_arith)
                requires
                    0 <= stddev,
                    (stddev as int) * (stddev as int) <= 40_000_000_000_000_000,
            ;
        }
        let denominator: u64 = if mean >= 0 {
            (mean as u64) + 1
        } else {
            1
        };
        (stddev * 1000) / denominator
    }

    pub fn detect(&self, input: &AnomalyDetectionInput) -> (out: AnomalyDetectionOutput)
        requires
            input.wf(),
        ensures
            anomaly_output_ok(*input, self.spec_threshold(), out),
    {
        let n = input.sensor_readings.len();
        let mut sensor_scores: Vec<(String, u64)> = Vec::new();
        let mut total: u64 = 0;
        let mut i: usize = 0;
        while i < n
            invariant
                n == input.sensor_readings@.len(),
                input.wf(),
                i <= n,
                sensor_scores@.len() == i,
                forall|j: int|
                    0 <= j < i ==> {
                        let sc = #[trigger] sensor_scores@[j];
                        &&& sc.0@ == input.sensor_readings@[j].sensor_type@
                        &&& sc.1 == spec_sensor_score(input.sensor_readings@[j].values@)
                        &&& sc.1 <= 2_000_000_000_000
                    },
                total == scores_sum(sensor_scores@),
                total <= 2_000_000_000_000 * i,
            decreases n - i,
        {
            let reading = &input.sensor_readings[i];
            let score = Self::sensor_score(&reading.values);
            let ghost old_scores = sensor_scores@;
            sensor_scores.push((reading.sensor_type.clone(), score));
            proof {
                assert(sensor_scores@.drop_last() =~= old_scores);
                assert(2_000_000_000_000 * (i as int + 1) == 2_000_000_000_000 * (i as int)
                    + 2_000_000_000_000) by (nonlinear_arith);
            }
            total = total + score;
            i = i + 1;
        }
        let base: i64 = if n == 0 {
            0
        } else {
            proof {
                lemma_div_is_ordered(total as int, (n as int) * 2_000_000_000_000, n as int);
                lemma_div_multiples_vanish(2_000_000_000_000, n as int);
            }
            (total / (n as u64)) as i64
        };
        let jitter: i64 = (random_below(2 * (SCORE_JITTER as u64) + 1) as i64) - SCORE_JITTER;
        let anomaly_score = base + jitter;
        AnomalyDetectionOutput {
            anomaly_score,
            is_anomaly: anomaly_score > self.threshold,
            threshold: self.threshold,
            sensor_scores,
        }
    }
}

} // verus!
