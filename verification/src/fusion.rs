//! Fusion executor: weighted confidence across a set of active/inactive
//! sensors, classified into an ordered quality tier.

use vstd::prelude::*;
use vstd::arithmetic::div_mod::{lemma_div_is_ordered, lemma_div_multiples_vanish};
use crate::numeric::{SENSOR_LIMIT, TIMESTAMP_LIMIT};
use crate::runtime::random_below;

verus! {

/// Per-mille weight of the named sensor type in the fused confidence.
pub const LIDAR_WEIGHT: u64 = 400;

pub const CAMERA_WEIGHT: u64 = 350;

pub const RADAR_WEIGHT: u64 = 250;

/// Weight given to sensor types the fuser does not know.
pub const DEFAULT_WEIGHT: u64 = 200;

/// Smallest per-mille confidence reported for an active sensor.
pub const ACTIVE_CONFIDENCE_BASE: u64 = 900;

/// Width of the simulated per-sensor uncertainty band above the base.
pub const ACTIVE_CONFIDENCE_SPREAD: u64 = 100;

pub struct SensorStatus {
    pub sensor_type: String,
    pub is_active: bool,
    /// Per-mille confidence: zero when inactive.
    pub confidence: u64,
    pub last_update: i64,
}

pub struct FusionInput {
    /// Sensor name paired with its active flag; names are unique.
    pub sensor_data: Vec<(String, bool)>,
    pub timestamp: i64,
}

impl FusionInput {
    pub open spec fn wf(&self) -> bool {
        &&& self.sensor_data@.len() <= SENSOR_LIMIT
        &&& -TIMESTAMP_LIMIT <= self.timestamp <= TIMESTAMP_LIMIT
        &&& forall|i: int, j: int|
            0 <= i < j < self.sensor_data@.len() ==> (#[trigger] self.sensor_data@[i]).0@ != (
            #[trigger] self.sensor_data@[j]).0@
    }
}

#[derive(Clone, Copy, PartialEq, Eq, Structural, Debug)]
pub enum FusionQuality {
    Poor,
    Fair,
    Good,
    Excellent,
}

impl FusionQuality {
    /// Wire tag of the tier.
    pub fn label(&self) -> (r: &'static str)
        ensures
            r@ == self.spec_label(),
    {
        match self {
            FusionQuality::Poor => "poor",
            FusionQuality::Fair => "fair",
            FusionQuality::Good => "good",
            FusionQuality::Excellent => "excellent",
        }
    }

    pub open spec fn spec_label(self) -> Seq<char> {
        match self {
            FusionQuality::Poor => "poor"@,
            FusionQuality::Fair => "fair"@,
            FusionQuality::Good => "good"@,
            FusionQuality::Excellent => "excellent"@,
        }
    }
}

pub struct FusionOutput {
    /// Per-mille weighted confidence over the active sensors.
    pub overall_confidence: u64,
    pub sensor_statuses: Vec<SensorStatus>,
    pub fusion_quality: FusionQuality,
}

/// The fixed per-sensor-type weight, with a default for unknown types.
pub open spec fn spec_weight(name: Seq<char>) -> int {
    if name == "lidar"@ {
        LIDAR_WEIGHT as int
    } else if name == "camera"@ {
        CAMERA_WEIGHT as int
    } else if name == "radar"@ {
        RADAR_WEIGHT as int
    } else {
        DEFAULT_WEIGHT as int
    }
}

/// Total weight of the active sensors among `s`.
pub open spec fn active_weight_sum(s: Seq<SensorStatus>) -> int
    decreases s.len(),
{
    if s.len() == 0 {
        0
    } else {
        active_weight_sum(s.drop_last()) + if s.last().is_active {
            spec_weight(s.last().sensor_type@)
        } else {
            0
        }
    }
}

/// Weight-times-confidence sum of the active sensors among `s`.
pub open spec fn weighted_confidence_sum(s: Seq<SensorStatus>) -> int
    decreases s.len(),
{
    if s.len() == 0 {
        0
    } else {
        weighted_confidence_sum(s.drop_last()) + if s.last().is_active {
            spec_weight(s.last().sensor_type@) * s.last().confidence
        } else {
            0
        }
    }
}

/// The aggregate confidence the statuses determine: the weighted average of
/// the active sensors' confidences, or zero when none is active.
pub open spec fn spec_overall_confidence(s: Seq<SensorStatus>) -> int {
    if active_weight_sum(s) > 0 {
        weighted_confidence_sum(s) / active_weight_sum(s)
    } else {
        0
    }
}

/// Tier classification of a per-mille aggregate confidence.
pub open spec fn spec_quality(confidence: int) -> FusionQuality {
    if confidence >= 800 {
        FusionQuality::Excellent
    } else if confidence >= 600 {
        FusionQuality::Good
    } else if confidence >= 400 {
        FusionQuality::Fair
    } else {
        FusionQuality::Poor
    }
}

pub fn classify_quality(confidence: u64) -> (q: FusionQuality)
    ensures
        q == spec_quality(confidence as int),
{
    if confidence >= 800 {
        FusionQuality::Excellent
    } else if confidence >= 600 {
        FusionQuality::Good
    } else if confidence >= 400 {
        FusionQuality::Fair
    } else {
        FusionQuality::Poor
    }
}

/// What the fusion executor owes for `input`: one status per sensor, in input
/// order, echoing name and flag, with a bounded confidence for active sensors
/// and zero for inactive ones; the aggregate confidence is exactly the
/// weighted average the statuses determine, and the tier classifies it.
pub open spec fn fusion_output_ok(input: FusionInput, out: FusionOutput) -> bool {
    &&& out.sensor_statuses@.len() == input.sensor_data@.len()
    &&& forall|i: int|
        0 <= i < out.sensor_statuses@.len() ==> {
            let s = #[trigger] out.sensor_statuses@[i];
            &&& s.sensor_type@ == input.sensor_data@[i].0@
            &&& s.is_active == input.sensor_data@[i].1
            &&& s.last_update == input.timestamp
            &&& s.is_active ==> ACTIVE_CONFIDENCE_BASE <= s.confidence <= ACTIVE_CONFIDENCE_BASE
                + ACTIVE_CONFIDENCE_SPREAD
            &&& !s.is_active ==> s.confidence == 0
        }
    &&& out.overall_confidence == spec_overall_confidence(out.sensor_statuses@)
    &&& out.overall_confidence <= 1000
    &&& out.fusion_quality == spec_quality(out.overall_confidence as int)
}

/// Weighted combiner standing in for a probabilistic sensor-fusion model.
pub struct SensorFusion {
    sensor_weights: Vec<(String, u64)>,
}

impl SensorFusion {
    pub closed spec fn wf(&self) -> bool {
        &&& self.sensor_weights@.len() == 3
        &&& self.sensor_weights@[0].0@ == "lidar"@ && self.sensor_weights@[0].1 == LIDAR_WEIGHT
        &&& self.sensor_weights@[1].0@ == "camera"@ && self.sensor_weights@[1].1 == CAMERA_WEIGHT
        &&& self.sensor_weights@[2].0@ == "radar"@ && self.sensor_weights@[2].1 == RADAR_WEIGHT
    }

    pub fn new() -> (r: Self)
        ensures
            r.wf(),
    {
        let mut sensor_weights: Vec<(String, u64)> = Vec::new();
        sensor_weights.push(("lidar".to_owned(), LIDAR_WEIGHT));
        sensor_weights.push(("camera".to_owned(), CAMERA_WEIGHT));
        sensor_weights.push(("radar".to_owned(), RADAR_WEIGHT));
        SensorFusion { sensor_weights }
    }

    /// The weight of the named sensor type, defaulting for unknown names.
    fn weight_for(&self, name: &String) -> (w: u64)
        requires
            self.wf(),
        ensures
            w as int == spec_weight(name@),
    {
        let mut i: usize = 0;
        while i < self.sensor_weights.len()
            invariant
                self.wf(),
                i <= self.sensor_weights@.len(),
                forall|j: int|
                    0 <= j < i ==> name@ != (#[trigger] self.sensor_weights@[j]).0@,
            decreases self.sensor_weights@.len() - i,
        {
            let entry = &self.sensor_weights[i];
            if name.eq(&entry.0) {
                return entry.1;
            }
            i = i + 1;
        }
        DEFAULT_WEIGHT
    }

    pub fn fuse(&self, input: &FusionInput) -> (out: FusionOutput)
        requires
            self.wf(),
            input.wf(),
        ensures
            fusion_output_ok(*input, out),
    {
        let mut sensor_statuses: Vec<SensorStatus> = Vec::new();
        let mut total_weight: u64 = 0;
        let mut weighted_confidence: u64 = 0;
        let mut i: usize = 0;
        while i < input.sensor_data.len()
            invariant
                self.wf(),
                input.wf(),
                i <= input.sensor_data@.len(),
                sensor_statuses@.len() == i,
                forall|j: int|
                    0 <= j < i ==> {
                        let s = #[trigger] sensor_statuses@[j];
                        &&& s.sensor_type@ == input.sensor_data@[j].0@
                        &&& s.is_active == input.sensor_data@[j].1
                        &&& s.last_update == input.timestamp
                        &&& s.is_active ==> ACTIVE_CONFIDENCE_BASE <= s.confidence
                            <= ACTIVE_CONFIDENCE_BASE + ACTIVE_CONFIDENCE_SPREAD
                        &&& !s.is_active ==> s.confidence == 0
                    },
                total_weight as int == active_weight_sum(sensor_statuses@),
                weighted_confidence as int == weighted_confidence_sum(sensor_statuses@),
                total_weight <= 400 * i,
                900 * (total_weight as int) <= weighted_confidence as int <= 1000 * (
                total_weight as int),
            decreases input.sensor_data@.len() - i,
        {
            let entry = &input.sensor_data[i];
            let is_active = entry.1;
            let weight = self.weight_for(&entry.0);
            let confidence: u64 = if is_active {
                ACTIVE_CONFIDENCE_BASE + random_below(ACTIVE_CONFIDENCE_SPREAD + 1)
            } else {
                0
            };
            let ghost old_statuses = sensor_statuses@;
            let ghost old_total = total_weight as int;
            let ghost old_weighted = weighted_confidence as int;
            if is_active {
                proof {
                    assert(weight <= 400);
                    assert(900 * (weight as int) <= (weight as int) * (confidence as int) <= 1000
                        * (weight as int)) by (nonlinear_arith)
                        requires
                            0 <= weight,
                            900 <= confidence <= 1000,
                    ;
                    assert(total_weight as int + weight as int <= 400 * (i + 1));
                }
                total_weight = total_weight + weight;
                weighted_confidence = weighted_confidence + weight * confidence;
            }
            let status = SensorStatus {
                sensor_type: entry.0.clone(),
                is_active,
                confidence,
                last_update: input.timestamp,
            };
            sensor_statuses.push(status);
            proof {
                assert(sensor_statuses@.drop_last() =~= old_statuses);
                assert(active_weight_sum(sensor_statuses@) == old_total + if is_active {
                    spec_weight(input.sensor_data@[i as int].0@)
                } else {
                    0int
                });
            }
            i = i + 1;
        }
        let overall_confidence: u64 = if total_weight > 0 {
            proof {
                lemma_div_is_ordered(
                    900 * (total_weight as int),
                    weighted_confidence as int,
                    total_weight as int,
                );
                lemma_div_is_ordered(
                    weighted_confidence as int,
                    1000 * (total_weight as int),
                    total_weight as int,
                );
                lemma_div_multiples_vanish(900, total_weight as int);
                lemma_div_multiples_vanish(1000, total_weight as int);
            }
            weighted_confidence / total_weight
        } else {
            0
        };
        let fusion_quality = classify_quality(overall_confidence);
        FusionOutput { overall_confidence, sensor_statuses, fusion_quality }
    }
}

/// No active sensor contributes nothing: both fused sums are zero.
proof fn lemma_sums_when_inactive(s: Seq<SensorStatus>)
    requires
        forall|i: int| 0 <= i < s.len() ==> !(#[trigger] s[i]).is_active,
    ensures
        active_weight_sum(s) == 0,
        weighted_confidence_sum(s) == 0,
    decreases s.len(),
{
    if s.len() > 0 {
        lemma_sums_when_inactive(s.drop_last());
    }
}

/// Any active sensor makes the total weight at least the smallest weight.
proof fn lemma_weight_sum_when_active(s: Seq<SensorStatus>)
    requires
        exists|i: int| 0 <= i < s.len() && (#[trigger] s[i]).is_active,
    ensures
        active_weight_sum(s) >= DEFAULT_WEIGHT,
    decreases s.len(),
{
    let i = choose|i: int| 0 <= i < s.len() && (#[trigger] s[i]).is_active;
    lemma_weight_sum_nonneg(s.drop_last());
    if i < s.len() - 1 {
        assert(s.drop_last()[i].is_active);
        lemma_weight_sum_when_active(s.drop_last());
    }
}

proof fn lemma_weight_sum_nonneg(s: Seq<SensorStatus>)
    ensures
        active_weight_sum(s) >= 0,
    decreases s.len(),
{
    if s.len() > 0 {
        lemma_weight_sum_nonneg(s.drop_last());
    }
}

/// When no sensor is active the fused confidence is zero and the tier is
/// "poor"; when at least one is active the fused confidence stays within the
/// per-sensor confidence band, so it is positive, at most one, and the tier
/// is "excellent".
pub proof fn lemma_fusion_confidence_bounds(input: FusionInput, out: FusionOutput)
    requires
        fusion_output_ok(input, out),
    ensures
        (forall|i: int| 0 <= i < input.sensor_data@.len() ==> !(#[trigger] input.sensor_data@[i]).1)
            ==> out.overall_confidence == 0 && out.fusion_quality == FusionQuality::Poor,
        (exists|i: int| 0 <= i < input.sensor_data@.len() && (#[trigger] input.sensor_data@[i]).1)
            ==> ACTIVE_CONFIDENCE_BASE <= out.overall_confidence <= 1000 && out.fusion_quality
            == FusionQuality::Excellent,
{
    let s = out.sensor_statuses@;
    if forall|i: int| 0 <= i < input.sensor_data@.len() ==> !(#[trigger] input.sensor_data@[i]).1 {
        assert(forall|i: int| 0 <= i < s.len() ==> !(#[trigger] s[i]).is_active);
        lemma_sums_when_inactive(s);
    }
    if exists|i: int|
        0 <= i < input.sensor_data@.len() && (#[trigger] input.sensor_data@[i]).1 {
        let i = choose|i: int|
            0 <= i < input.sensor_data@.len() && (#[trigger] input.sensor_data@[i]).1;
        assert(s[i].is_active);
        lemma_weight_sum_when_active(s);
        lemma_confidence_sum_bounds(s);
        let t = active_weight_sum(s);
        let w = weighted_confidence_sum(s);
        lemma_div_is_ordered(900 * t, w, t);
        lemma_div_is_ordered(w, 1000 * t, t);
        lemma_div_multiples_vanish(900, t);
        lemma_div_multiples_vanish(1000, t);
    }
}

/// The weighted sum of bounded per-sensor confidences is itself bounded by
/// the same band times the total weight.
proof fn lemma_confidence_sum_bounds(s: Seq<SensorStatus>)
    requires
        forall|i: int|
            0 <= i < s.len() ==> ((#[trigger] s[i]).is_active ==> ACTIVE_CONFIDENCE_BASE
                <= s[i].confidence <= ACTIVE_CONFIDENCE_BASE + ACTIVE_CONFIDENCE_SPREAD),
    ensures
        900 * active_weight_sum(s) <= weighted_confidence_sum(s) <= 1000 * active_weight_sum(s),
    decreases s.len(),
{
    if s.len() > 0 {
        lemma_confidence_sum_bounds(s.drop_last());
        if s.last().is_active {
            let w = spec_weight(s.last().sensor_type@);
            let c = s.last().confidence as int;
            assert(900 * w <= w * c <= 1000 * w) by (nonlinear_arith)
                requires
                    w >= 0,
                    900 <= c <= 1000,
            ;
            assert(900 * (active_weight_sum(s.drop_last()) + w) == 900 * active_weight_sum(
                s.drop_last(),
            ) + 900 * w) by (nonlinear_arith);
            assert(1000 * (active_weight_sum(s.drop_last()) + w) == 1000 * active_weight_sum(
                s.drop_last(),
            ) + 1000 * w) by (nonlinear_arith);
        }
    }
}

} // verus!
