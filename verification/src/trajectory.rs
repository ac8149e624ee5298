//! Trajectory executor: linear extrapolation of the displacement between the
//! last two observed points across a requested horizon of future steps.

use vstd::prelude::*;
use crate::numeric::{COORD_LIMIT, HORIZON_LIMIT, TIMESTAMP_LIMIT};
use crate::runtime::random_below;

verus! {

/// A timestamped 2D position; `x` and `y` are in milli units.
#[derive(Clone, Copy, PartialEq, Eq, Structural, Debug)]
pub struct TrajectoryPoint {
    pub x: i64,
    pub y: i64,
    pub timestamp: i64,
}

impl TrajectoryPoint {
    pub open spec fn wf(self) -> bool {
        &&& -COORD_LIMIT <= self.x <= COORD_LIMIT
        &&& -COORD_LIMIT <= self.y <= COORD_LIMIT
        &&& -TIMESTAMP_LIMIT <= self.timestamp <= TIMESTAMP_LIMIT
    }
}

pub struct TrajectoryPredictionInput {
    pub history: Vec<TrajectoryPoint>,
    pub prediction_horizon: usize,
}

impl TrajectoryPredictionInput {
    pub open spec fn wf(&self) -> bool {
        &&& forall|i: int| 0 <= i < self.history@.len() ==> (#[trigger] self.history@[i]).wf()
        &&& self.prediction_horizon <= HORIZON_LIMIT
    }
}

pub struct TrajectoryPredictionOutput {
    /// Extrapolated future points, one per horizon step.
    pub predictions: Vec<TrajectoryPoint>,
    /// Per-mille confidence in the extrapolation.
    pub confidence: u64,
}

/// Smallest confidence the executor reports for a usable history.
pub const TRAJECTORY_CONFIDENCE_BASE: u64 = 850;

/// Width of the simulated model-uncertainty band above the base confidence.
pub const TRAJECTORY_CONFIDENCE_SPREAD: u64 = 100;

/// What the trajectory executor owes for `input`: too little history yields
/// an empty prediction set with zero confidence; otherwise exactly one point
/// per horizon step, each displaced from the last observation by the last
/// observed displacement, repeated.
pub open spec fn trajectory_output_ok(
    input: TrajectoryPredictionInput,
    out: TrajectoryPredictionOutput,
) -> bool {
    if input.history@.len() < 2 {
        out.predictions@.len() == 0 && out.confidence == 0
    } else {
        let last = input.history@[input.history@.len() - 1];
        let prev = input.history@[input.history@.len() - 2];
        &&& out.predictions@.len() == input.prediction_horizon
        &&& forall|i: int|
            0 <= i < out.predictions@.len() ==> {
                let p = #[trigger] out.predictions@[i];
                &&& p.x == last.x + (last.x - prev.x) * (i + 1)
                &&& p.y == last.y + (last.y - prev.y) * (i + 1)
                &&& p.timestamp == last.timestamp + (last.timestamp - prev.timestamp) * (i + 1)
            }
        &&& TRAJECTORY_CONFIDENCE_BASE <= out.confidence
            <= TRAJECTORY_CONFIDENCE_BASE + TRAJECTORY_CONFIDENCE_SPREAD
    }
}

/// Stateless linear extrapolator standing in for a learned sequence model.
pub struct TrajectoryPredictor {}

impl TrajectoryPredictor {
    pub fn new() -> (r: Self) {
        TrajectoryPredictor {  }
    }

    pub fn predict(&self, input: &TrajectoryPredictionInput) -> (r: TrajectoryPredictionOutput)
        requires
            input.wf(),
        ensures
            trajectory_output_ok(*input, r),
    {
        let n = input.history.len();
        if n < 2 {
            return TrajectoryPredictionOutput { predictions: Vec::new(), confidence: 0 };
        }
        let last = input.history[n - 1];
        let prev = input.history[n - 2];
        proof {
            assert(input.history@[n - 1].wf());
            assert(input.history@[n - 2].wf());
        }
        let dx = last.x - prev.x;
        let dy = last.y - prev.y;
        let dt = last.timestamp - prev.timestamp;
        let mut predictions: Vec<TrajectoryPoint> = Vec::new();
        let mut i: usize = 0;
        while i < input.prediction_horizon
            invariant
                i <= input.prediction_horizon <= HORIZON_LIMIT,
                predictions@.len() == i,
                last.wf(),
                prev.wf(),
                dx == last.x - prev.x,
                dy == last.y - prev.y,
                dt == last.timestamp - prev.timestamp,
                forall|j: int|
                    0 <= j < i ==> {
                        let p = #[trigger] predictions@[j];
                        &&& p.x == last.x + dx * (j + 1)
                        &&& p.y == last.y + dy * (j + 1)
                        &&& p.timestamp == last.timestamp + dt * (j + 1)
                    },
            decreases input.prediction_horizon - i,
        {
            let step = (i + 1) as i64;
            proof {
                assert(-200_000_000_000_000_000 <= dx * step <= 200_000_000_000_000_000)
                    by (nonlinear_arith)
                    requires
                        -2_000_000_000_000 <= dx <= 2_000_000_000_000,
                        1 <= step <= 100_000,
                ;
                assert(-200_000_000_000_000_000 <= dy * step <= 200_000_000_000_000_000)
                    by (nonlinear_arith)
                    requires
                        -2_000_000_000_000 <= dy <= 2_000_000_000_000,
                        1 <= step <= 100_000,
                ;
                assert(-800_000_000_000_000_000 <= dt * step <= 800_000_000_000_000_000)
                    by (nonlinear_arith)
                    requires
                        -8_000_000_000_000 <= dt <= 8_000_000_000_000,
                        1 <= step <= 100_000,
                ;
            }
            let px = last.x + dx * step;
            let py = last.y + dy * step;
            let pt = last.timestamp + dt * step;
            predictions.push(TrajectoryPoint { x: px, y: py, timestamp: pt });
            i = i + 1;
        }
        let confidence = TRAJECTORY_CONFIDENCE_BASE + random_below(
            TRAJECTORY_CONFIDENCE_SPREAD + 1,
        );
        TrajectoryPredictionOutput { predictions, confidence }
    }
}

/// For a history of at least two points whose last observed interval is
/// positive, the predicted timestamps increase strictly, step after step, by
/// exactly that interval.  (With a non-positive last interval the pattern is
/// still followed, but the timestamps do not grow.)
pub proof fn lemma_trajectory_timestamps_increase(
    input: TrajectoryPredictionInput,
    out: TrajectoryPredictionOutput,
)
    requires
        trajectory_output_ok(input, out),
        input.history@.len() >= 2,
        input.history@[input.history@.len() - 1].timestamp
            > input.history@[input.history@.len() - 2].timestamp,
    ensures
        out.predictions@.len() == input.prediction_horizon,
        forall|i: int|
            0 <= i < out.predictions@.len() - 1 ==> (#[trigger] out.predictions@[i]).timestamp
                < out.predictions@[i + 1].timestamp,
        out.predictions@.len() > 0 ==> input.history@[input.history@.len() - 1].timestamp
            < out.predictions@[0].timestamp,
{
    let last = input.history@[input.history@.len() - 1];
    let prev = input.history@[input.history@.len() - 2];
    let dt = last.timestamp - prev.timestamp;
    assert forall|i: int| 0 <= i < out.predictions@.len() - 1 implies (
    #[trigger] out.predictions@[i]).timestamp < out.predictions@[i + 1].timestamp by {
        assert(out.predictions@[i].timestamp == last.timestamp + dt * (i + 1));
        assert(out.predictions@[i + 1].timestamp == last.timestamp + dt * (i + 2));
        assert(dt * (i + 2) == dt * (i + 1) + dt) by (nonlinear_arith);
    }
    if out.predictions@.len() > 0 {
        assert(out.predictions@[0].timestamp == last.timestamp + dt * 1);
    }
}

} // verus!
