//! The executor registry: one instance of each executor variant, each behind
//! its own reader/writer lock.  Readers of one model kind run concurrently;
//! a writer excludes readers of the same kind only, so reconfiguring one
//! executor never blocks work on a different kind, and an update is observed
//! atomically by later reads.

use vstd::prelude::*;
use vstd::rwlock::RwLock;
use crate::anomaly::{anomaly_output_ok, AnomalyDetectionInput, AnomalyDetectionOutput,
    AnomalyDetector};
use crate::fusion::{fusion_output_ok, FusionInput, FusionOutput, SensorFusion};
use crate::objects::{objects_output_ok, ObjectDetectionInput, ObjectDetectionOutput,
    ObjectDetector};
use crate::trajectory::{trajectory_output_ok, TrajectoryPredictionInput,
    TrajectoryPredictionOutput, TrajectoryPredictor};

verus! {

pub struct MLEngine {
    trajectory_predictor: RwLock<TrajectoryPredictor, spec_fn(TrajectoryPredictor) -> bool>,
    anomaly_detector: RwLock<AnomalyDetector, spec_fn(AnomalyDetector) -> bool>,
    object_detector: RwLock<ObjectDetector, spec_fn(ObjectDetector) -> bool>,
    sensor_fusion: RwLock<SensorFusion, spec_fn(SensorFusion) -> bool>,
}

impl MLEngine {
    /// Every value the locks can hold satisfies its executor's invariant, and
    /// the anomaly lock accepts any reconfigured detector.
    pub closed spec fn wf(&self) -> bool {
        &&& forall|d: AnomalyDetector| #[trigger] self.anomaly_detector.inv(d)
        &&& forall|d: ObjectDetector| #[trigger] self.object_detector.inv(d) ==> d.wf()
        &&& forall|f: SensorFusion| #[trigger] self.sensor_fusion.inv(f) ==> f.wf()
    }

    pub fn new() -> (r: Self)
        ensures
            r.wf(),
    {
        let trajectory_predictor = RwLock::new(
            TrajectoryPredictor::new(),
            Ghost(|p: TrajectoryPredictor| true),
        );
        let anomaly_detector = RwLock::new(AnomalyDetector::new(), Ghost(|d: AnomalyDetector| true));
        let object_detector = RwLock::new(ObjectDetector::new(), Ghost(|d: ObjectDetector| d.wf()));
        let sensor_fusion = RwLock::new(SensorFusion::new(), Ghost(|f: SensorFusion| f.wf()));
        MLEngine { trajectory_predictor, anomaly_detector, object_detector, sensor_fusion }
    }

    pub fn predict_trajectory(&self, input: &TrajectoryPredictionInput) -> (out:
        TrajectoryPredictionOutput)
        requires
            self.wf(),
            input.wf(),
        ensures
            trajectory_output_ok(*input, out),
    {
        let handle = self.trajectory_predictor.acquire_read();
        let out = handle.borrow().predict(input);
        handle.release_read();
        out
    }

    /// The threshold in the output is the one the detector held when the read
    /// guard was taken.
    pub fn detect_anomaly(&self, input: &AnomalyDetectionInput) -> (out: AnomalyDetectionOutput)
        requires
            self.wf(),
            input.wf(),
        ensures
            anomaly_output_ok(*input, out.threshold as int, out),
    {
        let handle = self.anomaly_detector.acquire_read();
        let out = handle.borrow().detect(input);
        handle.release_read();
        out
    }

    pub fn detect_objects(&self, input: &ObjectDetectionInput) -> (out: ObjectDetectionOutput)
        requires
            self.wf(),
            input.wf(),
        ensures
            objects_output_ok(*input, out),
    {
        let handle = self.object_detector.acquire_read();
        let out = handle.borrow().detect(input);
        handle.release_read();
        out
    }

    pub fn fuse_sensors(&self, input: &FusionInput) -> (out: FusionOutput)
        requires
            self.wf(),
            input.wf(),
        ensures
            fusion_output_ok(*input, out),
    {
        let handle = self.sensor_fusion.acquire_read();
        let out = handle.borrow().fuse(input);
        handle.release_read();
        out
    }

    /// The administrative write path: takes the anomaly kind's write lock
    /// exclusively, so no concurrent reader of that kind can observe a
    /// half-applied update, and no other kind is blocked meanwhile.
    pub fn update_anomaly_threshold(&self, threshold: i64)
        requires
            self.wf(),
    {
        let (mut detector, handle) = self.anomaly_detector.acquire_write();
        detector.update_threshold(threshold);
        handle.release_write(detector);
    }
}

} // verus!
