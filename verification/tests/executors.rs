use ml_server::anomaly::{AnomalyDetectionInput, AnomalyDetector, SensorData};
use ml_server::fusion::{classify_quality, FusionInput, FusionQuality, SensorFusion};
use ml_server::numeric::isqrt64;
use ml_server::objects::{ObjectDetectionInput, ObjectDetector};
use ml_server::trajectory::{TrajectoryPoint, TrajectoryPredictionInput, TrajectoryPredictor};

fn point(x: i64, y: i64, timestamp: i64) -> TrajectoryPoint {
    TrajectoryPoint { x, y, timestamp }
}

#[test]
fn trajectory_two_point_history_matches_example() {
    // One unit is 1000 milli units: the history (0,0) -> (1,2) extrapolates
    // to (2,4) and (3,6) over two steps.
    let input = TrajectoryPredictionInput {
        history: vec![point(0, 0, 0), point(1000, 2000, 1)],
        prediction_horizon: 2,
    };
    let out = TrajectoryPredictor::new().predict(&input);
    assert_eq!(out.predictions.len(), 2);
    assert_eq!(out.predictions[0], point(2000, 4000, 2));
    assert_eq!(out.predictions[1], point(3000, 6000, 3));
    assert!(850 <= out.confidence && out.confidence <= 950);
}

#[test]
fn trajectory_short_history_yields_empty() {
    let input = TrajectoryPredictionInput {
        history: vec![point(5000, 5000, 10)],
        prediction_horizon: 7,
    };
    let out = TrajectoryPredictor::new().predict(&input);
    assert!(out.predictions.is_empty());
    assert_eq!(out.confidence, 0);

    let empty = TrajectoryPredictionInput { history: vec![], prediction_horizon: 3 };
    let out = TrajectoryPredictor::new().predict(&empty);
    assert!(out.predictions.is_empty());
    assert_eq!(out.confidence, 0);
}

#[test]
fn trajectory_timestamps_increase_by_last_interval() {
    let input = TrajectoryPredictionInput {
        history: vec![point(0, 0, 0), point(1000, 0, 2)],
        prediction_horizon: 5,
    };
    let out = TrajectoryPredictor::new().predict(&input);
    assert_eq!(out.predictions.len(), 5);
    let mut expected_t = 2;
    for p in &out.predictions {
        expected_t += 2;
        assert_eq!(p.timestamp, expected_t);
    }
}

#[test]
fn anomaly_constant_series_scores_zero() {
    let input = AnomalyDetectionInput {
        sensor_readings: vec![SensorData {
            sensor_type: "imu".to_string(),
            values: vec![5000, 5000, 5000],
            timestamp: 42,
        }],
    };
    let detector = AnomalyDetector::new();
    let out = detector.detect(&input);
    assert_eq!(out.sensor_scores.len(), 1);
    assert_eq!(out.sensor_scores[0].0, "imu");
    assert_eq!(out.sensor_scores[0].1, 0);
    assert!(-100 <= out.anomaly_score && out.anomaly_score <= 100);
    assert_eq!(out.threshold, 850);
    assert!(!out.is_anomaly);
}

#[test]
fn anomaly_known_series_exact_score() {
    // Values 1.0 and 3.0: mean 2.0, stddev 1.0; score = 1000 * 1000 / 2001.
    let input = AnomalyDetectionInput {
        sensor_readings: vec![SensorData {
            sensor_type: "lidar".to_string(),
            values: vec![1000, 3000],
            timestamp: 0,
        }],
    };
    let out = AnomalyDetector::new().detect(&input);
    assert_eq!(out.sensor_scores[0].1, 499);
    let base = 499;
    assert!(base - 100 <= out.anomaly_score && out.anomaly_score <= base + 100);
    assert_eq!(out.is_anomaly, out.anomaly_score > 850);
}

#[test]
fn anomaly_no_sensors_scores_zero() {
    let input = AnomalyDetectionInput { sensor_readings: vec![] };
    let out = AnomalyDetector::new().detect(&input);
    assert!(out.sensor_scores.is_empty());
    assert!(-100 <= out.anomaly_score && out.anomaly_score <= 100);
}

#[test]
fn anomaly_threshold_update_applies() {
    let mut detector = AnomalyDetector::new();
    detector.update_threshold(-200);
    let input = AnomalyDetectionInput {
        sensor_readings: vec![SensorData {
            sensor_type: "imu".to_string(),
            values: vec![1000, 1000],
            timestamp: 0,
        }],
    };
    let out = detector.detect(&input);
    assert_eq!(out.threshold, -200);
    // The score sits in [-100, 100], so it always exceeds the new threshold.
    assert!(out.is_anomaly);
}

#[test]
fn fusion_no_active_sensors_is_poor() {
    let input = FusionInput {
        sensor_data: vec![("lidar".to_string(), false), ("camera".to_string(), false)],
        timestamp: 77,
    };
    let out = SensorFusion::new().fuse(&input);
    assert_eq!(out.overall_confidence, 0);
    assert_eq!(out.fusion_quality, FusionQuality::Poor);
    assert_eq!(out.sensor_statuses.len(), 2);
    for st in &out.sensor_statuses {
        assert!(!st.is_active);
        assert_eq!(st.confidence, 0);
        assert_eq!(st.last_update, 77);
    }
}

#[test]
fn fusion_all_active_is_excellent() {
    let input = FusionInput {
        sensor_data: vec![
            ("lidar".to_string(), true),
            ("camera".to_string(), true),
            ("radar".to_string(), true),
        ],
        timestamp: 5,
    };
    let out = SensorFusion::new().fuse(&input);
    assert!(900 <= out.overall_confidence && out.overall_confidence <= 1000);
    assert_eq!(out.fusion_quality, FusionQuality::Excellent);
    for (st, (name, _)) in out.sensor_statuses.iter().zip(input.sensor_data.iter()) {
        assert_eq!(&st.sensor_type, name);
        assert!(st.is_active);
        assert!(900 <= st.confidence && st.confidence <= 1000);
    }
}

#[test]
fn fusion_unknown_sensor_uses_default_weight() {
    let input = FusionInput {
        sensor_data: vec![("sonar".to_string(), true), ("lidar".to_string(), false)],
        timestamp: 1,
    };
    let out = SensorFusion::new().fuse(&input);
    // A single active sensor's weight cancels out of the weighted average.
    assert!(900 <= out.overall_confidence && out.overall_confidence <= 1000);
    assert_eq!(out.fusion_quality, FusionQuality::Excellent);
}

#[test]
fn fusion_quality_tier_boundaries() {
    assert_eq!(classify_quality(1000), FusionQuality::Excellent);
    assert_eq!(classify_quality(800), FusionQuality::Excellent);
    assert_eq!(classify_quality(799), FusionQuality::Good);
    assert_eq!(classify_quality(600), FusionQuality::Good);
    assert_eq!(classify_quality(599), FusionQuality::Fair);
    assert_eq!(classify_quality(400), FusionQuality::Fair);
    assert_eq!(classify_quality(399), FusionQuality::Poor);
    assert_eq!(classify_quality(0), FusionQuality::Poor);
}

#[test]
fn objects_simple_frame_is_within_band() {
    let detector = ObjectDetector::new();
    let input = ObjectDetectionInput {
        frame_id: "frame-1".to_string(),
        timestamp: 9,
        simulate_complex: false,
    };
    let out = detector.detect(&input);
    assert_eq!(out.frame_id, "frame-1");
    assert!(2 <= out.objects.len() && out.objects.len() < 8);
    let vocabulary = [
        "car", "truck", "pedestrian", "bicycle", "motorcycle", "bus", "traffic_light",
        "stop_sign",
    ];
    for (i, obj) in out.objects.iter().enumerate() {
        assert_eq!(obj.id, format!("obj_{}", i));
        assert!(vocabulary.contains(&obj.class_name.as_str()));
        assert!(700 <= obj.confidence && obj.confidence <= 1000);
        assert!(-50_000 <= obj.bounding_box.x && obj.bounding_box.x < 50_000);
        assert!(-50_000 <= obj.bounding_box.y && obj.bounding_box.y < 50_000);
        assert!(5_000 <= obj.bounding_box.width && obj.bounding_box.width < 20_000);
        assert!(5_000 <= obj.bounding_box.height && obj.bounding_box.height < 20_000);
    }
    assert!(out.processing_time_ms >= 0);
}

#[test]
fn objects_complex_frame_is_busier() {
    let detector = ObjectDetector::new();
    let input = ObjectDetectionInput {
        frame_id: "frame-2".to_string(),
        timestamp: 9,
        simulate_complex: true,
    };
    for _ in 0..20 {
        let out = detector.detect(&input);
        assert!(5 <= out.objects.len() && out.objects.len() < 15);
    }
}

#[test]
fn isqrt_exact_values() {
    assert_eq!(isqrt64(0), 0);
    assert_eq!(isqrt64(1), 1);
    assert_eq!(isqrt64(3), 1);
    assert_eq!(isqrt64(4), 2);
    assert_eq!(isqrt64(15), 3);
    assert_eq!(isqrt64(16), 4);
    assert_eq!(isqrt64(1_000_000), 1000);
    assert_eq!(isqrt64(u64::MAX), 4_294_967_295);
}
