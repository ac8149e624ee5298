use ml_server::codec::{get_field, PayloadValue};
use ml_server::dispatch::{inference, list_models, parse_model_path, parse_model_tag,
    DispatchError, ModelType};
use ml_server::engine::MLEngine;

fn obj(fields: Vec<(&str, PayloadValue)>) -> PayloadValue {
    PayloadValue::Object(fields.into_iter().map(|(k, v)| (k.to_string(), v)).collect())
}

fn wire_point(x: i64, y: i64, t: i64) -> PayloadValue {
    obj(vec![
        ("x", PayloadValue::Int(x)),
        ("y", PayloadValue::Int(y)),
        ("timestamp", PayloadValue::Int(t)),
    ])
}

fn trajectory_payload() -> PayloadValue {
    obj(vec![
        ("history", PayloadValue::List(vec![wire_point(0, 0, 0), wire_point(1, 2, 1)])),
        ("prediction_horizon", PayloadValue::Int(2)),
    ])
}

fn field<'a>(p: &'a PayloadValue, name: &str) -> &'a PayloadValue {
    match p {
        PayloadValue::Object(fields) => get_field(fields, name).expect("missing field"),
        _ => panic!("not an object"),
    }
}

#[test]
fn list_models_is_the_closed_set() {
    let models = list_models();
    assert_eq!(
        models,
        vec![
            ModelType::TrajectoryPrediction,
            ModelType::AnomalyDetection,
            ModelType::ObjectDetection,
            ModelType::SensorFusion,
        ]
    );
}

#[test]
fn model_tags_round_trip() {
    for kind in list_models() {
        assert_eq!(parse_model_tag(&kind.tag().to_string()), Some(kind));
    }
    assert_eq!(parse_model_tag(&"Trajectory_Prediction".to_string()), None);
    assert_eq!(parse_model_path("trajectory"), Some(ModelType::TrajectoryPrediction));
    assert_eq!(parse_model_path("anomaly"), Some(ModelType::AnomalyDetection));
    assert_eq!(parse_model_path("objects"), Some(ModelType::ObjectDetection));
    assert_eq!(parse_model_path("fusion"), Some(ModelType::SensorFusion));
    assert_eq!(parse_model_path("Fusion"), None);
}

#[test]
fn unknown_model_is_a_client_error() {
    let engine = MLEngine::new();
    let r = inference(&engine, "nonsense", &trajectory_payload());
    match r {
        Err(DispatchError::UnknownModel(msg)) => assert!(msg.contains("nonsense")),
        other => panic!("expected an unknown-model error, got {:?}", other.is_ok()),
    }
}

#[test]
fn schema_mismatch_is_a_client_error() {
    let engine = MLEngine::new();
    let missing_history = obj(vec![("prediction_horizon", PayloadValue::Int(2))]);
    match inference(&engine, "trajectory", &missing_history) {
        Err(DispatchError::InvalidInput(_)) => {},
        _ => panic!("expected an invalid-input error"),
    }
    let negative_horizon = obj(vec![
        ("history", PayloadValue::List(vec![])),
        ("prediction_horizon", PayloadValue::Int(-1)),
    ]);
    match inference(&engine, "trajectory", &negative_horizon) {
        Err(DispatchError::InvalidInput(_)) => {},
        _ => panic!("expected an invalid-input error"),
    }
    let not_an_object = PayloadValue::Int(3);
    match inference(&engine, "fusion", &not_an_object) {
        Err(DispatchError::InvalidInput(_)) => {},
        _ => panic!("expected an invalid-input error"),
    }
    let duplicate_sensor = obj(vec![
        (
            "sensor_data",
            obj(vec![("lidar", PayloadValue::Bool(true)), ("lidar", PayloadValue::Bool(false))]),
        ),
        ("timestamp", PayloadValue::Int(0)),
    ]);
    match inference(&engine, "fusion", &duplicate_sensor) {
        Err(DispatchError::InvalidInput(_)) => {},
        _ => panic!("expected an invalid-input error"),
    }
}

#[test]
fn fractional_wire_numbers_are_accepted_as_milli_units() {
    let engine = MLEngine::new();
    // 0.5 units arrive as 500 milli units.
    let payload = obj(vec![
        (
            "history",
            PayloadValue::List(vec![
                obj(vec![
                    ("x", PayloadValue::Milli(0)),
                    ("y", PayloadValue::Milli(0)),
                    ("timestamp", PayloadValue::Int(0)),
                ]),
                obj(vec![
                    ("x", PayloadValue::Milli(500)),
                    ("y", PayloadValue::Int(1)),
                    ("timestamp", PayloadValue::Int(1)),
                ]),
            ]),
        ),
        ("prediction_horizon", PayloadValue::Int(1)),
    ]);
    let resp = inference(&engine, "trajectory", &payload).expect("dispatch failed");
    let predictions = match field(&resp.prediction, "predictions") {
        PayloadValue::List(items) => items,
        _ => panic!("predictions must be a list"),
    };
    assert!(matches!(field(&predictions[0], "x"), PayloadValue::Milli(1000)));
    assert!(matches!(field(&predictions[0], "y"), PayloadValue::Milli(2000)));
}

#[test]
fn out_of_range_coordinates_are_rejected() {
    let engine = MLEngine::new();
    let payload = obj(vec![
        (
            "history",
            PayloadValue::List(vec![
                wire_point(0, 0, 0),
                // Beyond the largest coordinate magnitude the schema admits.
                wire_point(2_000_000_000, 0, 1),
            ]),
        ),
        ("prediction_horizon", PayloadValue::Int(1)),
    ]);
    match inference(&engine, "trajectory", &payload) {
        Err(DispatchError::InvalidInput(_)) => {},
        _ => panic!("expected an invalid-input error"),
    }
}

#[test]
fn trajectory_dispatch_extrapolates_the_example() {
    let engine = MLEngine::new();
    let resp = inference(&engine, "trajectory", &trajectory_payload()).expect("dispatch failed");
    assert_eq!(resp.model_type, ModelType::TrajectoryPrediction);
    assert!(resp.latency_ms >= 0);
    let predictions = match field(&resp.prediction, "predictions") {
        PayloadValue::List(items) => items,
        _ => panic!("predictions must be a list"),
    };
    assert_eq!(predictions.len(), 2);
    let expected = [(2000, 4000, 2), (3000, 6000, 3)];
    for (item, (x, y, t)) in predictions.iter().zip(expected.iter()) {
        assert!(matches!(field(item, "x"), PayloadValue::Milli(v) if v == x));
        assert!(matches!(field(item, "y"), PayloadValue::Milli(v) if v == y));
        assert!(matches!(field(item, "timestamp"), PayloadValue::Int(v) if v == t));
    }
    match field(&resp.prediction, "confidence") {
        PayloadValue::Milli(c) => assert!(850 <= *c && *c <= 950),
        _ => panic!("confidence must be a number"),
    }
}

#[test]
fn anomaly_dispatch_reports_scores_and_threshold() {
    let engine = MLEngine::new();
    let payload = obj(vec![(
        "sensor_readings",
        PayloadValue::List(vec![obj(vec![
            ("sensor_type", PayloadValue::Text("imu".to_string())),
            (
                "values",
                PayloadValue::List(vec![PayloadValue::Int(1), PayloadValue::Int(3)]),
            ),
            ("timestamp", PayloadValue::Int(4)),
        ])]),
    )]);
    let resp = inference(&engine, "anomaly", &payload).expect("dispatch failed");
    assert_eq!(resp.model_type, ModelType::AnomalyDetection);
    assert!(matches!(field(&resp.prediction, "threshold"), PayloadValue::Milli(850)));
    let rows = match field(&resp.prediction, "sensor_scores") {
        PayloadValue::List(rows) => rows,
        _ => panic!("sensor_scores must be a list"),
    };
    assert_eq!(rows.len(), 1);
    match &rows[0] {
        PayloadValue::List(pair) => {
            assert!(matches!(&pair[0], PayloadValue::Text(t) if t == "imu"));
            // Values 1.0 and 3.0 give stddev 1.0 over shifted mean 2.001.
            assert!(matches!(&pair[1], PayloadValue::Milli(499)));
        },
        _ => panic!("score row must be a pair"),
    }
    assert!(matches!(field(&resp.prediction, "is_anomaly"), PayloadValue::Bool(_)));
}

#[test]
fn objects_dispatch_echoes_the_frame() {
    let engine = MLEngine::new();
    let payload = obj(vec![
        ("frame_id", PayloadValue::Text("f-9".to_string())),
        ("timestamp", PayloadValue::Int(123)),
        ("simulate_complex", PayloadValue::Bool(false)),
    ]);
    let resp = inference(&engine, "objects", &payload).expect("dispatch failed");
    assert_eq!(resp.model_type, ModelType::ObjectDetection);
    assert!(matches!(field(&resp.prediction, "frame_id"), PayloadValue::Text(t) if t == "f-9"));
    let items = match field(&resp.prediction, "objects") {
        PayloadValue::List(items) => items,
        _ => panic!("objects must be a list"),
    };
    assert!(2 <= items.len() && items.len() < 8);
    assert!(matches!(field(&items[0], "id"), PayloadValue::Text(t) if t == "obj_0"));
    let bbox = field(&items[0], "bounding_box");
    assert!(matches!(field(bbox, "width"), PayloadValue::Milli(w) if 5_000 <= *w && *w < 20_000));
}

#[test]
fn fusion_dispatch_classifies_quality() {
    let engine = MLEngine::new();
    let payload = obj(vec![
        (
            "sensor_data",
            obj(vec![
                ("lidar", PayloadValue::Bool(true)),
                ("camera", PayloadValue::Bool(true)),
            ]),
        ),
        ("timestamp", PayloadValue::Int(55)),
    ]);
    let resp = inference(&engine, "fusion", &payload).expect("dispatch failed");
    assert_eq!(resp.model_type, ModelType::SensorFusion);
    assert!(matches!(field(&resp.prediction, "overall_confidence"),
        PayloadValue::Milli(c) if 900 <= *c && *c <= 1000));
    assert!(matches!(field(&resp.prediction, "fusion_quality"),
        PayloadValue::Text(q) if q == "excellent"));
    let statuses = match field(&resp.prediction, "sensor_statuses") {
        PayloadValue::List(items) => items,
        _ => panic!("sensor_statuses must be a list"),
    };
    assert_eq!(statuses.len(), 2);
    assert!(matches!(field(&statuses[0], "last_update"), PayloadValue::Int(55)));
}

#[test]
fn engine_threshold_update_is_observed_by_later_reads() {
    let engine = MLEngine::new();
    engine.update_anomaly_threshold(-500);
    let input = ml_server::anomaly::AnomalyDetectionInput {
        sensor_readings: vec![ml_server::anomaly::SensorData {
            sensor_type: "imu".to_string(),
            values: vec![2000, 2000],
            timestamp: 0,
        }],
    };
    let out = engine.detect_anomaly(&input);
    assert_eq!(out.threshold, -500);
    assert!(out.is_anomaly);
}

#[test]
fn registry_writes_do_not_block_other_kinds() {
    let rt = tokio::runtime::Builder::new_multi_thread()
        .worker_threads(4)
        .enable_time()
        .build()
        .unwrap();
    rt.block_on(async {
        let engine = std::sync::Arc::new(MLEngine::new());
        let writer_engine = engine.clone();
        let writer = tokio::spawn(async move {
            for i in 0..500i64 {
                writer_engine.update_anomaly_threshold(i);
            }
        });
        let reader_engine = engine.clone();
        let reader = tokio::spawn(async move {
            let input = ml_server::trajectory::TrajectoryPredictionInput {
                history: vec![
                    ml_server::trajectory::TrajectoryPoint { x: 0, y: 0, timestamp: 0 },
                    ml_server::trajectory::TrajectoryPoint { x: 1000, y: 1000, timestamp: 1 },
                ],
                prediction_horizon: 3,
            };
            for _ in 0..500 {
                let out = reader_engine.predict_trajectory(&input);
                assert_eq!(out.predictions.len(), 3);
            }
        });
        let both = tokio::time::timeout(std::time::Duration::from_secs(10), async {
            writer.await.unwrap();
            reader.await.unwrap();
        })
        .await;
        assert!(both.is_ok(), "kinds must not block one another");
    });
}
