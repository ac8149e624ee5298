use ml_server::codec::{get_field, PayloadValue};
use ml_server::engine::MLEngine;
use ml_server::stream::{handle_stream_message, parse_message_tag, MessageType, WebSocketMessage};

fn obj(fields: Vec<(&str, PayloadValue)>) -> PayloadValue {
    PayloadValue::Object(fields.into_iter().map(|(k, v)| (k.to_string(), v)).collect())
}

fn field<'a>(p: &'a PayloadValue, name: &str) -> &'a PayloadValue {
    match p {
        PayloadValue::Object(fields) => get_field(fields, name).expect("missing field"),
        _ => panic!("not an object"),
    }
}

fn request_envelope(horizon: i64) -> PayloadValue {
    let point = |x: i64, y: i64, t: i64| {
        obj(vec![
            ("x", PayloadValue::Int(x)),
            ("y", PayloadValue::Int(y)),
            ("timestamp", PayloadValue::Int(t)),
        ])
    };
    obj(vec![
        ("model_type", PayloadValue::Text("trajectory_prediction".to_string())),
        (
            "data",
            obj(vec![
                ("history", PayloadValue::List(vec![point(0, 0, 0), point(1, 1, 1)])),
                ("prediction_horizon", PayloadValue::Int(horizon)),
            ]),
        ),
    ])
}

#[test]
fn message_tags_round_trip() {
    let kinds = [
        MessageType::InferenceRequest,
        MessageType::InferenceResponse,
        MessageType::ModelUpdate,
        MessageType::Error,
        MessageType::Heartbeat,
    ];
    for kind in kinds {
        assert_eq!(parse_message_tag(&kind.tag().to_string()), Some(kind));
    }
    assert_eq!(parse_message_tag(&"ping".to_string()), None);
}

#[test]
fn heartbeat_is_echoed_with_a_timestamp() {
    let engine = MLEngine::new();
    let msg = WebSocketMessage {
        message_type: MessageType::Heartbeat,
        payload: PayloadValue::Null,
    };
    let reply = handle_stream_message(&engine, &msg).expect("heartbeat needs a reply");
    assert_eq!(reply.message_type, MessageType::Heartbeat);
    assert!(matches!(field(&reply.payload, "timestamp"), PayloadValue::Int(_)));
}

#[test]
fn inference_request_gets_a_response_frame() {
    let engine = MLEngine::new();
    let msg = WebSocketMessage {
        message_type: MessageType::InferenceRequest,
        payload: request_envelope(2),
    };
    let reply = handle_stream_message(&engine, &msg).expect("request needs a reply");
    assert_eq!(reply.message_type, MessageType::InferenceResponse);
    assert!(matches!(field(&reply.payload, "model_type"),
        PayloadValue::Text(t) if t == "trajectory_prediction"));
    let prediction = field(&reply.payload, "prediction");
    match field(prediction, "predictions") {
        PayloadValue::List(items) => assert_eq!(items.len(), 2),
        _ => panic!("predictions must be a list"),
    }
    assert!(matches!(field(&reply.payload, "latency_ms"), PayloadValue::Int(l) if *l >= 0));
    assert!(matches!(field(&reply.payload, "timestamp"), PayloadValue::Int(_)));
}

#[test]
fn malformed_request_gets_an_error_frame_not_a_hangup() {
    let engine = MLEngine::new();
    let msg = WebSocketMessage {
        message_type: MessageType::InferenceRequest,
        payload: PayloadValue::Null,
    };
    let reply = handle_stream_message(&engine, &msg).expect("request needs a reply");
    assert_eq!(reply.message_type, MessageType::Error);
    assert!(matches!(field(&reply.payload, "error"), PayloadValue::Text(_)));

    let bad_schema = WebSocketMessage {
        message_type: MessageType::InferenceRequest,
        payload: obj(vec![
            ("model_type", PayloadValue::Text("trajectory_prediction".to_string())),
            ("data", PayloadValue::Bool(true)),
        ]),
    };
    let reply = handle_stream_message(&engine, &bad_schema).expect("request needs a reply");
    assert_eq!(reply.message_type, MessageType::Error);
}

#[test]
fn unknown_model_tag_in_envelope_is_an_error_frame() {
    let engine = MLEngine::new();
    let msg = WebSocketMessage {
        message_type: MessageType::InferenceRequest,
        payload: obj(vec![
            ("model_type", PayloadValue::Text("telepathy".to_string())),
            ("data", PayloadValue::Null),
        ]),
    };
    let reply = handle_stream_message(&engine, &msg).expect("request needs a reply");
    assert_eq!(reply.message_type, MessageType::Error);
}

#[test]
fn other_message_kinds_produce_no_reply() {
    let engine = MLEngine::new();
    for kind in [MessageType::ModelUpdate, MessageType::Error, MessageType::InferenceResponse] {
        let msg = WebSocketMessage { message_type: kind, payload: PayloadValue::Null };
        assert!(handle_stream_message(&engine, &msg).is_none());
    }
}

#[test]
fn responses_come_back_in_request_order() {
    // One frame in, one frame out, in reading order: the i-th request asks
    // for i predicted points and the i-th response must carry exactly i.
    let engine = MLEngine::new();
    let mut replies = Vec::new();
    for horizon in 1..=8i64 {
        let msg = WebSocketMessage {
            message_type: MessageType::InferenceRequest,
            payload: request_envelope(horizon),
        };
        replies.push(handle_stream_message(&engine, &msg).expect("request needs a reply"));
    }
    for (i, reply) in replies.iter().enumerate() {
        assert_eq!(reply.message_type, MessageType::InferenceResponse);
        let prediction = field(&reply.payload, "prediction");
        match field(prediction, "predictions") {
            PayloadValue::List(items) => assert_eq!(items.len(), i + 1),
            _ => panic!("predictions must be a list"),
        }
    }
}
