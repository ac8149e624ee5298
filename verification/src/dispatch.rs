//! The typed-request router both transports funnel through: resolve the
//! model kind first, decode the payload second, compute under a read guard,
//! encode the result.  No other code path branches on the model kind.

use vstd::prelude::*;
use vstd::string::StringExecFns;
use crate::codec::{anomaly_input_decodable, anomaly_input_of, anomaly_payload_of,
    decode_anomaly_input, decode_fusion_input, decode_objects_input, decode_trajectory_input,
    encode_anomaly_output, encode_fusion_output, encode_objects_output, encode_trajectory_output,
    fusion_input_decodable, fusion_input_of, fusion_payload_of, objects_input_decodable,
    objects_input_of, objects_payload_of, trajectory_input_decodable, trajectory_input_of,
    trajectory_payload_of, str_eq, PayloadValue};
use crate::anomaly::{anomaly_output_ok, AnomalyDetectionInput, AnomalyDetectionOutput};
use crate::engine::MLEngine;
use crate::fusion::{fusion_output_ok, FusionInput, FusionOutput};
use crate::objects::{objects_output_ok, ObjectDetectionInput, ObjectDetectionOutput};
use crate::runtime::now_unix_millis;
use crate::trajectory::{trajectory_output_ok, TrajectoryPredictionInput,
    TrajectoryPredictionOutput};

verus! {

/// The closed set of model kinds; the routing key of the dispatcher.
#[derive(Clone, Copy, PartialEq, Eq, Structural, Debug, Hash)]
pub enum ModelType {
    TrajectoryPrediction,
    AnomalyDetection,
    ObjectDetection,
    SensorFusion,
}

impl ModelType {
    /// The stable wire tag of the kind.
    pub open spec fn spec_tag(self) -> Seq<char> {
        match self {
            ModelType::TrajectoryPrediction => "trajectory_prediction"@,
            ModelType::AnomalyDetection => "anomaly_detection"@,
            ModelType::ObjectDetection => "object_detection"@,
            ModelType::SensorFusion => "sensor_fusion"@,
        }
    }

    pub fn tag(&self) -> (r: &'static str)
        ensures
            r@ == self.spec_tag(),
    {
        match self {
            ModelType::TrajectoryPrediction => "trajectory_prediction",
            ModelType::AnomalyDetection => "anomaly_detection",
            ModelType::ObjectDetection => "object_detection",
            ModelType::SensorFusion => "sensor_fusion",
        }
    }
}

/// The kind named by a wire tag, if any (case-sensitive).
pub open spec fn spec_parse_model_tag(s: Seq<char>) -> Option<ModelType> {
    if s == "trajectory_prediction"@ {
        Some(ModelType::TrajectoryPrediction)
    } else if s == "anomaly_detection"@ {
        Some(ModelType::AnomalyDetection)
    } else if s == "object_detection"@ {
        Some(ModelType::ObjectDetection)
    } else if s == "sensor_fusion"@ {
        Some(ModelType::SensorFusion)
    } else {
        None
    }
}

pub fn parse_model_tag(s: &String) -> (r: Option<ModelType>)
    ensures
        r == spec_parse_model_tag(s@),
{
    if str_eq(s, "trajectory_prediction") {
        Some(ModelType::TrajectoryPrediction)
    } else if str_eq(s, "anomaly_detection") {
        Some(ModelType::AnomalyDetection)
    } else if str_eq(s, "object_detection") {
        Some(ModelType::ObjectDetection)
    } else if str_eq(s, "sensor_fusion") {
        Some(ModelType::SensorFusion)
    } else {
        None
    }
}

/// The kind named by a path segment of the request/response transport, if
/// any (case-sensitive).
pub open spec fn spec_parse_model_path(s: Seq<char>) -> Option<ModelType> {
    if s == "trajectory"@ {
        Some(ModelType::TrajectoryPrediction)
    } else if s == "anomaly"@ {
        Some(ModelType::AnomalyDetection)
    } else if s == "objects"@ {
        Some(ModelType::ObjectDetection)
    } else if s == "fusion"@ {
        Some(ModelType::SensorFusion)
    } else {
        None
    }
}

pub fn parse_model_path(s: &str) -> (r: Option<ModelType>)
    ensures
        r == spec_parse_model_path(s@),
{
    let owned: String = s.to_owned();
    if str_eq(&owned, "trajectory") {
        Some(ModelType::TrajectoryPrediction)
    } else if str_eq(&owned, "anomaly") {
        Some(ModelType::AnomalyDetection)
    } else if str_eq(&owned, "objects") {
        Some(ModelType::ObjectDetection)
    } else if str_eq(&owned, "fusion") {
        Some(ModelType::SensorFusion)
    } else {
        None
    }
}

/// The closed set of kinds, in listing order.
pub fn list_models() -> (r: Vec<ModelType>)
    ensures
        r@ =~= seq![
            ModelType::TrajectoryPrediction,
            ModelType::AnomalyDetection,
            ModelType::ObjectDetection,
            ModelType::SensorFusion,
        ],
{
    let mut models: Vec<ModelType> = Vec::new();
    models.push(ModelType::TrajectoryPrediction);
    models.push(ModelType::AnomalyDetection);
    models.push(ModelType::ObjectDetection);
    models.push(ModelType::SensorFusion);
    models
}

/// Why a dispatch was refused: an unrecognized kind tag, a payload that does
/// not match the kind's schema, or an internal fault that well-formed inputs
/// never produce.
#[derive(Debug)]
pub enum DispatchError {
    UnknownModel(String),
    InvalidInput(String),
    Internal,
}

impl DispatchError {
    /// A plain-text description, for the transports to report.
    pub fn message(self) -> (r: String)
        ensures
            match self {
                DispatchError::UnknownModel(m) => r == m,
                DispatchError::InvalidInput(m) => r == m,
                DispatchError::Internal => r@ == "internal error"@,
            },
    {
        match self {
            DispatchError::UnknownModel(m) => m,
            DispatchError::InvalidInput(m) => m,
            DispatchError::Internal => "internal error".to_owned(),
        }
    }
}

/// An inference request envelope: the kind, then the payload that only that
/// kind's branch may decode.
pub struct InferenceRequest {
    pub model_type: ModelType,
    pub data: PayloadValue,
}

/// The uniform response envelope: the kind echoed, the encoded result, the
/// wall-clock milliseconds the compute step took, and when it finished.
pub struct InferenceResponse {
    pub model_type: ModelType,
    pub prediction: PayloadValue,
    pub latency_ms: i64,
    pub timestamp: i64,
}

/// Whether `data` matches the input schema registered for `kind`.
pub open spec fn input_decodable_for(kind: ModelType, data: PayloadValue) -> bool {
    match kind {
        ModelType::TrajectoryPrediction => trajectory_input_decodable(data),
        ModelType::AnomalyDetection => anomaly_input_decodable(data),
        ModelType::ObjectDetection => objects_input_decodable(data),
        ModelType::SensorFusion => fusion_input_decodable(data),
    }
}

/// What `dispatch` owes: success exactly on payloads that match the kind's
/// schema, a client error otherwise, and on success a result payload in the
/// exact output schema of that kind, produced by that kind's executor from
/// the decoded input.
pub open spec fn dispatch_ok(
    kind: ModelType,
    data: PayloadValue,
    r: Result<PayloadValue, DispatchError>,
) -> bool {
    &&& r is Ok <==> input_decodable_for(kind, data)
    &&& r matches Err(e) ==> e is InvalidInput
    &&& match kind {
        ModelType::TrajectoryPrediction => r matches Ok(p) ==> exists|
            inp: TrajectoryPredictionInput,
            out: TrajectoryPredictionOutput,
        |
            trajectory_input_of(data, inp) && #[trigger] trajectory_output_ok(inp, out)
                && trajectory_payload_of(p, out),
        ModelType::AnomalyDetection => r matches Ok(p) ==> exists|
            inp: AnomalyDetectionInput,
            out: AnomalyDetectionOutput,
        |
            anomaly_input_of(data, inp) && #[trigger] anomaly_output_ok(
                inp,
                out.threshold as int,
                out,
            ) && anomaly_payload_of(p, out),
        ModelType::ObjectDetection => r matches Ok(p) ==> exists|
            inp: ObjectDetectionInput,
            out: ObjectDetectionOutput,
        |
            objects_input_of(data, inp) && #[trigger] objects_output_ok(inp, out)
                && objects_payload_of(p, out),
        ModelType::SensorFusion => r matches Ok(p) ==> exists|inp: FusionInput, out: FusionOutput|
            fusion_input_of(data, inp) && #[trigger] fusion_output_ok(inp, out)
                && fusion_payload_of(p, out),
    }
}

/// The single code path both transports call: validate the kind, decode the
/// payload for that kind only, compute under a read guard, encode.  On
/// success the second component is the wall-clock milliseconds the compute
/// step alone took.
pub fn dispatch(engine: &MLEngine, kind: ModelType, data: &PayloadValue) -> (r: Result<
    (PayloadValue, i64),
    DispatchError,
>)
    requires
        engine.wf(),
    ensures
        match r {
            Ok((p, latency)) => dispatch_ok(kind, *data, Ok(p)) && latency >= 0,
            Err(e) => dispatch_ok(kind, *data, Err(e)),
        },
{
    match kind {
        ModelType::TrajectoryPrediction => match decode_trajectory_input(data) {
            Ok(input) => {
                let started = now_unix_millis();
                let out = engine.predict_trajectory(&input);
                let latency = elapsed_since(started);
                let p = encode_trajectory_output(&out);
                proof {
                    assert(trajectory_input_of(*data, input) && trajectory_output_ok(input, out)
                        && trajectory_payload_of(p, out));
                }
                Ok((p, latency))
            },
            Err(msg) => Err(DispatchError::InvalidInput(msg)),
        },
        ModelType::AnomalyDetection => match decode_anomaly_input(data) {
            Ok(input) => {
                let started = now_unix_millis();
                let out = engine.detect_anomaly(&input);
                let latency = elapsed_since(started);
                let p = encode_anomaly_output(&out);
                proof {
                    assert(anomaly_input_of(*data, input) && anomaly_output_ok(
                        input,
                        out.threshold as int,
                        out,
                    ) && anomaly_payload_of(p, out));
                }
                Ok((p, latency))
            },
            Err(msg) => Err(DispatchError::InvalidInput(msg)),
        },
        ModelType::ObjectDetection => match decode_objects_input(data) {
            Ok(input) => {
                let started = now_unix_millis();
                let out = engine.detect_objects(&input);
                let latency = elapsed_since(started);
                let p = encode_objects_output(&out);
                proof {
                    assert(objects_input_of(*data, input) && objects_output_ok(input, out)
                        && objects_payload_of(p, out));
                }
                Ok((p, latency))
            },
            Err(msg) => Err(DispatchError::InvalidInput(msg)),
        },
        ModelType::SensorFusion => match decode_fusion_input(data) {
            Ok(input) => {
                let started = now_unix_millis();
                let out = engine.fuse_sensors(&input);
                let latency = elapsed_since(started);
                let p = encode_fusion_output(&out);
                proof {
                    assert(fusion_input_of(*data, input) && fusion_output_ok(input, out)
                        && fusion_payload_of(p, out));
                }
                Ok((p, latency))
            },
            Err(msg) => Err(DispatchError::InvalidInput(msg)),
        },
    }
}

/// Non-negative wall-clock milliseconds since `started`.
fn elapsed_since(started: i64) -> (r: i64)
    ensures
        r >= 0,
{
    let now = now_unix_millis();
    match now.checked_sub(started) {
        Some(elapsed) => if elapsed >= 0 {
            elapsed
        } else {
            0
        },
        None => 0,
    }
}

/// The request/response transport's core: resolve the path segment to a kind
/// (an unknown segment is refused before any executor is consulted), then
/// take the one dispatch path and wrap the result in the response envelope.
pub fn inference(engine: &MLEngine, model: &str, data: &PayloadValue) -> (r: Result<
    InferenceResponse,
    DispatchError,
>)
    requires
        engine.wf(),
    ensures
        match spec_parse_model_path(model@) {
            Some(kind) => match r {
                Ok(resp) => resp.model_type == kind && dispatch_ok(kind, *data, Ok(resp.prediction))
                    && resp.latency_ms >= 0,
                Err(e) => dispatch_ok(kind, *data, Err(e)),
            },
            None => r matches Err(e) && e matches DispatchError::UnknownModel(m) && m@
                == "unknown model: "@ + model@,
        },
{
    let kind = match parse_model_path(model) {
        Some(kind) => kind,
        None => {
            let mut message: String = "unknown model: ".to_owned();
            message.append(model);
            return Err(DispatchError::UnknownModel(message));
        },
    };
    match dispatch(engine, kind, data) {
        Ok((prediction, latency_ms)) => {
            let timestamp = now_unix_millis();
            Ok(InferenceResponse { model_type: kind, prediction, latency_ms, timestamp })
        },
        Err(e) => Err(e),
    }
}

} // verus!
