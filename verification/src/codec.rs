//! The untyped payload carried by both transports, and the kind-specific
//! schemas.  A payload stays opaque until the dispatcher has resolved the
//! model kind; only then is it decoded, by the functions here, into that
//! kind's typed input.  Outputs are encoded back into payloads whose exact
//! shape the `*_payload_of` predicates pin down.

use vstd::prelude::*;
use crate::numeric::{COORD_LIMIT, HORIZON_LIMIT, SENSOR_LIMIT, SERIES_LIMIT, TIMESTAMP_LIMIT,
    VALUE_LIMIT};
use crate::anomaly::{AnomalyDetectionInput, AnomalyDetectionOutput, SensorData};
use crate::fusion::{FusionInput, FusionOutput};
use crate::objects::{ObjectDetectionInput, ObjectDetectionOutput, DetectedObject};
use crate::trajectory::{TrajectoryPoint, TrajectoryPredictionInput, TrajectoryPredictionOutput};

verus! {

/// An untyped wire value.  Whole wire numbers arrive as `Int`; fractional
/// wire numbers arrive as `Milli`, scaled by one thousand.
pub enum PayloadValue {
    Null,
    Bool(bool),
    /// A whole number, unscaled.
    Int(i64),
    /// A fractional number, in milli units.
    Milli(i64),
    Text(String),
    List(Vec<PayloadValue>),
    Object(Vec<(String, PayloadValue)>),
}

/// The value of the first field named `name`, if any.
pub open spec fn spec_lookup(
    fields: Seq<(String, PayloadValue)>,
    name: Seq<char>,
) -> Option<PayloadValue>
    decreases fields.len(),
{
    if fields.len() == 0 {
        None
    } else if fields[0].0@ == name {
        Some(fields[0].1)
    } else {
        spec_lookup(fields.drop_first(), name)
    }
}

pub(crate) fn str_eq(a: &String, b: &str) -> (r: bool)
    ensures
        r == (a@ == b@),
{
    let owned: String = b.to_owned();
    a.eq(&owned)
}

/// Looks a field up by name, first occurrence first.
pub fn get_field<'a>(fields: &'a Vec<(String, PayloadValue)>, name: &str) -> (r: Option<
    &'a PayloadValue,
>)
    ensures
        match r {
            Some(v) => spec_lookup(fields@, name@) == Some(*v),
            None => spec_lookup(fields@, name@) is None,
        },
{
    let mut i: usize = 0;
    proof {
        assert(fields@.skip(0) =~= fields@);
    }
    while i < fields.len()
        invariant
            i <= fields@.len(),
            spec_lookup(fields@, name@) == spec_lookup(fields@.skip(i as int), name@),
        decreases fields@.len() - i,
    {
        proof {
            assert(fields@.skip(i as int)[0] == fields@[i as int]);
            assert(fields@.skip(i as int).drop_first() =~= fields@.skip(i as int + 1));
        }
        let entry = &fields[i];
        if str_eq(&entry.0, name) {
            return Some(&entry.1);
        }
        i = i + 1;
    }
    proof {
        assert(fields@.skip(fields@.len() as int) =~= Seq::<(String, PayloadValue)>::empty());
    }
    None
}

/// Reads a fractional wire number as milli units, accepting a whole number
/// by scaling it, and rejecting anything beyond `limit` in magnitude.
pub open spec fn spec_as_milli(v: PayloadValue, limit: int) -> Option<int> {
    match v {
        PayloadValue::Int(n) => if -limit <= n * 1000 <= limit {
            Some(n * 1000)
        } else {
            None
        },
        PayloadValue::Milli(m) => if -limit <= m <= limit {
            Some(m as int)
        } else {
            None
        },
        _ => None,
    }
}

pub fn as_milli(v: &PayloadValue, limit: i64) -> (r: Option<i64>)
    requires
        0 <= limit,
    ensures
        match r {
            Some(n) => spec_as_milli(*v, limit as int) == Some(n as int),
            None => spec_as_milli(*v, limit as int) is None,
        },
{
    match v {
        PayloadValue::Int(n) => match n.checked_mul(1000) {
            Some(p) => if -limit <= p && p <= limit {
                Some(p)
            } else {
                None
            },
            None => None,
        },
        PayloadValue::Milli(m) => if -limit <= *m && *m <= limit {
            Some(*m)
        } else {
            None
        },
        _ => None,
    }
}

/// Reads a whole wire number, rejecting anything beyond `limit` in magnitude.
pub open spec fn spec_as_int(v: PayloadValue, limit: int) -> Option<int> {
    match v {
        PayloadValue::Int(n) => if -limit <= n <= limit {
            Some(n as int)
        } else {
            None
        },
        _ => None,
    }
}

pub fn as_int(v: &PayloadValue, limit: i64) -> (r: Option<i64>)
    requires
        0 <= limit,
    ensures
        match r {
            Some(n) => spec_as_int(*v, limit as int) == Some(n as int),
            None => spec_as_int(*v, limit as int) is None,
        },
{
    match v {
        PayloadValue::Int(n) => if -limit <= *n && *n <= limit {
            Some(*n)
        } else {
            None
        },
        _ => None,
    }
}

// ---------------------------------------------------------------------------
// Trajectory schema
// ---------------------------------------------------------------------------

pub open spec fn point_decodable(u: PayloadValue) -> bool {
    match u {
        PayloadValue::Object(pf) => {
            &&& match spec_lookup(pf@, "x"@) {
                Some(xv) => spec_as_milli(xv, COORD_LIMIT as int) is Some,
                None => false,
            }
            &&& match spec_lookup(pf@, "y"@) {
                Some(yv) => spec_as_milli(yv, COORD_LIMIT as int) is Some,
                None => false,
            }
            &&& match spec_lookup(pf@, "timestamp"@) {
                Some(tv) => spec_as_int(tv, TIMESTAMP_LIMIT as int) is Some,
                None => false,
            }
        },
        _ => false,
    }
}

pub open spec fn point_of(u: PayloadValue, pt: TrajectoryPoint) -> bool {
    match u {
        PayloadValue::Object(pf) => {
            &&& match spec_lookup(pf@, "x"@) {
                Some(xv) => spec_as_milli(xv, COORD_LIMIT as int) == Some(pt.x as int),
                None => false,
            }
            &&& match spec_lookup(pf@, "y"@) {
                Some(yv) => spec_as_milli(yv, COORD_LIMIT as int) == Some(pt.y as int),
                None => false,
            }
            &&& match spec_lookup(pf@, "timestamp"@) {
                Some(tv) => spec_as_int(tv, TIMESTAMP_LIMIT as int) == Some(pt.timestamp as int),
                None => false,
            }
        },
        _ => false,
    }
}

fn decode_point(u: &PayloadValue) -> (r: Option<TrajectoryPoint>)
    ensures
        match r {
            Some(pt) => point_of(*u, pt) && pt.wf(),
            None => !point_decodable(*u),
        },
        r is Some <==> point_decodable(*u),
{
    let pf = match u {
        PayloadValue::Object(pf) => pf,
        _ => {
            return None;
        },
    };
    let x = match get_field(pf, "x") {
        Some(xv) => match as_milli(xv, COORD_LIMIT) {
            Some(x) => x,
            None => {
                return None;
            },
        },
        None => {
            return None;
        },
    };
    let y = match get_field(pf, "y") {
        Some(yv) => match as_milli(yv, COORD_LIMIT) {
            Some(y) => y,
            None => {
                return None;
            },
        },
        None => {
            return None;
        },
    };
    let timestamp = match get_field(pf, "timestamp") {
        Some(tv) => match as_int(tv, TIMESTAMP_LIMIT) {
            Some(t) => t,
            None => {
                return None;
            },
        },
        None => {
            return None;
        },
    };
    Some(TrajectoryPoint { x, y, timestamp })
}

pub open spec fn trajectory_input_decodable(v: PayloadValue) -> bool {
    match v {
        PayloadValue::Object(fields) => {
            &&& match spec_lookup(fields@, "history"@) {
                Some(PayloadValue::List(items)) => forall|i: int|
                    0 <= i < items@.len() ==> point_decodable(#[trigger] items@[i]),
                _ => false,
            }
            &&& match spec_lookup(fields@, "prediction_horizon"@) {
                Some(h) => match spec_as_int(h, HORIZON_LIMIT as int) {
                    Some(n) => n >= 0,
                    None => false,
                },
                None => false,
            }
        },
        _ => false,
    }
}

pub open spec fn trajectory_input_of(v: PayloadValue, inp: TrajectoryPredictionInput) -> bool {
    match v {
        PayloadValue::Object(fields) => {
            &&& match spec_lookup(fields@, "history"@) {
                Some(PayloadValue::List(items)) => {
                    &&& inp.history@.len() == items@.len()
                    &&& forall|i: int|
                        0 <= i < items@.len() ==> point_of(#[trigger] items@[i], inp.history@[i])
                },
                _ => false,
            }
            &&& match spec_lookup(fields@, "prediction_horizon"@) {
                Some(h) => spec_as_int(h, HORIZON_LIMIT as int) == Some(
                    inp.prediction_horizon as int,
                ),
                None => false,
            }
        },
        _ => false,
    }
}

/// Decodes the trajectory input schema; the error carries the reason the
/// payload does not match it.
#[verifier::loop_isolation(false)]
pub fn decode_trajectory_input(v: &PayloadValue) -> (r: Result<TrajectoryPredictionInput, String>)
    ensures
        r matches Ok(inp) ==> trajectory_input_of(*v, inp) && inp.wf(),
        r is Ok <==> trajectory_input_decodable(*v),
{
    let fields = match v {
        PayloadValue::Object(fields) => fields,
        _ => {
            return Err("trajectory input must be an object".to_owned());
        },
    };
    let items = match get_field(fields, "history") {
        Some(PayloadValue::List(items)) => items,
        _ => {
            return Err("history must be a list of points".to_owned());
        },
    };
    let horizon: usize = match get_field(fields, "prediction_horizon") {
        Some(h) => match as_int(h, HORIZON_LIMIT as i64) {
            Some(n) => if n >= 0 {
                n as usize
            } else {
                return Err("prediction_horizon must not be negative".to_owned());
            },
            None => {
                return Err("prediction_horizon must be a whole number in range".to_owned());
            },
        },
        None => {
            return Err("prediction_horizon is missing".to_owned());
        },
    };
    let mut history: Vec<TrajectoryPoint> = Vec::new();
    let mut i: usize = 0;
    while i < items.len()
        invariant
            i <= items@.len(),
            history@.len() == i,
            forall|j: int|
                0 <= j < i ==> point_decodable(#[trigger] items@[j]) && point_of(
                    items@[j],
                    history@[j],
                ),
            forall|j: int| 0 <= j < i ==> (#[trigger] history@[j]).wf(),
        decreases items@.len() - i,
    {
        match decode_point(&items[i]) {
            Some(pt) => {
                history.push(pt);
            },
            None => {
                return Err("history point is malformed".to_owned());
            },
        }
        i = i + 1;
    }
    Ok(TrajectoryPredictionInput { history, prediction_horizon: horizon })
}

pub open spec fn point_payload_of(q: PayloadValue, pt: TrajectoryPoint) -> bool {
    match q {
        PayloadValue::Object(pf) => {
            &&& pf@.len() == 3
            &&& pf@[0].0@ == "x"@ && pf@[0].1 == PayloadValue::Milli(pt.x)
            &&& pf@[1].0@ == "y"@ && pf@[1].1 == PayloadValue::Milli(pt.y)
            &&& pf@[2].0@ == "timestamp"@ && pf@[2].1 == PayloadValue::Int(pt.timestamp)
        },
        _ => false,
    }
}

/// The exact shape of an encoded trajectory output.
pub open spec fn trajectory_payload_of(p: PayloadValue, out: TrajectoryPredictionOutput) -> bool {
    match p {
        PayloadValue::Object(fields) => {
            &&& fields@.len() == 2
            &&& fields@[0].0@ == "predictions"@
            &&& match fields@[0].1 {
                PayloadValue::List(items) => {
                    &&& items@.len() == out.predictions@.len()
                    &&& forall|i: int|
                        0 <= i < items@.len() ==> point_payload_of(
                            #[trigger] items@[i],
                            out.predictions@[i],
                        )
                },
                _ => false,
            }
            &&& fields@[1].0@ == "confidence"@
            &&& fields@[1].1 == PayloadValue::Milli(out.confidence as i64)
        },
        _ => false,
    }
}

pub fn encode_trajectory_output(out: &TrajectoryPredictionOutput) -> (p: PayloadValue)
    requires
        out.confidence <= 1000,
    ensures
        trajectory_payload_of(p, *out),
{
    let mut items: Vec<PayloadValue> = Vec::new();
    let mut i: usize = 0;
    while i < out.predictions.len()
        invariant
            i <= out.predictions@.len(),
            items@.len() == i,
            forall|j: int|
                0 <= j < i ==> point_payload_of(#[trigger] items@[j], out.predictions@[j]),
        decreases out.predictions@.len() - i,
    {
        let pt = out.predictions[i];
        let mut pf: Vec<(String, PayloadValue)> = Vec::new();
        pf.push(("x".to_owned(), PayloadValue::Milli(pt.x)));
        pf.push(("y".to_owned(), PayloadValue::Milli(pt.y)));
        pf.push(("timestamp".to_owned(), PayloadValue::Int(pt.timestamp)));
        items.push(PayloadValue::Object(pf));
        i = i + 1;
    }
    let mut fields: Vec<(String, PayloadValue)> = Vec::new();
    fields.push(("predictions".to_owned(), PayloadValue::List(items)));
    fields.push(("confidence".to_owned(), PayloadValue::Milli(out.confidence as i64)));
    PayloadValue::Object(fields)
}

// ---------------------------------------------------------------------------
// Anomaly schema
// ---------------------------------------------------------------------------

pub open spec fn sensor_decodable(u: PayloadValue) -> bool {
    match u {
        PayloadValue::Object(sf) => {
            &&& match spec_lookup(sf@, "sensor_type"@) {
                Some(PayloadValue::Text(_)) => true,
                _ => false,
            }
            &&& match spec_lookup(sf@, "values"@) {
                Some(PayloadValue::List(vals)) => {
                    &&& 1 <= vals@.len() <= SERIES_LIMIT
                    &&& forall|j: int|
                        0 <= j < vals@.len() ==> spec_as_milli(
                            #[trigger] vals@[j],
                            VALUE_LIMIT as int,
                        ) is Some
                },
                _ => false,
            }
            &&& match spec_lookup(sf@, "timestamp"@) {
                Some(tv) => spec_as_int(tv, TIMESTAMP_LIMIT as int) is Some,
                None => false,
            }
        },
        _ => false,
    }
}

pub open spec fn sensor_of(u: PayloadValue, s: SensorData) -> bool {
    match u {
        PayloadValue::Object(sf) => {
            &&& match spec_lookup(sf@, "sensor_type"@) {
                Some(PayloadValue::Text(name)) => s.sensor_type@ == name@,
                _ => false,
            }
            &&& match spec_lookup(sf@, "values"@) {
                Some(PayloadValue::List(vals)) => {
                    &&& s.values@.len() == vals@.len()
                    &&& forall|j: int|
                        0 <= j < vals@.len() ==> spec_as_milli(
                            #[trigger] vals@[j],
                            VALUE_LIMIT as int,
                        ) == Some(s.values@[j] as int)
                },
                _ => false,
            }
            &&& match spec_lookup(sf@, "timestamp"@) {
                Some(tv) => spec_as_int(tv, TIMESTAMP_LIMIT as int) == Some(s.timestamp as int),
                None => false,
            }
        },
        _ => false,
    }
}

#[verifier::loop_isolation(false)]
fn decode_sensor(u: &PayloadValue) -> (r: Option<SensorData>)
    ensures
        match r {
            Some(s) => sensor_of(*u, s) && s.wf(),
            None => !sensor_decodable(*u),
        },
        r is Some <==> sensor_decodable(*u),
{
    let sf = match u {
        PayloadValue::Object(sf) => sf,
        _ => {
            return None;
        },
    };
    let sensor_type: String = match get_field(sf, "sensor_type") {
        Some(PayloadValue::Text(name)) => name.clone(),
        _ => {
            return None;
        },
    };
    let vals = match get_field(sf, "values") {
        Some(PayloadValue::List(vals)) => vals,
        _ => {
            return None;
        },
    };
    if vals.len() < 1 || vals.len() > SERIES_LIMIT {
        return None;
    }
    let timestamp: i64 = match get_field(sf, "timestamp") {
        Some(tv) => match as_int(tv, TIMESTAMP_LIMIT) {
            Some(t) => t,
            None => {
                return None;
            },
        },
        None => {
            return None;
        },
    };
    let mut values: Vec<i64> = Vec::new();
    let mut j: usize = 0;
    while j < vals.len()
        invariant
            j <= vals@.len(),
            values@.len() == j,
            forall|k: int|
                0 <= k < j ==> spec_as_milli(#[trigger] vals@[k], VALUE_LIMIT as int) == Some(
                    values@[k] as int,
                ),
            forall|k: int| 0 <= k < j ==> -VALUE_LIMIT <= #[trigger] values@[k] <= VALUE_LIMIT,
        decreases vals@.len() - j,
    {
        match as_milli(&vals[j], VALUE_LIMIT) {
            Some(m) => {
                values.push(m);
            },
            None => {
                return None;
            },
        }
        j = j + 1;
    }
    Some(SensorData { sensor_type, values, timestamp })
}

pub open spec fn anomaly_input_decodable(v: PayloadValue) -> bool {
    match v {
        PayloadValue::Object(fields) => {
            match spec_lookup(fields@, "sensor_readings"@) {
                Some(PayloadValue::List(items)) => {
                    &&& items@.len() <= SENSOR_LIMIT
                    &&& forall|i: int|
                        0 <= i < items@.len() ==> sensor_decodable(#[trigger] items@[i])
                },
                _ => false,
            }
        },
        _ => false,
    }
}

pub open spec fn anomaly_input_of(v: PayloadValue, inp: AnomalyDetectionInput) -> bool {
    match v {
        PayloadValue::Object(fields) => {
            match spec_lookup(fields@, "sensor_readings"@) {
                Some(PayloadValue::List(items)) => {
                    &&& inp.sensor_readings@.len() == items@.len()
                    &&& forall|i: int|
                        0 <= i < items@.len() ==> sensor_of(
                            #[trigger] items@[i],
                            inp.sensor_readings@[i],
                        )
                },
                _ => false,
            }
        },
        _ => false,
    }
}

/// Decodes the anomaly input schema.
#[verifier::loop_isolation(false)]
pub fn decode_anomaly_input(v: &PayloadValue) -> (r: Result<AnomalyDetectionInput, String>)
    ensures
        r matches Ok(inp) ==> anomaly_input_of(*v, inp) && inp.wf(),
        r is Ok <==> anomaly_input_decodable(*v),
{
    let fields = match v {
        PayloadValue::Object(fields) => fields,
        _ => {
            return Err("anomaly input must be an object".to_owned());
        },
    };
    let items = match get_field(fields, "sensor_readings") {
        Some(PayloadValue::List(items)) => items,
        _ => {
            return Err("sensor_readings must be a list".to_owned());
        },
    };
    if items.len() > SENSOR_LIMIT {
        return Err("sensor_readings holds too many series".to_owned());
    }
    let mut sensor_readings: Vec<SensorData> = Vec::new();
    let mut i: usize = 0;
    while i < items.len()
        invariant
            i <= items@.len(),
            sensor_readings@.len() == i,
            forall|j: int|
                0 <= j < i ==> sensor_decodable(#[trigger] items@[j]) && sensor_of(
                    items@[j],
                    sensor_readings@[j],
                ),
            forall|j: int| 0 <= j < i ==> (#[trigger] sensor_readings@[j]).wf(),
        decreases items@.len() - i,
    {
        match decode_sensor(&items[i]) {
            Some(s) => {
                sensor_readings.push(s);
            },
            None => {
                return Err("sensor reading is malformed".to_owned());
            },
        }
        i = i + 1;
    }
    Ok(AnomalyDetectionInput { sensor_readings })
}

pub open spec fn score_row_of(q: PayloadValue, sc: (String, u64)) -> bool {
    match q {
        PayloadValue::List(pair) => {
            &&& pair@.len() == 2
            &&& match pair@[0] {
                PayloadValue::Text(name) => name@ == sc.0@,
                _ => false,
            }
            &&& pair@[1] == PayloadValue::Milli(sc.1 as i64)
        },
        _ => false,
    }
}

/// The exact shape of an encoded anomaly output.
pub open spec fn anomaly_payload_of(p: PayloadValue, out: AnomalyDetectionOutput) -> bool {
    match p {
        PayloadValue::Object(fields) => {
            &&& fields@.len() == 4
            &&& fields@[0].0@ == "anomaly_score"@ && fields@[0].1 == PayloadValue::Milli(
                out.anomaly_score,
            )
            &&& fields@[1].0@ == "is_anomaly"@ && fields@[1].1 == PayloadValue::Bool(out.is_anomaly)
            &&& fields@[2].0@ == "threshold"@ && fields@[2].1 == PayloadValue::Milli(out.threshold)
            &&& fields@[3].0@ == "sensor_scores"@
            &&& match fields@[3].1 {
                PayloadValue::List(rows) => {
                    &&& rows@.len() == out.sensor_scores@.len()
                    &&& forall|i: int|
                        0 <= i < rows@.len() ==> score_row_of(
                            #[trigger] rows@[i],
                            out.sensor_scores@[i],
                        )
                },
                _ => false,
            }
        },
        _ => false,
    }
}

#[verifier::loop_isolation(false)]
pub fn encode_anomaly_output(out: &AnomalyDetectionOutput) -> (p: PayloadValue)
    requires
        forall|i: int|
            0 <= i < out.sensor_scores@.len() ==> (#[trigger] out.sensor_scores@[i]).1
                <= 2_000_000_000_000,
    ensures
        anomaly_payload_of(p, *out),
{
    let mut rows: Vec<PayloadValue> = Vec::new();
    let mut i: usize = 0;
    while i < out.sensor_scores.len()
        invariant
            i <= out.sensor_scores@.len(),
            rows@.len() == i,
            forall|j: int| 0 <= j < i ==> score_row_of(#[trigger] rows@[j], out.sensor_scores@[j]),
        decreases out.sensor_scores@.len() - i,
    {
        let entry = &out.sensor_scores[i];
        let mut pair: Vec<PayloadValue> = Vec::new();
        pair.push(PayloadValue::Text(entry.0.clone()));
        pair.push(PayloadValue::Milli(entry.1 as i64));
        rows.push(PayloadValue::List(pair));
        i = i + 1;
    }
    let mut fields: Vec<(String, PayloadValue)> = Vec::new();
    fields.push(("anomaly_score".to_owned(), PayloadValue::Milli(out.anomaly_score)));
    fields.push(("is_anomaly".to_owned(), PayloadValue::Bool(out.is_anomaly)));
    fields.push(("threshold".to_owned(), PayloadValue::Milli(out.threshold)));
    fields.push(("sensor_scores".to_owned(), PayloadValue::List(rows)));
    PayloadValue::Object(fields)
}

// ---------------------------------------------------------------------------
// Object-detection schema
// ---------------------------------------------------------------------------

pub open spec fn objects_input_decodable(v: PayloadValue) -> bool {
    match v {
        PayloadValue::Object(fields) => {
            &&& match spec_lookup(fields@, "frame_id"@) {
                Some(PayloadValue::Text(_)) => true,
                _ => false,
            }
            &&& match spec_lookup(fields@, "timestamp"@) {
                Some(tv) => spec_as_int(tv, TIMESTAMP_LIMIT as int) is Some,
                None => false,
            }
            &&& match spec_lookup(fields@, "simulate_complex"@) {
                Some(PayloadValue::Bool(_)) => true,
                _ => false,
            }
        },
        _ => false,
    }
}

pub open spec fn objects_input_of(v: PayloadValue, inp: ObjectDetectionInput) -> bool {
    match v {
        PayloadValue::Object(fields) => {
            &&& match spec_lookup(fields@, "frame_id"@) {
                Some(PayloadValue::Text(name)) => inp.frame_id@ == name@,
                _ => false,
            }
            &&& match spec_lookup(fields@, "timestamp"@) {
                Some(tv) => spec_as_int(tv, TIMESTAMP_LIMIT as int) == Some(inp.timestamp as int),
                None => false,
            }
            &&& match spec_lookup(fields@, "simulate_complex"@) {
                Some(PayloadValue::Bool(b)) => inp.simulate_complex == b,
                _ => false,
            }
        },
        _ => false,
    }
}

/// Decodes the object-detection input schema.
pub fn decode_objects_input(v: &PayloadValue) -> (r: Result<ObjectDetectionInput, String>)
    ensures
        r matches Ok(inp) ==> objects_input_of(*v, inp) && inp.wf(),
        r is Ok <==> objects_input_decodable(*v),
{
    let fields = match v {
        PayloadValue::Object(fields) => fields,
        _ => {
            return Err("object detection input must be an object".to_owned());
        },
    };
    let frame_id: String = match get_field(fields, "frame_id") {
        Some(PayloadValue::Text(name)) => name.clone(),
        _ => {
            return Err("frame_id must be a string".to_owned());
        },
    };
    let timestamp: i64 = match get_field(fields, "timestamp") {
        Some(tv) => match as_int(tv, TIMESTAMP_LIMIT) {
            Some(t) => t,
            None => {
                return Err("timestamp must be a whole number in range".to_owned());
            },
        },
        None => {
            return Err("timestamp is missing".to_owned());
        },
    };
    let simulate_complex: bool = match get_field(fields, "simulate_complex") {
        Some(PayloadValue::Bool(b)) => *b,
        _ => {
            return Err("simulate_complex must be a boolean".to_owned());
        },
    };
    Ok(ObjectDetectionInput { frame_id, timestamp, simulate_complex })
}

pub open spec fn object_payload_of(q: PayloadValue, obj: DetectedObject) -> bool {
    match q {
        PayloadValue::Object(of) => {
            &&& of@.len() == 4
            &&& of@[0].0@ == "id"@ && match of@[0].1 {
                PayloadValue::Text(t) => t@ == obj.id@,
                _ => false,
            }
            &&& of@[1].0@ == "class_name"@ && match of@[1].1 {
                PayloadValue::Text(t) => t@ == obj.class_name@,
                _ => false,
            }
            &&& of@[2].0@ == "confidence"@ && of@[2].1 == PayloadValue::Milli(obj.confidence as i64)
            &&& of@[3].0@ == "bounding_box"@
            &&& match of@[3].1 {
                PayloadValue::Object(bf) => {
                    &&& bf@.len() == 4
                    &&& bf@[0].0@ == "x"@ && bf@[0].1 == PayloadValue::Milli(obj.bounding_box.x)
                    &&& bf@[1].0@ == "y"@ && bf@[1].1 == PayloadValue::Milli(obj.bounding_box.y)
                    &&& bf@[2].0@ == "width"@ && bf@[2].1 == PayloadValue::Milli(
                        obj.bounding_box.width,
                    )
                    &&& bf@[3].0@ == "height"@ && bf@[3].1 == PayloadValue::Milli(
                        obj.bounding_box.height,
                    )
                },
                _ => false,
            }
        },
        _ => false,
    }
}

/// The exact shape of an encoded object-detection output.
pub open spec fn objects_payload_of(p: PayloadValue, out: ObjectDetectionOutput) -> bool {
    match p {
        PayloadValue::Object(fields) => {
            &&& fields@.len() == 3
            &&& fields@[0].0@ == "frame_id"@ && match fields@[0].1 {
                PayloadValue::Text(t) => t@ == out.frame_id@,
                _ => false,
            }
            &&& fields@[1].0@ == "objects"@
            &&& match fields@[1].1 {
                PayloadValue::List(items) => {
                    &&& items@.len() == out.objects@.len()
                    &&& forall|i: int|
                        0 <= i < items@.len() ==> object_payload_of(
                            #[trigger] items@[i],
                            out.objects@[i],
                        )
                },
                _ => false,
            }
            &&& fields@[2].0@ == "processing_time_ms"@ && fields@[2].1 == PayloadValue::Int(
                out.processing_time_ms,
            )
        },
        _ => false,
    }
}

#[verifier::loop_isolation(false)]
pub fn encode_objects_output(out: &ObjectDetectionOutput) -> (p: PayloadValue)
    requires
        forall|i: int|
            0 <= i < out.objects@.len() ==> (#[trigger] out.objects@[i]).confidence <= 1000,
    ensures
        objects_payload_of(p, *out),
{
    let mut items: Vec<PayloadValue> = Vec::new();
    let mut i: usize = 0;
    while i < out.objects.len()
        invariant
            i <= out.objects@.len(),
            items@.len() == i,
            forall|j: int| 0 <= j < i ==> object_payload_of(#[trigger] items@[j], out.objects@[j]),
        decreases out.objects@.len() - i,
    {
        let obj = &out.objects[i];
        let mut bf: Vec<(String, PayloadValue)> = Vec::new();
        bf.push(("x".to_owned(), PayloadValue::Milli(obj.bounding_box.x)));
        bf.push(("y".to_owned(), PayloadValue::Milli(obj.bounding_box.y)));
        bf.push(("width".to_owned(), PayloadValue::Milli(obj.bounding_box.width)));
        bf.push(("height".to_owned(), PayloadValue::Milli(obj.bounding_box.height)));
        let mut of: Vec<(String, PayloadValue)> = Vec::new();
        of.push(("id".to_owned(), PayloadValue::Text(obj.id.clone())));
        of.push(("class_name".to_owned(), PayloadValue::Text(obj.class_name.clone())));
        of.push(("confidence".to_owned(), PayloadValue::Milli(obj.confidence as i64)));
        of.push(("bounding_box".to_owned(), PayloadValue::Object(bf)));
        items.push(PayloadValue::Object(of));
        i = i + 1;
    }
    let mut fields: Vec<(String, PayloadValue)> = Vec::new();
    fields.push(("frame_id".to_owned(), PayloadValue::Text(out.frame_id.clone())));
    fields.push(("objects".to_owned(), PayloadValue::List(items)));
    fields.push(("processing_time_ms".to_owned(), PayloadValue::Int(out.processing_time_ms)));
    PayloadValue::Object(fields)
}

// ---------------------------------------------------------------------------
// Fusion schema
// ---------------------------------------------------------------------------

pub open spec fn spec_names_distinct(s: Seq<(String, PayloadValue)>) -> bool {
    forall|i: int, j: int|
        0 <= i < j < s.len() ==> (#[trigger] s[i]).0@ != (#[trigger] s[j]).0@
}

/// Whether all field names of an object are pairwise distinct.
#[verifier::loop_isolation(false)]
fn names_distinct(fields: &Vec<(String, PayloadValue)>) -> (r: bool)
    ensures
        r == spec_names_distinct(fields@),
{
    let mut i: usize = 1;
    while i < fields.len()
        invariant
            1 <= i,
            fields@.len() > 0 ==> i <= fields@.len(),
            forall|a: int, b: int|
                0 <= a < b < i && b < fields@.len() ==> (#[trigger] fields@[a]).0@ != (
                #[trigger] fields@[b]).0@,
        decreases fields@.len() - i,
    {
        let mut j: usize = 0;
        while j < i
            invariant
                j <= i < fields@.len(),
                forall|a: int| 0 <= a < j ==> (#[trigger] fields@[a]).0@ != fields@[i as int].0@,
            decreases i - j,
        {
            if fields[j].0.eq(&fields[i].0) {
                return false;
            }
            j = j + 1;
        }
        i = i + 1;
    }
    true
}

pub open spec fn fusion_input_decodable(v: PayloadValue) -> bool {
    match v {
        PayloadValue::Object(fields) => {
            &&& match spec_lookup(fields@, "sensor_data"@) {
                Some(PayloadValue::Object(sf)) => {
                    &&& sf@.len() <= SENSOR_LIMIT
                    &&& forall|k: int| 0 <= k < sf@.len() ==> (#[trigger] sf@[k]).1 is Bool
                    &&& spec_names_distinct(sf@)
                },
                _ => false,
            }
            &&& match spec_lookup(fields@, "timestamp"@) {
                Some(tv) => spec_as_int(tv, TIMESTAMP_LIMIT as int) is Some,
                None => false,
            }
        },
        _ => false,
    }
}

pub open spec fn fusion_input_of(v: PayloadValue, inp: FusionInput) -> bool {
    match v {
        PayloadValue::Object(fields) => {
            &&& match spec_lookup(fields@, "sensor_data"@) {
                Some(PayloadValue::Object(sf)) => {
                    &&& inp.sensor_data@.len() == sf@.len()
                    &&& forall|k: int|
                        0 <= k < sf@.len() ==> (#[trigger] inp.sensor_data@[k]).0@ == sf@[k].0@
                            && (sf@[k].1 matches PayloadValue::Bool(b)
                            && inp.sensor_data@[k].1 == b)
                },
                _ => false,
            }
            &&& match spec_lookup(fields@, "timestamp"@) {
                Some(tv) => spec_as_int(tv, TIMESTAMP_LIMIT as int) == Some(inp.timestamp as int),
                None => false,
            }
        },
        _ => false,
    }
}

/// Decodes the fusion input schema; sensor names must be unique.
#[verifier::loop_isolation(false)]
pub fn decode_fusion_input(v: &PayloadValue) -> (r: Result<FusionInput, String>)
    ensures
        r matches Ok(inp) ==> fusion_input_of(*v, inp) && inp.wf(),
        r is Ok <==> fusion_input_decodable(*v),
{
    let fields = match v {
        PayloadValue::Object(fields) => fields,
        _ => {
            return Err("fusion input must be an object".to_owned());
        },
    };
    let sf = match get_field(fields, "sensor_data") {
        Some(PayloadValue::Object(sf)) => sf,
        _ => {
            return Err("sensor_data must be an object of booleans".to_owned());
        },
    };
    if sf.len() > SENSOR_LIMIT {
        return Err("sensor_data holds too many sensors".to_owned());
    }
    if !names_distinct(sf) {
        return Err("sensor_data names must be unique".to_owned());
    }
    let timestamp: i64 = match get_field(fields, "timestamp") {
        Some(tv) => match as_int(tv, TIMESTAMP_LIMIT) {
            Some(t) => t,
            None => {
                return Err("timestamp must be a whole number in range".to_owned());
            },
        },
        None => {
            return Err("timestamp is missing".to_owned());
        },
    };
    let mut sensor_data: Vec<(String, bool)> = Vec::new();
    let mut k: usize = 0;
    while k < sf.len()
        invariant
            k <= sf@.len(),
            sensor_data@.len() == k,
            forall|a: int|
                0 <= a < k ==> (#[trigger] sensor_data@[a]).0@ == sf@[a].0@ && (
                sf@[a].1 matches PayloadValue::Bool(b) && sensor_data@[a].1 == b),
        decreases sf@.len() - k,
    {
        let entry = &sf[k];
        let flag: bool = match &entry.1 {
            PayloadValue::Bool(b) => *b,
            _ => {
                return Err("sensor_data values must be booleans".to_owned());
            },
        };
        sensor_data.push((entry.0.clone(), flag));
        k = k + 1;
    }
    let inp = FusionInput { sensor_data, timestamp };
    proof {
        assert forall|k2: int| 0 <= k2 < sf@.len() implies (#[trigger] sf@[k2]).1 is Bool by {
            assert(sensor_data@[k2].0@ == sf@[k2].0@);
        }
        assert forall|a: int, b: int|
            0 <= a < b < inp.sensor_data@.len() implies (#[trigger] inp.sensor_data@[a]).0@ != (
        #[trigger] inp.sensor_data@[b]).0@ by {
            assert(sf@[a].0@ != sf@[b].0@);
        }
    }
    Ok(inp)
}

pub open spec fn status_payload_of(q: PayloadValue, st: crate::fusion::SensorStatus) -> bool {
    match q {
        PayloadValue::Object(of) => {
            &&& of@.len() == 4
            &&& of@[0].0@ == "sensor_type"@ && match of@[0].1 {
                PayloadValue::Text(t) => t@ == st.sensor_type@,
                _ => false,
            }
            &&& of@[1].0@ == "is_active"@ && of@[1].1 == PayloadValue::Bool(st.is_active)
            &&& of@[2].0@ == "confidence"@ && of@[2].1 == PayloadValue::Milli(st.confidence as i64)
            &&& of@[3].0@ == "last_update"@ && of@[3].1 == PayloadValue::Int(st.last_update)
        },
        _ => false,
    }
}

/// The exact shape of an encoded fusion output.
pub open spec fn fusion_payload_of(p: PayloadValue, out: FusionOutput) -> bool {
    match p {
        PayloadValue::Object(fields) => {
            &&& fields@.len() == 3
            &&& fields@[0].0@ == "overall_confidence"@ && fields@[0].1 == PayloadValue::Milli(
                out.overall_confidence as i64,
            )
            &&& fields@[1].0@ == "sensor_statuses"@
            &&& match fields@[1].1 {
                PayloadValue::List(items) => {
                    &&& items@.len() == out.sensor_statuses@.len()
                    &&& forall|i: int|
                        0 <= i < items@.len() ==> status_payload_of(
                            #[trigger] items@[i],
                            out.sensor_statuses@[i],
                        )
                },
                _ => false,
            }
            &&& fields@[2].0@ == "fusion_quality"@ && match fields@[2].1 {
                PayloadValue::Text(t) => t@ == out.fusion_quality.spec_label(),
                _ => false,
            }
        },
        _ => false,
    }
}

#[verifier::loop_isolation(false)]
pub fn encode_fusion_output(out: &FusionOutput) -> (p: PayloadValue)
    requires
        out.overall_confidence <= 1000,
        forall|i: int|
            0 <= i < out.sensor_statuses@.len() ==> (#[trigger] out.sensor_statuses@[i]).confidence
                <= 1000,
    ensures
        fusion_payload_of(p, *out),
{
    let mut items: Vec<PayloadValue> = Vec::new();
    let mut i: usize = 0;
    while i < out.sensor_statuses.len()
        invariant
            i <= out.sensor_statuses@.len(),
            items@.len() == i,
            forall|j: int|
                0 <= j < i ==> status_payload_of(#[trigger] items@[j], out.sensor_statuses@[j]),
        decreases out.sensor_statuses@.len() - i,
    {
        let st = &out.sensor_statuses[i];
        let mut of: Vec<(String, PayloadValue)> = Vec::new();
        of.push(("sensor_type".to_owned(), PayloadValue::Text(st.sensor_type.clone())));
        of.push(("is_active".to_owned(), PayloadValue::Bool(st.is_active)));
        of.push(("confidence".to_owned(), PayloadValue::Milli(st.confidence as i64)));
        of.push(("last_update".to_owned(), PayloadValue::Int(st.last_update)));
        items.push(PayloadValue::Object(of));
        i = i + 1;
    }
    let mut fields: Vec<(String, PayloadValue)> = Vec::new();
    fields.push((
        "overall_confidence".to_owned(),
        PayloadValue::Milli(out.overall_confidence as i64),
    ));
    fields.push(("sensor_statuses".to_owned(), PayloadValue::List(items)));
    fields.push(("fusion_quality".to_owned(), PayloadValue::Text(out.fusion_quality.label().to_owned())));
    PayloadValue::Object(fields)
}

} // verus!
