//! The streaming transport's core: one message in, at most one reply out.
//! The surrounding connection loop reads messages in order and calls
//! [`handle_stream_message`] for each, so replies leave in the order the
//! requests were read; everything kind-specific goes through the same
//! `dispatch` path the request/response transport uses.

use vstd::prelude::*;
use crate::codec::{spec_lookup, get_field, str_eq, PayloadValue};
use crate::dispatch::{dispatch, dispatch_ok, input_decodable_for, parse_model_tag,
    spec_parse_model_tag, ModelType};
use crate::engine::MLEngine;
use crate::runtime::now_unix_millis;

verus! {

/// The kinds of message multiplexed over one streaming connection.
#[derive(Clone, Copy, PartialEq, Eq, Structural, Debug)]
pub enum MessageType {
    InferenceRequest,
    InferenceResponse,
    ModelUpdate,
    Error,
    Heartbeat,
}

impl MessageType {
    /// The stable wire tag of the message kind.
    pub open spec fn spec_tag(self) -> Seq<char> {
        match self {
            MessageType::InferenceRequest => "inference_request"@,
            MessageType::InferenceResponse => "inference_response"@,
            MessageType::ModelUpdate => "model_update"@,
            MessageType::Error => "error"@,
            MessageType::Heartbeat => "heartbeat"@,
        }
    }

    pub fn tag(&self) -> (r: &'static str)
        ensures
            r@ == self.spec_tag(),
    {
        match self {
            MessageType::InferenceRequest => "inference_request",
            MessageType::InferenceResponse => "inference_response",
            MessageType::ModelUpdate => "model_update",
            MessageType::Error => "error",
            MessageType::Heartbeat => "heartbeat",
        }
    }
}

/// The message kind named by a wire tag, if any (case-sensitive).
pub open spec fn spec_parse_message_tag(s: Seq<char>) -> Option<MessageType> {
    if s == "inference_request"@ {
        Some(MessageType::InferenceRequest)
    } else if s == "inference_response"@ {
        Some(MessageType::InferenceResponse)
    } else if s == "model_update"@ {
        Some(MessageType::ModelUpdate)
    } else if s == "error"@ {
        Some(MessageType::Error)
    } else if s == "heartbeat"@ {
        Some(MessageType::Heartbeat)
    } else {
        None
    }
}

pub fn parse_message_tag(s: &String) -> (r: Option<MessageType>)
    ensures
        r == spec_parse_message_tag(s@),
{
    if str_eq(s, "inference_request") {
        Some(MessageType::InferenceRequest)
    } else if str_eq(s, "inference_response") {
        Some(MessageType::InferenceResponse)
    } else if str_eq(s, "model_update") {
        Some(MessageType::ModelUpdate)
    } else if str_eq(s, "error") {
        Some(MessageType::Error)
    } else if str_eq(s, "heartbeat") {
        Some(MessageType::Heartbeat)
    } else {
        None
    }
}

/// One frame of the streaming transport.
pub struct WebSocketMessage {
    pub message_type: MessageType,
    pub payload: PayloadValue,
}

/// Whether an inference-request payload carries a recognized kind tag and a
/// data field.
pub open spec fn request_envelope_decodable(p: PayloadValue) -> bool {
    match p {
        PayloadValue::Object(fields) => {
            &&& match spec_lookup(fields@, "model_type"@) {
                Some(PayloadValue::Text(t)) => spec_parse_model_tag(t@) is Some,
                _ => false,
            }
            &&& spec_lookup(fields@, "data"@) is Some
        },
        _ => false,
    }
}

pub open spec fn request_envelope_of(p: PayloadValue, kind: ModelType, data: PayloadValue) -> bool {
    match p {
        PayloadValue::Object(fields) => {
            &&& match spec_lookup(fields@, "model_type"@) {
                Some(PayloadValue::Text(t)) => spec_parse_model_tag(t@) == Some(kind),
                _ => false,
            }
            &&& spec_lookup(fields@, "data"@) == Some(data)
        },
        _ => false,
    }
}

fn decode_request_envelope<'a>(p: &'a PayloadValue) -> (r: Option<(ModelType, &'a PayloadValue)>)
    ensures
        match r {
            Some((kind, data)) => request_envelope_of(*p, kind, *data),
            None => !request_envelope_decodable(*p),
        },
        r is Some <==> request_envelope_decodable(*p),
{
    let fields = match p {
        PayloadValue::Object(fields) => fields,
        _ => {
            return None;
        },
    };
    let kind = match get_field(fields, "model_type") {
        Some(PayloadValue::Text(t)) => match parse_model_tag(t) {
            Some(kind) => kind,
            None => {
                return None;
            },
        },
        _ => {
            return None;
        },
    };
    match get_field(fields, "data") {
        Some(data) => Some((kind, data)),
        None => None,
    }
}

/// The exact shape of a streamed inference response payload: the kind tag
/// echoed, a prediction in that kind's output schema, and the timing fields.
pub open spec fn response_payload_ok(q: PayloadValue, kind: ModelType, data: PayloadValue) -> bool {
    match q {
        PayloadValue::Object(fields) => {
            &&& fields@.len() == 4
            &&& fields@[0].0@ == "model_type"@ && match fields@[0].1 {
                PayloadValue::Text(t) => t@ == kind.spec_tag(),
                _ => false,
            }
            &&& fields@[1].0@ == "prediction"@ && dispatch_ok(kind, data, Ok(fields@[1].1))
            &&& fields@[2].0@ == "latency_ms"@ && match fields@[2].1 {
                PayloadValue::Int(l) => l >= 0,
                _ => false,
            }
            &&& fields@[3].0@ == "timestamp"@ && fields@[3].1 is Int
        },
        _ => false,
    }
}

/// An error report frame: one field holding the reason.
pub open spec fn error_payload_shape(q: PayloadValue) -> bool {
    match q {
        PayloadValue::Object(fields) => {
            &&& fields@.len() == 1
            &&& fields@[0].0@ == "error"@
            &&& fields@[0].1 is Text
        },
        _ => false,
    }
}

/// A heartbeat echo frame: one field holding a fresh clock reading.
pub open spec fn heartbeat_payload_shape(q: PayloadValue) -> bool {
    match q {
        PayloadValue::Object(fields) => {
            &&& fields@.len() == 1
            &&& fields@[0].0@ == "timestamp"@
            &&& fields@[0].1 is Int
        },
        _ => false,
    }
}

/// What one processed frame owes: an inference request always gets exactly
/// one reply — a well-shaped response when the envelope and payload decode, an
/// error frame otherwise; a heartbeat gets a heartbeat echo; every other kind
/// is accepted without a reply.
pub open spec fn stream_reply_ok(msg: WebSocketMessage, reply: Option<WebSocketMessage>) -> bool {
    match msg.message_type {
        MessageType::InferenceRequest => match reply {
            Some(resp) => if request_envelope_decodable(msg.payload) {
                exists|kind: ModelType, data: PayloadValue|
                    #[trigger] request_envelope_of(msg.payload, kind, data) && if
                        input_decodable_for(kind, data) {
                        resp.message_type == MessageType::InferenceResponse && response_payload_ok(
                            resp.payload,
                            kind,
                            data,
                        )
                    } else {
                        resp.message_type == MessageType::Error && error_payload_shape(resp.payload)
                    }
            } else {
                resp.message_type == MessageType::Error && error_payload_shape(resp.payload)
            },
            None => false,
        },
        MessageType::Heartbeat => match reply {
            Some(h) => h.message_type == MessageType::Heartbeat && heartbeat_payload_shape(
                h.payload,
            ),
            None => false,
        },
        _ => reply is None,
    }
}

fn error_reply(detail: String) -> (m: WebSocketMessage)
    ensures
        m.message_type == MessageType::Error,
        error_payload_shape(m.payload),
{
    let mut fields: Vec<(String, PayloadValue)> = Vec::new();
    fields.push(("error".to_owned(), PayloadValue::Text(detail)));
    WebSocketMessage { message_type: MessageType::Error, payload: PayloadValue::Object(fields) }
}

/// Processes one frame read from a streaming connection.
pub fn handle_stream_message(engine: &MLEngine, msg: &WebSocketMessage) -> (reply: Option<
    WebSocketMessage,
>)
    requires
        engine.wf(),
    ensures
        stream_reply_ok(*msg, reply),
{
    match msg.message_type {
        MessageType::InferenceRequest => {
            match decode_request_envelope(&msg.payload) {
                Some((kind, data)) => {
                    let ghost data_v = *data;
                    match dispatch(engine, kind, data) {
                        Ok((prediction, latency)) => {
                            let ghost prediction_v = prediction;
                            let timestamp = now_unix_millis();
                            let mut fields: Vec<(String, PayloadValue)> = Vec::new();
                            fields.push((
                                "model_type".to_owned(),
                                PayloadValue::Text(kind.tag().to_owned()),
                            ));
                            fields.push(("prediction".to_owned(), prediction));
                            fields.push(("latency_ms".to_owned(), PayloadValue::Int(latency)));
                            fields.push(("timestamp".to_owned(), PayloadValue::Int(timestamp)));
                            let payload = PayloadValue::Object(fields);
                            proof {
                                assert(response_payload_ok(payload, kind, data_v));
                                assert(request_envelope_of(msg.payload, kind, data_v));
                            }
                            Some(
                                WebSocketMessage {
                                    message_type: MessageType::InferenceResponse,
                                    payload,
                                },
                            )
                        },
                        Err(e) => {
                            proof {
                                assert(request_envelope_of(msg.payload, kind, data_v));
                            }
                            Some(error_reply(e.message()))
                        },
                    }
                },
                None => Some(error_reply("malformed inference request".to_owned())),
            }
        },
        MessageType::Heartbeat => {
            let timestamp = now_unix_millis();
            let mut fields: Vec<(String, PayloadValue)> = Vec::new();
            fields.push(("timestamp".to_owned(), PayloadValue::Int(timestamp)));
            Some(
                WebSocketMessage {
                    message_type: MessageType::Heartbeat,
                    payload: PayloadValue::Object(fields),
                },
            )
        },
        _ => None,
    }
}

} // verus!
