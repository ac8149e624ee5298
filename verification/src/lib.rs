//! Dispatch layer for a set of swappable compute backends ("model executors").
//!
//! Four executors (trajectory extrapolation, anomaly scoring, object
//! detection, sensor fusion) sit behind a single typed-request router.  A
//! registry guards each executor with its own reader/writer lock, so that
//! readers of one model kind never contend with writers of another.  Both
//! transports (request/response and streaming) funnel through the one
//! `dispatch` path: resolve the model kind first, decode the payload second,
//! compute, and encode the result into a uniform envelope.
//!
//! Fractional quantities travel as fixed-point integers: a value of one is
//! stored as `1000` ("milli units"), so confidences, scores and thresholds
//! are per-mille values.

pub mod anomaly;
pub mod codec;
pub mod dispatch;
pub mod engine;
pub mod fusion;
pub mod numeric;
pub mod objects;
pub mod runtime;
pub mod stream;
pub mod trajectory;
