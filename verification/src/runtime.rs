//! The two places the library touches the outside world: randomness and the
//! wall clock.  Everything downstream of these calls is verified for every
//! value they may return.

use vstd::prelude::*;

verus! {

/// Relies on `rand::Rng::gen_range` on the thread-local generator: it returns
/// a value uniformly drawn from `0..n`, and panics only on an empty range,
/// which `n >= 1` rules out.  Nothing more is assumed of the draw.
#[verifier::external_body]
pub(crate) fn random_below(n: u64) -> (r: u64)
    requires
        n >= 1,
    ensures
        r < n,
{
    rand::Rng::gen_range(&mut rand::thread_rng(), 0..n)
}

/// Relies on `chrono::Utc::now().timestamp_millis()`: the wall clock as
/// milliseconds since the Unix epoch.  The reading depends on the machine's
/// clock, so nothing is promised of the value.
#[verifier::external_body]
pub(crate) fn now_unix_millis() -> (r: i64) {
    chrono::Utc::now().timestamp_millis()
}

} // verus!
