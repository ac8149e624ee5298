//! Fixed-point conventions and small numeric helpers shared by the executors.
//!
//! Fractional wire quantities are carried as integers scaled by `SCALE`
//! ("milli units"): `1000` stands for `1.0`.  The limits below bound every
//! number a decoded input may hold, so that the executors' arithmetic stays
//! inside `i64`/`u64`.

use vstd::prelude::*;

verus! {

/// One whole unit in fixed-point representation.
pub const SCALE: i64 = 1000;

/// Largest magnitude, in milli units, of a trajectory coordinate.
pub const COORD_LIMIT: i64 = 1_000_000_000_000;

/// Largest magnitude of a timestamp (milliseconds since the Unix epoch).
pub const TIMESTAMP_LIMIT: i64 = 4_000_000_000_000;

/// Largest accepted trajectory prediction horizon.
pub const HORIZON_LIMIT: usize = 100_000;

/// Largest magnitude, in milli units, of a single sensor reading.
pub const VALUE_LIMIT: i64 = 1_000_000;

/// Largest accepted length of one sensor reading series.
pub const SERIES_LIMIT: usize = 10_000;

/// Largest accepted number of sensors in one request.
pub const SENSOR_LIMIT: usize = 10_000;

/// Integer square root: the largest `r` with `r * r <= v`.
pub fn isqrt64(v: u64) -> (r: u64)
    ensures
        r * r <= v,
        v < (r + 1) * (r + 1),
{
    let mut lo: u64 = 0;
    let mut hi: u64 = 4_294_967_296;
    proof {
        assert((4_294_967_296 as int) * (4_294_967_296 as int) == 18_446_744_073_709_551_616)
            by (nonlinear_arith);
    }
    while hi - lo > 1
        invariant
            lo < hi,
            hi <= 4_294_967_296,
            lo * lo <= v,
            v < hi * hi,
        decreases hi - lo,
    {
        let mid: u64 = lo + (hi - lo) / 2;
        proof {
            assert((mid as int) * (mid as int) <= (4_294_967_296 as int) * (4_294_967_296 as int))
                by (nonlinear_arith)
                requires 0 <= mid <= 4_294_967_296;
        }
        let sq: u128 = (mid as u128) * (mid as u128);
        if sq <= v as u128 {
            lo = mid;
        } else {
            hi = mid;
        }
    }
    lo
}

} // verus!
