//! Ground types shared by every instance: identities, token amounts,
//! and timestamps, together with the saturating arithmetic the ledgers
//! use.

use vstd::prelude::*;

verus! {

/// Identity of an executing instance, used for authorization checks
/// (who created a market, who may flip a rule).  Instances address one
/// another only through such identities, never through shared state.
#[derive(Clone, Copy, PartialEq, Eq, Structural, Debug, Hash)]
pub struct InstanceId(pub u64);

/// A non-negative token quantity, in indivisible units.
pub type Amount = u64;

/// A point in time, in microseconds.
pub type Timestamp = u64;

/// Microseconds in one second, for converting expiry offsets.
pub const MICROS_PER_SECOND: u64 = 1_000_000;

/// `x` clamped from above to `u64::MAX`: the value a saturating
/// accumulation of `x` actually stores.
pub open spec fn cap_u64(x: int) -> int {
    if x > u64::MAX as int {
        u64::MAX as int
    } else {
        x
    }
}

/// The expiry of a market spawned at `now` with a template offset of
/// `offset_seconds`: `now + offset_seconds` seconds, saturating at the
/// largest representable timestamp.
pub open spec fn spec_expiry_at(now: Timestamp, offset_seconds: u64) -> Timestamp {
    cap_u64(now + offset_seconds * MICROS_PER_SECOND) as Timestamp
}

/// Computes `now + offset_seconds` seconds as a timestamp, saturating
/// at the largest representable timestamp.
pub fn expiry_at(now: Timestamp, offset_seconds: u64) -> (t: Timestamp)
    ensures
        t == spec_expiry_at(now, offset_seconds),
{
    if offset_seconds <= u64::MAX / MICROS_PER_SECOND {
        let micros: u64 = offset_seconds * MICROS_PER_SECOND;
        now.saturating_add(micros)
    } else {
        proof {
            assert(offset_seconds * MICROS_PER_SECOND > u64::MAX) by (nonlinear_arith)
                requires
                    offset_seconds > u64::MAX / MICROS_PER_SECOND,
                    MICROS_PER_SECOND == 1_000_000u64,
            ;
        }
        u64::MAX
    }
}

} // verus!
