//! Time limits.

use vstd::prelude::*;

verus! {

/// How long a pane has to become ready (seconds).
pub const HANDSHAKE_TIMEOUT_SECS: u64 = 5;

/// Nanoseconds in a second.
pub const NANOS_PER_SEC: u128 = 1_000_000_000;

/// Nanoseconds in a millisecond.
pub const NANOS_PER_MILLI: u128 = 1_000_000;

/// Has a waiting time that is given in seconds gone by?
pub open spec fn expired(elapsed_nanos: u128, limit_secs: u64) -> bool {
    elapsed_nanos >= limit_secs * NANOS_PER_SEC
}

/// Tells whether so many seconds have gone by.
pub fn has_expired(elapsed_nanos: u128, limit_secs: u64) -> (r: bool)
    ensures
        r == expired(elapsed_nanos, limit_secs),
        r <==> limit_secs * 1_000_000_000 <= elapsed_nanos,
{
    elapsed_nanos >= limit_secs as u128 * NANOS_PER_SEC
}

/// Time that has gone by has gone by at every later reading too.
pub proof fn expiry_is_monotone(earlier: u128, later: u128, limit_secs: u64)
    requires
        earlier <= later,
        expired(earlier, limit_secs),
    ensures
        expired(later, limit_secs),
{
}

/// A longer limit does not run out before a shorter one.
pub proof fn a_longer_limit_expires_later(elapsed_nanos: u128, shorter: u64, longer: u64)
    requires
        shorter <= longer,
        expired(elapsed_nanos, longer),
    ensures
        expired(elapsed_nanos, shorter),
{
    assert(shorter * NANOS_PER_SEC <= longer * NANOS_PER_SEC) by (nonlinear_arith)
        requires
            shorter <= longer,
            NANOS_PER_SEC == 1_000_000_000,
    ;
}

/// A limit in seconds runs out at its last nanosecond, and not one nanosecond
/// sooner.
pub proof fn a_limit_expires_at_its_last_nanosecond(limit_secs: u64)
    ensures
        expired((limit_secs * 1_000_000_000) as u128, limit_secs),
        limit_secs > 0 ==> !expired((limit_secs * 1_000_000_000 - 1) as u128, limit_secs),
{
}

} // verus!
