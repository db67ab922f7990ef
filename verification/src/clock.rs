//! Reading the wall clock and converting it to the 60-bit timestamp of a
//! version-1 UUID: 100-nanosecond ticks since 1582-10-15.

use vstd::prelude::*;

verus! {

/// 100-nanosecond ticks from 1582-10-15 (the start of the Gregorian
/// calendar) to 1970-01-01 (the Unix epoch).
pub const EPOCH_START: u64 = 122192928000000000;

/// The largest seconds value whose tick count is computed exactly: above
/// it the nanosecond total would no longer fit in 64 bits.
pub const MAX_UNIX_SECS: u64 = 18446744069;

/// The Gregorian-epoch tick count of the instant `secs` seconds and
/// `nanos` nanoseconds after the Unix epoch.
pub open spec fn gregorian_ticks(secs: int, nanos: int) -> int {
    EPOCH_START + (secs * 1000000000 + nanos) / 100
}

/// Converts a Unix-epoch instant to Gregorian-epoch 100-nanosecond ticks;
/// saturates on a seconds value too large for the computation.
pub fn ticks_since_gregorian(secs: u64, nanos: u32) -> (r: u64)
    ensures
        secs <= MAX_UNIX_SECS ==> r == gregorian_ticks(secs as int, nanos as int),
        secs > MAX_UNIX_SECS ==> r == u64::MAX,
{
    if secs > MAX_UNIX_SECS {
        return u64::MAX;
    }
    proof {
        assert(secs * 1000000000 <= MAX_UNIX_SECS * 1000000000) by (nonlinear_arith)
            requires
                secs <= MAX_UNIX_SECS,
        ;
    }
    let total: u64 = secs * 1000000000 + (nanos as u64);
    EPOCH_START + total / 100
}

/// Relies on chrono's `Utc::now`, `DateTime::timestamp` and
/// `DateTime::timestamp_subsec_nanos`: the current wall-clock time as whole
/// seconds since the Unix epoch and nanoseconds within that second. chrono
/// documents the nanosecond part as at most 1999999999 (values above
/// 999999999 stand for a leap second); nothing else can be promised of a
/// clock reading.
#[verifier::external_body]
pub(crate) fn now_unix() -> (r: (u64, u32))
    ensures
        r.1 < 2000000000,
{
    let now = chrono::Utc::now();
    (now.timestamp() as u64, now.timestamp_subsec_nanos())
}

} // verus!
