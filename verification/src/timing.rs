use vstd::prelude::*;

verus! {

/// The lease length in seconds, as the generated worker stores it, and its
/// idle back-off in milliseconds: 32 polls, at most five seconds.
pub open spec fn worker_values_spec(poll_interval_ms: u64, lease_seconds: u64) -> (i64, u64) {
    let lease = if lease_seconds <= i64::MAX {
        lease_seconds as i64
    } else {
        30i64
    };
    let scaled = if poll_interval_ms * 32 <= u64::MAX {
        (poll_interval_ms * 32) as u64
    } else {
        u64::MAX
    };
    (lease, if scaled < 5000 {
        scaled
    } else {
        5000u64
    })
}

pub fn worker_values(poll_interval_ms: u64, lease_seconds: u64) -> (values: (i64, u64))
    ensures
        values == worker_values_spec(poll_interval_ms, lease_seconds),
{
    let lease: i64 = if lease_seconds <= 9_223_372_036_854_775_807u64 {
        lease_seconds as i64
    } else {
        30
    };
    let scaled: u64 = if poll_interval_ms <= u64::MAX / 32 {
        poll_interval_ms * 32
    } else {
        u64::MAX
    };
    let backoff: u64 = if scaled < 5000 {
        scaled
    } else {
        5000
    };
    (lease, backoff)
}

} // verus!
