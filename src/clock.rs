use vstd::prelude::*;

verus! {

/// An expiry `ttl` seconds after `now`, held at the largest representable
/// time where the sum would not fit.
pub open spec fn expiry(now: int, ttl: int) -> int {
    if now + ttl <= u64::MAX {
        now + ttl
    } else {
        u64::MAX as int
    }
}

/// Relies on `chrono::Utc::now` and `DateTime::timestamp`: the current UTC time
/// in whole seconds since the Unix epoch. `Utc::now` panics on a system clock
/// set before the epoch instead of returning such a time, so the value is never
/// negative.
#[verifier::external_body]
fn utc_now_seconds() -> (r: i64)
    ensures
        r >= 0,
{
    chrono::Utc::now().timestamp()
}

/// The current time in Unix seconds.
pub fn now_seconds() -> (r: u64)
    ensures
        r <= i64::MAX,
{
    let t = utc_now_seconds();
    t as u64
}

/// `ttl` seconds after `now`, saturating at the largest representable time.
pub fn expiry_after(now: u64, ttl: u64) -> (r: u64)
    ensures
        r == expiry(now as int, ttl as int),
{
    now.saturating_add(ttl)
}

} // verus!
