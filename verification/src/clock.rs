use vstd::prelude::*;

verus! {

/// Relies on std::time::SystemTime::now and its duration_since: the wall
/// clock read as milliseconds since the Unix epoch. A clock reading before
/// the epoch yields zero. The value depends on the machine's clock and is
/// not promised to be monotonic, so nothing is stated beyond its sign.
#[verifier::external_body]
pub(crate) fn now_millis() -> (r: i64)
    ensures
        0 <= r,
{
    let elapsed = std::time::SystemTime::now()
        .duration_since(std::time::UNIX_EPOCH)
        .unwrap_or_default();
    i64::try_from(elapsed.as_millis()).unwrap_or(i64::MAX)
}

} // verus!
