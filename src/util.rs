use vstd::prelude::*;

verus! {

/// The current Unix time in whole seconds.
///
/// Relies on `std::time::SystemTime::now`: the clock can read anything, so
/// all that is promised is a count of seconds from 1970 on, and zero for a
/// clock set before then.
#[verifier::external_body]
pub fn current_unix_time() -> (r: i64)
    ensures
        r >= 0,
{
    match std::time::SystemTime::now().duration_since(std::time::UNIX_EPOCH) {
        Ok(d) => i64::try_from(d.as_secs()).unwrap_or(i64::MAX),
        Err(_) => 0,
    }
}

} // verus!
