//! The wall clock, read in whole milliseconds.
use vstd::prelude::*;

verus! {

/// Relies on `SystemTime::elapsed` of `UNIX_EPOCH`: the milliseconds since
/// the Unix epoch, or 0 for a clock set before it. Nothing is promised of the
/// value: two reads may differ in any way.
#[verifier::external_body]
pub(crate) fn now_millis() -> (r: u64) {
    match std::time::UNIX_EPOCH.elapsed() {
        Ok(d) => d.as_millis() as u64,
        Err(_) => 0,
    }
}

} // verus!
