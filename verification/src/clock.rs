//! The server's one wall-clock read.

use std::time::SystemTime;
use vstd::prelude::*;

verus! {

/// Relies on `std::time::SystemTime::now` and `duration_since`: the machine
/// clock's milliseconds since the Unix epoch, or `None` for a clock reading
/// before the epoch.  Nothing can be promised of a clock reading; callers
/// state what holds for every value.
#[verifier::external_body]
fn read_clock_ms() -> Option<i64> {
    match SystemTime::now().duration_since(SystemTime::UNIX_EPOCH) {
        Ok(d) => Some(d.as_millis() as i64),
        Err(_) => None,
    }
}

/// The wall clock's current instant in milliseconds; a clock that reads
/// before the Unix epoch counts as the epoch itself.
pub(crate) fn current_time_ms() -> i64 {
    match read_clock_ms() {
        Option::Some(t) => t,
        Option::None => 0,
    }
}

} // verus!
