//! The wall-clock reading that stamps an emitted burn event.

use vstd::prelude::*;

verus! {

/// Relies on std::time::SystemTime::now read against std::time::UNIX_EPOCH:
/// the current wall-clock time in whole seconds since the Unix epoch, or
/// `None` when the clock reads before the epoch. Nothing can be promised of
/// a clock reading.
#[verifier::external_body]
fn read_clock() -> Option<u64> {
    match std::time::SystemTime::now().duration_since(std::time::UNIX_EPOCH) {
        Ok(d) => Some(d.as_secs()),
        Err(_) => None,
    }
}

/// The current wall-clock time in whole seconds since the Unix epoch, or
/// `None` when the clock reads before the epoch. The reading is opaque: no
/// two calls are related, and no caller may rely on what it returns.
pub fn now_ts() -> Option<u64> {
    read_clock()
}

} // verus!
