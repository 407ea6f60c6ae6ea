//! The clock source: a single injected read of whole seconds since the
//! Unix epoch, used only for cooldown and attack-rate bookkeeping.

use vstd::prelude::*;

verus! {

/// Relies on std::time::SystemTime::now and SystemTime::duration_since:
/// the number of whole seconds the system clock reads past the Unix epoch,
/// or 0 if it reads earlier than the epoch. Nothing is promised of the
/// value: it depends on the machine's clock.
#[verifier::external_body]
pub fn time_now() -> u64 {
    match std::time::SystemTime::now().duration_since(std::time::UNIX_EPOCH) {
        Ok(elapsed) => elapsed.as_secs(),
        Err(_) => 0,
    }
}

} // verus!
