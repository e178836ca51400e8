//! Clock readings from the standard library. Their values depend on the
//! machine's clock, so nothing is promised about them.

use vstd::prelude::*;
use std::time::{Instant, SystemTime};

verus! {

/// `std::time::SystemTime`, a wall-clock reading.
#[verifier::external_type_specification]
#[verifier::external_body]
pub struct ExSystemTime(SystemTime);

/// `std::time::Instant`, a monotonic clock reading.
#[verifier::external_type_specification]
#[verifier::external_body]
pub struct ExInstant(Instant);

/// `SystemTime::now`: the current wall-clock time. Nothing is stated of it.
#[verifier::external_body]
pub(crate) fn system_time_now() -> (t: SystemTime) {
    SystemTime::now()
}

/// `SystemTime::elapsed`, in whole seconds: `None` when the clock now reads
/// earlier than `t`. Nothing is stated of the value, which depends on the clock.
#[verifier::external_body]
pub(crate) fn system_time_elapsed_secs(t: &SystemTime) -> (secs: Option<u64>) {
    match t.elapsed() {
        Ok(d) => Some(d.as_secs()),
        Err(_) => None,
    }
}

/// `Instant::now`: the current monotonic time. Nothing is stated of it.
#[verifier::external_body]
pub(crate) fn instant_now() -> (t: Instant) {
    Instant::now()
}

} // verus!
