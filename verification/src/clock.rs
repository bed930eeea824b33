//! The wall clock.

use vstd::prelude::*;

verus! {

/// An instant of UTC time, counted from the Unix epoch in two units.
#[derive(Clone, Copy, Debug, PartialEq, Eq, Structural)]
pub struct Moment {
    /// Whole seconds since the epoch.
    pub seconds: i64,
    /// Microseconds since the epoch.
    pub micros: i64,
}

/// Reads the system clock with `chrono::Utc::now`.
///
/// Trusted, and nothing is claimed: two readings may differ in any way.
#[verifier::external_body]
pub(crate) fn now() -> Moment {
    let instant = chrono::Utc::now();
    Moment { seconds: instant.timestamp(), micros: instant.timestamp_micros() }
}

} // verus!
