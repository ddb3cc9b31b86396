use vstd::prelude::*;
use crate::duration::spec_duration_ticks;
use crate::mode::Mode;

verus! {

/// The unit of record: one focus or rest interval.  `start_iso` is the
/// RFC 3339 UTC timestamp taken when the countdown began; `minutes_text` is
/// the requested duration in minutes, as decimal text; both are immutable
/// once the session exists.  `mode` only influences display and notification
/// text, never what is persisted.
pub struct Session {
    pub start_iso: String,
    pub minutes_text: String,
    pub mode: Mode,
}

impl Session {
    /// A session is well formed when its duration text is one the timer
    /// accepts, so the persisted row always carries a numeric minutes value.
    pub open spec fn wf(self) -> bool {
        spec_duration_ticks(self.minutes_text@) is Some
    }
}

/// Relies on chrono's `Utc::now` for the current instant and on
/// `DateTime::to_rfc3339` to render it.  The result depends on the clock,
/// so nothing is promised of it.
#[verifier::external_body]
pub(crate) fn now_rfc3339() -> (r: String) {
    chrono::Utc::now().to_rfc3339()
}

} // verus!
