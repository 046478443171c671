//! The one place the core asks for the time: commit messages carry a
//! timestamp captured at translation time, purely informational.

use vstd::prelude::*;

verus! {

/// Relies on `chrono::Utc::now` and the display form of a UTC datetime: the
/// current instant rendered as date, time and offset, never empty. The
/// instant itself depends on the system clock, so nothing more is promised
/// of the content, and callers state what holds whatever string comes back.
/// `chrono::Utc::now` aborts when the system clock reads before the Unix
/// epoch; that is the clock's fault, not an input that could be excluded.
#[verifier::external_body]
pub(crate) fn now_utc_string() -> (ts: String)
    ensures
        ts@.len() > 0,
{
    chrono::Utc::now().to_string()
}

} // verus!
