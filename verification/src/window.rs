//! The short window after the arm key during which Escape is held back.

use vstd::prelude::*;

verus! {

/// How long, in milliseconds, Escape stays suppressed after the arm key goes
/// down.
pub const SUPPRESSION_MILLIS: u64 = 300;

/// Whether a window that lasts until `deadline` is still open at `now`.
/// A window is open strictly before its deadline; with no deadline there is
/// no window.
pub open spec fn window_open(deadline: Option<int>, now: int) -> bool {
    deadline matches Some(until) && now < until
}

/// The instant until which Escape is suppressed, if the window is armed.
///
/// Seen from outside this is the deadline in milliseconds, or nothing. The
/// deadline is a mathematical integer: arming never overflows, however late
/// the clock reads.
pub struct SuppressionWindow {
    armed_at: Option<u64>,
}

impl View for SuppressionWindow {
    type V = Option<int>;

    closed spec fn view(&self) -> Option<int> {
        match self.armed_at {
            Some(start) => Some(start + SUPPRESSION_MILLIS),
            None => None,
        }
    }
}

impl SuppressionWindow {
    /// A window that is not armed.
    pub fn idle() -> (window: Self)
        ensures
            window@ is None,
    {
        SuppressionWindow { armed_at: None }
    }

    /// Arms the window at `now`, or re-arms it: it then lasts
    /// `SUPPRESSION_MILLIS` from `now`, whatever it was before.
    pub fn arm(&mut self, now: u64)
        ensures
            final(self)@ == Some(now + SUPPRESSION_MILLIS),
    {
        self.armed_at = Some(now);
    }

    /// Disarms the window.
    pub fn clear(&mut self)
        ensures
            final(self)@ is None,
    {
        self.armed_at = None;
    }

    /// Whether the window is armed and not yet over at `now`.
    pub fn is_open(&self, now: u64) -> (open: bool)
        ensures
            open == window_open(self@, now as int),
    {
        match self.armed_at {
            Some(start) => now < start || now - start < SUPPRESSION_MILLIS,
            None => false,
        }
    }
}

} // verus!
