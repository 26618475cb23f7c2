//! The render dispatcher for the terminal: caches the latest rows and
//! pushes them to the terminal region on a fast cadence, tolerating write
//! failures by simply waiting for the next tick.
//!
//! The terminal session itself (alternate screen, raw mode, the actual
//! draw) lives with the surrounding program; this dispatcher owns every
//! decision: what to draw, and that a next tick is always scheduled,
//! whatever the attempt produced.

use vstd::prelude::*;

use crate::RenderError;
use crate::Text;

verus! {

/// Seconds between two terminal draws.
pub const TERMINAL_TICK_SECS: u64 = 5;

/// The dispatcher's self-rescheduling timer event.
pub struct Tick;

/// The terminal dispatcher: the latest rows to draw.
pub struct StdoutRenderer {
    pub text: Text,
}

impl StdoutRenderer {
    /// Every cached row fits the target geometry.
    pub open spec fn wf(&self) -> bool {
        self.text.wf()
    }

    /// Replaces the cached rows unconditionally: the last writer wins.
    pub fn on_rows_update(&mut self, text: Text)
        requires
            text.wf(),
        ensures
            final(self).text == text,
            final(self).wf(),
    {
        self.text = text;
    }

    /// One render tick: hands out the rows to draw, exactly as cached.
    pub fn on_tick(&self, _tick: Tick) -> (r: &Text)
        ensures
            *r == self.text,
    {
        &self.text
    }

    /// Law: whatever the draw produced — success or any target error —
    /// the next tick is scheduled at the fixed cadence; a failure is
    /// swallowed, never retried early, never propagated.
    pub fn next_tick_delay(&self, outcome: &Result<(), RenderError>) -> (d: u64)
        ensures
            d == TERMINAL_TICK_SECS,
            outcome is Err ==> d == TERMINAL_TICK_SECS,
    {
        TERMINAL_TICK_SECS
    }
}

impl Default for StdoutRenderer {
    /// A dispatcher starting from four empty rows.
    fn default() -> (r: Self)
        ensures
            forall|i: int| 0 <= i < 4 ==> #[trigger] r.text@[i] == Seq::<char>::empty(),
            r.wf(),
    {
        StdoutRenderer { text: Text::default() }
    }
}

} // verus!
