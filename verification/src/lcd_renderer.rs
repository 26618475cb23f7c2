//! The render dispatcher for the hardware character display: caches the
//! latest rows and pushes them to the device on a slow cadence, tolerating
//! device failures by simply waiting for the next tick.
//!
//! The device itself (an I2C character display, reacquired on every render
//! attempt since the channel is unreliable) lives with the surrounding
//! program; this dispatcher owns every decision: what to write, and that a
//! next tick is always scheduled, whatever the attempt produced.

use vstd::prelude::*;

use crate::RenderError;
use crate::Text;

verus! {

/// Seconds between two render attempts on the hardware display: slow, to
/// tolerate the device reconnect cost.
pub const LCD_TICK_SECS: u64 = 30;

/// The dispatcher's self-rescheduling timer event.
pub struct Tick;

/// The hardware-display dispatcher: the bus and address the device is
/// reacquired at, and the latest rows to show.
pub struct LcdRenderer {
    pub bus: u8,
    pub addr: u16,
    pub text: Text,
}

impl LcdRenderer {
    /// Every cached row fits the target geometry.
    pub open spec fn wf(&self) -> bool {
        self.text.wf()
    }

    /// A dispatcher for the device at `bus`/`addr`, starting from four
    /// empty rows.
    pub fn using_bus_and_addr(bus: u8, addr: u16) -> (r: LcdRenderer)
        ensures
            r.bus == bus,
            r.addr == addr,
            forall|i: int| 0 <= i < 4 ==> #[trigger] r.text@[i] == Seq::<char>::empty(),
            r.wf(),
    {
        LcdRenderer { bus, addr, text: Text::default() }
    }

    /// Replaces the cached rows unconditionally: the last writer wins.
    pub fn on_rows_update(&mut self, text: Text)
        requires
            text.wf(),
        ensures
            final(self).text == text,
            final(self).bus == old(self).bus,
            final(self).addr == old(self).addr,
            final(self).wf(),
    {
        self.text = text;
    }

    /// One render tick: hands out the rows to push to the device, exactly
    /// as cached.
    pub fn on_tick(&self, _tick: Tick) -> (r: &Text)
        ensures
            *r == self.text,
    {
        &self.text
    }

    /// Law: whatever the render attempt produced — success or any target
    /// error — the next tick is scheduled at the fixed cadence; a failure
    /// is swallowed, never retried early, never propagated.
    pub fn next_tick_delay(&self, outcome: &Result<(), RenderError>) -> (d: u64)
        ensures
            d == LCD_TICK_SECS,
            outcome is Err ==> d == LCD_TICK_SECS,
    {
        LCD_TICK_SECS
    }
}

} // verus!
