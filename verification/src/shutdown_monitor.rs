//! The shutdown monitors: turn an operator- or OS-level termination request
//! into exactly one notification send, ever.
//!
//! Both variants run the same three-state machine, `Idle` to `Armed` to the
//! terminal `Triggered`; the interactive variant advances on a designated
//! quit keypress found while polling the input, the signal variant on the
//! one OS interrupt it awaits. The polling, the channel and the interrupt
//! wait live with the surrounding program; every transition decision is
//! made, and proved, here.

use vstd::prelude::*;

verus! {

/// The monitor's lifecycle: once `Triggered`, no further transition and no
/// further send.
#[derive(Clone, Copy, PartialEq, Eq, Structural, Debug)]
pub enum MonitorState {
    Idle,
    Armed,
    Triggered,
}

/// What one poll of the interactive input produced: nothing within the
/// poll budget, or one key event. A key without a character code carries
/// `None`.
#[derive(Clone, Copy, PartialEq, Eq, Structural, Debug)]
pub enum PollEvent {
    Empty,
    Key { press: bool, code: Option<char> },
}

/// The designated termination request: the quit key, pressed.
pub open spec fn is_quit(e: PollEvent) -> bool {
    e matches PollEvent::Key { press, code } && press && code == Some('q')
}

/// One step of the monitor machine: the state after the event, and whether
/// this step sends the termination notification.
pub open spec fn monitor_step(s: MonitorState, quit: bool) -> (MonitorState, bool) {
    if s is Armed && quit {
        (MonitorState::Triggered, true)
    } else {
        (s, false)
    }
}

/// How many notifications a monitor starting in `s` sends over a whole
/// sequence of termination requests (`true` where the event asks to quit).
pub open spec fn sends_in(s: MonitorState, quits: Seq<bool>) -> nat
    decreases quits.len(),
{
    if quits.len() == 0 {
        0
    } else {
        (if monitor_step(s, quits[0]).1 {
            1nat
        } else {
            0nat
        }) + sends_in(monitor_step(s, quits[0]).0, quits.drop_first())
    }
}

/// Law: a monitor sends at most one termination notification ever,
/// whatever events arrive in whatever order; once `Triggered` it never
/// sends again.
pub proof fn lemma_at_most_one_send(s: MonitorState, quits: Seq<bool>)
    ensures
        sends_in(s, quits) <= 1,
        s is Triggered ==> sends_in(s, quits) == 0,
        s is Idle ==> sends_in(s, quits) == 0,
    decreases quits.len(),
{
    if quits.len() > 0 {
        lemma_at_most_one_send(monitor_step(s, quits[0]).0, quits.drop_first());
    }
}

/// The interactive monitor: polls the input for the quit keypress.
pub struct TerminalShutdownMonitor {
    pub state: MonitorState,
}

impl TerminalShutdownMonitor {
    pub fn new() -> (r: TerminalShutdownMonitor)
        ensures
            r.state is Idle,
    {
        TerminalShutdownMonitor { state: MonitorState::Idle }
    }

    /// Arms the monitor: polling begins.
    pub fn started(&mut self)
        requires
            old(self).state is Idle,
        ensures
            final(self).state is Armed,
    {
        self.state = MonitorState::Armed;
    }

    /// One poll outcome. Returns whether to send the termination
    /// notification: exactly on the step that sees the quit keypress while
    /// armed, and never again afterwards.
    pub fn on_poll(&mut self, event: &PollEvent) -> (send: bool)
        ensures
            (final(self).state, send) == monitor_step(old(self).state, is_quit(*event)),
            send <==> old(self).state is Armed && is_quit(*event),
            old(self).state is Triggered ==> !send && final(self).state is Triggered,
    {
        let quit = match event {
            PollEvent::Key { press, code } => *press && matches!(code, Some('q')),
            PollEvent::Empty => false,
        };
        if matches!(self.state, MonitorState::Armed) && quit {
            self.state = MonitorState::Triggered;
            true
        } else {
            false
        }
    }
}

/// The signal monitor: awaits a single OS interrupt.
pub struct UnixSignalShutdownMonitor {
    pub state: MonitorState,
}

impl UnixSignalShutdownMonitor {
    pub fn new() -> (r: UnixSignalShutdownMonitor)
        ensures
            r.state is Idle,
    {
        UnixSignalShutdownMonitor { state: MonitorState::Idle }
    }

    /// Arms the monitor: the interrupt wait begins.
    pub fn started(&mut self)
        requires
            old(self).state is Idle,
        ensures
            final(self).state is Armed,
    {
        self.state = MonitorState::Armed;
    }

    /// The awaited OS interrupt arrived. Returns whether to send the
    /// termination notification: exactly once, on the first interrupt
    /// while armed.
    pub fn on_signal(&mut self) -> (send: bool)
        ensures
            (final(self).state, send) == monitor_step(old(self).state, true),
            send <==> old(self).state is Armed,
            old(self).state is Triggered ==> !send && final(self).state is Triggered,
    {
        if matches!(self.state, MonitorState::Armed) {
            self.state = MonitorState::Triggered;
            true
        } else {
            false
        }
    }
}

} // verus!
