use vstd::prelude::*;

verus! {

/// Whether curses still has to be ended for a terminal.
///
/// Curses is ended once: either when the CDK screen on the terminal closes
/// (CDK ends curses itself) or, if no screen did, when the terminal closes.
#[derive(Clone, Copy, Debug, PartialEq, Eq, Structural)]
pub struct TerminalState {
    ended: bool,
}

/// What closes on a terminal.
#[derive(Clone, Copy, Debug, PartialEq, Eq, Structural)]
pub enum TerminalEvent {
    /// The CDK screen closed, and CDK ended curses.
    ScreenClosed,
    /// The terminal itself closed.
    WindowClosed,
}

/// Whether the terminal must end curses itself on `event`: only when it closes
/// and nothing ended curses before.
pub open spec fn ends_now(ended: bool, event: TerminalEvent) -> bool {
    !ended && event == TerminalEvent::WindowClosed
}

impl TerminalState {
    /// Whether curses has been ended.
    pub closed spec fn ended(self) -> bool {
        self.ended
    }

    /// A terminal whose curses session is running.
    pub fn new() -> (r: TerminalState)
        ensures
            !r.ended(),
    {
        TerminalState { ended: false }
    }

    /// Records that something closed; the result says whether the terminal must end
    /// curses now. Afterwards curses counts as ended.
    pub fn close(&mut self, event: TerminalEvent) -> (end_now: bool)
        ensures
            end_now == ends_now(old(self).ended(), event),
            final(self).ended(),
    {
        let end_now = match event {
            TerminalEvent::ScreenClosed => false,
            TerminalEvent::WindowClosed => !self.ended,
        };
        self.ended = true;
        end_now
    }
}

/// How many times the terminal ends curses itself over `events`, one `close` after
/// the other, starting from `ended`.
pub open spec fn window_ends(ended: bool, events: Seq<TerminalEvent>) -> nat
    decreases events.len(),
{
    if events.len() == 0 {
        0
    } else {
        (if ends_now(ended, events[0]) { 1nat } else { 0nat }) + window_ends(true, events.drop_first())
    }
}

/// Curses is ended by the terminal at most once, and never once something ended it:
/// over any sequence of closings, a running terminal ends it at most once and an
/// ended one never does.
pub proof fn lemma_curses_ends_at_most_once(ended: bool, events: Seq<TerminalEvent>)
    ensures
        window_ends(ended, events) <= 1,
        ended ==> window_ends(ended, events) == 0,
    decreases events.len(),
{
    if events.len() > 0 {
        lemma_curses_ends_at_most_once(true, events.drop_first());
    }
}

} // verus!
