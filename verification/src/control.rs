//! The two control flags of a supervisor and the writes that change them.
//!
//! `restart` says whether an exit of the child is answered by a relaunch;
//! `stop_requested` says whether the monitor should kill the child at its
//! next wake-up. Each flag sits in a cell of its own, so a stop request is
//! two separate writes. Their order matters: restart is switched off first,
//! and only then is the kill requested, so that no observer ever sees a
//! requested kill together with an enabled restart.

use vstd::prelude::*;

verus! {

/// One write to one control flag.
#[derive(Clone, Copy, PartialEq, Eq, Structural, Debug)]
pub enum FlagWrite {
    /// Set `restart` to `false`.
    DisableRestart,
    /// Set `stop_requested` to `true`.
    RequestStop,
}

/// The values of the two control flags.
#[derive(Clone, Copy, PartialEq, Eq, Structural, Debug)]
pub struct Control {
    /// Whether a future exit of the child triggers a relaunch.
    pub restart: bool,
    /// Whether the monitor should kill the child at its next wake-up.
    pub stop_requested: bool,
}

/// The flags after `n` stop requests in a row.
pub open spec fn stopped_times(c: Control, n: nat) -> Control
    decreases n,
{
    if n == 0 {
        c
    } else {
        stopped_times(c, (n - 1) as nat).stopped()
    }
}

impl Control {
    /// A requested kill is never seen together with an enabled restart.
    pub open spec fn ordered(self) -> bool {
        self.stop_requested ==> !self.restart
    }

    /// The flags after the single write `w`.
    pub open spec fn after(self, w: FlagWrite) -> Control {
        match w {
            FlagWrite::DisableRestart => Control { restart: false, stop_requested: self.stop_requested },
            FlagWrite::RequestStop => Control { restart: self.restart, stop_requested: true },
        }
    }

    /// The flags after a complete stop request.
    pub open spec fn stopped(self) -> Control {
        self.after(FlagWrite::DisableRestart).after(FlagWrite::RequestStop)
    }

    /// The flags of a freshly launched supervisor.
    pub fn new(restart: bool) -> (c: Control)
        ensures
            c == (Control { restart, stop_requested: false }),
            c.ordered(),
    {
        Control { restart, stop_requested: false }
    }

    /// Whether an exit of the child is answered by a relaunch.
    pub fn restart_enabled(&self) -> (b: bool)
        ensures
            b == self.restart,
    {
        self.restart
    }

    /// Whether the monitor should kill the child at its next wake-up.
    pub fn stop_requested(&self) -> (b: bool)
        ensures
            b == self.stop_requested,
    {
        self.stop_requested
    }

    /// The two writes of a stop request, in the order in which they are made.
    pub fn stop_order() -> (ws: (FlagWrite, FlagWrite))
        ensures
            ws == (FlagWrite::DisableRestart, FlagWrite::RequestStop),
    {
        (FlagWrite::DisableRestart, FlagWrite::RequestStop)
    }

    /// Performs one write.
    pub fn apply(&mut self, w: FlagWrite)
        ensures
            *final(self) == old(self).after(w),
    {
        match w {
            FlagWrite::DisableRestart => {
                self.restart = false;
            },
            FlagWrite::RequestStop => {
                self.stop_requested = true;
            },
        }
    }

    /// Requests a permanent stop: restart is switched off, then the kill is
    /// requested. The outcome does not depend on the flags before the call.
    pub fn stop(&mut self)
        ensures
            *final(self) == old(self).stopped(),
            *final(self) == (Control { restart: false, stop_requested: true }),
            final(self).ordered(),
    {
        let (first, second) = Control::stop_order();
        self.apply(first);
        self.apply(second);
    }
}

/// A stop request keeps the flags ordered at each of its two writes, so an
/// observer that reads them between the writes sees them ordered too.
pub proof fn lemma_stop_stays_ordered(c: Control)
    requires
        c.ordered(),
    ensures
        c.after(FlagWrite::DisableRestart).ordered(),
        c.after(FlagWrite::DisableRestart).after(FlagWrite::RequestStop).ordered(),
{
}

/// A write only ever moves the flags towards a stop: it never switches
/// restart back on and never withdraws a requested kill. It keeps the flags
/// ordered unless it requests a kill while restart is still enabled.
pub proof fn lemma_write_moves_towards_stop(c: Control, w: FlagWrite)
    ensures
        !c.restart ==> !c.after(w).restart,
        c.stop_requested ==> c.after(w).stop_requested,
        c.ordered() && (w == FlagWrite::RequestStop ==> !c.restart) ==> c.after(w).ordered(),
        c == c.stopped() ==> c.after(w) == c,
{
}

/// Stopping once or many times gives the same flags.
pub proof fn lemma_stop_is_idempotent(c: Control, n: nat)
    requires
        n >= 1,
    ensures
        stopped_times(c, n) == c.stopped(),
        stopped_times(c, n) == stopped_times(c, 1),
    decreases n,
{
    reveal_with_fuel(stopped_times, 2);
    if n > 1 {
        lemma_stop_is_idempotent(c, (n - 1) as nat);
    }
}

} // verus!
