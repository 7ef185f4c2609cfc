//! The monitor of one supervised command, as a state machine.
//!
//! The monitor never touches the operating system itself. It hands out one
//! [`Action`] at a time; whoever drives it performs the action and reports
//! what happened as an [`Event`]; [`Monitor::step`] then decides the next
//! action. The monitor is in one of four phases, which follow from the
//! action it is waiting for:
//!
//! * alive: the child runs, and the monitor polls it, sleeps, or kills it;
//! * exit observed: the child is gone, and the restart flag is to be read;
//! * relaunching: the command is to be started again;
//! * terminated: the final phase, in which the process id is `0`.

use vstd::prelude::*;

verus! {

/// The time between two liveness checks of a running child, in
/// milliseconds. A requested stop or an exit is noticed after at most this
/// long.
pub const POLL_INTERVAL_MS: u64 = 500;

/// What a non-blocking exit check of the child reported.
#[derive(Clone, Copy, PartialEq, Eq, Structural, Debug)]
pub enum Liveness {
    /// The child is still running.
    Running,
    /// The child has exited with some status.
    Exited,
    /// The check itself failed. The monitor treats this like an exit.
    QueryFailed,
}

/// The outcome of one attempt to launch the command.
#[derive(Clone, Copy, PartialEq, Eq, Structural, Debug)]
pub enum Launch {
    /// A new child runs under the process id `pid`.
    Started { pid: u32 },
    /// The operating system refused to start the command.
    Failed,
}

/// The phases of the monitor.
#[derive(Clone, Copy, PartialEq, Eq, Structural, Debug)]
pub enum Phase {
    Alive,
    ExitObserved,
    Relaunching,
    Terminated,
}

/// What the monitor asks its driver to do next.
#[derive(Clone, Copy, PartialEq, Eq, Structural, Debug)]
pub enum Action {
    /// Check, without blocking, whether the child has exited.
    Check,
    /// Sleep for one polling interval, then read the stop flag.
    Sleep,
    /// Kill the child; a failure to do so is ignored.
    Kill,
    /// Read the restart flag.
    ReadRestart,
    /// Launch the command again and install the new child's process id and
    /// stream endpoints in the shared cells.
    Launch,
    /// Set the shared process id to `0` and end the monitor.
    Finish,
}

/// What the driver reports after it has performed an action.
#[derive(Clone, Copy, PartialEq, Eq, Structural, Debug)]
pub enum Event {
    /// The answer to [`Action::Check`].
    Status { liveness: Liveness },
    /// The answer to [`Action::Sleep`]: the stop flag as read after the sleep.
    Woke { stop_requested: bool },
    /// The answer to [`Action::Kill`], whether or not the kill succeeded.
    KillIssued,
    /// The answer to [`Action::ReadRestart`]: the restart flag as read.
    Restart { enabled: bool },
    /// The answer to [`Action::Launch`].
    Relaunch { outcome: Launch },
}

/// The state of the monitor.
#[derive(Clone, Copy, PartialEq, Eq, Structural, Debug)]
pub struct Monitor {
    /// The process id of the child that the monitor owns, `0` once terminated.
    pub pid: u32,
    /// The action that the monitor has asked for and awaits the answer to.
    pub pending: Action,
    /// Whether the monitor terminated because a relaunch failed.
    pub relaunch_failed: bool,
}

impl Launch {
    /// A started child has a positive process id.
    pub open spec fn valid(self) -> bool {
        self is Started ==> self->pid > 0
    }
}

impl Action {
    /// The phase in which the monitor asks for this action.
    pub open spec fn phase(self) -> Phase {
        match self {
            Action::Check | Action::Sleep | Action::Kill => Phase::Alive,
            Action::ReadRestart => Phase::ExitObserved,
            Action::Launch => Phase::Relaunching,
            Action::Finish => Phase::Terminated,
        }
    }
}

impl Event {
    /// A reported launch is valid.
    pub open spec fn valid(self) -> bool {
        self is Relaunch ==> self->outcome.valid()
    }

    /// Whether this event is an answer to the action `a`.
    pub open spec fn answers(self, a: Action) -> bool {
        match (a, self) {
            (Action::Check, Event::Status { .. }) => true,
            (Action::Sleep, Event::Woke { .. }) => true,
            (Action::Kill, Event::KillIssued) => true,
            (Action::ReadRestart, Event::Restart { .. }) => true,
            (Action::Launch, Event::Relaunch { .. }) => true,
            _ => false,
        }
    }
}

impl Monitor {
    /// The process id is `0` exactly in the terminated phase, and a failed
    /// relaunch is recorded only there.
    pub open spec fn wf(self) -> bool {
        &&& self.pid == 0 <==> self.pending == Action::Finish
        &&& self.relaunch_failed ==> self.pending == Action::Finish
    }

    /// The monitor right after the launch that gave the child `pid`.
    pub open spec fn started(pid: u32) -> Monitor {
        Monitor { pid, pending: Action::Check, relaunch_failed: false }
    }

    /// The terminated monitor.
    pub open spec fn finished(relaunch_failed: bool) -> Monitor {
        Monitor { pid: 0, pending: Action::Finish, relaunch_failed }
    }

    /// The monitor waiting for the answer to `pending`, with the same child.
    pub open spec fn awaiting(self, pending: Action) -> Monitor {
        Monitor { pid: self.pid, pending, relaunch_failed: self.relaunch_failed }
    }

    /// The monitor's phase.
    pub open spec fn spec_phase(self) -> Phase {
        self.pending.phase()
    }

    /// The state after the event `e`. An event that does not answer the
    /// pending action changes nothing, and neither does any event once the
    /// monitor has terminated.
    pub open spec fn next(self, e: Event) -> Monitor {
        match (self.pending, e) {
            (Action::Check, Event::Status { liveness: Liveness::Running }) => self.awaiting(Action::Sleep),
            (Action::Check, Event::Status { .. }) => self.awaiting(Action::ReadRestart),
            (Action::Sleep, Event::Woke { stop_requested: true }) => self.awaiting(Action::Kill),
            (Action::Sleep, Event::Woke { stop_requested: false }) => self.awaiting(Action::Check),
            (Action::Kill, Event::KillIssued) => self.awaiting(Action::Check),
            (Action::ReadRestart, Event::Restart { enabled: true }) => self.awaiting(Action::Launch),
            (Action::ReadRestart, Event::Restart { enabled: false }) => Monitor::finished(false),
            (Action::Launch, Event::Relaunch { outcome: Launch::Started { pid } }) => Monitor::started(pid),
            (Action::Launch, Event::Relaunch { outcome: Launch::Failed }) => Monitor::finished(true),
            _ => self,
        }
    }

    /// The monitor for a child that was just launched under `pid`. Its first
    /// request is a liveness check.
    pub fn new(pid: u32) -> (m: Monitor)
        requires
            pid > 0,
        ensures
            m == Monitor::started(pid),
            m.wf(),
    {
        Monitor { pid, pending: Action::Check, relaunch_failed: false }
    }

    /// The process id of the current child, `0` once terminated.
    pub fn pid(&self) -> (pid: u32)
        ensures
            pid == self.pid,
    {
        self.pid
    }

    /// The action that the monitor awaits the answer to.
    pub fn pending(&self) -> (a: Action)
        ensures
            a == self.pending,
    {
        self.pending
    }

    /// The monitor's phase.
    pub fn phase(&self) -> (p: Phase)
        ensures
            p == self.spec_phase(),
    {
        match self.pending {
            Action::Check | Action::Sleep | Action::Kill => Phase::Alive,
            Action::ReadRestart => Phase::ExitObserved,
            Action::Launch => Phase::Relaunching,
            Action::Finish => Phase::Terminated,
        }
    }

    /// Whether the monitor has reached its final phase.
    pub fn is_terminated(&self) -> (b: bool)
        ensures
            b == (self.pending == Action::Finish),
            self.wf() ==> b == (self.pid == 0),
    {
        self.pending == Action::Finish
    }

    /// Whether the monitor terminated because a relaunch failed.
    pub fn relaunch_failed(&self) -> (b: bool)
        ensures
            b == self.relaunch_failed,
    {
        self.relaunch_failed
    }

    /// Takes the driver's report `e` and decides what to do next.
    pub fn step(&mut self, e: Event) -> (a: Action)
        requires
            e.valid(),
        ensures
            *final(self) == old(self).next(e),
            a == final(self).pending,
            old(self).wf() ==> final(self).wf(),
    {
        match (self.pending, e) {
            (Action::Check, Event::Status { liveness }) => {
                match liveness {
                    Liveness::Running => {
                        self.pending = Action::Sleep;
                    },
                    Liveness::Exited | Liveness::QueryFailed => {
                        self.pending = Action::ReadRestart;
                    },
                }
            },
            (Action::Sleep, Event::Woke { stop_requested }) => {
                if stop_requested {
                    self.pending = Action::Kill;
                } else {
                    self.pending = Action::Check;
                }
            },
            (Action::Kill, Event::KillIssued) => {
                self.pending = Action::Check;
            },
            (Action::ReadRestart, Event::Restart { enabled }) => {
                if enabled {
                    self.pending = Action::Launch;
                } else {
                    self.pid = 0;
                    self.pending = Action::Finish;
                    self.relaunch_failed = false;
                }
            },
            (Action::Launch, Event::Relaunch { outcome }) => {
                match outcome {
                    Launch::Started { pid } => {
                        self.pid = pid;
                        self.pending = Action::Check;
                        self.relaunch_failed = false;
                    },
                    Launch::Failed => {
                        self.pid = 0;
                        self.pending = Action::Finish;
                        self.relaunch_failed = true;
                    },
                }
            },
            _ => {},
        }
        self.pending
    }
}

/// The transitions of the monitor, phase by phase: while alive it stays alive
/// until a check finds the child gone; an observed exit leads to a relaunch
/// or to termination, as the restart flag says; a relaunch leads back to
/// alive, or to termination if it fails; termination is final.
pub proof fn lemma_phase_transitions(m: Monitor, e: Event)
    requires
        m.wf(),
        e.valid(),
    ensures
        m.next(e).wf(),
        !e.answers(m.pending) ==> m.next(e) == m,
        m.spec_phase() == Phase::Alive ==> m.next(e).pid == m.pid && {
            ||| m.next(e).spec_phase() == Phase::Alive
            ||| (m.pending == Action::Check && e is Status && e->liveness != Liveness::Running
                && m.next(e).spec_phase() == Phase::ExitObserved)
        },
        m.spec_phase() == Phase::ExitObserved && e.answers(m.pending) ==> e is Restart
            && m.next(e).spec_phase() == (if e->enabled {
            Phase::Relaunching
        } else {
            Phase::Terminated
        }),
        m.spec_phase() == Phase::Relaunching && e.answers(m.pending) ==> e is Relaunch
            && m.next(e).spec_phase() == (if e->outcome is Started {
            Phase::Alive
        } else {
            Phase::Terminated
        }),
        m.spec_phase() == Phase::Terminated ==> m.next(e) == m && m.pid == 0,
        m.next(e).pending == Action::Kill && m.pending != Action::Kill ==> e is Woke
            && e->stop_requested,
        m.next(e).pending == Action::Launch && m.pending != Action::Launch ==> e is Restart
            && e->enabled,
{
}

} // verus!
