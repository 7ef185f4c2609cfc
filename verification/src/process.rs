//! One supervised command as a whole: the control flags, the monitor, and
//! what callers can observe of the current child.
//!
//! [`Process`] is the sequential model of a supervisor. Its caller-facing
//! operations are [`Process::run`], [`Process::pid`], the three stream
//! queries and [`Process::stop`]; [`Process::advance`] lets the monitor take
//! one step, reading the flags where the monitor reads them and asking a
//! [`World`] for what only the operating system can tell. The proof
//! functions at the end state the laws of the life cycle over this model.
//!
//! A stream endpoint is modelled by the process id of the child it is
//! connected to. In the model a relaunch installs the new process id and
//! the three endpoints in one step. A driver that keeps them in cells with
//! a lock each writes them one after another: between two of those writes a
//! caller may find the new process id beside an endpoint of the previous
//! child. The laws below speak of the flags and the process id; they do not
//! depend on the endpoints.

use vstd::prelude::*;
use crate::control::{Control, FlagWrite};
use crate::monitor::{Action, Event, Launch, Liveness, Monitor};

verus! {

/// What the operating system would answer at one step of the monitor: to a
/// liveness check, and to a launch. The step uses the answer it asks for.
#[derive(Clone, Copy, PartialEq, Eq, Structural, Debug)]
pub struct World {
    pub liveness: Liveness,
    pub launch: Launch,
}

/// One step of a supervisor as a whole: a caller writes one control flag, or
/// the monitor takes one step. A run of a supervisor is a sequence of such
/// steps, in whatever order the callers and the monitor happen to act.
#[derive(Clone, Copy, PartialEq, Eq, Structural, Debug)]
pub enum Step {
    Write { write: FlagWrite },
    Advance { world: World },
}

/// The state of one supervisor.
#[derive(Clone, Copy, PartialEq, Eq, Structural, Debug)]
pub struct Process {
    /// The control flags.
    pub control: Control,
    /// The monitor; it holds the current process id.
    pub monitor: Monitor,
    /// The child that the installed input endpoint is connected to.
    pub stdin: u32,
    /// The child that the installed output endpoint is connected to.
    pub stdout: u32,
    /// The child that the installed error endpoint is connected to.
    pub stderr: u32,
}

/// The supervisor after the steps `steps`, first to last.
pub open spec fn run_through(p: Process, steps: Seq<Step>) -> Process
    decreases steps.len(),
{
    if steps.len() == 0 {
        p
    } else {
        run_through(p.stepped(steps.first()), steps.drop_first())
    }
}

/// How many of `steps` are steps of the monitor.
pub open spec fn advances(steps: Seq<Step>) -> nat
    decreases steps.len(),
{
    if steps.len() == 0 {
        0
    } else if steps.first() is Advance {
        1 + advances(steps.drop_first())
    } else {
        advances(steps.drop_first())
    }
}

/// The step at position `j` of `steps` switches restart off.
pub open spec fn disables_at(steps: Seq<Step>, j: int) -> bool {
    0 <= j < steps.len() && steps[j] == (Step::Write { write: FlagWrite::DisableRestart })
}

/// The writes of `steps` come in the order of stop requests: before a kill
/// is requested, restart was switched off, by an earlier step or, with
/// `restart_off`, before the first.
pub open spec fn writes_in_stop_order(restart_off: bool, steps: Seq<Step>) -> bool {
    forall|i: int|
        0 <= i < steps.len() && #[trigger] steps[i] == (Step::Write { write: FlagWrite::RequestStop })
            ==> restart_off || exists|j: int| j < i && #[trigger] disables_at(steps, j)
}

/// The supervisor after `n` stop requests in a row.
pub open spec fn stopped_times(p: Process, n: nat) -> Process
    decreases n,
{
    if n == 0 {
        p
    } else {
        stopped_times(p, (n - 1) as nat).stopped()
    }
}

/// The supervisor after one unexpected exit of the child and the relaunch
/// that answers it: the check that finds the child gone, the reading of the
/// restart flag, and a launch that starts a child under `pid`.
pub open spec fn after_exit(p: Process, pid: u32) -> Process {
    let gone = World { liveness: Liveness::Exited, launch: Launch::Started { pid } };
    p.advanced(gone).advanced(gone).advanced(gone)
}

/// The supervisor after one unexpected exit for each id of `pids`, each
/// answered by a relaunch that starts a child under that id.
pub open spec fn after_exits(p: Process, pids: Seq<u32>) -> Process
    decreases pids.len(),
{
    if pids.len() == 0 {
        p
    } else {
        after_exit(after_exits(p, pids.drop_last()), pids.last())
    }
}

/// The launches that `steps` report are valid.
pub open spec fn steps_valid(steps: Seq<Step>) -> bool {
    forall|i: int| 0 <= i < steps.len() ==> (#[trigger] steps[i]).valid()
}

/// No liveness check in `steps` finds the child running.
pub open spec fn child_is_gone(steps: Seq<Step>) -> bool {
    forall|i: int|
        0 <= i < steps.len() && (#[trigger] steps[i]) is Advance ==> steps[i]->world.liveness
            != Liveness::Running
}

/// In the run of `steps` from `p`, a kill works: once the monitor has killed
/// the current child, no later liveness check finds that child running.
/// `killed` says whether the current child was killed before the first
/// step. Before a kill, the child may run or exit as it likes.
pub open spec fn kill_works(p: Process, killed: bool, steps: Seq<Step>) -> bool
    decreases steps.len(),
{
    if steps.len() == 0 {
        true
    } else {
        let s = steps.first();
        &&& killed && s is Advance && p.monitor.pending == Action::Check ==> s->world.liveness
            != Liveness::Running
        &&& kill_works(p.stepped(s), p.killed_after(killed, s), steps.drop_first())
    }
}

/// None of `steps` is a write to a flag: no caller asks for a stop.
pub open spec fn no_writes(steps: Seq<Step>) -> bool {
    forall|i: int| 0 <= i < steps.len() ==> (#[trigger] steps[i]) is Advance
}

/// Every launch that `steps` report starts a child.
pub open spec fn launches_succeed(steps: Seq<Step>) -> bool {
    forall|i: int|
        0 <= i < steps.len() && (#[trigger] steps[i]) is Advance ==> steps[i]->world.launch is Started
}

impl Step {
    /// A launch that the step reports is valid.
    pub open spec fn valid(self) -> bool {
        self is Advance ==> self->world.launch.valid()
    }
}

impl Process {
    /// The flags are ordered, the monitor is well formed, and until the
    /// monitor has terminated all three endpoints belong to the current
    /// child.
    pub open spec fn wf(self) -> bool {
        &&& self.control.ordered()
        &&& self.monitor.wf()
        &&& self.monitor.pending != Action::Finish ==> {
            &&& self.stdin == self.monitor.pid
            &&& self.stdout == self.monitor.pid
            &&& self.stderr == self.monitor.pid
        }
    }

    /// The supervisor right after a first launch that gave the child `pid`.
    pub open spec fn launched(pid: u32, restart: bool) -> Process {
        Process {
            control: Control { restart, stop_requested: false },
            monitor: Monitor::started(pid),
            stdin: pid,
            stdout: pid,
            stderr: pid,
        }
    }

    /// The supervisor with the flags changed by the write `w`.
    pub open spec fn written(self, w: FlagWrite) -> Process {
        Process { control: self.control.after(w), ..self }
    }

    /// The supervisor after a stop request.
    pub open spec fn stopped(self) -> Process {
        Process { control: self.control.stopped(), ..self }
    }

    /// What the monitor is told at its next step: the world's answer where
    /// it asked the operating system, the flag's value where it reads a flag.
    /// A kill is reported as issued whether or not it succeeded; a
    /// terminated monitor ignores whatever it is told.
    pub open spec fn report(self, world: World) -> Event {
        match self.monitor.pending {
            Action::Check => Event::Status { liveness: world.liveness },
            Action::Sleep => Event::Woke { stop_requested: self.control.stop_requested },
            Action::ReadRestart => Event::Restart { enabled: self.control.restart },
            Action::Launch => Event::Relaunch { outcome: world.launch },
            Action::Kill | Action::Finish => Event::KillIssued,
        }
    }

    /// The supervisor after one step of the monitor. A relaunch that starts a
    /// child installs its endpoints; nothing else touches them.
    pub open spec fn advanced(self, world: World) -> Process {
        let monitor = self.monitor.next(self.report(world));
        if self.monitor.pending == Action::Launch && world.launch is Started {
            Process {
                control: self.control,
                monitor,
                stdin: monitor.pid,
                stdout: monitor.pid,
                stderr: monitor.pid,
            }
        } else {
            Process { monitor, ..self }
        }
    }

    /// The supervisor after the step `s`.
    pub open spec fn stepped(self, s: Step) -> Process {
        match s {
            Step::Write { write } => self.written(write),
            Step::Advance { world } => self.advanced(world),
        }
    }

    /// Whether the current child has been killed after the step `s`, if
    /// `killed` says whether it was killed before: performing a kill makes
    /// it so, and a launch brings a child that has not been killed.
    pub open spec fn killed_after(self, killed: bool, s: Step) -> bool {
        if s is Advance && self.monitor.pending == Action::Kill {
            true
        } else if s is Advance && self.monitor.pending == Action::Launch {
            false
        } else {
            killed
        }
    }

    /// How many monitor steps at most lead to termination after a stop
    /// request, if a kill works.
    pub open spec fn steps_to_stop(self, killed: bool) -> nat {
        match self.monitor.pending {
            Action::Finish => 0,
            Action::ReadRestart => 1,
            Action::Check => if killed {
                2
            } else {
                5
            },
            Action::Kill => 3,
            Action::Sleep => 4,
            Action::Launch => 6,
        }
    }

    /// How many monitor steps at most lead to termination once restart is
    /// off and the child is gone.
    pub open spec fn steps_to_settle(self) -> nat {
        match self.monitor.pending {
            Action::Finish => 0,
            Action::ReadRestart => 1,
            Action::Check => 2,
            Action::Kill | Action::Launch => 3,
            Action::Sleep => 4,
        }
    }

    /// Sets up the supervisor from the outcome of the first launch. A failed
    /// first launch gives no supervisor. Otherwise restart is as asked, no
    /// stop is requested, and the monitor starts with a liveness check.
    pub fn run(first: Launch, restart: bool) -> (r: Option<Process>)
        requires
            first.valid(),
        ensures
            first is Failed <==> r is None,
            first matches Launch::Started { pid } ==> r == Some(Process::launched(pid, restart)),
            r matches Some(p) ==> p.wf() && p.monitor.pid != 0,
    {
        match first {
            Launch::Failed => None,
            Launch::Started { pid } => Some(
                Process {
                    control: Control::new(restart),
                    monitor: Monitor::new(pid),
                    stdin: pid,
                    stdout: pid,
                    stderr: pid,
                },
            ),
        }
    }

    /// The current process id, `0` once the supervisor has stopped for good.
    pub fn pid(&self) -> (pid: u32)
        ensures
            pid == self.monitor.pid,
            self.wf() ==> (pid == 0 <==> self.monitor.pending == Action::Finish),
    {
        self.monitor.pid()
    }

    /// The child that the installed input endpoint is connected to.
    pub fn stdin(&self) -> (owner: u32)
        ensures
            owner == self.stdin,
            self.wf() && self.monitor.pid != 0 ==> owner == self.monitor.pid,
    {
        self.stdin
    }

    /// The child that the installed output endpoint is connected to.
    pub fn stdout(&self) -> (owner: u32)
        ensures
            owner == self.stdout,
            self.wf() && self.monitor.pid != 0 ==> owner == self.monitor.pid,
    {
        self.stdout
    }

    /// The child that the installed error endpoint is connected to.
    pub fn stderr(&self) -> (owner: u32)
        ensures
            owner == self.stderr,
            self.wf() && self.monitor.pid != 0 ==> owner == self.monitor.pid,
    {
        self.stderr
    }

    /// Performs one of the two writes of a stop request.
    pub fn write_flag(&mut self, w: FlagWrite)
        ensures
            *final(self) == old(self).written(w),
    {
        self.control.apply(w);
    }

    /// Requests a permanent stop. Only the flags change: restart is off and
    /// the kill is requested; the child is killed later, by the monitor.
    pub fn stop(&mut self)
        ensures
            *final(self) == old(self).stopped(),
            final(self).control == (Control { restart: false, stop_requested: true }),
            old(self).wf() ==> final(self).wf(),
    {
        self.control.stop();
    }

    /// Gives up the caller's handle. The monitor goes on with what is
    /// returned, which is the supervisor after a stop request.
    pub fn release(self) -> (left: Process)
        ensures
            left == self.stopped(),
            self.wf() ==> left.wf(),
    {
        let mut left = self;
        left.stop();
        left
    }

    /// Lets the monitor take one step and returns the action it asks for
    /// next.
    pub fn advance(&mut self, world: World) -> (a: Action)
        requires
            world.launch.valid(),
        ensures
            *final(self) == old(self).advanced(world),
            a == final(self).monitor.pending,
            old(self).wf() ==> final(self).wf(),
    {
        let pending = self.monitor.pending();
        let e = match pending {
            Action::Check => Event::Status { liveness: world.liveness },
            Action::Sleep => Event::Woke { stop_requested: self.control.stop_requested() },
            Action::ReadRestart => Event::Restart { enabled: self.control.restart_enabled() },
            Action::Launch => Event::Relaunch { outcome: world.launch },
            Action::Kill | Action::Finish => Event::KillIssued,
        };
        let a = self.monitor.step(e);
        match (pending, world.launch) {
            (Action::Launch, Launch::Started { pid }) => {
                self.stdin = pid;
                self.stdout = pid;
                self.stderr = pid;
            },
            _ => {},
        }
        a
    }

    /// Takes one step, a caller's or the monitor's, and returns the action
    /// that the monitor awaits the answer to afterwards.
    pub fn step(&mut self, s: Step) -> (a: Action)
        requires
            s.valid(),
        ensures
            *final(self) == old(self).stepped(s),
            a == final(self).monitor.pending,
    {
        match s {
            Step::Write { write } => {
                self.write_flag(write);
                self.monitor.pending()
            },
            Step::Advance { world } => self.advance(world),
        }
    }
}

/// A step of the monitor keeps the supervisor well formed and leaves the
/// flags alone.
pub proof fn lemma_advanced_wf(p: Process, world: World)
    requires
        p.wf(),
        world.launch.valid(),
    ensures
        p.advanced(world).wf(),
        p.advanced(world).control == p.control,
{
}

/// However the writes of stop requests and the steps of the monitor
/// interleave, the supervisor stays well formed: at every point of the run
/// the flags are ordered, so a requested kill is never seen together with an
/// enabled restart, and the process id is `0` exactly when the monitor has
/// terminated.
pub proof fn lemma_run_through_wf(p: Process, steps: Seq<Step>)
    requires
        p.wf(),
        steps_valid(steps),
        writes_in_stop_order(!p.control.restart, steps),
    ensures
        run_through(p, steps).wf(),
    decreases steps.len(),
{
    if steps.len() > 0 {
        let rest = steps.drop_first();
        let q = p.stepped(steps[0]);
        assert(steps[0].valid());
        if steps[0] == (Step::Write { write: FlagWrite::RequestStop }) {
            if p.control.restart {
                let j = choose|j: int| j < 0 && #[trigger] disables_at(steps, j);
            }
        }
        assert(q.wf());
        assert forall|i: int| 0 <= i < rest.len() implies (#[trigger] rest[i]).valid() by {
            assert(steps[i + 1].valid());
        }
        assert forall|i: int|
            0 <= i < rest.len() && #[trigger] rest[i] == (Step::Write {
                write: FlagWrite::RequestStop,
            }) implies !q.control.restart || exists|j: int| j < i && #[trigger] disables_at(rest, j) by {
            assert(steps[i + 1] == (Step::Write { write: FlagWrite::RequestStop }));
            if p.control.restart {
                let j = choose|j: int| j < i + 1 && #[trigger] disables_at(steps, j);
                if j > 0 {
                    assert(disables_at(rest, j - 1));
                }
            }
        }
        lemma_run_through_wf(q, rest);
    }
}

/// The flags only ever move towards a stop: once restart is off it stays
/// off, and a requested kill stays requested.
pub proof fn lemma_flags_only_move_towards_stop(p: Process, steps: Seq<Step>)
    ensures
        !p.control.restart ==> !run_through(p, steps).control.restart,
        p.control.stop_requested ==> run_through(p, steps).control.stop_requested,
    decreases steps.len(),
{
    if steps.len() > 0 {
        lemma_flags_only_move_towards_stop(p.stepped(steps.first()), steps.drop_first());
    }
}

/// While restart is enabled and no stop was requested, an unexpected exit is
/// answered by a relaunch: three monitor steps later the supervisor is alive
/// again, the process id is that of the new child and not `0`, and all three
/// endpoints belong to the new child.
pub proof fn lemma_exit_is_answered_by_relaunch(p: Process, exit: World, read: World, launch: World)
    requires
        p.wf(),
        p.control.restart,
        p.monitor.pending == Action::Check,
        exit.liveness != Liveness::Running,
        launch.launch is Started,
        launch.launch.valid(),
    ensures
        p.advanced(exit).monitor.pending == Action::ReadRestart,
        p.advanced(exit).advanced(read).monitor.pending == Action::Launch,
        p.advanced(exit).advanced(read).advanced(launch) == Process::launched(
            launch.launch->pid,
            true,
        ),
        p.advanced(exit).advanced(read).advanced(launch).monitor.pid != 0,
{
}

/// While restart is enabled and no stop was requested, every one of a
/// series of unexpected exits is answered by a relaunch: after the last the
/// supervisor is alive with the process id of the last child, which is not
/// `0`, and restart is still enabled.
pub proof fn lemma_every_exit_is_answered_by_relaunch(p: Process, pids: Seq<u32>)
    requires
        p.wf(),
        p.control.restart,
        p.monitor.pending == Action::Check,
        pids.len() > 0,
        forall|i: int| 0 <= i < pids.len() ==> pids[i] > 0,
    ensures
        after_exits(p, pids) == Process::launched(pids.last(), true),
        after_exits(p, pids).monitor.pid == pids.last(),
        after_exits(p, pids).monitor.pid != 0,
    decreases pids.len(),
{
    let init = pids.drop_last();
    if init.len() > 0 {
        lemma_every_exit_is_answered_by_relaunch(p, init);
    }
    let q = after_exits(p, init);
    assert(q.wf() && q.control.restart && q.monitor.pending == Action::Check);
    let gone = World { liveness: Liveness::Exited, launch: Launch::Started { pid: pids.last() } };
    lemma_exit_is_answered_by_relaunch(q, gone, gone, gone);
}

/// While restart is enabled and nobody asks for a stop, the supervisor
/// never stops: however often the child exits, as long as each relaunch
/// starts a child, the monitor does not terminate, kills no child, and the
/// process id is never `0`.
pub proof fn lemma_restart_keeps_supervising(p: Process, steps: Seq<Step>)
    requires
        p.wf(),
        p.control.restart,
        p.monitor.pending != Action::Finish,
        p.monitor.pending != Action::Kill,
        steps_valid(steps),
        no_writes(steps),
        launches_succeed(steps),
    ensures
        run_through(p, steps).monitor.pending != Action::Finish,
        run_through(p, steps).monitor.pending != Action::Kill,
        run_through(p, steps).monitor.pid != 0,
        run_through(p, steps).control == p.control,
    decreases steps.len(),
{
    if steps.len() > 0 {
        let rest = steps.drop_first();
        assert(steps[0].valid() && steps[0] is Advance && steps[0]->world.launch is Started);
        assert forall|i: int| 0 <= i < rest.len() implies (#[trigger] rest[i]).valid()
            && rest[i] is Advance && rest[i]->world.launch is Started by {
            assert(steps[i + 1].valid() && steps[i + 1] is Advance);
        }
        lemma_restart_keeps_supervising(p.stepped(steps[0]), rest);
    }
}

/// Termination is final: whatever the monitor is told and whatever is
/// written to the flags afterwards, the process id stays `0`.
pub proof fn lemma_terminated_is_final(p: Process, steps: Seq<Step>)
    requires
        p.monitor.pending == Action::Finish,
    ensures
        run_through(p, steps).monitor == p.monitor,
        p.stopped().monitor == p.monitor,
        p.monitor.wf() ==> run_through(p, steps).monitor.pid == 0,
    decreases steps.len(),
{
    if steps.len() > 0 {
        lemma_terminated_is_final(p.stepped(steps.first()), steps.drop_first());
    }
}

/// Once restart is off, the monitor never again decides to relaunch. This
/// holds as soon as the first write of a stop request has landed. A
/// relaunch that was decided before goes through, and is the last: the
/// monitor is about to launch only while that one is still unanswered.
pub proof fn lemma_no_relaunch_once_restart_is_off(p: Process, steps: Seq<Step>)
    requires
        !p.control.restart,
    ensures
        run_through(p, steps).monitor.pending == Action::Launch ==> p.monitor.pending
            == Action::Launch && advances(steps) == 0,
    decreases steps.len(),
{
    if steps.len() > 0 {
        let q = p.stepped(steps.first());
        lemma_no_relaunch_once_restart_is_off(q, steps.drop_first());
    }
}

/// The monitor decides to kill the child only when it finds the stop flag
/// set, and by then restart is already off: a kill that a stop request
/// caused is never answered by a relaunch.
pub proof fn lemma_kill_only_after_restart_is_off(p: Process, world: World)
    requires
        p.control.ordered(),
        p.monitor.pending != Action::Kill,
        p.advanced(world).monitor.pending == Action::Kill,
    ensures
        p.monitor.pending == Action::Sleep,
        p.control.stop_requested,
        !p.control.restart,
{
}

/// After a stop request, a child that is still running is killed within
/// one polling interval: if the monitor sleeps, the kill follows the end of
/// that sleep; if it is about to check, it checks, sleeps once, and kills.
pub proof fn lemma_stop_leads_to_kill(p: Process, check: World, wake: World)
    requires
        p.control.stop_requested,
        check.liveness == Liveness::Running,
    ensures
        p.monitor.pending == Action::Sleep ==> p.advanced(wake).monitor.pending == Action::Kill,
        p.monitor.pending == Action::Check ==> p.advanced(check).monitor.pending == Action::Sleep
            && p.advanced(check).advanced(wake).monitor.pending == Action::Kill,
{
}

/// Once restart is off and the child is gone, the supervisor settles:
/// after `steps_to_settle` steps of the monitor, four at most, and whatever
/// is written to the flags meanwhile, it has terminated and the process id
/// is `0`.
pub proof fn lemma_stop_settles(p: Process, steps: Seq<Step>)
    requires
        p.monitor.wf(),
        !p.control.restart,
        steps_valid(steps),
        child_is_gone(steps),
        advances(steps) >= p.steps_to_settle(),
    ensures
        run_through(p, steps).monitor.pending == Action::Finish,
        run_through(p, steps).monitor.pid == 0,
        p.steps_to_settle() <= 4,
    decreases steps.len(),
{
    if steps.len() > 0 {
        let rest = steps.drop_first();
        assert(steps[0].valid());
        assert(steps[0] is Advance ==> steps[0]->world.liveness != Liveness::Running);
        assert forall|i: int| 0 <= i < rest.len() implies (#[trigger] rest[i]).valid() by {
            assert(steps[i + 1].valid());
        }
        assert forall|i: int| 0 <= i < rest.len() && (#[trigger] rest[i]) is Advance implies rest[i]->world.liveness
            != Liveness::Running by {
            assert(steps[i + 1] is Advance);
        }
        lemma_stop_settles(p.stepped(steps[0]), rest);
    }
}

/// After a stop request the supervisor settles, provided only that a kill
/// works: after `steps_to_stop` steps of the monitor, six at most, it has
/// terminated and the process id is `0`. The child need not be gone
/// already, and a relaunch may be under way: the monitor sleeps at most
/// once, kills the child, finds it gone, and finishes.
pub proof fn lemma_stop_settles_if_kill_works(p: Process, killed: bool, steps: Seq<Step>)
    requires
        p.monitor.wf(),
        !p.control.restart,
        p.control.stop_requested,
        steps_valid(steps),
        kill_works(p, killed, steps),
        advances(steps) >= p.steps_to_stop(killed),
    ensures
        run_through(p, steps).monitor.pending == Action::Finish,
        run_through(p, steps).monitor.pid == 0,
        p.steps_to_stop(killed) <= 6,
    decreases steps.len(),
{
    if steps.len() > 0 {
        let rest = steps.drop_first();
        assert(steps[0].valid());
        assert forall|i: int| 0 <= i < rest.len() implies (#[trigger] rest[i]).valid() by {
            assert(steps[i + 1].valid());
        }
        lemma_stop_settles_if_kill_works(
            p.stepped(steps[0]),
            p.killed_after(killed, steps[0]),
            rest,
        );
    }
}

/// A stop is terminal. After a stop request, whatever phase the monitor is
/// in, even with a relaunch under way, and provided only that a kill works:
/// six steps of the monitor at most bring the process id to `0`, and
/// nothing that happens later, in `later`, makes it anything else.
pub proof fn lemma_stop_is_terminal(p: Process, steps: Seq<Step>, later: Seq<Step>)
    requires
        p.monitor.wf(),
        steps_valid(steps),
        kill_works(p.stopped(), false, steps),
        advances(steps) >= 6,
    ensures
        run_through(p.stopped(), steps).monitor.pid == 0,
        run_through(run_through(p.stopped(), steps), later).monitor.pid == 0,
{
    lemma_stop_settles_if_kill_works(p.stopped(), false, steps);
    lemma_terminated_is_final(run_through(p.stopped(), steps), later);
}

/// A stop takes precedence over a restart. Once a kill is requested, with
/// the flags written in the order of a stop request, no exit that the
/// monitor observes from then on is answered by a relaunch: unless a
/// relaunch was already decided, the monitor never comes to launch.
pub proof fn lemma_stop_takes_precedence(p: Process, steps: Seq<Step>)
    requires
        p.control.ordered(),
        p.control.stop_requested,
        p.monitor.pending != Action::Launch,
    ensures
        run_through(p, steps).monitor.pending != Action::Launch,
        !run_through(p, steps).control.restart,
        run_through(p, steps).control.stop_requested,
{
    lemma_no_relaunch_once_restart_is_off(p, steps);
    lemma_flags_only_move_towards_stop(p, steps);
}

/// A stopped supervisor ignores further writes to its flags, and stopping
/// once or many times leaves the same supervisor.
pub proof fn lemma_stop_is_idempotent(p: Process, n: nat, w: FlagWrite)
    requires
        n >= 1,
    ensures
        stopped_times(p, n) == p.stopped(),
        p.stopped().stopped() == p.stopped(),
        p.stopped().written(w) == p.stopped(),
    decreases n,
{
    reveal_with_fuel(stopped_times, 2);
    if n > 1 {
        lemma_stop_is_idempotent(p, (n - 1) as nat, w);
    }
}

} // verus!
