use procwatch::monitor::{Action, Event, Launch, Liveness, Monitor, Phase};

fn status(liveness: Liveness) -> Event {
    Event::Status { liveness }
}

#[test]
fn new_monitor_checks_liveness_first() {
    let m = Monitor::new(41);
    assert_eq!(m.pid(), 41);
    assert_eq!(m.pending(), Action::Check);
    assert_eq!(m.phase(), Phase::Alive);
    assert!(!m.is_terminated());
    assert!(!m.relaunch_failed());
}

#[test]
fn running_child_means_sleep_then_check_again() {
    let mut m = Monitor::new(41);
    assert_eq!(m.step(status(Liveness::Running)), Action::Sleep);
    assert_eq!(m.phase(), Phase::Alive);
    assert_eq!(m.step(Event::Woke { stop_requested: false }), Action::Check);
    assert_eq!(m.phase(), Phase::Alive);
    assert_eq!(m.pid(), 41);
}

#[test]
fn stop_flag_after_sleep_means_kill_and_stay_alive() {
    let mut m = Monitor::new(41);
    assert_eq!(m.step(status(Liveness::Running)), Action::Sleep);
    assert_eq!(m.step(Event::Woke { stop_requested: true }), Action::Kill);
    assert_eq!(m.phase(), Phase::Alive);
    assert_eq!(m.step(Event::KillIssued), Action::Check);
    assert_eq!(m.phase(), Phase::Alive);
    assert_eq!(m.pid(), 41);
}

#[test]
fn exit_is_observed_and_restart_flag_is_read() {
    let mut m = Monitor::new(41);
    assert_eq!(m.step(status(Liveness::Exited)), Action::ReadRestart);
    assert_eq!(m.phase(), Phase::ExitObserved);
    assert_eq!(m.pid(), 41);
}

#[test]
fn failed_liveness_query_counts_as_exit() {
    let mut m = Monitor::new(41);
    assert_eq!(m.step(status(Liveness::QueryFailed)), Action::ReadRestart);
    assert_eq!(m.phase(), Phase::ExitObserved);
}

#[test]
fn restart_enabled_leads_to_relaunch() {
    let mut m = Monitor::new(41);
    m.step(status(Liveness::Exited));
    assert_eq!(m.step(Event::Restart { enabled: true }), Action::Launch);
    assert_eq!(m.phase(), Phase::Relaunching);
    let next: Action = m.step(Event::Relaunch { outcome: Launch::Started { pid: 77 } });
    assert_eq!(next, Action::Check);
    assert_eq!(m.phase(), Phase::Alive);
    assert_eq!(m.pid(), 77);
    assert_eq!(m, Monitor { pid: 77, pending: Action::Check, relaunch_failed: false });
}

#[test]
fn restart_disabled_leads_to_termination() {
    let mut m = Monitor::new(41);
    m.step(status(Liveness::Exited));
    assert_eq!(m.step(Event::Restart { enabled: false }), Action::Finish);
    assert_eq!(m.phase(), Phase::Terminated);
    assert!(m.is_terminated());
    assert_eq!(m.pid(), 0);
    assert!(!m.relaunch_failed());
}

#[test]
fn failed_relaunch_terminates_and_is_recorded() {
    let mut m = Monitor::new(41);
    m.step(status(Liveness::Exited));
    m.step(Event::Restart { enabled: true });
    assert_eq!(m.step(Event::Relaunch { outcome: Launch::Failed }), Action::Finish);
    assert!(m.is_terminated());
    assert_eq!(m.pid(), 0);
    assert!(m.relaunch_failed());
}

#[test]
fn terminated_monitor_ignores_everything() {
    let mut m = Monitor::new(41);
    m.step(status(Liveness::Exited));
    m.step(Event::Restart { enabled: false });
    let done = m;
    let events = vec![
        status(Liveness::Running),
        status(Liveness::Exited),
        Event::Woke { stop_requested: true },
        Event::KillIssued,
        Event::Restart { enabled: true },
        Event::Relaunch { outcome: Launch::Started { pid: 9 } },
        Event::Relaunch { outcome: Launch::Failed },
    ];
    for e in events {
        assert_eq!(m.step(e), Action::Finish);
        assert_eq!(m, done);
        assert_eq!(m.pid(), 0);
    }
}

#[test]
fn event_that_answers_nothing_pending_is_ignored() {
    let mut m = Monitor::new(41);
    let before = m;
    assert_eq!(m.step(Event::Restart { enabled: false }), Action::Check);
    assert_eq!(m, before);
    assert_eq!(m.step(Event::Relaunch { outcome: Launch::Started { pid: 9 } }), Action::Check);
    assert_eq!(m, before);
    assert_eq!(m.step(Event::KillIssued), Action::Check);
    assert_eq!(m, before);
    m.step(status(Liveness::Running));
    assert_eq!(m.step(status(Liveness::Exited)), Action::Sleep);
    assert_eq!(m.pid(), 41);
}

#[test]
fn polling_interval_is_half_a_second() {
    assert_eq!(procwatch::monitor::POLL_INTERVAL_MS, 500);
}
