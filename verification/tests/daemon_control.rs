use ironpass::cli::{daemon_first_step, daemon_outcome, DaemonAction, DaemonStep};

fn done(s: DaemonStep) -> Option<&'static str> {
    match s {
        DaemonStep::Done(m) => Some(m),
        _ => None,
    }
}

fn fail(s: DaemonStep) -> Option<&'static str> {
    match s {
        DaemonStep::Fail(m) => Some(m),
        _ => None,
    }
}

#[test]
fn starting_a_running_daemon_only_reports_it() {
    assert_eq!(done(daemon_first_step(DaemonAction::Start, true)), Some("ironpassd is already running"));
    assert!(matches!(daemon_first_step(DaemonAction::Start, false), DaemonStep::Spawn));
    assert_eq!(done(daemon_outcome(DaemonAction::Start, true)), Some("ironpassd is healthy"));
    assert_eq!(fail(daemon_outcome(DaemonAction::Start, false)), Some("ironpassd failed to start"));
}

#[test]
fn stopping_a_stopped_daemon_only_reports_it() {
    assert_eq!(done(daemon_first_step(DaemonAction::Stop, false)), Some("ironpassd is not running"));
    assert!(matches!(daemon_first_step(DaemonAction::Stop, true), DaemonStep::RequestStop));
    assert_eq!(done(daemon_outcome(DaemonAction::Stop, false)), Some("ironpassd stopped"));
    assert_eq!(fail(daemon_outcome(DaemonAction::Stop, true)), Some("Failed to stop ironpassd"));
}

#[test]
fn status_reports_the_health_check() {
    assert_eq!(done(daemon_first_step(DaemonAction::Status, true)), Some("ironpassd is running"));
    assert_eq!(done(daemon_first_step(DaemonAction::Status, false)), Some("ironpassd is not running"));
}
