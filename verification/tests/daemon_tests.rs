use code_voice::daemon::{daemon_process_args, parse_pid, parse_u32_str, pid_to_raw, status_message};

#[test]
fn pid_file_with_newline_reads_back() {
    assert_eq!(parse_pid("12345\n"), Some(12345));
    assert_eq!(parse_pid("  42  "), Some(42));
    assert_eq!(parse_pid("2147483647"), Some(i32::MAX as u32));
}

#[test]
fn invalid_pid_files() {
    assert_eq!(parse_pid(""), None);
    assert_eq!(parse_pid("\n"), None);
    assert_eq!(parse_pid("abc"), None);
    assert_eq!(parse_pid("12 34"), None);
    assert_eq!(parse_pid("-1"), None);
    assert_eq!(parse_pid("4294967296"), None);
    assert_eq!(parse_pid("0"), None);
    assert_eq!(parse_pid("4294967295"), None);
    assert_eq!(parse_pid("2147483648"), None);
    assert_eq!(parse_pid("99999999999999999999"), None);
}

#[test]
fn u32_parse_follows_from_str() {
    for s in ["0", "+7", "007", "+", "", "-0", "1_000", "65536", "4294967295", "4294967296", " 1"] {
        assert_eq!(parse_u32_str(s), s.parse::<u32>().ok(), "{:?}", s);
    }
}

#[test]
fn pid_as_signal_target() {
    assert_eq!(pid_to_raw(1234), 1234);
    assert_eq!(pid_to_raw(i32::MAX as u32), i32::MAX);
}

#[test]
fn status_messages() {
    assert_eq!(status_message(Some("4321\n")), "Daemon is running (PID: 4321)");
    assert_eq!(status_message(None), "Daemon is not running");
}

#[test]
fn detached_process_arguments() {
    assert_eq!(
        daemon_process_args("base", "ctrl+shift+space"),
        vec!["start", "--foreground", "--model", "base", "--hotkey", "ctrl+shift+space"]
    );
}

use code_voice::daemon::{running_check, start_allowed, stop_target, DaemonError, RunningCheck};

#[test]
fn running_check_steps() {
    assert_eq!(running_check(None), RunningCheck::NotRunning);
    assert_eq!(running_check(Some("garbage")), RunningCheck::RemoveStaleFile);
    assert_eq!(running_check(Some("77\n")), RunningCheck::Probe(77));
    assert_eq!(running_check(Some("0")), RunningCheck::RemoveStaleFile);
    assert_eq!(stop_target(Some("4294967295")), Err(DaemonError::InvalidPid));
}

#[test]
fn stop_targets() {
    assert_eq!(stop_target(None), Err(DaemonError::NotRunning));
    assert_eq!(stop_target(Some("x")), Err(DaemonError::InvalidPid));
    assert_eq!(stop_target(Some(" 9 ")), Ok(9));
    assert_eq!(DaemonError::NotRunning.message(), "Daemon is not running (no PID file found)");
    assert_eq!(DaemonError::InvalidPid.message(), "Invalid PID in pid file");
}

#[test]
fn start_refused_while_running() {
    assert_eq!(start_allowed(true), Err(DaemonError::AlreadyRunning));
    assert_eq!(
        DaemonError::AlreadyRunning.message(),
        "Daemon is already running. Use 'stop' command first."
    );
    assert_eq!(start_allowed(false), Ok(()));
}

use code_voice::daemon::{next_stop_action, StopAction, StopEvent};

#[test]
fn stop_escalates_only_when_needed() {
    assert_eq!(next_stop_action(StopEvent::Begin), StopAction::SendTerm);
    assert_eq!(next_stop_action(StopEvent::TermSent), StopAction::WaitSeconds(2));
    assert_eq!(next_stop_action(StopEvent::Waited), StopAction::Probe);
    assert_eq!(next_stop_action(StopEvent::Probed(true)), StopAction::SendKill);
    assert_eq!(next_stop_action(StopEvent::Probed(false)), StopAction::RemovePidFile);
    assert_eq!(next_stop_action(StopEvent::KillSent), StopAction::RemovePidFile);
    assert_eq!(next_stop_action(StopEvent::PidFileRemoved), StopAction::Done);
}

use code_voice::daemon::{after_probe, ProbeOutcome};

#[test]
fn probe_outcomes() {
    assert_eq!(after_probe(true), ProbeOutcome::Running);
    assert_eq!(after_probe(false), ProbeOutcome::Gone);
}
