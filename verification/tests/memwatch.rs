use memwatch::config::Config;
use memwatch::config::ConfigError;
use memwatch::config::DEFAULT_THRESHOLD_GB;
use memwatch::memory::below_threshold;
use memwatch::memory::check_free_memory;
use memwatch::memory::free_memory_bytes;
use memwatch::memory::BYTES_PER_GB;
use memwatch::report::exit_report_line;
use memwatch::report::format_i32;
use memwatch::report::format_u64;
use memwatch::report::trigger_report_line;
use memwatch::supervisor::process_exit_code;
use memwatch::supervisor::Action;
use memwatch::supervisor::ExitOutcome;
use memwatch::supervisor::PollEvent;
use memwatch::supervisor::Supervisor;
use memwatch::supervisor::TerminationMode;

#[test]
fn threshold_comparison_is_strict() {
    // Exactly at the threshold is not below it.
    assert!(!below_threshold(2 * BYTES_PER_GB, 2));
    assert!(below_threshold(2 * BYTES_PER_GB - 1, 2));
    assert!(below_threshold(0, 1));
    assert!(!below_threshold(u64::MAX, 1));
}

#[test]
fn threshold_of_zero_never_triggers() {
    // Strict comparison: even a reading of exactly zero bytes is not below
    // zero bytes.
    assert!(!below_threshold(0, 0));
    assert!(!below_threshold(1, 0));
    assert!(!below_threshold(u64::MAX, 0));
    assert!(!check_free_memory(0));
}

#[test]
fn huge_threshold_does_not_overflow() {
    // The product 999999 GB and far larger ones are formed exactly.
    assert!(below_threshold(u64::MAX, u64::MAX));
    assert!(below_threshold(0, u64::MAX));
}

#[test]
fn sampler_reading_far_below_petabyte_threshold() {
    // Scenario: a threshold of 999999 GB on any real machine triggers on the
    // first sample.
    let free = free_memory_bytes();
    assert!(below_threshold(free, 999999));
    assert!(check_free_memory(999999));
}

#[test]
fn breach_sends_exactly_one_signal() {
    // Scenario: the child keeps running while free memory falls below the
    // threshold; the supervisor sleeps before the breach, signals once at
    // the breach, and acts on nothing afterwards.
    let mut s = Supervisor::new(2, TerminationMode::GracefulInterrupt);
    assert_eq!(s.step(PollEvent::Running(3 * BYTES_PER_GB)), Action::Sleep);
    assert_eq!(s.outcome(), None);
    assert_eq!(
        s.step(PollEvent::Running(BYTES_PER_GB)),
        Action::Signal(TerminationMode::GracefulInterrupt)
    );
    assert_eq!(
        s.outcome(),
        Some(ExitOutcome::Terminated(TerminationMode::GracefulInterrupt))
    );
    // Terminal state is absorbing: no duplicate termination action.
    assert_eq!(s.step(PollEvent::Running(0)), Action::Idle);
    assert_eq!(s.step(PollEvent::Exited(0)), Action::Idle);
    assert_eq!(
        s.outcome(),
        Some(ExitOutcome::Terminated(TerminationMode::GracefulInterrupt))
    );
}

#[test]
fn forced_kill_platform_signals_in_its_own_mode() {
    let mut s = Supervisor::new(1, TerminationMode::ForcedKill);
    assert_eq!(
        s.step(PollEvent::Running(0)),
        Action::Signal(TerminationMode::ForcedKill)
    );
    assert_eq!(
        s.outcome(),
        Some(ExitOutcome::Terminated(TerminationMode::ForcedKill))
    );
}

#[test]
fn natural_exit_is_reported_and_never_signaled() {
    // Scenario: the child exits on its own with status 0 before any breach;
    // the exit is detected by the liveness check, reported, and no signal
    // ever follows.
    let mut s = Supervisor::new(1, TerminationMode::GracefulInterrupt);
    assert_eq!(s.step(PollEvent::Exited(0)), Action::ReportExit(0));
    assert_eq!(s.outcome(), Some(ExitOutcome::Exited(0)));
    assert_eq!(s.step(PollEvent::Running(0)), Action::Idle);
    assert_eq!(s.outcome(), Some(ExitOutcome::Exited(0)));
}

#[test]
fn exit_after_healthy_ticks_is_still_natural() {
    let mut s = Supervisor::new(1, TerminationMode::GracefulInterrupt);
    assert_eq!(s.step(PollEvent::Running(8 * BYTES_PER_GB)), Action::Sleep);
    assert_eq!(s.step(PollEvent::Running(7 * BYTES_PER_GB)), Action::Sleep);
    assert_eq!(s.step(PollEvent::Exited(7)), Action::ReportExit(7));
    assert_eq!(s.outcome(), Some(ExitOutcome::Exited(7)));
}

#[test]
fn liveness_check_precedes_memory_check() {
    // An exit observed at a tick wins even when the reading at that tick
    // would also have triggered.
    let mut s = Supervisor::new(4, TerminationMode::GracefulInterrupt);
    assert_eq!(s.step(PollEvent::Exited(1)), Action::ReportExit(1));
    assert_eq!(s.outcome(), Some(ExitOutcome::Exited(1)));
}

#[test]
fn empty_command_is_rejected() {
    let r = Config::new(1, Vec::new());
    assert!(matches!(r, Err(ConfigError::EmptyCommand)));
}

#[test]
fn config_keeps_command_and_threshold() {
    let cmd = vec!["sleep".to_string(), "100".to_string()];
    let c = Config::new(999999, cmd).unwrap();
    assert_eq!(c.threshold_gb, 999999);
    assert_eq!(c.executable(), "sleep");
    assert_eq!(c.argument_count(), 1);
    assert_eq!(c.argument(0), "100");
}

#[test]
fn default_threshold_is_one_gigabyte() {
    assert_eq!(DEFAULT_THRESHOLD_GB, 1);
}

#[test]
fn spawn_failure_is_the_only_nonzero_exit() {
    // Scenario: an invalid command name fails to spawn; the supervisor's own
    // process then exits non-zero, and only then.
    assert_eq!(process_exit_code(false), 1);
    assert_eq!(process_exit_code(true), 0);
}

#[test]
fn decimal_rendering_is_exact() {
    assert_eq!(format_u64(0), "0");
    assert_eq!(format_u64(7), "7");
    assert_eq!(format_u64(10), "10");
    assert_eq!(format_u64(1234567890), "1234567890");
    assert_eq!(format_u64(u64::MAX), "18446744073709551615");
    assert_eq!(format_i32(0), "0");
    assert_eq!(format_i32(-1), "-1");
    assert_eq!(format_i32(i32::MIN), "-2147483648");
    assert_eq!(format_i32(i32::MAX), "2147483647");
}

#[test]
fn report_lines_are_exact() {
    assert_eq!(exit_report_line(0), "Child exited with status: 0");
    assert_eq!(exit_report_line(-9), "Child exited with status: -9");
    assert_eq!(
        trigger_report_line(1),
        "Free memory below 1 GB. Sending SIGINT to the child"
    );
    assert_eq!(
        trigger_report_line(999999),
        "Free memory below 999999 GB. Sending SIGINT to the child"
    );
}
