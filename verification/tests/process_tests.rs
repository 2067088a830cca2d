use ollama_tui::ollama::process::{
    Liveness, ProcessError, StartAction, StopAction, StopEvent, SupervisedProcess,
    TerminationStrategy, MAX_POLLS, POLL_INTERVAL_MS,
};
use ollama_tui::ollama::OllamaProcess;

/// A process as the operating system would show it to whoever drives a
/// termination.
struct FakeProcess {
    /// The liveness check from which on the process is gone; `None` for a
    /// process that never exits by itself.
    exits_at_check: Option<u32>,
    terminate_fails: bool,
    check_fails_at: Option<u32>,
    kill_fails: bool,
    terminates: u32,
    checks: u32,
    slept_ms: u64,
    kills: u32,
    reaps: u32,
}

impl FakeProcess {
    fn new() -> Self {
        FakeProcess {
            exits_at_check: None,
            terminate_fails: false,
            check_fails_at: None,
            kill_fails: false,
            terminates: 0,
            checks: 0,
            slept_ms: 0,
            kills: 0,
            reaps: 0,
        }
    }

    fn perform(&mut self, action: StopAction) -> StopEvent {
        match action {
            StopAction::SendTerminate => {
                self.terminates += 1;
                if self.terminate_fails {
                    StopEvent::TerminateFailed
                } else {
                    StopEvent::TerminateSent
                }
            }
            StopAction::CheckExit => {
                self.checks += 1;
                if self.check_fails_at == Some(self.checks) {
                    StopEvent::CheckFailed
                } else if self.exits_at_check.map_or(false, |at| self.checks >= at) {
                    StopEvent::Exited
                } else {
                    StopEvent::StillRunning
                }
            }
            StopAction::Sleep => {
                self.slept_ms += POLL_INTERVAL_MS;
                StopEvent::Slept
            }
            StopAction::ForceKill => {
                self.kills += 1;
                if self.kill_fails {
                    StopEvent::KillFailed
                } else {
                    StopEvent::KillSent
                }
            }
            StopAction::Reap => {
                self.reaps += 1;
                StopEvent::Reaped
            }
            StopAction::Succeed | StopAction::Fail => unreachable!(),
        }
    }
}

/// Drives a stop to its end, as the caller of the library does.
fn drive(
    supervisor: &mut OllamaProcess,
    strategy: TerminationStrategy,
    process: &mut FakeProcess,
) -> Result<(), ProcessError> {
    let mut termination = supervisor.stop(strategy);
    let mut action = termination.action();
    let mut steps = 0;
    loop {
        assert_eq!(termination.result().is_some(), matches!(action, StopAction::Succeed | StopAction::Fail));
        match action {
            StopAction::Succeed => return Ok(()),
            StopAction::Fail => return Err(ProcessError::KillFailed),
            other => {
                assert!(termination.process().is_some());
                let event = process.perform(other);
                action = termination.step(event);
            }
        }
        steps += 1;
        assert!(steps < 1000);
    }
}

fn running_supervisor(pid: u32) -> OllamaProcess {
    let mut supervisor = OllamaProcess::new();
    assert_eq!(supervisor.start(), StartAction::Spawn);
    assert!(supervisor.start_spawned(Ok(pid)).is_ok());
    supervisor
}

#[test]
fn a_new_supervisor_holds_nothing() {
    let mut supervisor = OllamaProcess::new();
    assert_eq!(supervisor.pid(), None);
    assert!(!supervisor.is_running(Liveness::Running));
    assert_eq!(supervisor.teardown(), None);
    assert_eq!(OllamaProcess::default().pid(), None);
}

#[test]
fn start_launches_and_stores_the_process() {
    let mut supervisor = OllamaProcess::new();
    assert_eq!(supervisor.start(), StartAction::Spawn);
    assert!(supervisor.start_spawned(Ok(4242)).is_ok());
    assert_eq!(supervisor.pid(), Some(4242));
}

#[test]
fn start_twice_while_alive_launches_once() {
    let mut supervisor = running_supervisor(4242);
    assert_eq!(supervisor.start(), StartAction::CheckExit);
    assert_eq!(supervisor.start_checked(Liveness::Running), StartAction::AlreadyRunning);
    assert_eq!(supervisor.pid(), Some(4242));
}

#[test]
fn start_replaces_a_stale_process() {
    for liveness in [Liveness::Exited, Liveness::Unknown] {
        let mut supervisor = running_supervisor(1);
        assert_eq!(supervisor.start(), StartAction::CheckExit);
        assert_eq!(supervisor.start_checked(liveness), StartAction::Spawn);
        assert!(supervisor.start_spawned(Ok(2)).is_ok());
        assert_eq!(supervisor.pid(), Some(2));
    }
    let supervisor = OllamaProcess::new();
    assert_eq!(supervisor.start_checked(Liveness::Running), StartAction::Spawn);
}

#[test]
fn a_failed_launch_is_reported_and_leaves_the_slot() {
    let mut supervisor = OllamaProcess::new();
    let result = supervisor.start_spawned(Err("No such file or directory (os error 2)".to_string()));
    let error = result.unwrap_err();
    assert!(matches!(error, ProcessError::SpawnFailed(_)));
    assert_eq!(
        error.message(),
        "Failed to start Ollama: No such file or directory (os error 2). Is Ollama installed?"
    );
    assert_eq!(supervisor.pid(), None);
    let mut supervisor = running_supervisor(7);
    assert!(supervisor.start_spawned(Err("busy".to_string())).is_err());
    assert_eq!(supervisor.pid(), Some(7));
    assert_eq!(ProcessError::KillFailed.message(), "Failed to kill Ollama process");
}

#[test]
fn stop_of_an_empty_slot_succeeds_without_a_signal() {
    for strategy in [TerminationStrategy::SignalEscalation, TerminationStrategy::DirectKill] {
        let mut supervisor = OllamaProcess::new();
        let mut termination = supervisor.stop(strategy);
        assert_eq!(termination.action(), StopAction::Succeed);
        assert_eq!(termination.process(), None);
        assert!(matches!(termination.result(), Some(Ok(()))));
        // Nothing that comes in afterwards makes it ask for anything.
        for event in [StopEvent::TerminateFailed, StopEvent::StillRunning, StopEvent::KillFailed] {
            assert_eq!(termination.step(event), StopAction::Succeed);
        }
        let mut process = FakeProcess::new();
        assert!(drive(&mut supervisor, strategy, &mut process).is_ok());
        assert_eq!(process.terminates + process.kills + process.checks + process.reaps, 0);
    }
}

#[test]
fn stop_empties_the_slot_at_once() {
    let mut supervisor = running_supervisor(9);
    let termination = supervisor.stop(TerminationStrategy::SignalEscalation);
    assert_eq!(termination.process(), Some(SupervisedProcess { pid: 9 }));
    assert_eq!(termination.action(), StopAction::SendTerminate);
    assert!(termination.result().is_none());
    assert_eq!(supervisor.pid(), None);
    assert_eq!(supervisor.start(), StartAction::Spawn);
}

#[test]
fn a_process_that_exits_in_time_is_not_killed() {
    for exits_at in [1, 2, 25, 50] {
        let mut supervisor = running_supervisor(9);
        let mut process = FakeProcess::new();
        process.exits_at_check = Some(exits_at);
        assert!(drive(&mut supervisor, TerminationStrategy::SignalEscalation, &mut process).is_ok());
        assert_eq!(process.terminates, 1);
        assert_eq!(process.checks, exits_at);
        assert_eq!(process.slept_ms, (exits_at as u64 - 1) * 100);
        assert_eq!(process.kills, 0);
        assert_eq!(process.reaps, 0);
    }
}

#[test]
fn a_stubborn_process_is_killed_once_after_five_seconds() {
    let mut supervisor = running_supervisor(9);
    let mut process = FakeProcess::new();
    assert!(drive(&mut supervisor, TerminationStrategy::SignalEscalation, &mut process).is_ok());
    assert_eq!(process.terminates, 1);
    assert_eq!(process.checks, 50);
    assert_eq!(process.slept_ms, 5000);
    assert_eq!(process.kills, 1);
    assert_eq!(process.reaps, 1);
    assert_eq!(MAX_POLLS, 50);
    assert_eq!(POLL_INTERVAL_MS, 100);
    assert_eq!(supervisor.pid(), None);
}

#[test]
fn a_process_that_would_exit_after_the_window_is_still_killed() {
    let mut supervisor = running_supervisor(9);
    let mut process = FakeProcess::new();
    process.exits_at_check = Some(51);
    assert!(drive(&mut supervisor, TerminationStrategy::SignalEscalation, &mut process).is_ok());
    assert_eq!(process.checks, 50);
    assert_eq!(process.kills, 1);
}

#[test]
fn an_undelivered_graceful_signal_falls_back_to_the_kill_at_once() {
    for kill_fails in [false, true] {
        let mut supervisor = running_supervisor(9);
        let mut process = FakeProcess::new();
        process.terminate_fails = true;
        process.kill_fails = kill_fails;
        assert!(drive(&mut supervisor, TerminationStrategy::SignalEscalation, &mut process).is_ok());
        assert_eq!(process.terminates, 1);
        assert_eq!(process.checks, 0);
        assert_eq!(process.slept_ms, 0);
        assert_eq!(process.kills, 1);
        assert_eq!(process.reaps, 1);
    }
}

#[test]
fn a_failed_liveness_check_ends_the_window() {
    let mut supervisor = running_supervisor(9);
    let mut process = FakeProcess::new();
    process.check_fails_at = Some(3);
    assert!(drive(&mut supervisor, TerminationStrategy::SignalEscalation, &mut process).is_ok());
    assert_eq!(process.checks, 3);
    assert_eq!(process.slept_ms, 200);
    assert_eq!(process.kills, 1);
    assert_eq!(process.reaps, 1);
}

#[test]
fn an_undelivered_kill_after_the_window_is_not_an_error() {
    let mut supervisor = running_supervisor(9);
    let mut process = FakeProcess::new();
    process.kill_fails = true;
    assert!(drive(&mut supervisor, TerminationStrategy::SignalEscalation, &mut process).is_ok());
    assert_eq!(process.kills, 1);
    assert_eq!(process.reaps, 0);
}

#[test]
fn direct_kill_skips_the_graceful_phase() {
    let mut supervisor = running_supervisor(9);
    let mut process = FakeProcess::new();
    assert!(drive(&mut supervisor, TerminationStrategy::DirectKill, &mut process).is_ok());
    assert_eq!(process.terminates, 0);
    assert_eq!(process.checks, 0);
    assert_eq!(process.slept_ms, 0);
    assert_eq!(process.kills, 1);
    assert_eq!(process.reaps, 1);
    let mut supervisor = running_supervisor(9);
    let mut process = FakeProcess::new();
    process.kill_fails = true;
    let result = drive(&mut supervisor, TerminationStrategy::DirectKill, &mut process);
    assert!(matches!(result, Err(ProcessError::KillFailed)));
    assert_eq!(process.kills, 1);
    assert_eq!(process.reaps, 0);
}

#[test]
fn an_answer_that_was_not_asked_for_changes_nothing() {
    let mut supervisor = running_supervisor(9);
    let mut termination = supervisor.stop(TerminationStrategy::SignalEscalation);
    assert_eq!(termination.step(StopEvent::Reaped), StopAction::SendTerminate);
    assert_eq!(termination.step(StopEvent::Exited), StopAction::SendTerminate);
    assert_eq!(termination.step(StopEvent::TerminateSent), StopAction::CheckExit);
    assert_eq!(termination.step(StopEvent::Slept), StopAction::CheckExit);
    assert_eq!(termination.step(StopEvent::KillSent), StopAction::CheckExit);
    assert_eq!(termination.step(StopEvent::StillRunning), StopAction::Sleep);
    assert_eq!(termination.step(StopEvent::StillRunning), StopAction::Sleep);
}

#[test]
fn is_running_follows_the_liveness_of_the_held_process() {
    let mut supervisor = running_supervisor(5);
    assert!(supervisor.is_running(Liveness::Running));
    assert_eq!(supervisor.pid(), Some(5));
    assert!(!supervisor.is_running(Liveness::Unknown));
    assert_eq!(supervisor.pid(), Some(5));
    assert!(!supervisor.is_running(Liveness::Exited));
    assert_eq!(supervisor.pid(), None);
    assert!(!supervisor.is_running(Liveness::Running));
}

#[test]
fn teardown_hands_out_the_held_process() {
    let mut supervisor = running_supervisor(5);
    assert_eq!(supervisor.teardown(), Some(SupervisedProcess { pid: 5 }));
    assert_eq!(supervisor.pid(), None);
    assert_eq!(supervisor.teardown(), None);
}
