//! The supervisor of the inference-server process: one slot that holds at
//! most one child, and the decisions of starting it and of stopping it, first
//! gracefully and then by force.
//!
//! The supervisor decides and the caller acts: each operation names the
//! action to take next, the caller performs it on the operating system and
//! reports what came of it.

use vstd::prelude::*;
use vstd::string::StringExecFns;

verus! {

/// The pause between two liveness checks of the graceful window, in
/// milliseconds.
pub const POLL_INTERVAL_MS: u64 = 100;

/// The number of liveness checks of the graceful window.
pub const MAX_POLLS: u32 = 50;

/// The length of the graceful window in milliseconds.
pub open spec fn graceful_window_ms() -> int {
    MAX_POLLS * POLL_INTERVAL_MS
}

/// A child process that the supervisor spawned.
#[derive(Debug, Clone, Copy, PartialEq, Eq, Structural)]
pub struct SupervisedProcess {
    /// The identifier that the operating system gave the process.
    pub pid: u32,
}

/// What a liveness check that does not block found.
#[derive(Debug, Clone, Copy, PartialEq, Eq, Structural)]
pub enum Liveness {
    /// The process has not exited.
    Running,
    /// The process has exited.
    Exited,
    /// The check itself failed.
    Unknown,
}

/// How a process is made to end on this platform.
#[derive(Debug, Clone, Copy, PartialEq, Eq, Structural)]
pub enum TerminationStrategy {
    /// A graceful signal and a bounded wait first, a forced kill after it.
    SignalEscalation,
    /// A forced kill at once, where the platform has no graceful signal.
    DirectKill,
}

/// Why the supervisor could not do what was asked.
#[derive(Debug)]
pub enum ProcessError {
    /// The server could not be launched; the text says what the operating
    /// system reported.
    SpawnFailed(String),
    /// The forced kill could not be delivered.
    KillFailed,
}

impl ProcessError {
    /// What to tell the user.
    pub open spec fn text(self) -> Seq<char> {
        match self {
            ProcessError::SpawnFailed(cause) => "Failed to start Ollama: "@ + cause@
                + ". Is Ollama installed?"@,
            ProcessError::KillFailed => "Failed to kill Ollama process"@,
        }
    }

    /// What to tell the user.
    pub fn message(&self) -> (message: String)
        ensures
            message@ == self.text(),
    {
        match self {
            ProcessError::SpawnFailed(cause) => String::from_str("Failed to start Ollama: ").concat(
                cause.as_str(),
            ).concat(". Is Ollama installed?"),
            ProcessError::KillFailed => String::from_str("Failed to kill Ollama process"),
        }
    }
}

/// What the caller of `start` does next.
#[derive(Debug, Clone, Copy, PartialEq, Eq, Structural)]
pub enum StartAction {
    /// Check, without blocking, whether the held process has exited.
    CheckExit,
    /// Launch the server with its output discarded.
    Spawn,
    /// Nothing: the held process is alive, and the start has succeeded.
    AlreadyRunning,
}

/// What the caller of `stop` does next.
#[derive(Debug, Clone, Copy, PartialEq, Eq, Structural)]
pub enum StopAction {
    /// Send the graceful-termination signal.
    SendTerminate,
    /// Check, without blocking, whether the process has exited.
    CheckExit,
    /// Pause for `POLL_INTERVAL_MS`.
    Sleep,
    /// Send the forced-kill signal.
    ForceKill,
    /// Block until the process has exited.
    Reap,
    /// Report success to whoever asked for the stop.
    Succeed,
    /// Report that the forced kill could not be delivered.
    Fail,
}

/// What came of the action that a termination asked for.
#[derive(Debug, Clone, Copy, PartialEq, Eq, Structural)]
pub enum StopEvent {
    /// The graceful signal was delivered.
    TerminateSent,
    /// The graceful signal could not be delivered.
    TerminateFailed,
    /// The liveness check found the process gone.
    Exited,
    /// The liveness check found the process alive.
    StillRunning,
    /// The liveness check itself failed.
    CheckFailed,
    /// The pause is over.
    Slept,
    /// The forced kill was delivered.
    KillSent,
    /// The forced kill could not be delivered.
    KillFailed,
    /// The process has exited and was collected.
    Reaped,
}

/// Where a termination stands.
#[derive(Debug, Clone, Copy, PartialEq, Eq, Structural)]
pub enum StopPhase {
    /// The graceful signal is to be sent.
    Signalling,
    /// A liveness check of the graceful window is to be made; `polls` checks
    /// came before it, and each found the process alive.
    Polling { polls: u32 },
    /// The pause after the check number `polls` is to be made.
    Pausing { polls: u32 },
    /// The graceful window is over, or a check failed: the forced kill is to
    /// be sent.
    Escalating,
    /// The graceful signal could not be delivered: the forced kill is to be
    /// sent in its place.
    FallingBack,
    /// The platform has no graceful signal: the forced kill is to be sent.
    Killing,
    /// The process is to be collected.
    Reaping,
    /// The stop has succeeded.
    Stopped,
    /// The stop has failed: the forced kill could not be delivered.
    Failed,
}

impl StopPhase {
    /// The action that the phase waits for.
    pub open spec fn pending(self) -> StopAction {
        match self {
            StopPhase::Signalling => StopAction::SendTerminate,
            StopPhase::Polling { .. } => StopAction::CheckExit,
            StopPhase::Pausing { .. } => StopAction::Sleep,
            StopPhase::Escalating => StopAction::ForceKill,
            StopPhase::FallingBack => StopAction::ForceKill,
            StopPhase::Killing => StopAction::ForceKill,
            StopPhase::Reaping => StopAction::Reap,
            StopPhase::Stopped => StopAction::Succeed,
            StopPhase::Failed => StopAction::Fail,
        }
    }

    /// Whether the stop is over.
    pub open spec fn is_final(self) -> bool {
        self == StopPhase::Stopped || self == StopPhase::Failed
    }

    /// The phase after `event`. An event that the pending action cannot
    /// give leaves the phase as it is.
    pub open spec fn after(self, event: StopEvent) -> StopPhase {
        match (self, event) {
            (StopPhase::Signalling, StopEvent::TerminateSent) => StopPhase::Polling { polls: 0 },
            (StopPhase::Signalling, StopEvent::TerminateFailed) => StopPhase::FallingBack,
            (StopPhase::Polling { polls }, StopEvent::Exited) => StopPhase::Stopped,
            (StopPhase::Polling { polls }, StopEvent::StillRunning) => StopPhase::Pausing {
                polls: (polls + 1) as u32,
            },
            (StopPhase::Polling { polls }, StopEvent::CheckFailed) => StopPhase::Escalating,
            (StopPhase::Pausing { polls }, StopEvent::Slept) => if polls < MAX_POLLS {
                StopPhase::Polling { polls }
            } else {
                StopPhase::Escalating
            },
            (StopPhase::Escalating, StopEvent::KillSent) => StopPhase::Reaping,
            (StopPhase::Escalating, StopEvent::KillFailed) => StopPhase::Stopped,
            (StopPhase::FallingBack, StopEvent::KillSent) => StopPhase::Reaping,
            (StopPhase::FallingBack, StopEvent::KillFailed) => StopPhase::Reaping,
            (StopPhase::Killing, StopEvent::KillSent) => StopPhase::Reaping,
            (StopPhase::Killing, StopEvent::KillFailed) => StopPhase::Failed,
            (StopPhase::Reaping, StopEvent::Reaped) => StopPhase::Stopped,
            _ => self,
        }
    }

    /// Whether the phase keeps the bound on its count of checks.
    pub open spec fn well_formed(self) -> bool {
        match self {
            StopPhase::Polling { polls } => polls < MAX_POLLS,
            StopPhase::Pausing { polls } => 1 <= polls <= MAX_POLLS,
            _ => true,
        }
    }
}

/// The phase in which the stop of a slot begins: over at once for an empty
/// slot; else by the platform's strategy.
pub open spec fn first_phase(
    slot: Option<SupervisedProcess>,
    strategy: TerminationStrategy,
) -> StopPhase {
    match slot {
        None => StopPhase::Stopped,
        Some(_) => match strategy {
            TerminationStrategy::SignalEscalation => StopPhase::Signalling,
            TerminationStrategy::DirectKill => StopPhase::Killing,
        },
    }
}

/// The stop of one process, owned by whoever asked for it.
#[derive(Debug)]
pub struct Termination {
    process: Option<SupervisedProcess>,
    phase: StopPhase,
}

impl Termination {
    #[verifier::type_invariant]
    spec fn keeps_poll_bound(self) -> bool {
        self.phase.well_formed()
    }

    /// Where the termination stands.
    pub closed spec fn phase(self) -> StopPhase {
        self.phase
    }

    /// The process that is being stopped; `None` where the slot was empty.
    pub closed spec fn target(self) -> Option<SupervisedProcess> {
        self.process
    }

    /// The process to act on, if there is one.
    pub fn process(&self) -> (process: Option<SupervisedProcess>)
        ensures
            process == self.target(),
    {
        self.process
    }

    /// The action to take now.
    pub fn action(&self) -> (action: StopAction)
        ensures
            action == self.phase().pending(),
    {
        match self.phase {
            StopPhase::Signalling => StopAction::SendTerminate,
            StopPhase::Polling { .. } => StopAction::CheckExit,
            StopPhase::Pausing { .. } => StopAction::Sleep,
            StopPhase::Escalating => StopAction::ForceKill,
            StopPhase::FallingBack => StopAction::ForceKill,
            StopPhase::Killing => StopAction::ForceKill,
            StopPhase::Reaping => StopAction::Reap,
            StopPhase::Stopped => StopAction::Succeed,
            StopPhase::Failed => StopAction::Fail,
        }
    }

    /// Takes in what came of the pending action, and names the next one.
    pub fn step(&mut self, event: StopEvent) -> (action: StopAction)
        ensures
            final(self).phase() == old(self).phase().after(event),
            final(self).target() == old(self).target(),
            action == final(self).phase().pending(),
    {
        proof {
            use_type_invariant(&*self);
        }
        let next = match (self.phase, event) {
            (StopPhase::Signalling, StopEvent::TerminateSent) => StopPhase::Polling { polls: 0 },
            (StopPhase::Signalling, StopEvent::TerminateFailed) => StopPhase::FallingBack,
            (StopPhase::Polling { polls }, StopEvent::Exited) => StopPhase::Stopped,
            (StopPhase::Polling { polls }, StopEvent::StillRunning) => StopPhase::Pausing {
                polls: polls + 1,
            },
            (StopPhase::Polling { polls }, StopEvent::CheckFailed) => StopPhase::Escalating,
            (StopPhase::Pausing { polls }, StopEvent::Slept) => if polls < MAX_POLLS {
                StopPhase::Polling { polls }
            } else {
                StopPhase::Escalating
            },
            (StopPhase::Escalating, StopEvent::KillSent) => StopPhase::Reaping,
            (StopPhase::Escalating, StopEvent::KillFailed) => StopPhase::Stopped,
            (StopPhase::FallingBack, StopEvent::KillSent) => StopPhase::Reaping,
            (StopPhase::FallingBack, StopEvent::KillFailed) => StopPhase::Reaping,
            (StopPhase::Killing, StopEvent::KillSent) => StopPhase::Reaping,
            (StopPhase::Killing, StopEvent::KillFailed) => StopPhase::Failed,
            (StopPhase::Reaping, StopEvent::Reaped) => StopPhase::Stopped,
            (phase, _) => phase,
        };
        self.phase = next;
        self.action()
    }

    /// The result of the stop, once it is over.
    pub fn result(&self) -> (result: Option<Result<(), ProcessError>>)
        ensures
            match self.phase() {
                StopPhase::Stopped => result matches Some(Ok(_)),
                StopPhase::Failed => result matches Some(Err(ProcessError::KillFailed)),
                _ => result is None,
            },
    {
        match self.phase {
            StopPhase::Stopped => Some(Ok(())),
            StopPhase::Failed => Some(Err(ProcessError::KillFailed)),
            _ => None,
        }
    }
}

/// The action with which a start begins: a liveness check where the slot
/// holds a process, a launch where it holds none.
pub open spec fn first_start_action(slot: Option<SupervisedProcess>) -> StartAction {
    match slot {
        Some(_) => StartAction::CheckExit,
        None => StartAction::Spawn,
    }
}

/// The action of a start after the liveness check: nothing where the held
/// process is alive, a launch in every other case.
pub open spec fn start_action_after_check(
    slot: Option<SupervisedProcess>,
    liveness: Liveness,
) -> StartAction {
    if slot is Some && liveness == Liveness::Running {
        StartAction::AlreadyRunning
    } else {
        StartAction::Spawn
    }
}

/// Whether the held process is alive, given what the liveness check found.
pub open spec fn alive(slot: Option<SupervisedProcess>, liveness: Liveness) -> bool {
    slot is Some && liveness == Liveness::Running
}

/// The slot after a liveness check: emptied where the process has exited.
pub open spec fn slot_after_check(
    slot: Option<SupervisedProcess>,
    liveness: Liveness,
) -> Option<SupervisedProcess> {
    if liveness == Liveness::Exited {
        None
    } else {
        slot
    }
}

/// Manages the server process: the slot that holds the spawned child, if
/// there is one.
#[derive(Debug)]
pub struct OllamaProcess {
    child: Option<SupervisedProcess>,
}

impl OllamaProcess {
    /// The process in the slot.
    pub closed spec fn slot(self) -> Option<SupervisedProcess> {
        self.child
    }

    /// A supervisor with an empty slot.
    pub fn new() -> (supervisor: Self)
        ensures
            supervisor.slot() is None,
    {
        OllamaProcess { child: None }
    }

    /// Begins a start: names its first action.
    pub fn start(&self) -> (action: StartAction)
        ensures
            action == first_start_action(self.slot()),
    {
        match self.child {
            Some(_) => StartAction::CheckExit,
            None => StartAction::Spawn,
        }
    }

    /// Goes on with a start after the liveness check of the held process.
    /// Where the process is alive the start is over, with success, and
    /// nothing is launched.
    pub fn start_checked(&self, liveness: Liveness) -> (action: StartAction)
        ensures
            action == start_action_after_check(self.slot(), liveness),
    {
        match (self.child, liveness) {
            (Some(_), Liveness::Running) => StartAction::AlreadyRunning,
            _ => StartAction::Spawn,
        }
    }

    /// Ends a start after the launch: a launched process takes the slot, in
    /// place of a stale one; a failed launch leaves the slot as it was and is
    /// reported.
    pub fn start_spawned(&mut self, launched: Result<u32, String>) -> (result: Result<
        (),
        ProcessError,
    >)
        ensures
            match launched {
                Ok(pid) => result is Ok && final(self).slot() == Some(SupervisedProcess { pid }),
                Err(cause) => {
                    &&& final(self).slot() == old(self).slot()
                    &&& result matches Err(ProcessError::SpawnFailed(reported))
                    &&& reported@ == cause@
                },
            },
    {
        match launched {
            Ok(pid) => {
                self.child = Some(SupervisedProcess { pid });
                Ok(())
            },
            Err(cause) => Err(ProcessError::SpawnFailed(cause)),
        }
    }

    /// Begins a stop: takes the process out of the slot, which is empty from
    /// then on, and hands it to the termination that the caller drives. For
    /// an empty slot the termination is over at once, with success, and asks
    /// for no signal.
    pub fn stop(&mut self, strategy: TerminationStrategy) -> (termination: Termination)
        ensures
            final(self).slot() is None,
            termination.target() == old(self).slot(),
            termination.phase() == first_phase(old(self).slot(), strategy),
    {
        let process = self.child.take();
        let phase = match process {
            None => StopPhase::Stopped,
            Some(_) => match strategy {
                TerminationStrategy::SignalEscalation => StopPhase::Signalling,
                TerminationStrategy::DirectKill => StopPhase::Killing,
            },
        };
        Termination { process, phase }
    }

    /// Whether the held process is alive, given what a liveness check of it
    /// found (for an empty slot no check is made, and any value does). A
    /// process that has exited leaves the slot.
    pub fn is_running(&mut self, liveness: Liveness) -> (running: bool)
        ensures
            running == alive(old(self).slot(), liveness),
            final(self).slot() == slot_after_check(old(self).slot(), liveness),
    {
        match (self.child, liveness) {
            (Some(_), Liveness::Running) => true,
            (Some(_), Liveness::Exited) => {
                self.child = None;
                false
            },
            _ => false,
        }
    }

    /// The identifier of the held process.
    pub fn pid(&self) -> (pid: Option<u32>)
        ensures
            pid == match self.slot() {
                Some(process) => Some(process.pid),
                None => None,
            },
    {
        match self.child {
            Some(process) => Some(process.pid),
            None => None,
        }
    }

    /// Gives up the slot when the supervisor itself goes away: the process
    /// that it held, if any, is to be killed by force and collected, with no
    /// graceful phase.
    pub fn teardown(&mut self) -> (orphan: Option<SupervisedProcess>)
        ensures
            orphan == old(self).slot(),
            final(self).slot() is None,
    {
        self.child.take()
    }
}

impl Default for OllamaProcess {
    fn default() -> (supervisor: Self)
        ensures
            supervisor.slot() is None,
    {
        Self::new()
    }
}

/// The phase that a termination reaches from `phase` when `events` come in,
/// one after the other.
pub open spec fn run(phase: StopPhase, events: Seq<StopEvent>) -> StopPhase
    decreases events.len(),
{
    if events.len() == 0 {
        phase
    } else {
        run(phase.after(events.first()), events.drop_first())
    }
}

/// Whether the step from `phase` to `next` asks for a forced kill.
pub open spec fn asks_kill(phase: StopPhase, next: StopPhase) -> bool {
    next != phase && next.pending() == StopAction::ForceKill
}

/// The number of forced kills that a termination asks for on its way from
/// `phase` through `events`.
pub open spec fn kills_asked(phase: StopPhase, events: Seq<StopEvent>) -> nat
    decreases events.len(),
{
    if events.len() == 0 {
        0
    } else {
        let next = phase.after(events.first());
        let here: nat = if asks_kill(phase, next) {
            1
        } else {
            0
        };
        here + kills_asked(next, events.drop_first())
    }
}

/// The events of `count` rounds of the graceful window in which the process
/// does not exit: each check finds it alive, and the pause follows.
pub open spec fn unanswered_rounds(count: nat) -> Seq<StopEvent>
    decreases count,
{
    if count == 0 {
        Seq::empty()
    } else {
        seq![StopEvent::StillRunning, StopEvent::Slept] + unanswered_rounds((count - 1) as nat)
    }
}

/// The events of a stop whose process ignores the graceful signal and ends
/// only by the forced kill.
pub open spec fn stubborn_events() -> Seq<StopEvent> {
    seq![StopEvent::TerminateSent] + unanswered_rounds(MAX_POLLS as nat) + seq![
        StopEvent::KillSent,
        StopEvent::Reaped,
    ]
}

proof fn lemma_run_concat(phase: StopPhase, first: Seq<StopEvent>, second: Seq<StopEvent>)
    ensures
        run(phase, first + second) == run(run(phase, first), second),
        kills_asked(phase, first + second) == kills_asked(phase, first) + kills_asked(
            run(phase, first),
            second,
        ),
    decreases first.len(),
{
    if first.len() == 0 {
        assert(first + second =~= second);
    } else {
        assert((first + second).first() == first.first());
        assert((first + second).drop_first() =~= first.drop_first() + second);
        lemma_run_concat(phase.after(first.first()), first.drop_first(), second);
    }
}

proof fn lemma_run_two(phase: StopPhase, first: StopEvent, second: StopEvent)
    ensures
        run(phase, seq![first, second]) == phase.after(first).after(second),
        kills_asked(phase, seq![first, second]) == (if asks_kill(phase, phase.after(first)) {
            1nat
        } else {
            0nat
        }) + (if asks_kill(phase.after(first), phase.after(first).after(second)) {
            1nat
        } else {
            0nat
        }),
{
    let events = seq![first, second];
    assert(events.first() == first);
    assert(events.drop_first() =~= seq![second]);
    assert(seq![second].first() == second);
    assert(seq![second].drop_first() =~= Seq::<StopEvent>::empty());
    reveal_with_fuel(run, 3);
    reveal_with_fuel(kills_asked, 3);
}

/// The graceful window: while the process does not exit, the termination
/// checks and pauses `MAX_POLLS` times, `graceful_window_ms` in all, and
/// asks for the forced kill after the last pause and not before.
pub proof fn graceful_window_runs_out(polls: nat, rounds: nat)
    requires
        polls < MAX_POLLS,
        polls + rounds <= MAX_POLLS,
    ensures
        run(StopPhase::Polling { polls: polls as u32 }, unanswered_rounds(rounds)) == if polls
            + rounds < MAX_POLLS {
            StopPhase::Polling { polls: (polls + rounds) as u32 }
        } else {
            StopPhase::Escalating
        },
        kills_asked(StopPhase::Polling { polls: polls as u32 }, unanswered_rounds(rounds))
            == if polls + rounds < MAX_POLLS {
            0nat
        } else {
            1nat
        },
        graceful_window_ms() == 5000,
    decreases rounds,
{
    if rounds > 0 {
        let phase = StopPhase::Polling { polls: polls as u32 };
        let round = seq![StopEvent::StillRunning, StopEvent::Slept];
        let rest = unanswered_rounds((rounds - 1) as nat);
        lemma_run_two(phase, StopEvent::StillRunning, StopEvent::Slept);
        lemma_run_concat(phase, round, rest);
        if polls + 1 < MAX_POLLS {
            graceful_window_runs_out(polls + 1, (rounds - 1) as nat);
        } else {
            assert(rounds == 1);
            assert(rest =~= Seq::<StopEvent>::empty());
        }
    }
}

/// A process that does not exit within the graceful window is killed by
/// force, once, and the stop then reports success.
pub proof fn stubborn_process_is_killed_once(process: SupervisedProcess)
    ensures
        first_phase(Some(process), TerminationStrategy::SignalEscalation).pending()
            != StopAction::ForceKill,
        run(
            first_phase(Some(process), TerminationStrategy::SignalEscalation),
            stubborn_events(),
        ) == StopPhase::Stopped,
        kills_asked(
            first_phase(Some(process), TerminationStrategy::SignalEscalation),
            stubborn_events(),
        ) == 1,
{
    let start = StopPhase::Signalling;
    let head = seq![StopEvent::TerminateSent];
    let window = unanswered_rounds(MAX_POLLS as nat);
    let tail = seq![StopEvent::KillSent, StopEvent::Reaped];
    assert(head.drop_first() =~= Seq::<StopEvent>::empty());
    reveal_with_fuel(run, 2);
    reveal_with_fuel(kills_asked, 2);
    assert(run(start, head) == StopPhase::Polling { polls: 0 });
    assert(kills_asked(start, head) == 0);
    graceful_window_runs_out(0, MAX_POLLS as nat);
    lemma_run_two(StopPhase::Escalating, StopEvent::KillSent, StopEvent::Reaped);
    lemma_run_concat(start, head, window);
    lemma_run_concat(start, head + window, tail);
}

/// Whatever comes in, a termination asks for the forced kill at most once.
pub proof fn forced_kill_is_asked_at_most_once(phase: StopPhase, events: Seq<StopEvent>)
    ensures
        kills_asked(phase, events) <= 1,
        phase.pending() == StopAction::ForceKill || phase.pending() == StopAction::Reap
            || phase.is_final() ==> kills_asked(phase, events) == 0,
    decreases events.len(),
{
    if events.len() > 0 {
        forced_kill_is_asked_at_most_once(phase.after(events.first()), events.drop_first());
    }
}

/// Whether `event` is something that the action which `phase` waits for can
/// come to.
pub open spec fn answers(phase: StopPhase, event: StopEvent) -> bool {
    match phase.pending() {
        StopAction::SendTerminate => event == StopEvent::TerminateSent || event
            == StopEvent::TerminateFailed,
        StopAction::CheckExit => event == StopEvent::Exited || event == StopEvent::StillRunning
            || event == StopEvent::CheckFailed,
        StopAction::Sleep => event == StopEvent::Slept,
        StopAction::ForceKill => event == StopEvent::KillSent || event == StopEvent::KillFailed,
        StopAction::Reap => event == StopEvent::Reaped,
        StopAction::Succeed => false,
        StopAction::Fail => false,
    }
}

/// The greatest number of actions that a termination in `phase` still asks
/// for before it is over.
pub open spec fn actions_left(phase: StopPhase) -> nat {
    match phase {
        StopPhase::Signalling => (2 * MAX_POLLS + 3) as nat,
        StopPhase::Polling { polls } => (2 * (MAX_POLLS - polls) + 2) as nat,
        StopPhase::Pausing { polls } => (2 * (MAX_POLLS - polls) + 3) as nat,
        StopPhase::Escalating => 2,
        StopPhase::FallingBack => 2,
        StopPhase::Killing => 2,
        StopPhase::Reaping => 1,
        StopPhase::Stopped => 0,
        StopPhase::Failed => 0,
    }
}

/// Every stop ends: each answer to the pending action brings the
/// termination closer to its end, so it asks for at most
/// `actions_left` actions; and it is over exactly when none is left.
pub proof fn every_answer_brings_the_end_closer(phase: StopPhase, event: StopEvent)
    requires
        phase.well_formed(),
    ensures
        phase.after(event).well_formed(),
        answers(phase, event) ==> actions_left(phase.after(event)) < actions_left(phase),
        !answers(phase, event) ==> phase.after(event) == phase,
        phase.is_final() <==> actions_left(phase) == 0,
{
}

/// The stop of an empty slot is over before it begins: it reports success,
/// and no event makes it ask for a signal.
pub proof fn stop_of_empty_slot_sends_nothing(
    strategy: TerminationStrategy,
    events: Seq<StopEvent>,
)
    ensures
        first_phase(None, strategy).pending() == StopAction::Succeed,
        run(first_phase(None, strategy), events) == StopPhase::Stopped,
        kills_asked(first_phase(None, strategy), events) == 0,
    decreases events.len(),
{
    if events.len() > 0 {
        stop_of_empty_slot_sends_nothing(strategy, events.drop_first());
    }
}

/// A start while the process launched by the start before it is alive
/// launches nothing: it checks the held process and is over, with success.
pub proof fn start_of_running_process_launches_nothing(pid: u32)
    ensures
        first_start_action(Some(SupervisedProcess { pid })) == StartAction::CheckExit,
        start_action_after_check(Some(SupervisedProcess { pid }), Liveness::Running)
            == StartAction::AlreadyRunning,
{
}

} // verus!
