//! The supervision loop's decision logic, as a state machine.
//!
//! One run of the supervisor is a walk of this machine: the driver polls the
//! child once per tick, hands the observation in as a [`PollEvent`], and
//! performs the [`Action`] the step returns. The machine decides everything;
//! the driver only observes and acts.

use vstd::prelude::*;

use crate::memory::below_threshold_spec;
use crate::memory::below_threshold;

verus! {

/// How the child is ended when the threshold triggers: a graceful interrupt
/// where the platform has one, an immediate forced kill elsewhere. The
/// asymmetry is deliberate: a platform without an interrupt concept gets no
/// graceful phase at all.
#[derive(Clone, Copy, Debug, PartialEq, Eq, Structural)]
pub enum TerminationMode {
    GracefulInterrupt,
    ForcedKill,
}

/// The terminal result of one supervised run.
#[derive(Clone, Copy, Debug, PartialEq, Eq, Structural)]
pub enum ExitOutcome {
    /// The child ended on its own; the raw status the platform reported.
    Exited(i32),
    /// The supervisor intervened and ended the child.
    Terminated(TerminationMode),
}

/// What one poll tick observed of the child.
#[derive(Clone, Copy, Debug, PartialEq, Eq, Structural)]
pub enum PollEvent {
    /// The liveness check found the child already exited, with this status.
    Exited(i32),
    /// The child is still running; free memory was sampled at this many bytes.
    Running(u64),
}

/// What the driver must do after one step.
#[derive(Clone, Copy, Debug, PartialEq, Eq, Structural)]
pub enum Action {
    /// Report the child's own exit status, then collect the child with the
    /// one final wait.
    ReportExit(i32),
    /// Report the trigger, end the child this way, then the one final wait.
    Signal(TerminationMode),
    /// Nothing happened: sleep one second and poll again.
    Sleep,
    /// The run is already over; nothing is left to do.
    Idle,
}

/// Where the supervisor stands: still watching the child, or finished with
/// an outcome.
#[derive(Clone, Copy, Debug, PartialEq, Eq, Structural)]
pub enum Phase {
    Monitoring,
    Done(ExitOutcome),
}

/// The supervisor: the configured threshold, the platform's termination
/// mode, and the phase the run is in.
#[derive(Clone, Copy, Debug, PartialEq, Eq, Structural)]
pub struct Supervisor {
    pub threshold_gb: u64,
    pub mode: TerminationMode,
    pub phase: Phase,
}

/// Whether a poll event is a threshold breach: the child still runs and the
/// sampled free memory lies strictly below the threshold.
pub open spec fn event_is_breach(e: PollEvent, threshold_gb: u64) -> bool {
    match e {
        PollEvent::Running(free_bytes) => below_threshold_spec(free_bytes, threshold_gb),
        PollEvent::Exited(_) => false,
    }
}

/// The transition relation of the supervisor, as a function: from a state and
/// an observation to the next state and the driver's action.
///
/// A finished supervisor ignores every further event. A monitoring one acts
/// on the liveness check first: an exit ends the run before any memory
/// reading is looked at. Only a still-running child has its reading compared,
/// and a breach commits the run to termination at once.
pub open spec fn step_spec(s: Supervisor, e: PollEvent) -> (Supervisor, Action) {
    match s.phase {
        Phase::Done(_) => (s, Action::Idle),
        Phase::Monitoring => match e {
            PollEvent::Exited(status) => (
                (Supervisor { phase: Phase::Done(ExitOutcome::Exited(status)), ..s }),
                Action::ReportExit(status),
            ),
            PollEvent::Running(free_bytes) => if below_threshold_spec(free_bytes, s.threshold_gb) {
                (
                    (Supervisor { phase: Phase::Done(ExitOutcome::Terminated(s.mode)), ..s }),
                    Action::Signal(s.mode),
                )
            } else {
                (s, Action::Sleep)
            },
        },
    }
}

impl Supervisor {
    /// A fresh supervisor for one run, still monitoring.
    pub fn new(threshold_gb: u64, mode: TerminationMode) -> (s: Supervisor)
        ensures
            s.threshold_gb == threshold_gb,
            s.mode == mode,
            s.phase == Phase::Monitoring,
    {
        Supervisor { threshold_gb, mode, phase: Phase::Monitoring }
    }

    /// One poll tick: feeds the observation in and returns the action the
    /// driver must perform, exactly as [`step_spec`] says.
    pub fn step(&mut self, event: PollEvent) -> (a: Action)
        ensures
            *final(self) == step_spec(*old(self), event).0,
            a == step_spec(*old(self), event).1,
    {
        match self.phase {
            Phase::Done(_) => Action::Idle,
            Phase::Monitoring => match event {
                PollEvent::Exited(status) => {
                    self.phase = Phase::Done(ExitOutcome::Exited(status));
                    Action::ReportExit(status)
                },
                PollEvent::Running(free_bytes) => {
                    if below_threshold(free_bytes, self.threshold_gb) {
                        let mode = self.mode;
                        self.phase = Phase::Done(ExitOutcome::Terminated(mode));
                        Action::Signal(mode)
                    } else {
                        Action::Sleep
                    }
                },
            },
        }
    }

    /// The outcome of the run, once the supervisor is done.
    pub fn outcome(&self) -> (r: Option<ExitOutcome>)
        ensures
            r == (match self.phase {
                Phase::Done(o) => Some(o),
                Phase::Monitoring => None::<ExitOutcome>,
            }),
    {
        match self.phase {
            Phase::Done(o) => Some(o),
            Phase::Monitoring => None,
        }
    }
}

/// The supervisor's own process exit status: zero on every flow that reached
/// the poll loop, non-zero only when the child could not be spawned at all.
pub fn process_exit_code(spawned: bool) -> (c: i32)
    ensures
        c == (if spawned { 0i32 } else { 1i32 }),
{
    if spawned {
        0
    } else {
        1
    }
}

/// The walk of the machine over a whole sequence of poll events: the state
/// reached at the end and the actions issued, one per event.
pub open spec fn run_spec(s: Supervisor, events: Seq<PollEvent>) -> (Supervisor, Seq<Action>)
    decreases events.len(),
{
    if events.len() == 0 {
        (s, Seq::<Action>::empty())
    } else {
        let first = step_spec(s, events[0]);
        let rest = run_spec(first.0, events.drop_first());
        (rest.0, seq![first.1] + rest.1)
    }
}

/// An action that ends the run: the driver reports the outcome and performs
/// the one final wait on the child.
pub open spec fn is_termination_action(a: Action) -> bool {
    a is ReportExit || a is Signal
}

/// How many of the actions are signals.
pub open spec fn count_signals(actions: Seq<Action>) -> nat
    decreases actions.len(),
{
    if actions.len() == 0 {
        0
    } else {
        (if actions[0] is Signal {
            1nat
        } else {
            0nat
        }) + count_signals(actions.drop_first())
    }
}

/// How many of the actions end the run.
pub open spec fn count_terminations(actions: Seq<Action>) -> nat
    decreases actions.len(),
{
    if actions.len() == 0 {
        0
    } else {
        (if is_termination_action(actions[0]) {
            1nat
        } else {
            0nat
        }) + count_terminations(actions.drop_first())
    }
}

/// The index of the first threshold breach among the events, where one
/// exists.
pub open spec fn first_breach_index(events: Seq<PollEvent>, threshold_gb: u64) -> int
    decreases events.len(),
{
    if events.len() == 0 {
        0
    } else if event_is_breach(events[0], threshold_gb) {
        0
    } else {
        1 + first_breach_index(events.drop_first(), threshold_gb)
    }
}

proof fn lemma_counts_cons(a: Action, rest: Seq<Action>)
    ensures
        count_signals(seq![a] + rest) == (if a is Signal {
            1nat
        } else {
            0nat
        }) + count_signals(rest),
        count_terminations(seq![a] + rest) == (if is_termination_action(a) {
            1nat
        } else {
            0nat
        }) + count_terminations(rest),
{
    assert((seq![a] + rest).drop_first() =~= rest);
    assert((seq![a] + rest)[0] == a);
}

/// Law: the terminal state is absorbing. Once the supervisor is done, a
/// further poll changes nothing and asks for no action: repeated polling
/// never duplicates a termination action or an outcome report.
pub proof fn lemma_terminal_is_absorbing(s: Supervisor, e: PollEvent)
    requires
        s.phase is Done,
    ensures
        step_spec(s, e).0 == s,
        step_spec(s, e).1 == Action::Idle,
{
}

/// Law: a finished supervisor stays finished over any further events, issues
/// only idle actions, and so no signal and no further termination action.
pub proof fn lemma_done_run(s: Supervisor, events: Seq<PollEvent>)
    requires
        s.phase is Done,
    ensures
        run_spec(s, events).0 == s,
        run_spec(s, events).1.len() == events.len(),
        forall|k: int| 0 <= k < events.len() ==> run_spec(s, events).1[k] == Action::Idle,
        count_signals(run_spec(s, events).1) == 0,
        count_terminations(run_spec(s, events).1) == 0,
    decreases events.len(),
{
    if events.len() > 0 {
        let first = step_spec(s, events[0]);
        let rest = run_spec(first.0, events.drop_first());
        lemma_done_run(s, events.drop_first());
        lemma_counts_cons(first.1, rest.1);
    }
}

/// Law: over any sequence of poll events, from any state, the supervisor
/// performs at most one termination action: at most one outcome report and
/// at most one final wait.
pub proof fn lemma_at_most_one_termination(s: Supervisor, events: Seq<PollEvent>)
    ensures
        run_spec(s, events).1.len() == events.len(),
        count_terminations(run_spec(s, events).1) <= 1,
        count_signals(run_spec(s, events).1) <= count_terminations(run_spec(s, events).1),
    decreases events.len(),
{
    if events.len() > 0 {
        let first = step_spec(s, events[0]);
        let rest = run_spec(first.0, events.drop_first());
        lemma_counts_cons(first.1, rest.1);
        if is_termination_action(first.1) {
            lemma_done_run(first.0, events.drop_first());
        } else {
            lemma_at_most_one_termination(first.0, events.drop_first());
        }
    }
}

/// Law: if the child never exits on its own and free memory falls strictly
/// below the threshold at some tick, the supervisor sleeps through every tick
/// before the first breach, sends exactly one signal, at the first breach,
/// commits to the termination outcome, and acts on nothing afterwards: no
/// memory sample is acted on after the trigger, and exactly one final wait
/// follows.
pub proof fn lemma_breach_terminates_once(s: Supervisor, events: Seq<PollEvent>)
    requires
        s.phase is Monitoring,
        forall|k: int| 0 <= k < events.len() ==> events[k] is Running,
        exists|k: int| 0 <= k < events.len() && event_is_breach(events[k], s.threshold_gb),
    ensures
        run_spec(s, events).1.len() == events.len(),
        0 <= first_breach_index(events, s.threshold_gb) < events.len(),
        run_spec(s, events).0 == (Supervisor {
            phase: Phase::Done(ExitOutcome::Terminated(s.mode)),
            ..s
        }),
        run_spec(s, events).1[first_breach_index(events, s.threshold_gb)] == Action::Signal(
            s.mode,
        ),
        forall|k: int|
            0 <= k < first_breach_index(events, s.threshold_gb) ==> run_spec(s, events).1[k]
                == Action::Sleep,
        forall|k: int|
            first_breach_index(events, s.threshold_gb) < k < events.len() ==> run_spec(
                s,
                events,
            ).1[k] == Action::Idle,
        count_signals(run_spec(s, events).1) == 1,
        count_terminations(run_spec(s, events).1) == 1,
    decreases events.len(),
{
    let first = step_spec(s, events[0]);
    let rest = run_spec(first.0, events.drop_first());
    lemma_counts_cons(first.1, rest.1);
    if event_is_breach(events[0], s.threshold_gb) {
        lemma_done_run(first.0, events.drop_first());
    } else {
        let w = choose|k: int|
            0 <= k < events.len() && event_is_breach(events[k], s.threshold_gb);
        assert(events.drop_first()[w - 1] == events[w]);
        assert(forall|k: int|
            0 <= k < events.drop_first().len() ==> events.drop_first()[k] == events[k + 1]);
        lemma_breach_terminates_once(s, events.drop_first());
    }
}

/// Law: if the child exits on its own at some tick, before any threshold
/// breach, the supervisor sleeps through every earlier tick, detects the exit
/// at that tick, reports that exit status as the outcome, never signals, and
/// acts on nothing afterwards: never a memory sample after the detected exit,
/// and exactly one final wait.
pub proof fn lemma_natural_exit(s: Supervisor, events: Seq<PollEvent>, j: int, status: i32)
    requires
        s.phase is Monitoring,
        0 <= j < events.len(),
        events[j] == PollEvent::Exited(status),
        forall|k: int|
            0 <= k < j ==> events[k] is Running && !event_is_breach(events[k], s.threshold_gb),
    ensures
        run_spec(s, events).1.len() == events.len(),
        run_spec(s, events).0 == (Supervisor {
            phase: Phase::Done(ExitOutcome::Exited(status)),
            ..s
        }),
        run_spec(s, events).1[j] == Action::ReportExit(status),
        forall|k: int| 0 <= k < j ==> run_spec(s, events).1[k] == Action::Sleep,
        forall|k: int| j < k < events.len() ==> run_spec(s, events).1[k] == Action::Idle,
        count_signals(run_spec(s, events).1) == 0,
        count_terminations(run_spec(s, events).1) == 1,
    decreases events.len(),
{
    let first = step_spec(s, events[0]);
    let rest = run_spec(first.0, events.drop_first());
    lemma_counts_cons(first.1, rest.1);
    if j == 0 {
        lemma_done_run(first.0, events.drop_first());
    } else {
        assert(forall|k: int|
            0 <= k < events.drop_first().len() ==> events.drop_first()[k] == events[k + 1]);
        lemma_natural_exit(s, events.drop_first(), j - 1, status);
    }
}

} // verus!
