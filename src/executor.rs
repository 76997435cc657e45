use crate::config::CommandSequence;
use crate::tracker::{ProcessTracker, TrackerView};
use vstd::prelude::*;

verus! {

/// The kinds of failure that an operation reports.
#[derive(PartialEq, Eq, Structural, Clone, Copy, Debug)]
pub enum ErrorKind {
    /// The package manager or the subcommand is not in the configuration.
    Resolution,
    /// The subcommand defines no command for the requested operation.
    NoCommandDefined,
    /// The shell could not be started.
    Spawn,
    /// Waiting for the shell failed.
    Wait,
    /// The command exited with a status other than zero, or was killed by a
    /// signal (no code).
    NonZeroExit { code: Option<i32> },
    /// A shutdown was requested before the step could run.
    Cancellation,
}

/// An error, as plain values.
pub struct UpdateErrorView {
    pub kind: ErrorKind,
    pub message: Seq<char>,
}

/// The failure of an operation: its kind, and a message for people.
#[derive(Debug)]
pub struct UpdateError {
    pub kind: ErrorKind,
    pub message: String,
}

impl View for UpdateError {
    type V = UpdateErrorView;

    open spec fn view(&self) -> UpdateErrorView {
        UpdateErrorView { kind: self.kind, message: self.message@ }
    }
}

impl Clone for UpdateError {
    fn clone(&self) -> (r: Self)
        ensures
            r@ == self@,
    {
        UpdateError { kind: self.kind, message: self.message.clone() }
    }
}

impl UpdateError {
    /// The error as it is shown: "Update error: " and the message.
    pub fn to_string(&self) -> (r: String)
        ensures
            r@ == "Update error: "@ + self.message@,
    {
        let mut r = String::from_str("Update error: ");
        r.append(self.message.as_str());
        r
    }
}

/// The error of a step that a shutdown cancelled.
pub open spec fn cancelled_error() -> UpdateErrorView {
    UpdateErrorView { kind: ErrorKind::Cancellation, message: "Operation was cancelled"@ }
}

/// The error of a shell that could not be started.
pub open spec fn spawn_error(reason: Seq<char>) -> UpdateErrorView {
    UpdateErrorView { kind: ErrorKind::Spawn, message: "Failed to execute command: "@ + reason }
}

/// The error of a wait that failed.
pub open spec fn wait_error(reason: Seq<char>) -> UpdateErrorView {
    UpdateErrorView { kind: ErrorKind::Wait, message: "Failed to wait for command: "@ + reason }
}

/// The error of a command that did not exit with code zero: its code, if
/// it has one, and the exit status as the platform shows it.
pub open spec fn exit_error(code: Option<i32>, status_text: Seq<char>) -> UpdateErrorView {
    UpdateErrorView {
        kind: ErrorKind::NonZeroExit { code },
        message: "Command failed with exit code: "@ + status_text,
    }
}

fn make_cancelled_error() -> (r: UpdateError)
    ensures
        r@ == cancelled_error(),
{
    UpdateError { kind: ErrorKind::Cancellation, message: String::from_str("Operation was cancelled") }
}

fn make_spawn_error(reason: &str) -> (r: UpdateError)
    ensures
        r@ == spawn_error(reason@),
{
    let mut m = String::from_str("Failed to execute command: ");
    m.append(reason);
    UpdateError { kind: ErrorKind::Spawn, message: m }
}

fn make_wait_error(reason: &str) -> (r: UpdateError)
    ensures
        r@ == wait_error(reason@),
{
    let mut m = String::from_str("Failed to wait for command: ");
    m.append(reason);
    UpdateError { kind: ErrorKind::Wait, message: m }
}

fn make_exit_error(code: Option<i32>, status_text: &str) -> (r: UpdateError)
    ensures
        r@ == exit_error(code, status_text@),
{
    let mut message = String::from_str("Command failed with exit code: ");
    message.append(status_text);
    UpdateError { kind: ErrorKind::NonZeroExit { code }, message }
}

/// The view of an operation's result.
pub open spec fn result_view(r: Result<(), UpdateError>) -> Result<(), UpdateErrorView> {
    match r {
        Ok(()) => Ok(()),
        Err(e) => Err(e@),
    }
}

/// What the caller is asked to do next.
#[derive(Debug)]
pub enum Action {
    /// Start a shell running step `step` of the sequence, whose command is
    /// `command`; then report `Spawned` or `SpawnFailed`.
    Spawn { step: usize, command: String },
    /// Wait for the process to exit; then report `Exited` or `WaitFailed`.
    Wait { pid: u32 },
    /// Send the process a termination signal and do not wait for it: the run
    /// is over.
    Terminate { pid: u32 },
    /// The run is over.
    Finish,
}

/// An action, as plain values.
pub enum ActionView {
    Spawn { step: int, command: Seq<char> },
    Wait { pid: u32 },
    Terminate { pid: u32 },
    Finish,
}

impl View for Action {
    type V = ActionView;

    open spec fn view(&self) -> ActionView {
        match self {
            Action::Spawn { step, command } => ActionView::Spawn { step: *step as int, command: command@ },
            Action::Wait { pid } => ActionView::Wait { pid: *pid },
            Action::Terminate { pid } => ActionView::Terminate { pid: *pid },
            Action::Finish => ActionView::Finish,
        }
    }
}

/// What came of the last action.
#[derive(Debug)]
pub enum Event {
    /// The shell started, as process `pid`.
    Spawned { pid: u32 },
    /// The shell could not be started, for the reason given.
    SpawnFailed { reason: String },
    /// The process exited: with its code, or without one when a signal
    /// killed it; `status_text` is the exit status as the platform shows it.
    Exited { code: Option<i32>, status_text: String },
    /// Waiting for the process failed, for the reason given.
    WaitFailed { reason: String },
}

/// An event, as plain values.
pub enum EventView {
    Spawned { pid: u32 },
    SpawnFailed { reason: Seq<char> },
    Exited { code: Option<i32>, status_text: Seq<char> },
    WaitFailed { reason: Seq<char> },
}

impl View for Event {
    type V = EventView;

    open spec fn view(&self) -> EventView {
        match self {
            Event::Spawned { pid } => EventView::Spawned { pid: *pid },
            Event::SpawnFailed { reason } => EventView::SpawnFailed { reason: reason@ },
            Event::Exited { code, status_text } => EventView::Exited { code: *code, status_text: status_text@ },
            Event::WaitFailed { reason } => EventView::WaitFailed { reason: reason@ },
        }
    }
}

/// Where a run stands, as plain values.
pub enum PhaseView {
    /// The current step is to be started.
    Spawning,
    /// The current step runs as the given process.
    Running(u32),
    /// The run is over, with this result.
    Done(Result<(), UpdateErrorView>),
}

/// A run of a command sequence, as plain values: its steps, the index of
/// the current step, and where it stands.
pub struct RunView {
    pub steps: Seq<Seq<char>>,
    pub current: int,
    pub phase: PhaseView,
}

/// The run that is about to start step `k`: over when no step is left,
/// cancelled when a shutdown was requested, else starting step `k`.
pub open spec fn run_from(steps: Seq<Seq<char>>, k: int, shutdown: bool) -> RunView {
    if k >= steps.len() {
        RunView { steps, current: k, phase: PhaseView::Done(Ok(())) }
    } else if shutdown {
        RunView { steps, current: k, phase: PhaseView::Done(Err(cancelled_error())) }
    } else {
        RunView { steps, current: k, phase: PhaseView::Spawning }
    }
}

/// A new run of `steps`: in a dry run over at once, with success;
/// otherwise about to start the first step.
pub open spec fn begin_run(steps: Seq<Seq<char>>, dry_run: bool, shutdown: bool) -> RunView {
    if dry_run {
        RunView { steps, current: 0, phase: PhaseView::Done(Ok(())) }
    } else {
        run_from(steps, 0, shutdown)
    }
}

impl RunView {
    /// The run is over.
    pub open spec fn is_done(self) -> bool {
        self.phase is Done
    }

    /// What the run waits for in its present state.
    pub open spec fn pending(self) -> ActionView {
        match self.phase {
            PhaseView::Spawning => ActionView::Spawn { step: self.current, command: self.steps[self.current] },
            PhaseView::Running(pid) => ActionView::Wait { pid },
            PhaseView::Done(_) => ActionView::Finish,
        }
    }

    /// The run, the tracker and the action after an event. A started process
    /// is registered at once; if a shutdown is then found requested, it is
    /// to be terminated and the run is cancelled. A reaped process is
    /// unregistered, whatever came of the wait. Exit code zero moves on to
    /// the next step; any other outcome ends the run with its error. An
    /// event that does not answer the pending action changes nothing.
    pub open spec fn next(self, t: TrackerView, e: EventView) -> (RunView, TrackerView, ActionView) {
        match self.phase {
            PhaseView::Spawning => match e {
                EventView::Spawned { pid } => {
                    let t1 = t.register(pid);
                    if t1.shutdown {
                        (
                            RunView { phase: PhaseView::Done(Err(cancelled_error())), ..self },
                            t1,
                            ActionView::Terminate { pid },
                        )
                    } else {
                        (RunView { phase: PhaseView::Running(pid), ..self }, t1, ActionView::Wait { pid })
                    }
                },
                EventView::SpawnFailed { reason } => (
                    RunView { phase: PhaseView::Done(Err(spawn_error(reason))), ..self },
                    t,
                    ActionView::Finish,
                ),
                _ => (self, t, self.pending()),
            },
            PhaseView::Running(pid) => match e {
                EventView::Exited { code, status_text } => {
                    let t1 = t.unregister(pid);
                    if code == Some(0i32) {
                        let r = run_from(self.steps, self.current + 1, t1.shutdown);
                        (r, t1, r.pending())
                    } else {
                        (
                            RunView { phase: PhaseView::Done(Err(exit_error(code, status_text))), ..self },
                            t1,
                            ActionView::Finish,
                        )
                    }
                },
                EventView::WaitFailed { reason } => (
                    RunView { phase: PhaseView::Done(Err(wait_error(reason))), ..self },
                    t.unregister(pid),
                    ActionView::Finish,
                ),
                _ => (self, t, self.pending()),
            },
            PhaseView::Done(_) => (self, t, ActionView::Finish),
        }
    }
}

/// Where a run stands.
#[derive(Debug)]
pub enum Phase {
    Spawning,
    Running { pid: u32 },
    Done { result: Result<(), UpdateError> },
}

/// A run of a command sequence: its steps run one at a time, in order, and
/// the first that fails ends it. The caller performs the actions that the
/// run asks for and reports what came of them.
#[derive(Debug)]
pub struct SequenceRun {
    steps: Vec<String>,
    current: usize,
    phase: Phase,
}

impl View for SequenceRun {
    type V = RunView;

    closed spec fn view(&self) -> RunView {
        RunView {
            steps: self.steps@.map_values(|s: String| s@),
            current: self.current as int,
            phase: match self.phase {
                Phase::Spawning => PhaseView::Spawning,
                Phase::Running { pid } => PhaseView::Running(pid),
                Phase::Done { result } => PhaseView::Done(result_view(result)),
            },
        }
    }
}

impl SequenceRun {
    #[verifier::type_invariant]
    closed spec fn well_formed(self) -> bool {
        match self.phase {
            Phase::Done { .. } => self.current <= self.steps.len(),
            _ => self.current < self.steps.len(),
        }
    }

    /// Moves to step `k`: finishes when no step is left, is cancelled when a
    /// shutdown was requested, else starts step `k`.
    fn move_to(&mut self, k: usize, shutdown: bool)
        requires
            k >= 1,
            old(self).steps.len() >= k,
            old(self).current == k - 1,
        ensures
            final(self)@ == run_from(old(self)@.steps, k as int, shutdown),
    {
        if k >= self.steps.len() {
            self.phase = Phase::Done { result: Ok(()) };
            self.current = k;
        } else if shutdown {
            self.current = k;
            self.phase = Phase::Done { result: Err(make_cancelled_error()) };
        } else {
            self.current = k;
            self.phase = Phase::Spawning;
        }
    }

    /// A new run of the sequence's steps. In a dry run nothing is started
    /// and the run is over at once, with success; otherwise it is about to
    /// start the first step, unless there is none or a shutdown was
    /// requested.
    pub fn begin(sequence: &CommandSequence, dry_run: bool, tracker: &ProcessTracker) -> (r: SequenceRun)
        ensures
            r@ == begin_run(sequence@.steps(), dry_run, tracker@.shutdown),
    {
        let steps = match sequence {
            CommandSequence::Single(s) => {
                let mut v: Vec<String> = Vec::new();
                v.push(s.clone());
                v
            },
            CommandSequence::Multiple(v) => crate::config::copy_strings(v),
        };
        let ghost expected = sequence@.steps();
        assert(steps@.map_values(|s: String| s@) =~= expected);
        if dry_run || steps.len() == 0 {
            SequenceRun { steps, current: 0, phase: Phase::Done { result: Ok(()) } }
        } else if tracker.is_shutdown_requested() {
            SequenceRun { steps, current: 0, phase: Phase::Done { result: Err(make_cancelled_error()) } }
        } else {
            SequenceRun { steps, current: 0, phase: Phase::Spawning }
        }
    }

    /// A run that is over before any step, with the given error.
    pub fn failed(error: UpdateError) -> (r: SequenceRun)
        ensures
            r@ == (RunView { steps: Seq::empty(), current: 0, phase: PhaseView::Done(Err(error@)) }),
    {
        let r = SequenceRun { steps: Vec::new(), current: 0, phase: Phase::Done { result: Err(error) } };
        assert(r@.steps =~= Seq::<Seq<char>>::empty());
        r
    }

    /// What the run waits for.
    pub fn pending(&self) -> (a: Action)
        ensures
            a@ == self@.pending(),
    {
        proof {
            use_type_invariant(self);
        }
        match &self.phase {
            Phase::Spawning => Action::Spawn { step: self.current, command: self.steps[self.current].clone() },
            Phase::Running { pid } => Action::Wait { pid: *pid },
            Phase::Done { .. } => Action::Finish,
        }
    }

    /// The result, once the run is over.
    pub fn outcome(&self) -> (r: Option<&Result<(), UpdateError>>)
        ensures
            match self@.phase {
                PhaseView::Done(res) => r is Some && result_view(*r.unwrap()) == res,
                _ => r is None,
            },
    {
        match &self.phase {
            Phase::Done { result } => Some(result),
            _ => None,
        }
    }

    /// Whether the run is over.
    pub fn is_done(&self) -> (r: bool)
        ensures
            r == self@.is_done(),
    {
        match &self.phase {
            Phase::Done { .. } => true,
            _ => false,
        }
    }

    /// The commands of the sequence, in order.
    pub fn steps(&self) -> (r: &Vec<String>)
        ensures
            r@.map_values(|s: String| s@) == self@.steps,
    {
        &self.steps
    }

    /// The number of steps of the sequence.
    pub fn step_count(&self) -> (r: usize)
        ensures
            r == self@.steps.len(),
    {
        self.steps.len()
    }

    /// Takes in what came of the last action, and returns the next one.
    pub fn advance(&mut self, tracker: &mut ProcessTracker, event: Event) -> (a: Action)
        ensures
            (final(self)@, final(tracker)@, a@) == old(self)@.next(old(tracker)@, event@),
    {
        proof {
            use_type_invariant(&*self);
        }
        match &self.phase {
            Phase::Spawning => match event {
                Event::Spawned { pid } => {
                    tracker.register_process(pid);
                    if tracker.is_shutdown_requested() {
                        self.phase = Phase::Done { result: Err(make_cancelled_error()) };
                        Action::Terminate { pid }
                    } else {
                        self.phase = Phase::Running { pid };
                        Action::Wait { pid }
                    }
                },
                Event::SpawnFailed { reason } => {
                    self.phase = Phase::Done { result: Err(make_spawn_error(reason.as_str())) };
                    Action::Finish
                },
                _ => self.pending(),
            },
            Phase::Running { pid } => {
                let pid = *pid;
                match event {
                    Event::Exited { code, status_text } => {
                        tracker.unregister_process(pid);
                        if code == Some(0i32) {
                            let k = self.current + 1;
                            let shutdown = tracker.is_shutdown_requested();
                            self.move_to(k, shutdown);
                            self.pending()
                        } else {
                            self.phase = Phase::Done { result: Err(make_exit_error(code, status_text.as_str())) };
                            Action::Finish
                        }
                    },
                    Event::WaitFailed { reason } => {
                        tracker.unregister_process(pid);
                        self.phase = Phase::Done { result: Err(make_wait_error(reason.as_str())) };
                        Action::Finish
                    },
                    _ => self.pending(),
                }
            },
            Phase::Done { .. } => Action::Finish,
        }
    }
}

/// The run, the tracker and the actions after a series of events.
pub open spec fn drive(run: RunView, t: TrackerView, events: Seq<EventView>) -> (RunView, TrackerView, Seq<ActionView>)
    decreases events.len(),
{
    if events.len() == 0 {
        (run, t, Seq::empty())
    } else {
        let (r1, t1, a1) = run.next(t, events[0]);
        let (r2, t2, rest) = drive(r1, t1, events.drop_first());
        (r2, t2, seq![a1] + rest)
    }
}

/// The event reports a failure of the pending action.
pub open spec fn is_failure(run: RunView, e: EventView) -> bool {
    match run.phase {
        PhaseView::Spawning => e is SpawnFailed,
        PhaseView::Running(_) => match e {
            EventView::Exited { code, .. } => code != Some(0i32),
            EventView::WaitFailed { .. } => true,
            _ => false,
        },
        PhaseView::Done(_) => false,
    }
}

/// A run that is over stays as it is, leaves the tracker alone and asks
/// only to finish, whatever events follow.
pub proof fn lemma_done_run_is_final(run: RunView, t: TrackerView, events: Seq<EventView>)
    requires
        run.is_done(),
    ensures
        drive(run, t, events).0 == run,
        drive(run, t, events).1 == t,
        drive(run, t, events).2.len() == events.len(),
        forall|i: int| 0 <= i < events.len() ==> drive(run, t, events).2[i] == ActionView::Finish,
    decreases events.len(),
{
    if events.len() > 0 {
        lemma_done_run_is_final(run, t, events.drop_first());
        let rest = drive(run, t, events.drop_first()).2;
        assert forall|i: int| 0 <= i < events.len() implies drive(run, t, events).2[i] == ActionView::Finish by {
            if i > 0 {
                assert(drive(run, t, events).2[i] == rest[i - 1]);
            }
        }
    }
}

/// In a dry run no process is ever started, the tracker is left alone, and
/// the result is success.
pub proof fn lemma_dry_run_starts_nothing(steps: Seq<Seq<char>>, t: TrackerView, events: Seq<EventView>)
    ensures
        begin_run(steps, true, t.shutdown).phase == PhaseView::Done(Ok(())),
        begin_run(steps, true, t.shutdown).pending() == ActionView::Finish,
        drive(begin_run(steps, true, t.shutdown), t, events).0 == begin_run(steps, true, t.shutdown),
        drive(begin_run(steps, true, t.shutdown), t, events).1 == t,
        forall|i: int|
            0 <= i < events.len() ==> drive(begin_run(steps, true, t.shutdown), t, events).2[i]
                == ActionView::Finish,
{
    lemma_done_run_is_final(begin_run(steps, true, t.shutdown), t, events);
}

/// When a step fails, the run ends with that step's error, and no later
/// step is ever started.
pub proof fn lemma_failure_stops_the_run(run: RunView, t: TrackerView, e: EventView, events: Seq<EventView>)
    requires
        is_failure(run, e),
    ensures
        run.next(t, e).0.phase is Done,
        run.next(t, e).0.phase->Done_0 is Err,
        run.next(t, e).0.current == run.current,
        run.next(t, e).2 == ActionView::Finish,
        forall|i: int|
            0 <= i < events.len() ==> drive(run.next(t, e).0, run.next(t, e).1, events).2[i]
                == ActionView::Finish,
{
    lemma_done_run_is_final(run.next(t, e).0, run.next(t, e).1, events);
}

/// A step is started only once the step before it has exited with code
/// zero, and only when no shutdown was requested.
pub proof fn lemma_steps_start_in_order(run: RunView, t: TrackerView, e: EventView)
    requires
        run.next(t, e).2 is Spawn,
        !(run.pending() is Spawn),
    ensures
        run.phase is Running,
        match e {
            EventView::Exited { code, .. } => code == Some(0i32),
            _ => false,
        },
        run.next(t, e).2->step == run.current + 1,
        !t.shutdown,
{
}

/// A shutdown requested before a sequence starts cancels its first step,
/// which is never started, whatever events follow.
pub proof fn lemma_shutdown_before_start_cancels(steps: Seq<Seq<char>>, t: TrackerView, events: Seq<EventView>)
    requires
        t.shutdown,
        steps.len() > 0,
    ensures
        begin_run(steps, false, t.shutdown).phase == PhaseView::Done(Err(cancelled_error())),
        begin_run(steps, false, t.shutdown).pending() == ActionView::Finish,
        forall|i: int|
            0 <= i < events.len() ==> drive(begin_run(steps, false, t.shutdown), t, events).2[i]
                == ActionView::Finish,
{
    lemma_done_run_is_final(begin_run(steps, false, t.shutdown), t, events);
}

/// The event answers the action that the run waits for.
pub open spec fn answers(run: RunView, e: EventView) -> bool {
    match run.phase {
        PhaseView::Spawning => e is Spawned || e is SpawnFailed,
        PhaseView::Running(_) => e is Exited || e is WaitFailed,
        PhaseView::Done(_) => false,
    }
}

/// Each event answers the action that the run waits for at that point, and
/// none comes once the run is over.
pub open spec fn answers_each(run: RunView, t: TrackerView, events: Seq<EventView>) -> bool
    decreases events.len(),
{
    events.len() == 0 || {
        &&& answers(run, events[0])
        &&& answers_each(run.next(t, events[0]).0, run.next(t, events[0]).1, events.drop_first())
    }
}

/// The commands that the run asks to start, in order, as the events come:
/// one each time it waits for a step to be started.
pub open spec fn started_commands(run: RunView, t: TrackerView, events: Seq<EventView>) -> Seq<Seq<char>>
    decreases events.len(),
{
    let here = if run.phase is Spawning { seq![run.steps[run.current]] } else { Seq::empty() };
    if events.len() == 0 {
        here
    } else {
        here + started_commands(run.next(t, events[0]).0, run.next(t, events[0]).1, events.drop_first())
    }
}

/// The step failed: it could not be started, waiting for it failed, or it
/// exited with a status other than success.
pub open spec fn is_step_failure(e: UpdateErrorView) -> bool {
    e.kind is Spawn || e.kind is Wait || e.kind is NonZeroExit
}

/// The first step that a run in this state would still start.
pub open spec fn next_start(run: RunView) -> int {
    if run.phase is Spawning { run.current } else { run.current + 1 }
}

proof fn lemma_started_commands(run: RunView, t: TrackerView, events: Seq<EventView>)
    requires
        answers_each(run, t, events),
        !run.is_done(),
        0 <= run.current < run.steps.len(),
    ensures
        ({
            let s = started_commands(run, t, events);
            let r = drive(run, t, events).0;
            let b = next_start(run);
            &&& b + s.len() <= run.steps.len()
            &&& s == run.steps.subrange(b, b + s.len())
            &&& r.steps == run.steps
            &&& (r.phase matches PhaseView::Done(Err(e)) && is_step_failure(e)) ==> b + s.len() == r.current + 1
            &&& r.phase == PhaseView::Done(Ok(())) ==> b + s.len() == run.steps.len()
        }),
    decreases events.len(),
{
    let steps = run.steps;
    let b = next_start(run);
    let s = started_commands(run, t, events);
    if events.len() == 0 {
        assert(drive(run, t, events).0 == run);
        assert(s =~= steps.subrange(b, b + s.len()));
    } else {
        let (r1, t1, a1) = run.next(t, events[0]);
        let rest = events.drop_first();
        let s1 = started_commands(r1, t1, rest);
        assert(answers_each(r1, t1, rest));
        assert(drive(run, t, events).0 == drive(r1, t1, rest).0);
        if r1.is_done() {
            if rest.len() > 0 {
                assert(answers(r1, rest[0]));
            }
            assert(drive(r1, t1, rest).0 == r1);
            assert(s1 =~= Seq::<Seq<char>>::empty());
            assert(s =~= steps.subrange(b, b + s.len()));
        } else {
            lemma_started_commands(r1, t1, rest);
            assert(next_start(r1) == b + (s.len() - s1.len()));
            assert(s =~= steps.subrange(b, b + s.len()));
        }
    }
}

/// A run from its start, driven by events that each answer the action
/// asked for, asks to start its steps' commands in order, from the first;
/// when a step fails, the commands asked for are exactly those of the steps
/// up to and including the failed one, and when the run succeeds, those of
/// all steps.
pub proof fn lemma_run_starts_steps_up_to_failure(steps: Seq<Seq<char>>, t: TrackerView, events: Seq<EventView>)
    requires
        answers_each(begin_run(steps, false, t.shutdown), t, events),
    ensures
        ({
            let run = begin_run(steps, false, t.shutdown);
            let s = started_commands(run, t, events);
            let r = drive(run, t, events).0;
            &&& s == steps.subrange(0, s.len() as int)
            &&& (r.phase matches PhaseView::Done(Err(e)) && is_step_failure(e)) ==> s == steps.subrange(0, r.current + 1)
            &&& r.phase == PhaseView::Done(Ok(())) ==> s == steps
        }),
{
    let run = begin_run(steps, false, t.shutdown);
    let s = started_commands(run, t, events);
    if run.is_done() {
        assert(events.len() == 0);
        assert(s =~= Seq::<Seq<char>>::empty());
        assert(s =~= steps.subrange(0, 0));
        if run.phase == PhaseView::Done(Ok(())) {
            assert(steps =~= Seq::<Seq<char>>::empty());
        }
    } else {
        lemma_started_commands(run, t, events);
        if run.phase == PhaseView::Done(Ok(())) {
            assert(steps.subrange(0, steps.len() as int) =~= steps);
        }
        let r = drive(run, t, events).0;
        if r.phase == PhaseView::Done(Ok(())) {
            assert(steps.subrange(0, steps.len() as int) =~= steps);
        }
    }
}

} // verus!
