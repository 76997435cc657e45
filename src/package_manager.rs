use crate::config::{
    name_view, CommandSequence, CommandSequenceView, Config, ConfigView, UpdateCommandView, default_config,
};
use crate::executor::{
    begin_run, Action, ErrorKind, Event, PhaseView, RunView, SequenceRun, UpdateError, UpdateErrorView,
};
use crate::tracker::{ProcessTracker, TrackerView};
use vstd::prelude::*;

verus! {

/// The two operations that a package manager offers.
#[derive(PartialEq, Eq, Structural, Clone, Copy, Debug)]
pub enum Operation {
    Check,
    Update,
}

/// The sequence that an operation runs, where the subcommand defines one.
pub open spec fn operation_sequence(op: Operation, c: UpdateCommandView) -> Option<CommandSequenceView> {
    match op {
        Operation::Check => c.check,
        Operation::Update => c.update,
    }
}

/// The error for a manager or subcommand that the configuration lacks.
pub open spec fn resolution_error(manager: Seq<char>, sub: Option<Seq<char>>) -> UpdateErrorView {
    UpdateErrorView {
        kind: ErrorKind::Resolution,
        message: match sub {
            Some(sc) => "Unknown subcommand '"@ + sc + "' for package manager '"@ + manager + "'"@,
            None => "Unknown package manager or default subcommand: "@ + manager,
        },
    }
}

/// The word that names an operation.
pub open spec fn operation_word(op: Operation) -> Seq<char> {
    match op {
        Operation::Check => "check"@,
        Operation::Update => "update"@,
    }
}

/// The error for a subcommand that defines no command for the operation.
pub open spec fn no_command_error(op: Operation, manager: Seq<char>, sub: Option<Seq<char>>) -> UpdateErrorView {
    UpdateErrorView {
        kind: ErrorKind::NoCommandDefined,
        message: match sub {
            Some(sc) => "No "@ + operation_word(op) + " command specified for "@ + manager + ":"@ + sc,
            None => "No "@ + operation_word(op) + " command specified for "@ + manager,
        },
    }
}

/// A run that is over before any step, with the given error.
pub open spec fn failed_run(e: UpdateErrorView) -> RunView {
    RunView { steps: Seq::empty(), current: 0, phase: PhaseView::Done(Err(e)) }
}

/// The run that an operation on a manager and an optional subcommand
/// starts: an error when they do not resolve or define no command for the
/// operation, else a new run of that command sequence.
pub open spec fn operation_run(
    config: ConfigView,
    dry_run: bool,
    shutdown: bool,
    op: Operation,
    manager: Seq<char>,
    sub: Option<Seq<char>>,
) -> RunView {
    match config.find_subcommand(manager, sub) {
        None => failed_run(resolution_error(manager, sub)),
        Some(sc) => match operation_sequence(op, sc.command) {
            None => failed_run(no_command_error(op, manager, sub)),
            Some(cs) => begin_run(cs.steps(), dry_run, shutdown),
        },
    }
}

/// Runs the check and update commands of the configured package managers,
/// keeping track of the processes it starts.
#[derive(Debug)]
pub struct PackageManager {
    pub config: Config,
    pub dry_run: bool,
    process_tracker: ProcessTracker,
}

fn make_resolution_error(manager: &str, sub: Option<&str>) -> (r: UpdateError)
    ensures
        r@ == resolution_error(manager@, name_view(sub)),
{
    let message = match sub {
        Some(sc) => {
            let mut m = String::from_str("Unknown subcommand '");
            m.append(sc);
            m.append("' for package manager '");
            m.append(manager);
            m.append("'");
            m
        },
        None => {
            let mut m = String::from_str("Unknown package manager or default subcommand: ");
            m.append(manager);
            m
        },
    };
    UpdateError { kind: ErrorKind::Resolution, message }
}

fn make_no_command_error(op: Operation, manager: &str, sub: Option<&str>) -> (r: UpdateError)
    ensures
        r@ == no_command_error(op, manager@, name_view(sub)),
{
    let mut m = String::from_str("No ");
    match op {
        Operation::Check => m.append("check"),
        Operation::Update => m.append("update"),
    }
    m.append(" command specified for ");
    m.append(manager);
    if let Some(sc) = sub {
        m.append(":");
        m.append(sc);
    }
    UpdateError { kind: ErrorKind::NoCommandDefined, message: m }
}

/// A package manager, as plain values.
pub struct PackageManagerState {
    pub config: ConfigView,
    pub dry_run: bool,
    pub tracker: TrackerView,
}

impl View for PackageManager {
    type V = PackageManagerState;

    closed spec fn view(&self) -> PackageManagerState {
        PackageManagerState { config: self.config@, dry_run: self.dry_run, tracker: self.process_tracker@ }
    }
}

impl PackageManager {
    /// A package manager over the configuration, with a fresh tracker.
    pub fn with_dry_run(config: Config, dry_run: bool) -> (r: PackageManager)
        ensures
            r@.config == config@,
            r@.dry_run == dry_run,
            r@.tracker == (TrackerView { active: Set::empty(), shutdown: false }),
    {
        PackageManager { config, dry_run, process_tracker: ProcessTracker::new() }
    }

    /// A package manager that runs commands, over the configuration.
    pub fn new(config: Config) -> (r: PackageManager)
        ensures
            r@.config == config@,
            !r@.dry_run,
            r@.tracker == (TrackerView { active: Set::empty(), shutdown: false }),
    {
        Self::with_dry_run(config, false)
    }

    /// A package manager that runs commands, over the default configuration.
    pub fn with_default_config() -> (r: PackageManager)
        ensures
            r@.config == default_config(),
            !r@.dry_run,
            r@.tracker == (TrackerView { active: Set::empty(), shutdown: false }),
    {
        Self::with_dry_run(Config::default(), false)
    }

    /// The tracker of the processes that this package manager started.
    pub fn tracker(&self) -> (r: &ProcessTracker)
        ensures
            r@ == self@.tracker,
    {
        &self.process_tracker
    }

    /// Requests a shutdown, and returns the processes to send a termination
    /// signal to: every one that may still be running.
    pub fn cleanup(&mut self) -> (r: Vec<u32>)
        ensures
            final(self)@.tracker == old(self)@.tracker.request_shutdown(),
            final(self)@.config == old(self)@.config,
            final(self)@.dry_run == old(self)@.dry_run,
            r@.to_set() == old(self)@.tracker.active,
            r@.no_duplicates(),
    {
        self.process_tracker.request_shutdown();
        self.process_tracker.terminate_all_processes()
    }

    /// Handles an interrupt signal: requests a shutdown, and returns every
    /// process that may still be running, to be sent a termination signal,
    /// with the status to end the program with, 128 and the signal's number.
    pub fn interrupt(&mut self, signal: i32) -> (r: Interruption)
        requires
            signal <= i32::MAX - 128,
        ensures
            final(self)@.tracker == old(self)@.tracker.request_shutdown(),
            final(self)@.config == old(self)@.config,
            final(self)@.dry_run == old(self)@.dry_run,
            r.targets@.to_set() == old(self)@.tracker.active,
            r.targets@.no_duplicates(),
            r.exit_status == 128 + signal,
    {
        let targets = self.cleanup();
        Interruption { targets, exit_status: signal_exit_status(signal) }
    }

    /// A run of a command sequence, in this package manager's mode.
    pub fn execute_command(&self, command: &CommandSequence) -> (r: SequenceRun)
        ensures
            r@ == begin_run(command@.steps(), self@.dry_run, self@.tracker.shutdown),
    {
        SequenceRun::begin(command, self.dry_run, &self.process_tracker)
    }

    /// Takes in what came of a run's last action, and returns its next one.
    pub fn advance(&mut self, run: &mut SequenceRun, event: Event) -> (a: Action)
        ensures
            (final(run)@, final(self)@.tracker, a@) == old(run)@.next(old(self)@.tracker, event@),
            final(self)@.config == old(self)@.config,
            final(self)@.dry_run == old(self)@.dry_run,
    {
        run.advance(&mut self.process_tracker, event)
    }

    /// The run of an operation on a manager and an optional subcommand.
    fn start(&self, op: Operation, manager_name: &str, subcommand_name: Option<&str>) -> (r: SequenceRun)
        ensures
            r@ == operation_run(
                self@.config,
                self@.dry_run,
                self@.tracker.shutdown,
                op,
                manager_name@,
                name_view(subcommand_name),
            ),
    {
        let subcommand = match self.config.find_subcommand(manager_name, subcommand_name) {
            Some(sc) => sc,
            None => return SequenceRun::failed(make_resolution_error(manager_name, subcommand_name)),
        };
        let sequence = match op {
            Operation::Check => &subcommand.command.check,
            Operation::Update => &subcommand.command.update,
        };
        match sequence {
            Some(cs) => self.execute_command(cs),
            None => SequenceRun::failed(make_no_command_error(op, manager_name, subcommand_name)),
        }
    }

    /// The run of the check command of a manager's subcommand (without a
    /// name, of its default).
    pub fn check_with_subcommand(&self, manager_name: &str, subcommand_name: Option<&str>) -> (r: SequenceRun)
        ensures
            r@ == operation_run(
                self@.config,
                self@.dry_run,
                self@.tracker.shutdown,
                Operation::Check,
                manager_name@,
                name_view(subcommand_name),
            ),
    {
        self.start(Operation::Check, manager_name, subcommand_name)
    }

    /// The run of the update command of a manager's subcommand (without a
    /// name, of its default).
    pub fn update_with_subcommand(&self, manager_name: &str, subcommand_name: Option<&str>) -> (r: SequenceRun)
        ensures
            r@ == operation_run(
                self@.config,
                self@.dry_run,
                self@.tracker.shutdown,
                Operation::Update,
                manager_name@,
                name_view(subcommand_name),
            ),
    {
        self.start(Operation::Update, manager_name, subcommand_name)
    }

    /// The run of a manager's default check command.
    pub fn check(&self, manager_name: &str) -> (r: SequenceRun)
        ensures
            r@ == operation_run(
                self@.config,
                self@.dry_run,
                self@.tracker.shutdown,
                Operation::Check,
                manager_name@,
                None,
            ),
    {
        self.check_with_subcommand(manager_name, None)
    }

    /// The run of a manager's default update command.
    pub fn update(&self, manager_name: &str) -> (r: SequenceRun)
        ensures
            r@ == operation_run(
                self@.config,
                self@.dry_run,
                self@.tracker.shutdown,
                Operation::Update,
                manager_name@,
                None,
            ),
    {
        self.update_with_subcommand(manager_name, None)
    }
}

/// What to do on an interrupt: signal these processes, then end the
/// program with this status.
#[derive(Debug)]
pub struct Interruption {
    pub targets: Vec<u32>,
    pub exit_status: i32,
}

/// The exit status of a program that a signal ended: 128 and the signal's
/// number.
pub fn signal_exit_status(signal: i32) -> (r: i32)
    requires
        signal <= i32::MAX - 128,
    ensures
        r == 128 + signal,
{
    128 + signal
}

/// An operation on a package manager that the configuration lacks fails
/// with a resolution error, for checks and updates alike, and starts
/// nothing.
pub proof fn lemma_unknown_manager_is_resolution_error(
    config: ConfigView,
    dry_run: bool,
    shutdown: bool,
    manager: Seq<char>,
    sub: Option<Seq<char>>,
)
    requires
        config.find_package_manager(manager) is None,
    ensures
        operation_run(config, dry_run, shutdown, Operation::Check, manager, sub).phase
            == PhaseView::Done(Err(resolution_error(manager, sub))),
        operation_run(config, dry_run, shutdown, Operation::Update, manager, sub).phase
            == PhaseView::Done(Err(resolution_error(manager, sub))),
        resolution_error(manager, sub).kind == ErrorKind::Resolution,
{
}

} // verus!
