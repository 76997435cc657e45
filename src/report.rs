use crate::cli::{parsed_view, split_package_manager, Commands};
use crate::config::{first_with_id, Config};
use crate::executor::UpdateError;
use crate::package_manager::Operation;
use vstd::prelude::*;

verus! {

/// What came of one operation on one package manager, for the summary.
#[derive(Debug)]
pub struct ExecutionResult {
    pub success: bool,
    pub message: String,
}

/// An entry of a report, as plain values: name, success, message.
pub type EntryView = (Seq<char>, bool, Seq<char>);

/// The message for an operation that succeeded.
pub open spec fn success_message(op: Operation) -> Seq<char> {
    match op {
        Operation::Check => "Successfully checked for updates"@,
        Operation::Update => "Successfully updated"@,
    }
}

/// The summary entry for the outcome of an operation.
pub fn execution_result(op: Operation, outcome: &Result<(), UpdateError>) -> (r: ExecutionResult)
    ensures
        r.success == (outcome is Ok),
        r.message@ == match outcome {
            Ok(()) => success_message(op),
            Err(e) => "Error: "@ + ("Update error: "@ + e.message@),
        },
{
    match outcome {
        Ok(()) => {
            let message = match op {
                Operation::Check => String::from_str("Successfully checked for updates"),
                Operation::Update => String::from_str("Successfully updated"),
            };
            ExecutionResult { success: true, message }
        },
        Err(e) => {
            let mut message = String::from_str("Error: ");
            let shown = e.to_string();
            message.append(shown.as_str());
            ExecutionResult { success: false, message }
        },
    }
}

/// The name under which a manager and an optional subcommand are shown:
/// `manager` or `manager:subcommand`.
pub fn display_name(manager: &str, subcommand: Option<&str>) -> (r: String)
    ensures
        r@ == match subcommand {
            Some(sc) => manager@ + ":"@ + sc@,
            None => manager@,
        },
{
    let mut r = String::from_str(manager);
    if let Some(sc) = subcommand {
        r.append(":");
        r.append(sc);
    }
    r
}

impl Commands {
    /// The managers and subcommands that the command works on: the one
    /// named on the command line, else every configured manager with its
    /// default subcommand; none in interactive mode.
    pub fn execution_items(&self, config: &Config) -> (r: Vec<(String, Option<String>)>)
        ensures
            match self {
                Commands::Tui => r@.len() == 0,
                Commands::Check { package_manager: Some(pm), .. } | Commands::Update {
                    package_manager: Some(pm),
                    ..
                } => r@.len() == 1 && parsed_view(r@[0]) == split_package_manager(pm@),
                _ => r@.len() == config@.commands.len() && forall|i: int|
                    0 <= i < r@.len() ==> parsed_view(#[trigger] r@[i]) == (config@.commands[i].id, None::<Seq<char>>),
            },
    {
        let mut r: Vec<(String, Option<String>)> = Vec::new();
        match self.parse_package_manager() {
            Some(item) => {
                r.push(item);
                return r;
            },
            None => {},
        }
        if let Commands::Tui = self {
            return r;
        }
        let mut i: usize = 0;
        while i < config.commands.len()
            invariant
                i <= config.commands.len(),
                r@.len() == i,
                forall|j: int|
                    0 <= j < i ==> parsed_view(#[trigger] r@[j]) == (config@.commands[j].id, None::<Seq<char>>),
            decreases config.commands.len() - i,
        {
            r.push((config.commands[i].id.clone(), None));
            i = i + 1;
        }
        r
    }
}

/// The view of a report entry.
pub open spec fn entry_view(e: (String, ExecutionResult)) -> EntryView {
    (e.0@, e.1.success, e.1.message@)
}

/// The names of a report's entries, in order.
pub open spec fn entry_names(entries: Seq<EntryView>) -> Seq<Seq<char>> {
    entries.map_values(|e: EntryView| e.0)
}

/// The entries after recording a result: it replaces the entry of the same
/// name, where there is one, else it comes last.
pub open spec fn recorded(entries: Seq<EntryView>, e: EntryView) -> Seq<EntryView> {
    match first_with_id(entry_names(entries), e.0) {
        Some(i) => entries.update(i, e),
        None => entries.push(e),
    }
}

/// The number of entries that report success.
pub open spec fn success_count(entries: Seq<EntryView>) -> nat
    decreases entries.len(),
{
    if entries.len() == 0 {
        0
    } else {
        success_count(entries.drop_last()) + if entries.last().1 { 1nat } else { 0nat }
    }
}

/// The results of an operation over several package managers, one per
/// name, in the order in which the names first came.
#[derive(Debug)]
pub struct Report {
    entries: Vec<(String, ExecutionResult)>,
}

impl View for Report {
    type V = Seq<EntryView>;

    closed spec fn view(&self) -> Seq<EntryView> {
        self.entries@.map_values(|e: (String, ExecutionResult)| entry_view(e))
    }
}

impl Report {
    /// An empty report.
    pub fn new() -> (r: Report)
        ensures
            r@ == Seq::<EntryView>::empty(),
    {
        let r = Report { entries: Vec::new() };
        assert(r@ =~= Seq::<EntryView>::empty());
        r
    }

    /// Records the result for a name; a result recorded before under the
    /// same name is replaced.
    pub fn record(&mut self, name: String, result: ExecutionResult)
        ensures
            final(self)@ == recorded(old(self)@, (name@, result.success, result.message@)),
    {
        let ghost e: EntryView = (name@, result.success, result.message@);
        let ghost names = entry_names(self@);
        let mut i: usize = 0;
        while i < self.entries.len()
            invariant
                i <= self.entries.len(),
                self@ == old(self)@,
                e == (name@, result.success, result.message@),
                names == entry_names(self@),
                names.len() == self.entries.len(),
                self@.len() == self.entries.len(),
                forall|j: int| 0 <= j < i ==> names[j] != name@,
            decreases self.entries.len() - i,
        {
            if self.entries[i].0 == name {
                proof {
                    crate::config::lemma_first_with_id_found(names, name@, i as int);
                }
                let ghost before = self@;
                let ghost before_entries = self.entries@;
                self.entries.set(i, (name, result));
                assert(self.entries@ == before_entries.update(i as int, self.entries@[i as int]));
                assert(entry_view(self.entries@[i as int]) == e);
                assert forall|j: int| 0 <= j < before.len() implies self@[j] == before.update(i as int, e)[j] by {
                    if j != i {
                        assert(self.entries@[j] == before_entries[j]);
                    }
                }
                assert(self@ =~= before.update(i as int, e));
                return;
            }
            i = i + 1;
        }
        proof {
            crate::config::lemma_first_with_id_absent(names, name@);
        }
        let ghost before = self@;
        self.entries.push((name, result));
        assert(self@ =~= before.push(e));
    }

    /// The number of results that report success.
    pub fn success_count(&self) -> (r: usize)
        ensures
            r == success_count(self@),
    {
        let mut count: usize = 0;
        let mut i: usize = 0;
        while i < self.entries.len()
            invariant
                i <= self.entries.len(),
                self@.len() == self.entries.len(),
                count == success_count(self@.subrange(0, i as int)),
                count <= i,
            decreases self.entries.len() - i,
        {
            assert(self@.subrange(0, i as int + 1).drop_last() =~= self@.subrange(0, i as int));
            if self.entries[i].1.success {
                count = count + 1;
            }
            i = i + 1;
        }
        assert(self@.subrange(0, i as int) =~= self@);
        count
    }

    /// The number of results that report failure.
    pub fn failure_count(&self) -> (r: usize)
        ensures
            r == self@.len() - success_count(self@),
    {
        proof {
            lemma_success_count_bound(self@);
        }
        let s = self.success_count();
        self.entries.len() - s
    }

    /// The entries, in order.
    pub fn entries(&self) -> (r: &Vec<(String, ExecutionResult)>)
        ensures
            r@.map_values(|e: (String, ExecutionResult)| entry_view(e)) == self@,
    {
        &self.entries
    }
}

/// No more entries report success than there are entries.
proof fn lemma_success_count_bound(entries: Seq<EntryView>)
    ensures
        success_count(entries) <= entries.len(),
    decreases entries.len(),
{
    if entries.len() > 0 {
        lemma_success_count_bound(entries.drop_last());
    }
}

} // verus!
