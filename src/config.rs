use vstd::prelude::*;

verus! {

/// What a command sequence is, as plain values.
pub enum CommandSequenceView {
    Single(Seq<char>),
    Multiple(Seq<Seq<char>>),
}

impl CommandSequenceView {
    /// The command strings in the order in which they run.
    pub open spec fn steps(self) -> Seq<Seq<char>> {
        match self {
            CommandSequenceView::Single(s) => seq![s],
            CommandSequenceView::Multiple(v) => v,
        }
    }
}

/// The check and update sequences of one subcommand, as plain values.
pub struct UpdateCommandView {
    pub check: Option<CommandSequenceView>,
    pub update: Option<CommandSequenceView>,
}

/// A subcommand, as plain values.
pub struct SubcommandView {
    pub id: Seq<char>,
    pub command: UpdateCommandView,
}

/// A package manager's entry, as plain values.
pub struct PackageManagerView {
    pub id: Seq<char>,
    pub subcommands: Seq<SubcommandView>,
    pub check: Option<CommandSequenceView>,
    pub update: Option<CommandSequenceView>,
}

/// A whole configuration, as plain values.
pub struct ConfigView {
    pub commands: Seq<PackageManagerView>,
}

/// `i` is the first position in `ids` that holds `id`.
pub open spec fn is_first_with_id(ids: Seq<Seq<char>>, id: Seq<char>, i: int) -> bool {
    &&& 0 <= i < ids.len()
    &&& ids[i] == id
    &&& forall|j: int| 0 <= j < i ==> ids[j] != id
}

/// The first position in `ids` that holds `id`, if any.
pub open spec fn first_with_id(ids: Seq<Seq<char>>, id: Seq<char>) -> Option<int> {
    if exists|i: int| is_first_with_id(ids, id, i) {
        Some(choose|i: int| is_first_with_id(ids, id, i))
    } else {
        None
    }
}

/// A position that holds `id`, with none before it, is the first one.
pub(crate) proof fn lemma_first_with_id_found(ids: Seq<Seq<char>>, id: Seq<char>, i: int)
    requires
        is_first_with_id(ids, id, i),
    ensures
        first_with_id(ids, id) == Some(i),
{
    let k = choose|k: int| is_first_with_id(ids, id, k);
    assert(is_first_with_id(ids, id, k));
    if k < i {
        assert(ids[k] != id);
    } else if i < k {
        assert(ids[i] != id);
    }
}

/// Where no position holds `id`, there is no first one.
pub(crate) proof fn lemma_first_with_id_absent(ids: Seq<Seq<char>>, id: Seq<char>)
    requires
        forall|j: int| 0 <= j < ids.len() ==> ids[j] != id,
    ensures
        first_with_id(ids, id) is None,
{
}

/// The view of an optional command sequence.
pub open spec fn sequence_view(c: Option<CommandSequence>) -> Option<CommandSequenceView> {
    match c {
        Some(s) => Some(s@),
        None => None,
    }
}

/// The view of an optional name.
pub open spec fn name_view(n: Option<&str>) -> Option<Seq<char>> {
    match n {
        Some(s) => Some(s@),
        None => None,
    }
}

/// The id of the entry that every lookup without a subcommand tries first.
pub open spec fn default_id() -> Seq<char> {
    "default"@
}

impl SubcommandView {
    /// The ids of a list of subcommands, in order.
    pub open spec fn ids(s: Seq<SubcommandView>) -> Seq<Seq<char>> {
        s.map_values(|sc: SubcommandView| sc.id)
    }
}

impl PackageManagerView {
    /// The first subcommand with the given id.
    pub open spec fn find_subcommand(self, id: Seq<char>) -> Option<SubcommandView> {
        match first_with_id(SubcommandView::ids(self.subcommands), id) {
            Some(i) => Some(self.subcommands[i]),
            None => None,
        }
    }

    /// The subcommand named "default", else the first subcommand.
    pub open spec fn default_subcommand(self) -> Option<SubcommandView> {
        if self.find_subcommand(default_id()) is Some {
            self.find_subcommand(default_id())
        } else if self.subcommands.len() > 0 {
            Some(self.subcommands[0])
        } else {
            None
        }
    }

    /// The commands written directly on the manager, where there are any.
    pub open spec fn direct_command(self) -> Option<UpdateCommandView> {
        if self.check is Some || self.update is Some {
            Some(UpdateCommandView { check: self.check, update: self.update })
        } else {
            None
        }
    }

    /// The commands of the named subcommand; without a name, those of the
    /// default subcommand, else those written directly on the manager.
    pub open spec fn find_subcommand_command(self, id: Option<Seq<char>>) -> Option<UpdateCommandView> {
        match id {
            Some(sc_id) => match self.find_subcommand(sc_id) {
                Some(sc) => Some(sc.command),
                None => None,
            },
            None => match self.default_subcommand() {
                Some(sc) => Some(sc.command),
                None => self.direct_command(),
            },
        }
    }

    /// The subcommand that a lookup resolves to: the named one, or without a
    /// name the default subcommand, else one called "default" made of the
    /// manager's direct commands.
    pub open spec fn resolve(self, id: Option<Seq<char>>) -> Option<SubcommandView> {
        match id {
            Some(sc_id) => self.find_subcommand(sc_id),
            None => match self.default_subcommand() {
                Some(sc) => Some(sc),
                None => match self.direct_command() {
                    Some(c) => Some(SubcommandView { id: default_id(), command: c }),
                    None => None,
                },
            },
        }
    }
}

impl ConfigView {
    /// The ids of the package managers, in order.
    pub open spec fn ids(self) -> Seq<Seq<char>> {
        self.commands.map_values(|pm: PackageManagerView| pm.id)
    }

    /// The first package manager with the given id.
    pub open spec fn find_package_manager(self, id: Seq<char>) -> Option<PackageManagerView> {
        match first_with_id(self.ids(), id) {
            Some(i) => Some(self.commands[i]),
            None => None,
        }
    }

    /// The subcommand that a manager name and an optional subcommand name
    /// resolve to.
    pub open spec fn find_subcommand(self, manager_id: Seq<char>, id: Option<Seq<char>>) -> Option<SubcommandView> {
        match self.find_package_manager(manager_id) {
            Some(pm) => pm.resolve(id),
            None => None,
        }
    }
}

/// One shell command, or several that run in order.
#[derive(Debug)]
pub enum CommandSequence {
    Single(String),
    Multiple(Vec<String>),
}

impl View for CommandSequence {
    type V = CommandSequenceView;

    open spec fn view(&self) -> CommandSequenceView {
        match self {
            CommandSequence::Single(s) => CommandSequenceView::Single(s@),
            CommandSequence::Multiple(v) => CommandSequenceView::Multiple(v@.map_values(|s: String| s@)),
        }
    }
}

impl CommandSequence {
    /// The command, where the sequence was written as one string.
    pub fn as_single_str(&self) -> (r: Option<&str>)
        ensures
            match self@ {
                CommandSequenceView::Single(s) => r is Some && r.unwrap()@ == s,
                CommandSequenceView::Multiple(_) => r is None,
            },
    {
        match self {
            CommandSequence::Single(s) => Some(s.as_str()),
            _ => None,
        }
    }

    /// The commands, where the sequence was written as a list.
    pub fn as_multiple(&self) -> (r: Option<&Vec<String>>)
        ensures
            match self@ {
                CommandSequenceView::Single(_) => r is None,
                CommandSequenceView::Multiple(v) => r is Some && r.unwrap()@.map_values(|s: String| s@) == v,
            },
    {
        match self {
            CommandSequence::Multiple(v) => Some(v),
            _ => None,
        }
    }
}

/// A copy of a list of strings.
pub(crate) fn copy_strings(v: &Vec<String>) -> (r: Vec<String>)
    ensures
        r@ == v@,
{
    let mut r: Vec<String> = Vec::new();
    let mut i: usize = 0;
    while i < v.len()
        invariant
            i <= v.len(),
            r@ == v@.subrange(0, i as int),
        decreases v.len() - i,
    {
        r.push(v[i].clone());
        i = i + 1;
    }
    assert(r@ =~= v@);
    r
}

impl Clone for CommandSequence {
    fn clone(&self) -> (r: Self)
        ensures
            r@ == self@,
    {
        match self {
            CommandSequence::Single(s) => CommandSequence::Single(s.clone()),
            CommandSequence::Multiple(v) => CommandSequence::Multiple(copy_strings(v)),
        }
    }
}

/// A copy of an optional command sequence.
fn copy_sequence(c: &Option<CommandSequence>) -> (r: Option<CommandSequence>)
    ensures
        sequence_view(r) == sequence_view(*c),
{
    match c {
        Some(s) => Some(s.clone()),
        None => None,
    }
}

/// The check and update sequences of one subcommand.
#[derive(Debug)]
pub struct UpdateCommand {
    pub check: Option<CommandSequence>,
    pub update: Option<CommandSequence>,
}

impl View for UpdateCommand {
    type V = UpdateCommandView;

    open spec fn view(&self) -> UpdateCommandView {
        UpdateCommandView { check: sequence_view(self.check), update: sequence_view(self.update) }
    }
}

impl Clone for UpdateCommand {
    fn clone(&self) -> (r: Self)
        ensures
            r@ == self@,
    {
        UpdateCommand { check: copy_sequence(&self.check), update: copy_sequence(&self.update) }
    }
}

/// A named variant of a package manager's commands.
#[derive(Debug)]
pub struct SubcommandConfig {
    pub id: String,
    pub command: UpdateCommand,
}

impl View for SubcommandConfig {
    type V = SubcommandView;

    open spec fn view(&self) -> SubcommandView {
        SubcommandView { id: self.id@, command: self.command@ }
    }
}

impl Clone for SubcommandConfig {
    fn clone(&self) -> (r: Self)
        ensures
            r@ == self@,
    {
        SubcommandConfig { id: self.id.clone(), command: self.command.clone() }
    }
}


/// A package manager: its subcommands, and optionally commands written on it
/// directly.
#[derive(Debug)]
pub struct PackageManagerConfig {
    pub id: String,
    pub subcommands: Vec<SubcommandConfig>,
    pub check: Option<CommandSequence>,
    pub update: Option<CommandSequence>,
}

impl View for PackageManagerConfig {
    type V = PackageManagerView;

    open spec fn view(&self) -> PackageManagerView {
        PackageManagerView {
            id: self.id@,
            subcommands: self.subcommands@.map_values(|sc: SubcommandConfig| sc@),
            check: sequence_view(self.check),
            update: sequence_view(self.update),
        }
    }
}

impl PackageManagerConfig {
    /// The first subcommand with the given id.
    pub fn find_subcommand(&self, id: &str) -> (r: Option<&SubcommandConfig>)
        ensures
            match r {
                Some(sc) => self@.find_subcommand(id@) == Some(sc@),
                None => self@.find_subcommand(id@) is None,
            },
    {
        let key = id.to_owned();
        let ghost ids = SubcommandView::ids(self@.subcommands);
        let mut i: usize = 0;
        while i < self.subcommands.len()
            invariant
                i <= self.subcommands.len(),
                key@ == id@,
                ids == SubcommandView::ids(self@.subcommands),
                ids.len() == self.subcommands.len(),
                forall|j: int| 0 <= j < i ==> ids[j] != id@,
            decreases self.subcommands.len() - i,
        {
            if self.subcommands[i].id == key {
                proof {
                    lemma_first_with_id_found(ids, id@, i as int);
                }
                return Some(&self.subcommands[i]);
            }
            i = i + 1;
        }
        proof {
            lemma_first_with_id_absent(ids, id@);
        }
        None
    }

    /// The subcommand named "default", else the first subcommand.
    pub fn default_subcommand(&self) -> (r: Option<&SubcommandConfig>)
        ensures
            match r {
                Some(sc) => self@.default_subcommand() == Some(sc@),
                None => self@.default_subcommand() is None,
            },
    {
        let default_sc = self.find_subcommand("default");
        if default_sc.is_some() {
            return default_sc;
        }
        if self.subcommands.len() > 0 {
            return Some(&self.subcommands[0]);
        }
        None
    }

    /// The commands of the named subcommand; without a name, those of the
    /// default subcommand, else those written directly on the manager.
    pub fn find_subcommand_command(&self, subcommand_id: Option<&str>) -> (r: Option<UpdateCommand>)
        ensures
            match r {
                Some(c) => self@.find_subcommand_command(name_view(subcommand_id)) == Some(c@),
                None => self@.find_subcommand_command(name_view(subcommand_id)) is None,
            },
    {
        match subcommand_id {
            Some(sc_id) => match self.find_subcommand(sc_id) {
                Some(sc) => Some(sc.command.clone()),
                None => None,
            },
            None => {
                if let Some(sc) = self.default_subcommand() {
                    return Some(sc.command.clone());
                }
                if self.check.is_some() || self.update.is_some() {
                    return Some(
                        UpdateCommand {
                            check: copy_sequence(&self.check),
                            update: copy_sequence(&self.update),
                        },
                    );
                }
                None
            },
        }
    }
}

/// The package managers that the tool knows, in the order written.
#[derive(Debug)]
pub struct Config {
    pub commands: Vec<PackageManagerConfig>,
}

impl View for Config {
    type V = ConfigView;

    open spec fn view(&self) -> ConfigView {
        ConfigView { commands: self.commands@.map_values(|pm: PackageManagerConfig| pm@) }
    }
}

/// The configuration used when none is given.
pub open spec fn default_config() -> ConfigView {
    ConfigView {
        commands: seq![
            PackageManagerView {
                id: "homebrew"@,
                subcommands: seq![
                    SubcommandView {
                        id: default_id(),
                        command: UpdateCommandView {
                            check: Some(CommandSequenceView::Single("brew outdated"@)),
                            update: Some(CommandSequenceView::Single("brew upgrade"@)),
                        },
                    },
                ],
                check: None,
                update: None,
            },
        ],
    }
}

/// A subcommand entry made of one check command and one update command.
fn single_step_subcommand(id: &str, check: &str, update: &str) -> (r: SubcommandConfig)
    ensures
        r@ == (SubcommandView {
            id: id@,
            command: UpdateCommandView {
                check: Some(CommandSequenceView::Single(check@)),
                update: Some(CommandSequenceView::Single(update@)),
            },
        }),
{
    SubcommandConfig {
        id: String::from_str(id),
        command: UpdateCommand {
            check: Some(CommandSequence::Single(String::from_str(check))),
            update: Some(CommandSequence::Single(String::from_str(update))),
        },
    }
}

impl Config {
    /// The configuration used when none is given: Homebrew, whose default
    /// subcommand checks with `brew outdated` and updates with `brew upgrade`.
    pub fn default() -> (r: Config)
        ensures
            r@ == default_config(),
    {
        let mut subcommands: Vec<SubcommandConfig> = Vec::new();
        subcommands.push(single_step_subcommand("default", "brew outdated", "brew upgrade"));
        let mut commands: Vec<PackageManagerConfig> = Vec::new();
        commands.push(
            PackageManagerConfig {
                id: String::from_str("homebrew"),
                subcommands,
                check: None,
                update: None,
            },
        );
        let r = Config { commands };
        assert(r@.commands =~= seq![r@.commands[0]]);
        assert(r@.commands[0].subcommands =~= seq![r@.commands[0].subcommands[0]]);
        r
    }

    /// The first package manager with the given id.
    pub fn find_package_manager(&self, id: &str) -> (r: Option<&PackageManagerConfig>)
        ensures
            match r {
                Some(pm) => self@.find_package_manager(id@) == Some(pm@),
                None => self@.find_package_manager(id@) is None,
            },
    {
        let key = id.to_owned();
        let ghost ids = self@.ids();
        let mut i: usize = 0;
        while i < self.commands.len()
            invariant
                i <= self.commands.len(),
                key@ == id@,
                ids == self@.ids(),
                ids.len() == self.commands.len(),
                forall|j: int| 0 <= j < i ==> ids[j] != id@,
            decreases self.commands.len() - i,
        {
            if self.commands[i].id == key {
                proof {
                    lemma_first_with_id_found(ids, id@, i as int);
                }
                return Some(&self.commands[i]);
            }
            i = i + 1;
        }
        proof {
            lemma_first_with_id_absent(ids, id@);
        }
        None
    }

    /// The subcommand that a manager name and an optional subcommand name
    /// resolve to: the named subcommand; without a name, the manager's
    /// default subcommand, else one called "default" made of the commands
    /// written directly on the manager.
    pub fn find_subcommand(&self, manager_id: &str, subcommand_id: Option<&str>) -> (r: Option<SubcommandConfig>)
        ensures
            match r {
                Some(sc) => self@.find_subcommand(manager_id@, name_view(subcommand_id)) == Some(sc@),
                None => self@.find_subcommand(manager_id@, name_view(subcommand_id)) is None,
            },
    {
        let manager = match self.find_package_manager(manager_id) {
            Some(m) => m,
            None => return None,
        };
        if let Some(sc_id) = subcommand_id {
            if let Some(sc) = manager.find_subcommand(sc_id) {
                return Some(sc.clone());
            }
            return None;
        }
        if let Some(sc) = manager.default_subcommand() {
            return Some(sc.clone());
        }
        if manager.check.is_some() || manager.update.is_some() {
            return Some(
                SubcommandConfig {
                    id: String::from_str("default"),
                    command: UpdateCommand {
                        check: copy_sequence(&manager.check),
                        update: copy_sequence(&manager.update),
                    },
                },
            );
        }
        None
    }
}

/// A field of a configuration entry, as far as its shape decides what it
/// holds: a string, a list (each item its string, or none where the item is
/// not a string), or anything else.
#[derive(Debug)]
pub enum FieldValue {
    Text(String),
    List(Vec<Option<String>>),
    Other,
}

/// The text of a list item that is a string.
pub open spec fn item_text(o: Option<String>) -> Seq<char> {
    match o {
        Some(s) => s@,
        None => Seq::empty(),
    }
}

/// The command sequence that a field holds: a string is one command, a list
/// of strings several, anything else none; a list with an item that is not
/// a string is an error.
pub open spec fn field_sequence(v: FieldValue) -> Result<Option<CommandSequenceView>, ()> {
    match v {
        FieldValue::Text(s) => Ok(Some(CommandSequenceView::Single(s@))),
        FieldValue::List(items) => if forall|i: int| 0 <= i < items@.len() ==> (#[trigger] items@[i]) is Some {
            Ok(Some(CommandSequenceView::Multiple(items@.map_values(|o: Option<String>| item_text(o)))))
        } else {
            Err(())
        },
        FieldValue::Other => Ok(None),
    }
}

/// The view of a field's command sequence, or of the failure to read one.
pub open spec fn read_view(r: Result<Option<CommandSequence>, String>) -> Result<Option<CommandSequenceView>, ()> {
    match r {
        Ok(c) => Ok(sequence_view(c)),
        Err(_) => Err(()),
    }
}

/// Reads the command sequence that a field holds.
pub fn command_sequence_from_field(v: &FieldValue) -> (r: Result<Option<CommandSequence>, String>)
    ensures
        read_view(r) == field_sequence(*v),
        r matches Err(m) ==> m@ == "Expected string in command sequence"@,
{
    match v {
        FieldValue::Text(s) => Ok(Some(CommandSequence::Single(s.clone()))),
        FieldValue::List(items) => {
            let mut commands: Vec<String> = Vec::new();
            let mut i: usize = 0;
            while i < items.len()
                invariant
                    *v == FieldValue::List(*items),
                    i <= items.len(),
                    commands@.len() == i,
                    forall|j: int| 0 <= j < i ==> (#[trigger] items@[j]) is Some,
                    forall|j: int| 0 <= j < i ==> commands@[j]@ == item_text(#[trigger] items@[j]),
                decreases items.len() - i,
            {
                match &items[i] {
                    Some(s) => commands.push(s.clone()),
                    None => {
                        assert(!(items@[i as int] is Some));
                        return Err(String::from_str("Expected string in command sequence"));
                    },
                }
                i = i + 1;
            }
            assert(commands@.map_values(|s: String| s@) =~= items@.map_values(|o: Option<String>| item_text(o)));
            let r = CommandSequence::Multiple(commands);
            assert(r@ == CommandSequenceView::Multiple(items@.map_values(|o: Option<String>| item_text(o))));
            Ok(Some(r))
        },
        FieldValue::Other => Ok(None),
    }
}

impl UpdateCommand {
    /// The check and update sequences read from an entry's `check` and
    /// `update` fields, where present; an error where either field is a
    /// list with an item that is not a string.
    pub fn from_fields(check: Option<&FieldValue>, update: Option<&FieldValue>) -> (r: Result<UpdateCommand, String>)
        ensures
            match r {
                Ok(c) => {
                    &&& check matches Some(f) ==> field_sequence(*f) == Ok::<Option<CommandSequenceView>, ()>(c@.check)
                    &&& check is None ==> c@.check is None
                    &&& update matches Some(f) ==> field_sequence(*f) == Ok::<Option<CommandSequenceView>, ()>(c@.update)
                    &&& update is None ==> c@.update is None
                },
                Err(m) => {
                    &&& m@ == "Expected string in command sequence"@
                    &&& (check matches Some(f) && field_sequence(*f) is Err) || (update matches Some(f)
                        && field_sequence(*f) is Err)
                },
            },
            r is Err <==> (check matches Some(f) && field_sequence(*f) is Err) || (update matches Some(f)
                && field_sequence(*f) is Err),
    {
        let check = match check {
            Some(f) => match command_sequence_from_field(f) {
                Ok(c) => c,
                Err(m) => return Err(m),
            },
            None => None,
        };
        let update = match update {
            Some(f) => match command_sequence_from_field(f) {
                Ok(c) => c,
                Err(m) => return Err(m),
            },
            None => None,
        };
        Ok(UpdateCommand { check, update })
    }
}

} // verus!
