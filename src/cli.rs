use vstd::prelude::*;

verus! {

/// The options of the command line.
#[derive(Debug)]
pub struct Cli {
    /// The configuration file, where one is given.
    pub config: Option<String>,
    /// Whether to log in detail.
    pub verbose: bool,
    pub command: Commands,
}

/// The operation chosen on the command line.
#[derive(Debug)]
pub enum Commands {
    /// Check for available updates, of one package manager
    /// (`manager[:subcommand]`) or of all.
    Check { package_manager: Option<String>, dry_run: bool },
    /// Perform updates, of one package manager (`manager[:subcommand]`) or
    /// of all.
    Update { package_manager: Option<String>, dry_run: bool },
    /// Interactive mode.
    Tui,
}

/// `i` is the position of the first ':' in `s`.
pub open spec fn is_first_colon(s: Seq<char>, i: int) -> bool {
    &&& 0 <= i < s.len()
    &&& s[i] == ':'
    &&& forall|j: int| 0 <= j < i ==> s[j] != ':'
}

/// A `manager[:subcommand]` argument split at its first ':': the manager,
/// and everything after that ':' as the subcommand.
pub open spec fn split_package_manager(s: Seq<char>) -> (Seq<char>, Option<Seq<char>>) {
    if exists|i: int| is_first_colon(s, i) {
        let i = choose|i: int| is_first_colon(s, i);
        (s.subrange(0, i), Some(s.subrange(i + 1, s.len() as int)))
    } else {
        (s, None)
    }
}

/// The view of a parsed `manager[:subcommand]` argument.
pub open spec fn parsed_view(p: (String, Option<String>)) -> (Seq<char>, Option<Seq<char>>) {
    (
        p.0@,
        match p.1 {
            Some(s) => Some(s@),
            None => None,
        },
    )
}

/// Splits a `manager[:subcommand]` argument at its first ':'.
fn split_at_first_colon(s: &str) -> (r: (String, Option<String>))
    ensures
        parsed_view(r) == split_package_manager(s@),
{
    let n = s.unicode_len();
    let mut i: usize = 0;
    while i < n
        invariant
            n == s@.len(),
            i <= n,
            forall|j: int| 0 <= j < i ==> s@[j] != ':',
        decreases n - i,
    {
        if s.get_char(i) == ':' {
            proof {
                let k = choose|k: int| is_first_colon(s@, k);
                assert(is_first_colon(s@, i as int));
                if k < i {
                    assert(s@[k] != ':');
                } else if k > i {
                    assert(s@[i as int] != ':');
                }
            }
            let manager = String::from_str(s.substring_char(0, i));
            let subcommand = String::from_str(s.substring_char(i + 1, n));
            return (manager, Some(subcommand));
        }
        i = i + 1;
    }
    (String::from_str(s), None)
}

impl Commands {
    /// Whether the command asks for a dry run.
    pub fn is_dry_run(&self) -> (r: bool)
        ensures
            r == match self {
                Commands::Check { dry_run, .. } => *dry_run,
                Commands::Update { dry_run, .. } => *dry_run,
                Commands::Tui => false,
            },
    {
        match self {
            Commands::Check { dry_run, .. } => *dry_run,
            Commands::Update { dry_run, .. } => *dry_run,
            Commands::Tui => false,
        }
    }

    /// The package manager argument, split into the manager and the
    /// subcommand at its first ':'; none without such an argument.
    pub fn parse_package_manager(&self) -> (r: Option<(String, Option<String>)>)
        ensures
            match self {
                Commands::Check { package_manager: Some(pm), .. } => r is Some && parsed_view(r.unwrap())
                    == split_package_manager(pm@),
                Commands::Update { package_manager: Some(pm), .. } => r is Some && parsed_view(r.unwrap())
                    == split_package_manager(pm@),
                _ => r is None,
            },
    {
        let package_manager = match self {
            Commands::Check { package_manager, .. } => package_manager,
            Commands::Update { package_manager, .. } => package_manager,
            Commands::Tui => return None,
        };
        match package_manager {
            Some(pm) => Some(split_at_first_colon(pm.as_str())),
            None => None,
        }
    }
}

} // verus!
