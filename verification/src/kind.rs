//! The kinds of subcommand, and the names they go by.

use vstd::prelude::*;
use crate::error::SubCommandError;

verus! {

/// The subcommand that a command line invokes. Its name is also the name of
/// the table that holds its settings in the configuration file.
#[derive(Clone, Copy, Debug, PartialEq, Eq, Structural)]
pub enum Kind {
    /// Represents a container command in the cli application.
    Container,
    /// Represents a directory command in the cli application.
    Directory,
    /// Represents a hadoop command in the cli application.
    Hadoop,
}

/// The kind that goes by `name`, if there is one. Names are matched exactly.
pub open spec fn kind_named(name: Seq<char>) -> Option<Kind> {
    if name == "container"@ {
        Some(Kind::Container)
    } else if name == "directory"@ {
        Some(Kind::Directory)
    } else if name == "hadoop"@ {
        Some(Kind::Hadoop)
    } else {
        None
    }
}

impl Kind {
    /// The name of this kind.
    pub open spec fn name_spec(self) -> Seq<char> {
        match self {
            Kind::Container => "container"@,
            Kind::Directory => "directory"@,
            Kind::Hadoop => "hadoop"@,
        }
    }

    /// The name of this kind, as the command line and the file spell it.
    pub fn name(&self) -> (r: &'static str)
        ensures
            r@ == self.name_spec(),
    {
        match self {
            Kind::Container => "container",
            Kind::Directory => "directory",
            Kind::Hadoop => "hadoop",
        }
    }

    /// The name of this kind as an owned string.
    pub fn to_string(&self) -> (r: String)
        ensures
            r@ == self.name_spec(),
    {
        self.name().to_owned()
    }

    /// Reads a kind from its name; any other text is an unknown subcommand.
    pub fn from_str(s: &str) -> (r: Result<Kind, SubCommandError>)
        ensures
            r == match kind_named(s@) {
                Some(k) => Ok::<Kind, SubCommandError>(k),
                None => Err::<Kind, SubCommandError>(SubCommandError::Unknown),
            },
    {
        match parse_kind(s) {
            Some(k) => Ok(k),
            None => Err(SubCommandError::Unknown),
        }
    }
}

/// Looks a kind up by its name.
pub fn parse_kind(kind: &str) -> (r: Option<Kind>)
    ensures
        r == kind_named(kind@),
{
    let text: String = kind.to_owned();
    if text == "container".to_owned() {
        Some(Kind::Container)
    } else if text == "directory".to_owned() {
        Some(Kind::Directory)
    } else if text == "hadoop".to_owned() {
        Some(Kind::Hadoop)
    } else {
        None
    }
}

/// The three names are pairwise different, so none of them can stand for two kinds.
pub proof fn lemma_names_differ()
    ensures
        "container"@ != "directory"@,
        "container"@ != "hadoop"@,
        "directory"@ != "hadoop"@,
{
    reveal_strlit("container");
    reveal_strlit("directory");
    reveal_strlit("hadoop");
    assert("container"@[0] == 'c');
    assert("directory"@[0] == 'd');
    assert("hadoop"@[0] == 'h');
}

/// A kind is found again under its own name, and a name that finds a kind is
/// that kind's name.
pub proof fn lemma_kind_name_round_trip(kind: Kind, name: Seq<char>)
    ensures
        kind_named(kind.name_spec()) == Some(kind),
        kind_named(name) == Some(kind) <==> name == kind.name_spec(),
{
    lemma_names_differ();
}

} // verus!
