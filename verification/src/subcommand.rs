//! The subcommand that was invoked, with its arguments.

use vstd::prelude::*;
use crate::arg_matches::{
    default_ids,
    distinct_ids,
    source_of,
    value_of,
    ArgMatches,
    ArgView,
    ValueSource,
};
use crate::kind::Kind;
use crate::text::{slices_of, text_of, texts_of};

verus! {

/// The view of a command line for one subcommand.
#[derive(Debug, PartialEq, Eq)]
pub struct SubCommand {
    kind: Kind,
    matches: ArgMatches,
}

/// A subcommand as contracts see it: its kind and its arguments.
pub struct SubCommandView {
    pub kind: Kind,
    pub args: Seq<ArgView>,
}

impl View for SubCommand {
    type V = SubCommandView;

    closed spec fn view(&self) -> SubCommandView {
        SubCommandView { kind: self.kind, args: self.matches@ }
    }
}

impl Clone for SubCommand {
    fn clone(&self) -> (r: Self)
        ensures
            r@ == self@,
    {
        SubCommand { kind: self.kind, matches: self.matches.clone() }
    }
}

impl SubCommand {
    /// Puts the kind of the subcommand that was invoked together with its
    /// parsed arguments.
    pub fn new(kind: Kind, matches: ArgMatches) -> (r: Self)
        ensures
            r@ == (SubCommandView { kind, args: matches@ }),
            distinct_ids(r@.args),
    {
        proof {
            use_type_invariant(&matches);
        }
        SubCommand { kind, matches }
    }

    /// The kind of the subcommand.
    pub fn kind(&self) -> (r: Kind)
        ensures
            r == self@.kind,
    {
        self.kind
    }

    /// The name of the subcommand, which is also the name of its table in
    /// the configuration file.
    pub fn name(&self) -> (r: &'static str)
        ensures
            r@ == self@.kind.name_spec(),
    {
        self.kind.name()
    }

    /// The arguments of the subcommand.
    pub fn matches(&self) -> (r: &ArgMatches)
        ensures
            r@ == self@.args,
    {
        &self.matches
    }

    /// The ids of the arguments that nobody supplied, so that their value is
    /// the declared default, but for the ids in `exclude`; in the order of
    /// the command line. These are the arguments that the configuration file
    /// may override.
    pub fn try_get_default_value_matches(&self, exclude: &[&str]) -> (r: Vec<String>)
        ensures
            texts_of(r@) == default_ids(self@.args, slices_of(exclude@)),
            forall|id: Seq<char>|
                texts_of(r@).contains(id) <==> (source_of(self@.args, id) == Some(
                    ValueSource::DefaultValue,
                ) && !slices_of(exclude@).contains(id)),
    {
        self.matches.default_value_ids(exclude)
    }

    /// The value of the argument `id`, as the command line settled it among
    /// flag, environment and default; nothing where the subcommand has no
    /// such argument, or the argument has no value.
    pub fn try_get_one_arg(&self, id: &str) -> (r: Option<String>)
        ensures
            text_of(r) == value_of(self@.args, id@),
    {
        match self.matches.get_one(id) {
            Some(v) => Some(v.clone()),
            None => None,
        }
    }
}

} // verus!
