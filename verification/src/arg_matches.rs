//! The parsed command line as this library sees it: for each argument its
//! value and the place that the value came from.

use vstd::prelude::*;
use crate::text::{slices_hold, slices_of, text_of, texts_of};

verus! {

/// Where the value of an argument came from.
#[derive(Clone, Copy, Debug, PartialEq, Eq, Structural)]
pub enum ValueSource {
    /// Nobody supplied the argument: its value is the default that the
    /// command line declares for it.
    DefaultValue,
    /// The value was read from an environment variable.
    EnvVariable,
    /// The value was given as a flag on the command line.
    CommandLine,
}

impl ValueSource {
    /// Whether somebody supplied the value, by a flag or by the environment.
    pub open spec fn spec_is_explicit(&self) -> bool {
        *self != ValueSource::DefaultValue
    }

    /// Whether somebody supplied the value, by a flag or by the environment.
    /// Such a value is never overridden by the configuration file.
    #[verifier::when_used_as_spec(spec_is_explicit)]
    pub fn is_explicit(&self) -> (r: bool)
        ensures
            r == self.spec_is_explicit(),
    {
        match self {
            ValueSource::DefaultValue => false,
            ValueSource::EnvVariable => true,
            ValueSource::CommandLine => true,
        }
    }
}

/// One argument of a parsed command line, as contracts see it.
pub struct ArgView {
    pub id: Seq<char>,
    pub source: ValueSource,
    pub value: Option<Seq<char>>,
}

/// No two arguments have the same id.
pub open spec fn distinct_ids(args: Seq<ArgView>) -> bool {
    forall|i: int, j: int| 0 <= i < j < args.len() ==> args[i].id != args[j].id
}

/// The argument with the id `id`: the first of that id, or nothing where
/// none has it.
pub open spec fn arg_of(args: Seq<ArgView>, id: Seq<char>) -> Option<ArgView>
    decreases args.len(),
{
    if args.len() == 0 {
        None
    } else if args[0].id == id {
        Some(args[0])
    } else {
        arg_of(args.drop_first(), id)
    }
}

/// Where the value of the argument `id` came from; nothing for an id that
/// the command line does not have.
pub open spec fn source_of(args: Seq<ArgView>, id: Seq<char>) -> Option<ValueSource> {
    match arg_of(args, id) {
        Some(arg) => Some(arg.source),
        None => None,
    }
}

/// The value of the argument `id`; nothing for an id that the command line
/// does not have, and for an argument without a value.
pub open spec fn value_of(args: Seq<ArgView>, id: Seq<char>) -> Option<Seq<char>> {
    match arg_of(args, id) {
        Some(arg) => arg.value,
        None => None,
    }
}

/// `args` after `arg` was recorded: it takes the place of the argument with
/// its id, or comes last where there is none.
pub open spec fn record(args: Seq<ArgView>, arg: ArgView) -> Seq<ArgView>
    decreases args.len(),
{
    if args.len() == 0 {
        seq![arg]
    } else if args[0].id == arg.id {
        seq![arg] + args.drop_first()
    } else {
        seq![args[0]] + record(args.drop_first(), arg)
    }
}

/// The id of `arg` where its value is a default and `exclude` does not hold
/// its id.
pub open spec fn defaulted(arg: ArgView, exclude: Seq<Seq<char>>) -> Option<Seq<char>> {
    if arg.source == ValueSource::DefaultValue && !exclude.contains(arg.id) {
        Some(arg.id)
    } else {
        None
    }
}

/// The ids of the arguments whose value is a default, but for those in
/// `exclude`, in the order of the command line.
pub open spec fn default_ids(args: Seq<ArgView>, exclude: Seq<Seq<char>>) -> Seq<Seq<char>> {
    args.filter_map(|arg: ArgView| defaulted(arg, exclude))
}

/// An argument that stands at some index is the one that its id finds.
pub proof fn lemma_arg_of_index(args: Seq<ArgView>, i: int)
    requires
        distinct_ids(args),
        0 <= i < args.len(),
    ensures
        arg_of(args, args[i].id) == Some(args[i]),
    decreases args.len(),
{
    if i > 0 {
        lemma_arg_of_index(args.drop_first(), i - 1);
    }
}

/// What an id finds stands at some index and has that id.
pub proof fn lemma_arg_of_found(args: Seq<ArgView>, id: Seq<char>)
    ensures
        match arg_of(args, id) {
            Some(arg) => arg.id == id && args.contains(arg),
            None => forall|i: int| 0 <= i < args.len() ==> args[i].id != id,
        },
    decreases args.len(),
{
    if args.len() > 0 && args[0].id != id {
        let rest = args.drop_first();
        lemma_arg_of_found(rest, id);
        if arg_of(rest, id) is None {
            assert forall|i: int| 0 < i < args.len() implies args[i].id != id by {
                assert(rest[i - 1] == args[i]);
            }
        }
    }
}

/// An argument whose value is a default, and whose id is not excluded, has
/// its id among the default ids.
proof fn lemma_default_ids_holds(args: Seq<ArgView>, exclude: Seq<Seq<char>>, i: int)
    requires
        0 <= i < args.len(),
        defaulted(args[i], exclude) is Some,
    ensures
        default_ids(args, exclude).contains(args[i].id),
    decreases args.len(),
{
    let f = |arg: ArgView| defaulted(arg, exclude);
    let rest = args.drop_last();
    let before = rest.filter_map(f);
    if i == args.len() - 1 {
        let through = before + seq![args[i].id];
        assert(through[through.len() - 1] == args[i].id);
    } else {
        lemma_default_ids_holds(rest, exclude, i);
        let k = choose|k: int| 0 <= k < before.len() && before[k] == args[i].id;
        if f(args.last()) is Some {
            assert((before + seq![args.last().id])[k] == args[i].id);
        }
    }
}

/// The default ids are the ids whose value came from no one, less the
/// excluded ones: an id is among them exactly if its argument's source is
/// the default and `exclude` does not hold it.
pub proof fn lemma_default_ids_contains(args: Seq<ArgView>, exclude: Seq<Seq<char>>, id: Seq<char>)
    requires
        distinct_ids(args),
    ensures
        default_ids(args, exclude).contains(id) <==> (source_of(args, id) == Some(
            ValueSource::DefaultValue,
        ) && !exclude.contains(id)),
{
    let f = |arg: ArgView| defaulted(arg, exclude);
    lemma_arg_of_found(args, id);
    if default_ids(args, exclude).contains(id) {
        args.lemma_filter_map_contains(f, id);
        let t = choose|t: ArgView| #[trigger] args.contains(t) && f(t) == Some(id);
        let k = choose|k: int| 0 <= k < args.len() && args[k] == t;
        lemma_arg_of_index(args, k);
    }
    if source_of(args, id) == Some(ValueSource::DefaultValue) && !exclude.contains(id) {
        let arg = arg_of(args, id)->0;
        let k = choose|k: int| 0 <= k < args.len() && args[k] == arg;
        lemma_default_ids_holds(args, exclude, k);
    }
}

/// Recording an argument that is already there changes nothing.
pub proof fn lemma_record_same(args: Seq<ArgView>, arg: ArgView)
    requires
        arg_of(args, arg.id) == Some(arg),
    ensures
        record(args, arg) == args,
    decreases args.len(),
{
    if args.len() > 0 && args[0].id != arg.id {
        lemma_record_same(args.drop_first(), arg);
    }
}

/// After an argument was recorded its id finds it, every other id finds
/// what it found before, and the ids are still distinct: each argument has
/// the recorded id or stands where it stood, and at most one was added.
pub proof fn lemma_record_finds(args: Seq<ArgView>, arg: ArgView)
    requires
        distinct_ids(args),
    ensures
        distinct_ids(record(args, arg)),
        arg_of(record(args, arg), arg.id) == Some(arg),
        forall|other: Seq<char>|
            other != arg.id ==> arg_of(record(args, arg), other) == arg_of(args, other),
        record(args, arg).len() == args.len() || record(args, arg).len() == args.len() + 1,
        forall|i: int|
            0 <= i < record(args, arg).len() ==> (#[trigger] record(args, arg)[i]).id == arg.id || (
            i < args.len() && record(args, arg)[i] == args[i]),
    decreases args.len(),
{
    let after = record(args, arg);
    if args.len() == 0 {
        assert forall|other: Seq<char>| other != arg.id implies arg_of(after, other) is None by {
            assert(arg_of(after, other) == arg_of(after.drop_first(), other));
        }
    } else if args[0].id == arg.id {
        assert(after.drop_first() =~= args.drop_first());
        assert forall|i: int, j: int| 0 <= i < j < after.len() implies after[i].id != after[j].id by {
            assert(after[j] == args[j]);
        }
    } else {
        let rest = args.drop_first();
        let tail = record(rest, arg);
        lemma_record_finds(rest, arg);
        assert(after.drop_first() =~= tail);
        assert forall|i: int| 0 < i < after.len() implies after[i].id == arg.id || (i < args.len()
            && after[i] == args[i]) by {
            assert(after[i] == tail[i - 1]);
        }
        assert forall|i: int, j: int| 0 <= i < j < after.len() implies after[i].id != after[j].id by {
            assert(after[j] == tail[j - 1]);
            if i > 0 {
                assert(after[i] == tail[i - 1]);
            }
        }
        assert forall|other: Seq<char>| other != arg.id implies arg_of(after, other) == arg_of(
            args,
            other,
        ) by {
            assert(arg_of(tail, other) == arg_of(rest, other));
        }
    }
}

/// One argument of a parsed command line.
#[derive(Debug, PartialEq, Eq)]
struct MatchedArg {
    id: String,
    source: ValueSource,
    value: Option<String>,
}

impl View for MatchedArg {
    type V = ArgView;

    closed spec fn view(&self) -> ArgView {
        ArgView { id: self.id@, source: self.source, value: text_of(self.value) }
    }
}

/// The arguments of one parsed command line, each with its value and the
/// source of that value. No two of them have the same id.
#[derive(Debug, PartialEq, Eq)]
pub struct ArgMatches {
    args: Vec<MatchedArg>,
}

impl View for ArgMatches {
    type V = Seq<ArgView>;

    closed spec fn view(&self) -> Seq<ArgView> {
        self.args@.map_values(|arg: MatchedArg| arg@)
    }
}

impl MatchedArg {
    /// A copy of this argument.
    fn copy(&self) -> (r: MatchedArg)
        ensures
            r@ == self@,
    {
        let value: Option<String> = match &self.value {
            Some(v) => Some(v.clone()),
            None => None,
        };
        MatchedArg { id: self.id.clone(), source: self.source, value }
    }
}

impl Clone for ArgMatches {
    /// A copy of the command line, argument by argument.
    fn clone(&self) -> (r: Self)
        ensures
            r@ == self@,
    {
        proof {
            use_type_invariant(self);
        }
        let mut args: Vec<MatchedArg> = Vec::new();
        let mut i: usize = 0;
        while i < self.args.len()
            invariant
                i <= self.args.len(),
                args@.map_values(|a: MatchedArg| a@) =~= self@.take(i as int),
            decreases self.args.len() - i,
        {
            assert(self@.take(i + 1) =~= self@.take(i as int).push(self@[i as int]));
            args.push(self.args[i].copy());
            i += 1;
        }
        ArgMatches { args }
    }
}

impl ArgMatches {
    /// What holds of every command line: no two arguments have the same id.
    #[verifier::type_invariant]
    pub open spec fn ids_are_distinct(self) -> bool {
        distinct_ids(self@)
    }

    /// A command line without arguments.
    pub fn new() -> (r: Self)
        ensures
            r@ == Seq::<ArgView>::empty(),
    {
        ArgMatches { args: Vec::new() }
    }

    /// The number of arguments.
    pub fn len(&self) -> (r: usize)
        ensures
            r == self@.len(),
    {
        self.args.len()
    }

    /// Records the argument `id` with its value and the source of that
    /// value. It replaces what was recorded for `id` before.
    pub fn insert(&mut self, id: &str, source: ValueSource, value: Option<&str>)
        ensures
            final(self)@ == record(
                old(self)@,
                ArgView {
                    id: id@,
                    source,
                    value: match value {
                        Some(v) => Some(v@),
                        None => None,
                    },
                },
            ),
            distinct_ids(final(self)@),
    {
        proof {
            use_type_invariant(&*self);
        }
        let owned: Option<String> = match value {
            Some(v) => Some(v.to_owned()),
            None => None,
        };
        let arg = MatchedArg { id: id.to_owned(), source, value: owned };
        let ghost before = self@;
        let ghost view = arg@;
        let mut args: Vec<MatchedArg> = Vec::new();
        core::mem::swap(&mut self.args, &mut args);
        let mut i: usize = 0;
        assert(before.skip(0) =~= before);
        while i < args.len()
            invariant
                i <= args.len(),
                args@.map_values(|a: MatchedArg| a@) == before,
                before == old(self)@,
                distinct_ids(before),
                arg@ == view,
                view == (ArgView {
                    id: id@,
                    source,
                    value: match value {
                        Some(v) => Some(v@),
                        None => None,
                    },
                }),
                forall|j: int| 0 <= j < i ==> before[j].id != view.id,
                record(before, view) == before.take(i as int) + record(before.skip(i as int), view),
            decreases args.len() - i,
        {
            assert(before.skip(i as int).drop_first() =~= before.skip(i + 1));
            if args[i].id == arg.id {
                args.set(i, arg);
                assert(args@.map_values(|a: MatchedArg| a@) =~= before.take(i as int) + (seq![view]
                    + before.skip(i + 1)));
                self.args = args;
                return ;
            }
            i += 1;
        }
        args.push(arg);
        assert(args@.map_values(|a: MatchedArg| a@) =~= before.push(view));
        self.args = args;
    }

    /// The ids of all arguments, in order.
    pub fn ids(&self) -> (r: Vec<String>)
        ensures
            texts_of(r@) == self@.map_values(|arg: ArgView| arg.id),
            texts_of(r@).no_duplicates(),
            distinct_ids(self@),
    {
        proof {
            use_type_invariant(self);
        }
        let mut r: Vec<String> = Vec::new();
        let mut i: usize = 0;
        while i < self.args.len()
            invariant
                i <= self.args.len(),
                texts_of(r@) =~= self@.take(i as int).map_values(|arg: ArgView| arg.id),
            decreases self.args.len() - i,
        {
            r.push(self.args[i].id.clone());
            proof {
                let id_of = |arg: ArgView| arg.id;
                assert(self@.take(i + 1).map_values(id_of) =~= self@.take(i as int).map_values(
                    id_of,
                ).push(self@[i as int].id));
            }
            i += 1;
        }
        r
    }

    /// Whether the command line has the argument `id`.
    pub fn contains_id(&self, id: &str) -> (r: bool)
        ensures
            r == arg_of(self@, id@).is_some(),
    {
        self.position(id).is_some()
    }

    /// Where the value of the argument `id` came from.
    pub fn value_source(&self, id: &str) -> (r: Option<ValueSource>)
        ensures
            r == source_of(self@, id@),
    {
        match self.position(id) {
            Some(i) => Some(self.args[i].source),
            None => None,
        }
    }

    /// The value of the argument `id`.
    pub fn get_one(&self, id: &str) -> (r: Option<&String>)
        ensures
            match r {
                Some(v) => value_of(self@, id@) == Some(v@),
                None => value_of(self@, id@) is None,
            },
    {
        match self.position(id) {
            Some(i) => self.args[i].value.as_ref(),
            None => None,
        }
    }

    /// The ids of the arguments whose value is the declared default, but
    /// for the ids in `exclude`; in the order of the command line. An id is
    /// among them exactly if nobody supplied its argument and `exclude` does
    /// not hold it.
    pub fn default_value_ids(&self, exclude: &[&str]) -> (r: Vec<String>)
        ensures
            texts_of(r@) == default_ids(self@, slices_of(exclude@)),
            forall|id: Seq<char>|
                texts_of(r@).contains(id) <==> (source_of(self@, id) == Some(
                    ValueSource::DefaultValue,
                ) && !slices_of(exclude@).contains(id)),
    {
        let ghost args = self@;
        let ghost excluded = slices_of(exclude@);
        let ghost f = |arg: ArgView| defaulted(arg, excluded);
        let mut r: Vec<String> = Vec::new();
        let mut i: usize = 0;
        while i < self.args.len()
            invariant
                i <= self.args.len(),
                args == self@,
                excluded == slices_of(exclude@),
                f == |arg: ArgView| defaulted(arg, excluded),
                texts_of(r@) =~= args.take(i as int).filter_map(f),
            decreases self.args.len() - i,
        {
            proof {
                args.lemma_filter_map_take_succ(f, i as int);
            }
            let arg = &self.args[i];
            let is_default: bool = match arg.source {
                ValueSource::DefaultValue => true,
                _ => false,
            };
            if is_default && !slices_hold(exclude, &arg.id) {
                r.push(arg.id.clone());
            }
            i += 1;
        }
        proof {
            assert(args.take(i as int) =~= args);
            use_type_invariant(self);
            assert forall|id: Seq<char>|
                texts_of(r@).contains(id) <==> (source_of(args, id) == Some(
                    ValueSource::DefaultValue,
                ) && !excluded.contains(id)) by {
                lemma_default_ids_contains(args, excluded, id);
            }
        }
        r
    }

    /// The index of the argument `id`.
    fn position(&self, id: &str) -> (r: Option<usize>)
        ensures
            match r {
                Some(i) => i < self.args@.len() && arg_of(self@, id@) == Some(self.args@[i as int]@),
                None => arg_of(self@, id@) is None,
            },
    {
        let wanted: String = id.to_owned();
        let mut i: usize = 0;
        assert(self@.skip(0) =~= self@);
        while i < self.args.len()
            invariant
                i <= self.args.len(),
                wanted@ == id@,
                arg_of(self@, id@) == arg_of(self@.skip(i as int), id@),
            decreases self.args.len() - i,
        {
            assert(self@.skip(i as int).drop_first() =~= self@.skip(i + 1));
            if self.args[i].id == wanted {
                return Some(i);
            }
            i += 1;
        }
        None
    }
}

} // verus!
