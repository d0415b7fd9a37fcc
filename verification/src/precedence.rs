//! What the order of precedence means for a single field, stated of every
//! command line and every file, and proved.
//!
//! The order is: flag, environment variable, configuration file, default.
//! The command line settles the first two and the last; the statements here
//! are about the place of the file among them.

use vstd::prelude::*;
use crate::arg_matches::{
    arg_of,
    default_ids,
    distinct_ids,
    lemma_arg_of_found,
    lemma_default_ids_contains,
    lemma_record_finds,
    lemma_record_same,
    record,
    source_of,
    value_of,
    ArgView,
    ValueSource,
};
use crate::config::{
    config_with,
    field_id,
    resolved_config,
    resolved_debug,
    resolved_value,
    ConfigView,
};
use crate::error::ConfigErrorView;
use crate::kind::Kind;
use crate::subcommand::SubCommandView;
use crate::toml_file::table_value;
use crate::value::{TableView, ValueView};

verus! {

/// A value that the user supplied, by a flag or by an environment variable,
/// is the resolved value, whatever the configuration file holds.
pub proof fn lemma_explicit_value_stands(
    id: Seq<char>,
    kind: Kind,
    args: Seq<ArgView>,
    exclude: Seq<Seq<char>>,
    file: TableView,
)
    requires
        distinct_ids(args),
        source_of(args, id) matches Some(source) && source.is_explicit(),
    ensures
        resolved_value(id, default_ids(args, exclude), file, SubCommandView { kind, args }) == Ok::<
            Option<Seq<char>>,
            ConfigErrorView,
        >(value_of(args, id)),
{
    lemma_default_ids_contains(args, exclude, id);
}

/// A default stays where the file has no entry for the field: the resolved
/// value is the default of the command line.
pub proof fn lemma_default_stands_without_entry(
    id: Seq<char>,
    kind: Kind,
    args: Seq<ArgView>,
    exclude: Seq<Seq<char>>,
    file: TableView,
)
    requires
        source_of(args, id) == Some(ValueSource::DefaultValue),
        table_value(file, kind.name_spec(), id) is None,
    ensures
        resolved_value(id, default_ids(args, exclude), file, SubCommandView { kind, args }) == Ok::<
            Option<Seq<char>>,
            ConfigErrorView,
        >(value_of(args, id)),
{
}

/// A default gives way to an entry of the file that says something else:
/// the resolved value is the file's value read as text, and a value that
/// has no text is an error.
pub proof fn lemma_file_overrides_default(
    id: Seq<char>,
    kind: Kind,
    args: Seq<ArgView>,
    exclude: Seq<Seq<char>>,
    file: TableView,
    value: ValueView,
)
    requires
        distinct_ids(args),
        source_of(args, id) == Some(ValueSource::DefaultValue),
        !exclude.contains(id),
        table_value(file, kind.name_spec(), id) == Some(value),
        value.text() != value_of(args, id),
    ensures
        resolved_value(id, default_ids(args, exclude), file, SubCommandView { kind, args }) == (
        match value.text() {
            Some(text) => Ok::<Option<Seq<char>>, ConfigErrorView>(Some(text)),
            None => Err::<Option<Seq<char>>, ConfigErrorView>(
                ConfigErrorView::TypeConversion { field_name: id },
            ),
        }),
{
    lemma_default_ids_contains(args, exclude, id);
}

/// An entry of the file that restates the default changes nothing: the
/// resolved value is the default, without an error, and resolving once more
/// with the resolved value in the place of the default gives it again.
pub proof fn lemma_restated_default_is_stable(
    id: Seq<char>,
    kind: Kind,
    args: Seq<ArgView>,
    exclude: Seq<Seq<char>>,
    file: TableView,
    value: ValueView,
)
    requires
        distinct_ids(args),
        source_of(args, id) == Some(ValueSource::DefaultValue),
        !exclude.contains(id),
        table_value(file, kind.name_spec(), id) == Some(value),
        value.text() is Some,
        value.text() == value_of(args, id),
    ensures
        resolved_value(id, default_ids(args, exclude), file, SubCommandView { kind, args }) == Ok::<
            Option<Seq<char>>,
            ConfigErrorView,
        >(value_of(args, id)),
        ({
            let again = record(
                args,
                ArgView { id, source: ValueSource::DefaultValue, value: value_of(args, id) },
            );
            &&& again == args
            &&& resolved_value(
                id,
                default_ids(again, exclude),
                file,
                SubCommandView { kind, args: again },
            ) == Ok::<Option<Seq<char>>, ConfigErrorView>(value_of(args, id))
        }),
{
    lemma_default_ids_contains(args, exclude, id);
    lemma_arg_of_found(args, id);
    let arg = arg_of(args, id)->0;
    lemma_record_same(args, arg);
}

/// Resolving is idempotent for every field whose value is a default:
/// recording the resolved value as the default and resolving again gives
/// the same value.
pub proof fn lemma_resolving_twice(
    id: Seq<char>,
    kind: Kind,
    args: Seq<ArgView>,
    exclude: Seq<Seq<char>>,
    file: TableView,
    value: Option<Seq<char>>,
)
    requires
        distinct_ids(args),
        source_of(args, id) == Some(ValueSource::DefaultValue),
        resolved_value(id, default_ids(args, exclude), file, SubCommandView { kind, args }) == Ok::<
            Option<Seq<char>>,
            ConfigErrorView,
        >(value),
    ensures
        ({
            let again = record(args, ArgView { id, source: ValueSource::DefaultValue, value });
            &&& distinct_ids(again)
            &&& resolved_value(
                id,
                default_ids(again, exclude),
                file,
                SubCommandView { kind, args: again },
            ) == Ok::<Option<Seq<char>>, ConfigErrorView>(value)
        }),
{
    let arg = ArgView { id, source: ValueSource::DefaultValue, value };
    let again = record(args, arg);
    lemma_record_finds(args, arg);
    lemma_default_ids_contains(args, exclude, id);
    lemma_default_ids_contains(again, exclude, id);
}

/// A configuration that resolves has exactly one of its three sections:
/// that of the subcommand that was invoked.
pub proof fn lemma_exactly_one_section(
    kind: Kind,
    args: Seq<ArgView>,
    loaded: Option<TableView>,
    config: ConfigView,
)
    requires
        resolved_config(kind, args, loaded) == Ok::<ConfigView, ConfigErrorView>(config),
    ensures
        config.sections() == 1,
        config.is_for(kind),
{
}

/// The one field of a resolved configuration is the resolved value of that
/// field, with every argument but `config_path` open to the file, and its
/// `debug` is that of the file.
pub proof fn lemma_config_holds_resolved_value(
    kind: Kind,
    args: Seq<ArgView>,
    file: TableView,
    config: ConfigView,
)
    requires
        resolved_config(kind, args, Some(file)) == Ok::<ConfigView, ConfigErrorView>(config),
    ensures
        resolved_value(
            field_id(kind),
            default_ids(args, seq!["config_path"@]),
            file,
            SubCommandView { kind, args },
        ) == Ok::<Option<Seq<char>>, ConfigErrorView>(config.field(kind)),
        resolved_debug(file) == Ok::<Option<bool>, ConfigErrorView>(config.debug),
        config == config_with(kind, config.debug, config.field(kind)),
{
}

/// In a resolved configuration, a field that the user supplied has the
/// value that was supplied, whatever the file holds.
pub proof fn lemma_explicit_value_in_config(
    kind: Kind,
    args: Seq<ArgView>,
    file: TableView,
    config: ConfigView,
)
    requires
        distinct_ids(args),
        source_of(args, field_id(kind)) matches Some(source) && source.is_explicit(),
        resolved_config(kind, args, Some(file)) == Ok::<ConfigView, ConfigErrorView>(config),
    ensures
        config.field(kind) == value_of(args, field_id(kind)),
{
    lemma_explicit_value_stands(field_id(kind), kind, args, seq!["config_path"@], file);
}

} // verus!
