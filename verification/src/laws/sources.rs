//! Which sources are accepted, and what is known of them.
use vstd::prelude::*;

use crate::laws::connectors;
use crate::laws::texts;
use crate::open_connector::config as gateway;
use crate::order;
use crate::server::config;
use crate::server::config::{ContextFile, DirectoryEntry, StorageCheck};
use crate::server::config_error::ConfigErrorView;
use crate::server::data_source;
use crate::server::data_source::{DataSourceType, DataSourceView, PathView};
use crate::server::location;
use crate::server::semantics;
use crate::server::semantics::SemanticsView;
use crate::text;

verus! {

/// Types are written by their own names, in small letters.
pub proof fn types_go_by_their_names(t: DataSourceType)
    ensures
        data_source::type_text(t) == match t {
            DataSourceType::Csv => seq!['c', 's', 'v'],
            DataSourceType::Parquet => seq!['p', 'a', 'r', 'q', 'u', 'e', 't'],
            DataSourceType::Postgres => seq!['p', 'o', 's', 't', 'g', 'r', 'e', 's'],
            DataSourceType::Mysql => seq!['m', 'y', 's', 'q', 'l'],
            DataSourceType::Sqlite => seq!['s', 'q', 'l', 'i', 't', 'e'],
            DataSourceType::Iceberg => seq!['i', 'c', 'e', 'b', 'e', 'r', 'g'],
            DataSourceType::Mongo => seq!['m', 'o', 'n', 'g', 'o'],
            DataSourceType::Redis => seq!['r', 'e', 'd', 'i', 's'],
            DataSourceType::Seekdb => seq!['s', 'e', 'e', 'k', 'd', 'b'],
            DataSourceType::Influxdb => seq!['i', 'n', 'f', 'l', 'u', 'x', 'd', 'b'],
            DataSourceType::Clickhouse => seq!['c', 'l', 'i', 'c', 'k', 'h', 'o', 'u', 's', 'e'],
            DataSourceType::Dynamodb => seq!['d', 'y', 'n', 'a', 'm', 'o', 'd', 'b'],
            DataSourceType::Lance => seq!['l', 'a', 'n', 'c', 'e'],
            DataSourceType::OpenConnector => seq!['o', 'p', 'e', 'n', '_', 'c', 'o', 'n', 'n', 'e', 'c', 't', 'o', 'r'],
            DataSourceType::Documents => seq!['d', 'o', 'c', 'u', 'm', 'e', 'n', 't', 's'],
        },
{
    reveal_strlit("csv");
    assert("csv"@ =~= seq!['c', 's', 'v']);
    reveal_strlit("parquet");
    assert("parquet"@ =~= seq!['p', 'a', 'r', 'q', 'u', 'e', 't']);
    reveal_strlit("postgres");
    assert("postgres"@ =~= seq!['p', 'o', 's', 't', 'g', 'r', 'e', 's']);
    reveal_strlit("mysql");
    assert("mysql"@ =~= seq!['m', 'y', 's', 'q', 'l']);
    reveal_strlit("sqlite");
    assert("sqlite"@ =~= seq!['s', 'q', 'l', 'i', 't', 'e']);
    reveal_strlit("iceberg");
    assert("iceberg"@ =~= seq!['i', 'c', 'e', 'b', 'e', 'r', 'g']);
    reveal_strlit("mongo");
    assert("mongo"@ =~= seq!['m', 'o', 'n', 'g', 'o']);
    reveal_strlit("redis");
    assert("redis"@ =~= seq!['r', 'e', 'd', 'i', 's']);
    reveal_strlit("seekdb");
    assert("seekdb"@ =~= seq!['s', 'e', 'e', 'k', 'd', 'b']);
    reveal_strlit("influxdb");
    assert("influxdb"@ =~= seq!['i', 'n', 'f', 'l', 'u', 'x', 'd', 'b']);
    reveal_strlit("clickhouse");
    assert("clickhouse"@ =~= seq!['c', 'l', 'i', 'c', 'k', 'h', 'o', 'u', 's', 'e']);
    reveal_strlit("dynamodb");
    assert("dynamodb"@ =~= seq!['d', 'y', 'n', 'a', 'm', 'o', 'd', 'b']);
    reveal_strlit("lance");
    assert("lance"@ =~= seq!['l', 'a', 'n', 'c', 'e']);
    reveal_strlit("open_connector");
    assert("open_connector"@ =~= seq!['o', 'p', 'e', 'n', '_', 'c', 'o', 'n', 'n', 'e', 'c', 't', 'o', 'r']);
    reveal_strlit("documents");
    assert("documents"@ =~= seq!['d', 'o', 'c', 'u', 'm', 'e', 'n', 't', 's']);
}

/// Types are shown to developers by the names that they have in the code.
pub proof fn types_are_shown_by_their_names(t: DataSourceType)
    ensures
        data_source::variant_name(t) == match t {
            DataSourceType::Csv => seq!['C', 's', 'v'],
            DataSourceType::Parquet => seq!['P', 'a', 'r', 'q', 'u', 'e', 't'],
            DataSourceType::Postgres => seq!['P', 'o', 's', 't', 'g', 'r', 'e', 's'],
            DataSourceType::Mysql => seq!['M', 'y', 's', 'q', 'l'],
            DataSourceType::Sqlite => seq!['S', 'q', 'l', 'i', 't', 'e'],
            DataSourceType::Iceberg => seq!['I', 'c', 'e', 'b', 'e', 'r', 'g'],
            DataSourceType::Mongo => seq!['M', 'o', 'n', 'g', 'o'],
            DataSourceType::Redis => seq!['R', 'e', 'd', 'i', 's'],
            DataSourceType::Seekdb => seq!['S', 'e', 'e', 'k', 'd', 'b'],
            DataSourceType::Influxdb => seq!['I', 'n', 'f', 'l', 'u', 'x', 'd', 'b'],
            DataSourceType::Clickhouse => seq!['C', 'l', 'i', 'c', 'k', 'h', 'o', 'u', 's', 'e'],
            DataSourceType::Dynamodb => seq!['D', 'y', 'n', 'a', 'm', 'o', 'd', 'b'],
            DataSourceType::Lance => seq!['L', 'a', 'n', 'c', 'e'],
            DataSourceType::OpenConnector => seq!['O', 'p', 'e', 'n', 'C', 'o', 'n', 'n', 'e', 'c', 't', 'o', 'r'],
            DataSourceType::Documents => seq!['D', 'o', 'c', 'u', 'm', 'e', 'n', 't', 's'],
        },
{
    reveal_strlit("Csv");
    assert("Csv"@ =~= seq!['C', 's', 'v']);
    reveal_strlit("Parquet");
    assert("Parquet"@ =~= seq!['P', 'a', 'r', 'q', 'u', 'e', 't']);
    reveal_strlit("Postgres");
    assert("Postgres"@ =~= seq!['P', 'o', 's', 't', 'g', 'r', 'e', 's']);
    reveal_strlit("Mysql");
    assert("Mysql"@ =~= seq!['M', 'y', 's', 'q', 'l']);
    reveal_strlit("Sqlite");
    assert("Sqlite"@ =~= seq!['S', 'q', 'l', 'i', 't', 'e']);
    reveal_strlit("Iceberg");
    assert("Iceberg"@ =~= seq!['I', 'c', 'e', 'b', 'e', 'r', 'g']);
    reveal_strlit("Mongo");
    assert("Mongo"@ =~= seq!['M', 'o', 'n', 'g', 'o']);
    reveal_strlit("Redis");
    assert("Redis"@ =~= seq!['R', 'e', 'd', 'i', 's']);
    reveal_strlit("Seekdb");
    assert("Seekdb"@ =~= seq!['S', 'e', 'e', 'k', 'd', 'b']);
    reveal_strlit("Influxdb");
    assert("Influxdb"@ =~= seq!['I', 'n', 'f', 'l', 'u', 'x', 'd', 'b']);
    reveal_strlit("Clickhouse");
    assert("Clickhouse"@ =~= seq!['C', 'l', 'i', 'c', 'k', 'h', 'o', 'u', 's', 'e']);
    reveal_strlit("Dynamodb");
    assert("Dynamodb"@ =~= seq!['D', 'y', 'n', 'a', 'm', 'o', 'd', 'b']);
    reveal_strlit("Lance");
    assert("Lance"@ =~= seq!['L', 'a', 'n', 'c', 'e']);
    reveal_strlit("OpenConnector");
    assert("OpenConnector"@ =~= seq!['O', 'p', 'e', 'n', 'C', 'o', 'n', 'n', 'e', 'c', 't', 'o', 'r']);
    reveal_strlit("Documents");
    assert("Documents"@ =~= seq!['D', 'o', 'c', 'u', 'm', 'e', 'n', 't', 's']);
}

/// Which types can be catalogs, which can be written to and which are reached by a
/// connection string. A type that can be written to is reached by one, or is a
/// single file.
pub proof fn types_are_sorted(t: DataSourceType)
    ensures
        data_source::catalog_type(t) <==> match t {
            DataSourceType::Postgres
            | DataSourceType::Mysql
            | DataSourceType::Sqlite
            | DataSourceType::Seekdb
            | DataSourceType::Dynamodb
            | DataSourceType::Clickhouse
            | DataSourceType::OpenConnector => true,
            _ => false,
        },
        data_source::writable_type(t) <==> match t {
            DataSourceType::Postgres
            | DataSourceType::Mysql
            | DataSourceType::Sqlite
            | DataSourceType::Mongo
            | DataSourceType::Redis
            | DataSourceType::Seekdb
            | DataSourceType::Dynamodb => true,
            _ => false,
        },
        data_source::connected_type(t) <==> match t {
            DataSourceType::Csv
            | DataSourceType::Parquet
            | DataSourceType::Sqlite
            | DataSourceType::Iceberg
            | DataSourceType::Lance
            | DataSourceType::Documents => false,
            _ => true,
        },
        config::storable_type(t) <==> match t {
            DataSourceType::Csv | DataSourceType::Parquet | DataSourceType::Lance => true,
            _ => false,
        },
        data_source::writable_type(t) ==> data_source::connected_type(t) || t is Sqlite,
{
}

/// A path is remote exactly where it is a text that begins with the scheme of the
/// object store; it is displayed as its text, or as it is displayed where it is
/// none.
pub proof fn remote_paths_have_their_scheme(s: Seq<char>, displayed: Seq<char>, debugged: Seq<char>)
    ensures
        PathView::Text(seq!['s', '3', ':', '/', '/'] + s).is_remote(),
        PathView::Text(s).is_remote() ==> s.len() >= 5 && s == seq!['s', '3', ':', '/', '/'] + s.skip(
            5,
        ),
        !(PathView::NotText { displayed, debugged }).is_remote(),
        PathView::Text(s).displayed() == s,
        (PathView::NotText { displayed, debugged }).displayed() == displayed,
{
    reveal_strlit("s3://");
    let scheme = seq!['s', '3', ':', '/', '/'];
    assert("s3://"@ =~= scheme);
    assert((scheme + s).subrange(0, 5) =~= scheme);
    if PathView::Text(s).is_remote() {
        assert(s =~= s.subrange(0, 5) + s.skip(5));
    }
}

/// Whether a list that is written with commas names something: one of its parts is
/// more than white space.
pub open spec fn names_one(list: Seq<char>) -> bool {
    exists|i: int|
        0 <= i < text::split_on(list, ',').len() && !texts::all_white(
            #[trigger] text::split_on(list, ',')[i],
        )
}

/// Whether a source gives an option.
pub open spec fn gives(source: DataSourceView, key: Seq<char>) -> bool {
    source.options matches Some(options) && options.contains_key(key)
}

/// Whether a source is sound, given what the check of its storage says: it asks to be
/// written to only where its type can be; a gateway is a catalog with a sound block
/// and nothing else has one; a catalog names no single table, schema or database and
/// no empty lists; a remote file has passed the check of its storage; and what is
/// reached by a connection string has one, unless its path is remote.
pub open spec fn sound_source(source: DataSourceView, check: StorageCheck) -> bool {
    &&& source.access_mode is ReadWrite ==> data_source::writable_type(source.source_type)
    &&& source.open_connector is Some <==> source.source_type is OpenConnector
    &&& source.source_type is OpenConnector ==> source.hierarchy_level is Catalog
        && connectors::sound_config(source.open_connector->0)
    &&& data_source::catalog_type(source.source_type) && source.hierarchy_level is Catalog ==> {
        &&& !gives(source, "table"@)
        &&& !gives(source, "schema"@)
        &&& !gives(source, "database"@)
        &&& gives(source, "allowed_schemas"@) ==> names_one(source.options->0["allowed_schemas"@])
        &&& source.source_type is Dynamodb && gives(source, "allowed_tables"@) ==> names_one(
            source.options->0["allowed_tables"@],
        )
    }
    &&& if source.path.is_remote() {
        config::storable_type(source.source_type) ==> check is Passed
    } else {
        data_source::connected_type(source.source_type) ==> source.connection_string is Some
    }
}

proof fn lists_that_name_something(list: Seq<char>)
    ensures
        config::names_something(list) <==> names_one(list),
{
    assert forall|i: int| 0 <= i < text::split_on(list, ',').len() implies (text::trim(
        #[trigger] text::split_on(list, ',')[i],
    ).len() > 0) == !texts::all_white(text::split_on(list, ',')[i]) by {
        texts::nothing_is_left_of_white_space(text::split_on(list, ',')[i]);
    }
    if config::names_something(list) {
        let i = choose|i: int|
            0 <= i < text::split_on(list, ',').len() && text::trim(
                #[trigger] text::split_on(list, ',')[i],
            ).len() > 0;
        assert(!texts::all_white(text::split_on(list, ',')[i]));
    }
    if names_one(list) {
        let i = choose|i: int|
            0 <= i < text::split_on(list, ',').len() && !texts::all_white(
                #[trigger] text::split_on(list, ',')[i],
            );
        assert(text::trim(text::split_on(list, ',')[i]).len() > 0);
    }
}

/// A source is accepted exactly where it is sound.
pub proof fn sound_sources_are_accepted(source: DataSourceView, check: StorageCheck)
    ensures
        config::source_problem(source, check) is None <==> sound_source(source, check),
{
    if let Some(block) = source.open_connector {
        connectors::sound_gateways_are_accepted(block);
    }
    if let Some(options) = source.options {
        lists_that_name_something(options["allowed_schemas"@]);
        lists_that_name_something(options["allowed_tables"@]);
    }
}

/// What is reported of a source is so, and names it.
pub proof fn source_problems_are_so(source: DataSourceView, check: StorageCheck)
    ensures
        config::source_problem(source, check) matches Some(e) ==> match e {
            ConfigErrorView::UnsupportedWriteMode { name, source_type } => name == source.name
                && source_type == source.source_type && source.access_mode is ReadWrite
                && !data_source::writable_type(source_type),
            ConfigErrorView::MissingOpenConnectorConfig { name } => name == source.name
                && source.source_type is OpenConnector && source.open_connector is None,
            ConfigErrorView::OpenConnectorHierarchyRequired { name } => name == source.name
                && source.source_type is OpenConnector && !(source.hierarchy_level is Catalog),
            ConfigErrorView::InvalidOpenConnectorConfig { name, reason } => name == source.name && (
            source.open_connector matches Some(block) && (gateway::config_problem(
                block,
            ) matches Some(problem) && reason == problem.message())),
            ConfigErrorView::UnexpectedOpenConnectorConfig { name, source_type } => name
                == source.name && source_type == source.source_type && !(
            source_type is OpenConnector) && source.open_connector is Some,
            ConfigErrorView::CatalogModeConflictingOptions { name, option } => name == source.name
                && gives(source, option) && source.hierarchy_level is Catalog && (option == "table"@
                || option == "schema"@ || option == "database"@),
            ConfigErrorView::EmptyAllowedSchemas { name } => name == source.name && gives(
                source,
                "allowed_schemas"@,
            ) && !names_one(source.options->0["allowed_schemas"@]),
            ConfigErrorView::EmptyAllowedTables { name } => name == source.name && gives(
                source,
                "allowed_tables"@,
            ) && !names_one(source.options->0["allowed_tables"@]) && source.source_type is Dynamodb,
            ConfigErrorView::InvalidS3Path { path } => check matches StorageCheck::InvalidPath {
                path: said,
            } && path == said@ && source.path.is_remote(),
            ConfigErrorView::MissingAwsConfig { name, field } => name == source.name && (
            check matches StorageCheck::MissingConfig { field: said } && field == said@)
                && source.path.is_remote(),
            ConfigErrorView::MissingConnectionString { name } => name == source.name
                && source.connection_string is None && data_source::connected_type(
                source.source_type,
            ),
            _ => false,
        },
{
    if let Some(options) = source.options {
        lists_that_name_something(options["allowed_schemas"@]);
        lists_that_name_something(options["allowed_tables"@]);
    }
}

/// What a check of storage finds is reported: a path that is none as it is, and a
/// field that is missing under the source's name.
pub proof fn storage_problems_are_reported(name: Seq<char>, path: String, field: String)
    ensures
        config::storage_problem(name, StorageCheck::Passed) is None,
        config::storage_problem(name, StorageCheck::InvalidPath { path }) == Some(
            ConfigErrorView::InvalidS3Path { path: path@ },
        ),
        config::storage_problem(name, StorageCheck::MissingConfig { field }) == Some(
            ConfigErrorView::MissingAwsConfig { name, field: field@ },
        ),
{
}

proof fn first_problems(sources: Seq<DataSourceView>, checks: Seq<StorageCheck>)
    ensures
        match config::first_problem(sources, checks) {
            None => forall|i: int|
                0 <= i < sources.len() ==> config::source_problem(
                    #[trigger] sources[i],
                    checks[i],
                ) is None,
            Some(e) => exists|i: int|
                0 <= i < sources.len() && config::source_problem(#[trigger] sources[i], checks[i])
                    == Some(e) && forall|j: int|
                    0 <= j < i ==> config::source_problem(#[trigger] sources[j], checks[j]) is None,
        },
    decreases sources.len(),
{
    if sources.len() > 0 {
        let shorter = sources.drop_last();
        let last = sources.len() - 1;
        first_problems(shorter, checks);
        assert(sources[last] == sources.last());
        match config::first_problem(shorter, checks) {
            None => {
                assert forall|i: int| 0 <= i < last implies config::source_problem(
                    #[trigger] sources[i],
                    checks[i],
                ) is None by {
                    assert(shorter[i] == sources[i]);
                }
            },
            Some(e) => {
                let i = choose|i: int|
                    0 <= i < shorter.len() && config::source_problem(
                        #[trigger] shorter[i],
                        checks[i],
                    ) == Some(e) && forall|j: int|
                        0 <= j < i ==> config::source_problem(#[trigger] shorter[j], checks[j]) is None;
                assert(sources[i] == shorter[i]);
                assert forall|j: int| 0 <= j < i implies config::source_problem(
                    #[trigger] sources[j],
                    checks[j],
                ) is None by {
                    assert(shorter[j] == sources[j]);
                }
            },
        }
    }
}

/// The sources of a context are accepted exactly where no two share a name and each
/// is sound; a name that two share is reported first, and then the first source that
/// is not sound.
pub proof fn sound_contexts_are_accepted(sources: Seq<DataSourceView>, checks: Seq<StorageCheck>)
    ensures
        config::sources_problem(sources, checks) is None <==> (forall|i: int, j: int|
            0 <= i < j < sources.len() ==> (#[trigger] sources[i]).name != (
            #[trigger] sources[j]).name) && (forall|i: int|
            0 <= i < sources.len() ==> sound_source(#[trigger] sources[i], checks[i])),
        config::sources_problem(sources, checks) matches Some(e) ==> ((
        e matches ConfigErrorView::DuplicateDataSourceName { name } && exists|i: int, j: int|
            0 <= i < j < sources.len() && (#[trigger] sources[i]).name == name && (
            #[trigger] sources[j]).name == name) || exists|i: int|
            0 <= i < sources.len() && config::source_problem(#[trigger] sources[i], checks[i])
                == Some(e) && forall|j: int|
                0 <= j < i ==> config::source_problem(#[trigger] sources[j], checks[j]) is None),
{
    first_problems(sources, checks);
    let names = config::source_names(sources);
    repeated_names(names);
    assert forall|i: int| 0 <= i < sources.len() implies names[i] == (#[trigger] sources[i]).name by {}
    assert forall|i: int| 0 <= i < sources.len() implies (config::source_problem(
        #[trigger] sources[i],
        checks[i],
    ) is None) == sound_source(sources[i], checks[i]) by {
        sound_sources_are_accepted(sources[i], checks[i]);
    }
    match order::repeated(names) {
        Some(name) => {
            let (i, j) = choose|i: int, j: int|
                0 <= i < j < names.len() && #[trigger] names[i] == name && #[trigger] names[j] == name;
            assert(sources[i].name == name && sources[j].name == name);
        },
        None => {
            assert forall|i: int, j: int| 0 <= i < j < sources.len() implies (
            #[trigger] sources[i]).name != (#[trigger] sources[j]).name by {
                assert(names[i] != names[j]);
            }
            if config::first_problem(sources, checks) is None {
                assert forall|i: int| 0 <= i < sources.len() implies sound_source(
                    #[trigger] sources[i],
                    checks[i],
                ) by {
                    assert(config::source_problem(sources[i], checks[i]) is None);
                }
            }
        },
    }
}

/// A name is reported as repeated exactly where two are the same, and is one of
/// those.
pub proof fn repeated_names(names: Seq<Seq<char>>)
    ensures
        match order::repeated(names) {
            None => forall|i: int, j: int|
                0 <= i < j < names.len() ==> #[trigger] names[i] != #[trigger] names[j],
            Some(name) => exists|i: int, j: int|
                0 <= i < j < names.len() && #[trigger] names[i] == name && #[trigger] names[j] == name,
        },
    decreases names.len(),
{
    if names.len() > 0 {
        let shorter = names.drop_last();
        let last = names.len() - 1;
        repeated_names(shorter);
        match order::repeated(shorter) {
            Some(name) => {
                let (i, j) = choose|i: int, j: int|
                    0 <= i < j < shorter.len() && #[trigger] shorter[i] == name
                        && #[trigger] shorter[j] == name;
                assert(names[i] == name && names[j] == name);
            },
            None => {
                if shorter.contains(names.last()) {
                    let k = choose|k: int| 0 <= k < shorter.len() && shorter[k] == names.last();
                    assert(names[k] == names.last() && names[last] == names.last());
                } else {
                    assert forall|i: int, j: int| 0 <= i < j < names.len() implies #[trigger] names[i]
                        != #[trigger] names[j] by {
                        if j < last {
                            assert(shorter[i] != shorter[j]);
                        } else {
                            assert(shorter[i] == names[i]);
                        }
                    }
                }
            },
        }
    }
}

/// A context file must be there, be readable, and say that it is a context; then its
/// sources decide.
pub proof fn context_files_say_what_they_are(
    file: ContextFile,
    checks: Seq<StorageCheck>,
)
    ensures
        match file {
            ContextFile::Missing { path } => config::context_problem(file, checks) == Some(
                ConfigErrorView::ContextFileNotFound { path: path@ },
            ) && config::context_sources(file).len() == 0,
            ContextFile::Invalid { error } => config::context_problem(file, checks) == Some(
                ConfigErrorView::InvalidContextYaml { error: error@ },
            ) && config::context_sources(file).len() == 0,
            ContextFile::Read { kind, data_sources } => config::context_sources(file)
                == data_sources@ && match kind {
                None => config::context_problem(file, checks) == Some(
                    ConfigErrorView::InvalidContextYaml {
                        error: "Missing `kind: context` at the root of the context file"@,
                    },
                ),
                Some(kind) => if kind@ == seq!['c', 'o', 'n', 't', 'e', 'x', 't'] {
                    config::context_problem(file, checks) == config::sources_problem(
                        data_source::source_views(data_sources@),
                        checks,
                    )
                } else {
                    config::context_problem(file, checks) == Some(
                        ConfigErrorView::InvalidContextYaml {
                            error: "Expected `kind: context`, got `kind: "@ + kind@ + "`"@,
                        },
                    )
                },
            },
        },
{
    reveal_strlit("context");
    assert("context"@ =~= seq!['c', 'o', 'n', 't', 'e', 'x', 't']);
}

/// The files of a directory that are read are those whose extension, in any case, is
/// one of the two that YAML files have, in their order.
pub proof fn yaml_files_are_read(entries: Seq<DirectoryEntry>)
    ensures
        config::yaml_paths(entries) == entries.filter(|entry: DirectoryEntry| yaml_file(entry)).map(
            |i: int, entry: DirectoryEntry| entry.path@,
        ),
    decreases entries.len(),
{
    reveal(Seq::filter);
    reveal_strlit("yaml");
    reveal_strlit("yml");
    assert("yaml"@ =~= seq!['y', 'a', 'm', 'l']);
    assert("yml"@ =~= seq!['y', 'm', 'l']);
    let picked = entries.filter(|entry: DirectoryEntry| yaml_file(entry));
    if entries.len() > 0 {
        yaml_files_are_read(entries.drop_last());
        let earlier = entries.drop_last().filter(|entry: DirectoryEntry| yaml_file(entry));
        if yaml_file(entries.last()) {
            assert(picked =~= earlier.push(entries.last()));
        }
    }
    assert(config::yaml_paths(entries) =~= picked.map(|i: int, entry: DirectoryEntry| entry.path@));
}

/// Whether an entry is a file with an extension of YAML files.
pub open spec fn yaml_file(entry: DirectoryEntry) -> bool {
    entry.is_file && (entry.extension matches Some(extension) && (text::lower(extension@) == seq![
        'y',
        'a',
        'm',
        'l',
    ] || text::lower(extension@) == seq!['y', 'm', 'l']))
}

/// What is shown of an address with a user in it is the address without the user and
/// the sign behind; everything else of it is kept.
pub proof fn users_are_taken_out(
    scheme: Seq<char>,
    user: Seq<char>,
    host: Seq<char>,
    rest: Seq<char>,
)
    requires
        !scheme.contains(':'),
        !user.contains('/') && !user.contains('?') && !user.contains('#'),
        !host.contains('/') && !host.contains('?') && !host.contains('#') && !host.contains('@'),
        rest.len() > 0 ==> rest[0] == '/' || rest[0] == '?' || rest[0] == '#',
    ensures
        location::sanitized(scheme + seq![':', '/', '/'] + user + seq!['@'] + host + rest) == scheme
            + seq![':', '/', '/'] + host + rest,
        location::sanitized(scheme + seq![':', '/', '/'] + host + rest) == scheme + seq![
            ':',
            '/',
            '/',
        ] + host + rest,
{
    let mark = seq![':', '/', '/'];
    let start = (scheme.len() + 3) as int;
    let full = user + seq!['@'] + host;
    let url = scheme + mark + full + rest;
    assert(scheme + mark + user + seq!['@'] + host + rest =~= url);
    scheme_ends_behind_its_mark(scheme, full + rest, 0);
    assert(url =~= scheme + mark + (full + rest));
    assert forall|k: int| 0 <= k < full.len() implies full[k] != '/' && full[k] != '?' && full[k]
        != '#' by {
        if k < user.len() {
            assert(user.contains(user[k]));
        } else if k > user.len() {
            assert(full[k] == host[k - user.len() - 1]);
            assert(host.contains(host[k - user.len() - 1]));
        }
    }
    authority_ends_before_the_rest(url, scheme + mark, full, rest, start);
    assert(url.subrange(start, start + full.len()) =~= full);
    assert(full[user.len() as int] == '@');
    assert(full.skip(user.len() as int + 1) =~= host);
    text::last_index_behind(full, '@', user.len() as int);
    assert(url.take(start) =~= scheme + mark);
    assert(url.skip(start + user.len() + 1) =~= host + rest);
    assert(location::sanitized(url) =~= scheme + mark + host + rest);
    let plain = scheme + mark + host + rest;
    scheme_ends_behind_its_mark(scheme, host + rest, 0);
    assert(plain =~= scheme + mark + (host + rest));
    assert forall|k: int| 0 <= k < host.len() implies host[k] != '/' && host[k] != '?' && host[k]
        != '#' by {
        assert(host.contains(host[k]));
    }
    authority_ends_before_the_rest(plain, scheme + mark, host, rest, start);
    assert(plain.subrange(start, start + host.len()) =~= host);
    text::last_index_is_last(host, '@');
    if let Some(i) = text::last_index(host, '@') {
        assert(host.contains(host[i]));
    }
}

proof fn scheme_ends_behind_its_mark(scheme: Seq<char>, tail: Seq<char>, i: int)
    requires
        !scheme.contains(':'),
        0 <= i <= scheme.len(),
    ensures
        location::scheme_end(scheme + seq![':', '/', '/'] + tail, i) == Some(
            (scheme.len() + 3) as int,
        ),
    decreases scheme.len() - i,
{
    let url = scheme + seq![':', '/', '/'] + tail;
    if i < scheme.len() {
        assert(url[i] == scheme[i]);
        assert(scheme.contains(scheme[i]));
        scheme_ends_behind_its_mark(scheme, tail, i + 1);
    }
}

proof fn authority_ends_before_the_rest(
    url: Seq<char>,
    front: Seq<char>,
    middle: Seq<char>,
    rest: Seq<char>,
    i: int,
)
    requires
        url == front + middle + rest,
        front.len() <= i <= front.len() + middle.len(),
        forall|k: int|
            0 <= k < middle.len() ==> #[trigger] middle[k] != '/' && middle[k] != '?' && middle[k]
                != '#',
        rest.len() > 0 ==> rest[0] == '/' || rest[0] == '?' || rest[0] == '#',
    ensures
        location::authority_end(url, i) == front.len() + middle.len(),
    decreases front.len() + middle.len() - i,
{
    if i < front.len() + middle.len() {
        assert(url[i] == middle[i - front.len()]);
        authority_ends_before_the_rest(url, front, middle, rest, i + 1);
    } else if rest.len() > 0 {
        assert(url[i] == rest[0]);
    }
}

/// A location without a scheme is shown as it is.
pub proof fn plain_locations_are_shown(s: Seq<char>)
    requires
        !s.contains(':'),
    ensures
        location::sanitized(s) == s,
{
    no_scheme(s, 0);
}

proof fn no_scheme(s: Seq<char>, i: int)
    requires
        !s.contains(':'),
        0 <= i,
    ensures
        location::scheme_end(s, i) is None,
    decreases s.len() - i,
{
    if i + 3 <= s.len() {
        assert(s.contains(s[i]));
        no_scheme(s, i + 1);
    }
}

/// Nothing is described but what the semantics describe and what a source with a
/// description of its own is called.
pub proof fn nothing_else_is_described(
    tables: Map<Seq<char>, Seq<char>>,
    fallbacks: Seq<(Seq<char>, Option<Seq<char>>)>,
    name: Seq<char>,
)
    ensures
        semantics::completed(tables, fallbacks).contains_key(name) <==> tables.contains_key(name)
            || exists|i: int|
            0 <= i < fallbacks.len() && (#[trigger] fallbacks[i]).0 == name && fallbacks[i].1 is Some,
    decreases fallbacks.len(),
{
    if fallbacks.len() > 0 {
        let shorter = fallbacks.drop_last();
        let last = fallbacks.len() - 1;
        nothing_else_is_described(tables, shorter, name);
        assert(fallbacks[last] == fallbacks.last());
        if exists|i: int|
            0 <= i < shorter.len() && (#[trigger] shorter[i]).0 == name && shorter[i].1 is Some {
            let i = choose|i: int|
                0 <= i < shorter.len() && (#[trigger] shorter[i]).0 == name && shorter[i].1 is Some;
            assert(fallbacks[i] == shorter[i]);
        }
        if exists|i: int|
            0 <= i < fallbacks.len() && (#[trigger] fallbacks[i]).0 == name && fallbacks[i].1 is Some {
            let i = choose|i: int|
                0 <= i < fallbacks.len() && (#[trigger] fallbacks[i]).0 == name
                    && fallbacks[i].1 is Some;
            if i < last {
                assert(shorter[i] == fallbacks[i]);
            }
        }
    }
}

/// The words for a column are those that were given last for its table and its name,
/// and other columns have none of them.
pub proof fn columns_have_their_own_words(
    columns: Seq<(String, String, String)>,
    tables: Map<Seq<char>, Seq<char>>,
    i: int,
)
    requires
        0 <= i < columns.len(),
        forall|j: int|
            i < j < columns.len() ==> (#[trigger] columns[j]).0@ != columns[i].0@ || columns[j].1@
                != columns[i].1@,
    ensures
        semantics::column_text(
            SemanticsView { tables, columns: semantics::columns_view(columns) },
            columns[i].0@,
            columns[i].1@,
        ) == Some(columns[i].2@),
    decreases columns.len(),
{
    let last = columns.len() - 1;
    if i < last {
        assert(columns[last].0@ != columns[i].0@ || columns[last].1@ != columns[i].1@);
        columns_have_their_own_words(columns.drop_last(), tables, i);
    }
}

/// A column that no words were given for has none.
pub proof fn other_columns_have_no_words(
    columns: Seq<(String, String, String)>,
    tables: Map<Seq<char>, Seq<char>>,
    table: Seq<char>,
    column: Seq<char>,
)
    requires
        forall|j: int|
            0 <= j < columns.len() ==> (#[trigger] columns[j]).0@ != table || columns[j].1@ != column,
    ensures
        semantics::column_text(
            SemanticsView { tables, columns: semantics::columns_view(columns) },
            table,
            column,
        ) is None,
    decreases columns.len(),
{
    if columns.len() > 0 {
        let last = columns.len() - 1;
        assert(columns[last].0@ != table || columns[last].1@ != column);
        assert forall|j: int| 0 <= j < columns.drop_last().len() implies (
        #[trigger] columns.drop_last()[j]).0@ != table || columns.drop_last()[j].1@ != column by {
            assert(columns[j].0@ != table || columns[j].1@ != column);
        }
        other_columns_have_no_words(columns.drop_last(), tables, table, column);
    }
}

/// What is handed over to complete the semantics are the names and the words, one for
/// one.
pub proof fn names_are_handed_over_with_their_words(
    names: Seq<(String, Option<String>)>,
    i: int,
)
    requires
        0 <= i < names.len(),
    ensures
        semantics::described(names).len() == names.len(),
        semantics::described(names)[i].0 == names[i].0@,
        match (semantics::described(names)[i].1, names[i].1) {
            (Some(words), Some(said)) => words == said@,
            (None, None) => true,
            _ => false,
        },
{
}

} // verus!
