//! The configuration of the server: which data sources, pipelines and jobs are
//! accepted.
use vstd::prelude::*;

use crate::open_connector::config as gateway;
use crate::order;
use crate::order::{find_repeated, sorted_once};
use crate::server::config_error::{ConfigError, ConfigErrorView};
use crate::server::data_source;
use crate::server::data_source::{
    AccessMode, DataSource, DataSourceType, DataSourceView, HierarchyLevel,
};
use crate::text;
use crate::text::{chars_of, concat3, lowered, same_text, split_chars, trimmed};

verus! {

/// What the check of a remote source's configuration says.
#[derive(Debug)]
pub enum StorageCheck {
    /// Nothing is wrong.
    Passed,
    /// The path is not one of the store.
    InvalidPath { path: String },
    /// Part of the configuration is missing.
    MissingConfig { field: String },
}

/// What the check of a remote source says is wrong with it.
pub open spec fn storage_problem(name: Seq<char>, check: StorageCheck) -> Option<ConfigErrorView> {
    match check {
        StorageCheck::Passed => None,
        StorageCheck::InvalidPath { path } => Some(ConfigErrorView::InvalidS3Path { path: path@ }),
        StorageCheck::MissingConfig { field } => Some(
            ConfigErrorView::MissingAwsConfig { name, field: field@ },
        ),
    }
}

/// The model of an optional error.
pub open spec fn error_view(e: Option<ConfigError>) -> Option<ConfigErrorView> {
    match e {
        Some(e) => Some(e@),
        None => None,
    }
}

/// The error for what the check of a remote source says.
pub fn storage_error(name: &str, check: &StorageCheck) -> (r: Option<ConfigError>)
    ensures
        error_view(r) == storage_problem(name@, *check),
{
    match check {
        StorageCheck::Passed => None,
        StorageCheck::InvalidPath { path } => Some(
            ConfigError::InvalidS3Path { path: path.clone() },
        ),
        StorageCheck::MissingConfig { field } => Some(
            ConfigError::MissingAwsConfig { name: name.to_owned(), field: field.clone() },
        ),
    }
}

/// The names of sources in a row.
pub open spec fn source_names(sources: Seq<DataSourceView>) -> Seq<Seq<char>> {
    Seq::new(sources.len(), |i: int| sources[i].name)
}

/// What is wrong with the gateway block of a source: a gateway needs one, is a
/// catalog and its block is valid; no other source has one.
pub open spec fn gateway_problem(source: DataSourceView) -> Option<ConfigErrorView> {
    let name = source.name;
    if source.source_type == DataSourceType::OpenConnector {
        match source.open_connector {
            None => Some(ConfigErrorView::MissingOpenConnectorConfig { name }),
            Some(block) => if source.hierarchy_level != HierarchyLevel::Catalog {
                Some(ConfigErrorView::OpenConnectorHierarchyRequired { name })
            } else {
                match gateway::config_problem(block) {
                    Some(e) => Some(
                        ConfigErrorView::InvalidOpenConnectorConfig { name, reason: e.message() },
                    ),
                    None => None,
                }
            },
        }
    } else if source.open_connector is Some {
        Some(
            ConfigErrorView::UnexpectedOpenConnectorConfig {
                name,
                source_type: source.source_type,
            },
        )
    } else {
        None
    }
}

/// Whether a comma-separated list names something.
pub open spec fn names_something(list: Seq<char>) -> bool {
    exists|i: int|
        0 <= i < text::split_on(list, ',').len() && text::trim(
            #[trigger] text::split_on(list, ',')[i],
        ).len() > 0
}

/// Whether a source has an option and the list in it names nothing.
pub open spec fn empty_list(source: DataSourceView, key: Seq<char>) -> bool {
    data_source::option_of(source, key) matches Some(list) && !names_something(list)
}

/// What is wrong with the options of a catalog: those of a single table are not
/// allowed, and a list that is given names something.
pub open spec fn catalog_problem(source: DataSourceView) -> Option<ConfigErrorView> {
    let name = source.name;
    if !(data_source::catalog_type(source.source_type) && source.hierarchy_level
        == HierarchyLevel::Catalog) {
        None
    } else if data_source::option_of(source, "table"@) is Some {
        Some(ConfigErrorView::CatalogModeConflictingOptions { name, option: "table"@ })
    } else if data_source::option_of(source, "schema"@) is Some {
        Some(ConfigErrorView::CatalogModeConflictingOptions { name, option: "schema"@ })
    } else if data_source::option_of(source, "database"@) is Some {
        Some(ConfigErrorView::CatalogModeConflictingOptions { name, option: "database"@ })
    } else if empty_list(source, "allowed_schemas"@) {
        Some(ConfigErrorView::EmptyAllowedSchemas { name })
    } else if source.source_type == DataSourceType::Dynamodb && empty_list(
        source,
        "allowed_tables"@,
    ) {
        Some(ConfigErrorView::EmptyAllowedTables { name })
    } else {
        None
    }
}

/// Whether a source of a type is a file that can lie in an object store.
pub open spec fn storable_type(source_type: DataSourceType) -> bool {
    ||| source_type is Csv
    ||| source_type is Parquet
    ||| source_type is Lance
}

/// What is wrong with where a source is: a remote file is configured, and a
/// database has a connection string.
pub open spec fn location_problem(source: DataSourceView, check: StorageCheck) -> Option<
    ConfigErrorView,
> {
    if source.path.is_remote() && storable_type(source.source_type) {
        storage_problem(source.name, check)
    } else if !source.path.is_remote() && data_source::connected_type(source.source_type)
        && source.connection_string is None {
        Some(ConfigErrorView::MissingConnectionString { name: source.name })
    } else {
        None
    }
}

/// What is wrong with a source, if anything is. `check` is what the check of
/// its remote storage says.
pub open spec fn source_problem(source: DataSourceView, check: StorageCheck) -> Option<
    ConfigErrorView,
> {
    if source.access_mode == AccessMode::ReadWrite && !data_source::writable_type(
        source.source_type,
    ) {
        Some(
            ConfigErrorView::UnsupportedWriteMode {
                name: source.name,
                source_type: source.source_type,
            },
        )
    } else {
        match gateway_problem(source) {
            Some(e) => Some(e),
            None => match catalog_problem(source) {
                Some(e) => Some(e),
                None => location_problem(source, check),
            },
        }
    }
}

/// What is wrong with the first source that something is wrong with.
pub open spec fn first_problem(sources: Seq<DataSourceView>, checks: Seq<StorageCheck>) -> Option<
    ConfigErrorView,
>
    decreases sources.len(),
{
    if sources.len() == 0 {
        None
    } else {
        match first_problem(sources.drop_last(), checks) {
            Some(e) => Some(e),
            None => source_problem(sources.last(), checks[sources.len() - 1]),
        }
    }
}

/// What is wrong with sources: names are unique, and each is valid.
pub open spec fn sources_problem(
    sources: Seq<DataSourceView>,
    checks: Seq<StorageCheck>,
) -> Option<ConfigErrorView> {
    match order::repeated(source_names(sources)) {
        Some(name) => Some(ConfigErrorView::DuplicateDataSourceName { name }),
        None => first_problem(sources, checks),
    }
}

proof fn first_problem_stands(sources: Seq<DataSourceView>, checks: Seq<StorageCheck>, i: int)
    requires
        0 <= i <= sources.len(),
        first_problem(sources.take(i), checks) is Some,
    ensures
        first_problem(sources, checks) == first_problem(sources.take(i), checks),
    decreases sources.len(),
{
    if i == sources.len() {
        assert(sources.take(i) =~= sources);
    } else {
        assert(sources.drop_last().take(i) =~= sources.take(i));
        first_problem_stands(sources.drop_last(), checks, i);
    }
}

fn lists_something(list: &str) -> (r: bool)
    ensures
        r == names_something(list@),
{
    let chars = chars_of(list);
    assert(chars@.skip(0) =~= list@);
    let parts = split_chars(&chars, 0, ',');
    let ghost all = text::split_on(list@, ',');
    let mut i: usize = 0;
    while i < parts.len()
        invariant
            all == text::split_on(list@, ','),
            all == text::texts(parts@),
            i <= parts@.len(),
            forall|k: int| 0 <= k < i ==> text::trim(#[trigger] all[k]).len() == 0,
        decreases parts@.len() - i,
    {
        let part = trimmed(parts[i].as_str());
        assert(all[i as int] == parts@[i as int]@);
        if part.as_str().unicode_len() > 0 {
            return true;
        }
        i += 1;
    }
    assert forall|k: int| 0 <= k < all.len() implies text::trim(
        #[trigger] text::split_on(list@, ',')[k],
    ).len() == 0 by {
        assert(text::trim(all[k]).len() == 0);
    }
    false
}

fn lists_nothing(source: &DataSource, key: &str) -> (r: bool)
    ensures
        r == empty_list(source@, key@),
{
    match source.option(key) {
        Some(list) => !lists_something(list),
        None => false,
    }
}

fn check_gateway(source: &DataSource) -> (r: Option<ConfigError>)
    ensures
        error_view(r) == gateway_problem(source@),
{
    if source.source_type == DataSourceType::OpenConnector {
        match &source.open_connector {
            None => Some(ConfigError::MissingOpenConnectorConfig { name: source.name.clone() }),
            Some(config) => {
                if source.hierarchy_level != HierarchyLevel::Catalog {
                    return Some(
                        ConfigError::OpenConnectorHierarchyRequired { name: source.name.clone() },
                    );
                }
                match config.validate() {
                    Err(e) => Some(
                        ConfigError::InvalidOpenConnectorConfig {
                            name: source.name.clone(),
                            reason: e.message(),
                        },
                    ),
                    Ok(_) => None,
                }
            },
        }
    } else if source.open_connector.is_some() {
        Some(
            ConfigError::UnexpectedOpenConnectorConfig {
                name: source.name.clone(),
                source_type: source.source_type,
            },
        )
    } else {
        None
    }
}

fn check_catalog(source: &DataSource) -> (r: Option<ConfigError>)
    ensures
        error_view(r) == catalog_problem(source@),
{
    let name = source.name.clone();
    if !(source.source_type.supports_catalog() && source.hierarchy_level
        == HierarchyLevel::Catalog) {
        None
    } else if source.option("table").is_some() {
        Some(ConfigError::CatalogModeConflictingOptions { name, option: "table".to_owned() })
    } else if source.option("schema").is_some() {
        Some(ConfigError::CatalogModeConflictingOptions { name, option: "schema".to_owned() })
    } else if source.option("database").is_some() {
        Some(ConfigError::CatalogModeConflictingOptions { name, option: "database".to_owned() })
    } else if lists_nothing(source, "allowed_schemas") {
        Some(ConfigError::EmptyAllowedSchemas { name })
    } else if source.source_type == DataSourceType::Dynamodb && lists_nothing(
        source,
        "allowed_tables",
    ) {
        Some(ConfigError::EmptyAllowedTables { name })
    } else {
        None
    }
}

/// Whether a source of a type is a file that can lie in an object store.
pub fn is_storable(source_type: DataSourceType) -> (r: bool)
    ensures
        r == storable_type(source_type),
{
    matches!(
        source_type,
        DataSourceType::Csv | DataSourceType::Parquet | DataSourceType::Lance
    )
}

fn check_location(source: &DataSource, check: &StorageCheck) -> (r: Option<ConfigError>)
    ensures
        error_view(r) == location_problem(source@, *check),
{
    let remote = source.path.is_remote();
    if remote && is_storable(source.source_type) {
        storage_error(source.name.as_str(), check)
    } else if !remote && source.source_type.needs_connection()
        && source.connection_string.is_none() {
        Some(ConfigError::MissingConnectionString { name: source.name.clone() })
    } else {
        None
    }
}

/// Checks one source. `check` is what the check of its remote storage says.
pub fn validate_data_source(source: &DataSource, check: &StorageCheck) -> (r: Result<
    (),
    ConfigError,
>)
    ensures
        match r {
            Ok(_) => source_problem(source@, *check) is None,
            Err(e) => source_problem(source@, *check) == Some(e@),
        },
{
    if source.access_mode.is_read_write() && !source.source_type.supports_writes() {
        return Err(
            ConfigError::UnsupportedWriteMode {
                name: source.name.clone(),
                source_type: source.source_type,
            },
        );
    }
    match check_gateway(source) {
        Some(e) => return Err(e),
        None => {},
    }
    match check_catalog(source) {
        Some(e) => return Err(e),
        None => {},
    }
    match check_location(source, check) {
        Some(e) => Err(e),
        None => Ok(()),
    }
}

/// Checks the sources of a context. `checks` holds, for each source, what the
/// check of its remote storage says.
pub fn validate_data_sources(sources: &Vec<DataSource>, checks: &Vec<StorageCheck>) -> (r: Result<
    (),
    ConfigError,
>)
    requires
        checks@.len() == sources@.len(),
    ensures
        match r {
            Ok(_) => sources_problem(data_source::source_views(sources@), checks@) is None,
            Err(e) => sources_problem(data_source::source_views(sources@), checks@) == Some(e@),
        },
{
    let ghost all = data_source::source_views(sources@);
    let names = names_of(sources);
    match find_repeated(&names) {
        Some(name) => return Err(ConfigError::DuplicateDataSourceName { name }),
        None => {},
    }
    let mut i: usize = 0;
    assert(all.take(0) =~= Seq::empty());
    while i < sources.len()
        invariant
            all == data_source::source_views(sources@),
            order::repeated(source_names(all)) is None,
            checks@.len() == sources@.len(),
            i <= sources@.len(),
            first_problem(all.take(i as int), checks@) is None,
        decreases sources@.len() - i,
    {
        proof {
            assert(all.take(i + 1).drop_last() =~= all.take(i as int));
            assert(all.take(i + 1).last() == sources@[i as int]@);
        }
        match validate_data_source(&sources[i], &checks[i]) {
            Ok(_) => {},
            Err(e) => {
                proof {
                    first_problem_stands(all, checks@, i + 1);
                }
                return Err(e);
            },
        }
        i += 1;
    }
    assert(all.take(i as int) =~= all);
    Ok(())
}

fn names_of(sources: &Vec<DataSource>) -> (r: Vec<String>)
    ensures
        text::texts(r@) == source_names(data_source::source_views(sources@)),
{
    let mut names: Vec<String> = Vec::new();
    let mut i: usize = 0;
    while i < sources.len()
        invariant
            i <= sources@.len(),
            names@.len() == i,
            forall|k: int| 0 <= k < i ==> (#[trigger] names@[k])@ == sources@[k].name@,
        decreases sources@.len() - i,
    {
        names.push(sources[i].name.clone());
        i += 1;
    }
    assert(text::texts(names@) =~= source_names(data_source::source_views(sources@)));
    names
}

proof fn each_source_is_sound(
    sources: Seq<DataSourceView>,
    checks: Seq<StorageCheck>,
    i: int,
)
    requires
        first_problem(sources, checks) is None,
        0 <= i < sources.len(),
    ensures
        source_problem(sources[i], checks[i]) is None,
    decreases sources.len(),
{
    if i < sources.len() - 1 {
        each_source_is_sound(sources.drop_last(), checks, i);
    }
}

/// Of the sources of an accepted context no two share a name, only those whose
/// type can be written to ask for writes, the gateways are catalogs with a
/// valid block and no other source has one, and every database has a
/// connection string unless its path is remote.
pub proof fn accepted_sources_are_sound(
    sources: Seq<DataSourceView>,
    checks: Seq<StorageCheck>,
)
    requires
        sources_problem(sources, checks) is None,
    ensures
        forall|i: int, j: int|
            0 <= i < j < sources.len() ==> (#[trigger] sources[i]).name != (
            #[trigger] sources[j]).name,
        forall|i: int|
            0 <= i < sources.len() && (#[trigger] sources[i]).access_mode == AccessMode::ReadWrite
                ==> data_source::writable_type(sources[i].source_type),
        forall|i: int|
            0 <= i < sources.len() ==> ((#[trigger] sources[i]).open_connector is Some
                <==> sources[i].source_type == DataSourceType::OpenConnector),
        forall|i: int|
            0 <= i < sources.len() && (#[trigger] sources[i]).source_type
                == DataSourceType::OpenConnector ==> gateway::config_problem(
                sources[i].open_connector->0,
            ) is None && sources[i].hierarchy_level == HierarchyLevel::Catalog,
        forall|i: int|
            0 <= i < sources.len() && data_source::connected_type(
                (#[trigger] sources[i]).source_type,
            ) && !sources[i].path.is_remote() ==> sources[i].connection_string is Some,
{
    let names = source_names(sources);
    assert forall|i: int, j: int| 0 <= i < j < sources.len() implies (#[trigger] sources[i]).name
        != (#[trigger] sources[j]).name by {
        order::unrepeated_names_differ(names, i, j);
        assert(names[i] == sources[i].name && names[j] == sources[j].name);
    }
    assert forall|i: int| 0 <= i < sources.len() implies source_problem(
        #[trigger] sources[i],
        checks[i],
    ) is None by {
        each_source_is_sound(sources, checks, i);
    }
}

/// A gateway is never accepted for writing.
pub proof fn gateways_are_read_only(source: DataSourceView, check: StorageCheck)
    requires
        source.source_type == DataSourceType::OpenConnector,
        source.access_mode == AccessMode::ReadWrite,
    ensures
        source_problem(source, check) == Some(
            ConfigErrorView::UnsupportedWriteMode {
                name: source.name,
                source_type: source.source_type,
            },
        ),
{
}

/// Whether statements may write to each table, for the check of SQL.
#[derive(Debug)]
pub struct SqlValidatorConfig {
    /// The access modes of tables by their names. Of two for one name the later
    /// one counts.
    pub tables: Vec<(String, AccessMode)>,
}

/// The map that a row of access modes stands for.
pub open spec fn modes_view(tables: Seq<(String, AccessMode)>) -> Map<Seq<char>, AccessMode>
    decreases tables.len(),
{
    if tables.len() == 0 {
        Map::empty()
    } else {
        modes_view(tables.drop_last()).insert(tables.last().0@, tables.last().1)
    }
}

impl View for SqlValidatorConfig {
    type V = Map<Seq<char>, AccessMode>;

    open spec fn view(&self) -> Map<Seq<char>, AccessMode> {
        modes_view(self.tables@)
    }
}

/// The access mode of each source by its name.
pub open spec fn source_modes(sources: Seq<DataSourceView>) -> Map<Seq<char>, AccessMode>
    decreases sources.len(),
{
    if sources.len() == 0 {
        Map::empty()
    } else {
        source_modes(sources.drop_last()).insert(
            sources.last().name,
            sources.last().access_mode,
        )
    }
}

/// The access modes of all sources, for pipelines and ad-hoc queries alike.
pub fn validator_config_from_sources(sources: &Vec<DataSource>) -> (r: SqlValidatorConfig)
    ensures
        r@ == source_modes(data_source::source_views(sources@)),
{
    let ghost all = data_source::source_views(sources@);
    let mut tables: Vec<(String, AccessMode)> = Vec::new();
    let mut i: usize = 0;
    assert(all.take(0) =~= Seq::empty());
    while i < sources.len()
        invariant
            all == data_source::source_views(sources@),
            i <= sources@.len(),
            modes_view(tables@) == source_modes(all.take(i as int)),
        decreases sources@.len() - i,
    {
        let ghost before = tables@;
        tables.push((sources[i].name.clone(), sources[i].access_mode));
        i += 1;
        proof {
            assert(tables@.drop_last() =~= before);
            assert(all.take(i as int).drop_last() =~= all.take(i - 1));
            assert(all.take(i as int).last() == sources@[i - 1]@);
        }
    }
    assert(all.take(i as int) =~= all);
    SqlValidatorConfig { tables }
}

/// What ad-hoc queries may do.
#[derive(Debug)]
pub struct AdhocSqlPolicy {
    pub access: SqlValidatorConfig,
    /// Schemas that ad-hoc queries must not reach.
    pub denied_schemas: Vec<String>,
}

/// What ad-hoc queries may do: the access modes of all sources, and no reach
/// into the `auth` schema, whose tables hold live tokens.
pub fn adhoc_policy_from_sources(sources: &Vec<DataSource>) -> (r: AdhocSqlPolicy)
    ensures
        r.access@ == source_modes(data_source::source_views(sources@)),
        text::texts(r.denied_schemas@) == seq!["auth"@],
{
    let mut denied_schemas: Vec<String> = Vec::new();
    denied_schemas.push("auth".to_owned());
    assert(text::texts(denied_schemas@) =~= seq!["auth"@]);
    AdhocSqlPolicy { access: validator_config_from_sources(sources), denied_schemas }
}

/// Where no two sources share a name, the mode under a source's name is its
/// own, and there is none under another name.
pub proof fn modes_are_those_of_the_sources(sources: Seq<DataSourceView>, name: Seq<char>)
    requires
        order::repeated(source_names(sources)) is None,
    ensures
        source_modes(sources).contains_key(name) <==> exists|i: int|
            0 <= i < sources.len() && (#[trigger] sources[i]).name == name,
        forall|i: int|
            0 <= i < sources.len() && (#[trigger] sources[i]).name == name ==> source_modes(
                sources,
            )[name] == sources[i].access_mode,
    decreases sources.len(),
{
    if sources.len() > 0 {
        let shorter = sources.drop_last();
        let names = source_names(sources);
        assert(source_names(shorter) =~= names.drop_last());
        modes_are_those_of_the_sources(shorter, name);
        let last = sources.len() - 1;
        assert(sources[last] == sources.last());
        if source_modes(sources).contains_key(name) && sources.last().name != name {
            let i = choose|i: int| 0 <= i < shorter.len() && (#[trigger] shorter[i]).name == name;
            assert(sources[i].name == name);
        }
        if exists|i: int| 0 <= i < sources.len() && (#[trigger] sources[i]).name == name {
            let i = choose|i: int| 0 <= i < sources.len() && (#[trigger] sources[i]).name == name;
            if i < last {
                assert(shorter[i] == sources[i]);
            }
        }
        assert forall|i: int|
            0 <= i < sources.len() && (#[trigger] sources[i]).name == name implies source_modes(
            sources,
        )[name] == sources[i].access_mode by {
            if i < last {
                order::unrepeated_names_differ(names, i, last);
                assert(names[i] == sources[i].name && names[last] == sources[last].name);
                assert(shorter[i] == sources[i]);
            }
        }
    }
}

/// What is wrong with the kind that a context file gives itself.
pub open spec fn kind_problem(kind: Option<Seq<char>>) -> Option<ConfigErrorView> {
    match kind {
        None => Some(
            ConfigErrorView::InvalidContextYaml {
                error: "Missing `kind: context` at the root of the context file"@,
            },
        ),
        Some(kind) => if kind == "context"@ {
            None
        } else {
            Some(
                ConfigErrorView::InvalidContextYaml {
                    error: "Expected `kind: context`, got `kind: "@ + kind + "`"@,
                },
            )
        },
    }
}

/// Checks the kind that a context file gives itself.
pub fn check_context_kind(kind: Option<&str>) -> (r: Result<(), ConfigError>)
    ensures
        match r {
            Ok(_) => kind_problem(text::optional(kind)) is None,
            Err(e) => kind_problem(text::optional(kind)) == Some(e@),
        },
{
    match kind {
        None => Err(
            ConfigError::InvalidContextYaml {
                error: "Missing `kind: context` at the root of the context file".to_owned(),
            },
        ),
        Some(kind) => if same_text(kind, "context") {
            Ok(())
        } else {
            Err(
                ConfigError::InvalidContextYaml {
                    error: concat3("Expected `kind: context`, got `kind: ", kind, "`"),
                },
            )
        },
    }
}

/// A context file: whether it is there, can be read as one, and what it says.
#[derive(Debug)]
pub enum ContextFile {
    /// There is no such file.
    Missing { path: String },
    /// It cannot be read as a context.
    Invalid { error: String },
    /// It says what kind it is and which sources there are.
    Read { kind: Option<String>, data_sources: Vec<DataSource> },
}

/// What is wrong with a context file, if anything is.
pub open spec fn context_problem(file: ContextFile, checks: Seq<StorageCheck>) -> Option<
    ConfigErrorView,
> {
    match file {
        ContextFile::Missing { path } => Some(
            ConfigErrorView::ContextFileNotFound { path: path@ },
        ),
        ContextFile::Invalid { error } => Some(
            ConfigErrorView::InvalidContextYaml { error: error@ },
        ),
        ContextFile::Read { kind, data_sources } => match kind_problem(data_source::owned(kind)) {
            Some(e) => Some(e),
            None => sources_problem(data_source::source_views(data_sources@), checks),
        },
    }
}

/// The sources that a context file gives.
pub open spec fn context_sources(file: ContextFile) -> Seq<DataSource> {
    match file {
        ContextFile::Read { data_sources, .. } => data_sources@,
        _ => Seq::empty(),
    }
}

/// Gives the sources of a context file that is valid. `checks` holds, for each
/// of its sources, what the check of its remote storage says.
pub fn load_context_config(file: ContextFile, checks: &Vec<StorageCheck>) -> (r: Result<
    Vec<DataSource>,
    ConfigError,
>)
    requires
        checks@.len() == context_sources(file).len(),
    ensures
        match r {
            Ok(sources) => context_problem(file, checks@) is None && sources@ == context_sources(
                file,
            ),
            Err(e) => context_problem(file, checks@) == Some(e@),
        },
{
    match file {
        ContextFile::Missing { path } => Err(ConfigError::ContextFileNotFound { path }),
        ContextFile::Invalid { error } => Err(ConfigError::InvalidContextYaml { error }),
        ContextFile::Read { kind, data_sources } => {
            let given: Option<&str> = match &kind {
                Some(kind) => Some(kind.as_str()),
                None => None,
            };
            match check_context_kind(given) {
                Ok(_) => {},
                Err(e) => return Err(e),
            }
            match validate_data_sources(&data_sources, checks) {
                Ok(_) => Ok(data_sources),
                Err(e) => Err(e),
            }
        },
    }
}

/// An entry of a directory.
#[derive(Debug)]
pub struct DirectoryEntry {
    pub path: String,
    pub is_file: bool,
    /// What follows the last dot of its name.
    pub extension: Option<String>,
}

/// What is found at a path.
#[derive(Debug)]
pub enum FoundPath {
    /// Nothing.
    Missing { has_extension: bool },
    /// A file.
    File,
    /// A directory.
    Directory { entries: Vec<DirectoryEntry> },
    /// Something else.
    Other,
}

/// Whether an entry is a YAML file, by its extension in any case.
pub open spec fn is_yaml(entry: DirectoryEntry) -> bool {
    entry.is_file && match entry.extension {
        Some(extension) => text::lower(extension@) == "yaml"@ || text::lower(extension@) == "yml"@,
        None => false,
    }
}

/// The paths of the YAML files among entries.
pub open spec fn yaml_paths(entries: Seq<DirectoryEntry>) -> Seq<Seq<char>>
    decreases entries.len(),
{
    if entries.len() == 0 {
        Seq::empty()
    } else {
        let before = yaml_paths(entries.drop_last());
        if is_yaml(entries.last()) {
            before.push(entries.last().path@)
        } else {
            before
        }
    }
}

fn is_yaml_file(entry: &DirectoryEntry) -> (r: bool)
    ensures
        r == is_yaml(*entry),
{
    if !entry.is_file {
        return false;
    }
    match &entry.extension {
        Some(extension) => {
            let extension = lowered(extension.as_str());
            same_text(extension.as_str(), "yaml") || same_text(extension.as_str(), "yml")
        },
        None => false,
    }
}

fn yaml_files(entries: &Vec<DirectoryEntry>) -> (r: Vec<String>)
    ensures
        text::texts(r@) == yaml_paths(entries@),
{
    let mut paths: Vec<String> = Vec::new();
    let mut i: usize = 0;
    assert(entries@.take(0) =~= Seq::empty());
    assert(text::texts(paths@) =~= Seq::empty());
    while i < entries.len()
        invariant
            i <= entries@.len(),
            text::texts(paths@) == yaml_paths(entries@.take(i as int)),
        decreases entries@.len() - i,
    {
        let ghost before = text::texts(paths@);
        assert(entries@.take(i + 1).drop_last() =~= entries@.take(i as int));
        if is_yaml_file(&entries[i]) {
            paths.push(entries[i].path.clone());
            assert(text::texts(paths@) =~= before.push(entries@[i as int].path@));
        }
        i += 1;
    }
    assert(entries@.take(i as int) =~= entries@);
    paths
}

/// The files that a path stands for: itself if it is a file, the YAML files in
/// it, in order, if it is a directory, and none without a path.
pub fn resolve_pipeline_files(path: Option<&str>, found: &FoundPath) -> (r: Result<
    Vec<String>,
    ConfigError,
>)
    ensures
        match (text::optional(path), *found) {
            (None, _) => r matches Ok(files) && files@.len() == 0,
            (Some(path), FoundPath::Missing { has_extension }) => r matches Err(e) && e@ == (
            if has_extension {
                ConfigErrorView::PipelineFileNotFound { path }
            } else {
                ConfigErrorView::PipelineDirectoryNotFound { path }
            }),
            (Some(path), FoundPath::File) => r matches Ok(files) && text::texts(files@) == seq![path],
            (Some(path), FoundPath::Directory { entries }) => if yaml_paths(entries@).len() == 0 {
                r matches Err(e) && e@ == (ConfigErrorView::NoPipelineFilesInDirectory { path })
            } else {
                r matches Ok(files) && order::sorts(yaml_paths(entries@), text::texts(files@))
            },
            (Some(path), FoundPath::Other) => r matches Err(e) && e@ == (
            ConfigErrorView::PipelineFileNotFound { path }),
        },
{
    let path = match path {
        Some(path) => path,
        None => return Ok(Vec::new()),
    };
    match found {
        FoundPath::Missing { has_extension } => if *has_extension {
            Err(ConfigError::PipelineFileNotFound { path: path.to_owned() })
        } else {
            Err(ConfigError::PipelineDirectoryNotFound { path: path.to_owned() })
        },
        FoundPath::File => {
            let mut files: Vec<String> = Vec::new();
            files.push(path.to_owned());
            assert(text::texts(files@) =~= seq![path@]);
            Ok(files)
        },
        FoundPath::Directory { entries } => {
            let files = yaml_files(entries);
            assert(text::texts(files@).len() == files@.len());
            if files.len() == 0 {
                Err(ConfigError::NoPipelineFilesInDirectory { path: path.to_owned() })
            } else {
                Ok(sorted_once(&files))
            }
        },
        FoundPath::Other => Err(ConfigError::PipelineFileNotFound { path: path.to_owned() }),
    }
}

} // verus!
