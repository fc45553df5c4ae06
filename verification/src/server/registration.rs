//! The registration of a data source with the query engine.
//!
//! The server performs one action at a time and reports what came of it; the
//! functions here decide on the next one.
use vstd::prelude::*;

use crate::open_connector::config::{ConfigView, OpenConnectorConfig};
use crate::server::config;
use crate::server::config::{is_storable, storage_error, StorageCheck};
use crate::server::config_error::{ConfigError, ConfigErrorView};
use crate::server::data_source;
use crate::server::data_source::{
    DataSource, DataSourceType, DataSourceView, HierarchyLevel, PathView, SourcePath,
};
use crate::text;
use crate::text::{chars_of, concat2, concat3, parse_u64, same_text, trimmed};
use crate::text_map::TextMap;

verus! {

/// What is said of a CSV file. What is not said is left to the engine.
#[derive(Debug, Clone, Copy, PartialEq, Eq, Structural)]
pub struct CsvOptions {
    pub has_header: Option<bool>,
    pub delimiter: Option<u8>,
    pub schema_infer_max_records: Option<usize>,
}

/// How a source is registered.
#[derive(Debug)]
pub struct Registration<'a> {
    /// The name of its table or catalog.
    pub name: &'a str,
    /// A path or a connection string.
    pub location: String,
    /// Options of its format or provider.
    pub options: Option<&'a TextMap>,
    /// Set for CSV files.
    pub csv: Option<CsvOptions>,
    /// Whether it may be written to, and whether it is a catalog; set for the
    /// types that can be either.
    pub access: Option<(bool, HierarchyLevel)>,
    /// The gateway block.
    pub open_connector: Option<&'a OpenConnectorConfig>,
}

/// Where a registration stands.
#[derive(Debug, Clone, Copy, PartialEq, Eq, Structural)]
pub enum RegistrationState {
    CheckingFile,
    CheckingStorage,
    SettingUpStorage,
    CheckingDataset,
    CheckingDocuments,
    ProbingDocuments,
    Registering,
    ReadingTable,
    Collecting,
    ReadingSchema,
    Deregistering,
    BuildingTable,
    RegisteringCached,
    Finished,
}

/// How something failed: as it is displayed, and as it is shown to developers.
#[derive(Debug)]
pub struct Failure {
    pub displayed: String,
    pub debugged: String,
}

/// What came of an action.
#[derive(Debug)]
pub enum RegistrationEvent {
    /// Whether the file exists.
    FileChecked(bool),
    /// What the check of the remote storage says.
    StorageChecked(StorageCheck),
    /// Whether the dataset exists.
    DatasetChecked(bool),
    /// Whether there were rows in the table.
    Collected(Result<bool, Failure>),
    /// Any other action was done, or failed.
    Done(Result<(), Failure>),
}

/// What the server does next.
#[derive(Debug)]
pub enum RegistrationAction<'a> {
    /// Look whether the file exists.
    CheckFile,
    /// Check the configuration of the remote storage.
    CheckStorage,
    /// Set up the store of a remote path.
    SetUpStorage { path: String },
    /// Look whether a dataset exists.
    CheckDataset { path: String },
    /// Check the configuration of a source of documents.
    CheckDocuments { path: String, image_store: Option<String> },
    /// Try whether the stores of a source of documents can be reached.
    ProbeDocuments { path: String, image_store: Option<String> },
    /// Register the source with its provider.
    Register(Registration<'a>),
    /// Plan a query that reads the table.
    ReadTable { sql: String },
    /// Collect the rows of the query.
    Collect,
    /// Plan a query that tells the schema of an empty table.
    ReadSchema { sql: String },
    /// Remove the table that the provider registered.
    Deregister,
    /// Build a table in memory from the rows.
    BuildTable,
    /// Register the table in memory.
    RegisterCached,
    /// The source is registered, or cannot be.
    Finish(Result<(), ConfigError>),
}

/// The model of a [`Registration`].
pub struct RegistrationView {
    pub name: Seq<char>,
    pub location: Seq<char>,
    pub options: Option<Map<Seq<char>, Seq<char>>>,
    pub csv: Option<CsvOptions>,
    pub access: Option<(bool, HierarchyLevel)>,
    pub open_connector: Option<ConfigView>,
}

/// The model of a [`RegistrationAction`].
pub enum RegistrationActionView {
    CheckFile,
    CheckStorage,
    SetUpStorage { path: Seq<char> },
    CheckDataset { path: Seq<char> },
    CheckDocuments { path: Seq<char>, image_store: Option<Seq<char>> },
    ProbeDocuments { path: Seq<char>, image_store: Option<Seq<char>> },
    Register(RegistrationView),
    ReadTable { sql: Seq<char> },
    Collect,
    ReadSchema { sql: Seq<char> },
    Deregister,
    BuildTable,
    RegisterCached,
    Finish(Result<(), ConfigErrorView>),
}

impl<'a> View for Registration<'a> {
    type V = RegistrationView;

    open spec fn view(&self) -> RegistrationView {
        RegistrationView {
            name: self.name@,
            location: self.location@,
            options: match self.options {
                Some(options) => Some(options@),
                None => None,
            },
            csv: self.csv,
            access: self.access,
            open_connector: match self.open_connector {
                Some(config) => Some(config@),
                None => None,
            },
        }
    }
}

impl<'a> View for RegistrationAction<'a> {
    type V = RegistrationActionView;

    open spec fn view(&self) -> RegistrationActionView {
        match self {
            RegistrationAction::CheckFile => RegistrationActionView::CheckFile,
            RegistrationAction::CheckStorage => RegistrationActionView::CheckStorage,
            RegistrationAction::SetUpStorage { path } => RegistrationActionView::SetUpStorage {
                path: path@,
            },
            RegistrationAction::CheckDataset { path } => RegistrationActionView::CheckDataset {
                path: path@,
            },
            RegistrationAction::CheckDocuments {
                path,
                image_store,
            } => RegistrationActionView::CheckDocuments {
                path: path@,
                image_store: data_source::owned(*image_store),
            },
            RegistrationAction::ProbeDocuments {
                path,
                image_store,
            } => RegistrationActionView::ProbeDocuments {
                path: path@,
                image_store: data_source::owned(*image_store),
            },
            RegistrationAction::Register(registration) => RegistrationActionView::Register(
                registration@,
            ),
            RegistrationAction::ReadTable { sql } => RegistrationActionView::ReadTable {
                sql: sql@,
            },
            RegistrationAction::Collect => RegistrationActionView::Collect,
            RegistrationAction::ReadSchema { sql } => RegistrationActionView::ReadSchema {
                sql: sql@,
            },
            RegistrationAction::Deregister => RegistrationActionView::Deregister,
            RegistrationAction::BuildTable => RegistrationActionView::BuildTable,
            RegistrationAction::RegisterCached => RegistrationActionView::RegisterCached,
            RegistrationAction::Finish(result) => RegistrationActionView::Finish(
                match result {
                    Ok(_) => Ok(()),
                    Err(e) => Err(e@),
                },
            ),
        }
    }
}

/// What the options of a source say of a CSV file: a header is there unless
/// `has_header` is `false`, the delimiter is the first character's low byte,
/// and the number of records is one.
pub open spec fn csv_options(source: DataSourceView) -> CsvOptions {
    CsvOptions {
        has_header: match data_source::option_of(source, "has_header"@) {
            Some(value) => Some(value != "false"@),
            None => None,
        },
        delimiter: match data_source::option_of(source, "delimiter"@) {
            Some(value) => if value.len() > 0 {
                Some((value[0] as u32 % 256) as u8)
            } else {
                None
            },
            None => None,
        },
        schema_infer_max_records: match data_source::option_of(
            source,
            "schema_infer_max_records"@,
        ) {
            Some(value) => match text::parsed_u64(value) {
                Some(n) => if n <= usize::MAX {
                    Some(n as usize)
                } else {
                    None
                },
                None => None,
            },
            None => None,
        },
    }
}

/// What the options of a source say of a CSV file.
pub fn read_csv_options(source: &DataSource) -> (r: CsvOptions)
    ensures
        r == csv_options(source@),
{
    let has_header: Option<bool> = match source.option("has_header") {
        Some(value) => Some(!same_text(value, "false")),
        None => None,
    };
    let delimiter: Option<u8> = match source.option("delimiter") {
        Some(value) => {
            let chars = chars_of(value);
            if chars.len() > 0 {
                let code: u32 = chars[0] as u32;
                Some((code % 256) as u8)
            } else {
                None
            }
        },
        None => None,
    };
    let schema_infer_max_records: Option<usize> = match source.option(
        "schema_infer_max_records",
    ) {
        Some(value) => match parse_u64(value) {
            Some(n) => if n <= usize::MAX as u64 {
                Some(n as usize)
            } else {
                None
            },
            None => None,
        },
        None => None,
    };
    CsvOptions { has_header, delimiter, schema_infer_max_records }
}

/// Where a source of documents keeps images, if it is told where.
pub open spec fn image_store(source: DataSourceView) -> Option<Seq<char>> {
    match data_source::option_of(source, "image_store"@) {
        Some(value) => if text::trim(value).len() > 0 {
            Some(text::trim(value))
        } else {
            None
        },
        None => None,
    }
}

fn read_image_store(source: &DataSource) -> (r: Option<String>)
    ensures
        data_source::owned(r) == image_store(source@),
{
    match source.option("image_store") {
        Some(value) => {
            let store = trimmed(value);
            if store.as_str().unicode_len() > 0 {
                Some(store)
            } else {
                None
            }
        },
        None => None,
    }
}

/// The end of a registration that failed.
pub open spec fn failed(e: ConfigErrorView) -> (RegistrationState, RegistrationActionView) {
    (RegistrationState::Finished, RegistrationActionView::Finish(Err(e)))
}

/// The end of a registration that succeeded.
pub open spec fn succeeded() -> (RegistrationState, RegistrationActionView) {
    (RegistrationState::Finished, RegistrationActionView::Finish(Ok(())))
}

/// A failure to register a source.
pub open spec fn not_registered(name: Seq<char>, error: Seq<char>) -> ConfigErrorView {
    ConfigErrorView::DataSourceRegistrationFailed { name, error }
}

/// Why a path that is not text cannot be used by a source.
pub open spec fn path_error(source: DataSourceView, debugged: Seq<char>) -> ConfigErrorView {
    match source.source_type {
        DataSourceType::Sqlite => not_registered(source.name, "Invalid SQLite database path"@),
        DataSourceType::Iceberg => not_registered(source.name, "Invalid warehouse path"@),
        _ => ConfigErrorView::NonUtf8Path { name: source.name, path: debugged },
    }
}

/// How a source is registered at a location.
pub open spec fn registration_at(source: DataSourceView, location: Seq<char>) -> RegistrationView {
    RegistrationView {
        name: source.name,
        location,
        options: source.options,
        csv: if source.source_type == DataSourceType::Csv {
            Some(csv_options(source))
        } else {
            None
        },
        access: if data_source::catalog_type(source.source_type) {
            Some(
                (
                    source.access_mode == data_source::AccessMode::ReadWrite,
                    source.hierarchy_level,
                ),
            )
        } else {
            None
        },
        open_connector: source.open_connector,
    }
}

/// How a source goes on once what it needs is there: a database needs a
/// connection string and a file a path that is text; datasets and documents are
/// looked at first. `documents` tells whether documents can be read at all.
pub open spec fn registering(source: DataSourceView, documents: bool) -> (
    RegistrationState,
    RegistrationActionView,
) {
    if data_source::connected_type(source.source_type) {
        match source.connection_string {
            None => failed(ConfigErrorView::MissingConnectionString { name: source.name }),
            Some(connection) => (
                RegistrationState::Registering,
                RegistrationActionView::Register(registration_at(source, connection)),
            ),
        }
    } else if source.source_type == DataSourceType::Documents && !documents {
        failed(
            not_registered(
                source.name,
                "documents data source type requires the `documents` feature to be enabled at build time"@,
            ),
        )
    } else {
        match source.path {
            PathView::NotText { debugged, .. } => failed(path_error(source, debugged)),
            PathView::Text(path) => if source.source_type == DataSourceType::Lance {
                (
                    RegistrationState::CheckingDataset,
                    RegistrationActionView::CheckDataset { path },
                )
            } else if source.source_type == DataSourceType::Documents {
                (
                    RegistrationState::CheckingDocuments,
                    RegistrationActionView::CheckDocuments {
                        path,
                        image_store: image_store(source),
                    },
                )
            } else {
                (
                    RegistrationState::Registering,
                    RegistrationActionView::Register(registration_at(source, path)),
                )
            },
        }
    }
}

/// Whether a source of a type is a file that must exist when it is local.
pub open spec fn file_type(source_type: DataSourceType) -> bool {
    ||| source_type is Csv
    ||| source_type is Parquet
    ||| source_type is Sqlite
}

/// How a registration begins: a local file must exist, and a remote one needs
/// its store.
pub open spec fn begun(source: DataSourceView, documents: bool) -> (
    RegistrationState,
    RegistrationActionView,
) {
    if !source.path.is_remote() && file_type(source.source_type) {
        (RegistrationState::CheckingFile, RegistrationActionView::CheckFile)
    } else if source.path.is_remote() && config::storable_type(source.source_type) {
        (RegistrationState::CheckingStorage, RegistrationActionView::CheckStorage)
    } else {
        registering(source, documents)
    }
}

/// Whether a table of a type can be loaded into memory.
pub open spec fn cacheable_type(source_type: DataSourceType) -> bool {
    ||| source_type is Csv
    ||| source_type is Parquet
    ||| source_type is Iceberg
}

/// How a registration goes on once the provider has registered the source: the
/// table is loaded into memory if that is wanted and possible.
pub open spec fn registered(source: DataSourceView) -> (
    RegistrationState,
    RegistrationActionView,
) {
    if source.enable_cache && cacheable_type(source.source_type) {
        (
            RegistrationState::ReadingTable,
            RegistrationActionView::ReadTable { sql: "SELECT * FROM "@ + source.name },
        )
    } else {
        succeeded()
    }
}

/// The error for a provider that could not register a source. Files report what
/// is displayed, everything else what is shown to developers.
pub open spec fn provider_error(source: DataSourceView, failure: Failure) -> ConfigErrorView {
    let name = source.name;
    match source.source_type {
        DataSourceType::Csv | DataSourceType::Parquet | DataSourceType::Lance => not_registered(
            name,
            failure.displayed@,
        ),
        DataSourceType::Postgres => ConfigErrorView::PostgresConnectionFailed {
            name,
            error: failure.debugged@,
        },
        DataSourceType::Mysql => ConfigErrorView::MySQLConnectionFailed {
            name,
            error: failure.debugged@,
        },
        DataSourceType::Sqlite => ConfigErrorView::SQLiteConnectionFailed {
            name,
            error: failure.debugged@,
        },
        DataSourceType::Seekdb => ConfigErrorView::SeekDbConnectionFailed {
            name,
            error: failure.debugged@,
        },
        _ => not_registered(name, failure.debugged@),
    }
}

/// The path of a source that is text.
pub open spec fn path_text(source: DataSourceView) -> Seq<char> {
    match source.path {
        PathView::Text(path) => path,
        PathView::NotText { .. } => Seq::empty(),
    }
}

/// What follows a step that was done.
pub open spec fn done(source: DataSourceView, documents: bool, state: RegistrationState) -> Option<
    (RegistrationState, RegistrationActionView),
> {
    match state {
        RegistrationState::SettingUpStorage => Some(registering(source, documents)),
        RegistrationState::CheckingDocuments => Some(
            (
                RegistrationState::ProbingDocuments,
                RegistrationActionView::ProbeDocuments {
                    path: path_text(source),
                    image_store: image_store(source),
                },
            ),
        ),
        RegistrationState::ProbingDocuments => Some(
            (
                RegistrationState::Registering,
                RegistrationActionView::Register(registration_at(source, path_text(source))),
            ),
        ),
        RegistrationState::Registering => Some(registered(source)),
        RegistrationState::ReadingTable => Some(
            (RegistrationState::Collecting, RegistrationActionView::Collect),
        ),
        RegistrationState::ReadingSchema => Some(
            (RegistrationState::Deregistering, RegistrationActionView::Deregister),
        ),
        RegistrationState::Deregistering => Some(
            (RegistrationState::BuildingTable, RegistrationActionView::BuildTable),
        ),
        RegistrationState::BuildingTable => Some(
            (RegistrationState::RegisteringCached, RegistrationActionView::RegisterCached),
        ),
        RegistrationState::RegisteringCached => Some(succeeded()),
        _ => None,
    }
}

/// The error for a step that failed.
pub open spec fn step_error(
    source: DataSourceView,
    state: RegistrationState,
    failure: Failure,
) -> Option<ConfigErrorView> {
    let name = source.name;
    match state {
        RegistrationState::SettingUpStorage => Some(
            ConfigErrorView::S3ObjectStoreRegistrationFailed { name, error: failure.displayed@ },
        ),
        RegistrationState::CheckingDocuments | RegistrationState::ProbingDocuments => Some(
            not_registered(name, failure.displayed@),
        ),
        RegistrationState::Registering => Some(provider_error(source, failure)),
        RegistrationState::ReadingTable => Some(
            not_registered(name, "Failed to read table for caching: "@ + failure.displayed@),
        ),
        RegistrationState::Collecting => Some(
            not_registered(name, "Failed to collect batches for caching: "@ + failure.displayed@),
        ),
        RegistrationState::ReadingSchema => Some(
            not_registered(name, "Failed to infer schema for caching: "@ + failure.displayed@),
        ),
        RegistrationState::Deregistering => Some(
            not_registered(name, "Failed to deregister table for caching: "@ + failure.displayed@),
        ),
        RegistrationState::BuildingTable => Some(
            not_registered(name, "Failed to create MemTable for caching: "@ + failure.displayed@),
        ),
        RegistrationState::RegisteringCached => Some(
            not_registered(name, "Failed to register cached MemTable: "@ + failure.displayed@),
        ),
        _ => None,
    }
}

/// What follows an event. `None` where the event is not the one that is waited
/// for.
pub open spec fn stepped(
    source: DataSourceView,
    documents: bool,
    state: RegistrationState,
    event: RegistrationEvent,
) -> Option<(RegistrationState, RegistrationActionView)> {
    match (state, event) {
        (RegistrationState::CheckingFile, RegistrationEvent::FileChecked(exists)) => if exists {
            Some(registering(source, documents))
        } else {
            Some(
                failed(
                    ConfigErrorView::DataSourceFileNotFound {
                        name: source.name,
                        path: source.path.displayed(),
                    },
                ),
            )
        },
        (
            RegistrationState::CheckingStorage,
            RegistrationEvent::StorageChecked(check),
        ) => match config::storage_problem(source.name, check) {
            Some(e) => Some(failed(e)),
            None => Some(
                (
                    RegistrationState::SettingUpStorage,
                    RegistrationActionView::SetUpStorage { path: path_text(source) },
                ),
            ),
        },
        (RegistrationState::CheckingDataset, RegistrationEvent::DatasetChecked(exists)) => if exists {
            Some(
                (
                    RegistrationState::Registering,
                    RegistrationActionView::Register(
                        registration_at(source, path_text(source)),
                    ),
                ),
            )
        } else {
            Some(succeeded())
        },
        (RegistrationState::Collecting, RegistrationEvent::Collected(result)) => match result {
            Ok(rows) => if rows {
                Some((RegistrationState::Deregistering, RegistrationActionView::Deregister))
            } else {
                Some(
                    (
                        RegistrationState::ReadingSchema,
                        RegistrationActionView::ReadSchema {
                            sql: "SELECT * FROM "@ + source.name + " LIMIT 0"@,
                        },
                    ),
                )
            },
            Err(failure) => match step_error(source, state, failure) {
                Some(e) => Some(failed(e)),
                None => None,
            },
        },
        (_, RegistrationEvent::Done(result)) => if state == RegistrationState::Collecting {
            None
        } else {
            match result {
                Ok(_) => done(source, documents, state),
                Err(failure) => match step_error(source, state, failure) {
                    Some(e) => Some(failed(e)),
                    None => None,
                },
            }
        },
        _ => None,
    }
}

fn fail<'a>(e: ConfigError) -> (r: (RegistrationState, RegistrationAction<'a>))
    ensures
        (r.0, r.1@) == failed(e@),
{
    (RegistrationState::Finished, RegistrationAction::Finish(Err(e)))
}

fn succeed<'a>() -> (r: (RegistrationState, RegistrationAction<'a>))
    ensures
        (r.0, r.1@) == succeeded(),
{
    (RegistrationState::Finished, RegistrationAction::Finish(Ok(())))
}

fn registration_failed(source: &DataSource, error: String) -> (r: ConfigError)
    ensures
        r@ == not_registered(source.name@, error@),
{
    ConfigError::DataSourceRegistrationFailed { name: source.name.clone(), error }
}

fn register_at<'a>(source: &'a DataSource, location: &str) -> (r: (
    RegistrationState,
    RegistrationAction<'a>,
))
    ensures
        (r.0, r.1@) == (
            RegistrationState::Registering,
            RegistrationActionView::Register(registration_at(source@, location@)),
        ),
{
    let csv: Option<CsvOptions> = if source.source_type == DataSourceType::Csv {
        Some(read_csv_options(source))
    } else {
        None
    };
    let access: Option<(bool, HierarchyLevel)> = if source.source_type.supports_catalog() {
        Some((source.access_mode.is_read_write(), source.hierarchy_level))
    } else {
        None
    };
    let options: Option<&TextMap> = match &source.options {
        Some(options) => Some(options),
        None => None,
    };
    let open_connector: Option<&OpenConnectorConfig> = match &source.open_connector {
        Some(config) => Some(config),
        None => None,
    };
    (
        RegistrationState::Registering,
        RegistrationAction::Register(
            Registration {
                name: source.name.as_str(),
                location: location.to_owned(),
                options,
                csv,
                access,
                open_connector,
            },
        ),
    )
}

fn refuse_path(source: &DataSource, debugged: &str) -> (r: ConfigError)
    ensures
        r@ == path_error(source@, debugged@),
{
    match source.source_type {
        DataSourceType::Sqlite => registration_failed(
            source,
            "Invalid SQLite database path".to_owned(),
        ),
        DataSourceType::Iceberg => registration_failed(
            source,
            "Invalid warehouse path".to_owned(),
        ),
        _ => ConfigError::NonUtf8Path { name: source.name.clone(), path: debugged.to_owned() },
    }
}

fn go_on<'a>(source: &'a DataSource, documents: bool) -> (r: (
    RegistrationState,
    RegistrationAction<'a>,
))
    ensures
        (r.0, r.1@) == registering(source@, documents),
{
    if source.source_type.needs_connection() {
        return match &source.connection_string {
            None => fail(ConfigError::MissingConnectionString { name: source.name.clone() }),
            Some(connection) => register_at(source, connection.as_str()),
        };
    }
    if source.source_type == DataSourceType::Documents && !documents {
        return fail(
            registration_failed(
                source,
                "documents data source type requires the `documents` feature to be enabled at build time".to_owned(),
            ),
        );
    }
    match &source.path {
        SourcePath::NotText { debugged, .. } => fail(refuse_path(source, debugged.as_str())),
        SourcePath::Text(path) => if source.source_type == DataSourceType::Lance {
            (
                RegistrationState::CheckingDataset,
                RegistrationAction::CheckDataset { path: path.clone() },
            )
        } else if source.source_type == DataSourceType::Documents {
            (
                RegistrationState::CheckingDocuments,
                RegistrationAction::CheckDocuments {
                    path: path.clone(),
                    image_store: read_image_store(source),
                },
            )
        } else {
            register_at(source, path.as_str())
        },
    }
}

/// Begins the registration of a source. `documents` tells whether documents can
/// be read at all.
pub fn begin_registration<'a>(source: &'a DataSource, documents: bool) -> (r: (
    RegistrationState,
    RegistrationAction<'a>,
))
    ensures
        (r.0, r.1@) == begun(source@, documents),
{
    let remote = source.path.is_remote();
    let file = matches!(
        source.source_type,
        DataSourceType::Csv | DataSourceType::Parquet | DataSourceType::Sqlite
    );
    if !remote && file {
        (RegistrationState::CheckingFile, RegistrationAction::CheckFile)
    } else if remote && is_storable(source.source_type) {
        (RegistrationState::CheckingStorage, RegistrationAction::CheckStorage)
    } else {
        go_on(source, documents)
    }
}

fn cache<'a>(source: &'a DataSource) -> (r: (RegistrationState, RegistrationAction<'a>))
    ensures
        (r.0, r.1@) == registered(source@),
{
    let cacheable = matches!(
        source.source_type,
        DataSourceType::Csv | DataSourceType::Parquet | DataSourceType::Iceberg
    );
    if source.enable_cache && cacheable {
        (
            RegistrationState::ReadingTable,
            RegistrationAction::ReadTable { sql: concat2("SELECT * FROM ", source.name.as_str()) },
        )
    } else {
        succeed()
    }
}

fn refuse_provider(source: &DataSource, failure: Failure) -> (r: ConfigError)
    ensures
        r@ == provider_error(source@, failure),
{
    let name = source.name.clone();
    match source.source_type {
        DataSourceType::Csv
        | DataSourceType::Parquet
        | DataSourceType::Lance => registration_failed(source, failure.displayed),
        DataSourceType::Postgres => ConfigError::PostgresConnectionFailed {
            name,
            error: failure.debugged,
        },
        DataSourceType::Mysql => ConfigError::MySQLConnectionFailed {
            name,
            error: failure.debugged,
        },
        DataSourceType::Sqlite => ConfigError::SQLiteConnectionFailed {
            name,
            error: failure.debugged,
        },
        DataSourceType::Seekdb => ConfigError::SeekDbConnectionFailed {
            name,
            error: failure.debugged,
        },
        _ => registration_failed(source, failure.debugged),
    }
}

fn text_path(source: &DataSource) -> (r: String)
    ensures
        r@ == path_text(source@),
{
    match &source.path {
        SourcePath::Text(path) => path.clone(),
        SourcePath::NotText { .. } => {
            let nothing = String::new();
            assert(nothing@ =~= Seq::empty());
            nothing
        },
    }
}

fn caching_failed(source: &DataSource, what: &str, failure: Failure) -> (r: ConfigError)
    ensures
        r@ == not_registered(source.name@, what@ + failure.displayed@),
{
    registration_failed(source, concat2(what, failure.displayed.as_str()))
}

fn refuse_step(source: &DataSource, state: RegistrationState, failure: Failure) -> (r: Option<
    ConfigError,
>)
    ensures
        config::error_view(r) == step_error(source@, state, failure),
{
    match state {
        RegistrationState::SettingUpStorage => Some(
            ConfigError::S3ObjectStoreRegistrationFailed {
                name: source.name.clone(),
                error: failure.displayed,
            },
        ),
        RegistrationState::CheckingDocuments | RegistrationState::ProbingDocuments => Some(
            registration_failed(source, failure.displayed),
        ),
        RegistrationState::Registering => Some(refuse_provider(source, failure)),
        RegistrationState::ReadingTable => Some(
            caching_failed(source, "Failed to read table for caching: ", failure),
        ),
        RegistrationState::Collecting => Some(
            caching_failed(source, "Failed to collect batches for caching: ", failure),
        ),
        RegistrationState::ReadingSchema => Some(
            caching_failed(source, "Failed to infer schema for caching: ", failure),
        ),
        RegistrationState::Deregistering => Some(
            caching_failed(source, "Failed to deregister table for caching: ", failure),
        ),
        RegistrationState::BuildingTable => Some(
            caching_failed(source, "Failed to create MemTable for caching: ", failure),
        ),
        RegistrationState::RegisteringCached => Some(
            caching_failed(source, "Failed to register cached MemTable: ", failure),
        ),
        _ => None,
    }
}

fn finish_step<'a>(source: &'a DataSource, documents: bool, state: RegistrationState) -> (r: Option<
    (RegistrationState, RegistrationAction<'a>),
>)
    ensures
        match r {
            Some((next, action)) => done(source@, documents, state) == Some((next, action@)),
            None => done(source@, documents, state) is None,
        },
{
    match state {
        RegistrationState::SettingUpStorage => Some(go_on(source, documents)),
        RegistrationState::CheckingDocuments => Some(
            (
                RegistrationState::ProbingDocuments,
                RegistrationAction::ProbeDocuments {
                    path: text_path(source),
                    image_store: read_image_store(source),
                },
            ),
        ),
        RegistrationState::ProbingDocuments => {
            let path = text_path(source);
            Some(register_at(source, path.as_str()))
        },
        RegistrationState::Registering => Some(cache(source)),
        RegistrationState::ReadingTable => Some(
            (RegistrationState::Collecting, RegistrationAction::Collect),
        ),
        RegistrationState::ReadingSchema => Some(
            (RegistrationState::Deregistering, RegistrationAction::Deregister),
        ),
        RegistrationState::Deregistering => Some(
            (RegistrationState::BuildingTable, RegistrationAction::BuildTable),
        ),
        RegistrationState::BuildingTable => Some(
            (RegistrationState::RegisteringCached, RegistrationAction::RegisterCached),
        ),
        RegistrationState::RegisteringCached => Some(succeed()),
        _ => None,
    }
}

/// Decides what follows an event. `None` where the event is not the one that is
/// waited for.
pub fn step_registration<'a>(
    source: &'a DataSource,
    documents: bool,
    state: RegistrationState,
    event: RegistrationEvent,
) -> (r: Option<(RegistrationState, RegistrationAction<'a>)>)
    ensures
        match r {
            Some((next, action)) => stepped(source@, documents, state, event) == Some(
                (next, action@),
            ),
            None => stepped(source@, documents, state, event) is None,
        },
{
    match event {
        RegistrationEvent::FileChecked(exists) => {
            if state != RegistrationState::CheckingFile {
                None
            } else if exists {
                Some(go_on(source, documents))
            } else {
                Some(
                    fail(
                        ConfigError::DataSourceFileNotFound {
                            name: source.name.clone(),
                            path: source.path.display(),
                        },
                    ),
                )
            }
        },
        RegistrationEvent::StorageChecked(check) => {
            if state != RegistrationState::CheckingStorage {
                return None;
            }
            match storage_error(source.name.as_str(), &check) {
                Some(e) => Some(fail(e)),
                None => Some(
                    (
                        RegistrationState::SettingUpStorage,
                        RegistrationAction::SetUpStorage { path: text_path(source) },
                    ),
                ),
            }
        },
        RegistrationEvent::DatasetChecked(exists) => {
            if state != RegistrationState::CheckingDataset {
                None
            } else if exists {
                let path = text_path(source);
                Some(register_at(source, path.as_str()))
            } else {
                Some(succeed())
            }
        },
        RegistrationEvent::Collected(result) => {
            if state != RegistrationState::Collecting {
                return None;
            }
            match result {
                Ok(rows) => if rows {
                    Some((RegistrationState::Deregistering, RegistrationAction::Deregister))
                } else {
                    Some(
                        (
                            RegistrationState::ReadingSchema,
                            RegistrationAction::ReadSchema {
                                sql: concat3("SELECT * FROM ", source.name.as_str(), " LIMIT 0"),
                            },
                        ),
                    )
                },
                Err(failure) => match refuse_step(source, state, failure) {
                    Some(e) => Some(fail(e)),
                    None => None,
                },
            }
        },
        RegistrationEvent::Done(result) => {
            if state == RegistrationState::Collecting {
                return None;
            }
            match result {
                Ok(_) => finish_step(source, documents, state),
                Err(failure) => match refuse_step(source, state, failure) {
                    Some(e) => Some(fail(e)),
                    None => None,
                },
            }
        },
    }
}

/// What the failure to register a source is reported under.
pub fn registration_context(name: &str) -> (r: String)
    ensures
        r@ == "Failed to register data source: "@ + name@,
{
    concat2("Failed to register data source: ", name)
}

/// How far a registration has come.
pub open spec fn progress(state: RegistrationState) -> nat {
    match state {
        RegistrationState::CheckingFile | RegistrationState::CheckingStorage => 0,
        RegistrationState::SettingUpStorage => 1,
        RegistrationState::CheckingDataset | RegistrationState::CheckingDocuments => 2,
        RegistrationState::ProbingDocuments => 3,
        RegistrationState::Registering => 4,
        RegistrationState::ReadingTable => 5,
        RegistrationState::Collecting => 6,
        RegistrationState::ReadingSchema => 7,
        RegistrationState::Deregistering => 8,
        RegistrationState::BuildingTable => 9,
        RegistrationState::RegisteringCached => 10,
        RegistrationState::Finished => 11,
    }
}

/// Every step brings a registration further, so that it ends; it ends just
/// with the last action.
pub proof fn registrations_end(
    source: DataSourceView,
    documents: bool,
    state: RegistrationState,
    event: RegistrationEvent,
)
    ensures
        stepped(source, documents, state, event) matches Some((next, action)) ==> {
            &&& progress(state) < progress(next)
            &&& next == RegistrationState::Finished <==> action is Finish
        },
{
}

/// An action that failed ends the registration with an error.
pub proof fn failures_end_the_registration(
    source: DataSourceView,
    documents: bool,
    state: RegistrationState,
    failure: Failure,
)
    ensures
        stepped(source, documents, state, RegistrationEvent::Done(Err(failure))) matches Some(
            (next, action),
        ) ==> action matches RegistrationActionView::Finish(result) && result is Err,
        stepped(source, documents, state, RegistrationEvent::Collected(Err(failure))) matches Some(
            (next, action),
        ) ==> action matches RegistrationActionView::Finish(result) && result is Err,
{
}

/// A table is read into memory only where its source asks for it and its type
/// allows it.
pub proof fn only_wanted_tables_are_cached(
    source: DataSourceView,
    documents: bool,
    state: RegistrationState,
    event: RegistrationEvent,
)
    ensures
        !(begun(source, documents).1 is ReadTable),
        stepped(source, documents, state, event) matches Some((next, action)) && action is ReadTable
            ==> source.enable_cache && cacheable_type(source.source_type),
{
}

/// A database without a connection string is never handed to its provider.
pub proof fn databases_need_a_connection_string(
    source: DataSourceView,
    documents: bool,
)
    requires
        data_source::connected_type(source.source_type),
        source.connection_string is None,
    ensures
        begun(source, documents) == failed(
            ConfigErrorView::MissingConnectionString { name: source.name },
        ),
{
}

/// A provider is told the name, the options and the gateway block of the source,
/// and that it may write only where the source may be written to.
pub proof fn providers_learn_what_the_source_says(source: DataSourceView, location: Seq<char>)
    ensures
        registration_at(source, location).name == source.name,
        registration_at(source, location).location == location,
        registration_at(source, location).options == source.options,
        registration_at(source, location).open_connector == source.open_connector,
        registration_at(source, location).access matches Some((writable, level)) ==> (writable
            <==> source.access_mode == data_source::AccessMode::ReadWrite) && level
            == source.hierarchy_level,
{
}

} // verus!
