//! What a registration does with its source.
use vstd::prelude::*;

use crate::server::config;
use crate::server::config::StorageCheck;
use crate::server::config_error::ConfigErrorView;
use crate::server::data_source;
use crate::server::data_source::{AccessMode, DataSourceType, DataSourceView, PathView};
use crate::server::registration;
use crate::server::registration::{
    Failure, RegistrationActionView, RegistrationEvent, RegistrationState, RegistrationView,
};
use crate::text;

verus! {

/// Whether a registration hands its provider what the source says: its name, its
/// connection string where the type is a connected one and the text of its path
/// otherwise, its options and its gateway block.
pub open spec fn hands_over(source: DataSourceView, registration: RegistrationView) -> bool {
    &&& registration.name == source.name
    &&& registration.options == source.options
    &&& registration.open_connector == source.open_connector
    &&& if data_source::connected_type(source.source_type) {
        source.connection_string == Some(registration.location)
    } else {
        source.path == PathView::Text(registration.location)
    }
    &&& registration.csv is Some <==> source.source_type == DataSourceType::Csv
    &&& registration.access == if data_source::catalog_type(source.source_type) {
        Some((source.access_mode == AccessMode::ReadWrite, source.hierarchy_level))
    } else {
        None
    }
}

/// Whether a state can be reached for a source: a dataset or a source of
/// documents is only looked at where its path is a text.
pub open spec fn fits(source: DataSourceView, state: RegistrationState) -> bool {
    match state {
        RegistrationState::CheckingDataset => source.source_type is Lance && source.path is Text,
        RegistrationState::CheckingDocuments | RegistrationState::ProbingDocuments =>
            source.source_type is Documents && source.path is Text,
        RegistrationState::CheckingFile => registration::file_type(source.source_type)
            && !source.path.is_remote(),
        RegistrationState::CheckingStorage | RegistrationState::SettingUpStorage =>
            source.path.is_remote() && config::storable_type(source.source_type),
        RegistrationState::ReadingTable
        | RegistrationState::Collecting
        | RegistrationState::ReadingSchema
        | RegistrationState::Deregistering
        | RegistrationState::BuildingTable
        | RegistrationState::RegisteringCached => source.enable_cache
            && registration::cacheable_type(source.source_type),
        _ => true,
    }
}

/// Every state that a registration comes to fits its source.
pub proof fn states_fit_their_source(
    source: DataSourceView,
    documents: bool,
    state: RegistrationState,
    event: RegistrationEvent,
)
    ensures
        fits(source, registration::begun(source, documents).0),
        fits(source, state) ==> (registration::stepped(source, documents, state, event) matches Some(
            next,
        ) ==> fits(source, next.0)),
{
}

/// Whenever a registration, at its beginning or at any step, registers a source
/// with its provider, it hands over what the source says: the location is the
/// connection string of a connected type and the text of the path otherwise.
pub proof fn sources_are_registered_where_they_are(
    source: DataSourceView,
    documents: bool,
    state: RegistrationState,
    event: RegistrationEvent,
)
    ensures
        registration::begun(source, documents).1 matches RegistrationActionView::Register(given)
            ==> hands_over(source, given),
        fits(source, state) ==> (registration::stepped(source, documents, state, event) matches Some(
            (_, RegistrationActionView::Register(given)),
        ) ==> hands_over(source, given)),
        source.path is Text && !data_source::connected_type(source.source_type) ==> (
        registration::stepped(source, documents, state, event) matches Some(
            (_, RegistrationActionView::Register(given)),
        ) ==> hands_over(source, given)),
{
}

/// Every look at the source's path, before it is registered, is at the text of
/// its path.
pub proof fn paths_are_looked_at_as_they_are(
    source: DataSourceView,
    documents: bool,
    state: RegistrationState,
    event: RegistrationEvent,
    path: Seq<char>,
)
    requires
        source.path == PathView::Text(path),
    ensures
        match registration::begun(source, documents).1 {
            RegistrationActionView::SetUpStorage { path: at } => at == path,
            RegistrationActionView::CheckDataset { path: at } => at == path,
            RegistrationActionView::CheckDocuments { path: at, .. } => at == path,
            RegistrationActionView::ProbeDocuments { path: at, .. } => at == path,
            _ => true,
        },
        registration::stepped(source, documents, state, event) matches Some((_, action))
            ==> match action {
            RegistrationActionView::SetUpStorage { path: at } => at == path,
            RegistrationActionView::CheckDataset { path: at } => at == path,
            RegistrationActionView::CheckDocuments { path: at, .. } => at == path,
            RegistrationActionView::ProbeDocuments { path: at, .. } => at == path,
            _ => true,
        },
{
}

/// The image store that documents are looked for in is the option of that name,
/// trimmed, and none where that is empty; the check and the probe ask for the
/// same one.
pub proof fn image_stores_are_the_options(
    source: DataSourceView,
    documents: bool,
    state: RegistrationState,
    event: RegistrationEvent,
)
    ensures
        registration::stepped(source, documents, state, event) matches Some((_, action))
            ==> match action {
            RegistrationActionView::CheckDocuments { image_store, .. }
            | RegistrationActionView::ProbeDocuments { image_store, .. } => match source.options {
                Some(options) => if options.contains_key("image_store"@) && text::trim(
                    options["image_store"@],
                ).len() > 0 {
                    image_store == Some(text::trim(options["image_store"@]))
                } else {
                    image_store is None
                },
                None => image_store is None,
            },
            _ => true,
        },
{
}

/// A local file is registered only when it is there, and its absence is the
/// error, naming the source and the path.
pub proof fn absent_files_are_not_registered(source: DataSourceView, documents: bool)
    requires
        source.source_type is Csv || source.source_type is Parquet || source.source_type is Sqlite,
        !source.path.is_remote(),
    ensures
        registration::begun(source, documents).1 is CheckFile,
        registration::stepped(
            source,
            documents,
            registration::begun(source, documents).0,
            RegistrationEvent::FileChecked(false),
        ) == Some(
            (
                RegistrationState::Finished,
                RegistrationActionView::Finish(
                    Err(
                        ConfigErrorView::DataSourceFileNotFound {
                            name: source.name,
                            path: source.path.displayed(),
                        },
                    ),
                ),
            ),
        ),
        registration::stepped(
            source,
            documents,
            registration::begun(source, documents).0,
            RegistrationEvent::FileChecked(true),
        ) matches Some((_, action)) && match source.path {
            PathView::Text(path) => action matches RegistrationActionView::Register(given)
                && given.location == path,
            PathView::NotText { .. } => action matches RegistrationActionView::Finish(Err(_)),
        },
{
}

/// A dataset that is not there is passed over without an error; one that is there
/// is registered at its path.
pub proof fn absent_datasets_are_passed_over(
    source: DataSourceView,
    documents: bool,
    path: Seq<char>,
)
    requires
        source.path == PathView::Text(path),
        source.source_type is Lance,
    ensures
        registration::stepped(
            source,
            documents,
            RegistrationState::CheckingDataset,
            RegistrationEvent::DatasetChecked(false),
        ) == Some(
            (RegistrationState::Finished, RegistrationActionView::Finish(Ok(()))),
        ),
        registration::stepped(
            source,
            documents,
            RegistrationState::CheckingDataset,
            RegistrationEvent::DatasetChecked(true),
        ) matches Some((_, RegistrationActionView::Register(given))) && given.location == path
            && given.name == source.name,
{
}

/// A connected type without a connection string fails with that error when it
/// comes to be registered, and with one is registered at it whatever its path.
pub proof fn connected_types_use_their_connection(source: DataSourceView, documents: bool)
    requires
        data_source::connected_type(source.source_type),
        !source.path.is_remote() || !config::storable_type(source.source_type),
        !registration::file_type(source.source_type),
    ensures
        match source.connection_string {
            Some(connection) => registration::begun(
                source,
                documents,
            ).1 matches RegistrationActionView::Register(given) && given.location == connection,
            None => registration::begun(source, documents).1 == RegistrationActionView::Finish(
                Err(ConfigErrorView::MissingConnectionString { name: source.name }),
            ),
        },
{
}

/// A source of documents is checked, then probed, then registered, each at the
/// source's path, and needs the feature to be built in.
pub proof fn documents_are_checked_first(source: DataSourceView, path: Seq<char>)
    requires
        source.path == PathView::Text(path),
        source.source_type is Documents,
    ensures
        registration::registering(source, true) matches (
            RegistrationState::CheckingDocuments,
            RegistrationActionView::CheckDocuments { path: at, .. },
        ) && at == path,
        registration::stepped(
            source,
            true,
            RegistrationState::CheckingDocuments,
            RegistrationEvent::Done(Ok(())),
        ) matches Some(
            (
                RegistrationState::ProbingDocuments,
                RegistrationActionView::ProbeDocuments { path: at, .. },
            ),
        ) && at == path,
        registration::stepped(
            source,
            true,
            RegistrationState::ProbingDocuments,
            RegistrationEvent::Done(Ok(())),
        ) matches Some(
            (RegistrationState::Registering, RegistrationActionView::Register(given)),
        ) && given.location == path,
        registration::registering(source, false).1 matches RegistrationActionView::Finish(Err(e))
            && e is DataSourceRegistrationFailed,
{
}

/// A cached table is read whole, collected, taken out, built in memory and put
/// back, in this order; an empty one has its schema read first. Both queries
/// read the table of the source's name.
pub proof fn caching_takes_these_steps(source: DataSourceView, documents: bool)
    requires
        source.enable_cache,
        source.source_type is Csv || source.source_type is Parquet || source.source_type is Iceberg,
    ensures
        registration::stepped(
            source,
            documents,
            RegistrationState::Registering,
            RegistrationEvent::Done(Ok(())),
        ) == Some(
            (
                RegistrationState::ReadingTable,
                RegistrationActionView::ReadTable { sql: "SELECT * FROM "@ + source.name },
            ),
        ),
        registration::stepped(
            source,
            documents,
            RegistrationState::ReadingTable,
            RegistrationEvent::Done(Ok(())),
        ) == Some((RegistrationState::Collecting, RegistrationActionView::Collect)),
        registration::stepped(
            source,
            documents,
            RegistrationState::Collecting,
            RegistrationEvent::Collected(Ok(true)),
        ) == Some((RegistrationState::Deregistering, RegistrationActionView::Deregister)),
        registration::stepped(
            source,
            documents,
            RegistrationState::Collecting,
            RegistrationEvent::Collected(Ok(false)),
        ) == Some(
            (
                RegistrationState::ReadingSchema,
                RegistrationActionView::ReadSchema {
                    sql: "SELECT * FROM "@ + source.name + " LIMIT 0"@,
                },
            ),
        ),
        registration::stepped(
            source,
            documents,
            RegistrationState::ReadingSchema,
            RegistrationEvent::Done(Ok(())),
        ) == Some((RegistrationState::Deregistering, RegistrationActionView::Deregister)),
        registration::stepped(
            source,
            documents,
            RegistrationState::Deregistering,
            RegistrationEvent::Done(Ok(())),
        ) == Some((RegistrationState::BuildingTable, RegistrationActionView::BuildTable)),
        registration::stepped(
            source,
            documents,
            RegistrationState::BuildingTable,
            RegistrationEvent::Done(Ok(())),
        ) == Some((RegistrationState::RegisteringCached, RegistrationActionView::RegisterCached)),
        registration::stepped(
            source,
            documents,
            RegistrationState::RegisteringCached,
            RegistrationEvent::Done(Ok(())),
        ) == Some((RegistrationState::Finished, RegistrationActionView::Finish(Ok(())))),
{
}

/// A source that is not to be cached, or whose type is not, is done once its
/// provider has registered it.
pub proof fn uncached_sources_are_done_when_registered(source: DataSourceView, documents: bool)
    requires
        !source.enable_cache || !(source.source_type is Csv || source.source_type is Parquet
            || source.source_type is Iceberg),
    ensures
        registration::stepped(
            source,
            documents,
            RegistrationState::Registering,
            RegistrationEvent::Done(Ok(())),
        ) == Some((RegistrationState::Finished, RegistrationActionView::Finish(Ok(())))),
{
}

/// A failure of a step ends the registration with an error that names the source
/// and tells the failure.
pub proof fn failures_tell_what_failed(
    source: DataSourceView,
    documents: bool,
    state: RegistrationState,
    failure: Failure,
)
    ensures
        registration::stepped(source, documents, state, RegistrationEvent::Done(Err(failure)))
            matches Some((to, action)) ==> to is Finished && (
        action matches RegistrationActionView::Finish(Err(e)) && match e {
            ConfigErrorView::S3ObjectStoreRegistrationFailed { name, error } => name == source.name
                && error == failure.displayed@,
            ConfigErrorView::PostgresConnectionFailed { name, error } => name == source.name && error
                == failure.debugged@ && source.source_type is Postgres,
            ConfigErrorView::MySQLConnectionFailed { name, error } => name == source.name && error
                == failure.debugged@ && source.source_type is Mysql,
            ConfigErrorView::SQLiteConnectionFailed { name, error } => name == source.name && error
                == failure.debugged@ && source.source_type is Sqlite,
            ConfigErrorView::SeekDbConnectionFailed { name, error } => name == source.name && error
                == failure.debugged@ && source.source_type is Seekdb,
            ConfigErrorView::DataSourceRegistrationFailed { name, error } => name == source.name
                && match state {
                RegistrationState::ReadingTable => error == "Failed to read table for caching: "@
                    + failure.displayed@,
                RegistrationState::ReadingSchema => error == "Failed to infer schema for caching: "@
                    + failure.displayed@,
                RegistrationState::Deregistering => error
                    == "Failed to deregister table for caching: "@ + failure.displayed@,
                RegistrationState::BuildingTable => error
                    == "Failed to create MemTable for caching: "@ + failure.displayed@,
                RegistrationState::RegisteringCached => error
                    == "Failed to register cached MemTable: "@ + failure.displayed@,
                RegistrationState::Registering => error == (if source.source_type is Csv
                    || source.source_type is Parquet || source.source_type is Lance {
                    failure.displayed@
                } else {
                    failure.debugged@
                }),
                _ => error == failure.displayed@,
            },
            _ => false,
        }),
        registration::stepped(
            source,
            documents,
            RegistrationState::Collecting,
            RegistrationEvent::Collected(Err(failure)),
        ) == Some(
            (
                RegistrationState::Finished,
                RegistrationActionView::Finish(
                    Err(
                        ConfigErrorView::DataSourceRegistrationFailed {
                            name: source.name,
                            error: "Failed to collect batches for caching: "@ + failure.displayed@,
                        },
                    ),
                ),
            ),
        ),
{
}

/// A path that is no text fails the registration of every type that is not a
/// connected one, with an error that names the source.
pub proof fn paths_must_be_texts(source: DataSourceView, debugged: Seq<char>)
    requires
        source.path matches PathView::NotText { debugged: shown, .. } && shown == debugged,
        !data_source::connected_type(source.source_type),
    ensures
        registration::registering(source, true) == (
            RegistrationState::Finished,
            RegistrationActionView::Finish(
                Err(
                    match source.source_type {
                        DataSourceType::Sqlite => ConfigErrorView::DataSourceRegistrationFailed {
                            name: source.name,
                            error: "Invalid SQLite database path"@,
                        },
                        DataSourceType::Iceberg => ConfigErrorView::DataSourceRegistrationFailed {
                            name: source.name,
                            error: "Invalid warehouse path"@,
                        },
                        _ => ConfigErrorView::NonUtf8Path { name: source.name, path: debugged },
                    },
                ),
            ),
        ),
{
}

proof fn low_byte(c: char)
    ensures
        (c as u32 % 256) as u8 as int == c as int % 256,
{
}

/// The options of a CSV file are those that the source gives: a header unless the
/// option says `false`, the first character as delimiter, and a number of records
/// to look at; an option that is not given, or gives nothing usable, is unset.
pub proof fn csv_files_are_read_as_declared(
    source: DataSourceView,
    options: Map<Seq<char>, Seq<char>>,
    n: usize,
)
    requires
        source.options == Some(options),
        source.source_type is Csv,
    ensures
        options.contains_key("has_header"@) ==> registration::csv_options(source).has_header == Some(
            options["has_header"@] != "false"@,
        ),
        !options.contains_key("has_header"@) ==> registration::csv_options(source).has_header is None,
        (options.contains_key("delimiter"@) && options["delimiter"@].len() > 0) ==> (
        registration::csv_options(source).delimiter matches Some(byte) && byte as int
            == options["delimiter"@][0] as int % 256),
        !options.contains_key("delimiter"@) || options["delimiter"@].len() == 0
            ==> registration::csv_options(source).delimiter is None,
        (options.contains_key("schema_infer_max_records"@) && options["schema_infer_max_records"@]
            == text::decimal(n as nat)) ==> registration::csv_options(
            source,
        ).schema_infer_max_records == Some(n),
        !options.contains_key("schema_infer_max_records"@) ==> registration::csv_options(
            source,
        ).schema_infer_max_records is None,
        registration::registration_at(source, source.name).csv == Some(
            registration::csv_options(source),
        ),
{
    text::decimal_reads_back(n as nat);
    low_byte(options["delimiter"@][0]);
}

/// A remote file has its storage checked, then set up at its path, and only then is
/// registered; what the check finds wrong ends the registration.
pub proof fn remote_files_have_their_storage_set_up(
    source: DataSourceView,
    documents: bool,
    path: Seq<char>,
    wrong: String,
    field: String,
)
    requires
        source.path == PathView::Text(path),
        source.path.is_remote(),
        source.source_type is Csv || source.source_type is Parquet || source.source_type is Lance,
    ensures
        registration::begun(source, documents) == (
            RegistrationState::CheckingStorage,
            RegistrationActionView::CheckStorage,
        ),
        registration::stepped(
            source,
            documents,
            RegistrationState::CheckingStorage,
            RegistrationEvent::StorageChecked(StorageCheck::Passed),
        ) == Some(
            (RegistrationState::SettingUpStorage, RegistrationActionView::SetUpStorage { path }),
        ),
        registration::stepped(
            source,
            documents,
            RegistrationState::CheckingStorage,
            RegistrationEvent::StorageChecked(StorageCheck::InvalidPath { path: wrong }),
        ) == Some(
            (
                RegistrationState::Finished,
                RegistrationActionView::Finish(
                    Err(ConfigErrorView::InvalidS3Path { path: wrong@ }),
                ),
            ),
        ),
        registration::stepped(
            source,
            documents,
            RegistrationState::CheckingStorage,
            RegistrationEvent::StorageChecked(StorageCheck::MissingConfig { field }),
        ) == Some(
            (
                RegistrationState::Finished,
                RegistrationActionView::Finish(
                    Err(
                        ConfigErrorView::MissingAwsConfig { name: source.name, field: field@ },
                    ),
                ),
            ),
        ),
        registration::stepped(
            source,
            documents,
            RegistrationState::SettingUpStorage,
            RegistrationEvent::Done(Ok(())),
        ) matches Some((_, action)) && if source.source_type is Lance {
            action == (RegistrationActionView::CheckDataset { path })
        } else {
            action matches RegistrationActionView::Register(given) && given.location == path
        },
{
}

/// A source that passes what comes before it is registered, and not passed over: at its
/// path where its type has one, with only a dataset looked for first.
pub proof fn sources_come_to_be_registered(
    source: DataSourceView,
    documents: bool,
    path: Seq<char>,
)
    requires
        source.path == PathView::Text(path),
        !data_source::connected_type(source.source_type),
        !(source.source_type is Documents),
    ensures
        if source.source_type is Lance {
            registration::registering(source, documents) == (
                RegistrationState::CheckingDataset,
                RegistrationActionView::CheckDataset { path },
            )
        } else {
            registration::registering(source, documents) matches (
                RegistrationState::Registering,
                RegistrationActionView::Register(given),
            ) && hands_over(source, given) && given.location == path
        },
{
}

/// A registration that is finished takes no further step, and an event that does not
/// belong to the state that it meets is not taken.
pub proof fn events_out_of_turn_are_not_taken(
    source: DataSourceView,
    documents: bool,
    state: RegistrationState,
    event: RegistrationEvent,
)
    ensures
        registration::stepped(source, documents, RegistrationState::Finished, event) is None,
        event is FileChecked && !(state is CheckingFile) ==> registration::stepped(
            source,
            documents,
            state,
            event,
        ) is None,
        event is StorageChecked && !(state is CheckingStorage) ==> registration::stepped(
            source,
            documents,
            state,
            event,
        ) is None,
        event is DatasetChecked && !(state is CheckingDataset) ==> registration::stepped(
            source,
            documents,
            state,
            event,
        ) is None,
        event is Collected && !(state is Collecting) ==> registration::stepped(
            source,
            documents,
            state,
            event,
        ) is None,
        event is Done && (state is CheckingFile || state is CheckingStorage
            || state is CheckingDataset || state is Collecting) ==> registration::stepped(
            source,
            documents,
            state,
            event,
        ) is None,
{
}

/// Where a registration stands, and what it asks for, after events, if it took them all.
pub open spec fn run(
    source: DataSourceView,
    documents: bool,
    events: Seq<RegistrationEvent>,
) -> Option<(RegistrationState, RegistrationActionView)>
    decreases events.len(),
{
    if events.len() == 0 {
        Some(registration::begun(source, documents))
    } else {
        match run(source, documents, events.drop_last()) {
            Some((state, _)) => registration::stepped(source, documents, state, events.last()),
            None => None,
        }
    }
}

/// Whatever happens in a registration, where it asks for the source to be registered it
/// asks for what the source says, and what it asks to be cached is the source's table.
pub proof fn registrations_keep_to_their_source(
    source: DataSourceView,
    documents: bool,
    events: Seq<RegistrationEvent>,
)
    ensures
        run(source, documents, events) matches Some((state, action)) ==> fits(source, state)
            && match action {
            RegistrationActionView::Register(given) => hands_over(source, given),
            RegistrationActionView::ReadTable { sql } => sql == "SELECT * FROM "@ + source.name
                && source.enable_cache,
            RegistrationActionView::ReadSchema { sql } => sql == "SELECT * FROM "@ + source.name
                + " LIMIT 0"@ && source.enable_cache,
            _ => true,
        },
    decreases events.len(),
{
    if events.len() > 0 {
        registrations_keep_to_their_source(source, documents, events.drop_last());
        if let Some((state, _)) = run(source, documents, events.drop_last()) {
            states_fit_their_source(source, documents, state, events.last());
            sources_are_registered_where_they_are(source, documents, state, events.last());
        }
    }
}

} // verus!
