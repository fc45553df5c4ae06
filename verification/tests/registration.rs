use skardi::open_connector::config::OpenConnectorConfig;
use skardi::server::config::StorageCheck;
use skardi::server::config_error::ConfigError;
use skardi::server::data_source::{
    AccessMode, DataSource, DataSourceType, HierarchyLevel, SourcePath,
};
use skardi::server::registration::{
    begin_registration, read_csv_options, registration_context, step_registration, CsvOptions,
    Failure, RegistrationAction, RegistrationEvent, RegistrationState,
};
use skardi::text_map::TextMap;

fn source(source_type: DataSourceType) -> DataSource {
    DataSource {
        name: "src".to_string(),
        source_type,
        path: SourcePath::Text("/data/file".to_string()),
        connection_string: Some("http://localhost:8000".to_string()),
        schema: None,
        options: None,
        hierarchy_level: HierarchyLevel::Table,
        access_mode: AccessMode::ReadOnly,
        enable_cache: false,
        description: None,
        open_connector: None,
    }
}

fn options(pairs: &[(&str, &str)]) -> Option<TextMap> {
    Some(TextMap::of(pairs.iter().map(|(k, v)| (k.to_string(), v.to_string())).collect()))
}

fn failure() -> Failure {
    Failure { displayed: "shown".to_string(), debugged: "Debug(shown)".to_string() }
}

fn done() -> RegistrationEvent {
    RegistrationEvent::Done(Ok(()))
}

fn error(action: RegistrationAction<'_>) -> ConfigError {
    match action {
        RegistrationAction::Finish(Err(e)) => e,
        other => panic!("{other:?}"),
    }
}

/// Feeds events to a registration and gives what it does last.
fn run(source: &DataSource, events: Vec<RegistrationEvent>) -> RegistrationAction<'_> {
    let (mut state, mut action) = begin_registration(source, true);
    for event in events {
        let next = step_registration(source, true, state, event).unwrap();
        state = next.0;
        action = next.1;
    }
    action
}

#[test]
fn register_dynamodb_without_connection_string_errors() {
    let mut source = source(DataSourceType::Dynamodb);
    source.name = "products".to_string();
    source.connection_string = None;
    let (state, action) = begin_registration(&source, true);
    assert_eq!(state, RegistrationState::Finished);
    assert!(matches!(
        error(action),
        ConfigError::MissingConnectionString { ref name } if name == "products"
    ));
}

#[test]
fn register_dynamodb_without_options_reports_registration_failure() {
    let mut source = source(DataSourceType::Dynamodb);
    source.name = "products".to_string();
    let failure = Failure {
        displayed: "requires options".to_string(),
        debugged: "\"requires options\"".to_string(),
    };
    match error(run(&source, vec![RegistrationEvent::Done(Err(failure))])) {
        ConfigError::DataSourceRegistrationFailed { name, error } => {
            assert_eq!(name, "products");
            assert!(error.contains("requires options"), "got {error}");
        }
        other => panic!("expected DataSourceRegistrationFailed, got {other:?}"),
    }
}

#[test]
fn csv_options_are_read_from_the_options() {
    let mut csv = source(DataSourceType::Csv);
    let nothing = CsvOptions { has_header: None, delimiter: None, schema_infer_max_records: None };
    assert_eq!(read_csv_options(&csv), nothing);
    for (given, expected) in [("true", true), ("false", false), ("no", true), ("FALSE", true)] {
        csv.options = options(&[("has_header", given)]);
        assert_eq!(read_csv_options(&csv).has_header, Some(expected), "{given}");
    }
    for (given, expected) in [(";", Some(b';')), ("\t,", Some(9)), ("", None), ("\u{141}", Some(0x41))] {
        csv.options = options(&[("delimiter", given)]);
        assert_eq!(read_csv_options(&csv).delimiter, expected, "{given}");
    }
    for (given, expected) in [("100", Some(100)), ("+7", Some(7)), ("-1", None), ("many", None)] {
        csv.options = options(&[("schema_infer_max_records", given)]);
        assert_eq!(read_csv_options(&csv).schema_infer_max_records, expected, "{given}");
    }
}

#[test]
fn local_files_must_exist() {
    for source_type in [DataSourceType::Csv, DataSourceType::Parquet, DataSourceType::Sqlite] {
        let source = source(source_type);
        let (state, action) = begin_registration(&source, true);
        assert!(matches!(action, RegistrationAction::CheckFile));
        let (state, action) =
            step_registration(&source, true, state, RegistrationEvent::FileChecked(false)).unwrap();
        assert_eq!(state, RegistrationState::Finished);
        assert_eq!(error(action).message(), "Data source file not found: src -> /data/file");
    }
}

#[test]
fn a_csv_file_is_registered_with_its_options() {
    let mut source = source(DataSourceType::Csv);
    source.options = options(&[("delimiter", "|")]);
    match run(&source, vec![RegistrationEvent::FileChecked(true)]) {
        RegistrationAction::Register(registration) => {
            assert_eq!(registration.location, "/data/file");
            assert_eq!(registration.name, "src");
            assert_eq!(registration.csv.unwrap().delimiter, Some(b'|'));
            assert_eq!(registration.options.unwrap().get("delimiter"), Some("|"));
            assert!(registration.open_connector.is_none());
            assert_eq!(registration.access, None);
        }
        other => panic!("{other:?}"),
    }
    assert!(matches!(
        run(&source, vec![RegistrationEvent::FileChecked(true), done()]),
        RegistrationAction::Finish(Ok(()))
    ));
}

#[test]
fn remote_files_set_up_their_store() {
    let mut source = source(DataSourceType::Parquet);
    source.path = SourcePath::Text("s3://bucket/x.parquet".to_string());
    assert!(matches!(run(&source, vec![]), RegistrationAction::CheckStorage));
    let checked = |check| vec![RegistrationEvent::StorageChecked(check)];
    match run(&source, checked(StorageCheck::Passed)) {
        RegistrationAction::SetUpStorage { path } => assert_eq!(path, "s3://bucket/x.parquet"),
        other => panic!("{other:?}"),
    }
    let missing = StorageCheck::MissingConfig { field: "AWS_REGION".to_string() };
    assert!(matches!(
        error(run(&source, checked(missing))),
        ConfigError::MissingAwsConfig { ref field, .. } if field == "AWS_REGION"
    ));
    let mut events = checked(StorageCheck::Passed);
    events.push(RegistrationEvent::Done(Err(failure())));
    assert_eq!(
        error(run(&source, events)).message(),
        "S3 object store registration failed: src - shown"
    );
    let mut events = checked(StorageCheck::Passed);
    events.push(done());
    assert!(matches!(run(&source, events), RegistrationAction::Register(_)));
}

#[test]
fn databases_are_told_their_access() {
    for (source_type, told) in [
        (DataSourceType::Postgres, true),
        (DataSourceType::Mysql, true),
        (DataSourceType::Seekdb, true),
        (DataSourceType::Clickhouse, true),
        (DataSourceType::Dynamodb, true),
        (DataSourceType::OpenConnector, true),
        (DataSourceType::Mongo, false),
        (DataSourceType::Redis, false),
        (DataSourceType::Influxdb, false),
    ] {
        let mut source = source(source_type);
        source.access_mode = AccessMode::ReadWrite;
        source.hierarchy_level = HierarchyLevel::Catalog;
        source.open_connector = Some(OpenConnectorConfig {
            runtime_token_env: "OPEN_CONNECTOR_TOKEN".to_string(),
            bindings: vec![],
            raw_action_allowlist: vec![],
            max_pages: None,
            max_rows: None,
        });
        match run(&source, vec![]) {
            RegistrationAction::Register(registration) => {
                assert_eq!(registration.location, "http://localhost:8000");
                let expected = told.then_some((true, HierarchyLevel::Catalog));
                assert_eq!(registration.access, expected, "{source_type:?}");
                assert!(registration.csv.is_none());
                assert!(registration.options.is_none());
                let gateway = registration.open_connector.unwrap();
                assert_eq!(gateway.runtime_token_env, "OPEN_CONNECTOR_TOKEN");
            }
            other => panic!("{other:?}"),
        }
    }
}

#[test]
fn providers_fail_in_their_own_words() {
    let message = |source_type: DataSourceType, events: Vec<RegistrationEvent>| {
        let mut events = events;
        events.push(RegistrationEvent::Done(Err(failure())));
        error(run(&source(source_type), events)).message()
    };
    assert_eq!(
        message(DataSourceType::Postgres, vec![]),
        "PostgreSQL connection failed: src - Debug(shown)"
    );
    assert_eq!(
        message(DataSourceType::Mysql, vec![]),
        "MySQL connection failed: src - Debug(shown)"
    );
    assert_eq!(
        message(DataSourceType::Seekdb, vec![]),
        "SeekDB connection failed: src - Debug(shown)"
    );
    assert_eq!(
        message(DataSourceType::Sqlite, vec![RegistrationEvent::FileChecked(true)]),
        "SQLite connection failed: src - Debug(shown)"
    );
    assert_eq!(
        message(DataSourceType::Csv, vec![RegistrationEvent::FileChecked(true)]),
        "Data source registration failed: src - shown"
    );
    assert_eq!(
        message(DataSourceType::Lance, vec![RegistrationEvent::DatasetChecked(true)]),
        "Data source registration failed: src - shown"
    );
    assert_eq!(
        message(DataSourceType::Redis, vec![]),
        "Data source registration failed: src - Debug(shown)"
    );
}

#[test]
fn a_dataset_that_is_not_there_yet_is_skipped() {
    let source = source(DataSourceType::Lance);
    assert!(matches!(
        run(&source, vec![]),
        RegistrationAction::CheckDataset { ref path } if path == "/data/file"
    ));
    assert!(matches!(
        run(&source, vec![RegistrationEvent::DatasetChecked(false)]),
        RegistrationAction::Finish(Ok(()))
    ));
}

#[test]
fn paths_that_are_not_text_are_refused() {
    let message = |source_type: DataSourceType, events: Vec<RegistrationEvent>| {
        let mut source = source(source_type);
        source.path = SourcePath::NotText {
            displayed: "/d\u{fffd}".to_string(),
            debugged: "\"/d\\xFF\"".to_string(),
        };
        error(run(&source, events)).message()
    };
    let exists = || vec![RegistrationEvent::FileChecked(true)];
    assert_eq!(
        message(DataSourceType::Csv, exists()),
        "Data source 'src' has a non-UTF8 path: \"/d\\xFF\""
    );
    assert_eq!(
        message(DataSourceType::Sqlite, exists()),
        "Data source registration failed: src - Invalid SQLite database path"
    );
    assert_eq!(
        message(DataSourceType::Iceberg, vec![]),
        "Data source registration failed: src - Invalid warehouse path"
    );
    assert_eq!(
        message(DataSourceType::Csv, vec![RegistrationEvent::FileChecked(false)]),
        "Data source file not found: src -> /d\u{fffd}"
    );
}

#[test]
fn documents_are_checked_and_probed_first() {
    let mut source = source(DataSourceType::Documents);
    source.options = options(&[("image_store", "  s3://images  ")]);
    assert_eq!(
        error(begin_registration(&source, false).1).message(),
        "Data source registration failed: src - documents data source type requires the `documents` feature to be enabled at build time"
    );
    match run(&source, vec![]) {
        RegistrationAction::CheckDocuments { path, image_store } => {
            assert_eq!(path, "/data/file");
            assert_eq!(image_store, Some("s3://images".to_string()));
        }
        other => panic!("{other:?}"),
    }
    assert!(matches!(run(&source, vec![done()]), RegistrationAction::ProbeDocuments { .. }));
    assert!(matches!(run(&source, vec![done(), done()]), RegistrationAction::Register(_)));
    source.options = options(&[("image_store", "   ")]);
    assert!(matches!(
        run(&source, vec![]),
        RegistrationAction::CheckDocuments { image_store: None, .. }
    ));
    assert!(matches!(
        error(run(&source, vec![done(), RegistrationEvent::Done(Err(failure()))])),
        ConfigError::DataSourceRegistrationFailed { ref error, .. } if error == "shown"
    ));
}

#[test]
fn tables_are_cached_where_that_is_wanted() {
    let mut iceberg = source(DataSourceType::Iceberg);
    iceberg.enable_cache = true;
    match run(&iceberg, vec![done()]) {
        RegistrationAction::ReadTable { sql } => assert_eq!(sql, "SELECT * FROM src"),
        other => panic!("{other:?}"),
    }
    let collected = |rows: bool| vec![done(), done(), RegistrationEvent::Collected(Ok(rows))];
    assert!(matches!(run(&iceberg, collected(true)), RegistrationAction::Deregister));
    match run(&iceberg, collected(false)) {
        RegistrationAction::ReadSchema { sql } => assert_eq!(sql, "SELECT * FROM src LIMIT 0"),
        other => panic!("{other:?}"),
    }
    let mut events = collected(false);
    events.extend([done(), done(), done(), done()]);
    assert!(matches!(run(&iceberg, events), RegistrationAction::Finish(Ok(()))));

    let mut postgres = source(DataSourceType::Postgres);
    postgres.enable_cache = true;
    assert!(matches!(run(&postgres, vec![done()]), RegistrationAction::Finish(Ok(()))));
}

#[test]
fn every_step_of_caching_can_fail() {
    let mut iceberg = source(DataSourceType::Iceberg);
    iceberg.enable_cache = true;
    let fail = || RegistrationEvent::Done(Err(failure()));
    let rows = || RegistrationEvent::Collected(Ok(true));
    let no_rows = || RegistrationEvent::Collected(Ok(false));
    for (events, expected) in [
        (vec![done(), fail()], "Failed to read table for caching: shown"),
        (
            vec![done(), done(), RegistrationEvent::Collected(Err(failure()))],
            "Failed to collect batches for caching: shown",
        ),
        (vec![done(), done(), no_rows(), fail()], "Failed to infer schema for caching: shown"),
        (vec![done(), done(), rows(), fail()], "Failed to deregister table for caching: shown"),
        (
            vec![done(), done(), rows(), done(), fail()],
            "Failed to create MemTable for caching: shown",
        ),
        (
            vec![done(), done(), rows(), done(), done(), fail()],
            "Failed to register cached MemTable: shown",
        ),
    ] {
        match error(run(&iceberg, events)) {
            ConfigError::DataSourceRegistrationFailed { name, error } => {
                assert_eq!((name.as_str(), error.as_str()), ("src", expected));
            }
            other => panic!("{other:?}"),
        }
    }
}

#[test]
fn events_that_are_not_waited_for_are_refused() {
    let csv = source(DataSourceType::Csv);
    assert!(step_registration(&csv, true, RegistrationState::CheckingFile, done()).is_none());
    assert!(step_registration(&csv, true, RegistrationState::Collecting, done()).is_none());
    assert!(step_registration(&csv, true, RegistrationState::Finished, done()).is_none());
    assert!(step_registration(
        &csv,
        true,
        RegistrationState::Registering,
        RegistrationEvent::FileChecked(true)
    )
    .is_none());
    assert_eq!(registration_context("x"), "Failed to register data source: x");
}
