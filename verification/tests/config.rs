use skardi::json::Json;
use skardi::open_connector::config::{BindingConfig, OpenConnectorConfig};
use skardi::order::find_repeated;
use skardi::open_connector::error::OpenConnectorError;
use skardi::server::config::{
    adhoc_policy_from_sources, check_context_kind, load_context_config,
    resolve_pipeline_files, storage_error, validate_data_sources, validator_config_from_sources,
    ContextFile, DirectoryEntry, FoundPath, StorageCheck,
};
use skardi::server::config_error::ConfigError;
use skardi::server::data_source::{
    AccessMode, DataSource, DataSourceType, HierarchyLevel, SourcePath,
};
use skardi::text_map::TextMap;

fn validate(sources: Vec<DataSource>) -> Result<(), ConfigError> {
    let checks = sources.iter().map(|_| StorageCheck::Passed).collect();
    validate_data_sources(&sources, &checks)
}

#[test]
fn test_config_error_display() {
    let error = ConfigError::PipelineFileNotFound {
        path: "/missing/pipeline.yaml".to_string(),
    };
    assert_eq!(
        error.message(),
        "Pipeline file not found: /missing/pipeline.yaml"
    );

    let error = ConfigError::DuplicateDataSourceName {
        name: "duplicate_source".to_string(),
    };
    assert_eq!(
        error.message(),
        "Duplicate data source name: duplicate_source"
    );
}

fn dynamodb_source(
    name: &str,
    connection_string: Option<&str>,
    options: Option<TextMap>,
    access_mode: AccessMode,
) -> DataSource {
    DataSource {
        name: name.to_string(),
        source_type: DataSourceType::Dynamodb,
        path: SourcePath::Text(String::new()),
        connection_string: connection_string.map(String::from),
        schema: None,
        options,
        hierarchy_level: HierarchyLevel::default(),
        access_mode,
        enable_cache: false,
        description: None,
        open_connector: None,
    }
}

#[test]
fn validate_accepts_dynamodb_read_write() {
    let source = dynamodb_source(
        "products",
        Some("http://localhost:8000"),
        None,
        AccessMode::ReadWrite,
    );
    validate(vec![source]).expect("dynamodb supports read_write");
}

#[test]
fn validate_rejects_dynamodb_without_connection_string() {
    let source = dynamodb_source("products", None, None, AccessMode::ReadOnly);
    let err = validate(vec![source]).unwrap_err();
    assert!(
        matches!(
            &err,
            ConfigError::MissingConnectionString { name } if name == "products"
        ),
        "got {err:?}"
    );
}

#[test]
fn validate_rejects_dynamodb_catalog_empty_allowed_tables() {
    let mut options = TextMap::new();
    options.insert("allowed_tables".to_string(), " , , ".to_string());
    let mut source = dynamodb_source(
        "ddb",
        Some("http://localhost:8000"),
        Some(options),
        AccessMode::ReadOnly,
    );
    source.hierarchy_level = HierarchyLevel::Catalog;

    let err = validate(vec![source]).unwrap_err();
    assert!(
        matches!(
            &err,
            ConfigError::EmptyAllowedTables { name } if name == "ddb"
        ),
        "got {err:?}"
    );
}

#[test]
fn validate_accepts_dynamodb_catalog_allowed_tables() {
    let mut options = TextMap::new();
    options.insert("allowed_tables".to_string(), "products, orders".to_string());
    let mut source = dynamodb_source(
        "ddb",
        Some("http://localhost:8000"),
        Some(options),
        AccessMode::ReadOnly,
    );
    source.hierarchy_level = HierarchyLevel::Catalog;

    validate(vec![source]).expect("valid DynamoDB catalog allow-list");
}

fn open_connector_source(
    name: &str,
    config: Option<OpenConnectorConfig>,
    access_mode: AccessMode,
) -> DataSource {
    DataSource {
        name: name.to_string(),
        source_type: DataSourceType::OpenConnector,
        path: SourcePath::Text(String::new()),
        connection_string: Some("http://open-connector:3000".to_string()),
        schema: None,
        options: None,
        hierarchy_level: HierarchyLevel::Catalog,
        access_mode,
        enable_cache: false,
        description: None,
        open_connector: config,
    }
}

fn valid_config() -> OpenConnectorConfig {
    OpenConnectorConfig {
        runtime_token_env: "OPEN_CONNECTOR_TOKEN".to_string(),
        bindings: vec![BindingConfig {
            name: "github_skardi".to_string(),
            source_pack: "github".to_string(),
            resource: vec![
                ("owner".to_string(), Json::String("SkardiLabs".to_string())),
                ("repo".to_string(), Json::String("skardi".to_string())),
            ],
            tables: vec!["issues".to_string()],
        }],
        raw_action_allowlist: vec![],
        max_pages: None,
        max_rows: None,
    }
}

fn bare_config(token_env: &str, bindings: Vec<BindingConfig>) -> OpenConnectorConfig {
    OpenConnectorConfig {
        runtime_token_env: token_env.to_string(),
        bindings,
        raw_action_allowlist: vec![],
        max_pages: None,
        max_rows: None,
    }
}

fn binding(name: &str, source_pack: &str, tables: &[&str]) -> BindingConfig {
    BindingConfig {
        name: name.to_string(),
        source_pack: source_pack.to_string(),
        resource: vec![],
        tables: tables.iter().map(|t| t.to_string()).collect(),
    }
}

#[test]
fn gateway_blocks_may_have_no_bindings() {
    assert!(bare_config("TOKEN", vec![]).validate().is_ok());
}

#[test]
fn gateway_blocks_are_checked_in_order() {
    let problem = |bindings: Vec<BindingConfig>| {
        bare_config("TOKEN", bindings).validate().unwrap_err()
    };
    assert!(matches!(
        bare_config(" \t", vec![]).validate(),
        Err(OpenConnectorError::EmptyRuntimeTokenEnv)
    ));
    assert!(matches!(
        problem(vec![
            binding("github", "github", &["issues"]),
            binding("github", "github", &["commits"]),
        ]),
        OpenConnectorError::DuplicateBindingName { ref name } if name == "github"
    ));
    assert!(matches!(
        problem(vec![binding("  ", "github", &["issues"])]),
        OpenConnectorError::EmptyBindingName
    ));
    assert!(matches!(
        problem(vec![binding("gh", "", &[])]),
        OpenConnectorError::EmptySourcePack { ref binding } if binding == "gh"
    ));
    assert!(matches!(
        problem(vec![binding("gh", "github", &[])]),
        OpenConnectorError::EmptyTableList { ref binding } if binding == "gh"
    ));
    assert!(matches!(
        problem(vec![binding("gh", "github", &["issues", ""])]),
        OpenConnectorError::EmptyTableName { ref binding } if binding == "gh"
    ));
    assert!(matches!(
        problem(vec![binding("gh", "github", &["issues", "commits", "issues"])]),
        OpenConnectorError::DuplicateTableName { ref binding, ref table }
            if binding == "gh" && table == "issues"
    ));
    let mut config = valid_config();
    config.raw_action_allowlist = vec!["github.list".to_string(), " ".to_string()];
    config.max_pages = Some(0);
    assert!(matches!(config.validate(), Err(OpenConnectorError::EmptyAllowlistEntry)));
    config.raw_action_allowlist.pop();
    assert!(matches!(
        config.validate(),
        Err(OpenConnectorError::ZeroSafetyBound { field: "max_pages" })
    ));
    config.max_pages = Some(1);
    config.max_rows = Some(0);
    assert!(matches!(
        config.validate(),
        Err(OpenConnectorError::ZeroSafetyBound { field: "max_rows" })
    ));
    config.max_rows = Some(1);
    assert!(config.validate().is_ok());
}

#[test]
fn validate_accepts_open_connector_with_typed_config() {
    let source = open_connector_source(
        "saas",
        Some(valid_config()),
        AccessMode::ReadOnly,
    );
    validate(vec![source]).expect("valid open_connector source");
}

#[test]
fn validate_rejects_open_connector_without_typed_config() {
    let source = open_connector_source("saas", None, AccessMode::ReadOnly);
    let err = validate(vec![source]).unwrap_err();
    assert!(
        matches!(
            &err,
            ConfigError::MissingOpenConnectorConfig { name } if name == "saas"
        ),
        "got {err:?}"
    );
}

#[test]
fn validate_rejects_open_connector_config_on_wrong_type() {
    let mut source = dynamodb_source(
        "products",
        Some("http://localhost:8000"),
        None,
        AccessMode::ReadOnly,
    );
    source.open_connector =
        Some(valid_config());

    let err = validate(vec![source]).unwrap_err();
    assert!(
        matches!(
            &err,
            ConfigError::UnexpectedOpenConnectorConfig { name, source_type }
                if name == "products" && *source_type == DataSourceType::Dynamodb
        ),
        "got {err:?}"
    );
}

#[test]
fn validate_rejects_open_connector_invalid_config() {
    let source =
        open_connector_source(
            "saas",
            Some(bare_config("", vec![])),
            AccessMode::ReadOnly,
        );
    let err = validate(vec![source]).unwrap_err();
    assert!(
        matches!(
            &err,
            ConfigError::InvalidOpenConnectorConfig { name, .. } if name == "saas"
        ),
        "got {err:?}"
    );
}

#[test]
fn validate_rejects_open_connector_read_write() {
    // Milestone one is strictly read-only; OpenConnector is not in
    // WRITABLE_SOURCE_TYPES.
    let source = open_connector_source(
        "saas",
        Some(valid_config()),
        AccessMode::ReadWrite,
    );
    let err = validate(vec![source]).unwrap_err();
    assert!(
        matches!(
            &err,
            ConfigError::UnsupportedWriteMode { name, source_type }
                if name == "saas" && *source_type == DataSourceType::OpenConnector
        ),
        "got {err:?}"
    );
}

#[test]
fn validate_rejects_open_connector_without_connection_string() {
    let mut source = open_connector_source(
        "saas",
        Some(valid_config()),
        AccessMode::ReadOnly,
    );
    source.connection_string = None;

    let err = validate(vec![source]).unwrap_err();
    assert!(
        matches!(
            &err,
            ConfigError::MissingConnectionString { name } if name == "saas"
        ),
        "got {err:?}"
    );
}

#[test]
fn validate_rejects_open_connector_table_hierarchy() {
    // hierarchy_level defaults to Table; a minimal config must fail at
    // validation, not at registration with a wrapped provider error.
    let mut source = open_connector_source(
        "saas",
        Some(valid_config()),
        AccessMode::ReadOnly,
    );
    source.hierarchy_level = HierarchyLevel::Table;

    let err = validate(vec![source]).unwrap_err();
    assert!(
        matches!(
            &err,
            ConfigError::OpenConnectorHierarchyRequired { name } if name == "saas"
        ),
        "got {err:?}"
    );
}

#[test]
fn validate_rejects_open_connector_catalog_table_option() {
    // OpenConnector is catalog-only and its tables come from typed
    // bindings; a flat `table` option must fail as loudly as it would on
    // postgres/dynamodb instead of being silently ignored.
    let mut options = TextMap::new();
    options.insert("table".to_string(), "issues".to_string());
    let mut source = open_connector_source(
        "saas",
        Some(valid_config()),
        AccessMode::ReadOnly,
    );
    source.options = Some(options);

    let err = validate(vec![source]).unwrap_err();
    assert!(
        matches!(
            &err,
            ConfigError::CatalogModeConflictingOptions { name, option }
                if name == "saas" && option == "table"
        ),
        "got {err:?}"
    );
}

#[test]
fn validate_rejects_open_connector_catalog_empty_allowed_schemas() {
    let mut options = TextMap::new();
    options.insert("allowed_schemas".to_string(), " , , ".to_string());
    let mut source = open_connector_source(
        "saas",
        Some(valid_config()),
        AccessMode::ReadOnly,
    );
    source.options = Some(options);

    let err = validate(vec![source]).unwrap_err();
    assert!(
        matches!(
            &err,
            ConfigError::EmptyAllowedSchemas { name } if name == "saas"
        ),
        "got {err:?}"
    );
}

#[test]
fn validate_rejects_dynamodb_catalog_table_option() {
    let mut options = TextMap::new();
    options.insert("table".to_string(), "products".to_string());
    let mut source = dynamodb_source(
        "ddb",
        Some("http://localhost:8000"),
        Some(options),
        AccessMode::ReadOnly,
    );
    source.hierarchy_level = HierarchyLevel::Catalog;

    let err = validate(vec![source]).unwrap_err();
    assert!(
        matches!(
            &err,
            ConfigError::CatalogModeConflictingOptions { name, option }
                if name == "ddb" && option == "table"
        ),
        "got {err:?}"
    );
}

fn clickhouse_source(
    name: &str,
    options: Option<TextMap>,
    access_mode: AccessMode,
) -> DataSource {
    DataSource {
        name: name.to_string(),
        source_type: DataSourceType::Clickhouse,
        path: SourcePath::Text(String::new()),
        connection_string: Some("http://localhost:8123".to_string()),
        schema: None,
        options,
        open_connector: None,
        hierarchy_level: HierarchyLevel::default(),
        access_mode,
        enable_cache: false,
        description: None,
    }
}

#[test]
fn validate_rejects_clickhouse_read_write() {
    let mut options = TextMap::new();
    options.insert("table".to_string(), "events".to_string());
    let source = clickhouse_source("events", Some(options), AccessMode::ReadWrite);
    let err = validate(vec![source]).unwrap_err();
    assert!(
        matches!(
            &err,
            ConfigError::UnsupportedWriteMode { name, source_type }
                if name == "events" && *source_type == DataSourceType::Clickhouse
        ),
        "got {err:?}"
    );
}

#[test]
fn validate_accepts_clickhouse_table_mode_with_database_option() {
    let mut options = TextMap::new();
    options.insert("table".to_string(), "events".to_string());
    options.insert("database".to_string(), "analytics".to_string());
    let source = clickhouse_source("events", Some(options), AccessMode::ReadOnly);
    validate(vec![source]).expect("table mode accepts a database option");
}

#[test]
fn validate_rejects_clickhouse_catalog_database_option() {
    // "database" is ClickHouse's schema-analog option; letting it through
    // in catalog mode would silently change the pool's default database.
    let mut options = TextMap::new();
    options.insert("database".to_string(), "analytics".to_string());
    let mut source = clickhouse_source("ch", Some(options), AccessMode::ReadOnly);
    source.hierarchy_level = HierarchyLevel::Catalog;

    let err = validate(vec![source]).unwrap_err();
    assert!(
        matches!(
            &err,
            ConfigError::CatalogModeConflictingOptions { name, option }
                if name == "ch" && option == "database"
        ),
        "got {err:?}"
    );
}

#[test]
fn unsupported_write_mode_error_lists_dynamodb() {
    let err = ConfigError::UnsupportedWriteMode {
        name: "events".to_string(),
        source_type: DataSourceType::Csv,
    };
    assert!(err.message().contains("'dynamodb'"), "got {err:?}");
}

fn options(pairs: &[(&str, &str)]) -> Option<TextMap> {
    Some(TextMap::of(
        pairs.iter().map(|(k, v)| (k.to_string(), v.to_string())).collect(),
    ))
}

fn file_source(name: &str, source_type: DataSourceType, path: &str) -> DataSource {
    DataSource {
        name: name.to_string(),
        source_type,
        path: SourcePath::Text(path.to_string()),
        connection_string: None,
        schema: None,
        options: None,
        hierarchy_level: HierarchyLevel::default(),
        access_mode: AccessMode::default(),
        enable_cache: false,
        description: None,
        open_connector: None,
    }
}

#[test]
fn test_local_path_detection() {
    let source = file_source("default_test", DataSourceType::Parquet, "/path/to/file.parquet");
    assert_eq!(source.name, "default_test");
    assert!(matches!(source.source_type, DataSourceType::Parquet));
    assert!(!source.path.is_remote());
    assert_eq!(source.path.display(), "/path/to/file.parquet");
}

#[test]
fn test_s3_path_detection() {
    let mut source = file_source("s3_test", DataSourceType::Parquet, "s3://bucket/file.parquet");
    source.options = options(&[("has_header", "true"), ("delimiter", ",")]);
    assert_eq!(source.name, "s3_test");
    assert!(matches!(source.source_type, DataSourceType::Parquet));
    assert!(source.path.is_remote());
    assert_eq!(source.path.display(), "s3://bucket/file.parquet");
    assert!(source.options.is_some());
    assert!(source.option("aws_region").is_none());
    assert!(source.option("aws_access_key_id").is_none());
    assert!(source.option("aws_secret_access_key").is_none());
    assert_eq!(source.option("delimiter"), Some(","));
}

#[test]
fn test_load_context_config_success() {
    let mut first = file_source("sample_data", DataSourceType::Csv, "/data/test.csv");
    first.schema = options(&[("date", "timestamp"), ("value", "float64")]);
    first.options = options(&[("has_header", "true")]);
    let mut second = file_source("reference_data", DataSourceType::Csv, "/data/reference.csv");
    second.options = options(&[("has_header", "true")]);
    let sources = load_context_config(
        ContextFile::Read { kind: Some("context".to_string()), data_sources: vec![first, second] },
        &vec![StorageCheck::Passed, StorageCheck::Passed],
    )
    .unwrap();
    assert_eq!(sources.len(), 2);
    assert_eq!(sources[0].name, "sample_data");
    assert!(matches!(sources[0].source_type, DataSourceType::Csv));
    assert!(sources[0].schema.is_some());
    assert!(sources[0].options.is_some());
    assert_eq!(sources[1].name, "reference_data");
    assert!(matches!(sources[1].source_type, DataSourceType::Csv));
    assert!(sources[1].schema.is_none());
    assert!(sources[1].options.is_some());
}

#[test]
fn test_load_context_config_file_not_found() {
    let file = ContextFile::Missing { path: "/tmp/missing.yaml".to_string() };
    let error = load_context_config(file, &vec![]).unwrap_err();
    assert!(error.message().contains("Context file not found"));
}

#[test]
fn test_load_context_config_invalid_yaml() {
    let file = ContextFile::Invalid { error: "mapping values are not allowed".to_string() };
    let error = load_context_config(file, &vec![]).unwrap_err();
    assert!(error.message().contains("Invalid YAML"));
}

#[test]
fn a_context_says_what_it_is() {
    assert!(check_context_kind(Some("context")).is_ok());
    assert_eq!(
        check_context_kind(Some("pipeline")).unwrap_err().message(),
        "Invalid YAML in context file: Expected `kind: context`, got `kind: pipeline`"
    );
    assert_eq!(
        check_context_kind(None).unwrap_err().message(),
        "Invalid YAML in context file: Missing `kind: context` at the root of the context file"
    );
    let read = |kind: Option<&str>| ContextFile::Read {
        kind: kind.map(str::to_string),
        data_sources: vec![
            file_source("a", DataSourceType::Csv, "a"),
            file_source("a", DataSourceType::Csv, "b"),
        ],
    };
    let checks = vec![StorageCheck::Passed, StorageCheck::Passed];
    assert!(matches!(
        load_context_config(read(None), &checks),
        Err(ConfigError::InvalidContextYaml { .. })
    ));
    assert!(matches!(
        load_context_config(read(Some("context")), &checks),
        Err(ConfigError::DuplicateDataSourceName { ref name }) if name == "a"
    ));
}

#[test]
fn the_first_repeated_name_is_reported() {
    let names = |names: &[&str]| names.iter().map(|name| name.to_string()).collect();
    assert_eq!(find_repeated(&names(&["a", "b", "c"])), None);
    assert_eq!(find_repeated(&names(&["a", "b", "b", "a"])), Some("b".to_string()));
    let err = validate(vec![
        file_source("a", DataSourceType::Csv, "x"),
        clickhouse_source("b", None, AccessMode::ReadWrite),
        file_source("a", DataSourceType::Csv, "y"),
    ])
    .unwrap_err();
    assert!(matches!(err, ConfigError::DuplicateDataSourceName { ref name } if name == "a"));
}

#[test]
fn only_writable_types_may_ask_for_writes() {
    for (source_type, writable) in [
        (DataSourceType::Postgres, true),
        (DataSourceType::Mysql, true),
        (DataSourceType::Sqlite, true),
        (DataSourceType::Mongo, true),
        (DataSourceType::Redis, true),
        (DataSourceType::Seekdb, true),
        (DataSourceType::Dynamodb, true),
        (DataSourceType::Csv, false),
        (DataSourceType::Parquet, false),
        (DataSourceType::Iceberg, false),
        (DataSourceType::Lance, false),
        (DataSourceType::Influxdb, false),
        (DataSourceType::Clickhouse, false),
        (DataSourceType::Documents, false),
    ] {
        let mut source = file_source("s", source_type, "p");
        source.access_mode = AccessMode::ReadWrite;
        source.connection_string = Some("c".to_string());
        assert_eq!(validate(vec![source]).is_ok(), writable, "{source_type:?}");
    }
}

#[test]
fn remote_files_are_checked_by_their_storage() {
    let source = || file_source("remote", DataSourceType::Csv, "s3://bucket/file.csv");
    assert!(validate_data_sources(&vec![source()], &vec![StorageCheck::Passed]).is_ok());
    let missing = StorageCheck::MissingConfig { field: "AWS_REGION".to_string() };
    let err = validate_data_sources(&vec![source()], &vec![missing]).unwrap_err();
    assert_eq!(
        err.message(),
        "Missing required AWS configuration for S3 data source: remote - missing AWS_REGION"
    );
    let invalid = StorageCheck::InvalidPath { path: "s3:/x".to_string() };
    assert_eq!(
        storage_error("remote", &invalid).unwrap().message(),
        "S3 path must start with 's3://' prefix: s3:/x"
    );
    // The check says nothing about a local file.
    let local = file_source("local", DataSourceType::Csv, "/data/file.csv");
    assert!(validate_data_sources(&vec![local], &vec![invalid]).is_ok());
}

#[test]
fn catalogs_have_no_options_of_tables() {
    let catalog = |pairs: &[(&str, &str)]| {
        let mut source = clickhouse_source("ch", options(pairs), AccessMode::ReadOnly);
        source.hierarchy_level = HierarchyLevel::Catalog;
        validate(vec![source])
    };
    assert!(catalog(&[("allowed_schemas", "public, ,x")]).is_ok());
    assert!(matches!(
        catalog(&[("schema", "s"), ("database", "d")]),
        Err(ConfigError::CatalogModeConflictingOptions { ref option, .. }) if option == "schema"
    ));
    assert!(matches!(
        catalog(&[("allowed_schemas", "")]),
        Err(ConfigError::EmptyAllowedSchemas { .. })
    ));
    // Only DynamoDB has a list of tables.
    assert!(catalog(&[("allowed_tables", " ")]).is_ok());
}

#[test]
fn access_modes_are_collected_by_name() {
    let mut writable = dynamodb_source("w", None, None, AccessMode::ReadWrite);
    writable.path = SourcePath::Text("x".to_string());
    let sources = vec![file_source("r", DataSourceType::Csv, "r.csv"), writable];
    let config = validator_config_from_sources(&sources);
    assert_eq!(
        config.tables,
        vec![
            ("r".to_string(), AccessMode::ReadOnly),
            ("w".to_string(), AccessMode::ReadWrite)
        ]
    );
    let policy = adhoc_policy_from_sources(&sources);
    assert_eq!(policy.denied_schemas, vec!["auth"]);
    assert_eq!(policy.access.tables.len(), 2);
}

fn entry(path: &str, is_file: bool, extension: Option<&str>) -> DirectoryEntry {
    DirectoryEntry {
        path: path.to_string(),
        is_file,
        extension: extension.map(str::to_string),
    }
}

#[test]
fn test_resolve_pipeline_files_directory() {
    let found = FoundPath::Directory {
        entries: vec![
            entry("dir/c_pipeline.YAML", true, Some("YAML")),
            entry("dir/readme.txt", true, Some("txt")),
            entry("dir/a_pipeline.yaml", true, Some("yaml")),
            entry("dir/config.json", true, Some("json")),
            entry("dir/sub.yaml", false, Some("yaml")),
            entry("dir/yaml", true, None),
            entry("dir/b_pipeline.yml", true, Some("yml")),
        ],
    };
    let files = resolve_pipeline_files(Some("dir"), &found).unwrap();
    assert_eq!(
        files,
        vec!["dir/a_pipeline.yaml", "dir/b_pipeline.yml", "dir/c_pipeline.YAML"]
    );
}

#[test]
fn paths_resolve_by_what_is_there() {
    assert!(resolve_pipeline_files(None, &FoundPath::Other).unwrap().is_empty());
    assert_eq!(
        resolve_pipeline_files(Some("p.yaml"), &FoundPath::File).unwrap(),
        vec!["p.yaml"]
    );
    let message = |path: &str, found: &FoundPath| {
        resolve_pipeline_files(Some(path), found).unwrap_err().message()
    };
    assert_eq!(
        message("p.yaml", &FoundPath::Missing { has_extension: true }),
        "Pipeline file not found: p.yaml"
    );
    assert_eq!(
        message("dir", &FoundPath::Missing { has_extension: false }),
        "Pipeline directory not found: dir"
    );
    assert_eq!(message("pipe", &FoundPath::Other), "Pipeline file not found: pipe");
    assert_eq!(
        message("dir", &FoundPath::Directory { entries: vec![] }),
        "No pipeline files found in directory: dir"
    );
}

#[test]
fn types_are_written_and_shown() {
    assert_eq!(DataSourceType::OpenConnector.as_str(), "open_connector");
    assert_eq!(DataSourceType::OpenConnector.variant(), "OpenConnector");
    let err = ConfigError::UnexpectedOpenConnectorConfig {
        name: "x".to_string(),
        source_type: DataSourceType::OpenConnector,
    };
    assert_eq!(
        err.message(),
        "Data source 'x' sets an 'open_connector' config block but its type is 'open_connector'. The 'open_connector' field is only valid for type 'open_connector'."
    );
    let err = ConfigError::UnsupportedWriteMode {
        name: "x".to_string(),
        source_type: DataSourceType::Csv,
    };
    assert!(err.message().contains("type 'Csv' does not support"));
    let err = ConfigError::EmptyAllowedSchemas { name: "x".to_string() };
    assert!(err.message().ends_with("such as \"public,analytics\"."));
}

#[test]
fn a_map_keeps_the_last_value_of_a_key() {
    let mut map = TextMap::of(vec![
        ("a".to_string(), "1".to_string()),
        ("a".to_string(), "2".to_string()),
    ]);
    assert_eq!(map.get("a"), Some("2"));
    map.insert("a".to_string(), "3".to_string());
    assert_eq!(map.clone().get("a"), Some("3"));
    assert!(!map.contains_key("b"));
    assert!(!TextMap::new().contains_key("a"));
}

#[test]
fn test_load_server_config_missing_pipeline() {
    let found = FoundPath::Missing { has_extension: true };
    let error = resolve_pipeline_files(Some("missing.yaml"), &found).unwrap_err();
    assert!(error.message().contains("Pipeline file not found"));
}
