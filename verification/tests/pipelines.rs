use skardi::decimal::Decimal;
use skardi::json::{Json, Number};
use skardi::json_text::to_text;
use skardi::server::data_source::{
    AccessMode, DataSource, DataSourceType, HierarchyLevel, SourcePath,
};
use skardi::server::pipeline_handlers::{
    begin_execution, begin_with, describe_source, find_pipeline, get_data_sources,
    get_pipelines_info, get_table_schema, list_pipelines, pipeline_health_check, step_execution,
    ColumnInfo, ExecuteAction, ExecuteEvent, ExecuteRequest, ExecuteResponse, ExecuteState, Metric,
    Pipeline, SourceCheck, TableLookup,
};
use skardi::server::response::ApiError;
use skardi::server::semantics::SemanticsRegistry;
use skardi::server::startup::{
    check_screens, collect_jobs, collect_pipelines, context_descriptions, jobs_are_missing,
    load_server_config, validate_pipeline_sql, CliArgs, JobLoad, PipelineDetails, PipelineFile,
    PipelineLoad, PipelineScreen, SqlVerdict,
};
use skardi::text_map::TextMap;

fn from_value(value: &serde_json::Value) -> Json {
    match value {
        serde_json::Value::Null => Json::Null,
        serde_json::Value::Bool(b) => Json::Bool(*b),
        serde_json::Value::Number(n) => Json::Number(match (n.as_u64(), n.as_i64()) {
            (Some(n), _) => Number::PosInt(n),
            (None, Some(n)) => Number::NegInt(n),
            (None, None) => Number::Double(Decimal::read(&n.to_string()).unwrap()),
        }),
        serde_json::Value::String(s) => Json::String(s.clone()),
        serde_json::Value::Array(items) => Json::Array(items.iter().map(from_value).collect()),
        serde_json::Value::Object(members) => Json::Object(
            members
                .iter()
                .map(|(key, value)| (key.clone(), from_value(value)))
                .collect(),
        ),
    }
}

/// A value from its JSON text.
fn json(text: &str) -> Json {
    from_value(&serde_json::from_str(text).unwrap())
}

fn pipeline(name: &str, sql: &str, parameters: &[&str]) -> Pipeline {
    Pipeline {
        name: name.to_string(),
        version: "1.0.0".to_string(),
        sql: sql.to_string(),
        parameters: parameters.iter().map(|p| (p.to_string(), "Utf8".to_string())).collect(),
        created_at: Json::Null,
        updated_at: Json::String("2026-01-01".to_string()),
    }
}

fn product_search() -> Vec<Pipeline> {
    vec![pipeline(
        "product-search",
        "SELECT id FROM products WHERE brand = {brand} AND price <= {max_price}",
        &["brand", "max_price"],
    )]
}

fn request(body: &str) -> ExecuteRequest {
    match json(body) {
        Json::Object(parameters) => ExecuteRequest { parameters },
        other => panic!("{other:?}"),
    }
}

fn value(json: &Json) -> serde_json::Value {
    serde_json::from_str(&to_text(json)).unwrap()
}

fn failure(action: ExecuteAction) -> (Metric, ApiError) {
    match action {
        ExecuteAction::Answer { metric, reply } => (metric, reply.unwrap_err()),
        other => panic!("{other:?}"),
    }
}

fn screened(name: &str, sql: &str, verdict: SqlVerdict) -> PipelineFile {
    PipelineFile {
        screen: PipelineScreen::Checked { name: name.to_string(), sql: sql.to_string(), verdict },
        load: PipelineLoad::Loaded(PipelineDetails {
            version: "1.0.0".to_string(),
            parameters: vec![],
            created_at: Json::Null,
            updated_at: Json::Null,
        }),
    }
}

fn file(name: &str, sql: &str) -> PipelineFile {
    screened(name, sql, SqlVerdict::Passed)
}

fn source(name: &str, source_type: DataSourceType) -> DataSource {
    DataSource {
        name: name.to_string(),
        source_type,
        path: SourcePath::Text("/data/file".to_string()),
        connection_string: Some("http://localhost:8000".to_string()),
        schema: None,
        options: None,
        hierarchy_level: HierarchyLevel::Table,
        access_mode: AccessMode::ReadOnly,
        enable_cache: false,
        description: None,
        open_connector: None,
    }
}

// ─── execution ──────────────────────────────────────────────────────────

#[test]
fn http_execute_pipeline_returns_matching_rows() {
    let pipelines = product_search();
    let request = request(r#"{"brand": "Apple", "max_price": 1500.0}"#);
    let (state, action) = begin_execution(&pipelines, "product-search", &request);
    match action {
        ExecuteAction::Execute { sql } => assert_eq!(
            sql,
            "SELECT id FROM products WHERE brand = 'Apple' AND price <= 1500.0"
        ),
        other => panic!("{other:?}"),
    }
    let (state, action) = step_execution(state, ExecuteEvent::Executed(Ok(2))).unwrap();
    assert!(matches!(action, ExecuteAction::Convert));
    let rows = vec![json(r#"{"id": 1}"#), json(r#"{"id": 3}"#)];
    let (state, action) = step_execution(state, ExecuteEvent::Converted(Ok(rows))).unwrap();
    assert!(matches!(state, ExecuteState::Answered));
    match action {
        ExecuteAction::Answer { metric: Metric::Success, reply: Ok((data, rows)) } => {
            let response = ExecuteResponse { data, rows, execution_time_ms: 12 }.into_json();
            assert_eq!(
                to_text(&response),
                r#"{"data":[{"id":1},{"id":3}],"execution_time_ms":12,"rows":2}"#
            );
        }
        other => panic!("{other:?}"),
    }
}

#[test]
fn http_execute_missing_param_returns_400() {
    let pipelines = product_search();
    let (_, action) =
        begin_execution(&pipelines, "product-search", &request(r#"{"brand": "Apple"}"#));
    let (metric, error) = failure(action);
    assert!(matches!(metric, Metric::Failure { error_type: "parameter_validation_error" }));
    assert_eq!(error.status, 400);
    assert_eq!(error.message, "Missing required parameters: max_price");
    assert_eq!(
        to_text(&error.details.unwrap()),
        r#"{"expected_parameters":["max_price","brand"],"missing_parameters":["max_price"],"received_parameters":["brand"]}"#
    );
}

#[test]
fn http_execute_unsupported_param_type_returns_400() {
    let pipelines = product_search();
    let body = r#"{"brand": {"nested": "object"}, "max_price": 1500.0}"#;
    let (_, action) = begin_execution(&pipelines, "product-search", &request(body));
    let (_, error) = failure(action);
    assert_eq!(error.status, 400);
    assert_eq!(
        error.message,
        r#"Unsupported parameter types: brand: Object {"nested": String("object")}"#
    );
    assert!(value(&error.details.unwrap())["missing_parameters"].is_null());
}

#[test]
fn http_execute_unknown_pipeline_returns_404() {
    let pipelines = product_search();
    let (_, action) = begin_execution(&pipelines, "does-not-exist", &request("{}"));
    let (metric, error) = failure(action);
    assert!(matches!(metric, Metric::Uncounted));
    assert_eq!(error.status, 404);
    assert_eq!(error.message, "Pipeline 'does-not-exist' not found");
    assert_eq!(
        to_text(&error.details.unwrap()),
        r#"{"available_pipelines":["product-search"],"requested_pipeline":"does-not-exist"}"#
    );
}

#[test]
fn missing_parameters_are_named_before_unusable_ones() {
    let expected = ["a", "b", "c"].map(str::to_string).to_vec();
    let parameters = request(r#"{"b": []}"#).parameters;
    let (state, action) = begin_with("{a}{b}{c}", &expected, &parameters);
    assert!(matches!(state, ExecuteState::Answered));
    let (_, error) = failure(action);
    assert_eq!(error.message, "Missing required parameters: a, c");
    let details = value(&error.details.unwrap());
    assert_eq!(details["missing_parameters"].as_array().unwrap().len(), 2);
    assert_eq!(details["unsupported_parameters"].as_array().unwrap().len(), 1);
}

#[test]
fn the_engine_and_the_conversion_can_fail() {
    let event = ExecuteEvent::Executed(Err("no table".to_string()));
    let (state, action) = step_execution(ExecuteState::Executing, event).unwrap();
    assert!(matches!(state, ExecuteState::Answered));
    let (metric, error) = failure(action);
    assert!(matches!(metric, Metric::Failure { error_type: "query_execution_error" }));
    assert_eq!((error.status, error.error_type), (500, "query_execution_error"));
    assert_eq!(error.message, "SQL query execution failed: no table");
    assert_eq!(value(&error.details.unwrap())["engine_error"], "no table");

    let event = ExecuteEvent::Converted(Err(("bad".to_string(), "Schema".to_string())));
    let (_, action) = step_execution(ExecuteState::Converting { rows: 4 }, event).unwrap();
    let (metric, error) = failure(action);
    assert!(matches!(metric, Metric::Failure { error_type: "result_conversion_error" }));
    assert_eq!(error.message, "Failed to convert query results to JSON: bad");
    assert_eq!(
        to_text(&error.details.unwrap()),
        r#"{"conversion_error":"bad","record_batch_rows":4,"record_batch_schema":"Schema"}"#
    );
    assert!(step_execution(ExecuteState::Answered, ExecuteEvent::Executed(Ok(1))).is_none());
}

// ─── listings ───────────────────────────────────────────────────────────

#[test]
fn http_list_pipelines_returns_registered() {
    let listing = list_pipelines(&product_search(), 3, "now");
    assert_eq!(
        to_text(&listing),
        r#"{"count":1,"data_sources":3,"pipelines":[{"endpoint":"/product-search/execute","name":"product-search","parameters":[{"name":"brand","type":"Utf8"},{"name":"max_price","type":"Utf8"}],"version":"1.0.0"}],"success":true,"timestamp":"now"}"#
    );
}

#[test]
fn http_get_pipeline_info_returns_metadata_and_params() {
    let info = get_pipelines_info(&product_search(), "product-search", "now").unwrap();
    assert_eq!(
        to_text(&info),
        r#"{"pipeline":{"created_at":null,"endpoint":"/product-search/execute","name":"product-search","parameters":[{"name":"brand","type":"Utf8"},{"name":"max_price","type":"Utf8"}],"updated_at":"2026-01-01","version":"1.0.0"},"success":true,"timestamp":"now"}"#
    );
}

#[test]
fn http_get_pipeline_info_unknown_returns_404() {
    let error = get_pipelines_info(&product_search(), "missing", "now").unwrap_err();
    assert_eq!(error.status, 404);
    assert_eq!(error.error_type, "pipeline_not_found");
    assert_eq!(to_text(&error.details.unwrap()), r#"{"available_pipelines":["product-search"]}"#);
}

#[test]
fn http_pipeline_health_check_returns_ok() {
    let report = pipeline_health_check(&product_search(), "product-search", &vec![], 5, "now")
        .unwrap();
    assert_eq!(
        to_text(&report),
        r#"{"data_sources":{"checks":[],"healthy":0,"total":0},"health_check_time_ms":5,"pipeline":{"name":"product-search","parameters":["brand","max_price"],"version":"1.0.0"},"status":"healthy","timestamp":"now"}"#
    );
    assert!(pipeline_health_check(&product_search(), "x", &vec![], 5, "now").is_err());
}

#[test]
fn one_unreachable_source_degrades_a_pipeline() {
    let checks = vec![
        SourceCheck { name: "a".to_string(), error: None },
        SourceCheck { name: "b".to_string(), error: Some("gone".to_string()) },
    ];
    let report =
        pipeline_health_check(&product_search(), "product-search", &checks, 1, "now").unwrap();
    let report = value(&report);
    assert_eq!(report["status"], "degraded");
    assert_eq!(report["data_sources"]["healthy"], 1);
    assert_eq!(report["data_sources"]["total"], 2);
    assert_eq!(report["data_sources"]["checks"][0]["accessible"], true);
    assert!(report["data_sources"]["checks"][0]["error"].is_null());
    assert_eq!(report["data_sources"]["checks"][1]["status"], "unhealthy");
    assert_eq!(report["data_sources"]["checks"][1]["error"], "gone");
}

#[test]
fn pipelines_are_found_by_name() {
    let pipelines = vec![pipeline("a", "1", &[]), pipeline("b", "2", &[])];
    assert_eq!(find_pipeline(&pipelines, "b").unwrap().sql, "2");
    assert!(find_pipeline(&pipelines, "c").is_none());
}

#[test]
fn connection_strings_are_shown_without_user_and_password() {
    let shown = |url: &str| {
        let mut database = source("db", DataSourceType::Postgres);
        database.connection_string = Some(url.to_string());
        describe_source(&database, vec![], &SemanticsRegistry::new()).url.unwrap()
    };
    assert_eq!(shown("postgresql://u:pw@localhost:5432/db"), "postgresql://localhost:5432/db");
    assert_eq!(shown("mongodb://u:p@w@host"), "mongodb://host");
    assert_eq!(shown("mysql://host/db?who=a@b"), "mysql://host/db?who=a@b");
    assert_eq!(shown("mysql://host/a@b"), "mysql://host/a@b");
    assert_eq!(shown("http://localhost:8000"), "http://localhost:8000");
    assert_eq!(shown("data/a@b.db"), "data/a@b.db");
    assert_eq!(shown("postgresql://@"), "postgresql://");
    let mut bare = source("db", DataSourceType::Postgres);
    bare.connection_string = None;
    assert!(describe_source(&bare, vec![], &SemanticsRegistry::new()).url.is_none());
}

// ─── data sources ───────────────────────────────────────────────────────

#[test]
fn get_data_sources_reports_dynamodb_as_url_source() {
    let sources = vec![source("products", DataSourceType::Dynamodb)];
    let found = vec![TableLookup::NotFound];
    let listing = value(&get_data_sources(&sources, &found, &SemanticsRegistry::new(), "now"));
    let entry = &listing["data"][0];
    assert_eq!(entry["name"], "products");
    assert_eq!(entry["type"], "dynamodb");
    assert!(entry["path"].is_null(), "db sources expose no path");
    assert_eq!(entry["url"], "http://localhost:8000");
    assert_eq!(entry["tables"][0]["name"], "products");
    assert_eq!(entry["tables"][0]["schema"].as_array().unwrap().len(), 0);
    assert_eq!(listing["count"], 1);
}

fn registry() -> SemanticsRegistry {
    SemanticsRegistry {
        tables: TextMap::of(vec![("t".to_string(), "A table.".to_string())]),
        columns: vec![
            ("t".to_string(), "id".to_string(), "old".to_string()),
            ("t".to_string(), "id".to_string(), "The key.".to_string()),
            ("u".to_string(), "name".to_string(), "Elsewhere.".to_string()),
        ],
    }
}

fn columns() -> TableLookup {
    TableLookup::Found(vec![
        ColumnInfo { name: "id".to_string(), data_type: "Int64".to_string(), nullable: false },
        ColumnInfo { name: "name".to_string(), data_type: "Utf8".to_string(), nullable: true },
    ])
}

#[test]
fn descriptions_are_attached_to_tables_and_columns() {
    let sources = vec![source("t", DataSourceType::Csv)];
    let listing = get_data_sources(&sources, &vec![columns()], &registry(), "now");
    assert_eq!(
        to_text(&listing),
        r#"{"count":1,"data":[{"name":"t","path":"/data/file","tables":[{"description":"A table.","name":"t","schema":[{"description":"The key.","name":"id","nullable":false,"type":"Int64"},{"name":"name","nullable":true,"type":"Utf8"}]}],"type":"csv","url":null}],"success":true,"timestamp":"now"}"#
    );
    let fields = get_table_schema("t", &columns(), &registry()).unwrap();
    let described = describe_source(&sources[0], fields, &registry());
    assert_eq!(described.tables[0].schema[0].description.as_deref(), Some("The key."));
    assert_eq!(described.path.as_deref(), Some("/data/file"));
}

#[test]
fn a_table_that_cannot_be_looked_up_has_its_reason() {
    let problem = |found: TableLookup| get_table_schema("t", &found, &registry()).unwrap_err();
    assert_eq!(problem(TableLookup::NoCatalog), "Default catalog 'datafusion' not found");
    assert_eq!(problem(TableLookup::NoSchema), "Schema 'public' not found");
    assert_eq!(problem(TableLookup::NotFound), "Table 't' not found in catalog");
    assert_eq!(
        problem(TableLookup::Failed("io".to_string())),
        "Failed to get table 't': io"
    );
}

// ─── descriptions ───────────────────────────────────────────────────────

#[test]
fn ctx_inline_description_used_when_no_semantics_file() {
    let mut described = source("t", DataSourceType::Csv);
    described.description = Some("From the context.".to_string());
    let descriptions = context_descriptions(&vec![described, source("u", DataSourceType::Csv)]);
    assert_eq!(
        descriptions,
        vec![
            ("t".to_string(), Some("From the context.".to_string())),
            ("u".to_string(), None)
        ]
    );
    let mut registry = SemanticsRegistry::new();
    registry.complete(&descriptions);
    assert_eq!(registry.table_description("t"), Some("From the context."));
    assert_eq!(registry.table_description("u"), None);
}

#[test]
fn semantics_file_overrides_ctx_inline_description() {
    let mut registry = registry();
    registry.complete(&vec![
        ("t".to_string(), Some("From the context.".to_string())),
        ("v".to_string(), Some("first".to_string())),
        ("v".to_string(), Some("second".to_string())),
    ]);
    assert_eq!(registry.table_description("t"), Some("A table."));
    assert_eq!(registry.table_description("v"), Some("first"));
    assert_eq!(registry.column_description("t", "id"), Some("The key."));
    assert_eq!(registry.column_description("t", "name"), None);
}

// ─── start ──────────────────────────────────────────────────────────────

#[test]
fn test_load_server_config_from_directory() {
    let mut described = source("t", DataSourceType::Csv);
    described.description = Some("From the context.".to_string());
    let config = load_server_config(
        CliArgs { port: 3000, ctx_file: Some("ctx.yaml".to_string()), ..CliArgs::default() },
        vec![described],
        vec![file("test-pipeline", "SELECT 1"), file("second-pipeline", "SELECT 2")],
        &vec![JobLoad::NotAJob, JobLoad::Loaded { name: "nightly".to_string() }],
        SemanticsRegistry::new(),
    )
    .unwrap();
    assert_eq!(config.pipelines.len(), 2);
    assert_eq!(config.pipelines[1].name, "second-pipeline");
    assert_eq!(config.jobs, vec!["nightly"]);
    assert_eq!(config.args.port, 3000);
    assert_eq!(config.data_sources.len(), 1);
    assert_eq!(config.semantics.table_description("t"), Some("From the context."));
}

#[test]
fn test_load_server_config_no_pipelines() {
    let config = load_server_config(
        CliArgs::default(),
        vec![],
        vec![],
        &vec![],
        SemanticsRegistry::new(),
    )
    .unwrap();
    assert_eq!(config.pipelines.len(), 0);
}

#[test]
fn names_are_unique_across_pipelines_and_jobs() {
    let named = |name: &str| file(name, "");
    let failed = collect_pipelines(vec![named("a"), named("b"), named("a")]).unwrap_err();
    assert_eq!(
        failed.message,
        "Duplicate pipeline name 'a' found. Each pipeline must have a unique name."
    );
    let pipelines = collect_pipelines(vec![named("a"), named("b")]).unwrap();
    let job = |name: &str| JobLoad::Loaded { name: name.to_string() };
    assert_eq!(collect_jobs(&pipelines, &vec![job("c"), job("d")]).unwrap(), vec!["c", "d"]);
    assert_eq!(
        collect_jobs(&pipelines, &vec![job("c"), job("b")]).unwrap_err().message,
        "Job name 'b' collides with an existing pipeline name; both primitives share the same namespace in this server"
    );
    assert_eq!(
        collect_jobs(&pipelines, &vec![job("c"), job("c")]).unwrap_err().message,
        "Duplicate job name 'c' found. Each job must have a unique name."
    );
    let broken = JobLoad::Failed { path: "\"j.yaml\"".to_string(), error: "bad".to_string() };
    assert_eq!(
        collect_jobs(&pipelines, &vec![broken]).unwrap_err().message,
        "Failed to load job from \"j.yaml\": bad"
    );
}

#[test]
fn sql_is_screened_before_pipelines_are_loaded() {
    let rejected = screened("p", "DROP TABLE t", SqlVerdict::Rejected { error: "DDL".to_string() });
    assert_eq!(
        check_screens(&vec![file("a", ""), rejected]).unwrap_err().message,
        "Pipeline 'p' SQL validation failed: DDL"
    );
    let mut unreadable = file("p", "");
    unreadable.screen =
        PipelineScreen::Unreadable { path: "\"p.yaml\"".to_string(), error: "gone".to_string() };
    let failed = load_server_config(
        CliArgs::default(),
        vec![],
        vec![file("a", ""), file("a", ""), unreadable],
        &vec![],
        SemanticsRegistry::new(),
    )
    .unwrap_err();
    assert_eq!(failed.message, "Failed to load pipeline from \"p.yaml\"");
    assert_eq!(failed.cause.as_deref(), Some("gone"));
    let mut broken = file("q", "");
    broken.load = PipelineLoad::Failed { path: "\"q\"".to_string(), error: "bad".to_string() };
    let failed = collect_pipelines(vec![broken]).unwrap_err();
    assert_eq!(failed.message, "Failed to load pipeline from \"q\"");
    assert_eq!(failed.cause.as_deref(), Some("bad"));
}

#[test]
fn a_path_for_jobs_without_jobs_is_noticed() {
    assert!(jobs_are_missing(Some("jobs/"), 2, 0));
    assert!(!jobs_are_missing(Some("jobs/"), 0, 0));
    assert!(!jobs_are_missing(Some("jobs/"), 2, 1));
    assert!(!jobs_are_missing(None, 2, 0));
}

#[test]
fn pipelines_run_the_sql_that_was_checked() {
    let config = load_server_config(
        CliArgs::default(),
        vec![source("t", DataSourceType::Csv)],
        vec![file("a", "SELECT 1"), file("b", "SELECT 2")],
        &vec![],
        SemanticsRegistry::new(),
    )
    .unwrap();
    let sql: Vec<&str> = config.pipelines.iter().map(|p| p.sql.as_str()).collect();
    assert_eq!(sql, ["SELECT 1", "SELECT 2"]);
    assert_eq!(config.data_sources.len(), 0, "without a context file there are no sources");
    let mut writable = source("w", DataSourceType::Postgres);
    writable.access_mode = AccessMode::ReadWrite;
    let check = validate_pipeline_sql("SELECT 1", &vec![source("t", DataSourceType::Csv), writable]);
    assert_eq!(check.sql, "SELECT 1");
    assert_eq!(check.access.tables.len(), 2);
    assert!(!check.access.tables[0].1.is_read_write());
    assert!(check.access.tables[1].1.is_read_write());
}

// ─── execution by name ──────────────────────────────────────────────────

fn test_pipeline() -> Vec<Pipeline> {
    vec![pipeline(
        "test-pipeline",
        "SELECT user_id, name, category\nFROM test_data\nWHERE user_id = {user_id} AND category = {category}\n",
        &["user_id", "category"],
    )]
}

#[test]
fn test_execute_pipeline_success() {
    let request = request(r#"{"user_id": 1, "category": "premium"}"#);
    let (state, action) = begin_execution(&test_pipeline(), "test-pipeline", &request);
    match action {
        ExecuteAction::Execute { sql } => assert_eq!(
            sql,
            "SELECT user_id, name, category\nFROM test_data\nWHERE user_id = 1 AND category = 'premium'\n"
        ),
        other => panic!("{other:?}"),
    }
    let (state, _) = step_execution(state, ExecuteEvent::Executed(Ok(1))).unwrap();
    let rows = vec![json(r#"{"user_id": 1, "name": "Alice", "category": "premium"}"#)];
    let (_, action) = step_execution(state, ExecuteEvent::Converted(Ok(rows))).unwrap();
    match action {
        ExecuteAction::Answer { reply: Ok((data, rows)), .. } => {
            let response = ExecuteResponse { data, rows, execution_time_ms: 3 }.into_json();
            let response = value(&response);
            assert_eq!(response["rows"], 1);
            assert_eq!(response["data"].as_array().unwrap().len(), 1);
            assert!(response["execution_time_ms"].as_u64().unwrap() > 0);
            assert_eq!(response["data"][0]["user_id"], 1);
            assert_eq!(response["data"][0]["name"], "Alice");
            assert_eq!(response["data"][0]["category"], "premium");
        }
        other => panic!("{other:?}"),
    }
}

#[test]
fn test_execute_pipeline_missing_parameter() {
    let request = request(r#"{"user_id": 1}"#);
    let (_, action) = begin_execution(&test_pipeline(), "test-pipeline", &request);
    assert_eq!(failure(action).1.status, 400);
}

#[test]
fn test_execute_pipeline_invalid_parameter_type() {
    let request = request(r#"{"user_id": 1, "category": []}"#);
    let (_, action) = begin_execution(&test_pipeline(), "test-pipeline", &request);
    assert_eq!(failure(action).1.status, 400);
}

#[test]
fn test_execute_pipeline_not_found() {
    let (_, action) = begin_execution(&test_pipeline(), "nonexistent-pipeline", &request("{}"));
    assert_eq!(failure(action).1.status, 404);
}

#[test]
fn test_execute_pipeline_parameter_binding() {
    let request = request(r#"{"user_id": 123, "category": "test'quote"}"#);
    let (state, action) = begin_execution(&test_pipeline(), "test-pipeline", &request);
    match action {
        ExecuteAction::Execute { sql } => {
            assert!(sql.ends_with("WHERE user_id = 123 AND category = 'test''quote'\n"))
        }
        other => panic!("{other:?}"),
    }
    let event = ExecuteEvent::Executed(Err("table 'test_data' not found".to_string()));
    let (_, action) = step_execution(state, event).unwrap();
    assert_eq!(failure(action).1.status, 500);
}

#[test]
fn test_load_server_config_with_both_files() {
    let config = load_server_config(
        CliArgs { port: 8080, ctx_file: Some("ctx.yaml".to_string()), ..CliArgs::default() },
        vec![
            source("sample_data", DataSourceType::Csv),
            source("reference_data", DataSourceType::Csv),
        ],
        vec![file("test-pipeline", "SELECT 1")],
        &vec![],
        SemanticsRegistry::new(),
    )
    .unwrap();
    assert_eq!(config.data_sources.len(), 2);
    assert_eq!(config.args.port, 8080);
    assert_eq!(config.pipelines.len(), 1);
    let pipeline = find_pipeline(&config.pipelines, "test-pipeline").unwrap();
    assert_eq!(pipeline.name, "test-pipeline");
    assert_eq!(pipeline.version, "1.0.0");
}

#[test]
fn test_load_server_config_pipeline_only() {
    let config = load_server_config(
        CliArgs { port: 3000, ..CliArgs::default() },
        vec![],
        vec![file("test-pipeline", "SELECT 1")],
        &vec![],
        SemanticsRegistry::new(),
    )
    .unwrap();
    assert_eq!(config.data_sources.len(), 0);
    assert_eq!(config.args.port, 3000);
    assert_eq!(config.pipelines.len(), 1);
    let pipeline = find_pipeline(&config.pipelines, "test-pipeline").unwrap();
    assert_eq!(pipeline.name, "test-pipeline");
    assert_eq!(pipeline.version, "1.0.0");
}
