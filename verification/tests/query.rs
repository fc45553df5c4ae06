use skardi::decimal::Decimal;
use skardi::json::{get_member, Json, Number};
use skardi::server::pipeline_handlers::Metric;
use skardi::server::query_audit::QueryAuditStatus;
use skardi::server::query_handlers::{
    begin_query, step_query, validate_ai_context, validate_context_fields, validate_context_string,
    AuditOutcome, QueryAction, QueryEvent, QueryRequest, QueryState, SqlRejection, StatementKind,
    DEFAULT_MAX_ROWS,
};
use skardi::server::response::ApiError;

fn from_value(value: &serde_json::Value) -> Json {
    match value {
        serde_json::Value::Null => Json::Null,
        serde_json::Value::Bool(b) => Json::Bool(*b),
        serde_json::Value::Number(n) => Json::Number(match (n.as_u64(), n.as_i64()) {
            (Some(n), _) => Number::PosInt(n),
            (None, Some(n)) => Number::NegInt(n),
            (None, None) => Number::Double(Decimal::read(&n.to_string()).unwrap()),
        }),
        serde_json::Value::String(s) => Json::String(s.clone()),
        serde_json::Value::Array(items) => Json::Array(items.iter().map(from_value).collect()),
        serde_json::Value::Object(members) => Json::Object(
            members
                .iter()
                .map(|(key, value)| (key.clone(), from_value(value)))
                .collect(),
        ),
    }
}

/// A value from its JSON text.
fn json(text: &str) -> Json {
    from_value(&serde_json::from_str(text).unwrap())
}

fn context(purpose: &str, session_id: &str) -> Json {
    Json::Object(vec![
        ("purpose".to_string(), Json::String(purpose.to_string())),
        ("session_id".to_string(), Json::String(session_id.to_string())),
    ])
}

/// A request that lives as long as the tests do.
fn asked(max_rows: Option<usize>, ai_context: Option<Json>) -> &'static QueryRequest {
    Box::leak(Box::new(QueryRequest { sql: "SELECT 1".to_string(), max_rows, ai_context }))
}

/// Feeds events to a request and gives what it does last.
fn run(max_rows: Option<usize>, auditing: bool, events: Vec<QueryEvent>) -> QueryAction<'static> {
    feed(asked(max_rows, None), auditing, events)
}

fn feed(
    request: &'static QueryRequest,
    auditing: bool,
    events: Vec<QueryEvent>,
) -> QueryAction<'static> {
    let (mut state, mut action) = begin_query(request, auditing);
    for event in events {
        let next = step_query(state, event).unwrap();
        state = next.0;
        action = next.1;
    }
    action
}

fn validated() -> QueryEvent {
    QueryEvent::Validated(Ok(StatementKind::Query))
}

fn answer(action: QueryAction) -> (Option<AuditOutcome>, Result<(usize, bool), ApiError>) {
    match action {
        QueryAction::Answer { metric, outcome, reply } => {
            match (&metric, &reply) {
                (Metric::Success, Ok(_)) => {}
                (Metric::Failure { error_type }, Err(e)) => assert_eq!(*error_type, e.error_type),
                other => panic!("{other:?}"),
            }
            (outcome, reply)
        }
        other => panic!("{other:?}"),
    }
}

fn refusal(action: QueryAction) -> ApiError {
    let (outcome, reply) = answer(action);
    assert!(outcome.is_none());
    reply.unwrap_err()
}

#[test]
fn select_returns_rows_with_envelope() {
    let events = vec![validated(), QueryEvent::Executed(Ok(5)), QueryEvent::Converted(Ok(()))];
    let (outcome, reply) = answer(run(None, false, events));
    assert!(outcome.is_none());
    assert_eq!(reply.unwrap(), (5, false));
}

#[test]
fn max_rows_truncates_and_flags() {
    match run(Some(2), false, vec![validated()]) {
        QueryAction::Execute { fetch, .. } => assert_eq!(fetch, Some(3)),
        other => panic!("{other:?}"),
    }
    match run(Some(2), false, vec![validated(), QueryEvent::Executed(Ok(3))]) {
        QueryAction::Convert { keep } => assert_eq!(keep, Some(2)),
        other => panic!("{other:?}"),
    }
    let events = vec![validated(), QueryEvent::Executed(Ok(3)), QueryEvent::Converted(Ok(()))];
    assert_eq!(answer(run(Some(2), false, events)).1.unwrap(), (2, true));
}

#[test]
fn result_exactly_at_cap_is_not_truncated() {
    let events = vec![validated(), QueryEvent::Executed(Ok(5)), QueryEvent::Converted(Ok(()))];
    assert_eq!(answer(run(Some(5), false, events)).1.unwrap(), (5, false));
}

#[test]
fn max_rows_usize_max_does_not_overflow() {
    match run(Some(18446744073709551615), false, vec![validated()]) {
        QueryAction::Execute { fetch, .. } => assert_eq!(fetch, Some(i64::MAX as usize)),
        other => panic!("{other:?}"),
    }
    let events = vec![validated(), QueryEvent::Executed(Ok(5)), QueryEvent::Converted(Ok(()))];
    assert_eq!(answer(run(Some(18446744073709551615), false, events)).1.unwrap(), (5, false));
}

#[test]
fn max_rows_zero_rejected() {
    let error = refusal(run(Some(0), true, vec![]));
    assert_eq!(error.status, 400);
    assert_eq!(error.error_type, "parameter_validation_error");
    assert_eq!(error.message, "max_rows must be a positive integer");
}

#[test]
fn rows_are_capped_without_a_cap() {
    match run(None, false, vec![validated()]) {
        QueryAction::Execute { fetch, .. } => assert_eq!(fetch, Some(DEFAULT_MAX_ROWS + 1)),
        other => panic!("{other:?}"),
    }
    // What is not a query returns all that it returns.
    let other = || QueryEvent::Validated(Ok(StatementKind::Other));
    assert!(matches!(run(Some(1), false, vec![other()]), QueryAction::Execute { fetch: None, .. }));
    assert!(matches!(
        run(Some(1), false, vec![other(), QueryEvent::Executed(Ok(9))]),
        QueryAction::Convert { keep: None }
    ));
}

fn rejected(rejection: SqlRejection) -> ApiError {
    let event = QueryEvent::Validated(Err(("no".to_string(), rejection)));
    refusal(run(None, true, vec![event]))
}

/// How a request with a context is refused.
fn context_rejected(ai_context: Json) -> ApiError {
    refusal(begin_query(asked(None, Some(ai_context)), false).1)
}

fn detail(error: &ApiError, key: &str) -> Json {
    match &error.details {
        Some(Json::Object(members)) => get_member(members, key).unwrap().clone(),
        other => panic!("{other:?}"),
    }
}

#[test]
fn ddl_rejected() {
    let error = rejected(SqlRejection::DdlNotAllowed { operation: "DROP".to_string() });
    assert_eq!(error.status, 400);
    assert_eq!(error.error_type, "sql_validation_error");
    assert_eq!(error.message, "no");
    assert_eq!(detail(&error, "operation"), json(r#""DROP""#));
}

#[test]
fn multi_statement_rejected() {
    let error = rejected(SqlRejection::NotExactlyOneStatement { count: 2 });
    assert_eq!(error.status, 400);
    assert_eq!(error.error_type, "sql_validation_error");
    assert_eq!(detail(&error, "statement_count"), json("2"));
}

#[test]
fn insert_into_read_only_source_rejected() {
    let error = rejected(SqlRejection::WriteNotAllowed {
        operation: "INSERT".to_string(),
        table: "products".to_string(),
    });
    assert_eq!(error.status, 400);
    assert_eq!(error.error_type, "sql_validation_error");
    assert_eq!(detail(&error, "operation"), json(r#""INSERT""#));
    assert_eq!(detail(&error, "table"), json(r#""products""#));
}

#[test]
fn select_from_auth_schema_rejected() {
    let error = rejected(SqlRejection::SchemaNotAllowed {
        schema: "auth".to_string(),
        table: "auth.sessions".to_string(),
    });
    assert_eq!(error.status, 400);
    assert_eq!(error.error_type, "sql_validation_error");
    assert_eq!(detail(&error, "schema"), json(r#""auth""#));
    assert_eq!(detail(&error, "table"), json(r#""auth.sessions""#));
}

#[test]
fn unparseable_sql_rejected() {
    for rejection in [SqlRejection::ParseError, SqlRejection::StatementNotAllowed] {
        let error = rejected(rejection);
        assert_eq!(error.status, 400);
        assert_eq!(error.error_type, "sql_validation_error");
        assert!(error.details.is_none());
    }
}

#[test]
fn unknown_table_is_execution_error() {
    let failed = QueryEvent::Executed(Err("table no_such_table not found".to_string()));
    let error = refusal(run(None, false, vec![validated(), failed]));
    assert_eq!(error.status, 500);
    assert_eq!(error.error_type, "query_execution_error");
    assert!(error.details.is_none());
    assert!(!error.message.contains("no_such_table"));
}

#[test]
fn ai_context_is_accepted() {
    let value = json(
        r#"{"purpose": "weekly pricing dashboard", "session_id": "sess-1", "agent_id": "pricing-bot"}"#,
    );
    assert_eq!(validate_ai_context(Some(&value)), Ok(()));
    assert!(matches!(
        begin_query(asked(None, Some(value)), false).1,
        QueryAction::Validate { sql: "SELECT 1" }
    ));
}

#[test]
fn ai_context_omitted_is_accepted() {
    assert_eq!(validate_ai_context(None), Ok(()));
    assert!(matches!(
        begin_query(asked(None, None), false).1,
        QueryAction::Validate { sql: "SELECT 1" }
    ));
}

#[test]
fn ai_context_not_an_object_rejected() {
    for bad in [json(r#""just a string""#), json(r#"["a", "b"]"#), json("42")] {
        let error = context_rejected(bad);
        assert_eq!(error.status, 400);
        assert_eq!(error.error_type, "parameter_validation_error");
        assert_eq!(error.message, "ai_context must be a JSON object");
    }
}

#[test]
fn ai_context_missing_purpose_rejected() {
    let value = json(r#"{"session_id": "sess-1"}"#);
    assert_eq!(
        validate_ai_context(Some(&value)),
        Err("ai_context.purpose is required and must be a non-empty string".to_string())
    );
    let error = context_rejected(value);
    assert_eq!(error.status, 400);
    assert_eq!(error.error_type, "parameter_validation_error");
}

#[test]
fn ai_context_missing_session_id_rejected() {
    let value = json(r#"{"purpose": "audit"}"#);
    assert_eq!(
        validate_ai_context(Some(&value)),
        Err("ai_context.session_id is required and must be a non-empty string".to_string())
    );
    let error = context_rejected(value);
    assert_eq!(error.status, 400);
    assert_eq!(error.error_type, "parameter_validation_error");
}

#[test]
fn ai_context_empty_purpose_rejected() {
    assert_eq!(
        validate_ai_context(Some(&context("", "sess-1"))),
        Err("ai_context.purpose must not be empty".to_string())
    );
    let error = context_rejected(context("", "sess-1"));
    assert_eq!(error.status, 400);
    assert_eq!(error.error_type, "parameter_validation_error");
}

#[test]
fn over_long_purpose_rejected() {
    assert_eq!(
        validate_ai_context(Some(&context(&"x".repeat(2001), "sess-1"))),
        Err("ai_context.purpose must be at most 2000 characters".to_string())
    );
    assert_eq!(validate_ai_context(Some(&context(&"x".repeat(2000), "sess-1"))), Ok(()));
    let error = context_rejected(context(&"x".repeat(2001), "sess-1"));
    assert_eq!(error.status, 400);
    assert_eq!(error.error_type, "parameter_validation_error");
}

#[test]
fn over_long_session_id_rejected() {
    assert_eq!(
        validate_ai_context(Some(&context("audit", &"x".repeat(201)))),
        Err("ai_context.session_id must be at most 200 characters".to_string())
    );
    assert_eq!(validate_ai_context(Some(&context("audit", &"\u{e9}".repeat(200)))), Ok(()));
    let error = context_rejected(context("audit", &"x".repeat(201)));
    assert_eq!(error.status, 400);
    assert_eq!(error.error_type, "parameter_validation_error");
}

#[test]
fn over_size_ai_context_rejected() {
    let mut value = context("audit", "sess-1");
    match &mut value {
        Json::Object(members) => {
            members.push(("blob".to_string(), Json::String("x".repeat(5000))));
        }
        _ => unreachable!(),
    }
    assert_eq!(
        validate_ai_context(Some(&value)),
        Err("ai_context must serialize to at most 4096 bytes".to_string())
    );
    let error = context_rejected(value);
    assert_eq!(error.status, 400);
    assert_eq!(error.error_type, "parameter_validation_error");
}

#[test]
fn explicit_null_ai_context_rejected() {
    let error = context_rejected(Json::Null);
    assert_eq!(error.status, 400);
    assert_eq!(error.error_type, "parameter_validation_error");
}

#[test]
fn the_size_is_checked_before_the_fields() {
    let no_fields = Vec::new();
    assert!(validate_context_fields(&no_fields, 4097).unwrap_err().contains("4096"));
    assert!(validate_context_fields(&no_fields, 4096).unwrap_err().contains("purpose"));
    assert_eq!(
        validate_context_string(Some(&json("7")), "purpose", 9),
        Err("ai_context.purpose is required and must be a non-empty string".to_string())
    );
    assert_eq!(validate_context_string(Some(&json(r#""abc""#)), "purpose", 3), Ok(()));
}

#[test]
fn audit_records_raw_sql_ai_context_and_success() {
    let sql = "SELECT id FROM products WHERE brand = 'Apple'";
    let request: &'static QueryRequest = Box::leak(Box::new(QueryRequest {
        sql: sql.to_string(),
        max_rows: None,
        ai_context: Some(context("brand audit", "sess-42")),
    }));
    match feed(request, true, vec![validated()]) {
        QueryAction::Record { sql: recorded, ai_context, max_rows, kind } => {
            assert_eq!(recorded, sql);
            assert_eq!(max_rows, DEFAULT_MAX_ROWS);
            assert_eq!(format!("{kind:?}"), "Query");
            assert_eq!(ai_context, Some(&context("brand audit", "sess-42")));
        }
        other => panic!("{other:?}"),
    }
    let recorded = || vec![validated(), QueryEvent::Recorded(true)];
    match feed(request, true, recorded()) {
        QueryAction::Execute { sql: executed, .. } => assert_eq!(executed, sql),
        other => panic!("{other:?}"),
    }
    let mut events = recorded();
    events.extend([QueryEvent::Executed(Ok(3)), QueryEvent::Converted(Ok(()))]);
    let (outcome, reply) = answer(feed(request, true, events));
    let outcome = outcome.unwrap();
    assert_eq!(outcome.status, QueryAuditStatus::Succeeded);
    assert_eq!(outcome.row_count, Some(3));
    assert_eq!(outcome.error, None);
    assert_eq!(reply.unwrap(), (3, false));
}

#[test]
fn audit_records_execution_failure() {
    let events = vec![
        validated(),
        QueryEvent::Recorded(true),
        QueryEvent::Executed(Err("no such table".to_string())),
    ];
    let (outcome, reply) = answer(run(None, true, events));
    let outcome = outcome.unwrap();
    assert_eq!(outcome.status, QueryAuditStatus::Failed);
    assert_eq!(outcome.error, Some("no such table".to_string()));
    assert_eq!(outcome.row_count, None);
    assert_eq!(reply.unwrap_err().status, 500);
}

#[test]
fn rows_that_cannot_be_converted_are_a_failure() {
    let events = vec![
        validated(),
        QueryEvent::Recorded(true),
        QueryEvent::Executed(Ok(4)),
        QueryEvent::Converted(Err("bad cell".to_string())),
    ];
    let (outcome, reply) = answer(run(Some(3), true, events));
    let outcome = outcome.unwrap();
    assert_eq!(outcome.status, QueryAuditStatus::Failed);
    assert_eq!(outcome.row_count, Some(3));
    assert_eq!(outcome.error, Some("result conversion failed: bad cell".to_string()));
    let error = reply.unwrap_err();
    assert_eq!(error.error_type, "result_conversion_error");
    assert!(!error.message.contains("bad cell"));
}

#[test]
fn rejected_statements_are_not_audited() {
    let rejection = SqlRejection::DdlNotAllowed { operation: "DROP".to_string() };
    let event = QueryEvent::Validated(Err(("no".to_string(), rejection)));
    let (outcome, reply) = answer(run(None, true, vec![event]));
    assert!(outcome.is_none());
    assert_eq!(reply.unwrap_err().status, 400);
}

#[test]
fn query_is_refused_when_the_audit_write_fails() {
    let error = refusal(run(None, true, vec![validated(), QueryEvent::Recorded(false)]));
    assert_eq!(error.status, 503);
    assert_eq!(error.error_type, "query_audit_error");
}

#[test]
fn nothing_recorded_when_audit_not_configured() {
    assert!(matches!(run(None, false, vec![validated()]), QueryAction::Execute { .. }));
}

#[test]
fn answered_requests_take_no_event() {
    assert!(step_query(QueryState::Answered, validated()).is_none());
    let (state, _) = begin_query(asked(None, None), false);
    assert!(step_query(state, QueryEvent::Recorded(true)).is_none());
}
