use skardi::decimal::Decimal;
use skardi::json::{get_member, Json, Number};
use skardi::server::query_audit::{
    ledger_count, new_id, outcome_record, session_id, started_record, AuditRow, QueryAuditStatus,
};

fn from_value(value: &serde_json::Value) -> Json {
    match value {
        serde_json::Value::Null => Json::Null,
        serde_json::Value::Bool(b) => Json::Bool(*b),
        serde_json::Value::Number(n) => Json::Number(match (n.as_u64(), n.as_i64()) {
            (Some(n), _) => Number::PosInt(n),
            (None, Some(n)) => Number::NegInt(n),
            (None, None) => Number::Double(Decimal::read(&n.to_string()).unwrap()),
        }),
        serde_json::Value::String(s) => Json::String(s.clone()),
        serde_json::Value::Array(items) => Json::Array(items.iter().map(from_value).collect()),
        serde_json::Value::Object(members) => Json::Object(
            members
                .iter()
                .map(|(key, value)| (key.clone(), from_value(value)))
                .collect(),
        ),
    }
}

/// A value from its JSON text.
fn json(text: &str) -> Json {
    from_value(&serde_json::from_str(text).unwrap())
}

#[test]
fn records_sql_ai_context_and_outcome() {
    let ctx = json(r#"{"purpose": "kyc", "session_id": "sess-1"}"#);
    let record = started_record(
        "id".to_string(),
        "now".to_string(),
        "SELECT * FROM t WHERE ssn = '123-45-6789'",
        Some(&ctx),
        100,
        "Query",
    );
    assert_eq!(record.sql, "SELECT * FROM t WHERE ssn = '123-45-6789'");
    assert_eq!(record.ai_context.as_deref(), Some(r#"{"purpose":"kyc","session_id":"sess-1"}"#));
    assert_eq!(record.session_id.as_deref(), Some("sess-1"));
    assert_eq!(record.max_rows, 100);
    assert_eq!(record.statement_kind, "Query");
    assert_eq!(record.status, "started");
    assert_eq!((record.id.as_str(), record.created_at.as_str()), ("id", "now"));

    let outcome =
        outcome_record("id", QueryAuditStatus::Succeeded, "later".to_string(), Some(3), None);
    assert_eq!(outcome.status, "succeeded");
    assert_eq!(outcome.row_count, Some(3));
    assert_eq!(outcome.finished_at, "later");
    assert_eq!(outcome.error, None);
}

#[test]
fn failed_outcome_carries_the_error() {
    let outcome =
        outcome_record("id", QueryAuditStatus::Failed, "later".to_string(), None, Some("boom"));
    assert_eq!(outcome.status, "failed");
    assert_eq!(outcome.error, Some("boom".to_string()));
    assert_eq!(outcome.row_count, None);
    assert_eq!(outcome.id, "id");
}

#[test]
fn sessions_are_read_from_objects_only() {
    assert_eq!(session_id(None), None);
    assert_eq!(session_id(Some(&json(r#"["session_id"]"#))), None);
    assert_eq!(session_id(Some(&json(r#"{"session_id": 7}"#))), None);
    assert_eq!(session_id(Some(&json(r#"{"session_id": "s"}"#))), Some("s".to_string()));
    let record = started_record(String::new(), String::new(), "", None, usize::MAX, "Other");
    assert_eq!(record.ai_context, None);
    assert_eq!(record.max_rows, -1);
}

#[test]
fn counts_wrap_as_the_column_does() {
    assert_eq!(ledger_count(0), 0);
    assert_eq!(ledger_count(i64::MAX as usize), i64::MAX);
    assert_eq!(ledger_count(i64::MAX as usize + 1), i64::MIN);
}

#[test]
fn statuses_have_their_names() {
    let names: Vec<&str> = [
        QueryAuditStatus::Started,
        QueryAuditStatus::Succeeded,
        QueryAuditStatus::Failed,
        QueryAuditStatus::Unknown,
    ]
    .iter()
    .map(QueryAuditStatus::as_str)
    .collect();
    assert_eq!(names, vec!["started", "succeeded", "failed", "unknown"]);
}

#[test]
fn ids_are_hexadecimal_times_and_counters() {
    assert_eq!(new_id(0, 0), "0-0");
    assert_eq!(new_id(0x18f0abc, 255), "18f0abc-ff");
    assert_eq!(new_id(u128::MAX, u64::MAX), format!("{:x}-{:x}", u128::MAX, u64::MAX));
    assert_ne!(new_id(1, 0x23), new_id(0x12, 3));
}

#[test]
fn rows_are_shown_as_documents() {
    let row = |ai_context, row_count| AuditRow {
        id: "i".to_string(),
        created_at: "c".to_string(),
        finished_at: None,
        sql: "SELECT 1".to_string(),
        ai_context,
        session_id: Some("s".to_string()),
        max_rows: -1,
        statement_kind: "Query".to_string(),
        status: "started".to_string(),
        row_count,
        error: None,
    };
    let text = skardi::json_text::to_text(&row(Some(json(r#"{"p": 1}"#)), Some(7)).into_json());
    assert_eq!(
        text,
        r#"{"ai_context":{"p":1},"created_at":"c","error":null,"finished_at":null,"id":"i","max_rows":-1,"row_count":7,"session_id":"s","sql":"SELECT 1","statement_kind":"Query","status":"started"}"#
    );
    match row(None, None).into_json() {
        Json::Object(members) => {
            assert_eq!(get_member(&members, "ai_context"), Some(&Json::Null));
            assert_eq!(get_member(&members, "row_count"), Some(&Json::Null));
        }
        other => panic!("{other:?}"),
    }
}
