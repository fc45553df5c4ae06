use skardi::decimal::Decimal;
use skardi::json::{Json, Number};
use skardi::json_text::to_text;
use skardi::open_connector::error::OpenConnectorError;
use skardi::open_connector::json_to_arrow::{FieldMapping, FieldType};
use skardi::open_connector::pagination::PaginationStrategy;
use skardi::open_connector::source_pack::{
    Fidelity, FilterMapping, FilterOperator, SourcePackTable, ValueFormat,
};
use skardi::open_connector::table::{keep_declared, OpenConnectorTableProvider};

fn from_value(value: &serde_json::Value) -> Json {
    match value {
        serde_json::Value::Null => Json::Null,
        serde_json::Value::Bool(b) => Json::Bool(*b),
        serde_json::Value::Number(n) => Json::Number(match (n.as_u64(), n.as_i64()) {
            (Some(n), _) => Number::PosInt(n),
            (None, Some(n)) => Number::NegInt(n),
            (None, None) => Number::Double(Decimal::read(&n.to_string()).unwrap()),
        }),
        serde_json::Value::String(s) => Json::String(s.clone()),
        serde_json::Value::Array(items) => Json::Array(items.iter().map(from_value).collect()),
        serde_json::Value::Object(members) => Json::Object(
            members
                .iter()
                .map(|(key, value)| (key.clone(), from_value(value)))
                .collect(),
        ),
    }
}

/// A value from its JSON text.
fn json(text: &str) -> Json {
    from_value(&serde_json::from_str(text).unwrap())
}

fn table_with_pagination(pagination: PaginationStrategy) -> &'static SourcePackTable {
    // Leak a tiny test table; tests are few and the value is static-sized.
    Box::leak(Box::new(SourcePackTable {
        id: "test.t",
        action_id: "test.action",
        row_path: "$.items",
        fields: &[FieldMapping {
            name: "id",
            path: "id",
            field_type: FieldType::UInt64,
            nullable: false,
        }],
        pagination,
        required_resources: &[],
        optional_resources: &[],
        fixed_inputs: &[],
        filters: &[FilterMapping {
            column: "id",
            operator: FilterOperator::Gt,
            input_field: "min_id",
            fidelity: Fidelity::Exact,
            value_format: ValueFormat::Rfc3339,
        }],
        error_path: None,
        expected_fingerprint: None,
    }))
}

#[test]
fn malformed_pagination_path_fails_at_bind_time() {
    // A pack bug must surface here — alongside the row path — not
    // mid-scan on page two.
    let table = table_with_pagination(PaginationStrategy::Cursor {
        cursor_param: "cursor",
        next_cursor_path: "not-a-path",
        page_size_param: None,
        page_size: 50,
        has_more_path: None,
    });
    let err = OpenConnectorTableProvider::new(
        "saas".to_string(),
        None,
        None,
        table,
        1,
        &json("{}"),
        10,
        1000,
        30,
    )
    .err()
    .unwrap();
    assert!(matches!(
        err,
        OpenConnectorError::InvalidRowPath { .. }
    ));
}

#[test]
fn valid_cursor_pagination_binds() {
    let table = table_with_pagination(PaginationStrategy::Cursor {
        cursor_param: "cursor",
        next_cursor_path: "$.next_cursor",
        page_size_param: None,
        page_size: 50,
        has_more_path: None,
    });
    OpenConnectorTableProvider::new(
        "saas".to_string(),
        None,
        None,
        table,
        1,
        &json("{}"),
        10,
        1000,
        30,
    )
    .ok()
    .expect("valid cursor pagination binds");
}

fn single_page(
    row_path: &'static str,
    column_path: &'static str,
    error_path: Option<&'static str>,
) -> &'static SourcePackTable {
    Box::leak(Box::new(SourcePackTable {
        id: "test.t",
        action_id: "test.action",
        row_path,
        fields: Box::leak(Box::new([FieldMapping {
            name: "id",
            path: column_path,
            field_type: FieldType::UInt64,
            nullable: false,
        }])),
        pagination: PaginationStrategy::SinglePage,
        required_resources: &["owner"],
        optional_resources: &["repo"],
        fixed_inputs: &[],
        filters: &[],
        error_path,
        expected_fingerprint: None,
    }))
}

fn bind(table: &'static SourcePackTable, resource: &Json) -> Option<OpenConnectorTableProvider> {
    OpenConnectorTableProvider::new(
        "saas".to_string(),
        Some("github".to_string()),
        None,
        table,
        1,
        resource,
        10,
        1000,
        30,
    )
    .ok()
}

#[test]
fn every_path_of_a_table_is_checked() {
    assert!(bind(single_page("$.items", "id", Some("$.error")), &Json::Null).is_some());
    assert!(bind(single_page("items", "id", None), &Json::Null).is_none());
    assert!(bind(single_page("$.items", "$.id", None), &Json::Null).is_none());
    assert!(bind(single_page("$.items", "id", Some("error")), &Json::Null).is_none());
}

#[test]
fn undeclared_resource_inputs_are_withheld() {
    let table = single_page("$.items", "id", None);
    let resource = json(r#"{"owner": "o", "issueNumber": 7, "repo": {"x": null}}"#);
    assert_eq!(
        to_text(&keep_declared(table, &resource)),
        r#"{"owner":"o","repo":{"x":null}}"#
    );
    assert_eq!(to_text(&keep_declared(table, &json("[1]"))), "[1]");
    let bound = bind(table, &resource).unwrap();
    assert_eq!(to_text(bound.resource()), r#"{"owner":"o","repo":{"x":null}}"#);
    assert_eq!(bound.table().id, "test.t");
    assert_eq!(bound.row_path().as_str(), "$.items");
    assert_eq!(bound.limits(), (10, 1000));
    assert_eq!(bound.converter().schema().fields().len(), 1);
}
