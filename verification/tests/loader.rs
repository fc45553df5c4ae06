use skardi::decimal::Decimal;
use skardi::json::{Json, Number};
use skardi::json_text::to_text;
use skardi::open_connector::error::OpenConnectorError;
use skardi::open_connector::json_to_arrow::FieldType;
use skardi::open_connector::packs::loader::{
    parse_pack, yaml_to_json, ColumnDoc, ColumnType, FilterDoc, FixedValueDoc, FloatDoc, PackDoc,
    PaginationDoc, ResourcesDoc, TableDoc, Yaml, YamlNumber,
};
use skardi::open_connector::packs::{feishu, notion};
use skardi::open_connector::pagination::PaginationStrategy;
use skardi::open_connector::source_pack::{Fidelity, FilterOperator, SourcePack, ValueFormat};
use serde_yaml::Value;

fn from_value(value: &serde_json::Value) -> Json {
    match value {
        serde_json::Value::Null => Json::Null,
        serde_json::Value::Bool(b) => Json::Bool(*b),
        serde_json::Value::Number(n) => Json::Number(match (n.as_u64(), n.as_i64()) {
            (Some(n), _) => Number::PosInt(n),
            (None, Some(n)) => Number::NegInt(n),
            (None, None) => Number::Double(Decimal::read(&n.to_string()).unwrap()),
        }),
        serde_json::Value::String(s) => Json::String(s.clone()),
        serde_json::Value::Array(items) => Json::Array(items.iter().map(from_value).collect()),
        serde_json::Value::Object(members) => Json::Object(
            members
                .iter()
                .map(|(key, value)| (key.clone(), from_value(value)))
                .collect(),
        ),
    }
}

/// A value from its JSON text.
fn json(text: &str) -> Json {
    from_value(&serde_json::from_str(text).unwrap())
}

// Reading a pack document from YAML text.

fn text(value: &Value) -> String {
    value.as_str().unwrap().to_string()
}

fn optional(value: Option<&Value>) -> Option<String> {
    value.map(text)
}

fn texts(value: Option<&Value>) -> Vec<String> {
    value
        .map(|items| items.as_sequence().unwrap().iter().map(text).collect())
        .unwrap_or_default()
}

fn float(x: f64) -> FloatDoc {
    if x.is_finite() {
        FloatDoc::Finite(Decimal::read(&format!("{x:?}")).unwrap())
    } else {
        FloatDoc::NonFinite(format!("{x}"))
    }
}

fn yaml(value: &Value) -> Yaml {
    match value {
        Value::Null => Yaml::Null,
        Value::Bool(b) => Yaml::Bool(*b),
        Value::Number(n) => Yaml::Number(match (n.as_i64(), n.as_u64()) {
            (Some(n), _) => YamlNumber::Int(n),
            (None, Some(n)) => YamlNumber::UInt(n),
            (None, None) => YamlNumber::Float(float(n.as_f64().unwrap())),
        }),
        Value::String(s) => Yaml::String(s.clone()),
        Value::Sequence(items) => Yaml::Sequence(items.iter().map(yaml).collect()),
        Value::Mapping(members) => Yaml::Mapping(
            members.iter().map(|(key, value)| (yaml(key), yaml(value))).collect(),
        ),
        Value::Tagged(_) => Yaml::Tagged,
    }
}

fn fixed(value: &Value) -> FixedValueDoc {
    match value {
        Value::Bool(b) => FixedValueDoc::Bool(*b),
        Value::Number(n) if n.as_i64().is_some() => FixedValueDoc::Int(n.as_i64().unwrap()),
        Value::Number(n) if n.as_f64().is_some() => FixedValueDoc::Float(float(n.as_f64().unwrap())),
        Value::String(s) => FixedValueDoc::Str(s.clone()),
        Value::Sequence(items) if items.iter().all(Value::is_string) => {
            FixedValueDoc::StrList(items.iter().map(text).collect())
        }
        other => FixedValueDoc::Json(yaml(other)),
    }
}

fn column_type(name: &str) -> ColumnType {
    match name {
        "uint64" => ColumnType::Uint64,
        "utf8" => ColumnType::Utf8,
        "timestamp_ms_utc" => ColumnType::TimestampMsUtc,
        "utf8_list_from_object_key" => ColumnType::Utf8ListFromObjectKey,
        other => panic!("{other}"),
    }
}

fn column(doc: &Value) -> ColumnDoc {
    ColumnDoc {
        name: text(&doc["name"]),
        path: text(&doc["path"]),
        column_type: column_type(doc["type"].as_str().unwrap()),
        key: optional(doc.get("key")),
        nullable: doc["nullable"].as_bool().unwrap(),
    }
}

fn filter(doc: &Value) -> FilterDoc {
    FilterDoc {
        column: text(&doc["column"]),
        op: match doc["op"].as_str().unwrap() {
            "eq" => FilterOperator::Eq,
            "gt" => FilterOperator::Gt,
            "gt_eq" => FilterOperator::GtEq,
            other => panic!("{other}"),
        },
        input: text(&doc["input"]),
        fidelity: match doc["fidelity"].as_str().unwrap() {
            "exact" => Fidelity::Exact,
            "inexact" => Fidelity::Inexact,
            other => panic!("{other}"),
        },
        format: match doc.get("format").map(|format| format.as_str().unwrap()) {
            None | Some("verbatim") => ValueFormat::Verbatim,
            Some("rfc3339") => ValueFormat::Rfc3339,
            Some("epoch_seconds") => ValueFormat::EpochSeconds,
            Some("epoch_seconds_string") => ValueFormat::EpochSecondsString,
            Some(other) => panic!("{other}"),
        },
    }
}

fn pagination(doc: &Value) -> PaginationDoc {
    let page_size = doc["page_size"].as_u64().unwrap() as u32;
    match doc["strategy"].as_str().unwrap() {
        "page_number" => PaginationDoc::PageNumber {
            page_input: text(&doc["page_input"]),
            page_size_input: text(&doc["page_size_input"]),
            page_size,
            total_pages_path: optional(doc.get("total_pages_path")),
            raw_page_size_path: optional(doc.get("raw_page_size_path")),
        },
        "cursor" => PaginationDoc::Cursor {
            cursor_input: text(&doc["cursor_input"]),
            next_cursor_path: text(&doc["next_cursor_path"]),
            page_size_input: optional(doc.get("page_size_input")),
            page_size,
            has_more_path: optional(doc.get("has_more_path")),
        },
        other => panic!("{other}"),
    }
}

fn table(doc: &Value) -> TableDoc {
    let resources = doc.get("resources");
    TableDoc {
        action: text(&doc["action"]),
        row_path: text(&doc["row_path"]),
        fingerprint: optional(doc.get("fingerprint")),
        pagination: pagination(&doc["pagination"]),
        resources: ResourcesDoc {
            required: texts(resources.and_then(|doc| doc.get("required"))),
            optional: texts(resources.and_then(|doc| doc.get("optional"))),
        },
        fixed_inputs: doc
            .get("fixed_inputs")
            .map(|inputs| {
                let inputs = inputs.as_mapping().unwrap();
                inputs.iter().map(|(key, value)| (text(key), fixed(value))).collect()
            })
            .unwrap_or_default(),
        error_path: optional(doc.get("error_path")),
        columns: doc["columns"].as_sequence().unwrap().iter().map(column).collect(),
        filters: doc
            .get("filters")
            .map(|filters| filters.as_sequence().unwrap().iter().map(filter).collect())
            .unwrap_or_default(),
    }
}

fn document(yaml: &str) -> PackDoc {
    let doc: Value = serde_yaml::from_str(yaml).unwrap();
    assert_eq!(doc["kind"].as_str(), Some("pack"));
    PackDoc {
        pack: text(&doc["pack"]),
        version: doc["version"].as_u64().unwrap() as u32,
        tables: doc["tables"]
            .as_mapping()
            .unwrap()
            .iter()
            .map(|(name, doc)| (text(name), table(doc)))
            .collect(),
    }
}

fn load(yaml: &str) -> Result<SourcePack, String> {
    parse_pack(&document(yaml))
}

/// The pass side of the nested-value conversion: a finite nested float
/// (and the rest of the JSON scalar set) survives the YAML→JSON
/// conversion faithfully — proving the strict rejection above is a
/// guard, not a ban on nesting.
#[test]
fn nested_finite_values_in_a_json_pin_convert_faithfully() {
    let pack = load(
        r#"kind: pack
pack: demo
version: 1
tables:
  things:
    action: demo.list
    row_path: "$.items"
    pagination: { strategy: page_number, page_input: page, page_size_input: perPage, page_size: 10 }
    fixed_inputs:
      filter:
        threshold: 1.5
        flags: [true, 2, "three"]
        inner: { level: null }
    columns:
      - { name: id, path: id, type: uint64, nullable: false }
"#,
    )
    .expect("nested finite values are legal");
    let (key, value) = &pack.tables[0].fixed_inputs[0];
    assert_eq!(*key, "filter");
    assert_eq!(
        to_text(&value.to_json()),
        to_text(&json(
            r#"{
            "threshold": 1.5,
            "flags": [true, 2, "three"],
            "inner": { "level": null }
        }"#
        ))
    );
}

#[test]
fn key_field_is_bound_to_the_plucking_type() {
    let base = |columns: &str| {
        format!(
            r#"
kind: pack
pack: demo
version: 1
tables:
  items:
    action: demo.list
    row_path: "$.items"
    pagination: {{ strategy: page_number, page_input: page, page_size_input: perPage, page_size: 10 }}
    columns:
{columns}
"#
        )
    };
    let err = load(&base(
        "      - { name: labels, path: labels, type: utf8_list_from_object_key, nullable: true }",
    ))
    .unwrap_err();
    assert!(err.contains("needs `key`"), "{err}");

    let err = load(&base(
        "      - { name: id, path: id, type: uint64, key: name, nullable: false }",
    ))
    .unwrap_err();
    assert!(err.contains("only"), "{err}");
}

#[test]
fn epoch_formats_are_lower_bound_inexact_only() {
    // Flooring widens LOWER bounds only; any other operator (or an
    // Exact claim over the widened fetch) drops or surfaces wrong
    // rows silently — so both are load failures, not runtime hazards.
    let base = |filter: &str| {
        format!(
            r#"
kind: pack
pack: demo
version: 1
tables:
  items:
    action: demo.list
    row_path: "$.items"
    pagination: {{ strategy: page_number, page_input: page, page_size_input: perPage, page_size: 10 }}
    columns:
      - {{ name: created, path: created, type: timestamp_ms_utc, nullable: true }}
    filters:
{filter}
"#
        )
    };
    let err = load(&base(
        "      - { column: created, op: eq, input: at, fidelity: inexact, format: epoch_seconds }",
    ))
    .unwrap_err();
    assert!(
        err.contains("only") && err.contains("lower bounds"),
        "{err}"
    );

    // (The YAML op enum admits only eq/gt/gt_eq today, so eq is the one
    // declarable non-lower-bound operator; the validation still guards
    // any future upper-bound additions.)
    let err = load(&base(
        "      - { column: created, op: gt_eq, input: since, fidelity: exact, format: epoch_seconds }",
    ))
    .unwrap_err();
    assert!(err.contains("inexact"), "{err}");

    // The sound shape — Feishu's startTime — still loads.
    load(&base(
        "      - { column: created, op: gt_eq, input: since, fidelity: inexact, format: epoch_seconds_string }",
    ))
    .expect("lower-bound inexact epoch mapping is legal");
}

#[test]
fn dotted_table_keys_are_rejected() {
    let err = load(
        r#"
kind: pack
pack: demo
version: 1
tables:
  demo.items:
    action: demo.list
    row_path: "$.items"
    pagination: { strategy: page_number, page_input: page, page_size_input: perPage, page_size: 10 }
    columns:
      - { name: id, path: id, type: uint64, nullable: false }
"#,
    )
    .unwrap_err();
    assert!(err.contains("bare name"), "{err}");
}

/// One minimal valid table, with a substitution point per invariant.
fn pack_with(table_body: &str) -> Result<SourcePack, String> {
    load(&format!(
        r#"
kind: pack
pack: demo
version: 1
tables:
  items:
{table_body}
"#
    ))
}

#[test]
fn semantic_invariants_are_rejected_with_targeted_errors() {
    // (yaml, expected fragment) — each row violates exactly one
    // cross-field invariant the engine assumes but never re-checks.
    for (body, expected) in [
        (
            r#"    action: demo.list
    row_path: "$.items"
    pagination: { strategy: page_number, page_input: page, page_size_input: perPage, page_size: 10 }
    columns:
      - { name: id, path: id, type: uint64, nullable: false }
      - { name: id, path: other, type: utf8, nullable: true }"#,
            "duplicate column 'id'",
        ),
        (
            r#"    action: demo.list
    row_path: "$.items"
    pagination: { strategy: page_number, page_input: page, page_size_input: perPage, page_size: 10 }
    columns:
      - { name: id, path: id, type: uint64, nullable: false }
    filters:
      - { column: missing, op: eq, input: q, fidelity: inexact }"#,
            "undeclared column 'missing'",
        ),
        (
            r#"    action: demo.list
    row_path: "$.items"
    pagination: { strategy: page_number, page_input: page, page_size_input: perPage, page_size: 10 }
    columns:
      - { name: id, path: id, type: uint64, nullable: false }
    filters:
      - { column: id, op: eq, input: a, fidelity: inexact }
      - { column: id, op: eq, input: b, fidelity: inexact }"#,
            "duplicate filter mapping",
        ),
        (
            r#"    action: demo.list
    row_path: "$.items"
    pagination: { strategy: page_number, page_input: page, page_size_input: perPage, page_size: 10 }
    resources: { required: [owner], optional: [owner] }
    columns:
      - { name: id, path: id, type: uint64, nullable: false }"#,
            "both required and optional",
        ),
        (
            r#"    action: demo.list
    row_path: "$.items"
    pagination: { strategy: page_number, page_input: page, page_size_input: perPage, page_size: 10 }
    resources: { required: [owner] }
    fixed_inputs:
      owner: acme
    columns:
      - { name: id, path: id, type: uint64, nullable: false }"#,
            "collides with a declared resource",
        ),
        (
            r#"    action: demo.list
    row_path: "$.items"
    pagination: { strategy: page_number, page_input: page, page_size_input: perPage, page_size: 10 }
    fixed_inputs:
      page: 1
    columns:
      - { name: id, path: id, type: uint64, nullable: false }"#,
            "collides with a pagination input",
        ),
        (
            r#"    action: demo.list
    row_path: "$.items"
    pagination: { strategy: page_number, page_input: page, page_size_input: perPage, page_size: 10 }
    columns:
      - { name: id, path: id, type: uint64, nullable: false }
    filters:
      - { column: id, op: eq, input: perPage, fidelity: exact }"#,
            "collides with a pagination input",
        ),
        (
            r#"    action: demo.list
    row_path: "$.items"
    pagination: { strategy: page_number, page_input: page, page_size_input: perPage, page_size: 10 }
    resources: { required: [owner] }
    columns:
      - { name: id, path: id, type: uint64, nullable: false }
    filters:
      - { column: id, op: eq, input: owner, fidelity: exact }"#,
            "collides with a declared resource",
        ),
        (
            r#"    action: demo.list
    row_path: "$.items"
    pagination: { strategy: page_number, page_input: page, page_size_input: perPage, page_size: 10 }
    columns:
      - { name: id, path: id, type: uint64, nullable: false }
      - { name: score, path: score, type: uint64, nullable: true }
    filters:
      - { column: id, op: eq, input: q, fidelity: inexact }
      - { column: score, op: eq, input: q, fidelity: inexact }"#,
            "two filter mappings target input 'q'",
        ),
        (
            r#"    action: demo.list
    row_path: "$.items"
    pagination: { strategy: page_number, page_input: page, page_size_input: perPage, page_size: 10 }
    fixed_inputs:
      threshold: .nan
    columns:
      - { name: id, path: id, type: uint64, nullable: false }"#,
            "no JSON spelling",
        ),
        (
            r#"    action: demo.list
    row_path: "$.items"
    pagination: { strategy: page_number, page_input: page, page_size_input: perPage, page_size: 10 }
    fixed_inputs:
      threshold: .inf
    columns:
      - { name: id, path: id, type: uint64, nullable: false }"#,
            "no JSON spelling",
        ),
        (
            r#"    action: demo.list
    row_path: "$.items"
    pagination: { strategy: page_number, page_input: page, page_size_input: perPage, page_size: 10 }
    fixed_inputs:
      threshold: -.inf
    columns:
      - { name: id, path: id, type: uint64, nullable: false }"#,
            "no JSON spelling",
        ),
        // NESTED non-finites, through the untagged Json variant. These
        // are the regression for the dead first_non_finite guard: a
        // `serde_json::Value` capture had already converted the nested
        // `.nan` to null before any check could run (serde_json's f64
        // visitor maps non-finite to Value::Null), so the pin silently
        // became `{"threshold": null}`. The YAML capture keeps the
        // non-finite observable and the conversion rejects it.
        (
            r#"    action: demo.list
    row_path: "$.items"
    pagination: { strategy: page_number, page_input: page, page_size_input: perPage, page_size: 10 }
    fixed_inputs:
      filter:
        threshold: .nan
    columns:
      - { name: id, path: id, type: uint64, nullable: false }"#,
            "no JSON spelling",
        ),
        (
            r#"    action: demo.list
    row_path: "$.items"
    pagination: { strategy: page_number, page_input: page, page_size_input: perPage, page_size: 10 }
    fixed_inputs:
      filter:
        bounds: [1.5, .inf]
    columns:
      - { name: id, path: id, type: uint64, nullable: false }"#,
            "no JSON spelling",
        ),
        // The other two YAML shapes JSON cannot spell, same variant.
        (
            r#"    action: demo.list
    row_path: "$.items"
    pagination: { strategy: page_number, page_input: page, page_size_input: perPage, page_size: 10 }
    fixed_inputs:
      filter:
        1: numeric-key
    columns:
      - { name: id, path: id, type: uint64, nullable: false }"#,
            "non-string mapping key",
        ),
        (
            r#"    action: demo.list
    row_path: "$.items"
    pagination: { strategy: page_number, page_input: page, page_size_input: page, page_size: 10 }
    columns:
      - { name: id, path: id, type: uint64, nullable: false }"#,
            "both the page and page-size input",
        ),
        (
            r#"    action: demo.list
    row_path: "$.items"
    pagination: { strategy: page_number, page_input: page, page_size_input: perPage, page_size: 0 }
    columns:
      - { name: id, path: id, type: uint64, nullable: false }"#,
            "page size must be positive",
        ),
        (
            r#"    action: demo.list
    row_path: "$.items"
    pagination: { strategy: cursor, cursor_input: cursor, next_cursor_path: "$.next", page_size_input: cursor, page_size: 10 }
    columns:
      - { name: id, path: id, type: uint64, nullable: false }"#,
            "both the cursor and page-size input",
        ),
        (
            r#"    action: demo.list
    row_path: "items"
    pagination: { strategy: page_number, page_input: page, page_size_input: perPage, page_size: 10 }
    columns:
      - { name: id, path: id, type: uint64, nullable: false }"#,
            "must start with '$.'",
        ),
    ] {
        let err = pack_with(body).expect_err(expected);
        assert!(err.contains(expected), "want {expected:?} in: {err}");
    }
}

const VALID: &str = r#"
kind: pack
pack: demo
version: 3
tables:
  items:
    action: demo.list
    row_path: "$.items"
    fingerprint: abc
    pagination: { strategy: cursor, cursor_input: cursor, next_cursor_path: "$.next", page_size: 10 }
    resources: { required: [owner], optional: [repo] }
    fixed_inputs:
      state: all
      tags: [a, b]
      depth: -2
      deep: true
    error_path: "$.error"
    columns:
      - { name: labels, path: labels, type: utf8_list_from_object_key, key: name, nullable: true }
      - { name: id, path: user.id, type: uint64, nullable: false }
    filters:
      - { column: id, op: gt, input: after, fidelity: exact, format: rfc3339 }
"#;

#[test]
fn a_pack_says_what_its_document_says() {
    let pack = load(VALID).unwrap();
    assert_eq!((pack.name, pack.version, pack.tables.len()), ("demo", 3, 1));
    let table = &pack.tables[0];
    assert_eq!((table.id, table.action_id, table.row_path), ("demo.items", "demo.list", "$.items"));
    assert_eq!(table.expected_fingerprint, Some("abc"));
    assert_eq!(table.error_path, Some("$.error"));
    assert!(table.declares_resource("owner") && table.declares_resource("repo"));
    assert!(!table.declares_resource("cursor"));
    assert!(matches!(
        table.pagination,
        PaginationStrategy::Cursor {
            cursor_param: "cursor",
            next_cursor_path: "$.next",
            page_size_param: None,
            page_size: 10,
            has_more_path: None,
        }
    ));
    let fixed: Vec<(&str, String)> =
        table.fixed_inputs.iter().map(|(key, value)| (*key, to_text(&value.to_json()))).collect();
    assert_eq!(
        fixed,
        vec![
            ("deep", "true".to_string()),
            ("depth", "-2".to_string()),
            ("state", r#""all""#.to_string()),
            ("tags", r#"["a","b"]"#.to_string()),
        ]
    );
    assert!(matches!(table.fields[0].field_type, FieldType::Utf8ListFromObjectKey("name")));
    assert_eq!((table.fields[1].name, table.fields[1].path), ("id", "user.id"));
    let filter = &table.filters[0];
    assert_eq!((filter.column, filter.input_field), ("id", "after"));
    assert_eq!(filter.operator, FilterOperator::Gt);
    assert_eq!(filter.fidelity, Fidelity::Exact);
    assert_eq!(filter.value_format, ValueFormat::Rfc3339);
}

#[test]
fn a_pack_without_tables_is_refused() {
    let doc = PackDoc { pack: "demo".to_string(), version: 1, tables: vec![] };
    assert_eq!(parse_pack(&doc).unwrap_err(), "a pack must declare at least one table");
}

#[test]
fn tagged_values_have_no_json() {
    assert!(yaml_to_json(&Yaml::Tagged).is_err());
    let nested = Yaml::Mapping(vec![(Yaml::String("k".to_string()), Yaml::Tagged)]);
    assert!(yaml_to_json(&nested).is_err());
}

#[test]
fn yaml_numbers_keep_their_value() {
    let number = |value: &str| to_text(&yaml_to_json(&yaml(&serde_yaml::from_str(value).unwrap())).unwrap());
    assert_eq!(number("18446744073709551615"), "18446744073709551615");
    assert_eq!(number("-7"), "-7");
    assert_eq!(number("0.5"), "0.5");
    assert_eq!(number("{b: 1, a: null, b2: [x]}"), r#"{"a":null,"b":1,"b2":["x"]}"#);
}

#[test]
fn a_builtin_pack_is_what_its_asset_parsed_to() {
    let parsed: &'static Result<SourcePack, String> = Box::leak(Box::new(load(VALID)));
    assert_eq!(notion::pack(parsed).ok().unwrap().version, 3);
    assert_eq!(feishu::pack(parsed).ok().unwrap().name, "demo");
    let broken: &'static Result<SourcePack, String> =
        Box::leak(Box::new(Err("no tables".to_string())));
    for (asset, result) in [("notion.yaml", notion::pack(broken)), ("feishu.yaml", feishu::pack(broken))] {
        match result {
            Err(OpenConnectorError::SourcePackAssetInvalid { asset: a, reason }) => {
                assert_eq!((a.as_str(), reason.as_str()), (asset, "no tables"));
            }
            _ => panic!("{asset}"),
        }
    }
}

#[test]
fn a_resource_may_not_be_an_input_of_pagination() {
    let problem = load(
        "{kind: pack, pack: demo, version: 1, tables: {items: {action: demo.list, row_path: '$.items', pagination: {strategy: page_number, page_input: page, page_size_input: perPage, page_size: 10}, resources: {required: [page]}, columns: [{name: id, path: id, type: uint64, nullable: false}]}}}",
    )
    .unwrap_err();
    assert_eq!(
        problem,
        "demo.items: resource 'page' collides with a pagination input, which is applied last and would overwrite it"
    );
}

fn small_table(name: &str) -> (String, TableDoc) {
    let doc: Value = serde_yaml::from_str(
        "{action: demo.list, row_path: '$.items', pagination: {strategy: page_number, page_input: page, page_size_input: perPage, page_size: 10}, columns: [{name: id, path: id, type: uint64, nullable: false}]}",
    )
    .unwrap();
    (name.to_string(), table(&doc))
}

#[test]
fn tables_stand_in_the_order_of_their_keys() {
    let doc = PackDoc {
        pack: "demo".to_string(),
        version: 1,
        tables: vec![small_table("b"), small_table("c"), small_table("a")],
    };
    let pack = parse_pack(&doc).unwrap();
    let ids: Vec<&str> = pack.tables.iter().map(|t| t.id).collect();
    assert_eq!(ids, ["demo.a", "demo.b", "demo.c"]);
    let doc = PackDoc {
        pack: "demo".to_string(),
        version: 1,
        tables: vec![small_table("b"), small_table("a"), small_table("b")],
    };
    assert_eq!(parse_pack(&doc).unwrap_err(), "table key 'b' is declared twice");
}

#[test]
fn fixed_inputs_stand_in_the_order_of_their_keys() {
    let (name, mut doc) = small_table("t");
    doc.fixed_inputs = vec![
        ("z".to_string(), FixedValueDoc::Bool(true)),
        ("a".to_string(), FixedValueDoc::Int(1)),
    ];
    let mut pack =
        PackDoc { pack: "demo".to_string(), version: 1, tables: vec![(name, doc)] };
    let loaded = parse_pack(&pack).unwrap();
    let keys: Vec<&str> = loaded.tables[0].fixed_inputs.iter().map(|input| input.0).collect();
    assert_eq!(keys, ["a", "z"]);
    pack.tables[0].1.fixed_inputs.push(("a".to_string(), FixedValueDoc::Int(2)));
    assert_eq!(parse_pack(&pack).unwrap_err(), "demo.t: fixed input 'a' is declared twice");
}
