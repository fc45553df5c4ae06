use arrow::array::{
    Array, BooleanArray, Float64Array, Int64Array, ListArray, RecordBatch, StringArray,
    StructArray, TimestampMillisecondArray, UInt64Array,
};
use arrow::datatypes::{DataType, TimeUnit};
use skardi::decimal::Decimal;
use skardi::json::{set_member, Json, Number};
use skardi::open_connector::arrow_batch::{Batch, ColumnKind};
use skardi::open_connector::error::OpenConnectorError;
use skardi::open_connector::json_to_arrow::{
    convert_cell, parse_epoch_digit_string, parse_timestamp, timestamp_of, Cell, ColumnSpec,
    FieldMapping, FieldType, RowConverter,
};

trait ToRecordBatch {
    fn record_batch(self) -> RecordBatch;
}

impl ToRecordBatch for Batch {
    fn record_batch(self) -> RecordBatch {
        RecordBatch::from(StructArray::from(self.into_data()))
    }
}

fn from_value(value: &serde_json::Value) -> Json {
    match value {
        serde_json::Value::Null => Json::Null,
        serde_json::Value::Bool(b) => Json::Bool(*b),
        serde_json::Value::Number(n) => Json::Number(match (n.as_u64(), n.as_i64()) {
            (Some(n), _) => Number::PosInt(n),
            (None, Some(n)) => Number::NegInt(n),
            (None, None) => Number::Double(Decimal::read(&n.to_string()).unwrap()),
        }),
        serde_json::Value::String(s) => Json::String(s.clone()),
        serde_json::Value::Array(items) => Json::Array(items.iter().map(from_value).collect()),
        serde_json::Value::Object(members) => Json::Object(
            members
                .iter()
                .map(|(key, value)| (key.clone(), from_value(value)))
                .collect(),
        ),
    }
}

/// A value from its JSON text.
fn json(text: &str) -> Json {
    from_value(&serde_json::from_str(text).unwrap())
}

fn set(value: &mut Json, key: &str, member: Json) {
    match value {
        Json::Object(members) => set_member(members, key.to_string(), member),
        other => panic!("{other:?}"),
    }
}

fn remove(value: &mut Json, key: &str) {
    match value {
        Json::Object(members) => members.retain(|member| member.0 != key),
        other => panic!("{other:?}"),
    }
}

const FIELDS: &[FieldMapping] = &[
    FieldMapping {
        name: "id",
        path: "id",
        field_type: FieldType::UInt64,
        nullable: false,
    },
    FieldMapping {
        name: "title",
        path: "title",
        field_type: FieldType::Utf8,
        nullable: false,
    },
    FieldMapping {
        name: "author_login",
        path: "user.login",
        field_type: FieldType::Utf8,
        nullable: true,
    },
    FieldMapping {
        name: "score",
        path: "score",
        field_type: FieldType::Float64,
        nullable: true,
    },
    FieldMapping {
        name: "labels",
        path: "labels",
        field_type: FieldType::Utf8List,
        nullable: true,
    },
    FieldMapping {
        name: "created_at",
        path: "created_at",
        field_type: FieldType::TimestampMillisUtc,
        nullable: true,
    },
    FieldMapping {
        name: "raw",
        path: "raw",
        field_type: FieldType::Json,
        nullable: true,
    },
];

fn converter() -> RowConverter {
    RowConverter::new(FIELDS).unwrap()
}

fn row(id: u64, title: &str) -> Json {
    let mut value = json(
        r#"{
        "user": {"login": "octocat"},
        "score": 9.5,
        "labels": ["bug", "p1"],
        "created_at": "2026-01-01T00:00:00Z",
        "raw": {"nested": [1, 2]},
        "extra_upstream_field": "ignored"
    }"#,
    );
    set(&mut value, "id", Json::Number(Number::PosInt(id)));
    set(&mut value, "title", Json::String(title.to_string()));
    value
}

#[test]
fn converts_full_rows_and_ignores_extra_fields() {
    let batch = converter().convert(&[row(1, "a"), row(2, "b")], 1).unwrap().record_batch();
    assert_eq!(batch.num_rows(), 2);
    assert_eq!(batch.num_columns(), 7);
    let ids = batch
        .column(0)
        .as_any()
        .downcast_ref::<UInt64Array>()
        .unwrap();
    assert_eq!(ids.value(1), 2);
    let authors = batch
        .column(2)
        .as_any()
        .downcast_ref::<StringArray>()
        .unwrap();
    assert_eq!(authors.value(0), "octocat");
}

#[test]
fn missing_required_key_fails_with_context() {
    let mut value = row(1, "a");
    remove(&mut value, "title");
    let err = converter().convert(&[value], 2).unwrap_err();
    assert!(matches!(
        err,
        OpenConnectorError::ConversionFailed { ref column, page: 2, row: 0, ref found, .. }
            if column == "title" && found == "missing key"
    ));
}

#[test]
fn missing_nullable_key_becomes_null() {
    let mut value = row(1, "a");
    remove(&mut value, "score");
    let batch = converter().convert(&[value], 1).unwrap().record_batch();
    let scores = batch
        .column(3)
        .as_any()
        .downcast_ref::<Float64Array>()
        .unwrap();
    assert!(scores.is_null(0));
}

#[test]
fn nullable_column_fails_on_shape_mismatch() {
    // `user` changed from object to string upstream: a nullable
    // user.login column must NOT quietly become all-null — this is a
    // breaking change and has to fail conversion.
    let mut value = row(1, "a");
    set(&mut value, "user", json(r#""octocat""#));
    let err = converter().convert(&[value], 1).unwrap_err();
    match err {
        OpenConnectorError::ConversionFailed { column, found, .. } => {
            assert_eq!(column, "author_login");
            assert_eq!(found, "a string");
        }
        other => panic!("expected ConversionFailed, got {other:?}"),
    }
}

#[test]
fn null_parent_object_nulls_for_nullable_column() {
    // Providers null out whole objects (GitHub `commit.author: null`,
    // `issue.user: null`): a JSON-null parent means every leaf under it
    // is absent — NULL for a nullable column, not a structural failure.
    let mut value = row(1, "a");
    set(&mut value, "user", Json::Null);
    let batch = converter().convert(&[value], 1).unwrap().record_batch();
    let authors = batch
        .column(2)
        .as_any()
        .downcast_ref::<StringArray>()
        .unwrap();
    assert!(authors.is_null(0));
}

#[test]
fn null_parent_object_fails_for_required_column() {
    let converter = RowConverter::new(&[FieldMapping {
        name: "author_login",
        path: "user.login",
        field_type: FieldType::Utf8,
        nullable: false,
    }])
    .unwrap();
    let err = converter
        .convert(&[json(r#"{"user": null}"#)], 1)
        .unwrap_err();
    assert!(matches!(
        err,
        OpenConnectorError::ConversionFailed { ref column, ref found, .. }
            if column == "author_login" && found == "null"
    ));
}

#[test]
fn object_list_plucks_the_declared_string_key() {
    // The design's `$.labels[*].name` flattening: an array of objects
    // becomes List<Utf8> of one declared key.
    let converter = RowConverter::new(&[FieldMapping {
        name: "labels",
        path: "labels",
        field_type: FieldType::Utf8ListFromObjectKey("name"),
        nullable: true,
    }])
    .unwrap();
    let batch = converter
        .convert(
            &[
                json(r#"{"labels": [{"name": "bug", "color": "red"}, {"name": "p1"}]}"#),
                json(r#"{"labels": []}"#),
                json(r#"{"labels": null}"#),
                json(r#"{}"#),
            ],
            1,
        )
        .unwrap().record_batch();
    let lists = batch
        .column(0)
        .as_any()
        .downcast_ref::<arrow::array::ListArray>()
        .unwrap();
    let first = lists.value(0);
    let first = first.as_any().downcast_ref::<StringArray>().unwrap();
    assert_eq!(first.value(0), "bug");
    assert_eq!(first.value(1), "p1");
    assert_eq!(lists.value(1).len(), 0, "empty array stays an empty list");
    assert!(lists.is_null(2), "JSON null becomes NULL");
    assert!(lists.is_null(3), "absent key becomes NULL");
}

#[test]
fn object_list_shape_mismatches_fail_with_the_specific_kind() {
    let converter = RowConverter::new(&[FieldMapping {
        name: "labels",
        path: "labels",
        field_type: FieldType::Utf8ListFromObjectKey("name"),
        nullable: true,
    }])
    .unwrap();
    for (bad, found) in [
        // A dropped upstream key is shape drift and must fail loudly —
        // it must never silently become an all-null list.
        (
            json(r#"{"labels": [{"color": "red"}]}"#),
            "array element without key 'name'",
        ),
        (
            json(r#"{"labels": [{"name": 42}]}"#),
            "array element whose 'name' is number",
        ),
        (
            json(r#"{"labels": ["bug"]}"#),
            "string array element",
        ),
    ] {
        let err = converter.convert(&[bad], 1).unwrap_err();
        assert!(
            matches!(
                err,
                OpenConnectorError::ConversionFailed { found: ref f, .. } if f == found
            ),
            "expected found={found}, got {err:?}"
        );
    }
}

#[test]
fn json_null_list_elements_become_null_items() {
    // The item field is declared nullable (List<Utf8> with nullable
    // items), so an explicit provider null — a null element, or a pluck
    // key holding null — must convert to an Arrow null item, not fail.
    let converter = RowConverter::new(&[
        FieldMapping {
            name: "tags",
            path: "tags",
            field_type: FieldType::Utf8List,
            nullable: true,
        },
        FieldMapping {
            name: "labels",
            path: "labels",
            field_type: FieldType::Utf8ListFromObjectKey("name"),
            nullable: true,
        },
    ])
    .unwrap();
    let batch = converter
        .convert(
            &[json(r#"{
                "tags": ["a", null, "b"],
                "labels": [{"name": null}, {"name": "bug"}, null]
            }"#)],
            1,
        )
        .unwrap().record_batch();

    let tags = batch
        .column(0)
        .as_any()
        .downcast_ref::<arrow::array::ListArray>()
        .unwrap()
        .value(0);
    let tags = tags.as_any().downcast_ref::<StringArray>().unwrap();
    assert_eq!(tags.value(0), "a");
    assert!(tags.is_null(1), "null element is a null item");
    assert_eq!(tags.value(2), "b");

    let labels = batch
        .column(1)
        .as_any()
        .downcast_ref::<arrow::array::ListArray>()
        .unwrap()
        .value(0);
    let labels = labels.as_any().downcast_ref::<StringArray>().unwrap();
    assert!(labels.is_null(0), "pluck key holding null is a null item");
    assert_eq!(labels.value(1), "bug");
    assert!(labels.is_null(2), "null element is a null item");
}

#[test]
fn missing_parent_object_still_nulls_for_nullable_column() {
    // A genuinely-absent parent (no `user` key at all) is absence, not a
    // shape change — nullable user.login becomes null.
    let mut value = row(1, "a");
    remove(&mut value, "user");
    let batch = converter().convert(&[value], 1).unwrap().record_batch();
    let authors = batch
        .column(2)
        .as_any()
        .downcast_ref::<StringArray>()
        .unwrap();
    assert!(authors.is_null(0));
}

#[test]
fn null_in_required_field_fails() {
    let mut value = row(1, "a");
    set(&mut value, "title", Json::Null);
    let err = converter().convert(&[value], 1).unwrap_err();
    assert!(matches!(
        err,
        OpenConnectorError::ConversionFailed { ref column, ref found, .. }
            if column == "title" && found == "null"
    ));
}

#[test]
fn wrong_type_fails_with_kind_not_value() {
    let mut value = row(1, "a");
    set(&mut value, "id", json(r#""not-a-number""#));
    let err = converter().convert(&[value], 1).unwrap_err();
    match err {
        OpenConnectorError::ConversionFailed { found, column, .. } => {
            assert_eq!(column, "id");
            assert_eq!(found, "string");
            assert!(!found.contains("not-a-number"), "error must not echo data");
        }
        other => panic!("expected ConversionFailed, got {other:?}"),
    }
}

#[test]
fn float_for_int_fails() {
    let mut value = row(1, "a");
    set(&mut value, "id", json(r#"1.5"#));
    let err = converter().convert(&[value], 1).unwrap_err();
    assert!(matches!(err, OpenConnectorError::ConversionFailed { .. }));
}

#[test]
fn timestamps_parse_rfc3339_and_epoch() {
    let mut value = row(1, "a");
    let batch = converter().convert(&[value.clone()], 1).unwrap().record_batch();
    let ts = batch
        .column(5)
        .as_any()
        .downcast_ref::<TimestampMillisecondArray>()
        .unwrap();
    assert_eq!(ts.value(0), 1767225600000);

    set(&mut value, "created_at", json(r#"1767225600000"#));
    let batch = converter().convert(&[value], 1).unwrap().record_batch();
    let ts = batch
        .column(5)
        .as_any()
        .downcast_ref::<TimestampMillisecondArray>()
        .unwrap();
    assert_eq!(ts.value(0), 1767225600000);
}

#[test]
fn epoch_seconds_convert_to_millis_and_reject_other_shapes() {
    // Slack-style `created`/`updated` are whole epoch seconds; the
    // seconds variant scales to millis, and anything that is not an
    // integer fails with its kind — a fractional or string timestamp
    // must never be misread.
    let converter = RowConverter::new(&[FieldMapping {
        name: "created",
        path: "created",
        field_type: FieldType::TimestampSecondsUtc,
        nullable: true,
    }])
    .unwrap();

    let batch = converter
        .convert(
            &[
                json(r#"{"created": 1735689600}"#), // 2025-01-01T00:00:00Z
                json(r#"{"created": null}"#),
                json(r#"{}"#),
            ],
            1,
        )
        .unwrap().record_batch();
    let created = batch
        .column(0)
        .as_any()
        .downcast_ref::<TimestampMillisecondArray>()
        .unwrap();
    assert_eq!(created.value(0), 1_735_689_600_000);
    assert!(created.is_null(1), "JSON null stays NULL");
    assert!(created.is_null(2), "absent key stays NULL");

    for (bad, found) in [
        (json(r#"{"created": 1735689600.5}"#), "number"),
        (
            json(r#"{"created": "2025-01-01T00:00:00Z"}"#),
            "string",
        ),
        // Overflow is its own diagnosis — "found: number" would
        // contradict the expected type, which is also a number.
        (
            json(r#"{"created": 9223372036854775807}"#),
            "an epoch second out of range for millisecond timestamps",
        ),
    ] {
        let err = converter.convert(&[bad], 1).unwrap_err();
        assert!(
            matches!(
                err,
                OpenConnectorError::ConversionFailed { found: ref f, ref expected, .. }
                    if f == found && expected == "epoch-seconds timestamp"
            ),
            "got {err:?}"
        );
    }
}

#[test]
fn epoch_digit_strings_convert_at_both_scales_and_reject_other_shapes() {
    // Feishu-style timestamps are DIGIT STRINGS — millis for im
    // (`create_time: "1609296809000"`), seconds for wiki
    // (`obj_create_time: "1642402790"`). Each variant converts only
    // non-empty ASCII-digit strings; numbers, RFC 3339 strings, and
    // arbitrary text fail with their kind or shape — never parse as
    // zero.
    let converter = RowConverter::new(&[
        FieldMapping {
            name: "create_time",
            path: "create_time",
            field_type: FieldType::TimestampMillisStringUtc,
            nullable: true,
        },
        FieldMapping {
            name: "obj_create_time",
            path: "obj_create_time",
            field_type: FieldType::TimestampSecondsStringUtc,
            nullable: true,
        },
    ])
    .unwrap();

    let batch = converter
        .convert(
            &[
                json(r#"{
                    "create_time": "1735689600000",
                    "obj_create_time": "1735689600"
                }"#),
                json(r#"{"create_time": null}"#),
            ],
            1,
        )
        .unwrap().record_batch();
    for column in [0, 1] {
        let ts = batch
            .column(column)
            .as_any()
            .downcast_ref::<TimestampMillisecondArray>()
            .unwrap();
        assert_eq!(ts.value(0), 1_735_689_600_000);
        assert!(ts.is_null(1), "null and absent keys stay NULL");
    }

    for (bad, found, expected) in [
        // A JSON number is the OTHER spelling — accepting it here
        // would blur the two variants' contracts.
        (
            json(r#"{"create_time": 1735689600000}"#),
            "number",
            "epoch-millis digit string",
        ),
        (
            json(r#"{"create_time": "2025-01-01T00:00:00Z"}"#),
            "a non-epoch string",
            "epoch-millis digit string",
        ),
        (
            json(r#"{"create_time": ""}"#),
            "a non-epoch string",
            "epoch-millis digit string",
        ),
        (
            json(r#"{"obj_create_time": "-5"}"#),
            "a non-epoch string",
            "epoch-seconds digit string",
        ),
        // Overflow is its own diagnosis, at both the parse and the
        // seconds→millis scale step.
        (
            json(r#"{"obj_create_time": "99999999999999999999"}"#),
            "an epoch out of range for millisecond timestamps",
            "epoch-seconds digit string",
        ),
        (
            json(r#"{"obj_create_time": "9223372036854775807"}"#),
            "an epoch out of range for millisecond timestamps",
            "epoch-seconds digit string",
        ),
    ] {
        let err = converter.convert(&[bad], 1).unwrap_err();
        assert!(
            matches!(
                err,
                OpenConnectorError::ConversionFailed { found: ref f, expected: ref e, .. }
                    if f == found && e == expected
            ),
            "got {err:?}"
        );
    }
}

#[test]
fn non_string_list_element_fails() {
    let mut value = row(1, "a");
    set(&mut value, "labels", json(r#"["bug", 42]"#));
    let err = converter().convert(&[value], 1).unwrap_err();
    assert!(matches!(err, OpenConnectorError::ConversionFailed { .. }));
}

#[test]
fn opaque_field_serializes_json() {
    let batch = converter().convert(&[row(1, "a")], 1).unwrap().record_batch();
    let raw = batch
        .column(6)
        .as_any()
        .downcast_ref::<StringArray>()
        .unwrap();
    assert!(raw.value(0).contains("nested"));
}

#[test]
fn json_null_becomes_arrow_null_not_the_string_null() {
    // A present JSON null in a nullable Json column is SQL NULL — never
    // the 4-char string "null", which would make `IS NULL` miss and
    // `= 'null'` match. Raw scans type every object/array field as Json,
    // so nullable nested SaaS fields (assignee: null) hit this arm.
    let mut with_null = row(1, "a");
    set(&mut with_null, "raw", Json::Null);
    let mut absent = row(2, "b");
    remove(&mut absent, "raw");

    let batch = converter().convert(&[with_null, absent], 1).unwrap().record_batch();
    let raw = batch
        .column(6)
        .as_any()
        .downcast_ref::<StringArray>()
        .unwrap();
    assert!(raw.is_null(0), "present JSON null must be Arrow null");
    assert!(raw.is_null(1), "absent key stays Arrow null");
}

#[test]
fn json_null_fails_for_non_nullable_json_column() {
    // Same null discipline as every other type: a required opaque field
    // fails with a targeted per-column error, not a batch-level one.
    let converter = RowConverter::new(&[FieldMapping {
        name: "raw",
        path: "raw",
        field_type: FieldType::Json,
        nullable: false,
    }])
    .unwrap();
    let err = converter
        .convert(&[json(r#"{"raw": null}"#)], 3)
        .unwrap_err();
    assert!(matches!(
        err,
        OpenConnectorError::ConversionFailed { ref column, page: 3, row: 0, ref found, .. }
            if column == "raw" && found == "null"
    ));
}

#[test]
fn empty_page_yields_empty_batch_with_schema() {
    let converter = converter();
    let batch = converter.convert(&[], 1).unwrap().record_batch();
    assert_eq!(batch.num_rows(), 0);
    assert_eq!(batch.schema().fields().len(), 7);
}

#[test]
fn owned_columns_build_the_same_converter_as_static_mappings() {
    // The raw-scan path derives ColumnSpecs at planning time; they must
    // produce exactly the schema and conversion the static path does.
    let owned = RowConverter::from_columns(FIELDS.iter().map(ColumnSpec::from).collect())
        .expect("owned converter");
    assert_eq!(owned.schema(), converter().schema());

    let batch = owned.convert(&[row(7, "seven")], 1).unwrap().record_batch();
    let ids = batch
        .column(0)
        .as_any()
        .downcast_ref::<UInt64Array>()
        .unwrap();
    assert_eq!(ids.value(0), 7);
}

#[test]
fn dollar_prefixed_column_paths_are_rejected_not_silently_misread() {
    // `$.user.login` would survive the `$.{path}` concatenation as a
    // literal `"$"` first segment and read the wrong key — nullable
    // columns would silently go all-NULL. Reject it with the corrected
    // spelling instead.
    let err = RowConverter::new(&[FieldMapping {
        name: "author",
        path: "$.user.login",
        field_type: FieldType::Utf8,
        nullable: true,
    }])
    .err()
    .unwrap();
    assert!(matches!(
        err,
        OpenConnectorError::InvalidRowPath { ref path, ref reason }
            if path == "$.user.login"
                && reason.contains("write 'user.login', not '$.user.login'")
    ));
}

#[test]
fn invalid_mapping_path_is_rejected() {
    let err = RowConverter::new(&[FieldMapping {
        name: "x",
        path: "a..b",
        field_type: FieldType::Utf8,
        nullable: false,
    }])
    .err()
    .unwrap();
    assert!(matches!(err, OpenConnectorError::InvalidRowPath { .. }));
}

#[test]
fn every_type_makes_its_own_arrow_column() {
    const ALL: &[FieldMapping] = &[
        FieldMapping {
            name: "flag",
            path: "flag",
            field_type: FieldType::Boolean,
            nullable: true,
        },
        FieldMapping {
            name: "delta",
            path: "delta",
            field_type: FieldType::Int64,
            nullable: true,
        },
        FieldMapping {
            name: "share",
            path: "share",
            field_type: FieldType::Float64,
            nullable: true,
        },
        FieldMapping {
            name: "tags",
            path: "tags",
            field_type: FieldType::Utf8List,
            nullable: false,
        },
        FieldMapping {
            name: "at",
            path: "at",
            field_type: FieldType::TimestampMillisUtc,
            nullable: true,
        },
    ];
    let converter = RowConverter::new(ALL).unwrap();
    let schema = converter.schema();
    assert_eq!(schema.field(0).data_type(), &DataType::Boolean);
    assert_eq!(schema.field(1).data_type(), &DataType::Int64);
    assert_eq!(schema.field(2).data_type(), &DataType::Float64);
    match schema.field(3).data_type() {
        DataType::List(item) => {
            assert_eq!(item.name(), "item");
            assert_eq!(item.data_type(), &DataType::Utf8);
            assert!(item.is_nullable());
        }
        other => panic!("{other:?}"),
    }
    assert_eq!(
        schema.field(4).data_type(),
        &DataType::Timestamp(TimeUnit::Millisecond, Some("UTC".into()))
    );
    assert!(schema.field(0).is_nullable());
    assert!(!schema.field(3).is_nullable());

    let batch = converter
        .convert(
            &[
                json(r#"{"flag": true, "delta": -7, "share": 0.1, "tags": ["x"], "at": 12}"#),
                json(r#"{"share": 18446744073709551615, "tags": []}"#),
                json(r#"{"share": -3, "tags": [null]}"#),
            ],
            1,
        )
        .unwrap()
        .record_batch();
    let flags = batch.column(0).as_any().downcast_ref::<BooleanArray>().unwrap();
    assert!(flags.value(0) && flags.is_null(1));
    let deltas = batch.column(1).as_any().downcast_ref::<Int64Array>().unwrap();
    assert_eq!(deltas.value(0), -7);
    assert!(deltas.is_null(2));
    let shares = batch.column(2).as_any().downcast_ref::<Float64Array>().unwrap();
    assert_eq!(shares.value(0), 0.1);
    assert_eq!(shares.value(1), 18446744073709551615u64 as f64);
    assert_eq!(shares.value(2), -3.0);
    let tags = batch.column(3).as_any().downcast_ref::<ListArray>().unwrap();
    assert_eq!(tags.value(0).len(), 1);
    assert_eq!(tags.value(1).len(), 0);
    assert!(tags.value(2).is_null(0));
    let at = batch.column(4).as_any().downcast_ref::<TimestampMillisecondArray>().unwrap();
    assert_eq!(at.value(0), 12);
}

#[test]
fn rows_stay_aligned_with_their_columns() {
    let batch = converter()
        .convert(&[row(3, "c"), row(1, "a"), row(2, "b")], 1)
        .unwrap()
        .record_batch();
    let ids = batch.column(0).as_any().downcast_ref::<UInt64Array>().unwrap();
    let titles = batch.column(1).as_any().downcast_ref::<StringArray>().unwrap();
    for (row, (id, title)) in [(3, "c"), (1, "a"), (2, "b")].into_iter().enumerate() {
        assert_eq!((ids.value(row), titles.value(row)), (id, title));
    }
}

#[test]
fn the_first_column_that_fails_is_reported() {
    let mut bad = row(1, "a");
    set(&mut bad, "id", Json::String("x".to_string()));
    set(&mut bad, "title", Json::Null);
    let mut worse = row(2, "b");
    set(&mut worse, "id", Json::Bool(true));
    let err = converter().convert(&[row(3, "c"), bad, worse], 4).unwrap_err();
    assert!(matches!(
        err,
        OpenConnectorError::ConversionFailed { ref column, page: 4, row: 1, ref found, .. }
            if column == "id" && found == "string"
    ));
}

#[test]
fn checked_conversion_agrees_with_the_plain_one() {
    let converter = converter();
    let checked = converter.convert_checked(&[row(1, "a")], 1).unwrap().unwrap();
    assert_eq!(checked.record_batch(), converter.convert(&[row(1, "a")], 1).unwrap().record_batch());
    assert!(converter.convert_checked(&[Json::Null], 1).unwrap().is_err());
}

#[test]
fn timestamps_are_read_with_their_offset() {
    assert_eq!(parse_timestamp(&json(r#""1970-01-01T01:00:00+01:00""#)), Some(0));
    assert_eq!(parse_timestamp(&json(r#""1970-01-01T00:00:00.25Z""#)), Some(250));
    assert_eq!(parse_timestamp(&json("-5")), Some(-5));
    assert_eq!(parse_timestamp(&json(r#""1970-01-01""#)), None);
    assert_eq!(parse_timestamp(&json("1.5")), None);
    assert_eq!(timestamp_of(&json(r#""whatever""#), Some(9)), Some(9));
    assert_eq!(timestamp_of(&json("true"), Some(9)), None);
}

#[test]
fn digit_strings_are_scaled() {
    assert_eq!(parse_epoch_digit_string(&json(r#""0012""#), 1000), Ok(12000));
    assert_eq!(parse_epoch_digit_string(&json(r#""12""#), 1), Ok(12));
    assert_eq!(
        parse_epoch_digit_string(&json(r#""+12""#), 1),
        Err("a non-epoch string".to_string())
    );
    assert_eq!(parse_epoch_digit_string(&json("12"), 1), Err("number".to_string()));
}

#[test]
fn cells_convert_by_their_type() {
    assert!(matches!(convert_cell(&FieldType::UInt64, &json("7")), Ok(Cell::UInt64(7))));
    assert!(matches!(
        convert_cell(&FieldType::Int64, &json("9223372036854775808")),
        Err(ref found) if found == "number"
    ));
    assert!(matches!(
        convert_cell(&FieldType::Utf8, &json(r#""x""#)),
        Ok(Cell::Utf8(ref s)) if s == "x"
    ));
    assert!(matches!(
        convert_cell(&FieldType::Json, &json(r#"{"b": [1.50], "a": "q\"q"}"#)),
        Ok(Cell::Utf8(ref s)) if s == r#"{"a":"q\"q","b":[1.5]}"#
    ));
}

#[test]
fn types_name_their_column_and_themselves() {
    assert_eq!(FieldType::Boolean.arrow_type(), ColumnKind::Boolean);
    assert_eq!(FieldType::TimestampSecondsStringUtc.arrow_type(), ColumnKind::TimestampMillisUtc);
    assert_eq!(FieldType::Utf8ListFromObjectKey("k").arrow_type(), ColumnKind::Utf8List);
    assert_eq!(FieldType::TimestampSecondsUtc.label(), "epoch-seconds timestamp");
}

#[test]
fn unmapped_keys_leave_the_batch_as_it_is() {
    let plain = row(1, "a");
    let mut extra = row(1, "a");
    set(&mut extra, "unknown", json(r#"{"id": 9}"#));
    set(&mut extra, "titles", Json::Null);
    let converter = converter();
    assert_eq!(
        converter.convert(&[plain], 1).unwrap().record_batch(),
        converter.convert(&[extra], 1).unwrap().record_batch()
    );
}

#[test]
fn failures_name_kinds_and_no_values() {
    let mut secret = row(1, "a");
    set(&mut secret, "id", Json::String("s3cret".to_string()));
    let err = converter().convert(&[secret], 1).unwrap_err();
    assert!(!err.message().contains("s3cret"));
    assert!(matches!(err, OpenConnectorError::ConversionFailed { ref found, .. } if found == "string"));
}
