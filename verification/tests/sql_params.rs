use skardi::decimal::Decimal;
use skardi::json::{Json, Number};
use skardi::server::sql_params::{
    longest_first, param_to_sql, row_cell_to_sql, scalar_to_sql,
    substitute_sql_params,
};

fn params(pairs: &[(&str, Json)]) -> Vec<(String, Json)> {
    pairs
        .iter()
        .map(|(k, v)| (k.to_string(), v.clone()))
        .collect()
}

fn sorted_keys(map: &[(String, Json)]) -> Vec<String> {
    longest_first(map.iter().map(|member| member.0.clone()).collect())
}

fn double(text: &str) -> Number {
    Number::Double(Decimal::read(text).unwrap())
}

#[test]
fn test_substitute_prefix_params_brace_notation_prevents_corruption() {
    // The bug report claimed that replacing `{user}` before `{user_id}` would corrupt
    // the longer placeholder. In practice this does NOT happen with `{param}` notation:
    // `{user}` ends with `}`, so it is never a literal substring of `{user_id}` (whose
    // 5th character after `{` is `_`, not `}`). Both orderings produce correct SQL.
    let template = "SELECT * FROM t WHERE id = {user_id} AND name = {user}";
    let params_map = params(&[
        ("user_id", Json::Number(Number::PosInt(42))),
        ("user", Json::String("alice".to_string())),
    ]);

    // Shorter-name-first ordering — would corrupt `$user_id`-style placeholders but not `{user_id}`.
    let mut sql = template.to_string();
    let short_first = vec!["user".to_string(), "user_id".to_string()];
    let (missing, unsupported) = substitute_sql_params(&mut sql, &short_first, &params_map);
    assert!(missing.is_empty());
    assert!(unsupported.is_empty());
    assert_eq!(sql, "SELECT * FROM t WHERE id = 42 AND name = 'alice'");

    // Longer-name-first ordering (the sorted order we enforce) — also correct.
    let mut sql2 = template.to_string();
    let long_first = sorted_keys(&params_map);
    let (missing2, unsupported2) = substitute_sql_params(&mut sql2, &long_first, &params_map);
    assert!(missing2.is_empty());
    assert!(unsupported2.is_empty());
    assert_eq!(sql2, "SELECT * FROM t WHERE id = 42 AND name = 'alice'");
}

#[test]
fn test_substitute_no_prefix_conflict() {
    // Unrelated parameter names — any ordering is safe.
    let mut sql = "SELECT * FROM t WHERE id = {id} AND cat = {category}".to_string();
    let params_map = params(&[
        ("id", Json::Number(Number::PosInt(7))),
        ("category", Json::String("premium".to_string())),
    ]);
    let expected_params = sorted_keys(&params_map);
    let (missing, unsupported) = substitute_sql_params(&mut sql, &expected_params, &params_map);

    assert!(missing.is_empty());
    assert!(unsupported.is_empty());
    assert_eq!(sql, "SELECT * FROM t WHERE id = 7 AND cat = 'premium'");
}

#[test]
fn test_substitute_missing_param() {
    let mut sql = "SELECT {a} AND {b}".to_string();
    let params_map = params(&[("a", Json::Number(Number::PosInt(1)))]);
    let expected_params = vec!["a".to_string(), "b".to_string()];
    let (missing, unsupported) = substitute_sql_params(&mut sql, &expected_params, &params_map);

    assert_eq!(missing, vec!["b"]);
    assert!(unsupported.is_empty());
    assert_eq!(sql, "SELECT 1 AND {b}"); // {b} left untouched
}

#[test]
fn test_substitute_quote_escaping() {
    let mut sql = "SELECT * FROM t WHERE name = {name}".to_string();
    let params_map = params(&[("name", Json::String("o'brien".to_string()))]);
    let expected_params = sorted_keys(&params_map);
    let (missing, unsupported) = substitute_sql_params(&mut sql, &expected_params, &params_map);

    assert!(missing.is_empty());
    assert!(unsupported.is_empty());
    assert_eq!(sql, "SELECT * FROM t WHERE name = 'o''brien'");
}

// -------------------------------------------------------------------------
// Multi-row VALUES tuple list (array-of-arrays) tests
// -------------------------------------------------------------------------

#[test]
fn test_substitute_tuple_list_scalar_only() {
    let mut sql = "INSERT INTO t (a, b) VALUES {rows}".to_string();
    let params_map = params(&[(
        "rows",
        Json::Array(vec![
            Json::Array(vec![
                Json::Number(Number::PosInt(1)),
                Json::String("x".to_string()),
            ]),
            Json::Array(vec![
                Json::Number(Number::PosInt(2)),
                Json::String("y".to_string()),
            ]),
        ]),
    )]);
    let (missing, unsupported) =
        substitute_sql_params(&mut sql, &sorted_keys(&params_map), &params_map);

    assert!(missing.is_empty());
    assert!(unsupported.is_empty());
    assert_eq!(sql, "INSERT INTO t (a, b) VALUES (1, 'x'), (2, 'y')");
}

#[test]
fn test_substitute_tuple_list_with_nested_vector() {
    // A row tuple with a nested array cell (the vector column) renders
    // as `(scalar, [v1, v2, v3], scalar)` — VECTOR / pgvector text form
    // sits inside the row exactly as it does at the top level.
    let mut sql = "INSERT INTO docs (id, embedding, title) VALUES {rows}".to_string();
    let params_map = params(&[(
        "rows",
        Json::Array(vec![
            Json::Array(vec![
                Json::String("a".to_string()),
                Json::Array(vec![
                    Json::Number(double("0.1")),
                    Json::Number(double("0.2")),
                ]),
                Json::String("alpha".to_string()),
            ]),
            Json::Array(vec![
                Json::String("b".to_string()),
                Json::Array(vec![
                    Json::Number(double("0.3")),
                    Json::Number(double("0.4")),
                ]),
                Json::String("beta".to_string()),
            ]),
        ]),
    )]);
    let (missing, unsupported) =
        substitute_sql_params(&mut sql, &sorted_keys(&params_map), &params_map);

    assert!(missing.is_empty());
    assert!(unsupported.is_empty());
    assert_eq!(
        sql,
        "INSERT INTO docs (id, embedding, title) VALUES \
         ('a', [0.1, 0.2], 'alpha'), ('b', [0.3, 0.4], 'beta')"
    );
}

#[test]
fn test_substitute_tuple_list_single_row_batch() {
    // Batch size of 1 still goes through the tuple-list path and emits a
    // single `(…)` clause — a multi-row pipeline with `VALUES {rows}`
    // therefore handles edge-of-batch and steady-state uniformly.
    let mut sql = "INSERT INTO t (a, b) VALUES {rows}".to_string();
    let params_map = params(&[(
        "rows",
        Json::Array(vec![Json::Array(vec![
            Json::Number(Number::PosInt(42)),
            Json::String("solo".to_string()),
        ])]),
    )]);
    let (missing, unsupported) =
        substitute_sql_params(&mut sql, &sorted_keys(&params_map), &params_map);

    assert!(missing.is_empty());
    assert!(unsupported.is_empty());
    assert_eq!(sql, "INSERT INTO t (a, b) VALUES (42, 'solo')");
}

#[test]
fn test_substitute_tuple_list_quote_escaping() {
    let mut sql = "INSERT INTO t (a) VALUES {rows}".to_string();
    let params_map = params(&[(
        "rows",
        Json::Array(vec![Json::Array(vec![Json::String(
            "o'brien".to_string(),
        )])]),
    )]);
    let (missing, unsupported) =
        substitute_sql_params(&mut sql, &sorted_keys(&params_map), &params_map);

    assert!(missing.is_empty());
    assert!(unsupported.is_empty());
    assert_eq!(sql, "INSERT INTO t (a) VALUES ('o''brien')");
}

#[test]
fn test_substitute_flat_array_still_renders_as_vector_literal() {
    // Pre-existing behaviour for a flat scalar array (e.g. a single
    // vector parameter) is preserved — the tuple-list path only fires
    // when *every* element is itself an array.
    let mut sql = "SELECT vector_to_text({embedding})".to_string();
    let params_map = params(&[(
        "embedding",
        Json::Array(vec![
            Json::Number(double("0.1")),
            Json::Number(double("0.2")),
            Json::Number(double("0.3")),
        ]),
    )]);
    let (missing, unsupported) =
        substitute_sql_params(&mut sql, &sorted_keys(&params_map), &params_map);

    assert!(missing.is_empty());
    assert!(unsupported.is_empty());
    assert_eq!(sql, "SELECT vector_to_text([0.1, 0.2, 0.3])");
}

#[test]
fn test_substitute_tuple_list_covers_bool_null_and_fallback_cells() {
    // Locks down the three less-common scalar_to_sql arms that the other
    // tuple-list tests don't reach: Bool, Null, and the fallback for an
    // unexpected JSON shape (Object). All three flow through
    // row_cell_to_sql's `_ => scalar_to_sql(v)` branch.
    let mut sql = "INSERT INTO t (active, last_login, raw) VALUES {rows}".to_string();
    let obj = vec![("k".to_string(), Json::String("v".to_string()))];
    let params_map = params(&[(
        "rows",
        Json::Array(vec![Json::Array(vec![
            Json::Bool(true),
            Json::Null,
            Json::Object(obj),
        ])]),
    )]);
    let (missing, unsupported) =
        substitute_sql_params(&mut sql, &sorted_keys(&params_map), &params_map);

    assert!(missing.is_empty());
    assert!(unsupported.is_empty());
    // Bool → `true`, Null → `NULL`, Object falls through to
    // `Value::to_string()` which emits the JSON form `{"k":"v"}`.
    // The Object case isn't useful SQL on most engines, but it's the
    // pre-existing behaviour for "any other JSON shape" — locking it
    // here means a future change has to be deliberate.
    assert_eq!(
        sql,
        "INSERT INTO t (active, last_login, raw) VALUES (true, NULL, {\"k\":\"v\"})"
    );
}

#[test]
fn test_substitute_mixed_array_is_unsupported() {
    // An array with both scalar and array elements is ambiguous (vector
    // literal? broken tuple list?) and must be rejected rather than
    // silently dropped into the scalar-fallback branch.
    let mut sql = "INSERT INTO t (a) VALUES {rows}".to_string();
    let params_map = params(&[(
        "rows",
        Json::Array(vec![
            Json::Array(vec![Json::Number(Number::PosInt(1))]),
            Json::Number(Number::PosInt(2)),
        ]),
    )]);
    let (missing, unsupported) =
        substitute_sql_params(&mut sql, &sorted_keys(&params_map), &params_map);

    assert!(missing.is_empty());
    assert_eq!(unsupported.len(), 1);
    assert!(unsupported[0].starts_with("rows: "));
    // Placeholder left untouched on rejection.
    assert_eq!(sql, "INSERT INTO t (a) VALUES {rows}");
}

#[test]
fn test_substitute_tuple_list_rejects_uneven_row_widths() {
    // Different cell counts per row would render as `(1, 2), (3)` and
    // fail at the database with a generic arity error. Reject at the
    // renderer so the caller sees a precise parameter_validation_error.
    let mut sql = "INSERT INTO t (a, b) VALUES {rows}".to_string();
    let params_map = params(&[(
        "rows",
        Json::Array(vec![
            Json::Array(vec![Json::Number(Number::PosInt(1)), Json::Number(Number::PosInt(2))]),
            Json::Array(vec![Json::Number(Number::PosInt(3))]),
        ]),
    )]);
    let (missing, unsupported) =
        substitute_sql_params(&mut sql, &sorted_keys(&params_map), &params_map);

    assert!(missing.is_empty());
    assert_eq!(unsupported.len(), 1);
    assert!(unsupported[0].starts_with("rows: "));
    assert_eq!(sql, "INSERT INTO t (a, b) VALUES {rows}");
}

#[test]
fn test_substitute_empty_top_level_array_is_rejected_with_specific_error() {
    // `"rows": []` is a common CDC-consumer shape (empty batch). Surface
    // a specific, actionable error rather than the generic "Unsupported
    // parameter type" so callers can fix it without digging through logs.
    let mut sql = "INSERT INTO t (a) VALUES {rows}".to_string();
    let params_map = params(&[("rows", Json::Array(vec![]))]);
    let (missing, unsupported) =
        substitute_sql_params(&mut sql, &sorted_keys(&params_map), &params_map);

    assert!(missing.is_empty());
    assert_eq!(unsupported.len(), 1);
    assert!(
        unsupported[0].contains("empty array"),
        "expected error to mention 'empty array', got: {}",
        unsupported[0]
    );
    assert!(
        unsupported[0].contains("filter empty batches"),
        "expected error to point at client-side filtering, got: {}",
        unsupported[0]
    );
    // Placeholder left untouched on rejection.
    assert_eq!(sql, "INSERT INTO t (a) VALUES {rows}");
}

#[test]
fn test_substitute_tuple_list_rejects_empty_inner_rows() {
    // A row with zero cells would render as `()` — invalid SQL on every
    // engine. Reject so the parameter renderer is the source of truth
    // for "this batch is malformed".
    let mut sql = "INSERT INTO t (a) VALUES {rows}".to_string();
    let params_map = params(&[(
        "rows",
        Json::Array(vec![Json::Array(vec![]), Json::Array(vec![])]),
    )]);
    let (missing, unsupported) =
        substitute_sql_params(&mut sql, &sorted_keys(&params_map), &params_map);

    assert!(missing.is_empty());
    assert_eq!(unsupported.len(), 1);
    assert!(unsupported[0].starts_with("rows: "));
    assert_eq!(sql, "INSERT INTO t (a) VALUES {rows}");
}

#[test]
fn scalars_have_their_literals() {
    assert_eq!(scalar_to_sql(&Json::Null), "NULL");
    assert_eq!(scalar_to_sql(&Json::Bool(false)), "false");
    assert_eq!(scalar_to_sql(&Json::Number(Number::NegInt(-12))), "-12");
    assert_eq!(scalar_to_sql(&Json::Number(Number::NegInt(12))), "12");
    assert_eq!(scalar_to_sql(&Json::Number(double("1e3"))), "1000.0");
    assert_eq!(scalar_to_sql(&Json::String("it's ''".to_string())), "'it''s '''''");
    assert_eq!(scalar_to_sql(&Json::Array(vec![Json::Null])), "[null]");
    assert_eq!(row_cell_to_sql(&Json::Array(vec![Json::Null])), "[NULL]");
}

#[test]
fn objects_are_refused_as_they_are_debugged() {
    let object = Json::Object(vec![("k".to_string(), Json::Number(Number::PosInt(1)))]);
    assert_eq!(
        param_to_sql("p", &object),
        Err(r#"p: Object {"k": Number(1)}"#.to_string())
    );
    assert_eq!(param_to_sql("p", &Json::Bool(true)), Ok("true".to_string()));
}

#[test]
fn values_are_not_looked_at_again() {
    let given = params(&[
        ("aa", Json::String("{b}".to_string())),
        ("b", Json::String("x".to_string())),
    ]);
    for order in [["aa", "b"], ["b", "aa"]] {
        let mut sql = "SELECT {aa}, {b}".to_string();
        let expected = order.map(str::to_string).to_vec();
        let done = substitute_sql_params(&mut sql, &expected, &given);
        assert_eq!(done, (vec![], vec![]));
        assert_eq!(sql, "SELECT '{b}', 'x'");
    }
}

#[test]
fn placeholders_are_filled_wherever_they_stand() {
    let given = params(&[("a", Json::Null)]);
    let mut sql = "{a}{a} {{a}} {b} {a".to_string();
    substitute_sql_params(&mut sql, &vec!["a".to_string()], &given);
    assert_eq!(sql, "NULLNULL {NULL} {b} {a");
    let mut sql = "none".to_string();
    substitute_sql_params(&mut sql, &vec!["a".to_string()], &given);
    assert_eq!(sql, "none");
}

#[test]
fn longer_names_come_first() {
    let names = ["a", "ccc", "\u{e9}\u{e9}", "bb"].map(str::to_string).to_vec();
    let sorted = longest_first(names);
    assert_eq!(sorted[0], "\u{e9}\u{e9}");
    assert_eq!(sorted[1], "ccc");
    assert_eq!(sorted[2], "bb");
    assert_eq!(sorted[3], "a");
}

#[test]
fn of_two_parameters_with_one_name_the_later_counts() {
    let mut sql = "SELECT {a}".to_string();
    let given = params(&[("a", Json::Null), ("a", Json::Bool(true))]);
    substitute_sql_params(&mut sql, &vec!["a".to_string()], &given);
    assert_eq!(sql, "SELECT true");
}
