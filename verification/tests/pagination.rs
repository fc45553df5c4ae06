use skardi::decimal::Decimal;
use skardi::json::{get_member, Json, Number};
use skardi::open_connector::error::OpenConnectorError;
use skardi::open_connector::pagination::{Pagination, PaginationStrategy};

fn from_value(value: &serde_json::Value) -> Json {
    match value {
        serde_json::Value::Null => Json::Null,
        serde_json::Value::Bool(b) => Json::Bool(*b),
        serde_json::Value::Number(n) => Json::Number(match (n.as_u64(), n.as_i64()) {
            (Some(n), _) => Number::PosInt(n),
            (None, Some(n)) => Number::NegInt(n),
            (None, None) => Number::Double(Decimal::read(&n.to_string()).unwrap()),
        }),
        serde_json::Value::String(s) => Json::String(s.clone()),
        serde_json::Value::Array(items) => Json::Array(items.iter().map(from_value).collect()),
        serde_json::Value::Object(members) => Json::Object(
            members
                .iter()
                .map(|(key, value)| (key.clone(), from_value(value)))
                .collect(),
        ),
    }
}

/// A value from its JSON text.
fn json(text: &str) -> Json {
    from_value(&serde_json::from_str(text).unwrap())
}

fn get<'a>(input: &'a Vec<(String, Json)>, key: &str) -> Option<&'a Json> {
    get_member(input, key)
}


fn page_number(per_page: u32) -> Pagination {
    Pagination::new(PaginationStrategy::PageNumber {
        page_param: "page",
        per_page_param: "per_page",
        per_page,
        total_pages_path: None,
        raw_page_size_path: None,
    })
    .unwrap()
}

fn cursor_strategy() -> PaginationStrategy {
    PaginationStrategy::Cursor {
        cursor_param: "cursor",
        next_cursor_path: "$.next_cursor",
        page_size_param: Some("limit"),
        page_size: 50,
        has_more_path: None,
    }
}

fn cursor() -> Pagination {
    Pagination::new(cursor_strategy()).unwrap()
}

#[test]
fn malformed_cursor_path_fails_at_construction() {
    let err = Pagination::new(PaginationStrategy::Cursor {
        cursor_param: "cursor",
        next_cursor_path: "not-a-path",
        page_size_param: None,
        page_size: 50,
        has_more_path: None,
    })
    .err()
    .unwrap();
    assert!(matches!(err, OpenConnectorError::InvalidRowPath { .. }));
}

#[test]
fn validate_rejects_malformed_cursor_path() {
    let bad = PaginationStrategy::Cursor {
        cursor_param: "cursor",
        next_cursor_path: "$.a..b",
        page_size_param: None,
        page_size: 50,
        has_more_path: None,
    };
    assert!(matches!(
        bad.validate(),
        Err(OpenConnectorError::InvalidRowPath { .. })
    ));
    cursor_strategy().validate().expect("valid strategy");
}

#[test]
fn page_number_injects_params_and_stops_on_short_page() {
    let mut pagination = page_number(2);
    let mut input = Vec::new();
    pagination.apply(&mut input);
    assert_eq!(get(&input, "page"), Some(&json(r#"1"#)));
    assert_eq!(get(&input, "per_page"), Some(&json(r#"2"#)));

    // Full page → advance to page 2.
    assert!(pagination.advance(&json(r#"{}"#), 2).unwrap());
    let mut input = Vec::new();
    pagination.apply(&mut input);
    assert_eq!(get(&input, "page"), Some(&json(r#"2"#)));

    // Short page → done.
    assert!(!pagination.advance(&json(r#"{}"#), 1).unwrap());
}

#[test]
fn page_number_stops_on_empty_page() {
    let mut pagination = page_number(10);
    assert!(!pagination.advance(&json(r#"{}"#), 0).unwrap());
}

fn page_number_with_raw(per_page: u32) -> Pagination {
    Pagination::new(PaginationStrategy::PageNumber {
        page_param: "page",
        per_page_param: "perPage",
        per_page,
        total_pages_path: None,
        raw_page_size_path: Some("$.pageInfo.fetched"),
    })
    .unwrap()
}

#[test]
fn raw_page_size_drives_termination_regardless_of_filtered_rows() {
    // Full raw page + short (even empty) filtered rows → continue: the
    // provider filtered rows AFTER paginating, so the filtered count
    // says nothing. Short raw page → done, even if rows LOOK full.
    let mut pagination = page_number_with_raw(100);
    assert!(
        pagination
            .advance(&json(r#"{"pageInfo": {"fetched": 100}}"#), 37)
            .unwrap(),
        "full raw page with a short filtered page continues"
    );
    assert!(
        pagination
            .advance(&json(r#"{"pageInfo": {"fetched": 100}}"#), 0)
            .unwrap(),
        "an all-filtered (empty) page continues while the raw page was full"
    );
    assert!(
        !pagination
            .advance(&json(r#"{"pageInfo": {"fetched": 99}}"#), 99)
            .unwrap(),
        "a short raw page terminates"
    );
}

#[test]
fn missing_or_invalid_raw_page_size_fails_the_scan() {
    // The declared signal going missing or changing type is drift, not
    // end-of-collection — reading it as termination would truncate.
    let mut pagination = page_number_with_raw(100);
    assert!(matches!(
        pagination.advance(&json(r#"{"issues": []}"#), 0),
        Err(OpenConnectorError::RowPathNotFound { .. })
    ));

    let mut pagination = page_number_with_raw(100);
    assert!(matches!(
        pagination.advance(&json(r#"{"pageInfo": {"fetched": "100"}}"#), 0),
        Err(OpenConnectorError::PaginationRawPageSizeInvalid { page: 1, ref found, .. })
            if found == "a string"
    ));
}

#[test]
fn total_and_raw_page_size_are_mutually_exclusive() {
    let err = PaginationStrategy::PageNumber {
        page_param: "page",
        per_page_param: "perPage",
        per_page: 100,
        total_pages_path: Some("$.paging.pages"),
        raw_page_size_path: Some("$.pageInfo.fetched"),
    }
    .validate()
    .unwrap_err();
    assert!(matches!(
        err,
        OpenConnectorError::InvalidRowPath { ref reason, .. }
            if reason.contains("mutually")
    ));
}

#[test]
fn cursor_omits_token_on_first_page_then_follows() {
    let mut pagination = cursor();
    let mut input = Vec::new();
    pagination.apply(&mut input);
    assert!(get(&input, "cursor").is_none());
    assert_eq!(get(&input, "limit"), Some(&json(r#"50"#)));

    assert!(
        pagination
            .advance(&json(r#"{"next_cursor": "c2"}"#), 50)
            .unwrap()
    );
    let mut input = Vec::new();
    pagination.apply(&mut input);
    assert_eq!(get(&input, "cursor"), Some(&json(r#""c2""#)));
}

#[test]
fn cursor_ends_on_missing_null_or_empty_next() {
    let mut pagination = cursor();
    assert!(!pagination.advance(&json(r#"{}"#), 50).unwrap());

    let mut pagination = cursor();
    assert!(!pagination.advance(&json(r#"{"next_cursor": ""}"#), 50).unwrap());

    let mut pagination = cursor();
    assert!(
        !pagination
            .advance(&json(r#"{"next_cursor": null}"#), 50)
            .unwrap()
    );
}

#[test]
fn non_string_cursors_fail_instead_of_terminating() {
    // `next_cursor: 123` (or an object) is contract drift: reading it as
    // end-of-collection would return a truncated scan as success.
    for (envelope, kind) in [
        (json(r#"{"next_cursor": 123}"#), "a number"),
        (json(r#"{"next_cursor": {}}"#), "an object"),
        (json(r#"{"next_cursor": true}"#), "a boolean"),
    ] {
        let mut pagination = cursor();
        let err = pagination.advance(&envelope, 50).unwrap_err();
        assert!(
            matches!(
                err,
                OpenConnectorError::PaginationCursorInvalid { page: 1, ref found, .. }
                    if found == kind
            ),
            "{envelope:?} should fail with kind {kind}, got {err:?}"
        );
    }
}

#[test]
fn structural_cursor_path_failures_propagate() {
    // A non-object where the cursor path must descend is drift, not the
    // omitted end-of-collection spelling.
    let mut pagination = Pagination::new(PaginationStrategy::Cursor {
        cursor_param: "cursor",
        next_cursor_path: "$.meta.next",
        page_size_param: None,
        page_size: 50,
        has_more_path: None,
    })
    .unwrap();
    let err = pagination
        .advance(&json(r#"{"meta": [1, 2]}"#), 50)
        .unwrap_err();
    assert!(matches!(
        err,
        OpenConnectorError::RowPathNotObject { ref segment, .. } if segment == "next"
    ));

    // A missing PARENT segment stays a termination: Slack's raw shape
    // omits the whole `response_metadata` object on the last page.
    let mut pagination = Pagination::new(PaginationStrategy::Cursor {
        cursor_param: "cursor",
        next_cursor_path: "$.meta.next",
        page_size_param: None,
        page_size: 50,
        has_more_path: None,
    })
    .unwrap();
    assert!(!pagination.advance(&json(r#"{"other": 1}"#), 50).unwrap());
}

/// A cursor strategy with a declared has-more signal.
fn cursor_with_has_more() -> Pagination {
    Pagination::new(PaginationStrategy::Cursor {
        cursor_param: "pageToken",
        next_cursor_path: "$.pageToken",
        page_size_param: Some("pageSize"),
        page_size: 50,
        has_more_path: Some("$.hasMore"),
    })
    .unwrap()
}

#[test]
fn has_more_false_terminates_even_with_a_nonempty_cursor() {
    // The Feishu wiki shape this field exists for: the final page still
    // carries a non-empty page token ("0||…"), and only has_more says
    // the scan is over. Null-cursor termination alone would refetch and
    // trip the loop guard.
    let mut pagination = cursor_with_has_more();
    assert!(
        !pagination
            .advance(
                &json(r#"{"hasMore": false, "pageToken": "0||7027059242666328066"}"#),
                1
            )
            .unwrap()
    );
}

#[test]
fn has_more_true_continues_with_the_cursor() {
    let mut pagination = cursor_with_has_more();
    assert!(
        pagination
            .advance(&json(r#"{"hasMore": true, "pageToken": "tok-2"}"#), 50)
            .unwrap()
    );
    let mut input = Vec::new();
    pagination.apply(&mut input);
    assert_eq!(get(&input, "pageToken"), Some(&json(r#""tok-2""#)));
}

#[test]
fn has_more_true_without_a_cursor_is_drift_not_termination() {
    // The provider says more pages exist but hands nothing to follow —
    // stopping would silently truncate a scan the signal says is
    // unfinished.
    for envelope in [
        json(r#"{"hasMore": true, "pageToken": null}"#),
        json(r#"{"hasMore": true}"#),
    ] {
        let mut pagination = cursor_with_has_more();
        let err = pagination.advance(&envelope, 50).unwrap_err();
        assert!(
            matches!(
                err,
                OpenConnectorError::PaginationCursorInvalid { ref found, .. }
                    if found.contains("has-more")
            ),
            "got {err:?}"
        );
    }
}

#[test]
fn non_boolean_or_absent_has_more_fails_with_its_kind() {
    // The pack declared the signal, so a page without a usable one is
    // contract drift — guessing either way could truncate or loop.
    for (envelope, found) in [
        (json(r#"{"hasMore": "yes", "pageToken": "t"}"#), "a string"),
        (json(r#"{"hasMore": 1, "pageToken": "t"}"#), "a number"),
        (json(r#"{"pageToken": "t"}"#), "absent"),
    ] {
        let mut pagination = cursor_with_has_more();
        let err = pagination.advance(&envelope, 50).unwrap_err();
        assert!(
            matches!(
                err,
                OpenConnectorError::PaginationHasMoreInvalid { found: ref f, .. } if f == found
            ),
            "for {envelope:?}: got {err:?}"
        );
    }
}

#[test]
fn repeated_cursor_fails_as_loop() {
    let mut pagination = cursor();
    assert!(
        pagination
            .advance(&json(r#"{"next_cursor": "same"}"#), 50)
            .unwrap()
    );
    // Gateway returns the same cursor again — must fail, not loop.
    let err = pagination
        .advance(&json(r#"{"next_cursor": "same"}"#), 50)
        .unwrap_err();
    assert!(matches!(
        err,
        OpenConnectorError::PaginationLoop { ref token } if token == "same"
    ));
}

fn page_number_with_total(per_page: u32) -> Pagination {
    Pagination::new(PaginationStrategy::PageNumber {
        page_param: "page",
        per_page_param: "count",
        per_page,
        total_pages_path: Some("$.paging.pages"),
        raw_page_size_path: None,
    })
    .unwrap()
}

#[test]
fn total_pages_termination_survives_short_and_empty_middle_pages() {
    // Providers that filter rows after paginating can legally return
    // short — even empty — non-final pages; with an authoritative page
    // count the scan must keep going until page >= pages.
    let mut pagination = page_number_with_total(2);
    let envelope = json(r#"{"paging": {"pages": 3}}"#);
    assert!(pagination.advance(&envelope, 2).unwrap(), "full page 1");
    assert!(
        pagination.advance(&envelope, 1).unwrap(),
        "short page 2 continues"
    );
    assert!(
        !pagination.advance(&envelope, 0).unwrap(),
        "page 3 is the last"
    );

    let mut pagination = page_number_with_total(2);
    assert!(
        pagination
            .advance(&json(r#"{"paging": {"pages": 2}}"#), 0)
            .unwrap(),
        "an empty non-final page continues"
    );

    // pages: 0 (empty collection) stops immediately.
    let mut pagination = page_number_with_total(2);
    assert!(
        !pagination
            .advance(&json(r#"{"paging": {"pages": 0}}"#), 0)
            .unwrap()
    );
}

#[test]
fn missing_or_non_numeric_totals_fail_the_scan() {
    // A declared total-pages location is a contract: silence or a wrong
    // kind must fail loudly, never fall back to the truncating
    // heuristic.
    let mut pagination = page_number_with_total(2);
    let err = pagination.advance(&json(r#"{"ok": true}"#), 2).unwrap_err();
    assert!(matches!(err, OpenConnectorError::RowPathNotFound { .. }));

    let mut pagination = page_number_with_total(2);
    let err = pagination
        .advance(&json(r#"{"paging": {"pages": "three"}}"#), 2)
        .unwrap_err();
    assert!(matches!(
        err,
        OpenConnectorError::PaginationTotalInvalid { ref found, page: 1, .. }
            if found == "a string"
    ));
}

#[test]
fn malformed_total_pages_path_fails_at_bind_time() {
    let strategy = PaginationStrategy::PageNumber {
        page_param: "page",
        per_page_param: "count",
        per_page: 2,
        total_pages_path: Some("not-a-path"),
        raw_page_size_path: None,
    };
    assert!(matches!(
        strategy.validate(),
        Err(OpenConnectorError::InvalidRowPath { .. })
    ));
    assert!(matches!(
        Pagination::new(strategy),
        Err(OpenConnectorError::InvalidRowPath { .. })
    ));
}

#[test]
fn single_page_injects_nothing_and_never_advances() {
    let mut pagination = Pagination::new(PaginationStrategy::SinglePage).unwrap();
    assert_eq!(pagination.page(), 1);

    let mut input = Vec::new();
    pagination.apply(&mut input);
    assert!(input.is_empty(), "no pagination inputs for a raw scan");

    // Even a "full-looking" page ends the scan: raw actions declare no
    // pagination contract, so there is nothing to advance.
    assert!(
        !pagination
            .advance(&json(r#"{"next_cursor": "c2"}"#), 100)
            .unwrap()
    );
    PaginationStrategy::SinglePage
        .validate()
        .expect("nothing to validate");
}

#[test]
fn distinct_cursors_keep_advancing() {
    let mut pagination = cursor();
    assert!(
        pagination
            .advance(&json(r#"{"next_cursor": "c2"}"#), 50)
            .unwrap()
    );
    assert!(
        pagination
            .advance(&json(r#"{"next_cursor": "c3"}"#), 50)
            .unwrap()
    );
    assert!(
        !pagination
            .advance(&json(r#"{"next_cursor": null}"#), 10)
            .unwrap()
    );
}

#[test]
fn applying_replaces_an_input_of_the_same_name() {
    let pagination = page_number(2);
    let mut input = vec![
        ("page".to_string(), Json::String("old".to_string())),
        ("query".to_string(), Json::String("kept".to_string())),
    ];
    pagination.apply(&mut input);
    assert_eq!(input.len(), 3);
    assert_eq!(get(&input, "page"), Some(&json("1")));
    assert_eq!(get(&input, "query"), Some(&json(r#""kept""#)));
}

#[test]
fn a_failed_step_leaves_the_page_as_it_was() {
    let mut pagination = cursor();
    assert!(pagination.advance(&json(r#"{"next_cursor": "c2"}"#), 50).unwrap());
    assert_eq!(pagination.page(), 2);
    assert!(pagination.advance(&json(r#"{"next_cursor": 7}"#), 50).is_err());
    assert_eq!(pagination.page(), 2);
    let mut input = Vec::new();
    pagination.apply(&mut input);
    assert_eq!(get(&input, "cursor"), Some(&json(r#""c2""#)));
}

#[test]
fn page_numbers_count_every_advance() {
    let mut pagination = page_number(1);
    for page in 1..30 {
        assert_eq!(pagination.page(), page);
        let mut input = Vec::new();
        pagination.apply(&mut input);
        assert_eq!(get(&input, "page"), Some(&Json::Number(Number::PosInt(page as u64))));
        assert!(pagination.advance(&Json::Null, 1).unwrap());
    }
}

#[test]
fn a_cursor_seen_two_pages_ago_is_a_loop_too() {
    let mut pagination = cursor();
    for token in ["a", "b", "c"] {
        let envelope = Json::Object(vec![(
            "next_cursor".to_string(),
            Json::String(token.to_string()),
        )]);
        assert!(pagination.advance(&envelope, 50).unwrap());
    }
    assert!(matches!(
        pagination.advance(&json(r#"{"next_cursor": "a"}"#), 50),
        Err(OpenConnectorError::PaginationLoop { ref token }) if token == "a"
    ));
}

#[test]
fn a_valid_strategy_can_start_a_scan() {
    assert!(cursor_strategy().validate().is_ok());
    assert!(Pagination::new(cursor_strategy()).is_ok());
}
