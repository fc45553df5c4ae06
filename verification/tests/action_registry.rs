use skardi::decimal::Decimal;
use skardi::json::{Json, Number};
use skardi::open_connector::action_registry::{
    check_discovered, fingerprint_schema, fingerprint_text, ids_to_discover, ActionMetadata,
    ActionRegistry, DiscoveredAction,
};
use skardi::open_connector::error::OpenConnectorError;

fn from_value(value: &serde_json::Value) -> Json {
    match value {
        serde_json::Value::Null => Json::Null,
        serde_json::Value::Bool(b) => Json::Bool(*b),
        serde_json::Value::Number(n) => Json::Number(match (n.as_u64(), n.as_i64()) {
            (Some(n), _) => Number::PosInt(n),
            (None, Some(n)) => Number::NegInt(n),
            (None, None) => Number::Double(Decimal::read(&n.to_string()).unwrap()),
        }),
        serde_json::Value::String(s) => Json::String(s.clone()),
        serde_json::Value::Array(items) => Json::Array(items.iter().map(from_value).collect()),
        serde_json::Value::Object(members) => Json::Object(
            members
                .iter()
                .map(|(key, value)| (key.clone(), from_value(value)))
                .collect(),
        ),
    }
}

/// A value from its JSON text.
fn json(text: &str) -> Json {
    from_value(&serde_json::from_str(text).unwrap())
}

fn discovered(
    output: &str,
    locally_executable: Option<bool>,
    read_only: Option<bool>,
) -> DiscoveredAction {
    DiscoveredAction {
        input_schema: Some(json("{}")),
        output_schema: Some(json(output)),
        locally_executable,
        read_only,
    }
}

#[test]
fn fingerprint_is_stable_across_key_order() {
    let a = json(r#"{
        "type": "object",
        "properties": {
            "id": {"type": "integer"},
            "title": {"type": "string"}
        }
    }"#);
    let b = json(r#"{
        "properties": {
            "title": {"type": "string"},
            "id": {"type": "integer"}
        },
        "type": "object"
    }"#);
    assert_eq!(fingerprint_schema(Some(&a)), fingerprint_schema(Some(&b)));
}

#[test]
fn fingerprint_changes_with_schema() {
    let a = json(r#"{"type": "object"}"#);
    let b = json(r#"{"type": "array"}"#);
    assert_ne!(fingerprint_schema(Some(&a)), fingerprint_schema(Some(&b)));
}

#[test]
fn fingerprint_distinguishes_missing_schema() {
    let a = json(r#"{"type": "object"}"#);
    assert_ne!(fingerprint_schema(None), fingerprint_schema(Some(&a)));
    assert_eq!(fingerprint_schema(None), fingerprint_schema(None));
}

#[test]
fn fingerprints_are_blake3_of_the_canonical_text() {
    assert_eq!(
        fingerprint_text(""),
        "af1349b9f5f9a1a6a0404dea36dcc9499bcb25c9adc112b7cc9a93cae41f3262"
    );
    assert_eq!(fingerprint_schema(None), fingerprint_text("null"));
    assert_eq!(
        fingerprint_schema(Some(&json(r#"{"b": 1, "a": [true]}"#))),
        fingerprint_text(r#"{"a":[true],"b":1}"#)
    );
}

#[test]
fn actions_are_discovered_once_and_in_order() {
    let ids = vec![
        "github.b".to_string(),
        "github.a".to_string(),
        "github.a".to_string(),
    ];
    assert_eq!(ids_to_discover(&ids), vec!["github.a", "github.b"]);
    assert!(ids_to_discover(&vec![]).is_empty());
}

#[test]
fn only_actions_that_say_they_run_here_are_taken() {
    let err = check_discovered("github.x", discovered("{}", Some(false), None)).unwrap_err();
    assert!(matches!(
        err,
        OpenConnectorError::ActionNotLocallyExecutable { ref action_id } if action_id == "github.x"
    ));
    let err = check_discovered("github.x", discovered("{}", None, Some(true))).unwrap_err();
    assert!(matches!(
        err,
        OpenConnectorError::ActionExecutabilityUnknown { ref action_id } if action_id == "github.x"
    ));
    assert!(check_discovered("github.x", discovered("{}", Some(true), None)).is_ok());
}

#[test]
fn metadata_is_what_was_discovered() {
    let meta = check_discovered("github.x", discovered(r#"{"type": "array"}"#, Some(true), None))
        .unwrap();
    assert_eq!(meta.action_id(), "github.x");
    assert_eq!(meta.input_schema(), Some(&json("{}")));
    assert_eq!(meta.output_schema(), Some(&json(r#"{"type": "array"}"#)));
    assert_eq!(meta.fingerprint().len(), 64);
    assert_eq!(
        meta.fingerprint(),
        fingerprint_schema(Some(&json(r#"{"type": "array"}"#)))
    );
    assert_eq!(meta.read_only(), None);
    let meta = ActionMetadata::from_discovered("github.x", discovered("{}", None, Some(true)));
    assert_eq!(meta.read_only(), Some(true));
}

#[test]
fn a_registry_is_loaded_whole_or_not_at_all() {
    let ok = |id: &str| (id.to_string(), Ok(discovered("{}", Some(true), None)));
    let registry = ActionRegistry::load(vec![ok("b"), ok("a")]).ok().unwrap();
    assert_eq!(registry.len(), 2);
    assert!(registry.get("a").is_some() && registry.get("b").is_some());
    let missing = (
        "c".to_string(),
        Err(OpenConnectorError::ActionNotFound { action_id: "c".to_string() }),
    );
    let refused = ("d".to_string(), Ok(discovered("{}", Some(false), None)));
    assert!(matches!(
        ActionRegistry::load(vec![ok("a"), missing, refused]),
        Err(OpenConnectorError::ActionNotFound { .. })
    ));
    let refused = ("d".to_string(), Ok(discovered("{}", Some(false), None)));
    assert!(matches!(
        ActionRegistry::load(vec![ok("a"), refused]),
        Err(OpenConnectorError::ActionNotLocallyExecutable { .. })
    ));
    assert!(ActionRegistry::load(vec![]).ok().unwrap().is_empty());
}

#[test]
fn the_registry_finds_actions_by_their_ids() {
    let empty = ActionRegistry::default();
    assert!(empty.is_empty());
    assert_eq!(empty.len(), 0);
    let registry = ActionRegistry::from_actions(vec![
        ActionMetadata::from_discovered("a", discovered("{}", Some(true), None)),
        ActionMetadata::from_discovered("b", discovered("[]", Some(true), Some(false))),
    ]);
    assert_eq!(registry.len(), 2);
    assert!(!registry.is_empty());
    assert_eq!(registry.get("b").unwrap().read_only(), Some(false));
    assert_eq!(registry.get("a").unwrap().action_id(), "a");
    assert!(registry.get("c").is_none());
}

/// Loads a registry from a gateway that says the same of every action.
fn load(
    ids: &[&str],
    answer: impl Fn(&str) -> Result<DiscoveredAction, OpenConnectorError>,
) -> (Result<ActionRegistry, OpenConnectorError>, usize) {
    let wanted = ids_to_discover(&ids.iter().map(|id| id.to_string()).collect());
    let asked = wanted.len();
    let found = wanted.into_iter().map(|id| (id.clone(), answer(&id))).collect();
    (ActionRegistry::load(found), asked)
}

#[test]
fn load_discovers_dedupes_and_registers_all() {
    let (registry, asked) = load(&["github.b", "github.a", "github.a"], |_| {
        Ok(discovered(r#"{"type": "object"}"#, Some(true), None))
    });
    let registry = registry.ok().expect("load");
    assert_eq!(registry.len(), 2);
    assert!(!registry.is_empty());
    assert!(registry.get("github.a").is_some());
    assert!(registry.get("github.b").is_some());
    assert_eq!(asked, 2, "duplicates are deduplicated");
}

#[test]
fn load_empty_allowlist_yields_empty_registry() {
    let (registry, asked) = load(&[], |_| panic!("no discovery calls at all"));
    let registry = registry.ok().expect("load empty");
    assert!(registry.is_empty());
    assert_eq!(registry.len(), 0);
    assert_eq!(asked, 0);
}

#[test]
fn load_rejects_non_executable_action() {
    let (registry, _) = load(&["github.x"], |_| Ok(discovered("{}", Some(false), None)));
    assert!(matches!(
        registry.err().unwrap(),
        OpenConnectorError::ActionNotLocallyExecutable { ref action_id }
            if action_id == "github.x"
    ));
}

#[test]
fn load_rejects_missing_executability_flag() {
    let (registry, _) = load(&["github.x"], |_| Ok(discovered("{}", None, None)));
    assert!(matches!(
        registry.err().unwrap(),
        OpenConnectorError::ActionExecutabilityUnknown { ref action_id }
            if action_id == "github.x"
    ));
}

#[test]
fn load_propagates_discovery_errors() {
    let (registry, _) = load(&["github.missing"], |id| {
        Err(OpenConnectorError::ActionNotFound { action_id: id.to_string() })
    });
    assert!(matches!(registry.err().unwrap(), OpenConnectorError::ActionNotFound { .. }));
}

#[test]
fn metadata_exposes_discovered_fields() {
    let (registry, _) =
        load(&["github.x"], |_| Ok(discovered(r#"{"type": "array"}"#, Some(true), None)));
    let registry = registry.ok().expect("load");
    let meta = registry.get("github.x").expect("present");
    assert_eq!(meta.action_id(), "github.x");
    assert_eq!(meta.output_schema(), Some(&json(r#"{"type": "array"}"#)));
    assert_eq!(meta.fingerprint().len(), 64, "BLAKE3 hash as hex");
    assert_eq!(meta.read_only(), None);
}

#[test]
fn metadata_carries_explicit_read_only_classification() {
    let (registry, _) = load(&["github.x"], |_| Ok(discovered("{}", Some(true), Some(true))));
    let registry = registry.ok().expect("load");
    assert_eq!(registry.get("github.x").unwrap().read_only(), Some(true));
}
