use skardi::decimal::{double_of_i64, double_of_u64, Decimal};
use skardi::json::{array, get_member, set_member, strings, Json, Number};
use skardi::json_text::{to_debug, to_text};
use skardi::open_connector::error::OpenConnectorError;
use skardi::open_connector::row_path::RowPath;
use skardi::order::{comes_before, sorted_once};
use skardi::text::{
    begins, chars_of, decimal_text, find_first, find_last, holds_text, join, lowered, parse_u64,
    split_chars, trimmed,
};

fn from_value(value: &serde_json::Value) -> Json {
    match value {
        serde_json::Value::Null => Json::Null,
        serde_json::Value::Bool(b) => Json::Bool(*b),
        serde_json::Value::Number(n) => Json::Number(match (n.as_u64(), n.as_i64()) {
            (Some(n), _) => Number::PosInt(n),
            (None, Some(n)) => Number::NegInt(n),
            (None, None) => Number::Double(Decimal::read(&n.to_string()).unwrap()),
        }),
        serde_json::Value::String(s) => Json::String(s.clone()),
        serde_json::Value::Array(items) => Json::Array(items.iter().map(from_value).collect()),
        serde_json::Value::Object(members) => Json::Object(
            members
                .iter()
                .map(|(key, value)| (key.clone(), from_value(value)))
                .collect(),
        ),
    }
}

/// A value from its JSON text.
fn json(text: &str) -> Json {
    from_value(&serde_json::from_str(text).unwrap())
}

#[test]
fn numbers_are_written_and_read_back() {
    for n in [0, 7, 10, 1234567890, u64::MAX] {
        assert_eq!(decimal_text(n), n.to_string());
        assert_eq!(parse_u64(&decimal_text(n)), Some(n));
    }
    for text in ["", "+", "-1", "1_0", " 1", "18446744073709551616", "0x1"] {
        assert_eq!(parse_u64(text), text.parse().ok(), "{text}");
    }
    assert_eq!(parse_u64("+0018"), Some(18));
}

#[test]
fn white_space_is_trimmed_as_unicode_has_it() {
    for text in ["  a b ", "\u{3000}x\u{a0}", "\u{200b}x", "\t\r\n", "", "x\u{85}"] {
        assert_eq!(trimmed(text), text.trim(), "{text:?}");
    }
}

#[test]
fn only_ascii_letters_are_lowered() {
    assert_eq!(lowered("AbZ-\u{c9}"), "abz-\u{c9}");
}

#[test]
fn characters_are_found() {
    let chars = chars_of("a=b=c");
    assert_eq!(find_first(&chars, '='), Some(1));
    assert_eq!(find_last(&chars, '='), Some(3));
    assert_eq!(find_first(&chars, 'x'), None);
    assert!(holds_text("abcabd", "abd") && !holds_text("abc", "abd") && holds_text("", ""));
    assert!(begins("abc", "ab") && begins("abc", "") && !begins("ab", "abc"));
}

#[test]
fn parts_are_joined_and_split() {
    let parts = ["a", "", "b c"].map(str::to_string).to_vec();
    let joined = join(&parts, ",");
    assert_eq!(joined, "a,,b c");
    assert_eq!(split_chars(&chars_of(&joined), 0, ','), parts);
    assert_eq!(split_chars(&chars_of(""), 0, ','), vec![""]);
    assert_eq!(split_chars(&chars_of("x.a.b"), 2, '.'), vec!["a", "b"]);
    assert_eq!(join(&vec![], ","), "");
}

#[test]
fn texts_are_ordered_by_their_characters() {
    assert!(comes_before("a", "ab") && comes_before("Z", "a") && !comes_before("b", "b"));
    assert!(comes_before("\u{ffff}", "\u{10000}"));
    let texts = ["b", "a", "", "b", "\u{e9}"].map(str::to_string).to_vec();
    assert_eq!(sorted_once(&texts), vec!["", "a", "b", "\u{e9}"]);
}

#[test]
fn doubles_keep_their_bits() {
    assert_eq!(Decimal::read("0.1").unwrap().bits(), 0.1f64.to_bits());
    assert_eq!(Decimal::read("-0").unwrap().bits(), (-0.0f64).to_bits());
    assert_eq!(Decimal::read("1e999").map(|d| d.bits()), None);
    assert!(Decimal::read("nan").is_none() && Decimal::read("inf").is_none());
    assert!(Decimal::read("").is_none());
    assert_eq!(double_of_u64(u64::MAX).bits(), (u64::MAX as f64).to_bits());
    assert_eq!(double_of_i64(i64::MIN).bits(), (i64::MIN as f64).to_bits());
    assert_eq!(double_of_i64(5).bits(), 5.0f64.to_bits());
    assert_eq!(Decimal::read("2.50").unwrap().as_text().parse::<f64>(), Ok(2.5));
}

#[test]
fn json_is_written_compactly_with_sorted_keys() {
    let value = json(r#"{"b": [1, -2, 0.5, 1e2], "a": {"q": "\"\n\u00e9"}, "n": null, "t": true}"#);
    assert_eq!(
        to_text(&value),
        "{\"a\":{\"q\":\"\\\"\\n\u{e9}\"},\"b\":[1,-2,0.5,100.0],\"n\":null,\"t\":true}"
    );
    assert_eq!(
        to_debug(&json(r#"[1, "x", null]"#)),
        r#"Array [Number(1), String("x"), Null]"#
    );
    assert_eq!(to_text(&Json::Number(Number::NegInt(3))), "3");
}

#[test]
fn of_two_members_with_one_key_the_later_counts() {
    let mut members = vec![
        ("k".to_string(), Json::Bool(false)),
        ("k".to_string(), Json::Bool(true)),
    ];
    assert_eq!(get_member(&members, "k"), Some(&Json::Bool(true)));
    assert_eq!(to_text(&Json::Object(members.clone())), r#"{"k":true}"#);
    set_member(&mut members, "k".to_string(), Json::Null);
    assert_eq!(get_member(&members, "k"), Some(&Json::Null));
    set_member(&mut members, "l".to_string(), Json::Null);
    assert_eq!(members.len(), 3);
    assert_eq!(get_member(&members, "m"), None);
}

#[test]
fn values_say_what_they_are() {
    assert_eq!(json("7").as_u64(), Some(7));
    assert_eq!(json("-7").as_u64(), None);
    assert_eq!(json("-7").as_i64(), Some(-7));
    assert_eq!(json("9223372036854775808").as_i64(), None);
    assert_eq!(Json::Number(Number::NegInt(7)).as_u64(), Some(7));
    assert_eq!(json("3").as_double().unwrap().bits(), 3.0f64.to_bits());
    assert!(json("true").as_double().is_none());
    assert_eq!(json("true").as_bool(), Some(true));
    assert_eq!(json(r#""s""#).as_str(), Some("s"));
    assert!(json("null").is_null());
    assert_eq!(json("[]").kind(), "array");
    assert_eq!(json("{}").described_kind(), "an object");
    let items = ["a", "b"].map(str::to_string).to_vec();
    assert_eq!(strings(&items), array(vec![json(r#""a""#), json(r#""b""#)]));
}

#[test]
fn paths_lead_to_values() {
    let page = json(r#"{"data": {"items": [1], "next": null}}"#);
    let path = RowPath::parse("$.data.items").ok().unwrap();
    assert_eq!(path.as_str(), "$.data.items");
    assert_eq!(path.extract(&page, 1).unwrap(), &json("[1]"));
    assert_eq!(path.rows(&page, 1).unwrap().len(), 1);
    let absent = RowPath::parse("$.data.more").ok().unwrap().extract(&page, 2).unwrap_err();
    assert!(matches!(
        absent,
        OpenConnectorError::RowPathNotFound { ref path, ref segment, page: 2 }
            if path == "$.data.more" && segment == "more"
    ));
    let blocked = RowPath::parse("$.data.items.x").ok().unwrap().extract(&page, 3).unwrap_err();
    assert!(matches!(
        blocked,
        OpenConnectorError::RowPathNotObject { ref segment, page: 3, ref found, .. }
            if segment == "x" && found == "an array"
    ));
    assert!(RowPath::parse("$.data.next").ok().unwrap().rows(&page, 1).is_err());
    for bad in ["", "data", "$", "$.", "$.a.", "$..a", "$a"] {
        match RowPath::parse(bad) {
            Err(OpenConnectorError::InvalidRowPath { path, .. }) => assert_eq!(path, bad),
            _ => panic!("{bad}"),
        }
    }
}

#[test]
fn errors_tell_what_happened() {
    assert_eq!(
        OpenConnectorError::EmptyGatewayUrl { name: "saas".to_string() }.message(),
        "Open Connector data source 'saas' requires a non-empty connection_string (the gateway URL, e.g. http://open-connector:3000)"
    );
    assert_eq!(
        OpenConnectorError::ZeroSafetyBound { field: "max_rows" }.message(),
        "Open Connector safety bound 'max_rows' must be greater than zero"
    );
    assert_eq!(
        OpenConnectorError::RetriesExhausted {
            operation: "execute".to_string(),
            attempts: 3,
            reason: "503".to_string(),
        }
        .message(),
        "Open Connector execute failed after 3 attempt(s); last error: 503"
    );
}
