//! JSON text: what `serde_json` writes for a value, and what it reads.
use vstd::prelude::*;

use crate::decimal;
use crate::json;
use crate::json::{Json, JsonView, Number, NumberView};

verus! {

/// A document of `serde_json`.
#[verifier::external_type_specification]
#[verifier::external_body]
pub struct ExValue(serde_json::Value);

/// What a document of `serde_json` holds.
pub uninterp spec fn document(value: serde_json::Value) -> JsonView;

/// The compact text of a value: what `serde_json::Value::to_string` gives.
pub uninterp spec fn json_text(value: JsonView) -> Seq<char>;

/// What the `Debug` of a document gives.
pub uninterp spec fn debug_text(value: JsonView) -> Seq<char>;

/// `serde_json::Value::from(())` is null.
#[verifier::external_body]
fn null_value() -> (v: serde_json::Value)
    ensures
        document(v) == JsonView::Null,
{
    serde_json::Value::from(())
}

/// `serde_json::Value::from(bool)` holds the boolean.
#[verifier::external_body]
fn bool_value(b: bool) -> (v: serde_json::Value)
    ensures
        document(v) == JsonView::Bool(b),
{
    serde_json::Value::from(b)
}

/// `serde_json::Value::from(u64)` holds a non-negative integer.
#[verifier::external_body]
fn u64_value(n: u64) -> (v: serde_json::Value)
    ensures
        document(v) == JsonView::Number(NumberView::PosInt(n)),
{
    serde_json::Value::from(n)
}

/// `serde_json::Value::from(i64)` holds a negative integer as one, and any
/// other as a non-negative integer.
#[verifier::external_body]
fn i64_value(n: i64) -> (v: serde_json::Value)
    ensures
        document(v) == JsonView::Number(
            if n < 0 {
                NumberView::NegInt(n)
            } else {
                NumberView::PosInt(n as u64)
            },
        ),
{
    serde_json::Value::from(n)
}

/// `serde_json::Number::from_f64` holds the finite double that `str::parse`
/// reads from the text.
#[verifier::external_body]
fn double_value(spelled: &str) -> (v: serde_json::Value)
    requires
        decimal::finite_double(spelled@) is Some,
    ensures
        document(v) == JsonView::Number(NumberView::Double(decimal::finite_double(spelled@)->0)),
{
    let number = spelled.parse().ok().and_then(serde_json::Number::from_f64);
    serde_json::Value::from(number)
}

/// `serde_json::Value::from(String)` holds the string.
#[verifier::external_body]
fn string_value(s: &str) -> (v: serde_json::Value)
    ensures
        document(v) == JsonView::String(s@),
{
    serde_json::Value::from(s)
}

/// `serde_json::Value::from(Vec<Value>)` holds the items in order.
#[verifier::external_body]
fn array_value(items: Vec<serde_json::Value>) -> (v: serde_json::Value)
    ensures
        document(v) == JsonView::Array(Seq::new(items@.len(), |i: int| document(items@[i]))),
{
    serde_json::Value::from(items)
}

/// The map that a row of keyed documents stands for: of two with one key the
/// later one counts.
pub open spec fn keyed(members: Seq<(String, serde_json::Value)>) -> Map<Seq<char>, JsonView>
    decreases members.len(),
{
    if members.len() == 0 {
        Map::empty()
    } else {
        keyed(members.drop_last()).insert(members.last().0@, document(members.last().1))
    }
}

/// Collecting pairs into a `serde_json::Map` inserts them one after the other.
#[verifier::external_body]
fn object_value(members: Vec<(String, serde_json::Value)>) -> (v: serde_json::Value)
    ensures
        document(v) == JsonView::Object(keyed(members@)),
{
    serde_json::Value::from(serde_json::Map::from_iter(members))
}

/// `serde_json::Value::to_string` gives the compact text of a document, with
/// the keys of each object in order.
#[verifier::external_body]
fn value_text(v: &serde_json::Value) -> (s: String)
    ensures
        s@ == json_text(document(*v)),
{
    v.to_string()
}

/// The `Debug` of `serde_json::Value` names the kind of each part.
#[verifier::external_body]
fn value_debug(v: &serde_json::Value) -> (s: String)
    ensures
        s@ == debug_text(document(*v)),
{
    format!("{v:?}")
}

proof fn keyed_matches(members: Seq<(String, Json)>, values: Seq<(String, serde_json::Value)>)
    requires
        members.len() == values.len(),
        forall|i: int|
            0 <= i < members.len() ==> (#[trigger] members[i]).0@ == values[i].0@ && document(
                values[i].1,
            ) == members[i].1@,
    ensures
        keyed(values) == json::members_view(members),
    decreases members.len(),
{
    if members.len() > 0 {
        let last = members.len() - 1;
        assert(members[last].0@ == values[last].0@);
        keyed_matches(members.drop_last(), values.drop_last());
    }
}

fn to_value(j: &Json) -> (v: serde_json::Value)
    ensures
        document(v) == j@,
    decreases j,
{
    match j {
        Json::Null => null_value(),
        Json::Bool(b) => bool_value(*b),
        Json::Number(Number::PosInt(n)) => u64_value(*n),
        Json::Number(Number::NegInt(n)) => i64_value(*n),
        Json::Number(Number::Double(double)) => double_value(double.as_text()),
        Json::String(s) => string_value(s.as_str()),
        Json::Array(items) => {
            let mut values: Vec<serde_json::Value> = Vec::new();
            let mut i: usize = 0;
            while i < items.len()
                invariant
                    j == Json::Array(*items),
                    i <= items@.len(),
                    values@.len() == i,
                    forall|k: int| 0 <= k < i ==> document(#[trigger] values@[k]) == items@[k]@,
                decreases items@.len() - i,
            {
                assert(decreases_to!(j => j->Array_0));
                assert(decreases_to!(items => items@));
                assert(decreases_to!(items@ => items@[i as int]));
                values.push(to_value(&items[i]));
                i += 1;
            }
            let v = array_value(values);
            assert(document(v)->Array_0 =~= j@->Array_0);
            v
        },
        Json::Object(members) => {
            let mut values: Vec<(String, serde_json::Value)> = Vec::new();
            let mut i: usize = 0;
            while i < members.len()
                invariant
                    j == Json::Object(*members),
                    i <= members@.len(),
                    values@.len() == i,
                    forall|k: int|
                        0 <= k < i ==> (#[trigger] members@[k]).0@ == values@[k].0@ && document(
                            values@[k].1,
                        ) == members@[k].1@,
                decreases members@.len() - i,
            {
                assert(decreases_to!(j => j->Object_0));
                assert(decreases_to!(members => members@));
                assert(decreases_to!(members@ => members@[i as int]));
                assert(decreases_to!(members@[i as int] => members@[i as int].1));
                values.push((members[i].0.clone(), to_value(&members[i].1)));
                i += 1;
            }
            proof {
                keyed_matches(members@, values@);
            }
            object_value(values)
        },
    }
}

/// The compact JSON text of a value.
pub fn to_text(j: &Json) -> (s: String)
    ensures
        s@ == json_text(j@),
{
    value_text(&to_value(j))
}

/// The document that `serde_json::from_slice` reads from bytes, where they hold
/// one.
pub uninterp spec fn read_document(bytes: Seq<u8>) -> Option<JsonView>;

/// Whether a text holds only printable ASCII characters that stand for
/// themselves between quotes.
pub open spec fn plain(text: Seq<char>) -> bool {
    forall|i: int|
        0 <= i < text.len() ==> ' ' <= #[trigger] text[i] <= '~' && text[i] != '"' && text[i] != '\\'
}

/// Whether a text holds only small letters.
pub open spec fn small_letters(text: Seq<char>) -> bool {
    forall|i: int| 0 <= i < text.len() ==> 'a' <= #[trigger] text[i] <= 'z'
}

/// The text of an object with one member, whose key and value stand for
/// themselves between quotes.
pub open spec fn one_member(key: Seq<char>, value: Seq<char>) -> Seq<char> {
    "{\""@ + key + "\":\""@ + value + "\"}"@
}

/// `serde_json::from_slice` reads a document. From an object whose one member
/// is a text that needs no escape it reads that member.
#[verifier::external_body]
pub(crate) fn parse_document(bytes: &[u8]) -> (r: Option<serde_json::Value>)
    ensures
        match r {
            Some(v) => read_document(bytes@) == Some(document(v)),
            None => read_document(bytes@) is None,
        },
        forall|key: Seq<char>, value: Seq<char>|
            bytes@ == vstd::utf8::encode_utf8(#[trigger] one_member(key, value)) && small_letters(
                key,
            ) && plain(value) ==> r is Some && document(r->0) == JsonView::Object(
                Map::empty().insert(key, JsonView::String(value)),
            ),
{
    serde_json::from_slice(bytes).ok()
}

/// `serde_json::Value::get` gives the value under a key of an object, and
/// nothing of any other document.
#[verifier::external_body]
pub(crate) fn member_of<'a>(v: &'a serde_json::Value, key: &str) -> (r: Option<
    &'a serde_json::Value,
>)
    ensures
        match r {
            Some(value) => document(*v) is Object && document(*v)->Object_0.contains_key(key@)
                && document(*value) == document(*v)->Object_0[key@],
            None => !(document(*v) is Object && document(*v)->Object_0.contains_key(key@)),
        },
{
    v.get(key)
}

/// `serde_json::Value::as_str` gives the text of a string, and nothing of any
/// other document.
#[verifier::external_body]
pub(crate) fn string_of(v: &serde_json::Value) -> (r: Option<String>)
    ensures
        match r {
            Some(s) => document(*v) == JsonView::String(s@),
            None => !(document(*v) is String),
        },
{
    v.as_str().map(str::to_owned)
}

/// A value as it is shown to developers.
pub fn to_debug(j: &Json) -> (s: String)
    ensures
        s@ == debug_text(j@),
{
    value_debug(&to_value(j))
}

} // verus!
