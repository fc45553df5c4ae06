//! JSON values and their mathematical model.
use vstd::prelude::*;

use crate::decimal;
use crate::decimal::Decimal;
use crate::text;
use crate::text::same_text;

verus! {

/// A JSON number: an integer that fits in 64 bits, or a finite double.
#[derive(Debug, PartialEq, Eq)]
pub enum Number {
    /// A non-negative integer.
    PosInt(u64),
    /// A signed integer, meant for the negative ones: a non-negative one is
    /// the same number as under [`Number::PosInt`].
    NegInt(i64),
    /// Any other number.
    Double(Decimal),
}

/// A JSON value. The members of an object are held in the order in which they
/// were added; of two members with one key the later one counts.
#[derive(Debug, PartialEq, Eq)]
pub enum Json {
    Null,
    Bool(bool),
    Number(Number),
    String(String),
    Array(Vec<Json>),
    Object(Vec<(String, Json)>),
}

/// The model of a [`Number`].
pub enum NumberView {
    PosInt(u64),
    NegInt(i64),
    /// A finite double, by its bits.
    Double(u64),
}

/// The model of a [`Json`] value: an object is a map from key to value.
pub enum JsonView {
    Null,
    Bool(bool),
    Number(NumberView),
    String(Seq<char>),
    Array(Seq<JsonView>),
    Object(Map<Seq<char>, JsonView>),
}

impl View for Number {
    type V = NumberView;

    open spec fn view(&self) -> NumberView {
        match self {
            Number::PosInt(n) => NumberView::PosInt(*n),
            Number::NegInt(n) => if *n < 0 {
                NumberView::NegInt(*n)
            } else {
                NumberView::PosInt(*n as u64)
            },
            Number::Double(double) => NumberView::Double(double@),
        }
    }
}

impl View for Json {
    type V = JsonView;

    open spec fn view(&self) -> JsonView {
        json_view(*self)
    }
}

/// The model of a value.
pub open spec fn json_view(j: Json) -> JsonView
    decreases j,
{
    match j {
        Json::Null => JsonView::Null,
        Json::Bool(b) => JsonView::Bool(b),
        Json::Number(n) => JsonView::Number(n@),
        Json::String(s) => JsonView::String(s@),
        Json::Array(items) => JsonView::Array(
            Seq::new(
                items@.len(),
                |i: int|
                    if 0 <= i < items@.len() {
                        json_view(items@[i])
                    } else {
                        JsonView::Null
                    },
            ),
        ),
        Json::Object(members) => JsonView::Object(members_view(members@)),
    }
}

/// The map that a row of members stands for.
pub open spec fn members_view(members: Seq<(String, Json)>) -> Map<Seq<char>, JsonView>
    decreases members,
{
    if members.len() == 0 {
        Map::empty()
    } else {
        members_view(members.drop_last()).insert(members.last().0@, json_view(members.last().1))
    }
}

/// Whether no two members share a key.
pub open spec fn keys_differ(members: Seq<(String, Json)>) -> bool {
    forall|i: int, j: int|
        0 <= i < j < members.len() ==> (#[trigger] members[i]).0@ != (#[trigger] members[j]).0@
}

/// Whether some member has a key and a value.
pub open spec fn holds_member(
    members: Seq<(String, Json)>,
    key: Seq<char>,
    value: JsonView,
) -> bool {
    exists|i: int|
        0 <= i < members.len() && (#[trigger] members[i]).0@ == key && json_view(members[i].1)
            == value
}

proof fn members_are_found(members: Seq<(String, Json)>, key: Seq<char>)
    requires
        keys_differ(members),
    ensures
        members_view(members).contains_key(key) ==> holds_member(
            members,
            key,
            members_view(members)[key],
        ),
        forall|i: int|
            0 <= i < members.len() && (#[trigger] members[i]).0@ == key ==> members_view(
                members,
            ).contains_key(key) && members_view(members)[key] == json_view(members[i].1),
    decreases members.len(),
{
    if members.len() > 0 {
        let shorter = members.drop_last();
        let last = members.len() - 1;
        members_are_found(shorter, key);
        if members[last].0@ == key {
            assert(members_view(members)[key] == json_view(members[last].1));
        } else if members_view(members).contains_key(key) {
            let value = members_view(shorter)[key];
            let i = choose|i: int|
                0 <= i < shorter.len() && (#[trigger] shorter[i]).0@ == key && json_view(
                    shorter[i].1,
                ) == value;
            assert(members[i] == shorter[i]);
        }
        assert forall|i: int|
            0 <= i < members.len() && (#[trigger] members[i]).0@ == key implies members_view(
            members,
        ).contains_key(key) && members_view(members)[key] == json_view(members[i].1) by {
            if i < last {
                assert(members[i] == shorter[i]);
                assert(members[i].0@ != members[last].0@);
            }
        }
    }
}

/// The order of an object's members does not matter: objects with the same
/// members are the same value, in whatever order each was written.
pub proof fn member_order_does_not_matter(a: Seq<(String, Json)>, b: Seq<(String, Json)>)
    requires
        keys_differ(a),
        keys_differ(b),
        forall|key: Seq<char>, value: JsonView|
            holds_member(a, key, value) == holds_member(b, key, value),
    ensures
        members_view(a) == members_view(b),
{
    let left = members_view(a);
    let right = members_view(b);
    assert forall|key: Seq<char>| #[trigger]
        left.dom().contains(key) == right.dom().contains(key) by {
        members_are_found(a, key);
        members_are_found(b, key);
        if left.contains_key(key) {
            assert(holds_member(b, key, left[key]));
        }
        if right.contains_key(key) {
            assert(holds_member(a, key, right[key]));
        }
    }
    assert forall|key: Seq<char>| #[trigger] left.dom().contains(key) implies left[key]
        == right[key] by {
        members_are_found(a, key);
        members_are_found(b, key);
        assert(holds_member(b, key, left[key]));
    }
    assert(left =~= right);
}

/// The models of the values in a row.
pub open spec fn views(items: Seq<Json>) -> Seq<JsonView> {
    Seq::new(items.len(), |i: int| json_view(items[i]))
}

/// An array of strings.
pub open spec fn string_array(items: Seq<Seq<char>>) -> JsonView {
    JsonView::Array(Seq::new(items.len(), |i: int| JsonView::String(items[i])))
}

/// An object without members.
pub open spec fn no_members() -> Map<Seq<char>, JsonView> {
    Map::empty()
}

/// A non-negative integer.
pub open spec fn integer(n: u64) -> JsonView {
    JsonView::Number(NumberView::PosInt(n))
}

impl JsonView {
    /// What the value says as a non-negative integer.
    pub open spec fn as_u64(self) -> Option<u64> {
        match self {
            JsonView::Number(NumberView::PosInt(n)) => Some(n),
            _ => None,
        }
    }

    /// What the value says as a signed integer.
    pub open spec fn as_i64(self) -> Option<i64> {
        match self {
            JsonView::Number(NumberView::PosInt(n)) => if n <= i64::MAX {
                Some(n as i64)
            } else {
                None
            },
            JsonView::Number(NumberView::NegInt(n)) => Some(n),
            _ => None,
        }
    }

    /// What the value says as a double, by its bits: an integer says the
    /// double nearest to it.
    pub open spec fn as_double(self) -> Option<u64> {
        match self {
            JsonView::Number(NumberView::PosInt(n)) => decimal::nearest_double(n as int),
            JsonView::Number(NumberView::NegInt(n)) => decimal::nearest_double(n as int),
            JsonView::Number(NumberView::Double(bits)) => Some(bits),
            _ => None,
        }
    }

    /// The bare name of the value's kind.
    pub open spec fn kind(self) -> Seq<char> {
        match self {
            JsonView::Null => "null"@,
            JsonView::Bool(_) => "boolean"@,
            JsonView::Number(_) => "number"@,
            JsonView::String(_) => "string"@,
            JsonView::Array(_) => "array"@,
            JsonView::Object(_) => "object"@,
        }
    }

    /// The name of the value's kind with its article.
    pub open spec fn described_kind(self) -> Seq<char> {
        match self {
            JsonView::Null => "null"@,
            JsonView::Bool(_) => "a boolean"@,
            JsonView::Number(_) => "a number"@,
            JsonView::String(_) => "a string"@,
            JsonView::Array(_) => "an array"@,
            JsonView::Object(_) => "an object"@,
        }
    }
}

/// Whether a text names a kind of JSON value.
pub open spec fn kind_name(found: Seq<char>) -> bool {
    ||| found == "null"@
    ||| found == "boolean"@
    ||| found == "number"@
    ||| found == "string"@
    ||| found == "array"@
    ||| found == "object"@
}

/// Whether a text names a kind of JSON value with its article.
pub open spec fn described_kind_name(found: Seq<char>) -> bool {
    ||| found == "null"@
    ||| found == "a boolean"@
    ||| found == "a number"@
    ||| found == "a string"@
    ||| found == "an array"@
    ||| found == "an object"@
}

proof fn later_members_hide(members: Seq<(String, Json)>, key: Seq<char>, i: int)
    requires
        0 <= i < members.len(),
        members[i].0@ == key,
        forall|j: int| i < j < members.len() ==> (#[trigger] members[j]).0@ != key,
    ensures
        members_view(members).contains_key(key),
        members_view(members)[key] == json_view(members[i].1),
    decreases members.len(),
{
    if i < members.len() - 1 {
        assert(members[members.len() - 1].0@ != key);
        later_members_hide(members.drop_last(), key, i);
    }
}

proof fn absent_members(members: Seq<(String, Json)>, key: Seq<char>)
    requires
        forall|j: int| 0 <= j < members.len() ==> (#[trigger] members[j]).0@ != key,
    ensures
        !members_view(members).contains_key(key),
    decreases members.len(),
{
    if members.len() > 0 {
        assert(members[members.len() - 1].0@ != key);
        absent_members(members.drop_last(), key);
    }
}

proof fn replaced_member(members: Seq<(String, Json)>, i: int, member: (String, Json))
    requires
        0 <= i < members.len(),
        members[i].0@ == member.0@,
        forall|j: int| i < j < members.len() ==> (#[trigger] members[j]).0@ != member.0@,
    ensures
        members_view(members.update(i, member)) == members_view(members).insert(
            member.0@,
            json_view(member.1),
        ),
    decreases members.len(),
{
    let changed = members.update(i, member);
    if i == members.len() - 1 {
        assert(changed.drop_last() =~= members.drop_last());
    } else {
        assert(members[members.len() - 1].0@ != member.0@);
        replaced_member(members.drop_last(), i, member);
        assert(changed.drop_last() =~= members.drop_last().update(i, member));
    }
    assert(members_view(changed) =~= members_view(members).insert(member.0@, json_view(member.1)));
}

/// The position of the member that counts for `key`.
fn find_member(members: &Vec<(String, Json)>, key: &str) -> (r: Option<usize>)
    ensures
        match r {
            Some(i) => {
                &&& i < members@.len()
                &&& members@[i as int].0@ == key@
                &&& forall|j: int| i < j < members@.len() ==> (#[trigger] members@[j]).0@ != key@
            },
            None => forall|j: int| 0 <= j < members@.len() ==> (#[trigger] members@[j]).0@ != key@,
        },
{
    let mut i: usize = members.len();
    while i > 0
        invariant
            i <= members@.len(),
            forall|j: int| i <= j < members@.len() ==> (#[trigger] members@[j]).0@ != key@,
        decreases i,
    {
        i -= 1;
        if same_text(members[i].0.as_str(), key) {
            return Some(i);
        }
    }
    None
}

/// The value under `key`, if there is one.
pub fn get_member<'a>(members: &'a Vec<(String, Json)>, key: &str) -> (r: Option<&'a Json>)
    ensures
        match r {
            Some(value) => members_view(members@).contains_key(key@) && members_view(members@)[key@]
                == value@,
            None => !members_view(members@).contains_key(key@),
        },
        r matches Some(value) ==> exists|i: int|
            0 <= i < members@.len() && (#[trigger] members@[i]).1 == *value,
{
    match find_member(members, key) {
        Some(i) => {
            proof {
                later_members_hide(members@, key@, i as int);
            }
            Some(&members[i].1)
        },
        None => {
            proof {
                absent_members(members@, key@);
            }
            None
        },
    }
}

/// Sets the value under `key`, replacing what was there.
pub fn set_member(members: &mut Vec<(String, Json)>, key: String, value: Json)
    ensures
        members_view(final(members)@) == members_view(old(members)@).insert(key@, value@),
{
    match find_member(members, key.as_str()) {
        Some(i) => {
            proof {
                replaced_member(members@, i as int, (key, value));
            }
            members[i] = (key, value);
        },
        None => {
            let ghost before = members@;
            members.push((key, value));
            assert(members@.drop_last() =~= before);
        },
    }
}

impl Clone for Number {
    fn clone(&self) -> (r: Self)
        ensures
            r@ == self@,
    {
        match self {
            Number::PosInt(n) => Number::PosInt(*n),
            Number::NegInt(n) => Number::NegInt(*n),
            Number::Double(double) => Number::Double(double.clone()),
        }
    }
}

fn copied(j: &Json) -> (r: Json)
    ensures
        r@ == j@,
    decreases j,
{
    match j {
        Json::Null => Json::Null,
        Json::Bool(b) => Json::Bool(*b),
        Json::Number(n) => Json::Number(n.clone()),
        Json::String(s) => Json::String(s.clone()),
        Json::Array(items) => {
            let mut out: Vec<Json> = Vec::new();
            let mut i: usize = 0;
            while i < items.len()
                invariant
                    j == Json::Array(*items),
                    i <= items@.len(),
                    out@.len() == i,
                    forall|k: int|
                        0 <= k < i ==> json_view(#[trigger] out@[k]) == json_view(items@[k]),
                decreases items@.len() - i,
            {
                assert(decreases_to!(j => j->Array_0));
                assert(decreases_to!(items => items@));
                assert(decreases_to!(items@ => items@[i as int]));
                out.push(copied(&items[i]));
                i += 1;
            }
            let r = Json::Array(out);
            assert(r@->Array_0 =~= j@->Array_0);
            r
        },
        Json::Object(members) => {
            let mut out: Vec<(String, Json)> = Vec::new();
            let mut i: usize = 0;
            while i < members.len()
                invariant
                    j == Json::Object(*members),
                    i <= members@.len(),
                    out@.len() == i,
                    members_view(out@) == members_view(members@.take(i as int)),
                decreases members@.len() - i,
            {
                let ghost before = out@;
                assert(decreases_to!(j => j->Object_0));
                assert(decreases_to!(members => members@));
                assert(decreases_to!(members@ => members@[i as int]));
                assert(decreases_to!(members@[i as int] => members@[i as int].1));
                out.push((members[i].0.clone(), copied(&members[i].1)));
                i += 1;
                assert(out@.drop_last() =~= before);
                assert(members@.take(i as int).drop_last() =~= members@.take(i - 1));
            }
            assert(members@.take(i as int) =~= members@);
            Json::Object(out)
        },
    }
}

impl Clone for Json {
    fn clone(&self) -> (r: Self)
        ensures
            r@ == self@,
    {
        copied(self)
    }
}

impl Json {
    /// Whether this is null.
    pub fn is_null(&self) -> (r: bool)
        ensures
            r == (self@ is Null),
    {
        matches!(self, Json::Null)
    }

    /// The boolean that this is.
    pub fn as_bool(&self) -> (r: Option<bool>)
        ensures
            r == (match self@ {
                JsonView::Bool(b) => Some(b),
                _ => None,
            }),
    {
        match self {
            Json::Bool(b) => Some(*b),
            _ => None,
        }
    }

    /// The non-negative integer that this is.
    pub fn as_u64(&self) -> (r: Option<u64>)
        ensures
            r == self@.as_u64(),
    {
        match self {
            Json::Number(Number::PosInt(n)) => Some(*n),
            Json::Number(Number::NegInt(n)) => if *n >= 0 {
                Some(*n as u64)
            } else {
                None
            },
            _ => None,
        }
    }

    /// The signed integer that this is.
    pub fn as_i64(&self) -> (r: Option<i64>)
        ensures
            r == self@.as_i64(),
    {
        match self {
            Json::Number(Number::PosInt(n)) => if *n <= i64::MAX as u64 {
                Some(*n as i64)
            } else {
                None
            },
            Json::Number(Number::NegInt(n)) => Some(*n),
            _ => None,
        }
    }

    /// The double that this is, or that is nearest to the integer that this is.
    pub fn as_double(&self) -> (r: Option<Decimal>)
        ensures
            r is Some <==> self@ is Number,
            r matches Some(double) ==> self@.as_double() == Some(double@),
    {
        match self {
            Json::Number(Number::PosInt(n)) => Some(decimal::double_of_u64(*n)),
            Json::Number(Number::NegInt(n)) => Some(decimal::double_of_i64(*n)),
            Json::Number(Number::Double(double)) => Some(double.clone()),
            _ => None,
        }
    }

    /// The text of a string.
    pub fn as_str(&self) -> (r: Option<&str>)
        ensures
            match r {
                Some(s) => self@ == JsonView::String(s@),
                None => !(self@ is String),
            },
    {
        match self {
            Json::String(s) => Some(s.as_str()),
            _ => None,
        }
    }

    /// The bare name of the value's kind, for messages.
    pub fn kind(&self) -> (r: &'static str)
        ensures
            r@ == self@.kind(),
    {
        match self {
            Json::Null => "null",
            Json::Bool(_) => "boolean",
            Json::Number(_) => "number",
            Json::String(_) => "string",
            Json::Array(_) => "array",
            Json::Object(_) => "object",
        }
    }

    /// The name of the value's kind with its article, for messages.
    pub fn described_kind(&self) -> (r: &'static str)
        ensures
            r@ == self@.described_kind(),
    {
        match self {
            Json::Null => "null",
            Json::Bool(_) => "a boolean",
            Json::Number(_) => "a number",
            Json::String(_) => "a string",
            Json::Array(_) => "an array",
            Json::Object(_) => "an object",
        }
    }
}

/// An array of values.
pub fn array(items: Vec<Json>) -> (r: Json)
    ensures
        r@ == JsonView::Array(views(items@)),
{
    let r = Json::Array(items);
    assert(r@->Array_0 =~= views(items@));
    r
}

/// An array of strings.
pub fn strings(items: &Vec<String>) -> (r: Json)
    ensures
        r@ == string_array(text::texts(items@)),
{
    let mut out: Vec<Json> = Vec::new();
    let mut i: usize = 0;
    while i < items.len()
        invariant
            i <= items@.len(),
            out@.len() == i,
            forall|k: int|
                0 <= k < i ==> json_view(#[trigger] out@[k]) == JsonView::String(items@[k]@),
        decreases items@.len() - i,
    {
        out.push(Json::String(items[i].clone()));
        i += 1;
    }
    let r = Json::Array(out);
    assert(r@->Array_0 =~= string_array(text::texts(items@))->Array_0);
    r
}

} // verus!
