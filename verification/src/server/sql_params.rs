//! Pipeline parameters as SQL literals, and their substitution into a query.
use vstd::prelude::*;

use crate::decimal;
use crate::json;
use crate::json::{get_member, Json, JsonView, Number, NumberView};
use crate::json_text;
use crate::text;
use crate::text::{chars_of, concat2, concat3, decimal_text, join, stands_at};

verus! {

/// A text with each single quote doubled.
pub open spec fn doubled(s: Seq<char>) -> Seq<char>
    decreases s.len(),
{
    if s.len() == 0 {
        Seq::empty()
    } else if s.last() == '\'' {
        doubled(s.drop_last()).push('\'').push('\'')
    } else {
        doubled(s.drop_last()).push(s.last())
    }
}

/// A text as an SQL string literal.
pub open spec fn quoted(s: Seq<char>) -> Seq<char> {
    "'"@ + doubled(s) + "'"@
}

/// A number in JSON.
pub open spec fn number_text(n: NumberView) -> Seq<char> {
    match n {
        NumberView::PosInt(n) => decimal::integer_text(n as int),
        NumberView::NegInt(n) => decimal::integer_text(n as int),
        NumberView::Double(_) => json_text::json_text(JsonView::Number(n)),
    }
}

/// A value as an SQL literal inside an array or a row: a nested value is given
/// by its JSON text.
pub open spec fn scalar_sql(v: JsonView) -> Seq<char> {
    match v {
        JsonView::Number(n) => number_text(n),
        JsonView::String(s) => quoted(s),
        JsonView::Bool(b) => if b {
            "true"@
        } else {
            "false"@
        },
        JsonView::Null => "NULL"@,
        _ => json_text::json_text(v),
    }
}

/// The literals of values in a row.
pub open spec fn scalars_sql(items: Seq<JsonView>) -> Seq<Seq<char>> {
    Seq::new(items.len(), |i: int| scalar_sql(items[i]))
}

/// Values as an array literal.
pub open spec fn array_sql(items: Seq<JsonView>) -> Seq<char> {
    "["@ + text::joined(scalars_sql(items), ", "@) + "]"@
}

/// One cell of a row: an array is an array literal, for vector columns.
pub open spec fn cell_sql(v: JsonView) -> Seq<char> {
    match v {
        JsonView::Array(items) => array_sql(items),
        _ => scalar_sql(v),
    }
}

/// The literals of the cells of a row.
pub open spec fn cells_sql(cells: Seq<JsonView>) -> Seq<Seq<char>> {
    Seq::new(cells.len(), |i: int| cell_sql(cells[i]))
}

/// A row of cells.
pub open spec fn row_sql(row: JsonView) -> Seq<char> {
    match row {
        JsonView::Array(cells) => "("@ + text::joined(cells_sql(cells), ", "@) + ")"@,
        _ => Seq::empty(),
    }
}

/// Rows one after the other.
pub open spec fn rows_sql(rows: Seq<JsonView>) -> Seq<char> {
    text::joined(Seq::new(rows.len(), |i: int| row_sql(rows[i])), ", "@)
}

/// Whether every item is an array.
pub open spec fn all_arrays(items: Seq<JsonView>) -> bool {
    forall|i: int| 0 <= i < items.len() ==> (#[trigger] items[i]) is Array
}

/// Whether some item is an array.
pub open spec fn some_array(items: Seq<JsonView>) -> bool {
    exists|i: int| 0 <= i < items.len() && (#[trigger] items[i]) is Array
}

/// Whether rows have cells, and all of them equally many.
pub open spec fn even_rows(rows: Seq<JsonView>) -> bool {
    &&& rows[0]->Array_0.len() > 0
    &&& forall|i: int|
        0 <= i < rows.len() ==> (#[trigger] rows[i])->Array_0.len() == rows[0]->Array_0.len()
}

/// A parameter as SQL, or why it cannot be used.
pub open spec fn param_sql(name: Seq<char>, value: JsonView) -> Result<Seq<char>, Seq<char>> {
    let unsupported = name + ": "@ + json_text::debug_text(value);
    match value {
        JsonView::Object(_) => Err(unsupported),
        JsonView::Array(items) => if items.len() == 0 {
            Err(
                name
                    + ": empty array — provide at least one row/element, or filter empty batches client-side"@,
            )
        } else if all_arrays(items) {
            if even_rows(items) {
                Ok(rows_sql(items))
            } else {
                Err(unsupported)
            }
        } else if some_array(items) {
            Err(unsupported)
        } else {
            Ok(array_sql(items))
        },
        _ => Ok(scalar_sql(value)),
    }
}

fn double_quotes(s: &str) -> (r: String)
    ensures
        r@ == doubled(s@),
{
    let chars = chars_of(s);
    let mut r = String::new();
    let mut i: usize = 0;
    assert(s@.take(0) =~= Seq::empty());
    while i < chars.len()
        invariant
            chars@ == s@,
            i <= chars@.len(),
            r@ == doubled(s@.take(i as int)),
        decreases chars@.len() - i,
    {
        assert(s@.take(i + 1).drop_last() =~= s@.take(i as int));
        let c = chars[i];
        if c == '\'' {
            r.push('\'');
            r.push('\'');
        } else {
            r.push(c);
        }
        i += 1;
    }
    assert(s@.take(i as int) =~= s@);
    r
}

fn quote(s: &str) -> (r: String)
    ensures
        r@ == quoted(s@),
{
    concat3("'", double_quotes(s).as_str(), "'")
}

fn number_sql(v: &Json, n: &Number) -> (r: String)
    requires
        v@ == JsonView::Number(n@),
    ensures
        r@ == number_text(n@),
{
    match n {
        Number::PosInt(n) => decimal_text(*n),
        Number::NegInt(n) => if *n >= 0 {
            decimal_text(*n as u64)
        } else {
            concat2("-", decimal_text((-(*n as i128)) as u64).as_str())
        },
        Number::Double(_) => json_text::to_text(v),
    }
}

/// A value as an SQL literal inside an array or a row.
pub fn scalar_to_sql(v: &Json) -> (r: String)
    ensures
        r@ == scalar_sql(v@),
{
    match v {
        Json::Number(n) => number_sql(v, n),
        Json::String(s) => quote(s.as_str()),
        Json::Bool(b) => if *b {
            "true".to_owned()
        } else {
            "false".to_owned()
        },
        Json::Null => "NULL".to_owned(),
        other => json_text::to_text(other),
    }
}

fn array_to_sql(items: &Vec<Json>) -> (r: String)
    ensures
        r@ == array_sql(json::views(items@)),
{
    let mut elements: Vec<String> = Vec::new();
    let mut i: usize = 0;
    while i < items.len()
        invariant
            i <= items@.len(),
            elements@.len() == i,
            forall|k: int| 0 <= k < i ==> (#[trigger] elements@[k])@ == scalar_sql(items@[k]@),
        decreases items@.len() - i,
    {
        elements.push(scalar_to_sql(&items[i]));
        i += 1;
    }
    assert(text::texts(elements@) =~= scalars_sql(json::views(items@)));
    concat3("[", join(&elements, ", ").as_str(), "]")
}

/// One cell of a row as SQL.
pub fn row_cell_to_sql(v: &Json) -> (r: String)
    ensures
        r@ == cell_sql(v@),
{
    match v {
        Json::Array(items) => {
            assert(v@->Array_0 =~= json::views(items@));
            array_to_sql(items)
        },
        _ => scalar_to_sql(v),
    }
}

fn row_to_sql(row: &Json) -> (r: String)
    ensures
        r@ == row_sql(row@),
{
    match row {
        Json::Array(cells) => {
            assert(row@->Array_0 =~= json::views(cells@));
            let mut rendered: Vec<String> = Vec::new();
            let mut i: usize = 0;
            while i < cells.len()
                invariant
                    i <= cells@.len(),
                    rendered@.len() == i,
                    forall|k: int|
                        0 <= k < i ==> (#[trigger] rendered@[k])@ == cell_sql(cells@[k]@),
                decreases cells@.len() - i,
            {
                rendered.push(row_cell_to_sql(&cells[i]));
                i += 1;
            }
            assert(text::texts(rendered@) =~= cells_sql(json::views(cells@)));
            concat3("(", join(&rendered, ", ").as_str(), ")")
        },
        _ => String::new(),
    }
}

fn rows_to_sql(rows: &Vec<Json>) -> (r: String)
    ensures
        r@ == rows_sql(json::views(rows@)),
{
    let mut rendered: Vec<String> = Vec::new();
    let mut i: usize = 0;
    while i < rows.len()
        invariant
            i <= rows@.len(),
            rendered@.len() == i,
            forall|k: int| 0 <= k < i ==> (#[trigger] rendered@[k])@ == row_sql(rows@[k]@),
        decreases rows@.len() - i,
    {
        rendered.push(row_to_sql(&rows[i]));
        i += 1;
    }
    assert(text::texts(rendered@) =~= Seq::new(
        json::views(rows@).len(),
        |k: int| row_sql(json::views(rows@)[k]),
    ));
    join(&rendered, ", ")
}

fn every_item_is_array(items: &Vec<Json>) -> (r: bool)
    ensures
        r == all_arrays(json::views(items@)),
{
    let mut i: usize = 0;
    while i < items.len()
        invariant
            i <= items@.len(),
            forall|k: int| 0 <= k < i ==> (#[trigger] json::views(items@)[k]) is Array,
        decreases items@.len() - i,
    {
        match &items[i] {
            Json::Array(_) => {},
            _ => {
                assert(!(json::views(items@)[i as int] is Array));
                return false;
            },
        }
        i += 1;
    }
    true
}

fn some_item_is_array(items: &Vec<Json>) -> (r: bool)
    ensures
        r == some_array(json::views(items@)),
{
    let mut i: usize = 0;
    while i < items.len()
        invariant
            i <= items@.len(),
            forall|k: int| 0 <= k < i ==> !((#[trigger] json::views(items@)[k]) is Array),
        decreases items@.len() - i,
    {
        match &items[i] {
            Json::Array(_) => {
                assert(json::views(items@)[i as int] is Array);
                return true;
            },
            _ => {},
        }
        i += 1;
    }
    false
}

fn width_of(row: &Json) -> (n: usize)
    requires
        row@ is Array,
    ensures
        n == row@->Array_0.len(),
{
    match row {
        Json::Array(cells) => cells.len(),
        _ => 0,
    }
}

fn rows_are_even(rows: &Vec<Json>) -> (r: bool)
    requires
        rows@.len() > 0,
        all_arrays(json::views(rows@)),
    ensures
        r == even_rows(json::views(rows@)),
{
    let ghost all = json::views(rows@);
    assert(all[0] is Array);
    let width: usize = width_of(&rows[0]);
    if width == 0 {
        return false;
    }
    let mut i: usize = 0;
    while i < rows.len()
        invariant
            all == json::views(rows@),
            all_arrays(all),
            rows@.len() > 0,
            width == all[0]->Array_0.len(),
            i <= rows@.len(),
            forall|k: int| 0 <= k < i ==> (#[trigger] all[k])->Array_0.len() == width,
        decreases rows@.len() - i,
    {
        assert(all[i as int] is Array);
        if width_of(&rows[i]) != width {
            assert(all[i as int]->Array_0.len() != width);
            return false;
        }
        i += 1;
    }
    true
}

/// A parameter as SQL, or why it cannot be used. A string is quoted; an array
/// of scalars is an array literal; an array of arrays is a list of rows, which
/// must be non-empty and of one width; objects and mixed arrays are refused.
pub fn param_to_sql(name: &str, value: &Json) -> (r: Result<String, String>)
    ensures
        match r {
            Ok(sql) => param_sql(name@, value@) == Ok::<_, Seq<char>>(sql@),
            Err(problem) => param_sql(name@, value@) == Err::<Seq<char>, _>(problem@),
        },
{
    match value {
        Json::Object(_) => Err(concat3(name, ": ", json_text::to_debug(value).as_str())),
        Json::Array(items) => {
            assert(value@->Array_0 =~= json::views(items@));
            if items.len() == 0 {
                return Err(
                    concat2(
                        name,
                        ": empty array — provide at least one row/element, or filter empty batches client-side",
                    ),
                );
            }
            if every_item_is_array(items) {
                if rows_are_even(items) {
                    Ok(rows_to_sql(items))
                } else {
                    Err(concat3(name, ": ", json_text::to_debug(value).as_str()))
                }
            } else if some_item_is_array(items) {
                Err(concat3(name, ": ", json_text::to_debug(value).as_str()))
            } else {
                Ok(array_to_sql(items))
            }
        },
        _ => Ok(scalar_to_sql(value)),
    }
}

/// How a query names a parameter.
pub open spec fn placeholder(name: Seq<char>) -> Seq<char> {
    "{"@ + name + "}"@
}

/// A parameter that can be used: how a query names it, and its literal.
pub struct Filling {
    pub placeholder: Seq<char>,
    pub literal: Seq<char>,
}

/// The expected parameters that are given and can be used, in order.
pub open spec fn fillings(expected: Seq<Seq<char>>, given: Map<Seq<char>, JsonView>) -> Seq<
    Filling,
>
    decreases expected.len(),
{
    if expected.len() == 0 {
        Seq::empty()
    } else {
        let earlier = fillings(expected.drop_last(), given);
        let name = expected.last();
        if given.contains_key(name) {
            match param_sql(name, given[name]) {
                Ok(literal) => earlier.push(Filling { placeholder: placeholder(name), literal }),
                Err(_) => earlier,
            }
        } else {
            earlier
        }
    }
}

/// The expected parameters that are not given, in order.
pub open spec fn missing(expected: Seq<Seq<char>>, given: Map<Seq<char>, JsonView>) -> Seq<
    Seq<char>,
>
    decreases expected.len(),
{
    if expected.len() == 0 {
        Seq::empty()
    } else if given.contains_key(expected.last()) {
        missing(expected.drop_last(), given)
    } else {
        missing(expected.drop_last(), given).push(expected.last())
    }
}

/// What is wrong with the expected parameters that are given and cannot be
/// used, in order.
pub open spec fn unsupported(expected: Seq<Seq<char>>, given: Map<Seq<char>, JsonView>) -> Seq<
    Seq<char>,
>
    decreases expected.len(),
{
    if expected.len() == 0 {
        Seq::empty()
    } else {
        let earlier = unsupported(expected.drop_last(), given);
        let name = expected.last();
        if given.contains_key(name) {
            match param_sql(name, given[name]) {
                Ok(_) => earlier,
                Err(problem) => earlier.push(problem),
            }
        } else {
            earlier
        }
    }
}

/// The first filling whose placeholder a text begins with.
pub open spec fn filling_at(s: Seq<char>, fillings: Seq<Filling>) -> Option<Filling>
    decreases fillings.len(),
{
    if fillings.len() == 0 {
        None
    } else {
        match filling_at(s, fillings.drop_last()) {
            Some(filling) => Some(filling),
            None => if fillings.last().placeholder.len() > 0 && text::occurs_at(
                s,
                fillings.last().placeholder,
                0,
            ) {
                Some(fillings.last())
            } else {
                None
            },
        }
    }
}

proof fn filling_is_one(s: Seq<char>, fillings: Seq<Filling>)
    ensures
        filling_at(s, fillings) matches Some(filling) ==> filling.placeholder.len() > 0
            && text::occurs_at(s, filling.placeholder, 0) && exists|i: int|
            0 <= i < fillings.len() && #[trigger] fillings[i] == filling,
        filling_at(s, fillings) is None ==> forall|i: int|
            0 <= i < fillings.len() && (#[trigger] fillings[i]).placeholder.len() > 0
                ==> !text::occurs_at(s, fillings[i].placeholder, 0),
    decreases fillings.len(),
{
    if fillings.len() > 0 {
        let earlier = fillings.drop_last();
        filling_is_one(s, earlier);
        match filling_at(s, earlier) {
            Some(filling) => {
                let i = choose|i: int| 0 <= i < earlier.len() && #[trigger] earlier[i] == filling;
                assert(fillings[i] == filling);
            },
            None => {
                assert(fillings[fillings.len() - 1] == fillings.last());
                assert forall|i: int|
                    0 <= i < fillings.len() && (#[trigger] fillings[i]).placeholder.len() > 0
                        && filling_at(s, fillings) is None implies !text::occurs_at(
                    s,
                    fillings[i].placeholder,
                    0,
                ) by {
                    if i < earlier.len() {
                        assert(earlier[i] == fillings[i]);
                    }
                }
            },
        }
    }
}

/// A text with each placeholder that stands in it filled, in one pass from the
/// front: what is filled in is not looked at again.
pub open spec fn filled(s: Seq<char>, fillings: Seq<Filling>) -> Seq<char>
    decreases s.len(),
    via filled_ends
{
    if s.len() == 0 {
        Seq::empty()
    } else {
        match filling_at(s, fillings) {
            Some(filling) => filling.literal + filled(
                s.skip(filling.placeholder.len() as int),
                fillings,
            ),
            None => seq![s[0]] + filled(s.skip(1), fillings),
        }
    }
}

#[via_fn]
proof fn filled_ends(s: Seq<char>, fillings: Seq<Filling>) {
    filling_is_one(s, fillings);
}

/// What a substitution leaves: the query, the parameters that were not given,
/// and what is wrong with those that cannot be used.
#[verifier::ext_equal]
pub struct SubstitutedView {
    pub sql: Seq<char>,
    pub missing: Seq<Seq<char>>,
    pub unsupported: Seq<Seq<char>>,
}

/// The substitution of expected parameters into a query: the placeholders of
/// the query are filled, those that a value brings in are not.
pub open spec fn substituted(
    sql: Seq<char>,
    expected: Seq<Seq<char>>,
    given: Map<Seq<char>, JsonView>,
) -> SubstitutedView {
    SubstitutedView {
        sql: filled(sql, fillings(expected, given)),
        missing: missing(expected, given),
        unsupported: unsupported(expected, given),
    }
}

/// The models of placeholders and literals in two rows.
spec fn filling_views(placeholders: Seq<String>, literals: Seq<String>) -> Seq<Filling> {
    Seq::new(
        placeholders.len(),
        |i: int| Filling { placeholder: placeholders[i]@, literal: literals[i]@ },
    )
}

proof fn occurs_behind(s: Seq<char>, part: Seq<char>, i: int)
    requires
        0 <= i <= s.len(),
    ensures
        text::occurs_at(s.skip(i), part, 0) == text::occurs_at(s, part, i),
{
    if i + part.len() <= s.len() {
        assert(s.skip(i).subrange(0, part.len() as int) =~= s.subrange(i, i + part.len()));
    }
}

fn find_filling(
    chars: &Vec<char>,
    at: usize,
    placeholders: &Vec<String>,
    literals: &Vec<String>,
) -> (r: Option<usize>)
    requires
        at <= chars@.len(),
        placeholders@.len() == literals@.len(),
    ensures
        match r {
            Some(i) => i < placeholders@.len() && filling_at(
                chars@.skip(at as int),
                filling_views(placeholders@, literals@),
            ) == Some(filling_views(placeholders@, literals@)[i as int]),
            None => filling_at(
                chars@.skip(at as int),
                filling_views(placeholders@, literals@),
            ) is None,
        },
{
    let ghost all = filling_views(placeholders@, literals@);
    let ghost rest = chars@.skip(at as int);
    let mut i: usize = 0;
    assert(all.take(0) =~= Seq::empty());
    while i < placeholders.len()
        invariant
            at <= chars@.len(),
            placeholders@.len() == literals@.len(),
            all == filling_views(placeholders@, literals@),
            rest == chars@.skip(at as int),
            i <= placeholders@.len(),
            filling_at(rest, all.take(i as int)) is None,
        decreases placeholders@.len() - i,
    {
        let wanted = chars_of(placeholders[i].as_str());
        proof {
            occurs_behind(chars@, wanted@, at as int);
            assert(all.take(i + 1).drop_last() =~= all.take(i as int));
            assert(all.take(i + 1).last() == all[i as int]);
        }
        if wanted.len() > 0 && stands_at(chars, &wanted, at) {
            proof {
                found_filling_stands(rest, all, i + 1);
            }
            return Some(i);
        }
        i += 1;
    }
    assert(all.take(i as int) =~= all);
    None
}

proof fn found_filling_stands(s: Seq<char>, fillings: Seq<Filling>, i: int)
    requires
        0 <= i <= fillings.len(),
        filling_at(s, fillings.take(i)) is Some,
    ensures
        filling_at(s, fillings) == filling_at(s, fillings.take(i)),
    decreases fillings.len(),
{
    if i == fillings.len() {
        assert(fillings.take(i) =~= fillings);
    } else {
        assert(fillings.drop_last().take(i) =~= fillings.take(i));
        found_filling_stands(s, fillings.drop_last(), i);
    }
}

fn fill(s: &str, placeholders: &Vec<String>, literals: &Vec<String>) -> (r: String)
    requires
        placeholders@.len() == literals@.len(),
    ensures
        r@ == filled(s@, filling_views(placeholders@, literals@)),
{
    let ghost all = filling_views(placeholders@, literals@);
    let chars = chars_of(s);
    let n: usize = chars.len();
    let mut r = String::new();
    let mut i: usize = 0;
    assert(s@.skip(0) =~= s@);
    assert(r@ + filled(s@, all) =~= filled(s@, all));
    while i < n
        invariant
            chars@ == s@,
            n == chars@.len(),
            placeholders@.len() == literals@.len(),
            all == filling_views(placeholders@, literals@),
            i <= n,
            r@ + filled(s@.skip(i as int), all) == filled(s@, all),
        decreases n - i,
    {
        let ghost rest = s@.skip(i as int);
        let ghost before = r@;
        proof {
            filling_is_one(rest, all);
            assert(rest[0] == s@[i as int]);
        }
        match find_filling(&chars, i, placeholders, literals) {
            Some(k) => {
                let wanted = chars_of(placeholders[k].as_str());
                assert(wanted@ == all[k as int].placeholder);
                assert(text::occurs_at(rest, wanted@, 0));
                r.append(literals[k].as_str());
                i += wanted.len();
                proof {
                    assert(rest.skip(wanted@.len() as int) =~= s@.skip(i as int));
                    assert(before + (literals@[k as int]@ + filled(s@.skip(i as int), all)) =~= r@
                        + filled(s@.skip(i as int), all));
                }
            },
            None => {
                r.push(chars[i]);
                i += 1;
                proof {
                    assert(rest.skip(1) =~= s@.skip(i as int));
                    assert(before + (seq![rest[0]] + filled(s@.skip(i as int), all)) =~= r@
                        + filled(s@.skip(i as int), all));
                }
            },
        }
    }
    assert(s@.skip(i as int) =~= Seq::empty());
    assert(r@ + filled(s@.skip(i as int), all) =~= r@);
    r
}

/// Substitutes the expected parameters into a query. Gives the names of those
/// that are missing and what is wrong with those that cannot be used; both are
/// empty on success.
pub fn substitute_sql_params(
    sql: &mut String,
    expected_params: &Vec<String>,
    parameters: &Vec<(String, Json)>,
) -> (r: (Vec<String>, Vec<String>))
    ensures
        ({
            let done = substituted(
                old(sql)@,
                text::texts(expected_params@),
                json::members_view(parameters@),
            );
            &&& final(sql)@ == done.sql
            &&& text::texts(r.0@) == done.missing
            &&& text::texts(r.1@) == done.unsupported
        }),
{
    let ghost expected = text::texts(expected_params@);
    let ghost given = json::members_view(parameters@);
    let mut placeholders: Vec<String> = Vec::new();
    let mut literals: Vec<String> = Vec::new();
    let mut lacking: Vec<String> = Vec::new();
    let mut refused: Vec<String> = Vec::new();
    let mut i: usize = 0;
    assert(expected.take(0) =~= Seq::empty());
    assert(filling_views(placeholders@, literals@) =~= Seq::empty());
    assert(text::texts(lacking@) =~= Seq::empty());
    assert(text::texts(refused@) =~= Seq::empty());
    while i < expected_params.len()
        invariant
            expected == text::texts(expected_params@),
            given == json::members_view(parameters@),
            i <= expected_params@.len(),
            placeholders@.len() == literals@.len(),
            filling_views(placeholders@, literals@) == fillings(expected.take(i as int), given),
            text::texts(lacking@) == missing(expected.take(i as int), given),
            text::texts(refused@) == unsupported(expected.take(i as int), given),
        decreases expected_params@.len() - i,
    {
        let name = expected_params[i].as_str();
        let ghost usable = filling_views(placeholders@, literals@);
        let ghost lacking_before = text::texts(lacking@);
        let ghost refused_before = text::texts(refused@);
        proof {
            assert(expected.take(i + 1).drop_last() =~= expected.take(i as int));
            assert(expected.take(i + 1).last() == name@);
        }
        match get_member(parameters, name) {
            Some(value) => match param_to_sql(name, value) {
                Ok(literal) => {
                    let ghost filling = Filling {
                        placeholder: placeholder(name@),
                        literal: literal@,
                    };
                    placeholders.push(concat3("{", name, "}"));
                    literals.push(literal);
                    assert(filling_views(placeholders@, literals@) =~= usable.push(filling));
                },
                Err(problem) => {
                    let ghost problem_text = problem@;
                    refused.push(problem);
                    assert(text::texts(refused@) =~= refused_before.push(problem_text));
                },
            },
            None => {
                lacking.push(expected_params[i].clone());
                assert(text::texts(lacking@) =~= lacking_before.push(name@));
            },
        }
        i += 1;
    }
    assert(expected.take(i as int) =~= expected);
    let next = fill(sql.as_str(), &placeholders, &literals);
    *sql = next;
    (lacking, refused)
}

/// Whether names stand by their length in bytes, longest first.
pub open spec fn longest_first_order(names: Seq<Seq<char>>) -> bool {
    forall|i: int, j: int|
        0 <= i < j < names.len() ==> vstd::utf8::encode_utf8(#[trigger] names[i]).len()
            >= vstd::utf8::encode_utf8(#[trigger] names[j]).len()
}

/// The names by their length in bytes, longest first, so that a name is not
/// taken for the beginning of a longer one.
pub fn longest_first(names: Vec<String>) -> (r: Vec<String>)
    ensures
        longest_first_order(text::texts(r@)),
        text::texts(r@).to_multiset() == text::texts(names@).to_multiset(),
{
    let ghost all = text::texts(names@);
    let mut sorted: Vec<String> = Vec::new();
    let mut i: usize = 0;
    proof {
        assert(all.take(0) =~= text::texts(sorted@));
    }
    while i < names.len()
        invariant
            all == text::texts(names@),
            i <= names@.len(),
            longest_first_order(text::texts(sorted@)),
            text::texts(sorted@).to_multiset() == all.take(i as int).to_multiset(),
        decreases names@.len() - i,
    {
        let ghost before = text::texts(sorted@);
        let bytes: usize = names[i].as_str().as_bytes().len();
        let mut at: usize = 0;
        while at < sorted.len() && sorted[at].as_str().as_bytes().len() >= bytes
            invariant
                before == text::texts(sorted@),
                at <= sorted@.len(),
                forall|k: int|
                    0 <= k < at ==> vstd::utf8::encode_utf8(#[trigger] before[k]).len() >= bytes,
            decreases sorted@.len() - at,
        {
            assert(before[at as int] == sorted@[at as int]@);
            at += 1;
        }
        proof {
            if at < sorted@.len() {
                assert(before[at as int] == sorted@[at as int]@);
            }
        }
        sorted.insert(at, names[i].clone());
        i += 1;
        proof {
            let now = text::texts(sorted@);
            let name = all[i - 1];
            assert(now =~= before.insert(at as int, name));
            assert forall|j: int, k: int| 0 <= j < k < now.len() implies vstd::utf8::encode_utf8(
                #[trigger] now[j],
            ).len() >= vstd::utf8::encode_utf8(#[trigger] now[k]).len() by {
                if k < at {
                    assert(now[j] == before[j] && now[k] == before[k]);
                } else if k == at {
                    assert(now[j] == before[j]);
                } else if j < at {
                    assert(now[j] == before[j] && now[k] == before[k - 1]);
                } else if j == at {
                    assert(now[k] == before[k - 1]);
                    if k - 1 > at {
                        assert(vstd::utf8::encode_utf8(before[at as int]).len()
                            >= vstd::utf8::encode_utf8(before[k - 1]).len());
                    }
                } else {
                    assert(now[j] == before[j - 1] && now[k] == before[k - 1]);
                }
            }
            before.to_multiset_ensures();
            all.take(i - 1).to_multiset_ensures();
            assert(now.to_multiset() =~= before.to_multiset().insert(name)) by {
                before.insert_ensures(at as int, name);
                vstd::seq_lib::to_multiset_insert(before, at as int, name);
            }
            assert(all.take(i as int) =~= all.take(i - 1).push(name));
        }
    }
    assert(all.take(i as int) =~= all);
    sorted
}

proof fn doubling_distributes(a: Seq<char>, b: Seq<char>)
    ensures
        doubled(a + b) == doubled(a) + doubled(b),
    decreases b.len(),
{
    if b.len() == 0 {
        assert(a + b =~= a);
        assert(doubled(a) + doubled(b) =~= doubled(a));
    } else {
        doubling_distributes(a, b.drop_last());
        assert((a + b).drop_last() =~= a + b.drop_last());
        assert((a + b).last() == b.last());
        assert(doubled(a + b) =~= doubled(a) + doubled(b));
    }
}

/// What an SQL reader takes from a text behind an opening quote: the value of
/// the literal, in which two quotes stand for one, and the text behind the
/// closing quote.
pub open spec fn read_literal(s: Seq<char>) -> Option<(Seq<char>, Seq<char>)>
    decreases s.len(),
{
    if s.len() == 0 {
        None
    } else if s[0] != '\'' {
        match read_literal(s.skip(1)) {
            Some((value, rest)) => Some((seq![s[0]] + value, rest)),
            None => None,
        }
    } else if s.len() > 1 && s[1] == '\'' {
        match read_literal(s.skip(2)) {
            Some((value, rest)) => Some((seq!['\''] + value, rest)),
            None => None,
        }
    } else {
        Some((Seq::empty(), s.skip(1)))
    }
}

/// A quoted text reads back as itself, and the literal ends at its closing
/// quote: nothing in the text can end it early. `behind` is what follows in
/// the query, which a quote must not begin.
pub proof fn quoted_text_reads_back(s: Seq<char>, behind: Seq<char>)
    requires
        behind.len() > 0 ==> behind[0] != '\'',
    ensures
        (quoted(s) + behind)[0] == '\'',
        read_literal((quoted(s) + behind).skip(1)) == Some((s, behind)),
{
    reveal_strlit("'");
    let tail = doubled(s) + seq!['\''] + behind;
    assert((quoted(s) + behind).skip(1) =~= tail);
    doubled_text_reads_back(s, behind);
}

proof fn doubled_text_reads_back(s: Seq<char>, behind: Seq<char>)
    requires
        behind.len() > 0 ==> behind[0] != '\'',
    ensures
        read_literal(doubled(s) + seq!['\''] + behind) == Some((s, behind)),
    decreases s.len(),
{
    let tail = doubled(s) + seq!['\''] + behind;
    if s.len() == 0 {
        assert(tail =~= seq!['\''] + behind);
        assert(tail.skip(1) =~= behind);
        assert(s =~= Seq::empty());
        assert(tail.len() > 1 ==> tail[1] == behind[0]);
    } else {
        let first = seq![s[0]];
        let rest = s.skip(1);
        assert(s =~= first + rest);
        doubling_distributes(first, rest);
        doubled_text_reads_back(rest, behind);
        assert(first.drop_last() =~= Seq::empty());
        let next = doubled(rest) + seq!['\''] + behind;
        if s[0] == '\'' {
            assert(doubled(first) =~= seq!['\'', '\'']) by {
                assert(doubled(first.drop_last()) =~= Seq::empty());
            }
            assert(tail =~= seq!['\'', '\''] + next);
            assert(tail.skip(2) =~= next);
        } else {
            assert(doubled(first) =~= first) by {
                assert(doubled(first.drop_last()) =~= Seq::empty());
            }
            assert(tail =~= first + next);
            assert(tail.skip(1) =~= next);
        }
    }
}

/// A query in which no placeholder stands is left as it is.
pub proof fn queries_without_placeholders_are_kept(s: Seq<char>, fillings: Seq<Filling>)
    requires
        forall|i: int|
            0 <= i < fillings.len() ==> !text::occurs(s, (#[trigger] fillings[i]).placeholder),
    ensures
        filled(s, fillings) == s,
    decreases s.len(),
{
    if s.len() > 0 {
        filling_is_one(s, fillings);
        assert forall|i: int| 0 <= i < fillings.len() implies !text::occurs(
            s.skip(1),
            (#[trigger] fillings[i]).placeholder,
        ) by {
            let part = fillings[i].placeholder;
            assert(!text::occurs(s, part));
            assert forall|k: int| !#[trigger] text::occurs_at(s.skip(1), part, k) by {
                if text::occurs_at(s.skip(1), part, k) {
                    assert(s.skip(1).subrange(k, k + part.len()) =~= s.subrange(
                        k + 1,
                        k + 1 + part.len(),
                    ));
                    assert(text::occurs_at(s, part, k + 1));
                }
            }
        }
        queries_without_placeholders_are_kept(s.skip(1), fillings);
        assert(seq![s[0]] + s.skip(1) =~= s);
    }
}

/// Whether a name has no braces.
pub open spec fn brace_free(name: Seq<char>) -> bool {
    !name.contains('{') && !name.contains('}')
}

/// At most one placeholder begins a text, so that a name which begins a longer
/// one cannot corrupt it.
pub proof fn placeholders_do_not_overlap(s: Seq<char>, name: Seq<char>, other: Seq<char>)
    requires
        brace_free(name),
        brace_free(other),
        text::occurs_at(s, placeholder(name), 0),
        text::occurs_at(s, placeholder(other), 0),
    ensures
        name == other,
{
    reveal_strlit("{");
    reveal_strlit("}");
    let a = placeholder(name);
    let b = placeholder(other);
    assert(a.len() == name.len() + 2 && b.len() == other.len() + 2);
    let front_a = s.subrange(0, a.len() as int);
    let front_b = s.subrange(0, b.len() as int);
    if name.len() < other.len() {
        let end = name.len() as int + 1;
        assert(front_a[end] == s[end] && a[end] == '}');
        assert(front_b[end] == s[end] && b[end] == other[end - 1]);
        assert(other.contains('}'));
    } else if other.len() < name.len() {
        let end = other.len() as int + 1;
        assert(front_b[end] == s[end] && b[end] == '}');
        assert(front_a[end] == s[end] && a[end] == name[end - 1]);
        assert(name.contains('}'));
    } else {
        assert forall|k: int| 0 <= k < name.len() implies name[k] == other[k] by {
            assert(front_a[k + 1] == s[k + 1] && a[k + 1] == name[k]);
            assert(front_b[k + 1] == s[k + 1] && b[k + 1] == other[k]);
        }
        assert(name =~= other);
    }
}

/// The filling of an expected parameter that is given and can be used.
spec fn filling_of(name: Seq<char>, given: Map<Seq<char>, JsonView>) -> Option<Filling> {
    if given.contains_key(name) {
        match param_sql(name, given[name]) {
            Ok(literal) => Some(Filling { placeholder: placeholder(name), literal }),
            Err(_) => None,
        }
    } else {
        None
    }
}

proof fn fillings_come_from_names(expected: Seq<Seq<char>>, given: Map<Seq<char>, JsonView>)
    ensures
        forall|i: int|
            0 <= i < fillings(expected, given).len() ==> exists|k: int|
                0 <= k < expected.len() && filling_of(#[trigger] expected[k], given) == Some(
                    #[trigger] fillings(expected, given)[i],
                ),
        forall|k: int|
            0 <= k < expected.len() && filling_of(#[trigger] expected[k], given) is Some
                ==> fillings(expected, given).contains(filling_of(expected[k], given)->0),
    decreases expected.len(),
{
    if expected.len() > 0 {
        let shorter = expected.drop_last();
        let earlier = fillings(shorter, given);
        let all = fillings(expected, given);
        fillings_come_from_names(shorter, given);
        assert forall|i: int| 0 <= i < all.len() implies exists|k: int|
            0 <= k < expected.len() && filling_of(#[trigger] expected[k], given) == Some(
                #[trigger] all[i],
            ) by {
            if i < earlier.len() {
                assert(all[i] == earlier[i]);
                let k = choose|k: int|
                    0 <= k < shorter.len() && filling_of(#[trigger] shorter[k], given) == Some(
                        earlier[i],
                    );
                assert(expected[k] == shorter[k]);
            } else {
                assert(filling_of(expected[expected.len() - 1], given) == Some(all[i]));
            }
        }
        assert forall|k: int|
            0 <= k < expected.len() && filling_of(#[trigger] expected[k], given)
                is Some implies all.contains(filling_of(expected[k], given)->0) by {
            let filling = filling_of(expected[k], given)->0;
            if k < shorter.len() {
                assert(shorter[k] == expected[k]);
                let i = choose|i: int| 0 <= i < earlier.len() && earlier[i] == filling;
                assert(all[i] == filling);
            } else {
                assert(all[all.len() - 1] == filling);
            }
        }
    }
}

proof fn one_filling_fits(
    s: Seq<char>,
    one: Seq<Seq<char>>,
    other: Seq<Seq<char>>,
    given: Map<Seq<char>, JsonView>,
)
    requires
        forall|i: int| 0 <= i < one.len() ==> brace_free(#[trigger] one[i]),
        forall|i: int| 0 <= i < other.len() ==> brace_free(#[trigger] other[i]),
        one.to_multiset() == other.to_multiset(),
    ensures
        filling_at(s, fillings(one, given)) is Some ==> filling_at(s, fillings(other, given))
            == filling_at(s, fillings(one, given)),
{
    let a = fillings(one, given);
    let b = fillings(other, given);
    filling_is_one(s, a);
    filling_is_one(s, b);
    fillings_come_from_names(one, given);
    fillings_come_from_names(other, given);
    if let Some(found) = filling_at(s, a) {
        let i = choose|i: int| 0 <= i < a.len() && #[trigger] a[i] == found;
        let k = choose|k: int|
            0 <= k < one.len() && filling_of(#[trigger] one[k], given) == Some(a[i]);
        let name = one[k];
        assert(one.contains(name));
        one.to_multiset_ensures();
        other.to_multiset_ensures();
        assert(other.to_multiset().count(name) > 0);
        assert(other.contains(name));
        let m = choose|m: int| 0 <= m < other.len() && other[m] == name;
        assert(filling_of(other[m], given) is Some);
        assert(b.contains(found));
        let n = choose|n: int| 0 <= n < b.len() && b[n] == found;
        assert(b[n].placeholder.len() > 0);
        match filling_at(s, b) {
            None => {},
            Some(second) => {
                let j = choose|j: int| 0 <= j < b.len() && #[trigger] b[j] == second;
                let q = choose|q: int|
                    0 <= q < other.len() && filling_of(#[trigger] other[q], given) == Some(b[j]);
                placeholders_do_not_overlap(s, name, other[q]);
            },
        }
    }
}

proof fn filling_ignores_the_order(
    s: Seq<char>,
    one: Seq<Seq<char>>,
    other: Seq<Seq<char>>,
    given: Map<Seq<char>, JsonView>,
)
    requires
        forall|i: int| 0 <= i < one.len() ==> brace_free(#[trigger] one[i]),
        forall|i: int| 0 <= i < other.len() ==> brace_free(#[trigger] other[i]),
        one.to_multiset() == other.to_multiset(),
    ensures
        filled(s, fillings(one, given)) == filled(s, fillings(other, given)),
    decreases s.len(),
{
    if s.len() > 0 {
        one_filling_fits(s, one, other, given);
        one_filling_fits(s, other, one, given);
        filling_is_one(s, fillings(one, given));
        match filling_at(s, fillings(one, given)) {
            Some(filling) => {
                filling_ignores_the_order(
                    s.skip(filling.placeholder.len() as int),
                    one,
                    other,
                    given,
                );
            },
            None => {
                filling_ignores_the_order(s.skip(1), one, other, given);
            },
        }
    }
}

proof fn problem_at(expected: Seq<Seq<char>>, given: Map<Seq<char>, JsonView>, at: int)
    requires
        0 <= at < expected.len(),
    ensures
        ({
            let name = expected[at];
            let fewer = expected.remove(at);
            &&& missing(expected, given).to_multiset() == if given.contains_key(name) {
                missing(fewer, given).to_multiset()
            } else {
                missing(fewer, given).to_multiset().insert(name)
            }
            &&& unsupported(expected, given).to_multiset() == if given.contains_key(name)
                && param_sql(name, given[name]) is Err {
                unsupported(fewer, given).to_multiset().insert(param_sql(name, given[name])->Err_0)
            } else {
                unsupported(fewer, given).to_multiset()
            }
        }),
    decreases expected.len(),
{
    let fewer = expected.remove(at);
    let shorter = expected.drop_last();
    missing(shorter, given).to_multiset_ensures();
    unsupported(shorter, given).to_multiset_ensures();
    if at == expected.len() - 1 {
        assert(fewer =~= shorter);
    } else {
        problem_at(shorter, given, at);
        let least = shorter.remove(at);
        assert(fewer.drop_last() =~= least);
        assert(fewer.last() == expected.last());
        assert(shorter[at] == expected[at]);
        missing(least, given).to_multiset_ensures();
        unsupported(least, given).to_multiset_ensures();
        assert(missing(expected, given).to_multiset() =~= if given.contains_key(expected[at]) {
            missing(fewer, given).to_multiset()
        } else {
            missing(fewer, given).to_multiset().insert(expected[at])
        });
        let name = expected[at];
        assert(unsupported(expected, given).to_multiset() =~= if given.contains_key(name)
            && param_sql(name, given[name]) is Err {
            unsupported(fewer, given).to_multiset().insert(param_sql(name, given[name])->Err_0)
        } else {
            unsupported(fewer, given).to_multiset()
        });
    }
}

proof fn problems_ignore_the_order(
    one: Seq<Seq<char>>,
    other: Seq<Seq<char>>,
    given: Map<Seq<char>, JsonView>,
)
    requires
        one.to_multiset() == other.to_multiset(),
    ensures
        missing(one, given).to_multiset() == missing(other, given).to_multiset(),
        unsupported(one, given).to_multiset() == unsupported(other, given).to_multiset(),
    decreases one.len(),
{
    one.to_multiset_ensures();
    other.to_multiset_ensures();
    assert(one.len() == other.len());
    if one.len() > 0 {
        let name = one.last();
        assert(one.contains(name));
        assert(other.to_multiset().count(name) > 0);
        assert(other.contains(name));
        let at = choose|k: int| 0 <= k < other.len() && other[k] == name;
        let fewer = other.remove(at);
        problem_at(one, given, one.len() - 1);
        problem_at(other, given, at);
        assert(one.remove(one.len() - 1) =~= one.drop_last());
        assert(one =~= one.drop_last().push(name));
        one.drop_last().to_multiset_ensures();
        assert(one.drop_last().to_multiset() =~= one.to_multiset().remove(name));
        assert(fewer.to_multiset() =~= other.to_multiset().remove(name));
        problems_ignore_the_order(one.drop_last(), fewer, given);
    }
}

/// The order in which parameters are expected does not change the query, nor
/// which of them are missing or cannot be used.
pub proof fn the_order_of_parameters_does_not_matter(
    sql: Seq<char>,
    one: Seq<Seq<char>>,
    other: Seq<Seq<char>>,
    given: Map<Seq<char>, JsonView>,
)
    requires
        forall|i: int| 0 <= i < one.len() ==> brace_free(#[trigger] one[i]),
        one.to_multiset() == other.to_multiset(),
    ensures
        substituted(sql, one, given).sql == substituted(sql, other, given).sql,
        substituted(sql, one, given).missing.to_multiset() == substituted(
            sql,
            other,
            given,
        ).missing.to_multiset(),
        substituted(sql, one, given).unsupported.to_multiset() == substituted(
            sql,
            other,
            given,
        ).unsupported.to_multiset(),
{
    one.to_multiset_ensures();
    other.to_multiset_ensures();
    assert forall|i: int| 0 <= i < other.len() implies brace_free(#[trigger] other[i]) by {
        assert(other.contains(other[i]));
        assert(one.to_multiset().count(other[i]) > 0);
        assert(one.contains(other[i]));
    }
    filling_ignores_the_order(sql, one, other, given);
    problems_ignore_the_order(one, other, given);
}

proof fn text_before_a_brace_is_kept(
    before: Seq<char>,
    behind: Seq<char>,
    expected: Seq<Seq<char>>,
    given: Map<Seq<char>, JsonView>,
)
    requires
        !before.contains('{'),
    ensures
        filled(before + behind, fillings(expected, given)) == before + filled(
            behind,
            fillings(expected, given),
        ),
    decreases before.len(),
{
    let all = fillings(expected, given);
    if before.len() == 0 {
        assert(before + behind =~= behind);
        assert(before + filled(behind, all) =~= filled(behind, all));
    } else {
        let s = before + behind;
        assert(s[0] == before[0] && before[0] != '{') by {
            assert(before.contains(before[0]));
        }
        fillings_come_from_names(expected, given);
        filling_is_one(s, all);
        if let Some(filling) = filling_at(s, all) {
            let i = choose|i: int| 0 <= i < all.len() && #[trigger] all[i] == filling;
            let k = choose|k: int|
                0 <= k < expected.len() && filling_of(#[trigger] expected[k], given) == Some(
                    all[i],
                );
            reveal_strlit("{");
            assert(filling.placeholder[0] == '{');
            assert(s.subrange(0, filling.placeholder.len() as int)[0] == s[0]);
        }
        assert(s.skip(1) =~= before.skip(1) + behind);
        assert forall|k: int| 0 <= k < before.skip(1).len() implies before.skip(1)[k] != '{' by {
            assert(before.contains(before[k + 1]));
        }
        text_before_a_brace_is_kept(before.skip(1), behind, expected, given);
        assert(seq![s[0]] + (before.skip(1) + filled(behind, all)) =~= before + filled(behind, all));
    }
}

proof fn placeholder_stands_in_front(name: Seq<char>, after: Seq<char>)
    ensures
        text::occurs_at(seq!['{'] + name + seq!['}'] + after, placeholder(name), 0),
        placeholder(name) == seq!['{'] + name + seq!['}'],
{
    reveal_strlit("{");
    reveal_strlit("}");
    assert(placeholder(name) =~= seq!['{'] + name + seq!['}']);
    let s = seq!['{'] + name + seq!['}'] + after;
    assert(s.subrange(0, placeholder(name).len() as int) =~= placeholder(name));
}

/// Where a query holds the placeholder of a parameter, the substituted query
/// holds what the parameter's value is written as, between what stood before
/// and behind: the text in front, without a brace in it, is kept, and what
/// stands behind is substituted on its own.
pub proof fn placeholders_become_their_literals(
    before: Seq<char>,
    name: Seq<char>,
    after: Seq<char>,
    expected: Seq<Seq<char>>,
    given: Map<Seq<char>, JsonView>,
)
    requires
        !before.contains('{'),
        forall|i: int| 0 <= i < expected.len() ==> brace_free(#[trigger] expected[i]),
        expected.contains(name),
        given.contains_key(name),
        param_sql(name, given[name]) is Ok,
    ensures
        substituted(before + (seq!['{'] + name + seq!['}'] + after), expected, given).sql == before
            + param_sql(name, given[name])->Ok_0 + substituted(after, expected, given).sql,
{
    let all = fillings(expected, given);
    let s = seq!['{'] + name + seq!['}'] + after;
    let literal = param_sql(name, given[name])->Ok_0;
    text_before_a_brace_is_kept(before, s, expected, given);
    placeholder_stands_in_front(name, after);
    fillings_come_from_names(expected, given);
    filling_is_one(s, all);
    let at = choose|at: int| 0 <= at < expected.len() && expected[at] == name;
    assert(filling_of(expected[at], given) is Some);
    let own = filling_of(name, given)->0;
    assert(all.contains(own));
    let n = choose|n: int| 0 <= n < all.len() && all[n] == own;
    assert(all[n].placeholder.len() > 0);
    assert(filling_at(s, all) is Some);
    let filling = filling_at(s, all)->0;
    let i = choose|i: int| 0 <= i < all.len() && #[trigger] all[i] == filling;
    let k = choose|k: int|
        0 <= k < expected.len() && filling_of(#[trigger] expected[k], given) == Some(all[i]);
    placeholders_do_not_overlap(s, name, expected[k]);
    assert(filling == own);
    assert(s.skip(placeholder(name).len() as int) =~= after);
    assert(filled(s, all) == literal + filled(after, all));
    assert(before + (literal + filled(after, all)) =~= before + literal + filled(after, all));
}

/// A placeholder that no expected parameter with a usable value goes by stays in
/// the query as it is.
pub proof fn other_placeholders_stay(
    before: Seq<char>,
    name: Seq<char>,
    after: Seq<char>,
    expected: Seq<Seq<char>>,
    given: Map<Seq<char>, JsonView>,
)
    requires
        !before.contains('{'),
        brace_free(name),
        forall|i: int| 0 <= i < expected.len() ==> brace_free(#[trigger] expected[i]),
        !expected.contains(name) || !given.contains_key(name) || param_sql(name, given[name]) is Err,
    ensures
        substituted(before + (seq!['{'] + name + seq!['}'] + after), expected, given).sql == before
            + (seq!['{'] + name + seq!['}']) + substituted(after, expected, given).sql,
{
    let all = fillings(expected, given);
    let s = seq!['{'] + name + seq!['}'] + after;
    text_before_a_brace_is_kept(before, s, expected, given);
    placeholder_stands_in_front(name, after);
    fillings_come_from_names(expected, given);
    filling_is_one(s, all);
    if let Some(filling) = filling_at(s, all) {
        let i = choose|i: int| 0 <= i < all.len() && #[trigger] all[i] == filling;
        let k = choose|k: int|
            0 <= k < expected.len() && filling_of(#[trigger] expected[k], given) == Some(all[i]);
        placeholders_do_not_overlap(s, name, expected[k]);
        assert(expected.contains(name));
    }
    let rest = name + seq!['}'];
    assert(s.skip(1) =~= rest + after);
    assert forall|k: int| 0 <= k < rest.len() implies rest[k] != '{' by {
        if k < name.len() {
            assert(name.contains(name[k]));
        }
    }
    text_before_a_brace_is_kept(rest, after, expected, given);
    assert(seq![s[0]] + (rest + filled(after, all)) =~= (seq!['{'] + name + seq!['}']) + filled(
        after,
        all,
    ));
    assert(before + ((seq!['{'] + name + seq!['}']) + filled(after, all)) =~= before + (seq!['{']
        + name + seq!['}']) + filled(after, all));
}

/// A query without any brace is kept as it is, whatever the parameters.
pub proof fn queries_without_braces_are_kept(
    sql: Seq<char>,
    expected: Seq<Seq<char>>,
    given: Map<Seq<char>, JsonView>,
)
    requires
        !sql.contains('{'),
    ensures
        substituted(sql, expected, given).sql == sql,
{
    text_before_a_brace_is_kept(sql, Seq::empty(), expected, given);
    assert(sql + Seq::<char>::empty() =~= sql);
}

} // verus!
