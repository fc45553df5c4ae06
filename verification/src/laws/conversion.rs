//! What the cells of converted rows hold.
use vstd::prelude::*;

use crate::decimal;
use crate::json::{JsonView, NumberView};
use crate::json_text;
use crate::laws::paths;
use crate::open_connector::arrow_batch;
use crate::open_connector::arrow_batch::{ColumnKind, ColumnView};
use crate::open_connector::error::ErrorView;
use crate::open_connector::json_to_arrow;
use crate::open_connector::json_to_arrow::{CellView, FieldTypeView, SpecView};
use crate::open_connector::row_path;
use crate::open_connector::row_path::Walked;
use crate::text;

verus! {

/// The JSON number of an integer.
pub open spec fn json_integer(n: int) -> JsonView {
    if n < 0 {
        JsonView::Number(NumberView::NegInt(n as i64))
    } else {
        JsonView::Number(NumberView::PosInt(n as u64))
    }
}

/// The cell of a column in a row.
pub open spec fn cell_at(column: ColumnView, k: int) -> Option<CellView> {
    match column {
        ColumnView::Boolean(cells) => match cells[k] {
            Some(b) => Some(CellView::Boolean(b)),
            None => None,
        },
        ColumnView::Int64(cells) => match cells[k] {
            Some(n) => Some(CellView::Int64(n)),
            None => None,
        },
        ColumnView::UInt64(cells) => match cells[k] {
            Some(n) => Some(CellView::UInt64(n)),
            None => None,
        },
        ColumnView::Float64(cells) => match cells[k] {
            Some(bits) => Some(CellView::Float64(bits)),
            None => None,
        },
        ColumnView::Utf8(cells) => match cells[k] {
            Some(s) => Some(CellView::Utf8(s)),
            None => None,
        },
        ColumnView::TimestampMillis(cells) => match cells[k] {
            Some(n) => Some(CellView::TimestampMillis(n)),
            None => None,
        },
        ColumnView::Utf8List(cells) => match cells[k] {
            Some(items) => Some(CellView::Utf8List(items)),
            None => None,
        },
    }
}

/// A boolean converts to itself and nothing else converts to a boolean.
pub proof fn booleans_stay_themselves(b: bool, value: JsonView)
    ensures
        json_to_arrow::converted(FieldTypeView::Boolean, JsonView::Bool(b)) == Ok::<_, Seq<char>>(
            CellView::Boolean(b),
        ),
        json_to_arrow::converted(FieldTypeView::Boolean, value) is Ok <==> value is Bool,
{
}

/// An integer converts to itself where the column's type can hold it, and fails
/// elsewhere; what is no integer fails.
pub proof fn integers_keep_their_value(n: int, value: JsonView)
    requires
        i64::MIN <= n <= u64::MAX,
    ensures
        n <= i64::MAX ==> json_to_arrow::converted(FieldTypeView::Int64, json_integer(n)) == Ok::<
            _,
            Seq<char>,
        >(CellView::Int64(n as i64)),
        n > i64::MAX ==> json_to_arrow::converted(FieldTypeView::Int64, json_integer(n)) == Err::<
            CellView,
            _,
        >("number"@),
        n >= 0 ==> json_to_arrow::converted(FieldTypeView::UInt64, json_integer(n)) == Ok::<
            _,
            Seq<char>,
        >(CellView::UInt64(n as u64)),
        n < 0 ==> json_to_arrow::converted(FieldTypeView::UInt64, json_integer(n)) == Err::<
            CellView,
            _,
        >("number"@),
        !(value is Number) || value->Number_0 is Double ==> json_to_arrow::converted(
            FieldTypeView::Int64,
            value,
        ) is Err && json_to_arrow::converted(FieldTypeView::UInt64, value) is Err,
{
}

/// A double keeps its bits in a column of doubles; an integer becomes the
/// double that its digits are read as; what is no number fails.
pub proof fn doubles_keep_their_bits(bits: u64, n: int, value: JsonView)
    requires
        i64::MIN <= n <= u64::MAX,
    ensures
        json_to_arrow::converted(
            FieldTypeView::Float64,
            JsonView::Number(NumberView::Double(bits)),
        ) == Ok::<_, Seq<char>>(CellView::Float64(bits)),
        match decimal::finite_double(
            if n < 0 {
                seq!['-'] + text::decimal((-n) as nat)
            } else {
                text::decimal(n as nat)
            },
        ) {
            Some(nearest) => json_to_arrow::converted(FieldTypeView::Float64, json_integer(n))
                == Ok::<_, Seq<char>>(CellView::Float64(nearest)),
            None => json_to_arrow::converted(FieldTypeView::Float64, json_integer(n)) == Err::<
                CellView,
                _,
            >("number"@),
        },
        !(value is Number) ==> json_to_arrow::converted(FieldTypeView::Float64, value) is Err,
{
    reveal_strlit("-");
    assert("-"@ =~= seq!['-']);
}

/// A text converts to itself in a column of texts, and only texts do. In a
/// column of JSON every value converts to the text that it is written as.
pub proof fn texts_stay_themselves(s: Seq<char>, value: JsonView)
    ensures
        json_to_arrow::converted(FieldTypeView::Utf8, JsonView::String(s)) == Ok::<_, Seq<char>>(
            CellView::Utf8(s),
        ),
        json_to_arrow::converted(FieldTypeView::Utf8, value) is Ok <==> value is String,
        json_to_arrow::converted(FieldTypeView::Json, value) == Ok::<_, Seq<char>>(
            CellView::Utf8(json_text::json_text(value)),
        ),
{
}

/// An integer in a timestamp column counts milliseconds, and in a column of
/// seconds as many times a thousand of them, where those fit.
pub proof fn timestamps_count_their_unit(n: int)
    requires
        i64::MIN <= n <= u64::MAX,
    ensures
        n <= i64::MAX ==> json_to_arrow::converted(
            FieldTypeView::TimestampMillisUtc,
            json_integer(n),
        ) == Ok::<_, Seq<char>>(CellView::TimestampMillis(n as i64)),
        n > i64::MAX ==> json_to_arrow::converted(FieldTypeView::TimestampMillisUtc, json_integer(n))
            == Err::<CellView, _>("number"@),
        i64::MIN <= 1000 * n <= i64::MAX ==> json_to_arrow::converted(
            FieldTypeView::TimestampSecondsUtc,
            json_integer(n),
        ) == Ok::<_, Seq<char>>(CellView::TimestampMillis((1000 * n) as i64)),
        1000 * n < i64::MIN || 1000 * n > i64::MAX ==> json_to_arrow::converted(
            FieldTypeView::TimestampSecondsUtc,
            json_integer(n),
        ) is Err,
{
}

/// A text in a timestamp column is read as RFC 3339, and fails where that
/// cannot be read; in a column of seconds every text fails.
pub proof fn timestamp_texts_are_read(s: Seq<char>)
    ensures
        match json_to_arrow::rfc3339_millis(s) {
            Some(millis) => json_to_arrow::converted(
                FieldTypeView::TimestampMillisUtc,
                JsonView::String(s),
            ) == Ok::<_, Seq<char>>(CellView::TimestampMillis(millis)),
            None => json_to_arrow::converted(FieldTypeView::TimestampMillisUtc, JsonView::String(s))
                == Err::<CellView, _>("string"@),
        },
        json_to_arrow::converted(FieldTypeView::TimestampSecondsUtc, JsonView::String(s)) is Err,
{
}

/// In a column of digit strings the digits of a number give the number of
/// milliseconds, or a thousand times as many where they count seconds, if those
/// fit.
pub proof fn digits_count_their_unit(n: nat)
    ensures
        n <= i64::MAX ==> json_to_arrow::converted(
            FieldTypeView::TimestampMillisStringUtc,
            JsonView::String(text::decimal(n)),
        ) == Ok::<_, Seq<char>>(CellView::TimestampMillis(n as i64)),
        n > i64::MAX ==> json_to_arrow::converted(
            FieldTypeView::TimestampMillisStringUtc,
            JsonView::String(text::decimal(n)),
        ) is Err,
        1000 * n <= i64::MAX ==> json_to_arrow::converted(
            FieldTypeView::TimestampSecondsStringUtc,
            JsonView::String(text::decimal(n)),
        ) == Ok::<_, Seq<char>>(CellView::TimestampMillis((1000 * n) as i64)),
        1000 * n > i64::MAX ==> json_to_arrow::converted(
            FieldTypeView::TimestampSecondsStringUtc,
            JsonView::String(text::decimal(n)),
        ) is Err,
{
    text::decimal_reads_back(n);
}

/// Leading zeros do not change what a digit string counts, and a text that is
/// empty or holds anything but digits fails, as does what is no text.
pub proof fn digit_strings_are_digits(s: Seq<char>, value: JsonView)
    ensures
        json_to_arrow::converted(
            FieldTypeView::TimestampMillisStringUtc,
            JsonView::String(s),
        ) is Ok && s.len() > 0 ==> json_to_arrow::converted(
            FieldTypeView::TimestampMillisStringUtc,
            JsonView::String(seq!['0'] + s),
        ) == json_to_arrow::converted(FieldTypeView::TimestampMillisStringUtc, JsonView::String(s)),
        json_to_arrow::converted(FieldTypeView::TimestampMillisStringUtc, JsonView::String(s)) is Ok
            ==> s.len() > 0 && forall|i: int| 0 <= i < s.len() ==> '0' <= #[trigger] s[i] <= '9',
        json_to_arrow::converted(FieldTypeView::TimestampSecondsStringUtc, JsonView::String(s)) is Ok
            ==> s.len() > 0 && forall|i: int| 0 <= i < s.len() ==> '0' <= #[trigger] s[i] <= '9',
        json_to_arrow::converted(FieldTypeView::TimestampMillisStringUtc, value) is Ok ==> value is String,
        json_to_arrow::converted(FieldTypeView::TimestampSecondsStringUtc, value) is Ok
            ==> value is String,
{
    if text::all_digits(s) {
        assert forall|i: int| 0 <= i < s.len() implies '0' <= #[trigger] s[i] <= '9' by {
            assert(text::is_digit(s[i]));
        }
    }
    if json_to_arrow::converted(FieldTypeView::TimestampMillisStringUtc, JsonView::String(s)) is Ok {
        a_leading_zero_adds_nothing(s);
        let longer = seq!['0'] + s;
        assert forall|i: int| 0 <= i < longer.len() implies text::is_digit(#[trigger] longer[i]) by {
            if i > 0 {
                assert(longer[i] == s[i - 1]);
            }
        }
    }
}

proof fn a_leading_zero_adds_nothing(s: Seq<char>)
    ensures
        text::digits_value(seq!['0'] + s) == text::digits_value(s),
    decreases s.len(),
{
    let longer = seq!['0'] + s;
    if s.len() == 0 {
        assert(longer =~= seq!['0']);
        assert(longer.drop_last() =~= Seq::empty());
        assert(text::digits_value(longer.drop_last()) == 0);
    } else {
        assert(longer.drop_last() =~= seq!['0'] + s.drop_last());
        a_leading_zero_adds_nothing(s.drop_last());
    }
}

/// Seconds are a thousand times milliseconds: a value that both columns of
/// integers, or both columns of digit strings, accept gives in the column of
/// seconds a thousand times the milliseconds of the other.
pub proof fn seconds_are_thousands_of_millis(value: JsonView)
    ensures
        (!(value is String) && json_to_arrow::converted(FieldTypeView::TimestampMillisUtc, value) is Ok
            && json_to_arrow::converted(FieldTypeView::TimestampSecondsUtc, value) is Ok) ==> (
        json_to_arrow::converted(FieldTypeView::TimestampSecondsUtc, value)->Ok_0->TimestampMillis_0
            == 1000 * json_to_arrow::converted(
            FieldTypeView::TimestampMillisUtc,
            value,
        )->Ok_0->TimestampMillis_0),
        json_to_arrow::converted(FieldTypeView::TimestampSecondsStringUtc, value) is Ok ==> (
        json_to_arrow::converted(FieldTypeView::TimestampMillisStringUtc, value) is Ok
            && json_to_arrow::converted(
            FieldTypeView::TimestampSecondsStringUtc,
            value,
        )->Ok_0->TimestampMillis_0 == 1000 * json_to_arrow::converted(
            FieldTypeView::TimestampMillisStringUtc,
            value,
        )->Ok_0->TimestampMillis_0),
{
}

/// What an item of a list column holds: the item itself, or where the column
/// plucks a key, what the item holds under it.
pub open spec fn plucked(pluck: Option<Seq<char>>, item: JsonView) -> Option<JsonView> {
    match (pluck, item) {
        (None, _) => Some(item),
        (Some(_), JsonView::Null) => Some(JsonView::Null),
        (Some(key), JsonView::Object(members)) => if members.contains_key(key) {
            Some(members[key])
        } else {
            None
        },
        _ => None,
    }
}

/// The field type of a column of lists.
pub open spec fn list_type(pluck: Option<Seq<char>>) -> FieldTypeView {
    match pluck {
        None => FieldTypeView::Utf8List,
        Some(key) => FieldTypeView::Utf8ListFromObjectKey(key),
    }
}

proof fn items_are_listed(pluck: Option<Seq<char>>, items: Seq<JsonView>)
    ensures
        match json_to_arrow::list_items(pluck, items) {
            Ok(texts) => texts.len() == items.len() && forall|i: int|
                0 <= i < items.len() ==> plucked(pluck, #[trigger] items[i]) == Some(
                    match texts[i] {
                        Some(s) => JsonView::String(s),
                        None => JsonView::Null,
                    },
                ),
            Err(_) => exists|i: int|
                0 <= i < items.len() && match plucked(pluck, #[trigger] items[i]) {
                    Some(JsonView::String(_)) => false,
                    Some(JsonView::Null) => false,
                    _ => true,
                },
        },
    decreases items.len(),
{
    if items.len() > 0 {
        let shorter = items.drop_last();
        items_are_listed(pluck, shorter);
        match json_to_arrow::list_items(pluck, items) {
            Ok(texts) => {
                assert forall|i: int| 0 <= i < items.len() implies plucked(
                    pluck,
                    #[trigger] items[i],
                ) == Some(
                    match texts[i] {
                        Some(s) => JsonView::String(s),
                        None => JsonView::Null,
                    },
                ) by {
                    if i < shorter.len() {
                        assert(shorter[i] == items[i]);
                    }
                }
            },
            Err(_) => {
                if json_to_arrow::list_items(pluck, shorter) is Err {
                    let i = choose|i: int|
                        0 <= i < shorter.len() && match plucked(pluck, #[trigger] shorter[i]) {
                            Some(JsonView::String(_)) => false,
                            Some(JsonView::Null) => false,
                            _ => true,
                        };
                    assert(items[i] == shorter[i]);
                } else {
                    assert(items[items.len() - 1] == items.last());
                }
            },
        }
    }
}

/// A list keeps its items one for one and in their order: texts as they are and
/// nulls as nulls, taken from under the column's key where it has one. It
/// converts exactly where every item holds a text or null.
pub proof fn lists_keep_their_items(pluck: Option<Seq<char>>, items: Seq<JsonView>)
    ensures
        json_to_arrow::converted(list_type(pluck), JsonView::Array(items)) is Ok <==> forall|i: int|
            0 <= i < items.len() ==> match plucked(pluck, #[trigger] items[i]) {
                Some(JsonView::String(_)) => true,
                Some(JsonView::Null) => true,
                _ => false,
            },
        json_to_arrow::converted(list_type(pluck), JsonView::Array(items)) matches Ok(cell) ==> (
        cell matches CellView::Utf8List(texts) && texts.len() == items.len() && forall|i: int|
            0 <= i < items.len() ==> plucked(pluck, #[trigger] items[i]) == Some(
                match texts[i] {
                    Some(s) => JsonView::String(s),
                    None => JsonView::Null,
                },
            )),
{
    items_are_listed(pluck, items);
}

/// Only arrays convert in a column of lists.
pub proof fn lists_are_arrays(pluck: Option<Seq<char>>, value: JsonView)
    ensures
        json_to_arrow::converted(list_type(pluck), value) is Ok ==> value is Array,
{
}

/// A value of the wrong kind is reported by its kind, in every column whose
/// type asks for one kind of value.
pub proof fn a_wrong_kind_is_reported(field_type: FieldTypeView, value: JsonView)
    requires
        match field_type {
            FieldTypeView::Boolean => !(value is Bool),
            FieldTypeView::Utf8
            | FieldTypeView::TimestampMillisStringUtc
            | FieldTypeView::TimestampSecondsStringUtc => !(value is String),
            FieldTypeView::Utf8List | FieldTypeView::Utf8ListFromObjectKey(_) => !(value is Array),
            FieldTypeView::Int64
            | FieldTypeView::UInt64
            | FieldTypeView::Float64
            | FieldTypeView::TimestampSecondsUtc => !(value is Number),
            FieldTypeView::TimestampMillisUtc => !(value is Number) && !(value is String),
            FieldTypeView::Json => false,
        },
    ensures
        json_to_arrow::converted(field_type, value) == Err::<CellView, _>(
            match value {
                JsonView::Null => "null"@,
                JsonView::Bool(_) => "boolean"@,
                JsonView::Number(_) => "number"@,
                JsonView::String(_) => "string"@,
                JsonView::Array(_) => "array"@,
                JsonView::Object(_) => "object"@,
            },
        ),
{
}

/// Whether a value is what a column accepts in a row: something that its type
/// converts, or where the column is nullable, null or nothing at all. A parent
/// that is null counts as nothing.
pub open spec fn acceptable(spec: SpecView, row: JsonView) -> bool {
    match row_path::walk(row, text::split_on(spec.path, '.')) {
        Walked::Found(JsonView::Null) => spec.nullable,
        Walked::Found(value) => json_to_arrow::converted(spec.field_type, value) is Ok,
        Walked::Missing(_) => spec.nullable,
        Walked::Blocked(_, found) => spec.nullable && found == "null"@,
    }
}

proof fn path_segments(spec: SpecView)
    ensures
        row_path::segments_of(json_to_arrow::row_path_of(spec)) == text::split_on(spec.path, '.'),
{
    reveal_strlit("$.");
    assert(json_to_arrow::row_path_of(spec).skip(2) =~= spec.path);
}

proof fn acceptable_step(spec: SpecView, row: JsonView)
    ensures
        acceptable(spec, row) <==> (json_to_arrow::located(spec, row) matches Ok(found)
            && json_to_arrow::cell_of(spec, found) is Ok),
{
    path_segments(spec);
}

/// Every cell of a conversion comes from its own row and is what its own column
/// makes of the value at the column's path: the value's conversion, or nothing
/// where the value is null or not there, which only a nullable column has.
pub proof fn every_cell_comes_from_its_row(
    specs: Seq<SpecView>,
    rows: Seq<JsonView>,
    page: usize,
    i: int,
    k: int,
)
    requires
        json_to_arrow::converted_columns(specs, rows, page) is Ok,
        0 <= i < specs.len(),
        0 <= k < rows.len(),
    ensures
        json_to_arrow::converted_columns(specs, rows, page)->Ok_0.len() == specs.len(),
        json_to_arrow::converted_columns(specs, rows, page)->Ok_0[i].len() == rows.len(),
        match row_path::walk(rows[k], text::split_on(specs[i].path, '.')) {
            Walked::Found(value) => if value is Null {
                &&& specs[i].nullable
                &&& cell_at(json_to_arrow::converted_columns(specs, rows, page)->Ok_0[i], k) is None
            } else {
                &&& json_to_arrow::converted(specs[i].field_type, value) is Ok
                &&& cell_at(json_to_arrow::converted_columns(specs, rows, page)->Ok_0[i], k) == Some(
                    json_to_arrow::converted(specs[i].field_type, value)->Ok_0,
                )
            },
            Walked::Missing(_) => {
                &&& specs[i].nullable
                &&& cell_at(json_to_arrow::converted_columns(specs, rows, page)->Ok_0[i], k) is None
            },
            Walked::Blocked(_, found) => {
                &&& specs[i].nullable
                &&& found == "null"@
                &&& cell_at(json_to_arrow::converted_columns(specs, rows, page)->Ok_0[i], k) is None
            },
        },
{
    json_to_arrow::columns_facts(specs, rows, page);
    let spec = specs[i];
    path_segments(spec);
    assert(json_to_arrow::converted_column(spec, rows, page) is Ok);
    let located = json_to_arrow::located_rows(spec, rows);
    json_to_arrow::collected_values(located);
    let found = json_to_arrow::collected(located)->Ok_0;
    let results = json_to_arrow::cells_of(spec, found);
    json_to_arrow::collected_values(results);
    let cells = json_to_arrow::collected(results)->Ok_0;
    assert(located[k] == Ok::<Option<JsonView>, Seq<char>>(found[k]));
    assert(results[k] == Ok::<Option<CellView>, Seq<char>>(cells[k]));
}

/// In a boolean column the cell of a row holds the boolean at the column's
/// path.
pub proof fn boolean_cells_hold_their_booleans(
    specs: Seq<SpecView>,
    rows: Seq<JsonView>,
    page: usize,
    i: int,
    k: int,
    keys: Seq<Seq<char>>,
    b: bool,
)
    requires
        json_to_arrow::converted_columns(specs, rows, page) is Ok,
        0 <= i < specs.len(),
        0 <= k < rows.len(),
        specs[i].field_type is Boolean,
        paths::writable(keys),
        specs[i].path == text::joined(keys, "."@),
        paths::leads(rows[k], keys, JsonView::Bool(b)),
    ensures
        json_to_arrow::converted_columns(specs, rows, page)->Ok_0[i] matches ColumnView::Boolean(
            cells,
        ) && cells.len() == rows.len() && cells[k] == Some(b),
{
    found_through_keys(specs[i], rows[k], keys, JsonView::Bool(b));
    every_cell_comes_from_its_row(specs, rows, page, i, k);
    json_to_arrow::columns_facts(specs, rows, page);
}

proof fn found_through_keys(
    spec: SpecView,
    row: JsonView,
    keys: Seq<Seq<char>>,
    target: JsonView,
)
    requires
        paths::writable(keys),
        spec.path == text::joined(keys, "."@),
        paths::leads(row, keys, target),
    ensures
        row_path::walk(row, text::split_on(spec.path, '.')) == Walked::Found(target),
{
    reveal_strlit(".");
    assert("."@ =~= seq!['.']);
    text::joining_is_undone(keys, '.');
    paths::paths_give_what_their_keys_lead_to(keys, row, target, 0);
    paths::paths_hold_their_keys(keys);
}

/// Whether a value stands for itself alone in a column of its type: a boolean, an
/// integer or a text, where a negative number is one below zero.
pub open spec fn plain_value(field_type: FieldTypeView, value: JsonView) -> bool {
    match field_type {
        FieldTypeView::Boolean => value is Bool,
        FieldTypeView::Int64 | FieldTypeView::UInt64 | FieldTypeView::TimestampSecondsUtc =>
            value matches JsonView::Number(NumberView::NegInt(n)) ==> n < 0,
        FieldTypeView::Utf8 => value is String,
        FieldTypeView::Utf8List => value is Array,
        _ => false,
    }
}

/// Different values give different cells: where a column of booleans, integers,
/// texts, lists of texts or seconds reads different values in two rows, of one
/// conversion or of two, its cells in those rows differ.
pub proof fn different_values_give_different_cells(
    field_type: FieldTypeView,
    value: JsonView,
    other: JsonView,
)
    requires
        plain_value(field_type, value),
        plain_value(field_type, other),
        json_to_arrow::converted(field_type, value) is Ok,
        json_to_arrow::converted(field_type, value) == json_to_arrow::converted(field_type, other),
    ensures
        value == other,
{
    match field_type {
        FieldTypeView::Utf8List => {
            items_are_listed(None, value->Array_0);
            items_are_listed(None, other->Array_0);
            let a = value->Array_0;
            let b = other->Array_0;
            assert forall|i: int| 0 <= i < a.len() implies a[i] == b[i] by {
                assert(plucked(None, a[i]) == plucked(None, b[i]));
            }
            assert(a =~= b);
        },
        _ => {},
    }
}

/// Rows whose values at a column's path differ give columns whose cells in those
/// rows differ.
pub proof fn different_rows_give_different_cells(
    specs: Seq<SpecView>,
    rows: Seq<JsonView>,
    others: Seq<JsonView>,
    page: usize,
    i: int,
    k: int,
    l: int,
    value: JsonView,
    other: JsonView,
)
    requires
        json_to_arrow::converted_columns(specs, rows, page) is Ok,
        json_to_arrow::converted_columns(specs, others, page) is Ok,
        0 <= i < specs.len(),
        0 <= k < rows.len(),
        0 <= l < others.len(),
        row_path::walk(rows[k], text::split_on(specs[i].path, '.')) == Walked::Found(value),
        row_path::walk(others[l], text::split_on(specs[i].path, '.')) == Walked::Found(other),
        plain_value(specs[i].field_type, value),
        plain_value(specs[i].field_type, other),
        !(value is Null),
        !(other is Null),
        value != other,
    ensures
        cell_at(json_to_arrow::converted_columns(specs, rows, page)->Ok_0[i], k) != cell_at(
            json_to_arrow::converted_columns(specs, others, page)->Ok_0[i],
            l,
        ),
{
    every_cell_comes_from_its_row(specs, rows, page, i, k);
    every_cell_comes_from_its_row(specs, others, page, i, l);
    if json_to_arrow::converted(specs[i].field_type, value) == json_to_arrow::converted(
        specs[i].field_type,
        other,
    ) {
        different_values_give_different_cells(specs[i].field_type, value, other);
    }
}

proof fn one_column_converts(spec: SpecView, rows: Seq<JsonView>, page: usize)
    requires
        rows.len() <= usize::MAX,
    ensures
        json_to_arrow::converted_column(spec, rows, page) is Ok <==> forall|k: int|
            0 <= k < rows.len() ==> acceptable(spec, #[trigger] rows[k]),
        json_to_arrow::converted_column(spec, rows, page) matches Err(e) ==> (
        e matches ErrorView::ConversionFailed { row, .. } && row < rows.len() && !acceptable(
            spec,
            rows[row as int],
        )),
{
    let located = json_to_arrow::located_rows(spec, rows);
    match json_to_arrow::collected(located) {
        Ok(found) => {
            json_to_arrow::collected_values(located);
            let results = json_to_arrow::cells_of(spec, found);
            match json_to_arrow::collected(results) {
                Ok(cells) => {
                    json_to_arrow::collected_values(results);
                    assert forall|k: int| 0 <= k < rows.len() implies acceptable(
                        spec,
                        #[trigger] rows[k],
                    ) by {
                        acceptable_step(spec, rows[k]);
                        assert(located[k] == Ok::<Option<JsonView>, Seq<char>>(found[k]));
                        assert(results[k] == Ok::<Option<CellView>, Seq<char>>(cells[k]));
                    }
                },
                Err((row, _)) => {
                    json_to_arrow::failed_at(results);
                    acceptable_step(spec, rows[row as int]);
                    assert(located[row as int] == Ok::<Option<JsonView>, Seq<char>>(
                        found[row as int],
                    ));
                },
            }
        },
        Err((row, _)) => {
            json_to_arrow::failed_at(located);
            acceptable_step(spec, rows[row as int]);
        },
    }
}

/// Rows convert exactly where every column accepts what it reads in every row.
/// A failure names a column that does not, its path and type, the page, and a
/// row that it does not accept; all columns before it accept all rows.
pub proof fn rows_convert_where_all_is_acceptable(
    specs: Seq<SpecView>,
    rows: Seq<JsonView>,
    page: usize,
)
    requires
        rows.len() <= usize::MAX,
    ensures
        json_to_arrow::converted_columns(specs, rows, page) is Ok <==> forall|i: int, k: int|
            0 <= i < specs.len() && 0 <= k < rows.len() ==> #[trigger] acceptable(
                specs[i],
                rows[k],
            ),
        json_to_arrow::converted_columns(specs, rows, page) matches Err(e) ==> exists|i: int|
            #![trigger specs[i]]
            0 <= i < specs.len() && (forall|j: int, k: int|
                0 <= j < i && 0 <= k < rows.len() ==> #[trigger] acceptable(specs[j], rows[k])) && (
            e matches ErrorView::ConversionFailed { path, column, page: at, row, expected, .. }
                && path == seq!['$', '.'] + specs[i].path && column == specs[i].name && at == page
                && expected == specs[i].field_type.label_text() && row < rows.len() && !acceptable(
                specs[i],
                rows[row as int],
            )),
    decreases specs.len(),
{
    reveal_strlit("$.");
    assert("$."@ =~= seq!['$', '.']);
    if specs.len() > 0 {
        let shorter = specs.drop_last();
        let last = specs.len() - 1;
        rows_convert_where_all_is_acceptable(shorter, rows, page);
        one_column_converts(specs.last(), rows, page);
        assert(specs[last] == specs.last());
        assert forall|j: int, k: int| 0 <= j < last && 0 <= k < rows.len() implies acceptable(
            specs[j],
            rows[k],
        ) == #[trigger] acceptable(shorter[j], rows[k]) by {
            assert(shorter[j] == specs[j]);
        }
        match json_to_arrow::converted_columns(shorter, rows, page) {
            Err(e) => {
                let i = choose|i: int|
                    #![trigger shorter[i]]
                    0 <= i < shorter.len() && (forall|j: int, k: int|
                        0 <= j < i && 0 <= k < rows.len() ==> #[trigger] acceptable(
                            shorter[j],
                            rows[k],
                        )) && (e matches ErrorView::ConversionFailed {
                        path,
                        column,
                        page: at,
                        row,
                        expected,
                        ..
                    } && path == seq!['$', '.'] + shorter[i].path && column == shorter[i].name && at
                        == page && expected == shorter[i].field_type.label_text() && row < rows.len()
                        && !acceptable(shorter[i], rows[row as int]));
                assert(shorter[i] == specs[i]);
                assert forall|j: int, k: int| 0 <= j < i && 0 <= k < rows.len() implies #[trigger] acceptable(
                    specs[j],
                    rows[k],
                ) by {
                    assert(acceptable(shorter[j], rows[k]));
                }
            },
            Ok(_) => {
                assert forall|j: int, k: int|
                    0 <= j < last && 0 <= k < rows.len() implies #[trigger] acceptable(
                    specs[j],
                    rows[k],
                ) by {
                    assert(acceptable(shorter[j], rows[k]));
                }
                if json_to_arrow::converted_column(specs.last(), rows, page) is Ok {
                    assert forall|i: int, k: int|
                        0 <= i < specs.len() && 0 <= k < rows.len() implies #[trigger] acceptable(
                        specs[i],
                        rows[k],
                    ) by {
                        if i == last {
                            assert(acceptable(specs.last(), rows[k]));
                        }
                    }
                }
            },
        }
    }
}

/// The schema of columns names them in their order, each as nullable as it is
/// declared and of the type that its cells have: booleans, integers, doubles,
/// texts, timestamps in milliseconds or lists of texts.
pub proof fn schemas_follow_declarations(specs: Seq<SpecView>, i: int)
    requires
        0 <= i < specs.len(),
    ensures
        json_to_arrow::fields_of(specs).len() == specs.len(),
        json_to_arrow::fields_of(specs)[i].name == specs[i].name,
        json_to_arrow::fields_of(specs)[i].nullable == specs[i].nullable,
        json_to_arrow::fields_of(specs)[i].kind == Some(
            match specs[i].field_type {
                FieldTypeView::Boolean => ColumnKind::Boolean,
                FieldTypeView::Int64 => ColumnKind::Int64,
                FieldTypeView::UInt64 => ColumnKind::UInt64,
                FieldTypeView::Float64 => ColumnKind::Float64,
                FieldTypeView::Utf8 => ColumnKind::Utf8,
                FieldTypeView::Json => ColumnKind::Utf8,
                FieldTypeView::TimestampMillisUtc => ColumnKind::TimestampMillisUtc,
                FieldTypeView::TimestampSecondsUtc => ColumnKind::TimestampMillisUtc,
                FieldTypeView::TimestampMillisStringUtc => ColumnKind::TimestampMillisUtc,
                FieldTypeView::TimestampSecondsStringUtc => ColumnKind::TimestampMillisUtc,
                FieldTypeView::Utf8List => ColumnKind::Utf8List,
                FieldTypeView::Utf8ListFromObjectKey(_) => ColumnKind::Utf8List,
            },
        ),
{
}

/// Column paths are keys from the row: a path that is written with keys is
/// accepted unless its first key is `$`, and nothing else is.
pub proof fn column_paths_are_keys(spec: SpecView)
    ensures
        json_to_arrow::column_problem(spec) is None <==> (exists|keys: Seq<Seq<char>>| #[trigger]
            paths::writable(keys) && spec.path == text::joined(keys, "."@)) && !text::has_prefix(
            spec.path,
            seq!['$', '.'],
        ),
        json_to_arrow::column_problem(spec) matches Some(e) ==> e is InvalidRowPath,
{
    reveal_strlit("$.");
    assert("$."@ =~= seq!['$', '.']);
    let path = json_to_arrow::row_path_of(spec);
    paths::accepted_paths_are_written_with_keys(path);
    assert forall|keys: Seq<Seq<char>>| #[trigger] paths::writable(keys) implies (path
        == paths::path_through(keys) <==> spec.path == text::joined(keys, "."@)) by {
        if path == paths::path_through(keys) {
            assert(path.skip(2) =~= spec.path);
            assert(paths::path_through(keys).skip(2) =~= text::joined(keys, "."@));
        }
    }
}

/// The columns of a table can be compiled exactly where each of them can; the
/// first that cannot is the one reported.
pub proof fn the_first_bad_column_is_reported(specs: Seq<SpecView>)
    ensures
        match json_to_arrow::first_problem(specs) {
            None => forall|i: int|
                0 <= i < specs.len() ==> json_to_arrow::column_problem(#[trigger] specs[i]) is None,
            Some(e) => exists|i: int|
                0 <= i < specs.len() && json_to_arrow::column_problem(#[trigger] specs[i]) == Some(e)
                    && forall|j: int|
                    0 <= j < i ==> json_to_arrow::column_problem(#[trigger] specs[j]) is None,
        },
    decreases specs.len(),
{
    if specs.len() > 0 {
        let shorter = specs.drop_last();
        the_first_bad_column_is_reported(shorter);
        assert forall|i: int| 0 <= i < shorter.len() implies #[trigger] specs[i] == shorter[i] by {}
        match json_to_arrow::first_problem(shorter) {
            Some(e) => {
                let i = choose|i: int|
                    0 <= i < shorter.len() && json_to_arrow::column_problem(#[trigger] shorter[i])
                        == Some(e) && forall|j: int|
                        0 <= j < i ==> json_to_arrow::column_problem(#[trigger] shorter[j]) is None;
                assert(specs[i] == shorter[i]);
                assert forall|j: int| 0 <= j < i implies json_to_arrow::column_problem(
                    #[trigger] specs[j],
                ) is None by {
                    assert(shorter[j] == specs[j]);
                }
            },
            None => {
                assert forall|j: int| 0 <= j < shorter.len() implies json_to_arrow::column_problem(
                    #[trigger] specs[j],
                ) is None by {
                    assert(shorter[j] == specs[j]);
                }
                assert(specs[specs.len() - 1] == specs.last());
            },
        }
    }
}

/// What a column expects is said in words that belong to its type.
pub proof fn labels_say_what_is_expected(field_type: FieldTypeView)
    ensures
        match field_type {
            FieldTypeView::Boolean => field_type.label_text() == "boolean"@,
            FieldTypeView::Int64 => field_type.label_text() == "integer"@,
            FieldTypeView::UInt64 => field_type.label_text() == "non-negative integer"@,
            FieldTypeView::Float64 => field_type.label_text() == "number"@,
            FieldTypeView::Utf8 => field_type.label_text() == "string"@,
            FieldTypeView::TimestampMillisUtc => field_type.label_text()
                == "RFC 3339 timestamp or epoch millis"@,
            FieldTypeView::TimestampSecondsUtc => field_type.label_text()
                == "epoch-seconds timestamp"@,
            FieldTypeView::TimestampMillisStringUtc => field_type.label_text()
                == "epoch-millis digit string"@,
            FieldTypeView::TimestampSecondsStringUtc => field_type.label_text()
                == "epoch-seconds digit string"@,
            FieldTypeView::Utf8List => field_type.label_text() == "array of strings"@,
            FieldTypeView::Utf8ListFromObjectKey(_) => field_type.label_text()
                == "array of objects each carrying a string key"@,
            FieldTypeView::Json => field_type.label_text() == "any JSON value"@,
        },
{
}

/// What is said of digits that cannot be read tells whether they are none or too
/// many; what is said of seconds, that they are too many.
pub proof fn unreadable_times_are_told(s: Seq<char>, n: int)
    requires
        i64::MIN <= n <= i64::MAX,
        1000 * n < i64::MIN || 1000 * n > i64::MAX,
    ensures
        s.len() == 0 || !text::all_digits(s) ==> json_to_arrow::converted(
            FieldTypeView::TimestampMillisStringUtc,
            JsonView::String(s),
        ) == Err::<CellView, _>("a non-epoch string"@) && json_to_arrow::converted(
            FieldTypeView::TimestampSecondsStringUtc,
            JsonView::String(s),
        ) == Err::<CellView, _>("a non-epoch string"@),
        s.len() > 0 && text::all_digits(s) && text::digits_value(s) > i64::MAX
            ==> json_to_arrow::converted(
            FieldTypeView::TimestampMillisStringUtc,
            JsonView::String(s),
        ) == Err::<CellView, _>("an epoch out of range for millisecond timestamps"@),
        s.len() > 0 && text::all_digits(s) && 1000 * text::digits_value(s) > i64::MAX
            ==> json_to_arrow::converted(
            FieldTypeView::TimestampSecondsStringUtc,
            JsonView::String(s),
        ) == Err::<CellView, _>("an epoch out of range for millisecond timestamps"@),
        json_to_arrow::converted(FieldTypeView::TimestampSecondsUtc, json_integer(n)) == Err::<
            CellView,
            _,
        >("an epoch second out of range for millisecond timestamps"@),
{
}

/// What is said of an item that no list of texts can hold tells its kind, or the key
/// that it lacks, or what stands under the key.
pub proof fn unlistable_items_are_told(
    item: JsonView,
    key: Seq<char>,
    members: Map<Seq<char>, JsonView>,
)
    ensures
        !(item is Null) && !(item is String) ==> json_to_arrow::list_item(None, item) == Err::<
            Option<Seq<char>>,
            _,
        >(item.kind() + " array element"@),
        !(item is Null) && !(item is Object) ==> json_to_arrow::list_item(Some(key), item) == Err::<
            Option<Seq<char>>,
            _,
        >(item.kind() + " array element"@),
        !members.contains_key(key) ==> json_to_arrow::list_item(
            Some(key),
            JsonView::Object(members),
        ) == Err::<Option<Seq<char>>, _>("array element without key '"@ + key + "'"@),
        members.contains_key(key) && !(members[key] is Null) && !(members[key] is String)
            ==> json_to_arrow::list_item(Some(key), JsonView::Object(members)) == Err::<
            Option<Seq<char>>,
            _,
        >("array element whose '"@ + key + "' is "@ + members[key].kind()),
{
}

/// The first item that cannot be listed is the one that is told.
pub proof fn the_first_unlistable_item_is_told(
    pluck: Option<Seq<char>>,
    items: Seq<JsonView>,
    item: JsonView,
    more: JsonView,
)
    requires
        json_to_arrow::list_items(pluck, items) is Ok,
        json_to_arrow::list_item(pluck, item) is Err,
    ensures
        json_to_arrow::list_items(pluck, items.push(item)) == Err::<Seq<Option<Seq<char>>>, _>(
            json_to_arrow::list_item(pluck, item)->Err_0,
        ),
        json_to_arrow::list_items(pluck, items.push(item).push(more))
            == json_to_arrow::list_items(pluck, items.push(item)),
{
    assert(items.push(item).drop_last() =~= items);
    assert(items.push(item).push(more).drop_last() =~= items.push(item));
}

/// Nothing at a column's path is reported as missing, and a parent that is no object
/// by what it is.
pub proof fn absent_values_are_told(spec: SpecView, row: JsonView)
    requires
        !spec.nullable,
    ensures
        match row_path::walk(row, text::split_on(spec.path, '.')) {
            Walked::Found(value) => json_to_arrow::located(spec, row) == Ok::<_, Seq<char>>(
                Some(value),
            ),
            Walked::Missing(_) => json_to_arrow::located(spec, row) == Err::<Option<JsonView>, _>(
                "missing key"@,
            ),
            Walked::Blocked(_, found) => json_to_arrow::located(spec, row) == Err::<
                Option<JsonView>,
                _,
            >(found),
        },
        json_to_arrow::cell_of(spec, Some(JsonView::Null)) == Err::<Option<CellView>, _>("null"@),
{
    path_segments(spec);
}

/// A batch holds the converted columns; a schema without columns makes none, and that
/// is reported as a failed conversion of the page.
pub proof fn batches_hold_the_columns(specs: Seq<SpecView>, rows: Seq<JsonView>, page: usize)
    ensures
        specs.len() > 0 ==> json_to_arrow::batch_result(specs, rows, page)
            == json_to_arrow::converted_columns(specs, rows, page),
        specs.len() == 0 ==> (json_to_arrow::batch_result(specs, rows, page) matches Err(
            ErrorView::ConversionFailed { path, column, page: at, row, expected, .. },
        ) && path == "$"@ && column == "<batch>"@ && at == page && row == 0 && expected
            == "a batch matching the fixed schema"@),
{
}

/// A column path that is written like a path from the root is refused in words that
/// give both ways of writing it.
pub proof fn rooted_column_paths_are_told(spec: SpecView, rest: Seq<char>)
    requires
        spec.path == seq!['$', '.'] + rest,
    ensures
        json_to_arrow::column_problem(spec) == Some(
            ErrorView::InvalidRowPath {
                path: spec.path,
                reason: "column paths are row-relative object keys (write '"@ + rest + "', not '"@
                    + spec.path + "')"@,
            },
        ),
{
    reveal_strlit("$.");
    assert("$."@ =~= seq!['$', '.']);
    assert(spec.path.subrange(0, 2) =~= "$."@);
    assert(spec.path.skip(2) =~= rest);
}

/// Whether a column's cells are of a kind.
pub open spec fn of_kind(cell: CellView, kind: ColumnKind) -> bool {
    match (cell, kind) {
        (CellView::Boolean(_), ColumnKind::Boolean) => true,
        (CellView::Int64(_), ColumnKind::Int64) => true,
        (CellView::UInt64(_), ColumnKind::UInt64) => true,
        (CellView::Float64(_), ColumnKind::Float64) => true,
        (CellView::Utf8(_), ColumnKind::Utf8) => true,
        (CellView::TimestampMillis(_), ColumnKind::TimestampMillisUtc) => true,
        (CellView::Utf8List(_), ColumnKind::Utf8List) => true,
        _ => false,
    }
}

/// A column has nulls exactly where one of its cells is none, and all its other cells
/// are of its kind.
pub proof fn columns_are_their_cells(column: ColumnView, k: int)
    ensures
        column.nulls() <==> exists|i: int|
            0 <= i < column.len() && (#[trigger] cell_at(column, i)) is None,
        cell_at(column, k) matches Some(cell) ==> of_kind(cell, column.kind()),
{
    if column.nulls() {
        let i = match column {
            ColumnView::Boolean(cells) => choose|i: int|
                0 <= i < cells.len() && (#[trigger] cells[i]) is None,
            ColumnView::Int64(cells) => choose|i: int|
                0 <= i < cells.len() && (#[trigger] cells[i]) is None,
            ColumnView::UInt64(cells) => choose|i: int|
                0 <= i < cells.len() && (#[trigger] cells[i]) is None,
            ColumnView::Float64(cells) => choose|i: int|
                0 <= i < cells.len() && (#[trigger] cells[i]) is None,
            ColumnView::Utf8(cells) => choose|i: int|
                0 <= i < cells.len() && (#[trigger] cells[i]) is None,
            ColumnView::TimestampMillis(cells) => choose|i: int|
                0 <= i < cells.len() && (#[trigger] cells[i]) is None,
            ColumnView::Utf8List(cells) => choose|i: int|
                0 <= i < cells.len() && (#[trigger] cells[i]) is None,
        };
        assert(cell_at(column, i) is None);
    }
}

/// A column of texts fits where all its texts together take no more bytes than an
/// offset can count, and a column without texts always does.
pub proof fn columns_fit_where_their_bytes_do(cells: Seq<Option<Seq<char>>>, s: Seq<char>)
    ensures
        ColumnView::Utf8(cells).fits() <==> arrow_batch::text_bytes(cells) <= 0x7fff_ffff,
        arrow_batch::text_bytes(Seq::empty()) == 0,
        arrow_batch::text_bytes(cells.push(Some(s))) == arrow_batch::text_bytes(cells)
            + vstd::utf8::encode_utf8(s).len(),
        arrow_batch::text_bytes(cells.push(None)) == arrow_batch::text_bytes(cells),
        forall|column: ColumnView|
            !(column is Utf8) && !(column is Utf8List) ==> #[trigger] column.fits(),
{
    assert(cells.push(Some(s)).drop_last() =~= cells);
    assert(cells.push(None).drop_last() =~= cells);
}

} // verus!
