//! What a loaded source pack says.
use vstd::prelude::*;

use crate::json::{JsonView, NumberView};
use crate::laws::conversion;
use crate::open_connector::json_to_arrow;
use crate::open_connector::json_to_arrow::{CellView, FieldTypeView, SpecView};
use crate::open_connector::packs::loader;
use crate::open_connector::packs::loader::{
    ColumnDoc, ColumnType, FixedValueDoc, FloatDoc, PackDoc, PaginationDoc, TableDoc,
    Yaml, YamlNumber,
};
use crate::open_connector::packs::validate;
use crate::open_connector::pagination;
use crate::open_connector::pagination::StrategyView;
use crate::open_connector::row_path;
use crate::open_connector::source_pack::{FilterOperator, PackView, TableView, ValueFormat};
use crate::order;
use crate::text;

verus! {

/// A column type without a key gives the field type that it is named after: what
/// the column is declared as is what its cells are read as.
pub proof fn column_types_give_their_field_types(table_id: Seq<char>, doc: ColumnDoc)
    requires
        doc.key is None,
    ensures
        match doc.column_type {
            ColumnType::Boolean => loader::field_type_of(table_id, doc) == Ok::<_, Seq<char>>(
                FieldTypeView::Boolean,
            ),
            ColumnType::Int64 => loader::field_type_of(table_id, doc) == Ok::<_, Seq<char>>(
                FieldTypeView::Int64,
            ),
            ColumnType::Uint64 => loader::field_type_of(table_id, doc) == Ok::<_, Seq<char>>(
                FieldTypeView::UInt64,
            ),
            ColumnType::Float64 => loader::field_type_of(table_id, doc) == Ok::<_, Seq<char>>(
                FieldTypeView::Float64,
            ),
            ColumnType::Utf8 => loader::field_type_of(table_id, doc) == Ok::<_, Seq<char>>(
                FieldTypeView::Utf8,
            ),
            ColumnType::TimestampMsUtc => loader::field_type_of(table_id, doc) == Ok::<
                _,
                Seq<char>,
            >(FieldTypeView::TimestampMillisUtc),
            ColumnType::TimestampSUtc => loader::field_type_of(table_id, doc) == Ok::<_, Seq<char>>(
                FieldTypeView::TimestampSecondsUtc,
            ),
            ColumnType::TimestampMsStringUtc => loader::field_type_of(table_id, doc) == Ok::<
                _,
                Seq<char>,
            >(FieldTypeView::TimestampMillisStringUtc),
            ColumnType::TimestampSStringUtc => loader::field_type_of(table_id, doc) == Ok::<
                _,
                Seq<char>,
            >(FieldTypeView::TimestampSecondsStringUtc),
            ColumnType::Utf8List => loader::field_type_of(table_id, doc) == Ok::<_, Seq<char>>(
                FieldTypeView::Utf8List,
            ),
            ColumnType::Json => loader::field_type_of(table_id, doc) == Ok::<_, Seq<char>>(
                FieldTypeView::Json,
            ),
            ColumnType::Utf8ListFromObjectKey => loader::field_type_of(table_id, doc) is Err,
        },
{
}

/// Different column types without a key give different field types.
pub proof fn different_types_stay_different(table_id: Seq<char>, a: ColumnDoc, b: ColumnDoc)
    requires
        a.key is None,
        b.key is None,
        loader::field_type_of(table_id, a) is Ok,
        loader::field_type_of(table_id, a) == loader::field_type_of(table_id, b),
    ensures
        a.column_type == b.column_type,
{
}

/// A key is what the lists of a column are plucked by: the type that plucks needs
/// one, and no other type takes one.
pub proof fn keys_are_for_plucking(table_id: Seq<char>, doc: ColumnDoc)
    ensures
        match doc.key {
            Some(key) => if doc.column_type is Utf8ListFromObjectKey {
                loader::field_type_of(table_id, doc) == Ok::<_, Seq<char>>(
                    FieldTypeView::Utf8ListFromObjectKey(key@),
                )
            } else {
                loader::field_type_of(table_id, doc) is Err
            },
            None => loader::field_type_of(table_id, doc) is Ok <==> !(
            doc.column_type is Utf8ListFromObjectKey),
        },
        loader::field_type_of(table_id, doc) matches Err(problem) ==> text::has_prefix(
            problem,
            table_id + ": column '"@ + doc.name@,
        ),
{
    let front = table_id + ": column '"@ + doc.name@;
    let need = front + "' has type utf8_list_from_object_key and needs `key`"@;
    let refuse = front + "' declares `key`, which only utf8_list_from_object_key accepts (got "@
        + loader::type_text(doc.column_type) + ")"@;
    assert(need.subrange(0, front.len() as int) =~= front);
    assert(refuse.subrange(0, front.len() as int) =~= front);
}

/// The digits of a number in a column that is declared in seconds convert to a
/// thousand times as many milliseconds, and in one declared in milliseconds to
/// as many; the same holds of integers in columns of integers.
pub proof fn declared_units_are_kept(table_id: Seq<char>, doc: ColumnDoc, n: nat)
    requires
        doc.key is None,
        1000 * n <= i64::MAX,
    ensures
        doc.column_type is TimestampSStringUtc ==> json_to_arrow::converted(
            loader::field_type_of(table_id, doc)->Ok_0,
            JsonView::String(text::decimal(n)),
        ) == Ok::<_, Seq<char>>(CellView::TimestampMillis((1000 * n) as i64)),
        doc.column_type is TimestampMsStringUtc ==> json_to_arrow::converted(
            loader::field_type_of(table_id, doc)->Ok_0,
            JsonView::String(text::decimal(n)),
        ) == Ok::<_, Seq<char>>(CellView::TimestampMillis(n as i64)),
        doc.column_type is TimestampSUtc ==> json_to_arrow::converted(
            loader::field_type_of(table_id, doc)->Ok_0,
            JsonView::Number(NumberView::PosInt(n as u64)),
        ) == Ok::<_, Seq<char>>(CellView::TimestampMillis((1000 * n) as i64)),
        doc.column_type is TimestampMsUtc ==> json_to_arrow::converted(
            loader::field_type_of(table_id, doc)->Ok_0,
            JsonView::Number(NumberView::PosInt(n as u64)),
        ) == Ok::<_, Seq<char>>(CellView::TimestampMillis(n as i64)),
{
    conversion::digits_count_their_unit(n);
    conversion::timestamps_count_their_unit(n as int);
}

/// Whether a column is what a document declares.
pub open spec fn declared_column(table_id: Seq<char>, field: SpecView, doc: ColumnDoc) -> bool {
    &&& field.name == doc.name@
    &&& field.path == doc.path@
    &&& field.nullable == doc.nullable
    &&& loader::field_type_of(table_id, doc) == Ok::<_, Seq<char>>(field.field_type)
}

proof fn columns_are_as_declared(table_id: Seq<char>, docs: Seq<ColumnDoc>)
    ensures
        loader::fields_of(table_id, docs) is Ok <==> forall|i: int|
            0 <= i < docs.len() ==> loader::field_type_of(table_id, #[trigger] docs[i]) is Ok,
        loader::fields_of(table_id, docs) matches Ok(fields) ==> fields.len() == docs.len() && forall|
            i: int,
        |
            0 <= i < docs.len() ==> declared_column(table_id, fields[i], #[trigger] docs[i]),
    decreases docs.len(),
{
    if docs.len() > 0 {
        let shorter = docs.drop_last();
        columns_are_as_declared(table_id, shorter);
        assert forall|i: int| 0 <= i < shorter.len() implies #[trigger] docs[i] == shorter[i] by {}
        assert(docs[docs.len() - 1] == docs.last());
        if loader::fields_of(table_id, docs) is Ok {
            let fields = loader::fields_of(table_id, docs)->Ok_0;
            assert forall|i: int| 0 <= i < docs.len() implies declared_column(
                table_id,
                fields[i],
                #[trigger] docs[i],
            ) by {
                if i < shorter.len() {
                    assert(shorter[i] == docs[i]);
                }
            }
        } else if forall|i: int|
            0 <= i < docs.len() ==> loader::field_type_of(table_id, #[trigger] docs[i]) is Ok {
            assert forall|i: int| 0 <= i < shorter.len() implies loader::field_type_of(
                table_id,
                #[trigger] shorter[i],
            ) is Ok by {
                assert(docs[i] == shorter[i]);
            }
        }
    }
}

/// Whether a value is what a fixed input of a document pins.
pub open spec fn pins(doc: FixedValueDoc, value: JsonView) -> bool {
    match doc {
        FixedValueDoc::Bool(b) => value == JsonView::Bool(b),
        FixedValueDoc::Int(n) => value == conversion::json_integer(n as int),
        FixedValueDoc::Float(FloatDoc::Finite(double)) => value == JsonView::Number(
            NumberView::Double(double@),
        ),
        FixedValueDoc::Float(FloatDoc::NonFinite(_)) => false,
        FixedValueDoc::Str(s) => value == JsonView::String(s@),
        FixedValueDoc::StrList(items) => value matches JsonView::Array(texts) && texts.len()
            == items@.len() && forall|i: int|
            0 <= i < items@.len() ==> #[trigger] texts[i] == JsonView::String(items@[i]@),
        FixedValueDoc::Json(yaml) => loader::yaml_json(yaml) == Ok::<_, Seq<char>>(value),
    }
}

/// A fixed input is accepted exactly where JSON can say what it pins, and it is
/// then sent as that.
pub proof fn fixed_inputs_are_pinned(table_id: Seq<char>, key: Seq<char>, doc: FixedValueDoc)
    ensures
        match loader::fixed_of(table_id, key, doc) {
            Ok(value) => pins(doc, value),
            Err(problem) => (forall|value: JsonView| !#[trigger] pins(doc, value))
                && text::has_prefix(problem, table_id + ": fixed input '"@ + key + "' "@),
        },
{
    reveal_strlit("' contains ");
    reveal_strlit("' ");
    let front = table_id + ": fixed input '"@ + key + "' "@;
    match doc {
        FixedValueDoc::Float(FloatDoc::NonFinite(name)) => {
            let problem = table_id + ": fixed input '"@ + key + "' contains "@ + name@
                + ", which has no JSON spelling; pin finite numbers only"@;
            assert(problem.subrange(0, front.len() as int) =~= front);
        },
        FixedValueDoc::Json(yaml) => {
            if loader::yaml_json(yaml) is Err {
                let problem = front + loader::yaml_json(yaml)->Err_0;
                assert(problem.subrange(0, front.len() as int) =~= front);
            }
        },
        _ => {},
    }
}

proof fn sequence_items_mean_the_same(items: Seq<Yaml>)
    ensures
        loader::yaml_items(items) is Ok <==> forall|i: int|
            0 <= i < items.len() ==> loader::yaml_json(#[trigger] items[i]) is Ok,
        loader::yaml_items(items) matches Ok(values) ==> values.len() == items.len() && forall|i: int|
            0 <= i < items.len() ==> loader::yaml_json(#[trigger] items[i]) == Ok::<_, Seq<char>>(
                values[i],
            ),
    decreases items.len(),
{
    if items.len() > 0 {
        let shorter = items.drop_last();
        sequence_items_mean_the_same(shorter);
        assert(items[items.len() - 1] == items.last());
        if loader::yaml_items(items) is Ok {
            let values = loader::yaml_items(items)->Ok_0;
            assert forall|i: int| 0 <= i < items.len() implies loader::yaml_json(#[trigger] items[i])
                == Ok::<_, Seq<char>>(values[i]) by {
                if i < shorter.len() {
                    assert(shorter[i] == items[i]);
                }
            }
        } else if forall|i: int|
            0 <= i < items.len() ==> loader::yaml_json(#[trigger] items[i]) is Ok {
            assert forall|i: int| 0 <= i < shorter.len() implies loader::yaml_json(
                #[trigger] shorter[i],
            ) is Ok by {
                assert(items[i] == shorter[i]);
            }
        }
    }
}

/// Whether an entry of a YAML mapping is one that JSON can say.
pub open spec fn json_entry(entry: (Yaml, Yaml)) -> bool {
    entry.0 is String && loader::yaml_json(entry.1) is Ok
}

proof fn mapping_members_mean_the_same(members: Seq<(Yaml, Yaml)>)
    ensures
        loader::yaml_members(members) is Ok <==> forall|i: int|
            0 <= i < members.len() ==> json_entry(#[trigger] members[i]),
        loader::yaml_members(members) matches Ok(map) ==> (forall|key: Seq<char>|
            #[trigger] map.contains_key(key) <==> exists|i: int|
                0 <= i < members.len() && (#[trigger] members[i]).0->String_0@ == key),
        loader::yaml_members(members) matches Ok(map) ==> forall|i: int|
            0 <= i < members.len() && (forall|j: int|
                i < j < members.len() ==> (#[trigger] members[j]).0->String_0@
                    != members[i].0->String_0@) ==> map[(#[trigger] members[i]).0->String_0@]
                == loader::yaml_json(members[i].1)->Ok_0,
    decreases members.len(),
{
    if members.len() > 0 {
        let shorter = members.drop_last();
        let last = members.len() - 1;
        mapping_members_mean_the_same(shorter);
        assert(members[last] == members.last());
        if loader::yaml_members(members) is Ok {
            let map = loader::yaml_members(members)->Ok_0;
            let done = loader::yaml_members(shorter)->Ok_0;
            assert forall|i: int| 0 <= i < members.len() implies json_entry(
                #[trigger] members[i],
            ) by {
                if i < last {
                    assert(shorter[i] == members[i]);
                }
            }
            assert forall|key: Seq<char>| #[trigger] map.contains_key(key) <==> exists|i: int|
                0 <= i < members.len() && (#[trigger] members[i]).0->String_0@ == key by {
                if done.contains_key(key) {
                    let i = choose|i: int|
                        0 <= i < shorter.len() && (#[trigger] shorter[i]).0->String_0@ == key;
                    assert(members[i] == shorter[i]);
                }
                if exists|i: int|
                    0 <= i < members.len() && (#[trigger] members[i]).0->String_0@ == key {
                    let i = choose|i: int|
                        0 <= i < members.len() && (#[trigger] members[i]).0->String_0@ == key;
                    if i < last {
                        assert(shorter[i] == members[i]);
                    }
                }
            }
            assert forall|i: int|
                0 <= i < members.len() && (forall|j: int|
                    i < j < members.len() ==> (#[trigger] members[j]).0->String_0@
                        != members[i].0->String_0@) implies map[(
            #[trigger] members[i]).0->String_0@] == loader::yaml_json(members[i].1)->Ok_0 by {
                if i < last {
                    assert(shorter[i] == members[i]);
                    assert(members[last].0->String_0@ != members[i].0->String_0@);
                    assert forall|j: int| i < j < shorter.len() implies (
                    #[trigger] shorter[j]).0->String_0@ != shorter[i].0->String_0@ by {
                        assert(members[j] == shorter[j]);
                    }
                }
            }
        } else if forall|i: int| 0 <= i < members.len() ==> json_entry(#[trigger] members[i]) {
            assert forall|i: int| 0 <= i < shorter.len() implies json_entry(
                #[trigger] shorter[i],
            ) by {
                assert(members[i] == shorter[i]);
            }
        }
    }
}

/// A YAML value means the JSON value of the same shape: scalars themselves,
/// sequences item by item in their order, and mappings with text keys member by
/// member, of which the last counts where a key comes twice. Numbers that are
/// not finite, other keys and tags have no meaning in JSON.
pub proof fn yaml_means_the_same_in_json(value: Yaml)
    ensures
        match value {
            Yaml::Null => loader::yaml_json(value) == Ok::<_, Seq<char>>(JsonView::Null),
            Yaml::Bool(b) => loader::yaml_json(value) == Ok::<_, Seq<char>>(JsonView::Bool(b)),
            Yaml::Number(YamlNumber::Int(n)) => loader::yaml_json(value) == Ok::<_, Seq<char>>(
                conversion::json_integer(n as int),
            ),
            Yaml::Number(YamlNumber::UInt(n)) => loader::yaml_json(value) == Ok::<_, Seq<char>>(
                conversion::json_integer(n as int),
            ),
            Yaml::Number(YamlNumber::Float(FloatDoc::Finite(double))) => loader::yaml_json(value)
                == Ok::<_, Seq<char>>(JsonView::Number(NumberView::Double(double@))),
            Yaml::Number(YamlNumber::Float(FloatDoc::NonFinite(_))) => loader::yaml_json(value) is Err,
            Yaml::String(s) => loader::yaml_json(value) == Ok::<_, Seq<char>>(JsonView::String(s@)),
            Yaml::Sequence(items) => {
                &&& loader::yaml_json(value) is Ok <==> forall|i: int|
                    0 <= i < items@.len() ==> loader::yaml_json(#[trigger] items@[i]) is Ok
                &&& loader::yaml_json(value) matches Ok(json) ==> (json matches JsonView::Array(
                    values,
                ) && values.len() == items@.len() && forall|i: int|
                    0 <= i < items@.len() ==> loader::yaml_json(#[trigger] items@[i]) == Ok::<
                        _,
                        Seq<char>,
                    >(values[i]))
            },
            Yaml::Mapping(members) => {
                &&& loader::yaml_json(value) is Ok <==> forall|i: int|
                    0 <= i < members@.len() ==> json_entry(#[trigger] members@[i])
                &&& loader::yaml_json(value) matches Ok(json) ==> (json matches JsonView::Object(map)
                    && (forall|key: Seq<char>| #[trigger]
                    map.contains_key(key) <==> exists|i: int|
                        0 <= i < members@.len() && (#[trigger] members@[i]).0->String_0@ == key)
                    && forall|i: int|
                    0 <= i < members@.len() && (forall|j: int|
                        i < j < members@.len() ==> (#[trigger] members@[j]).0->String_0@
                            != members@[i].0->String_0@) ==> map[(
                    #[trigger] members@[i]).0->String_0@] == loader::yaml_json(members@[i].1)->Ok_0)
            },
            Yaml::Tagged => loader::yaml_json(value) is Err,
        },
{
    match value {
        Yaml::Sequence(items) => sequence_items_mean_the_same(items@),
        Yaml::Mapping(members) => mapping_members_mean_the_same(members@),
        _ => {},
    }
}

proof fn all_fixed_inputs_are_pinned(table_id: Seq<char>, docs: Seq<(String, FixedValueDoc)>)
    ensures
        loader::all_fixed_of(table_id, docs) is Ok <==> forall|i: int|
            0 <= i < docs.len() ==> loader::fixed_of(
                table_id,
                (#[trigger] docs[i]).0@,
                docs[i].1,
            ) is Ok,
        loader::all_fixed_of(table_id, docs) matches Ok(fixed) ==> fixed.len() == docs.len()
            && forall|i: int|
            0 <= i < docs.len() ==> fixed[i].0 == (#[trigger] docs[i]).0@ && pins(
                docs[i].1,
                fixed[i].1,
            ),
    decreases docs.len(),
{
    if docs.len() > 0 {
        let shorter = docs.drop_last();
        all_fixed_inputs_are_pinned(table_id, shorter);
        assert(docs[docs.len() - 1] == docs.last());
        fixed_inputs_are_pinned(table_id, docs.last().0@, docs.last().1);
        if loader::all_fixed_of(table_id, docs) is Ok {
            let fixed = loader::all_fixed_of(table_id, docs)->Ok_0;
            assert forall|i: int| 0 <= i < docs.len() implies fixed[i].0 == (
            #[trigger] docs[i]).0@ && pins(docs[i].1, fixed[i].1) && loader::fixed_of(
                table_id,
                docs[i].0@,
                docs[i].1,
            ) is Ok by {
                if i < shorter.len() {
                    assert(shorter[i] == docs[i]);
                }
            }
        } else if forall|i: int|
            0 <= i < docs.len() ==> loader::fixed_of(
                table_id,
                (#[trigger] docs[i]).0@,
                docs[i].1,
            ) is Ok {
            assert forall|i: int| 0 <= i < shorter.len() implies loader::fixed_of(
                table_id,
                (#[trigger] shorter[i]).0@,
                shorter[i].1,
            ) is Ok by {
                assert(docs[i] == shorter[i]);
            }
        }
    }
}

/// Whether a pagination is what a document declares.
pub open spec fn declared_pagination(strategy: StrategyView, doc: PaginationDoc) -> bool {
    match (strategy, doc) {
        (
            StrategyView::PageNumber {
                page_param,
                per_page_param,
                per_page,
                total_pages_path,
                raw_page_size_path,
            },
            PaginationDoc::PageNumber {
                page_input,
                page_size_input,
                page_size,
                total_pages_path: total,
                raw_page_size_path: raw,
            },
        ) => {
            &&& page_param == page_input@
            &&& per_page_param == page_size_input@
            &&& per_page == page_size
            &&& declared_text(total_pages_path, total)
            &&& declared_text(raw_page_size_path, raw)
        },
        (
            StrategyView::Cursor {
                cursor_param,
                next_cursor_path,
                page_size_param,
                page_size,
                has_more_path,
            },
            PaginationDoc::Cursor {
                cursor_input,
                next_cursor_path: next,
                page_size_input,
                page_size: size,
                has_more_path: more,
            },
        ) => {
            &&& cursor_param == cursor_input@
            &&& next_cursor_path == next@
            &&& page_size == size
            &&& declared_text(page_size_param, page_size_input)
            &&& declared_text(has_more_path, more)
        },
        _ => false,
    }
}

/// Whether an optional text is the one that is declared.
pub open spec fn declared_text(given: Option<Seq<char>>, doc: Option<String>) -> bool {
    match (given, doc) {
        (Some(given), Some(doc)) => given == doc@,
        (None, None) => true,
        _ => false,
    }
}

/// Whether texts are those that are declared, in their order.
pub open spec fn declared_texts(given: Seq<Seq<char>>, docs: Seq<String>) -> bool {
    given.len() == docs.len() && forall|i: int|
        0 <= i < docs.len() ==> #[trigger] given[i] == docs[i]@
}

/// Whether a table says what its document declares under a key of a pack.
pub open spec fn declared_table(
    pack: Seq<char>,
    key: Seq<char>,
    table: TableView,
    doc: TableDoc,
) -> bool {
    &&& table.id == pack + seq!['.'] + key
    &&& table.action_id == doc.action@
    &&& table.row_path == doc.row_path@
    &&& declared_text(table.error_path, doc.error_path)
    &&& declared_text(table.expected_fingerprint, doc.fingerprint)
    &&& declared_texts(table.required_resources, doc.resources.required@)
    &&& declared_texts(table.optional_resources, doc.resources.optional@)
    &&& declared_pagination(table.pagination, doc.pagination)
    &&& table.fields.len() == doc.columns@.len()
    &&& forall|i: int|
        0 <= i < doc.columns@.len() ==> declared_column(
            table.id,
            #[trigger] table.fields[i],
            doc.columns@[i],
        )
    &&& table.filters.len() == doc.filters@.len()
    &&& forall|i: int|
        0 <= i < doc.filters@.len() ==> {
            &&& (#[trigger] table.filters[i]).column == doc.filters@[i].column@
            &&& table.filters[i].operator == doc.filters@[i].op
            &&& table.filters[i].input_field == doc.filters@[i].input@
            &&& table.filters[i].fidelity == doc.filters@[i].fidelity
            &&& table.filters[i].value_format == doc.filters@[i].format
        }
    &&& table.fixed_inputs.len() == doc.fixed_inputs@.len()
    &&& forall|i: int|
        0 <= i < doc.fixed_inputs@.len() ==> exists|k: int|
            0 <= k < table.fixed_inputs.len() && (#[trigger] table.fixed_inputs[k]).0 == (
            #[trigger] doc.fixed_inputs@[i]).0@ && pins(doc.fixed_inputs@[i].1, table.fixed_inputs[k].1)
}

proof fn every_entry_is_ordered<T>(entries: Seq<(String, T)>, i: int) -> (k: int)
    requires
        order::repeated(loader::entry_keys(entries)) is None,
        0 <= i < entries.len(),
    ensures
        0 <= k < entries.len(),
        loader::in_key_order(entries)[k] == entries[i],
{
    let keys = loader::entry_keys(entries);
    let n = entries.len();
    let places = order::key_order(keys, n);
    assert forall|i: int, j: int| 0 <= i < j < keys.len() implies #[trigger] keys[i]
        != #[trigger] keys[j] by {
        order::unrepeated_names_differ(keys, i, j);
    }
    order::key_order_holds_indices(keys, n);
    order::key_order_ascends(keys, n);
    assert(places.contains(i));
    let k = choose|k: int| 0 <= k < places.len() && places[k] == i;
    k
}

/// A table that is loaded says what its document declares: under the pack's name
/// and its key, the action, the paths, the columns, filters and resources in
/// their order, the pagination, and every fixed input.
pub proof fn tables_say_what_is_declared(pack: Seq<char>, key: Seq<char>, doc: TableDoc)
    ensures
        loader::table_of(pack, key, doc) matches Ok(table) ==> declared_table(pack, key, table, doc)
            && validate::table_problem(table) is None,
{
    if let Ok(table) = loader::table_of(pack, key, doc) {
        reveal_strlit(".");
        assert("."@ =~= seq!['.']);
        let id = loader::table_id(pack, key);
        columns_are_as_declared(id, doc.columns@);
        let entries = loader::in_key_order(doc.fixed_inputs@);
        all_fixed_inputs_are_pinned(id, entries);
        assert forall|i: int| 0 <= i < doc.fixed_inputs@.len() implies exists|k: int|
            0 <= k < table.fixed_inputs.len() && (#[trigger] table.fixed_inputs[k]).0 == (
            #[trigger] doc.fixed_inputs@[i]).0@ && pins(
                doc.fixed_inputs@[i].1,
                table.fixed_inputs[k].1,
            ) by {
            let k = every_entry_is_ordered(doc.fixed_inputs@, i);
            assert(entries[k] == doc.fixed_inputs@[i]);
            assert(table.fixed_inputs[k].0 == entries[k].0@);
        }
        assert forall|i: int| 0 <= i < doc.columns@.len() implies declared_column(
            table.id,
            #[trigger] table.fields[i],
            doc.columns@[i],
        ) by {
            assert(declared_column(id, table.fields[i], doc.columns@[i]));
        }
    }
}

/// A document's table loads exactly where every column has a field type, no fixed
/// input comes twice, JSON can say each of them, and the table that it declares
/// is valid.
pub proof fn sound_tables_load(pack: Seq<char>, key: Seq<char>, doc: TableDoc, table: TableView)
    requires
        loader::fields_of(loader::table_id(pack, key), doc.columns@) == Ok::<_, Seq<char>>(
            table.fields,
        ),
        loader::ordered_fixed_of(loader::table_id(pack, key), doc.fixed_inputs@) == Ok::<_, Seq<char>>(
            table.fixed_inputs,
        ),
        declared_table(pack, key, table, doc),
        validate::table_problem(table) is None,
    ensures
        loader::table_of(pack, key, doc) == Ok::<_, Seq<char>>(table),
{
    reveal_strlit(".");
    assert("."@ =~= seq!['.']);
    assert(table.required_resources =~= text::texts(doc.resources.required@));
    assert(table.optional_resources =~= text::texts(doc.resources.optional@));
    assert(table.filters =~= loader::filters_of(doc.filters@));
    assert(table.pagination == loader::strategy_of(doc.pagination));
    assert(table.error_path == loader::optional_text(doc.error_path));
    assert(table.expected_fingerprint == loader::optional_text(doc.fingerprint));
}

proof fn tables_stand_for_their_documents(pack: Seq<char>, docs: Seq<(String, TableDoc)>)
    ensures
        loader::tables_of(pack, docs) is Ok <==> forall|i: int|
            0 <= i < docs.len() ==> !(#[trigger] docs[i]).0@.contains('.') && loader::table_of(
                pack,
                docs[i].0@,
                docs[i].1,
            ) is Ok,
        loader::tables_of(pack, docs) matches Ok(tables) ==> tables.len() == docs.len() && forall|
            i: int,
        |
            0 <= i < docs.len() ==> loader::table_of(pack, (#[trigger] docs[i]).0@, docs[i].1)
                == Ok::<_, Seq<char>>(tables[i]),
    decreases docs.len(),
{
    if docs.len() > 0 {
        let shorter = docs.drop_last();
        tables_stand_for_their_documents(pack, shorter);
        assert(docs[docs.len() - 1] == docs.last());
        if loader::tables_of(pack, docs) is Ok {
            let tables = loader::tables_of(pack, docs)->Ok_0;
            assert forall|i: int| 0 <= i < docs.len() implies loader::table_of(
                pack,
                (#[trigger] docs[i]).0@,
                docs[i].1,
            ) == Ok::<_, Seq<char>>(tables[i]) && !docs[i].0@.contains('.') by {
                if i < shorter.len() {
                    assert(shorter[i] == docs[i]);
                }
            }
        } else if forall|i: int|
            0 <= i < docs.len() ==> !(#[trigger] docs[i]).0@.contains('.') && loader::table_of(
                pack,
                docs[i].0@,
                docs[i].1,
            ) is Ok {
            assert forall|i: int| 0 <= i < shorter.len() implies !(
            #[trigger] shorter[i]).0@.contains('.') && loader::table_of(
                pack,
                shorter[i].0@,
                shorter[i].1,
            ) is Ok by {
                assert(docs[i] == shorter[i]);
            }
        }
    }
}

/// A pack loads exactly where it has tables, no key of a table comes twice or
/// holds a dot, and every table loads.
pub proof fn sound_packs_load(doc: PackDoc)
    ensures
        loader::pack_of(doc) is Ok <==> {
            &&& doc.tables@.len() > 0
            &&& order::repeated(loader::entry_keys(doc.tables@)) is None
            &&& forall|i: int|
                0 <= i < doc.tables@.len() ==> !(#[trigger] doc.tables@[i]).0@.contains('.')
                    && loader::table_of(doc.pack@, doc.tables@[i].0@, doc.tables@[i].1) is Ok
        },
{
    let entries = loader::in_key_order(doc.tables@);
    tables_stand_for_their_documents(doc.pack@, entries);
    if order::repeated(loader::entry_keys(doc.tables@)) is None {
        loader::ordered_entries_ascend(doc.tables@);
        if loader::tables_of(doc.pack@, entries) is Ok {
            assert forall|i: int| 0 <= i < doc.tables@.len() implies !(
            #[trigger] doc.tables@[i]).0@.contains('.') && loader::table_of(
                doc.pack@,
                doc.tables@[i].0@,
                doc.tables@[i].1,
            ) is Ok by {
                let k = every_entry_is_ordered(doc.tables@, i);
                assert(entries[k] == doc.tables@[i]);
            }
        } else if forall|i: int|
            0 <= i < doc.tables@.len() ==> !(#[trigger] doc.tables@[i]).0@.contains('.')
                && loader::table_of(doc.pack@, doc.tables@[i].0@, doc.tables@[i].1) is Ok {
            assert forall|i: int| 0 <= i < entries.len() implies !(
            #[trigger] entries[i]).0@.contains('.') && loader::table_of(
                doc.pack@,
                entries[i].0@,
                entries[i].1,
            ) is Ok by {
                assert(doc.tables@.contains(entries[i]));
            }
        }
    }
}

/// A loaded pack has its name and version, and for every table of the document
/// one table that says what the document declares, and no others.
pub proof fn packs_say_what_is_declared(doc: PackDoc)
    ensures
        loader::pack_of(doc) matches Ok(pack) ==> {
            &&& pack.name == doc.pack@
            &&& pack.version == doc.version
            &&& pack.tables.len() == doc.tables@.len()
            &&& forall|i: int|
                0 <= i < doc.tables@.len() ==> exists|k: int|
                    0 <= k < pack.tables.len() && declared_table(
                        doc.pack@,
                        (#[trigger] doc.tables@[i]).0@,
                        #[trigger] pack.tables[k],
                        doc.tables@[i].1,
                    )
        },
{
    if let Ok(pack) = loader::pack_of(doc) {
        let entries = loader::in_key_order(doc.tables@);
        tables_stand_for_their_documents(doc.pack@, entries);
        assert forall|i: int| 0 <= i < doc.tables@.len() implies exists|k: int|
            0 <= k < pack.tables.len() && declared_table(
                doc.pack@,
                (#[trigger] doc.tables@[i]).0@,
                #[trigger] pack.tables[k],
                doc.tables@[i].1,
            ) by {
            let k = every_entry_is_ordered(doc.tables@, i);
            assert(entries[k] == doc.tables@[i]);
            tables_say_what_is_declared(doc.pack@, entries[k].0@, entries[k].1);
            assert(declared_table(doc.pack@, doc.tables@[i].0@, pack.tables[k], doc.tables@[i].1));
        }
    }
}

/// The names of the inputs that a pagination sets.
pub open spec fn sets_input(strategy: StrategyView, input: Seq<char>) -> bool {
    match strategy {
        StrategyView::PageNumber { page_param, per_page_param, .. } => input == page_param || input
            == per_page_param,
        StrategyView::Cursor { cursor_param, page_size_param, .. } => input == cursor_param
            || page_size_param == Some(input),
        StrategyView::SinglePage => false,
    }
}

/// Whether a format rounds seconds down.
pub open spec fn rounds_down(format: ValueFormat) -> bool {
    format is EpochSeconds || format is EpochSecondsString
}

/// Whether a table is sound: its paths are accepted, its columns, filters and
/// inputs do not get in each other's way, filters are on its columns, and a
/// filter that rounds down is an inexact lower bound.
pub open spec fn sound(table: TableView) -> bool {
    &&& row_path::parsed_path(table.row_path) is Ok
    &&& table.error_path matches Some(path) ==> row_path::parsed_path(path) is Ok
    &&& pagination::validated(table.pagination) is Ok
    &&& forall|i: int|
        0 <= i < table.fields.len() ==> json_to_arrow::column_problem(
            #[trigger] table.fields[i],
        ) is None
    &&& forall|i: int, j: int|
        0 <= i < j < table.fields.len() ==> (#[trigger] table.fields[i]).name != (
        #[trigger] table.fields[j]).name
    &&& forall|j: int|
        0 <= j < table.filters.len() ==> exists|i: int|
            0 <= i < table.fields.len() && (#[trigger] table.fields[i]).name == (
            #[trigger] table.filters[j]).column
    &&& forall|i: int, j: int|
        0 <= i < j < table.filters.len() ==> (#[trigger] table.filters[i]).column != (
        #[trigger] table.filters[j]).column || table.filters[i].operator != table.filters[j].operator
    &&& forall|j: int|
        0 <= j < table.filters.len() && rounds_down((#[trigger] table.filters[j]).value_format)
            ==> !(table.filters[j].operator is Eq) && table.filters[j].fidelity is Inexact
    &&& forall|j: int|
        0 <= j < table.required_resources.len() ==> !table.optional_resources.contains(
            #[trigger] table.required_resources[j],
        )
    &&& match table.pagination {
        StrategyView::PageNumber { page_param, per_page_param, per_page, .. } => page_param
            != per_page_param && per_page > 0,
        StrategyView::Cursor { cursor_param, page_size_param, page_size, .. } => page_size_param
            != Some(cursor_param) && (page_size_param is Some ==> page_size > 0),
        StrategyView::SinglePage => true,
    }
    &&& forall|i: int, j: int|
        0 <= i < j < table.filters.len() ==> (#[trigger] table.filters[i]).input_field != (
        #[trigger] table.filters[j]).input_field
    &&& forall|j: int|
        0 <= j < table.filters.len() ==> !sets_input(
            table.pagination,
            (#[trigger] table.filters[j]).input_field,
        ) && !is_resource(table, table.filters[j].input_field)
    &&& forall|j: int|
        0 <= j < table.fixed_inputs.len() ==> !sets_input(
            table.pagination,
            (#[trigger] table.fixed_inputs[j]).0,
        ) && !is_resource(table, table.fixed_inputs[j].0)
    &&& forall|input: Seq<char>| #[trigger]
        sets_input(table.pagination, input) ==> !is_resource(table, input)
}

/// Whether an input is one of a table's resources.
pub open spec fn is_resource(table: TableView, input: Seq<char>) -> bool {
    table.required_resources.contains(input) || table.optional_resources.contains(input)
}

proof fn pagination_sets_these(strategy: StrategyView, input: Seq<char>)
    ensures
        validate::pagination_inputs(strategy).contains(input) <==> sets_input(strategy, input),
{
    let inputs = validate::pagination_inputs(strategy);
    match strategy {
        StrategyView::PageNumber { page_param, per_page_param, .. } => {
            assert(inputs[0] == page_param && inputs[1] == per_page_param);
        },
        StrategyView::Cursor { cursor_param, page_size_param, .. } => {
            assert(inputs[0] == cursor_param);
            if let Some(param) = page_size_param {
                assert(inputs[1] == param);
            }
        },
        StrategyView::SinglePage => {},
    }
}

/// A table has no problem exactly where it is sound.
pub proof fn sound_tables_are_valid(table: TableView)
    ensures
        validate::table_problem(table) is None <==> sound(table),
{
    validate::no_problem_at_all(validate::column_problems(table));
    validate::no_problem_at_all(validate::filter_problems(table));
    validate::no_problem_at_all(validate::resource_problems(table));
    validate::no_problem_at_all(validate::filter_input_problems(table));
    validate::no_problem_at_all(validate::fixed_input_problems(table));
    validate::no_problem_at_all(validate::paged_resource_problems(table));
    conversion::the_first_bad_column_is_reported(table.fields);
    let inputs = validate::pagination_inputs(table.pagination);
    assert forall|input: Seq<char>| inputs.contains(input) == #[trigger] sets_input(
        table.pagination,
        input,
    ) by {
        pagination_sets_these(table.pagination, input);
    }
    assert forall|input: Seq<char>| #[trigger] table.declares(input) == is_resource(table, input) by {}
    if validate::table_problem(table) is None {
        validate::a_valid_table_is_consistent(table);
        assert forall|j: int| 0 <= j < table.filters.len() implies exists|i: int|
            0 <= i < table.fields.len() && (#[trigger] table.fields[i]).name == (
            #[trigger] table.filters[j]).column by {
            assert(validate::has_column(table, table.filters[j].column));
        }
        assert forall|j: int|
            0 <= j < table.filters.len() && rounds_down(
                (#[trigger] table.filters[j]).value_format,
            ) implies !(table.filters[j].operator is Eq) && table.filters[j].fidelity is Inexact by {
            assert(validate::floors(table.filters[j].value_format));
        }
        assert forall|input: Seq<char>| #[trigger]
            sets_input(table.pagination, input) implies !is_resource(table, input) by {
            let k = choose|k: int| 0 <= k < inputs.len() && inputs[k] == input;
            assert(!table.declares(inputs[k]));
        }
        assert(validate::structure_problem(table) is None);
        assert(validate::as_problem(
            table.id,
            pagination::checked_path(Some(table.row_path)),
        ) is None);
        assert(sound(table));
    }
    if sound(table) {
        assert forall|j: int| 0 <= j < table.fields.len() implies (
        #[trigger] validate::column_problems(table)[j]) is None by {
            if validate::column_repeats(table, j) {
                let k = choose|k: int|
                    0 <= k < j && (#[trigger] table.fields[k]).name == table.fields[j].name;
                assert(table.fields[k].name != table.fields[j].name);
            }
        }
        assert forall|j: int| 0 <= j < table.filters.len() implies (
        #[trigger] validate::filter_problems(table)[j]) is None by {
            assert(table.filters[j].column == table.filters[j].column);
            assert(validate::has_column(table, table.filters[j].column));
            if validate::filter_repeats(table, j) {
                let k = choose|k: int|
                    0 <= k < j && (#[trigger] table.filters[k]).column == table.filters[j].column
                        && table.filters[k].operator == table.filters[j].operator;
                assert(table.filters[k].column != table.filters[j].column
                    || table.filters[k].operator != table.filters[j].operator);
            }
        }
        assert forall|j: int| 0 <= j < table.required_resources.len() implies (
        #[trigger] validate::resource_problems(table)[j]) is None by {
            assert(!table.optional_resources.contains(table.required_resources[j]));
        }
        assert forall|j: int| 0 <= j < table.filters.len() implies (
        #[trigger] validate::filter_input_problems(table)[j]) is None by {
            let input = table.filters[j].input_field;
            assert(!sets_input(table.pagination, input));
            assert(!table.declares(input));
            if validate::input_repeats(table, j) {
                let k = choose|k: int|
                    0 <= k < j && (#[trigger] table.filters[k]).input_field
                        == table.filters[j].input_field;
                assert(table.filters[k].input_field != table.filters[j].input_field);
            }
        }
        assert forall|j: int| 0 <= j < table.fixed_inputs.len() implies (
        #[trigger] validate::fixed_input_problems(table)[j]) is None by {
            assert(!sets_input(table.pagination, table.fixed_inputs[j].0));
            assert(!table.declares(table.fixed_inputs[j].0));
        }
        assert forall|j: int| 0 <= j < inputs.len() implies (
        #[trigger] validate::paged_resource_problems(table)[j]) is None by {
            assert(inputs.contains(inputs[j]));
            assert(sets_input(table.pagination, inputs[j]));
            assert(!table.declares(inputs[j]));
        }
    }
}

/// What YAML says that JSON cannot is told: the name of a number that is not finite, a
/// key that is no text, a tag.
pub proof fn unsayable_yaml_is_told(name: String, key: Yaml, value: Yaml)
    requires
        !(key is String),
    ensures
        loader::yaml_json(Yaml::Number(YamlNumber::Float(FloatDoc::NonFinite(name)))) == Err::<
            JsonView,
            _,
        >("contains "@ + name@ + ", which has no JSON spelling; pin finite numbers only"@),
        loader::yaml_members(seq![(key, value)]) == Err::<Map<Seq<char>, JsonView>, _>(
            "contains a non-string mapping key, which JSON cannot represent"@,
        ),
        loader::yaml_json(Yaml::Tagged) == Err::<JsonView, _>(
            "contains a YAML tag, which JSON cannot represent"@,
        ),
{
    let one = seq![(key, value)];
    assert(one.drop_last() =~= Seq::<(Yaml, Yaml)>::empty());
    assert(loader::yaml_members(one.drop_last()) is Ok);
}

/// What is wrong with a column's type and key is told with the table, the column and
/// the type.
pub proof fn wrong_keys_are_told(table_id: Seq<char>, doc: ColumnDoc)
    ensures
        doc.column_type is Utf8ListFromObjectKey && doc.key is None ==> loader::field_type_of(
            table_id,
            doc,
        ) == Err::<FieldTypeView, _>(
            table_id + ": column '"@ + doc.name@
                + "' has type utf8_list_from_object_key and needs `key`"@,
        ),
        !(doc.column_type is Utf8ListFromObjectKey) && doc.key is Some ==> loader::field_type_of(
            table_id,
            doc,
        ) == Err::<FieldTypeView, _>(
            table_id + ": column '"@ + doc.name@
                + "' declares `key`, which only utf8_list_from_object_key accepts (got "@ + (
            match doc.column_type {
                ColumnType::Boolean => "Boolean"@,
                ColumnType::Int64 => "Int64"@,
                ColumnType::Uint64 => "Uint64"@,
                ColumnType::Float64 => "Float64"@,
                ColumnType::Utf8 => "Utf8"@,
                ColumnType::TimestampMsUtc => "TimestampMsUtc"@,
                ColumnType::TimestampSUtc => "TimestampSUtc"@,
                ColumnType::TimestampMsStringUtc => "TimestampMsStringUtc"@,
                ColumnType::TimestampSStringUtc => "TimestampSStringUtc"@,
                ColumnType::Utf8List => "Utf8List"@,
                ColumnType::Utf8ListFromObjectKey => "Utf8ListFromObjectKey"@,
                ColumnType::Json => "Json"@,
            }) + ")"@,
        ),
{
}

/// What keeps a pack from loading is told: that it has no tables, a key that comes
/// twice, a key with a dot, a fixed input that comes twice.
pub proof fn unloadable_packs_are_told(
    doc: PackDoc,
    pack: Seq<char>,
    id: Seq<char>,
    key: String,
    table: TableDoc,
    fixed: Seq<(String, FixedValueDoc)>,
)
    ensures
        doc.tables@.len() == 0 ==> loader::pack_of(doc) == Err::<PackView, _>(
            "a pack must declare at least one table"@,
        ),
        doc.tables@.len() > 0 ==> (order::repeated(loader::entry_keys(doc.tables@)) matches Some(
            twice,
        ) ==> loader::pack_of(doc) == Err::<PackView, _>(
            "table key '"@ + twice + "' is declared twice"@,
        )),
        key@.contains('.') ==> loader::tables_of(pack, seq![(key, table)]) == Err::<
            Seq<TableView>,
            _,
        >("table key '"@ + key@ + "' must be a bare name; the id is derived as <pack>.<table>"@),
        order::repeated(loader::entry_keys(fixed)) matches Some(twice) ==> loader::ordered_fixed_of(
            id,
            fixed,
        ) == Err::<Seq<(Seq<char>, JsonView)>, _>(
            id + ": fixed input '"@ + twice + "' is declared twice"@,
        ),
{
    let one = seq![(key, table)];
    assert(one.drop_last() =~= Seq::<(String, TableDoc)>::empty());
    assert(loader::tables_of(pack, one.drop_last()) is Ok);
}

/// What is wrong with a table is told behind the table's ID: the column or filter that
/// comes twice, the column that a filter lacks, the input or resource that collides.
pub proof fn unsound_tables_are_told(table: TableView, j: int)
    ensures
        validate::column_problem(table, j) matches Some(problem) ==> problem == table.id + ": "@ + (
        "duplicate column '"@ + table.fields[j].name + "'"@),
        validate::filter_problem(table, j) matches Some(problem) ==> ({
            let filter = table.filters[j];
            ||| problem == table.id + ": "@ + ("filter references undeclared column '"@
                + filter.column + "'"@) && !validate::has_column(table, filter.column)
            ||| problem == table.id + ": "@ + ("duplicate filter mapping for column '"@
                + filter.column + "' and operator "@ + operator_name(filter.operator))
                && validate::filter_repeats(table, j)
            ||| problem == table.id + ": "@ + ("filter on '"@ + filter.column
                + "' renders as flooring epoch seconds, which is only sound for lower bounds — operator "@
                + operator_name(filter.operator)
                + " would drop rows; declare gt/gt_eq or use the rfc3339 format"@)
                && filter.operator is Eq
            ||| problem == table.id + ": "@ + ("filter on '"@ + filter.column
                + "' floors sub-second literals into a WIDER fetch, so it must be declared inexact (DataFusion re-filters locally); exact would surface rows the predicate excludes"@)
                && filter.fidelity is Exact
        }),
        validate::resource_problem(table, j) matches Some(problem) ==> problem == table.id + ": "@ + (
        "resource '"@ + table.required_resources[j] + "' is declared both required and optional"@),
        validate::filter_input_problem(table, j) matches Some(problem) ==> ({
            let input = table.filters[j].input_field;
            ||| problem == table.id + ": "@ + ("two filter mappings target input '"@ + input
                + "'; declare one mapping per input"@)
            ||| problem == table.id + ": "@ + ("filter input '"@ + input
                + "' collides with a pagination input, which is applied last and would overwrite the pushed predicate"@)
            ||| problem == table.id + ": "@ + ("filter input '"@ + input
                + "' collides with a declared resource"@)
        }),
        validate::fixed_input_problem(table, j) matches Some(problem) ==> ({
            let key = table.fixed_inputs[j].0;
            ||| problem == table.id + ": "@ + ("fixed input '"@ + key
                + "' collides with a declared resource — the request would carry an ambiguous value"@)
            ||| problem == table.id + ": "@ + ("fixed input '"@ + key
                + "' collides with a pagination input"@)
        }),
        validate::paged_resource_problem(table, j) matches Some(problem) ==> problem == table.id
            + ": "@ + ("resource '"@ + validate::pagination_inputs(table.pagination)[j]
            + "' collides with a pagination input, which is applied last and would overwrite it"@),
{
}

/// What an operator is called where a problem names it.
pub open spec fn operator_name(operator: FilterOperator) -> Seq<char> {
    match operator {
        FilterOperator::Eq => "Eq"@,
        FilterOperator::Gt => "Gt"@,
        FilterOperator::GtEq => "GtEq"@,
    }
}

/// What is wrong with a table's paging is told behind the table's ID: one input for two
/// things, or a page size of zero.
pub proof fn unsound_paging_is_told(table: TableView)
    ensures
        validate::paging_problem(table) matches Some(problem) ==> match table.pagination {
            StrategyView::PageNumber { page_param, per_page_param, per_page, .. } => (page_param
                == per_page_param && problem == table.id + ": "@ + ("pagination declares '"@
                + page_param + "' as both the page and page-size input"@)) || (per_page == 0
                && problem == table.id + ": "@ + "pagination page size must be positive"@),
            StrategyView::Cursor { cursor_param, page_size_param, page_size, .. } => (
            page_size_param == Some(cursor_param) && problem == table.id + ": "@ + (
            "pagination declares '"@ + cursor_param
                + "' as both the cursor and page-size input"@)) || (page_size == 0 && problem
                == table.id + ": "@ + "pagination page size must be positive"@),
            StrategyView::SinglePage => false,
        },
{
}

} // verus!
