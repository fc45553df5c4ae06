//! From a pack document to a source pack.
//!
//! A document is what a pack asset spells. Its shape is checked where it is
//! read; here it is cross-checked and turned into the long-lived values that
//! the scan engine borrows.
use vstd::prelude::*;

use crate::decimal::Decimal;
use crate::json;
use crate::json::{set_member, Json, JsonView, Number, NumberView};
use crate::open_connector::error::{ErrorView, OpenConnectorError};
use crate::open_connector::json_to_arrow;
use crate::open_connector::json_to_arrow::{FieldMapping, FieldType, FieldTypeView, SpecView};
use crate::open_connector::packs::validate;
use crate::open_connector::packs::validate::validate_table;
use crate::open_connector::pagination::{PaginationStrategy, StrategyView};
use crate::open_connector::row_path;
use crate::open_connector::source_pack;
use crate::open_connector::source_pack::{
    Fidelity, FilterMapping, FilterOperator, FilterView, FixedValue, PackView, SourcePack,
    SourcePackTable, TableView, ValueFormat,
};
use crate::order;
use crate::order::{find_repeated, order_of_keys};
use crate::text;
use crate::text::{chars_of, concat3, concat4, concat5};

verus! {

/// A floating-point number as a document spells it.
#[derive(Debug)]
pub enum FloatDoc {
    /// A finite number.
    Finite(Decimal),
    /// An infinity or not a number, by its name.
    NonFinite(String),
}

/// A number as a YAML document holds it.
#[derive(Debug)]
pub enum YamlNumber {
    /// An integer that fits in a signed 64-bit integer.
    Int(i64),
    /// A larger integer.
    UInt(u64),
    /// Any other number.
    Float(FloatDoc),
}

/// A YAML value.
#[derive(Debug)]
pub enum Yaml {
    Null,
    Bool(bool),
    Number(YamlNumber),
    String(String),
    Sequence(Vec<Yaml>),
    Mapping(Vec<(Yaml, Yaml)>),
    /// A value with a tag.
    Tagged,
}

/// A value that a table always sends, as a document spells it.
#[derive(Debug)]
pub enum FixedValueDoc {
    Bool(bool),
    Int(i64),
    Float(FloatDoc),
    Str(String),
    StrList(Vec<String>),
    /// Anything else, for inputs that are objects.
    Json(Yaml),
}

/// The column types that a document can name.
#[derive(Debug, Clone, Copy, PartialEq, Eq, Structural)]
pub enum ColumnType {
    Boolean,
    Int64,
    Uint64,
    Float64,
    Utf8,
    TimestampMsUtc,
    TimestampSUtc,
    TimestampMsStringUtc,
    TimestampSStringUtc,
    Utf8List,
    Utf8ListFromObjectKey,
    Json,
}

/// A column of a document.
#[derive(Debug)]
pub struct ColumnDoc {
    pub name: String,
    pub path: String,
    pub column_type: ColumnType,
    /// Object key to pluck; only with [`ColumnType::Utf8ListFromObjectKey`].
    pub key: Option<String>,
    pub nullable: bool,
}

/// A filter of a document.
#[derive(Debug)]
pub struct FilterDoc {
    pub column: String,
    pub op: FilterOperator,
    pub input: String,
    pub fidelity: Fidelity,
    pub format: ValueFormat,
}

/// The resource inputs of a document's table.
#[derive(Debug)]
pub struct ResourcesDoc {
    pub required: Vec<String>,
    pub optional: Vec<String>,
}

/// The pagination of a document's table.
#[derive(Debug)]
#[allow(inconsistent_fields)]
pub enum PaginationDoc {
    PageNumber {
        page_input: String,
        page_size_input: String,
        page_size: u32,
        total_pages_path: Option<String>,
        raw_page_size_path: Option<String>,
    },
    Cursor {
        cursor_input: String,
        next_cursor_path: String,
        page_size_input: Option<String>,
        page_size: u32,
        has_more_path: Option<String>,
    },
}

/// A table of a document.
#[derive(Debug)]
pub struct TableDoc {
    pub action: String,
    pub row_path: String,
    pub fingerprint: Option<String>,
    pub pagination: PaginationDoc,
    pub resources: ResourcesDoc,
    /// In any order.
    pub fixed_inputs: Vec<(String, FixedValueDoc)>,
    pub error_path: Option<String>,
    pub columns: Vec<ColumnDoc>,
    pub filters: Vec<FilterDoc>,
}

/// A pack document.
#[derive(Debug)]
pub struct PackDoc {
    pub pack: String,
    pub version: u32,
    /// In any order: the tables of the pack stand in the order of their keys,
    /// whatever the layout of the asset.
    pub tables: Vec<(String, TableDoc)>,
}

/// `String::leak` gives the same text for the rest of the process.
#[verifier::external_body]
fn leak_str(s: String) -> (r: &'static str)
    ensures
        r@ == s@,
{
    s.leak()
}

/// `Vec::leak` gives the same items for the rest of the process.
#[verifier::external_body]
fn leak_slice<T: 'static>(v: Vec<T>) -> (r: &'static [T])
    ensures
        r@ == v@,
{
    v.leak()
}

fn leak_str_slice(v: &Vec<String>) -> (r: &'static [&'static str])
    ensures
        source_pack::slice_texts(r@) == text::texts(v@),
{
    let mut out: Vec<&'static str> = Vec::new();
    let mut i: usize = 0;
    while i < v.len()
        invariant
            i <= v@.len(),
            out@.len() == i,
            forall|k: int| 0 <= k < i ==> (#[trigger] out@[k])@ == v@[k]@,
        decreases v@.len() - i,
    {
        out.push(leak_str(v[i].clone()));
        i += 1;
    }
    let r = leak_slice(out);
    assert(source_pack::slice_texts(r@) =~= text::texts(v@));
    r
}

/// The model of an optional text.
pub open spec fn optional_text(s: Option<String>) -> Option<Seq<char>> {
    match s {
        Some(s) => Some(s@),
        None => None,
    }
}

fn leak_option(s: &Option<String>) -> (r: Option<&'static str>)
    ensures
        text::optional(r) == optional_text(*s),
{
    match s {
        Some(s) => Some(leak_str(s.clone())),
        None => None,
    }
}

/// The strategy that a document's pagination stands for.
pub open spec fn strategy_of(doc: PaginationDoc) -> StrategyView {
    match doc {
        PaginationDoc::PageNumber {
            page_input,
            page_size_input,
            page_size,
            total_pages_path,
            raw_page_size_path,
        } => StrategyView::PageNumber {
            page_param: page_input@,
            per_page_param: page_size_input@,
            per_page: page_size,
            total_pages_path: optional_text(total_pages_path),
            raw_page_size_path: optional_text(raw_page_size_path),
        },
        PaginationDoc::Cursor {
            cursor_input,
            next_cursor_path,
            page_size_input,
            page_size,
            has_more_path,
        } => StrategyView::Cursor {
            cursor_param: cursor_input@,
            next_cursor_path: next_cursor_path@,
            page_size_param: optional_text(page_size_input),
            page_size,
            has_more_path: optional_text(has_more_path),
        },
    }
}

impl PaginationDoc {
    /// The strategy that the document stands for.
    pub fn into_strategy(&self) -> (r: PaginationStrategy)
        ensures
            r@ == strategy_of(*self),
    {
        match self {
            PaginationDoc::PageNumber {
                page_input,
                page_size_input,
                page_size,
                total_pages_path,
                raw_page_size_path,
            } => PaginationStrategy::PageNumber {
                page_param: leak_str(page_input.clone()),
                per_page_param: leak_str(page_size_input.clone()),
                per_page: *page_size,
                total_pages_path: leak_option(total_pages_path),
                raw_page_size_path: leak_option(raw_page_size_path),
            },
            PaginationDoc::Cursor {
                cursor_input,
                next_cursor_path,
                page_size_input,
                page_size,
                has_more_path,
            } => PaginationStrategy::Cursor {
                cursor_param: leak_str(cursor_input.clone()),
                next_cursor_path: leak_str(next_cursor_path.clone()),
                page_size_param: leak_option(page_size_input),
                page_size: *page_size,
                has_more_path: leak_option(has_more_path),
            },
        }
    }
}

/// How a column type is named in messages.
pub open spec fn type_text(t: ColumnType) -> Seq<char> {
    match t {
        ColumnType::Boolean => "Boolean"@,
        ColumnType::Int64 => "Int64"@,
        ColumnType::Uint64 => "Uint64"@,
        ColumnType::Float64 => "Float64"@,
        ColumnType::Utf8 => "Utf8"@,
        ColumnType::TimestampMsUtc => "TimestampMsUtc"@,
        ColumnType::TimestampSUtc => "TimestampSUtc"@,
        ColumnType::TimestampMsStringUtc => "TimestampMsStringUtc"@,
        ColumnType::TimestampSStringUtc => "TimestampSStringUtc"@,
        ColumnType::Utf8List => "Utf8List"@,
        ColumnType::Utf8ListFromObjectKey => "Utf8ListFromObjectKey"@,
        ColumnType::Json => "Json"@,
    }
}

fn column_type_name(t: ColumnType) -> (r: &'static str)
    ensures
        r@ == type_text(t),
{
    match t {
        ColumnType::Boolean => "Boolean",
        ColumnType::Int64 => "Int64",
        ColumnType::Uint64 => "Uint64",
        ColumnType::Float64 => "Float64",
        ColumnType::Utf8 => "Utf8",
        ColumnType::TimestampMsUtc => "TimestampMsUtc",
        ColumnType::TimestampSUtc => "TimestampSUtc",
        ColumnType::TimestampMsStringUtc => "TimestampMsStringUtc",
        ColumnType::TimestampSStringUtc => "TimestampSStringUtc",
        ColumnType::Utf8List => "Utf8List",
        ColumnType::Utf8ListFromObjectKey => "Utf8ListFromObjectKey",
        ColumnType::Json => "Json",
    }
}

/// The field type that a document's column stands for: a key goes with
/// plucking, and with nothing else.
pub open spec fn field_type_of(table_id: Seq<char>, doc: ColumnDoc) -> Result<
    FieldTypeView,
    Seq<char>,
> {
    match (doc.column_type, doc.key) {
        (ColumnType::Utf8ListFromObjectKey, Some(key)) => Ok(
            FieldTypeView::Utf8ListFromObjectKey(key@),
        ),
        (ColumnType::Utf8ListFromObjectKey, None) => Err(
            table_id + ": column '"@ + doc.name@
                + "' has type utf8_list_from_object_key and needs `key`"@,
        ),
        (other, Some(_)) => Err(
            table_id + ": column '"@ + doc.name@
                + "' declares `key`, which only utf8_list_from_object_key accepts (got "@
                + type_text(other) + ")"@,
        ),
        (ColumnType::Boolean, None) => Ok(FieldTypeView::Boolean),
        (ColumnType::Int64, None) => Ok(FieldTypeView::Int64),
        (ColumnType::Uint64, None) => Ok(FieldTypeView::UInt64),
        (ColumnType::Float64, None) => Ok(FieldTypeView::Float64),
        (ColumnType::Utf8, None) => Ok(FieldTypeView::Utf8),
        (ColumnType::TimestampMsUtc, None) => Ok(FieldTypeView::TimestampMillisUtc),
        (ColumnType::TimestampSUtc, None) => Ok(FieldTypeView::TimestampSecondsUtc),
        (ColumnType::TimestampMsStringUtc, None) => Ok(FieldTypeView::TimestampMillisStringUtc),
        (ColumnType::TimestampSStringUtc, None) => Ok(FieldTypeView::TimestampSecondsStringUtc),
        (ColumnType::Utf8List, None) => Ok(FieldTypeView::Utf8List),
        (ColumnType::Json, None) => Ok(FieldTypeView::Json),
    }
}

/// The field that a document's column stands for.
pub open spec fn field_of(table_id: Seq<char>, doc: ColumnDoc) -> Result<SpecView, Seq<char>> {
    match field_type_of(table_id, doc) {
        Ok(field_type) => Ok(
            SpecView { name: doc.name@, path: doc.path@, field_type, nullable: doc.nullable },
        ),
        Err(problem) => Err(problem),
    }
}

/// The field that a document's column stands for.
pub fn convert_column(table_id: &str, doc: &ColumnDoc) -> (r: Result<FieldMapping, String>)
    ensures
        match r {
            Ok(field) => field_of(table_id@, *doc) == Ok::<_, Seq<char>>(field@),
            Err(problem) => field_of(table_id@, *doc) == Err::<SpecView, _>(problem@),
        },
{
    let field_type = match (doc.column_type, &doc.key) {
        (ColumnType::Utf8ListFromObjectKey, Some(key)) => FieldType::Utf8ListFromObjectKey(
            leak_str(key.clone()),
        ),
        (ColumnType::Utf8ListFromObjectKey, None) => {
            return Err(
                concat4(
                    table_id,
                    ": column '",
                    doc.name.as_str(),
                    "' has type utf8_list_from_object_key and needs `key`",
                ),
            );
        },
        (other, Some(_)) => {
            let lead = concat4(
                table_id,
                ": column '",
                doc.name.as_str(),
                "' declares `key`, which only utf8_list_from_object_key accepts (got ",
            );
            return Err(concat3(lead.as_str(), column_type_name(other), ")"));
        },
        (ColumnType::Boolean, None) => FieldType::Boolean,
        (ColumnType::Int64, None) => FieldType::Int64,
        (ColumnType::Uint64, None) => FieldType::UInt64,
        (ColumnType::Float64, None) => FieldType::Float64,
        (ColumnType::Utf8, None) => FieldType::Utf8,
        (ColumnType::TimestampMsUtc, None) => FieldType::TimestampMillisUtc,
        (ColumnType::TimestampSUtc, None) => FieldType::TimestampSecondsUtc,
        (ColumnType::TimestampMsStringUtc, None) => FieldType::TimestampMillisStringUtc,
        (ColumnType::TimestampSStringUtc, None) => FieldType::TimestampSecondsStringUtc,
        (ColumnType::Utf8List, None) => FieldType::Utf8List,
        (ColumnType::Json, None) => FieldType::Json,
    };
    Ok(
        FieldMapping {
            name: leak_str(doc.name.clone()),
            path: leak_str(doc.path.clone()),
            field_type,
            nullable: doc.nullable,
        },
    )
}

/// The fields that a document's columns stand for, or the first problem.
pub open spec fn fields_of(table_id: Seq<char>, docs: Seq<ColumnDoc>) -> Result<
    Seq<SpecView>,
    Seq<char>,
>
    decreases docs.len(),
{
    if docs.len() == 0 {
        Ok(Seq::empty())
    } else {
        match fields_of(table_id, docs.drop_last()) {
            Ok(done) => match field_of(table_id, docs.last()) {
                Ok(field) => Ok(done.push(field)),
                Err(problem) => Err(problem),
            },
            Err(problem) => Err(problem),
        }
    }
}

proof fn bad_column_stands(table_id: Seq<char>, docs: Seq<ColumnDoc>, i: int)
    requires
        0 <= i <= docs.len(),
        fields_of(table_id, docs.take(i)) is Err,
    ensures
        fields_of(table_id, docs) == fields_of(table_id, docs.take(i)),
    decreases docs.len(),
{
    if i == docs.len() {
        assert(docs.take(i) =~= docs);
    } else {
        assert(docs.drop_last().take(i) =~= docs.take(i));
        bad_column_stands(table_id, docs.drop_last(), i);
    }
}

fn convert_columns(table_id: &str, docs: &Vec<ColumnDoc>) -> (r: Result<Vec<FieldMapping>, String>)
    ensures
        match r {
            Ok(fields) => fields_of(table_id@, docs@) == Ok::<_, Seq<char>>(
                json_to_arrow::mapping_views(fields@),
            ),
            Err(problem) => fields_of(table_id@, docs@) == Err::<Seq<SpecView>, _>(problem@),
        },
{
    let mut fields: Vec<FieldMapping> = Vec::new();
    let mut i: usize = 0;
    assert(docs@.take(0) =~= Seq::empty());
    assert(json_to_arrow::mapping_views(fields@) =~= Seq::empty());
    while i < docs.len()
        invariant
            i <= docs@.len(),
            fields_of(table_id@, docs@.take(i as int)) == Ok::<_, Seq<char>>(
                json_to_arrow::mapping_views(fields@),
            ),
        decreases docs@.len() - i,
    {
        let ghost before = json_to_arrow::mapping_views(fields@);
        assert(docs@.take(i + 1).drop_last() =~= docs@.take(i as int));
        match convert_column(table_id, &docs[i]) {
            Ok(field) => {
                fields.push(field);
                assert(json_to_arrow::mapping_views(fields@) =~= before.push(field@));
            },
            Err(problem) => {
                proof {
                    bad_column_stands(table_id@, docs@, i + 1);
                }
                return Err(problem);
            },
        }
        i += 1;
    }
    assert(docs@.take(i as int) =~= docs@);
    Ok(fields)
}

/// The filter that a document's filter stands for.
pub open spec fn filter_of(doc: FilterDoc) -> FilterView {
    FilterView {
        column: doc.column@,
        operator: doc.op,
        input_field: doc.input@,
        fidelity: doc.fidelity,
        value_format: doc.format,
    }
}

/// The filter that a document's filter stands for.
pub fn convert_filter(doc: &FilterDoc) -> (r: FilterMapping)
    ensures
        r@ == filter_of(*doc),
{
    FilterMapping {
        column: leak_str(doc.column.clone()),
        operator: doc.op,
        input_field: leak_str(doc.input.clone()),
        fidelity: doc.fidelity,
        value_format: doc.format,
    }
}

/// The filters that a document's filters stand for.
pub open spec fn filters_of(docs: Seq<FilterDoc>) -> Seq<FilterView> {
    Seq::new(docs.len(), |i: int| filter_of(docs[i]))
}

fn convert_filters(docs: &Vec<FilterDoc>) -> (r: Vec<FilterMapping>)
    ensures
        source_pack::filter_views(r@) == filters_of(docs@),
{
    let mut out: Vec<FilterMapping> = Vec::new();
    let mut i: usize = 0;
    while i < docs.len()
        invariant
            i <= docs@.len(),
            out@.len() == i,
            forall|k: int| 0 <= k < i ==> (#[trigger] out@[k])@ == filter_of(docs@[k]),
        decreases docs@.len() - i,
    {
        out.push(convert_filter(&docs[i]));
        i += 1;
    }
    assert(source_pack::filter_views(out@) =~= filters_of(docs@));
    out
}

/// The JSON value of a YAML value, or why it has none: JSON spells no
/// infinities and no NaN, has only strings for keys, and has no tags.
pub open spec fn yaml_json(value: Yaml) -> Result<JsonView, Seq<char>>
    decreases value,
{
    match value {
        Yaml::Null => Ok(JsonView::Null),
        Yaml::Bool(b) => Ok(JsonView::Bool(b)),
        Yaml::Number(YamlNumber::Int(n)) => Ok(source_pack::signed(n)),
        Yaml::Number(YamlNumber::UInt(n)) => Ok(JsonView::Number(NumberView::PosInt(n))),
        Yaml::Number(YamlNumber::Float(FloatDoc::Finite(double))) => Ok(
            JsonView::Number(NumberView::Double(double@)),
        ),
        Yaml::Number(YamlNumber::Float(FloatDoc::NonFinite(name))) => Err(
            "contains "@ + name@ + ", which has no JSON spelling; pin finite numbers only"@,
        ),
        Yaml::String(s) => Ok(JsonView::String(s@)),
        Yaml::Sequence(items) => match yaml_items(items@) {
            Ok(values) => Ok(JsonView::Array(values)),
            Err(problem) => Err(problem),
        },
        Yaml::Mapping(members) => match yaml_members(members@) {
            Ok(map) => Ok(JsonView::Object(map)),
            Err(problem) => Err(problem),
        },
        Yaml::Tagged => Err("contains a YAML tag, which JSON cannot represent"@),
    }
}

/// The JSON values of YAML values in a row, or the first problem.
pub open spec fn yaml_items(items: Seq<Yaml>) -> Result<Seq<JsonView>, Seq<char>>
    decreases items,
{
    if items.len() == 0 {
        Ok(Seq::empty())
    } else {
        match yaml_items(items.drop_last()) {
            Ok(done) => match yaml_json(items.last()) {
                Ok(value) => Ok(done.push(value)),
                Err(problem) => Err(problem),
            },
            Err(problem) => Err(problem),
        }
    }
}

/// The JSON members of YAML members in a row, or the first problem.
pub open spec fn yaml_members(members: Seq<(Yaml, Yaml)>) -> Result<
    Map<Seq<char>, JsonView>,
    Seq<char>,
>
    decreases members,
{
    if members.len() == 0 {
        Ok(Map::empty())
    } else {
        match yaml_members(members.drop_last()) {
            Ok(done) => match members.last().0 {
                Yaml::String(key) => match yaml_json(members.last().1) {
                    Ok(value) => Ok(done.insert(key@, value)),
                    Err(problem) => Err(problem),
                },
                _ => Err("contains a non-string mapping key, which JSON cannot represent"@),
            },
            Err(problem) => Err(problem),
        }
    }
}

proof fn bad_item_stands(items: Seq<Yaml>, i: int)
    requires
        0 <= i <= items.len(),
        yaml_items(items.take(i)) is Err,
    ensures
        yaml_items(items) == yaml_items(items.take(i)),
    decreases items.len(),
{
    if i == items.len() {
        assert(items.take(i) =~= items);
    } else {
        assert(items.drop_last().take(i) =~= items.take(i));
        bad_item_stands(items.drop_last(), i);
    }
}

proof fn bad_member_stands(members: Seq<(Yaml, Yaml)>, i: int)
    requires
        0 <= i <= members.len(),
        yaml_members(members.take(i)) is Err,
    ensures
        yaml_members(members) == yaml_members(members.take(i)),
    decreases members.len(),
{
    if i == members.len() {
        assert(members.take(i) =~= members);
    } else {
        assert(members.drop_last().take(i) =~= members.take(i));
        bad_member_stands(members.drop_last(), i);
    }
}

/// The JSON value of a YAML value. The error is a fragment that callers put
/// behind the name of what holds the value.
pub fn yaml_to_json(value: &Yaml) -> (r: Result<Json, String>)
    ensures
        match r {
            Ok(json) => yaml_json(*value) == Ok::<_, Seq<char>>(json@),
            Err(problem) => yaml_json(*value) == Err::<JsonView, _>(problem@),
        },
    decreases value,
{
    match value {
        Yaml::Null => Ok(Json::Null),
        Yaml::Bool(b) => Ok(Json::Bool(*b)),
        Yaml::Number(YamlNumber::Int(n)) => Ok(Json::Number(Number::NegInt(*n))),
        Yaml::Number(YamlNumber::UInt(n)) => Ok(Json::Number(Number::PosInt(*n))),
        Yaml::Number(YamlNumber::Float(FloatDoc::Finite(double))) => Ok(
            Json::Number(Number::Double(double.clone())),
        ),
        Yaml::Number(YamlNumber::Float(FloatDoc::NonFinite(name))) => Err(
            concat3(
                "contains ",
                name.as_str(),
                ", which has no JSON spelling; pin finite numbers only",
            ),
        ),
        Yaml::String(s) => Ok(Json::String(s.clone())),
        Yaml::Sequence(items) => {
            let mut out: Vec<Json> = Vec::new();
            let mut i: usize = 0;
            assert(items@.take(0) =~= Seq::empty());
            assert(json::views(out@) =~= Seq::empty());
            while i < items.len()
                invariant
                    *value == Yaml::Sequence(*items),
                    i <= items@.len(),
                    yaml_items(items@.take(i as int)) == Ok::<_, Seq<char>>(json::views(out@)),
                decreases items@.len() - i,
            {
                let ghost before = json::views(out@);
                proof {
                    assert(decreases_to!(value => value->Sequence_0));
                    assert(decreases_to!(items => items@));
                    assert(decreases_to!(items@ => items@[i as int]));
                    assert(items@.take(i + 1).drop_last() =~= items@.take(i as int));
                }
                match yaml_to_json(&items[i]) {
                    Ok(json) => {
                        out.push(json);
                        assert(json::views(out@) =~= before.push(json@));
                    },
                    Err(problem) => {
                        proof {
                            bad_item_stands(items@, i + 1);
                        }
                        return Err(problem);
                    },
                }
                i += 1;
            }
            assert(items@.take(i as int) =~= items@);
            let r = Json::Array(out);
            assert(r@->Array_0 =~= json::views(out@));
            Ok(r)
        },
        Yaml::Mapping(members) => {
            let mut out: Vec<(String, Json)> = Vec::new();
            let mut i: usize = 0;
            assert(members@.take(0) =~= Seq::empty());
            while i < members.len()
                invariant
                    *value == Yaml::Mapping(*members),
                    i <= members@.len(),
                    yaml_members(members@.take(i as int)) == Ok::<_, Seq<char>>(
                        json::members_view(out@),
                    ),
                decreases members@.len() - i,
            {
                proof {
                    assert(decreases_to!(value => value->Mapping_0));
                    assert(decreases_to!(members => members@));
                    assert(decreases_to!(members@ => members@[i as int]));
                    assert(decreases_to!(members@[i as int] => members@[i as int].1));
                    assert(members@.take(i + 1).drop_last() =~= members@.take(i as int));
                }
                let key = match &members[i].0 {
                    Yaml::String(key) => key,
                    _ => {
                        proof {
                            bad_member_stands(members@, i + 1);
                        }
                        return Err(
                            "contains a non-string mapping key, which JSON cannot represent".to_owned(),
                        );
                    },
                };
                match yaml_to_json(&members[i].1) {
                    Ok(json) => {
                        set_member(&mut out, key.clone(), json);
                    },
                    Err(problem) => {
                        proof {
                            bad_member_stands(members@, i + 1);
                        }
                        return Err(problem);
                    },
                }
                i += 1;
            }
            assert(members@.take(i as int) =~= members@);
            Ok(Json::Object(out))
        },
        Yaml::Tagged => Err("contains a YAML tag, which JSON cannot represent".to_owned()),
    }
}

/// The JSON value that a document's fixed input stands for.
pub open spec fn fixed_of(table_id: Seq<char>, key: Seq<char>, doc: FixedValueDoc) -> Result<
    JsonView,
    Seq<char>,
> {
    match doc {
        FixedValueDoc::Bool(b) => Ok(JsonView::Bool(b)),
        FixedValueDoc::Int(n) => Ok(source_pack::signed(n)),
        FixedValueDoc::Float(FloatDoc::Finite(double)) => Ok(
            JsonView::Number(NumberView::Double(double@)),
        ),
        FixedValueDoc::Float(FloatDoc::NonFinite(name)) => Err(
            table_id + ": fixed input '"@ + key + "' contains "@ + name@
                + ", which has no JSON spelling; pin finite numbers only"@,
        ),
        FixedValueDoc::Str(s) => Ok(JsonView::String(s@)),
        FixedValueDoc::StrList(items) => Ok(json::string_array(text::texts(items@))),
        FixedValueDoc::Json(value) => match yaml_json(value) {
            Ok(json) => Ok(json),
            Err(problem) => Err(table_id + ": fixed input '"@ + key + "' "@ + problem),
        },
    }
}

fn convert_fixed(table_id: &str, key: &str, doc: &FixedValueDoc) -> (r: Result<FixedValue, String>)
    ensures
        match r {
            Ok(value) => fixed_of(table_id@, key@, *doc) == Ok::<_, Seq<char>>(value@),
            Err(problem) => fixed_of(table_id@, key@, *doc) == Err::<JsonView, _>(problem@),
        },
{
    match doc {
        FixedValueDoc::Bool(b) => Ok(FixedValue::Bool(*b)),
        FixedValueDoc::Int(n) => Ok(FixedValue::Int(*n)),
        FixedValueDoc::Float(FloatDoc::Finite(double)) => Ok(FixedValue::Float(double.clone())),
        FixedValueDoc::Float(FloatDoc::NonFinite(name)) => {
            let lead = concat4(table_id, ": fixed input '", key, "' contains ");
            Err(
                concat3(
                    lead.as_str(),
                    name.as_str(),
                    ", which has no JSON spelling; pin finite numbers only",
                ),
            )
        },
        FixedValueDoc::Str(s) => Ok(FixedValue::Str(leak_str(s.clone()))),
        FixedValueDoc::StrList(items) => Ok(FixedValue::StrList(leak_str_slice(items))),
        FixedValueDoc::Json(value) => match yaml_to_json(value) {
            Ok(json) => Ok(FixedValue::Json(json)),
            Err(problem) => Err(
                concat5(table_id, ": fixed input '", key, "' ", problem.as_str()),
            ),
        },
    }
}

/// The fixed inputs that a document's stand for, or the first problem.
pub open spec fn all_fixed_of(table_id: Seq<char>, docs: Seq<(String, FixedValueDoc)>) -> Result<
    Seq<(Seq<char>, JsonView)>,
    Seq<char>,
>
    decreases docs.len(),
{
    if docs.len() == 0 {
        Ok(Seq::empty())
    } else {
        match all_fixed_of(table_id, docs.drop_last()) {
            Ok(done) => match fixed_of(table_id, docs.last().0@, docs.last().1) {
                Ok(value) => Ok(done.push((docs.last().0@, value))),
                Err(problem) => Err(problem),
            },
            Err(problem) => Err(problem),
        }
    }
}

proof fn bad_fixed_stands(table_id: Seq<char>, docs: Seq<(String, FixedValueDoc)>, i: int)
    requires
        0 <= i <= docs.len(),
        all_fixed_of(table_id, docs.take(i)) is Err,
    ensures
        all_fixed_of(table_id, docs) == all_fixed_of(table_id, docs.take(i)),
    decreases docs.len(),
{
    if i == docs.len() {
        assert(docs.take(i) =~= docs);
    } else {
        assert(docs.drop_last().take(i) =~= docs.take(i));
        bad_fixed_stands(table_id, docs.drop_last(), i);
    }
}

/// The keys of a document's entries.
pub open spec fn entry_keys<T>(entries: Seq<(String, T)>) -> Seq<Seq<char>> {
    Seq::new(entries.len(), |i: int| entries[i].0@)
}

/// The entries of a document in the order of their keys.
pub open spec fn in_key_order<T>(entries: Seq<(String, T)>) -> Seq<(String, T)> {
    Seq::new(
        entries.len(),
        |i: int| entries[order::key_order(entry_keys(entries), entries.len())[i]],
    )
}

fn keys_of_entries<T>(entries: &Vec<(String, T)>) -> (r: Vec<String>)
    ensures
        text::texts(r@) == entry_keys(entries@),
{
    let mut keys: Vec<String> = Vec::new();
    let mut i: usize = 0;
    while i < entries.len()
        invariant
            i <= entries@.len(),
            keys@.len() == i,
            forall|k: int| 0 <= k < i ==> (#[trigger] keys@[k])@ == entries@[k].0@,
        decreases entries@.len() - i,
    {
        keys.push(entries[i].0.clone());
        i += 1;
    }
    assert(text::texts(keys@) =~= entry_keys(entries@));
    keys
}

/// The fixed inputs of a table in the order of their keys, or the first
/// problem. No key may occur twice.
pub open spec fn ordered_fixed_of(table_id: Seq<char>, docs: Seq<(String, FixedValueDoc)>) -> Result<
    Seq<(Seq<char>, JsonView)>,
    Seq<char>,
> {
    match order::repeated(entry_keys(docs)) {
        Some(key) => Err(table_id + ": fixed input '"@ + key + "' is declared twice"@),
        None => all_fixed_of(table_id, in_key_order(docs)),
    }
}

fn convert_all_fixed(table_id: &str, docs: &Vec<(String, FixedValueDoc)>) -> (r: Result<
    Vec<(&'static str, FixedValue)>,
    String,
>)
    ensures
        match r {
            Ok(inputs) => ordered_fixed_of(table_id@, docs@) == Ok::<_, Seq<char>>(
                source_pack::fixed_views(inputs@),
            ),
            Err(problem) => ordered_fixed_of(table_id@, docs@) == Err::<
                Seq<(Seq<char>, JsonView)>,
                _,
            >(problem@),
        },
{
    let keys = keys_of_entries(docs);
    assert(text::texts(keys@).len() == keys@.len());
    if let Some(key) = find_repeated(&keys) {
        return Err(concat4(table_id, ": fixed input '", key.as_str(), "' is declared twice"));
    }
    let order = order_of_keys(&keys);
    let ghost all = in_key_order(docs@);
    let mut inputs: Vec<(&'static str, FixedValue)> = Vec::new();
    let mut i: usize = 0;
    assert(all.take(0) =~= Seq::empty());
    assert(source_pack::fixed_views(inputs@) =~= Seq::empty());
    while i < order.len()
        invariant
            all.len() == docs@.len(),
            order@.len() == docs@.len(),
            forall|k: int|
                0 <= k < order@.len() ==> (#[trigger] order@[k]) < docs@.len() && all[k]
                    == docs@[order@[k] as int],
            i <= order@.len(),
            order::repeated(entry_keys(docs@)) is None,
            all == in_key_order(docs@),
            all_fixed_of(table_id@, all.take(i as int)) == Ok::<_, Seq<char>>(
                source_pack::fixed_views(inputs@),
            ),
        decreases order@.len() - i,
    {
        let ghost before = source_pack::fixed_views(inputs@);
        assert(all.take(i + 1).drop_last() =~= all.take(i as int));
        let at: usize = order[i];
        assert(all.take(i + 1).last() == docs@[at as int]);
        let key = &docs[at].0;
        match convert_fixed(table_id, key.as_str(), &docs[at].1) {
            Ok(value) => {
                let ghost view = value@;
                inputs.push((leak_str(key.clone()), value));
                assert(source_pack::fixed_views(inputs@) =~= before.push((key@, view)));
            },
            Err(problem) => {
                proof {
                    bad_fixed_stands(table_id@, all, i + 1);
                }
                return Err(problem);
            },
        }
        i += 1;
    }
    assert(all.take(i as int) =~= all);
    Ok(inputs)
}

/// The full ID of a table.
pub open spec fn table_id(pack: Seq<char>, short_name: Seq<char>) -> Seq<char> {
    pack + "."@ + short_name
}

/// The table that a document's table stands for, or its first problem.
pub open spec fn table_of(pack: Seq<char>, short_name: Seq<char>, doc: TableDoc) -> Result<
    TableView,
    Seq<char>,
> {
    let id = table_id(pack, short_name);
    match fields_of(id, doc.columns@) {
        Ok(fields) => match ordered_fixed_of(id, doc.fixed_inputs@) {
            Ok(fixed_inputs) => {
                let table = TableView {
                    id,
                    action_id: doc.action@,
                    row_path: doc.row_path@,
                    fields,
                    pagination: strategy_of(doc.pagination),
                    required_resources: text::texts(doc.resources.required@),
                    optional_resources: text::texts(doc.resources.optional@),
                    fixed_inputs,
                    filters: filters_of(doc.filters@),
                    error_path: optional_text(doc.error_path),
                    expected_fingerprint: optional_text(doc.fingerprint),
                };
                match validate::table_problem(table) {
                    Some(problem) => Err(problem),
                    None => Ok(table),
                }
            },
            Err(problem) => Err(problem),
        },
        Err(problem) => Err(problem),
    }
}

/// The table that a document's table stands for.
pub fn convert_table(pack: &'static str, short_name: &str, doc: &TableDoc) -> (r: Result<
    SourcePackTable,
    String,
>)
    ensures
        match r {
            Ok(table) => table_of(pack@, short_name@, *doc) == Ok::<_, Seq<char>>(table@),
            Err(problem) => table_of(pack@, short_name@, *doc) == Err::<TableView, _>(problem@),
        },
{
    let id = leak_str(concat3(pack, ".", short_name));
    let fields = match convert_columns(id, &doc.columns) {
        Ok(fields) => fields,
        Err(problem) => {
            return Err(problem);
        },
    };
    let filters = convert_filters(&doc.filters);
    let fixed_inputs = match convert_all_fixed(id, &doc.fixed_inputs) {
        Ok(inputs) => inputs,
        Err(problem) => {
            return Err(problem);
        },
    };
    let table = SourcePackTable {
        id,
        action_id: leak_str(doc.action.clone()),
        row_path: leak_str(doc.row_path.clone()),
        fields: leak_slice(fields),
        pagination: doc.pagination.into_strategy(),
        required_resources: leak_str_slice(&doc.resources.required),
        optional_resources: leak_str_slice(&doc.resources.optional),
        fixed_inputs: leak_slice(fixed_inputs),
        filters: leak_slice(filters),
        error_path: leak_option(&doc.error_path),
        expected_fingerprint: leak_option(&doc.fingerprint),
    };
    match validate_table(&table) {
        Ok(_) => Ok(table),
        Err(problem) => Err(problem),
    }
}

/// The tables that a document's tables stand for, or the first problem. A
/// table's key is a bare name.
pub open spec fn tables_of(pack: Seq<char>, docs: Seq<(String, TableDoc)>) -> Result<
    Seq<TableView>,
    Seq<char>,
>
    decreases docs.len(),
{
    if docs.len() == 0 {
        Ok(Seq::empty())
    } else {
        match tables_of(pack, docs.drop_last()) {
            Ok(done) => {
                let key = docs.last().0@;
                if key.contains('.') {
                    Err(
                        "table key '"@ + key
                            + "' must be a bare name; the id is derived as <pack>.<table>"@,
                    )
                } else {
                    match table_of(pack, key, docs.last().1) {
                        Ok(table) => Ok(done.push(table)),
                        Err(problem) => Err(problem),
                    }
                }
            },
            Err(problem) => Err(problem),
        }
    }
}

proof fn bad_table_stands(pack: Seq<char>, docs: Seq<(String, TableDoc)>, i: int)
    requires
        0 <= i <= docs.len(),
        tables_of(pack, docs.take(i)) is Err,
    ensures
        tables_of(pack, docs) == tables_of(pack, docs.take(i)),
    decreases docs.len(),
{
    if i == docs.len() {
        assert(docs.take(i) =~= docs);
    } else {
        assert(docs.drop_last().take(i) =~= docs.take(i));
        bad_table_stands(pack, docs.drop_last(), i);
    }
}

/// The pack that a document stands for, or its first problem. Its tables stand
/// in the order of their keys, and no key may occur twice.
pub open spec fn pack_of(doc: PackDoc) -> Result<PackView, Seq<char>> {
    if doc.tables@.len() == 0 {
        Err("a pack must declare at least one table"@)
    } else {
        match order::repeated(entry_keys(doc.tables@)) {
            Some(key) => Err("table key '"@ + key + "' is declared twice"@),
            None => match tables_of(doc.pack@, in_key_order(doc.tables@)) {
                Ok(tables) => Ok(PackView { name: doc.pack@, version: doc.version, tables }),
                Err(problem) => Err(problem),
            },
        }
    }
}

fn has_dot(s: &str) -> (r: bool)
    ensures
        r == s@.contains('.'),
{
    let chars = chars_of(s);
    let mut i: usize = 0;
    while i < chars.len()
        invariant
            chars@ == s@,
            i <= chars@.len(),
            forall|k: int| 0 <= k < i ==> chars@[k] != '.',
        decreases chars@.len() - i,
    {
        if chars[i] == '.' {
            assert(s@[i as int] == '.');
            return true;
        }
        i += 1;
    }
    false
}

/// The models of tables in a row.
pub open spec fn table_views(tables: Seq<SourcePackTable>) -> Seq<TableView> {
    Seq::new(tables.len(), |i: int| tables[i]@)
}

/// The pack that a document stands for.
pub fn parse_pack(doc: &PackDoc) -> (r: Result<SourcePack, String>)
    ensures
        match r {
            Ok(pack) => pack_of(*doc) == Ok::<_, Seq<char>>(pack@),
            Err(problem) => pack_of(*doc) == Err::<PackView, _>(problem@),
        },
{
    if doc.tables.len() == 0 {
        return Err("a pack must declare at least one table".to_owned());
    }
    let keys = keys_of_entries(&doc.tables);
    assert(text::texts(keys@).len() == keys@.len());
    if let Some(key) = find_repeated(&keys) {
        return Err(concat3("table key '", key.as_str(), "' is declared twice"));
    }
    let order = order_of_keys(&keys);
    let ghost all = in_key_order(doc.tables@);
    let name = leak_str(doc.pack.clone());
    let mut tables: Vec<SourcePackTable> = Vec::new();
    let mut i: usize = 0;
    assert(all.take(0) =~= Seq::empty());
    assert(table_views(tables@) =~= Seq::empty());
    while i < order.len()
        invariant
            name@ == doc.pack@,
            all.len() == doc.tables@.len(),
            order@.len() == doc.tables@.len(),
            forall|k: int|
                0 <= k < order@.len() ==> (#[trigger] order@[k]) < doc.tables@.len() && all[k]
                    == doc.tables@[order@[k] as int],
            i <= order@.len(),
            doc.tables@.len() > 0,
            order::repeated(entry_keys(doc.tables@)) is None,
            all == in_key_order(doc.tables@),
            tables_of(doc.pack@, all.take(i as int)) == Ok::<_, Seq<char>>(table_views(tables@)),
        decreases order@.len() - i,
    {
        let ghost before = table_views(tables@);
        assert(all.take(i + 1).drop_last() =~= all.take(i as int));
        let at: usize = order[i];
        assert(all.take(i + 1).last() == doc.tables@[at as int]);
        let key = &doc.tables[at].0;
        if has_dot(key.as_str()) {
            proof {
                bad_table_stands(doc.pack@, all, i + 1);
            }
            return Err(
                concat3(
                    "table key '",
                    key.as_str(),
                    "' must be a bare name; the id is derived as <pack>.<table>",
                ),
            );
        }
        match convert_table(name, key.as_str(), &doc.tables[at].1) {
            Ok(table) => {
                let ghost view = table@;
                tables.push(table);
                assert(table_views(tables@) =~= before.push(view));
            },
            Err(problem) => {
                proof {
                    bad_table_stands(doc.pack@, all, i + 1);
                }
                return Err(problem);
            },
        }
        i += 1;
    }
    assert(all.take(i as int) =~= all);
    let pack = SourcePack { name, version: doc.version, tables: leak_slice(tables) };
    assert(pack@.tables =~= table_views(tables@));
    Ok(pack)
}

/// Whether `r` is what a built-in pack gives, `parsed` being what its asset
/// parsed to: the pack, or a diagnostic that names the asset.
pub open spec fn is_builtin(
    asset: Seq<char>,
    parsed: Result<SourcePack, String>,
    r: Result<&'static SourcePack, OpenConnectorError>,
) -> bool {
    match parsed {
        Ok(pack) => r matches Ok(given) && *given == pack,
        Err(reason) => r matches Err(e) && e@ == (ErrorView::SourcePackAssetInvalid {
            asset,
            reason: reason@,
        }),
    }
}

/// A built-in pack, given what its asset parsed to. A malformed asset gives a
/// diagnostic on every access.
pub fn builtin(asset: &'static str, parsed: &'static Result<SourcePack, String>) -> (r: Result<
    &'static SourcePack,
    OpenConnectorError,
>)
    ensures
        is_builtin(asset@, *parsed, r),
{
    match parsed {
        Ok(pack) => Ok(pack),
        Err(reason) => Err(
            OpenConnectorError::SourcePackAssetInvalid {
                asset: asset.to_owned(),
                reason: reason.clone(),
            },
        ),
    }
}

/// Entries in the order of their keys are the entries, and their keys ascend.
pub proof fn ordered_entries_ascend<T>(entries: Seq<(String, T)>)
    requires
        order::repeated(entry_keys(entries)) is None,
    ensures
        order::sorts(entry_keys(entries), entry_keys(in_key_order(entries))),
        forall|i: int|
            0 <= i < entries.len() ==> entries.contains(#[trigger] in_key_order(entries)[i]),
{
    let keys = entry_keys(entries);
    let n = entries.len();
    let places = order::key_order(keys, n);
    let sorted = entry_keys(in_key_order(entries));
    assert forall|i: int, j: int| 0 <= i < j < keys.len() implies #[trigger] keys[i]
        != #[trigger] keys[j] by {
        order::unrepeated_names_differ(keys, i, j);
    }
    order::key_order_holds_indices(keys, n);
    order::key_order_ascends(keys, n);
    assert forall|i: int| 0 <= i < n implies #[trigger] sorted[i] == keys[places[i]]
        && entries.contains(in_key_order(entries)[i]) by {
        assert(in_key_order(entries)[i] == entries[places[i]]);
    }
    assert forall|t: Seq<char>| #[trigger] sorted.contains(t) <==> keys.contains(t) by {
        if sorted.contains(t) {
            let i = choose|i: int| 0 <= i < sorted.len() && sorted[i] == t;
            assert(keys[places[i]] == t);
        }
        if keys.contains(t) {
            let k = choose|k: int| 0 <= k < keys.len() && keys[k] == t;
            assert(places.contains(k));
            let i = choose|i: int| 0 <= i < places.len() && places[i] == k;
            assert(sorted[i] == t);
        }
    }
}

/// Every table of a loaded pack is valid. There is one for each key of the
/// document, named after the pack and the key, and they stand in the order of
/// the keys.
pub proof fn a_loaded_pack_is_valid(doc: PackDoc)
    requires
        pack_of(doc) is Ok,
    ensures
        ({
            let tables = pack_of(doc)->Ok_0.tables;
            let entries = in_key_order(doc.tables@);
            &&& tables.len() == doc.tables@.len()
            &&& order::sorts(entry_keys(doc.tables@), entry_keys(entries))
            &&& forall|i: int|
                0 <= i < tables.len() ==> {
                    &&& validate::table_problem(#[trigger] tables[i]) is None
                    &&& tables[i].id == table_id(doc.pack@, entries[i].0@)
                    &&& !entries[i].0@.contains('.')
                    &&& doc.tables@.contains(entries[i])
                }
        }),
{
    loaded_tables_are_valid(doc.pack@, in_key_order(doc.tables@));
    ordered_entries_ascend(doc.tables@);
}

/// The order of a document's tables does not matter.
pub proof fn the_layout_of_a_document_does_not_matter(a: PackDoc, b: PackDoc)
    requires
        a.pack@ == b.pack@,
        a.version == b.version,
        order::repeated(entry_keys(a.tables@)) is None,
        order::repeated(entry_keys(b.tables@)) is None,
        forall|entry: (String, TableDoc)|
            a.tables@.contains(entry) == #[trigger] b.tables@.contains(entry),
    ensures
        pack_of(a) == pack_of(b),
{
    let x = in_key_order(a.tables@);
    let y = in_key_order(b.tables@);
    let keys = entry_keys(a.tables@);
    let others = entry_keys(b.tables@);
    ordered_entries_ascend(a.tables@);
    ordered_entries_ascend(b.tables@);
    assert forall|t: Seq<char>| keys.contains(t) == #[trigger] others.contains(t) by {
        if keys.contains(t) {
            let k = choose|k: int| 0 <= k < keys.len() && keys[k] == t;
            assert(a.tables@.contains(a.tables@[k]));
            assert(b.tables@.contains(a.tables@[k]));
            let m = choose|m: int| 0 <= m < b.tables@.len() && b.tables@[m] == a.tables@[k];
            assert(others[m] == t);
        }
        if others.contains(t) {
            let k = choose|k: int| 0 <= k < others.len() && others[k] == t;
            assert(b.tables@.contains(b.tables@[k]));
            assert(a.tables@.contains(b.tables@[k]));
            let m = choose|m: int| 0 <= m < a.tables@.len() && a.tables@[m] == b.tables@[k];
            assert(keys[m] == t);
        }
    }
    assert(order::sorts(keys, entry_keys(y)));
    order::sorting_has_one_result(keys, entry_keys(x), entry_keys(y));
    assert(entry_keys(x).len() == x.len() && entry_keys(y).len() == y.len());
    assert forall|i: int| 0 <= i < x.len() implies x[i] == y[i] by {
        assert(entry_keys(x)[i] == entry_keys(y)[i]);
        assert(b.tables@.contains(x[i]));
        assert(b.tables@.contains(y[i]));
        let m = choose|m: int| 0 <= m < b.tables@.len() && b.tables@[m] == x[i];
        let n = choose|n: int| 0 <= n < b.tables@.len() && b.tables@[n] == y[i];
        assert(others[m] == others[n]);
        if m < n {
            order::unrepeated_names_differ(others, m, n);
        } else if n < m {
            order::unrepeated_names_differ(others, n, m);
        }
    }
    assert(x =~= y);
}

proof fn loaded_tables_are_valid(pack: Seq<char>, docs: Seq<(String, TableDoc)>)
    requires
        tables_of(pack, docs) is Ok,
    ensures
        tables_of(pack, docs)->Ok_0.len() == docs.len(),
        forall|i: int|
            0 <= i < docs.len() ==> {
                &&& validate::table_problem(#[trigger] tables_of(pack, docs)->Ok_0[i]) is None
                &&& tables_of(pack, docs)->Ok_0[i].id == table_id(pack, docs[i].0@)
                &&& !docs[i].0@.contains('.')
            },
    decreases docs.len(),
{
    if docs.len() > 0 {
        let shorter = docs.drop_last();
        loaded_tables_are_valid(pack, shorter);
        let tables = tables_of(pack, docs)->Ok_0;
        assert forall|i: int| 0 <= i < docs.len() implies {
            &&& validate::table_problem(#[trigger] tables[i]) is None
            &&& tables[i].id == table_id(pack, docs[i].0@)
            &&& !docs[i].0@.contains('.')
        } by {
            if i < docs.len() - 1 {
                assert(tables[i] == tables_of(pack, shorter)->Ok_0[i]);
                assert(shorter[i] == docs[i]);
            }
        }
    }
}

} // verus!
