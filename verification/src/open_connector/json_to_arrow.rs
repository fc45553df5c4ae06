//! Conversion of JSON rows to Arrow columns against a table's fixed schema.
//!
//! Nothing is inferred from data: every field comes from a declared mapping,
//! so additions upstream are ignored and breaking changes fail with the
//! column, page, row, expected type and the kind of value found, never the
//! value itself.
use std::sync::Arc;

use arrow::datatypes::Schema;
use vstd::prelude::*;

use crate::decimal::Decimal;
use crate::json;
use crate::json::{get_member, Json, JsonView};
use crate::json_text;
use crate::open_connector::arrow_batch;
use crate::open_connector::arrow_batch::{
    arrow_schema, batch_of, column_fits, Batch, Column, ColumnKind, ColumnView, FieldView,
};
use crate::open_connector::error::{ErrorView, OpenConnectorError};
use crate::open_connector::row_path;
use crate::open_connector::row_path::{RowPath, Walked};
use crate::text;
use crate::text::{chars_of, concat2, concat3, concat5, only_digits, read_digits, same_text,
    starts_with, text_of};

verus! {

/// The type that a source-pack field can declare.
#[derive(Debug, Clone, Copy, PartialEq, Eq)]
pub enum FieldType {
    /// JSON boolean to Arrow Boolean.
    Boolean,
    /// JSON integer to Arrow Int64.
    Int64,
    /// JSON non-negative integer to Arrow UInt64.
    UInt64,
    /// JSON number to Arrow Float64.
    Float64,
    /// JSON string to Arrow Utf8.
    Utf8,
    /// RFC 3339 string or epoch milliseconds to an Arrow timestamp.
    TimestampMillisUtc,
    /// JSON integer of epoch seconds to an Arrow timestamp. Reading seconds as
    /// milliseconds would silently give dates in January 1970.
    TimestampSecondsUtc,
    /// JSON string of decimal digits, epoch milliseconds, to an Arrow
    /// timestamp. Anything but ASCII digits fails.
    TimestampMillisStringUtc,
    /// JSON string of decimal digits, epoch seconds, to an Arrow timestamp.
    TimestampSecondsStringUtc,
    /// JSON array of strings to an Arrow list of Utf8.
    Utf8List,
    /// JSON array of objects, each with a string under the key, to an Arrow
    /// list of Utf8.
    Utf8ListFromObjectKey(&'static str),
    /// Any JSON value, as its text, to Arrow Utf8. A JSON null is an Arrow
    /// null and not the text `null`.
    Json,
}

/// The model of a [`FieldType`].
pub enum FieldTypeView {
    Boolean,
    Int64,
    UInt64,
    Float64,
    Utf8,
    TimestampMillisUtc,
    TimestampSecondsUtc,
    TimestampMillisStringUtc,
    TimestampSecondsStringUtc,
    Utf8List,
    Utf8ListFromObjectKey(Seq<char>),
    Json,
}

impl View for FieldType {
    type V = FieldTypeView;

    open spec fn view(&self) -> FieldTypeView {
        match self {
            FieldType::Boolean => FieldTypeView::Boolean,
            FieldType::Int64 => FieldTypeView::Int64,
            FieldType::UInt64 => FieldTypeView::UInt64,
            FieldType::Float64 => FieldTypeView::Float64,
            FieldType::Utf8 => FieldTypeView::Utf8,
            FieldType::TimestampMillisUtc => FieldTypeView::TimestampMillisUtc,
            FieldType::TimestampSecondsUtc => FieldTypeView::TimestampSecondsUtc,
            FieldType::TimestampMillisStringUtc => FieldTypeView::TimestampMillisStringUtc,
            FieldType::TimestampSecondsStringUtc => FieldTypeView::TimestampSecondsStringUtc,
            FieldType::Utf8List => FieldTypeView::Utf8List,
            FieldType::Utf8ListFromObjectKey(key) => FieldTypeView::Utf8ListFromObjectKey(key@),
            FieldType::Json => FieldTypeView::Json,
        }
    }
}

impl FieldTypeView {
    /// The Arrow type of the column.
    pub open spec fn kind(self) -> ColumnKind {
        match self {
            FieldTypeView::Boolean => ColumnKind::Boolean,
            FieldTypeView::Int64 => ColumnKind::Int64,
            FieldTypeView::UInt64 => ColumnKind::UInt64,
            FieldTypeView::Float64 => ColumnKind::Float64,
            FieldTypeView::Utf8 | FieldTypeView::Json => ColumnKind::Utf8,
            FieldTypeView::TimestampMillisUtc
            | FieldTypeView::TimestampSecondsUtc
            | FieldTypeView::TimestampMillisStringUtc
            | FieldTypeView::TimestampSecondsStringUtc => ColumnKind::TimestampMillisUtc,
            FieldTypeView::Utf8List | FieldTypeView::Utf8ListFromObjectKey(_) => ColumnKind::Utf8List,
        }
    }

    /// What a value of the type is called in messages.
    pub open spec fn label_text(self) -> Seq<char> {
        match self {
            FieldTypeView::Boolean => "boolean"@,
            FieldTypeView::Int64 => "integer"@,
            FieldTypeView::UInt64 => "non-negative integer"@,
            FieldTypeView::Float64 => "number"@,
            FieldTypeView::Utf8 => "string"@,
            FieldTypeView::TimestampMillisUtc => "RFC 3339 timestamp or epoch millis"@,
            FieldTypeView::TimestampSecondsUtc => "epoch-seconds timestamp"@,
            FieldTypeView::TimestampMillisStringUtc => "epoch-millis digit string"@,
            FieldTypeView::TimestampSecondsStringUtc => "epoch-seconds digit string"@,
            FieldTypeView::Utf8List => "array of strings"@,
            FieldTypeView::Utf8ListFromObjectKey(_) => "array of objects each carrying a string key"@,
            FieldTypeView::Json => "any JSON value"@,
        }
    }
}

impl FieldType {
    /// The Arrow type that this field type maps to.
    pub fn arrow_type(&self) -> (kind: ColumnKind)
        ensures
            kind == self@.kind(),
    {
        match self {
            FieldType::Boolean => ColumnKind::Boolean,
            FieldType::Int64 => ColumnKind::Int64,
            FieldType::UInt64 => ColumnKind::UInt64,
            FieldType::Float64 => ColumnKind::Float64,
            FieldType::Utf8 | FieldType::Json => ColumnKind::Utf8,
            FieldType::TimestampMillisUtc
            | FieldType::TimestampSecondsUtc
            | FieldType::TimestampMillisStringUtc
            | FieldType::TimestampSecondsStringUtc => ColumnKind::TimestampMillisUtc,
            FieldType::Utf8List | FieldType::Utf8ListFromObjectKey(_) => ColumnKind::Utf8List,
        }
    }

    /// What a value of the type is called in messages.
    pub fn label(&self) -> (label: &'static str)
        ensures
            label@ == self@.label_text(),
    {
        match self {
            FieldType::Boolean => "boolean",
            FieldType::Int64 => "integer",
            FieldType::UInt64 => "non-negative integer",
            FieldType::Float64 => "number",
            FieldType::Utf8 => "string",
            FieldType::TimestampMillisUtc => "RFC 3339 timestamp or epoch millis",
            FieldType::TimestampSecondsUtc => "epoch-seconds timestamp",
            FieldType::TimestampMillisStringUtc => "epoch-millis digit string",
            FieldType::TimestampSecondsStringUtc => "epoch-seconds digit string",
            FieldType::Utf8List => "array of strings",
            FieldType::Utf8ListFromObjectKey(_) => "array of objects each carrying a string key",
            FieldType::Json => "any JSON value",
        }
    }
}

/// One source-pack field: where in a row it lies, and its type.
#[derive(Debug, Clone, Copy)]
pub struct FieldMapping {
    /// Arrow column name.
    pub name: &'static str,
    /// Path of object keys from the row, for example `user.login`.
    pub path: &'static str,
    /// Column type.
    pub field_type: FieldType,
    /// Whether absent keys and JSON nulls become Arrow nulls or fail.
    pub nullable: bool,
}

/// An owned [`FieldMapping`], for columns that are known only when a scan is
/// planned.
#[derive(Debug, PartialEq, Eq)]
pub struct ColumnSpec {
    /// Arrow column name.
    pub name: String,
    /// Path of object keys from the row.
    pub path: String,
    /// Column type.
    pub field_type: FieldType,
    /// Whether absent keys and JSON nulls become Arrow nulls or fail.
    pub nullable: bool,
}

impl Clone for ColumnSpec {
    fn clone(&self) -> (r: Self)
        ensures
            r@ == self@,
    {
        ColumnSpec {
            name: self.name.clone(),
            path: self.path.clone(),
            field_type: self.field_type,
            nullable: self.nullable,
        }
    }
}

/// The model of a column declaration.
pub struct SpecView {
    pub name: Seq<char>,
    pub path: Seq<char>,
    pub field_type: FieldTypeView,
    pub nullable: bool,
}

impl View for FieldMapping {
    type V = SpecView;

    open spec fn view(&self) -> SpecView {
        SpecView {
            name: self.name@,
            path: self.path@,
            field_type: self.field_type@,
            nullable: self.nullable,
        }
    }
}

impl View for ColumnSpec {
    type V = SpecView;

    open spec fn view(&self) -> SpecView {
        SpecView {
            name: self.name@,
            path: self.path@,
            field_type: self.field_type@,
            nullable: self.nullable,
        }
    }
}

impl From<&FieldMapping> for ColumnSpec {
    fn from(mapping: &FieldMapping) -> (spec: Self)
        ensures
            spec@ == mapping@,
    {
        ColumnSpec {
            name: mapping.name.to_owned(),
            path: mapping.path.to_owned(),
            field_type: mapping.field_type,
            nullable: mapping.nullable,
        }
    }
}

impl vstd::std_specs::convert::FromSpecImpl<&FieldMapping> for ColumnSpec {
    open spec fn obeys_from_spec() -> bool {
        false
    }

    open spec fn from_spec(mapping: &FieldMapping) -> Self {
        arbitrary()
    }
}

/// The epoch milliseconds of an RFC 3339 timestamp, where the text is one.
pub uninterp spec fn rfc3339_millis(timestamp: Seq<char>) -> Option<i64>;

/// Calls `chrono::DateTime::parse_from_rfc3339` and, on what it parses,
/// `timestamp_millis`.
#[verifier::external_body]
fn read_rfc3339(timestamp: &str) -> (r: Option<i64>)
    ensures
        r == rfc3339_millis(timestamp@),
{
    let parsed = chrono::DateTime::parse_from_rfc3339(timestamp).ok()?;
    Some(parsed.timestamp_millis())
}

/// One converted cell.
#[derive(Debug)]
pub enum Cell {
    Boolean(bool),
    Int64(i64),
    UInt64(u64),
    Float64(Decimal),
    Utf8(String),
    TimestampMillis(i64),
    Utf8List(Vec<Option<String>>),
}

/// The model of a [`Cell`].
pub enum CellView {
    Boolean(bool),
    Int64(i64),
    UInt64(u64),
    Float64(u64),
    Utf8(Seq<char>),
    TimestampMillis(i64),
    Utf8List(Seq<Option<Seq<char>>>),
}

impl View for Cell {
    type V = CellView;

    open spec fn view(&self) -> CellView {
        match self {
            Cell::Boolean(b) => CellView::Boolean(*b),
            Cell::Int64(n) => CellView::Int64(*n),
            Cell::UInt64(n) => CellView::UInt64(*n),
            Cell::Float64(double) => CellView::Float64(double@),
            Cell::Utf8(s) => CellView::Utf8(s@),
            Cell::TimestampMillis(n) => CellView::TimestampMillis(*n),
            Cell::Utf8List(items) => CellView::Utf8List(arrow_batch::text_cells(items@)),
        }
    }
}

/// The model of an optional cell.
pub open spec fn optional_cell(cell: Option<Cell>) -> Option<CellView> {
    match cell {
        Some(cell) => Some(cell@),
        None => None,
    }
}

/// The timestamp that a value says, given what RFC 3339 reads from a text.
pub open spec fn timestamp(value: JsonView, read: Option<i64>) -> Option<i64> {
    match value {
        JsonView::String(_) => read,
        _ => value.as_i64(),
    }
}

/// The timestamp that a value says.
pub open spec fn timestamp_millis(value: JsonView) -> Option<i64> {
    timestamp(
        value,
        match value {
            JsonView::String(s) => rfc3339_millis(s),
            _ => None,
        },
    )
}

/// Seconds as milliseconds, where these fit.
pub open spec fn scaled(n: int, scale: int) -> Option<i64> {
    if i64::MIN <= n * scale <= i64::MAX {
        Some((n * scale) as i64)
    } else {
        None
    }
}

/// The timestamp that a value of epoch seconds says.
pub open spec fn epoch_seconds(value: JsonView) -> Result<i64, Seq<char>> {
    match value.as_i64() {
        Some(seconds) => match scaled(seconds as int, 1000) {
            Some(millis) => Ok(millis),
            None => Err("an epoch second out of range for millisecond timestamps"@),
        },
        None => Err(value.kind()),
    }
}

/// The timestamp that a text of decimal digits says, each unit being `scale`
/// milliseconds.
pub open spec fn epoch_digits(value: JsonView, scale: int) -> Result<i64, Seq<char>> {
    match value {
        JsonView::String(s) => if s.len() == 0 || !text::all_digits(s) {
            Err("a non-epoch string"@)
        } else if text::digits_value(s) > i64::MAX {
            Err("an epoch out of range for millisecond timestamps"@)
        } else {
            match scaled(text::digits_value(s) as int, scale) {
                Some(millis) => Ok(millis),
                None => Err("an epoch out of range for millisecond timestamps"@),
            }
        },
        _ => Err(value.kind()),
    }
}

/// The text of one item of a list, `None` for a null item.
pub open spec fn list_item(pluck: Option<Seq<char>>, item: JsonView) -> Result<
    Option<Seq<char>>,
    Seq<char>,
> {
    match (pluck, item) {
        (_, JsonView::Null) => Ok(None),
        (None, JsonView::String(s)) => Ok(Some(s)),
        (Some(key), JsonView::Object(members)) => if members.contains_key(key) {
            match members[key] {
                JsonView::Null => Ok(None),
                JsonView::String(s) => Ok(Some(s)),
                other => Err("array element whose '"@ + key + "' is "@ + other.kind()),
            }
        } else {
            Err("array element without key '"@ + key + "'"@)
        },
        _ => Err(item.kind() + " array element"@),
    }
}

/// The texts of the items of a list, or how the first bad item fails.
pub open spec fn list_items(pluck: Option<Seq<char>>, items: Seq<JsonView>) -> Result<
    Seq<Option<Seq<char>>>,
    Seq<char>,
>
    decreases items.len(),
{
    if items.len() == 0 {
        Ok(Seq::empty())
    } else {
        match list_items(pluck, items.drop_last()) {
            Ok(done) => match list_item(pluck, items.last()) {
                Ok(item) => Ok(done.push(item)),
                Err(found) => Err(found),
            },
            Err(found) => Err(found),
        }
    }
}

/// The list that a value says.
pub open spec fn list_of(pluck: Option<Seq<char>>, value: JsonView) -> Result<CellView, Seq<char>> {
    match value {
        JsonView::Array(items) => match list_items(pluck, items) {
            Ok(texts) => Ok(CellView::Utf8List(texts)),
            Err(found) => Err(found),
        },
        _ => Err(value.kind()),
    }
}

/// A timestamp cell.
pub open spec fn millis_cell(r: Result<i64, Seq<char>>) -> Result<CellView, Seq<char>> {
    match r {
        Ok(millis) => Ok(CellView::TimestampMillis(millis)),
        Err(found) => Err(found),
    }
}

/// What a value that is not null converts to, or what was found instead.
pub open spec fn converted(field_type: FieldTypeView, value: JsonView) -> Result<CellView, Seq<char>> {
    match field_type {
        FieldTypeView::Boolean => match value {
            JsonView::Bool(b) => Ok(CellView::Boolean(b)),
            _ => Err(value.kind()),
        },
        FieldTypeView::Int64 => match value.as_i64() {
            Some(n) => Ok(CellView::Int64(n)),
            None => Err(value.kind()),
        },
        FieldTypeView::UInt64 => match value.as_u64() {
            Some(n) => Ok(CellView::UInt64(n)),
            None => Err(value.kind()),
        },
        FieldTypeView::Float64 => match value.as_double() {
            Some(bits) => Ok(CellView::Float64(bits)),
            None => Err(value.kind()),
        },
        FieldTypeView::Utf8 => match value {
            JsonView::String(s) => Ok(CellView::Utf8(s)),
            _ => Err(value.kind()),
        },
        FieldTypeView::Json => Ok(CellView::Utf8(json_text::json_text(value))),
        FieldTypeView::TimestampMillisUtc => match timestamp_millis(value) {
            Some(millis) => Ok(CellView::TimestampMillis(millis)),
            None => Err(value.kind()),
        },
        FieldTypeView::TimestampSecondsUtc => millis_cell(epoch_seconds(value)),
        FieldTypeView::TimestampMillisStringUtc => millis_cell(epoch_digits(value, 1)),
        FieldTypeView::TimestampSecondsStringUtc => millis_cell(epoch_digits(value, 1000)),
        FieldTypeView::Utf8List => list_of(None, value),
        FieldTypeView::Utf8ListFromObjectKey(key) => list_of(Some(key), value),
    }
}

/// The timestamp that a value says, given what RFC 3339 reads from a text.
pub fn timestamp_of(value: &Json, read: Option<i64>) -> (r: Option<i64>)
    ensures
        r == timestamp(value@, read),
{
    match value {
        Json::String(_) => read,
        other => other.as_i64(),
    }
}

/// An RFC 3339 string, or a number of epoch milliseconds, as epoch
/// milliseconds.
pub fn parse_timestamp(value: &Json) -> (r: Option<i64>)
    ensures
        r == timestamp_millis(value@),
{
    let read = match value {
        Json::String(s) => read_rfc3339(s.as_str()),
        _ => None,
    };
    timestamp_of(value, read)
}

/// A string of decimal digits as epoch milliseconds, each unit being `scale`
/// milliseconds. An arbitrary string fails; it never reads as zero.
pub fn parse_epoch_digit_string(value: &Json, scale: i64) -> (r: Result<i64, String>)
    ensures
        match r {
            Ok(millis) => epoch_digits(value@, scale as int) == Ok::<i64, Seq<char>>(millis),
            Err(found) => epoch_digits(value@, scale as int) == Err::<i64, Seq<char>>(found@),
        },
{
    let s = match value {
        Json::String(s) => s,
        other => {
            return Err(other.kind().to_owned());
        },
    };
    let chars = chars_of(s.as_str());
    assert(chars@.skip(0) =~= chars@);
    if chars.len() == 0 || !only_digits(&chars, 0) {
        return Err("a non-epoch string".to_owned());
    }
    let epoch: i64 = match read_digits(&chars, 0) {
        Some(n) => if n <= i64::MAX as u64 {
            n as i64
        } else {
            return Err("an epoch out of range for millisecond timestamps".to_owned());
        },
        None => {
            return Err("an epoch out of range for millisecond timestamps".to_owned());
        },
    };
    match epoch.checked_mul(scale) {
        Some(millis) => Ok(millis),
        None => Err("an epoch out of range for millisecond timestamps".to_owned()),
    }
}

fn parse_epoch_seconds(value: &Json) -> (r: Result<i64, String>)
    ensures
        match r {
            Ok(millis) => epoch_seconds(value@) == Ok::<i64, Seq<char>>(millis),
            Err(found) => epoch_seconds(value@) == Err::<i64, Seq<char>>(found@),
        },
{
    match value.as_i64() {
        Some(seconds) => match seconds.checked_mul(1000) {
            Some(millis) => Ok(millis),
            None => Err("an epoch second out of range for millisecond timestamps".to_owned()),
        },
        None => Err(value.kind().to_owned()),
    }
}

fn convert_list_item(pluck: Option<&'static str>, item: &Json) -> (r: Result<
    Option<String>,
    String,
>)
    ensures
        match r {
            Ok(cell) => list_item(text::optional(pluck), item@) == Ok::<_, Seq<char>>(
                arrow_batch::text_cell(cell),
            ),
            Err(found) => list_item(text::optional(pluck), item@) == Err::<Option<Seq<char>>, _>(found@),
        },
{
    match (pluck, item) {
        (_, Json::Null) => Ok(None),
        (None, Json::String(s)) => Ok(Some(s.clone())),
        (Some(key), Json::Object(members)) => match get_member(members, key) {
            Some(Json::Null) => Ok(None),
            Some(Json::String(s)) => Ok(Some(s.clone())),
            Some(other) => {
                let lead = concat3("array element whose '", key, "' is ");
                Err(concat2(lead.as_str(), other.kind()))
            },
            None => Err(concat3("array element without key '", key, "'")),
        },
        _ => Err(concat2(item.kind(), " array element")),
    }
}

/// Converts a list. Without a key the elements must be strings; with one they
/// must be objects with a string under it.
fn convert_string_list(pluck: Option<&'static str>, value: &Json) -> (r: Result<
    Vec<Option<String>>,
    String,
>)
    ensures
        match r {
            Ok(items) => list_of(text::optional(pluck), value@) == Ok::<_, Seq<char>>(
                CellView::Utf8List(arrow_batch::text_cells(items@)),
            ),
            Err(found) => list_of(text::optional(pluck), value@) == Err::<CellView, _>(found@),
        },
{
    let items = match value {
        Json::Array(items) => items,
        other => {
            return Err(other.kind().to_owned());
        },
    };
    let ghost all = value@->Array_0;
    let mut out: Vec<Option<String>> = Vec::new();
    let mut i: usize = 0;
    assert(all.take(0) =~= Seq::empty());
    assert(arrow_batch::text_cells(out@) =~= Seq::empty());
    while i < items.len()
        invariant
            value@ == JsonView::Array(all),
            all == json::views(items@),
            i <= items@.len(),
            out@.len() == i,
            list_items(text::optional(pluck), all.take(i as int)) == Ok::<_, Seq<char>>(
                arrow_batch::text_cells(out@),
            ),
        decreases items@.len() - i,
    {
        let ghost before = arrow_batch::text_cells(out@);
        proof {
            assert(all.take(i + 1).drop_last() =~= all.take(i as int));
            assert(all.take(i + 1).last() == items@[i as int]@);
        }
        match convert_list_item(pluck, &items[i]) {
            Ok(cell) => {
                out.push(cell);
                assert(arrow_batch::text_cells(out@) =~= before.push(arrow_batch::text_cell(cell)));
            },
            Err(found) => {
                proof {
                    list_failure_stands(text::optional(pluck), all, i + 1);
                }
                return Err(found);
            },
        }
        i += 1;
    }
    assert(all.take(i as int) =~= all);
    Ok(out)
}

proof fn list_failure_stands(pluck: Option<Seq<char>>, items: Seq<JsonView>, i: int)
    requires
        0 <= i <= items.len(),
        list_items(pluck, items.take(i)) is Err,
    ensures
        list_items(pluck, items) == list_items(pluck, items.take(i)),
    decreases items.len(),
{
    if i == items.len() {
        assert(items.take(i) =~= items);
    } else {
        assert(items.drop_last().take(i) =~= items.take(i));
        list_failure_stands(pluck, items.drop_last(), i);
    }
}

/// Converts a value that is not null.
pub fn convert_cell(field_type: &FieldType, value: &Json) -> (r: Result<Cell, String>)
    ensures
        match r {
            Ok(cell) => converted(field_type@, value@) == Ok::<_, Seq<char>>(cell@),
            Err(found) => converted(field_type@, value@) == Err::<CellView, _>(found@),
        },
{
    match field_type {
        FieldType::Boolean => match value.as_bool() {
            Some(b) => Ok(Cell::Boolean(b)),
            None => Err(value.kind().to_owned()),
        },
        FieldType::Int64 => match value.as_i64() {
            Some(n) => Ok(Cell::Int64(n)),
            None => Err(value.kind().to_owned()),
        },
        FieldType::UInt64 => match value.as_u64() {
            Some(n) => Ok(Cell::UInt64(n)),
            None => Err(value.kind().to_owned()),
        },
        FieldType::Float64 => match value.as_double() {
            Some(double) => Ok(Cell::Float64(double)),
            None => Err(value.kind().to_owned()),
        },
        FieldType::Utf8 => match value.as_str() {
            Some(s) => Ok(Cell::Utf8(s.to_owned())),
            None => Err(value.kind().to_owned()),
        },
        FieldType::Json => Ok(Cell::Utf8(json_text::to_text(value))),
        FieldType::TimestampMillisUtc => match parse_timestamp(value) {
            Some(millis) => Ok(Cell::TimestampMillis(millis)),
            None => Err(value.kind().to_owned()),
        },
        FieldType::TimestampSecondsUtc => match parse_epoch_seconds(value) {
            Ok(millis) => Ok(Cell::TimestampMillis(millis)),
            Err(found) => Err(found),
        },
        FieldType::TimestampMillisStringUtc => match parse_epoch_digit_string(value, 1) {
            Ok(millis) => Ok(Cell::TimestampMillis(millis)),
            Err(found) => Err(found),
        },
        FieldType::TimestampSecondsStringUtc => match parse_epoch_digit_string(value, 1000) {
            Ok(millis) => Ok(Cell::TimestampMillis(millis)),
            Err(found) => Err(found),
        },
        FieldType::Utf8List => match convert_string_list(None, value) {
            Ok(items) => Ok(Cell::Utf8List(items)),
            Err(found) => Err(found),
        },
        FieldType::Utf8ListFromObjectKey(key) => match convert_string_list(Some(*key), value) {
            Ok(items) => Ok(Cell::Utf8List(items)),
            Err(found) => Err(found),
        },
    }
}

/// The column that cells make.
pub open spec fn column_of(kind: ColumnKind, cells: Seq<Option<CellView>>) -> ColumnView {
    match kind {
        ColumnKind::Boolean => ColumnView::Boolean(
            Seq::new(
                cells.len(),
                |i: int|
                    match cells[i] {
                        Some(CellView::Boolean(x)) => Some(x),
                        _ => None,
                    },
            ),
        ),
        ColumnKind::Int64 => ColumnView::Int64(
            Seq::new(
                cells.len(),
                |i: int|
                    match cells[i] {
                        Some(CellView::Int64(x)) => Some(x),
                        _ => None,
                    },
            ),
        ),
        ColumnKind::UInt64 => ColumnView::UInt64(
            Seq::new(
                cells.len(),
                |i: int|
                    match cells[i] {
                        Some(CellView::UInt64(x)) => Some(x),
                        _ => None,
                    },
            ),
        ),
        ColumnKind::Float64 => ColumnView::Float64(
            Seq::new(
                cells.len(),
                |i: int|
                    match cells[i] {
                        Some(CellView::Float64(x)) => Some(x),
                        _ => None,
                    },
            ),
        ),
        ColumnKind::Utf8 => ColumnView::Utf8(
            Seq::new(
                cells.len(),
                |i: int|
                    match cells[i] {
                        Some(CellView::Utf8(x)) => Some(x),
                        _ => None,
                    },
            ),
        ),
        ColumnKind::TimestampMillisUtc => ColumnView::TimestampMillis(
            Seq::new(
                cells.len(),
                |i: int|
                    match cells[i] {
                        Some(CellView::TimestampMillis(x)) => Some(x),
                        _ => None,
                    },
            ),
        ),
        ColumnKind::Utf8List => ColumnView::Utf8List(
            Seq::new(
                cells.len(),
                |i: int|
                    match cells[i] {
                        Some(CellView::Utf8List(x)) => Some(x),
                        _ => None,
                    },
            ),
        ),
    }
}

/// A column with one more cell.
pub open spec fn pushed(column: ColumnView, cell: Option<CellView>) -> ColumnView {
    match column {
        ColumnView::Boolean(cells) => ColumnView::Boolean(
            cells.push(
                match cell {
                    Some(CellView::Boolean(x)) => Some(x),
                    _ => None,
                },
            ),
        ),
        ColumnView::Int64(cells) => ColumnView::Int64(
            cells.push(
                match cell {
                    Some(CellView::Int64(x)) => Some(x),
                    _ => None,
                },
            ),
        ),
        ColumnView::UInt64(cells) => ColumnView::UInt64(
            cells.push(
                match cell {
                    Some(CellView::UInt64(x)) => Some(x),
                    _ => None,
                },
            ),
        ),
        ColumnView::Float64(cells) => ColumnView::Float64(
            cells.push(
                match cell {
                    Some(CellView::Float64(x)) => Some(x),
                    _ => None,
                },
            ),
        ),
        ColumnView::Utf8(cells) => ColumnView::Utf8(
            cells.push(
                match cell {
                    Some(CellView::Utf8(x)) => Some(x),
                    _ => None,
                },
            ),
        ),
        ColumnView::TimestampMillis(cells) => ColumnView::TimestampMillis(
            cells.push(
                match cell {
                    Some(CellView::TimestampMillis(x)) => Some(x),
                    _ => None,
                },
            ),
        ),
        ColumnView::Utf8List(cells) => ColumnView::Utf8List(
            cells.push(
                match cell {
                    Some(CellView::Utf8List(x)) => Some(x),
                    _ => None,
                },
            ),
        ),
    }
}

impl CellView {
    /// The kind of column that the cell belongs in.
    pub open spec fn kind(self) -> ColumnKind {
        match self {
            CellView::Boolean(_) => ColumnKind::Boolean,
            CellView::Int64(_) => ColumnKind::Int64,
            CellView::UInt64(_) => ColumnKind::UInt64,
            CellView::Float64(_) => ColumnKind::Float64,
            CellView::Utf8(_) => ColumnKind::Utf8,
            CellView::TimestampMillis(_) => ColumnKind::TimestampMillisUtc,
            CellView::Utf8List(_) => ColumnKind::Utf8List,
        }
    }
}

fn empty_column(kind: ColumnKind) -> (column: Column)
    ensures
        column@ == column_of(kind, Seq::empty()),
{
    let column = match kind {
        ColumnKind::Boolean => Column::Boolean(Vec::new()),
        ColumnKind::Int64 => Column::Int64(Vec::new()),
        ColumnKind::UInt64 => Column::UInt64(Vec::new()),
        ColumnKind::Float64 => Column::Float64(Vec::new()),
        ColumnKind::Utf8 => Column::Utf8(Vec::new()),
        ColumnKind::TimestampMillisUtc => Column::TimestampMillis(Vec::new()),
        ColumnKind::Utf8List => Column::Utf8List(Vec::new()),
    };
    proof {
        let wanted = column_of(kind, Seq::empty());
        assert(column@.len() == 0 && wanted.len() == 0);
        equal_when_empty(column@, wanted);
    }
    column
}

proof fn equal_when_empty(a: ColumnView, b: ColumnView)
    requires
        a.kind() == b.kind(),
        a.len() == 0,
        b.len() == 0,
    ensures
        a == b,
{
    match (a, b) {
        (ColumnView::Boolean(x), ColumnView::Boolean(y)) => assert(x =~= y),
        (ColumnView::Int64(x), ColumnView::Int64(y)) => assert(x =~= y),
        (ColumnView::UInt64(x), ColumnView::UInt64(y)) => assert(x =~= y),
        (ColumnView::Float64(x), ColumnView::Float64(y)) => assert(x =~= y),
        (ColumnView::Utf8(x), ColumnView::Utf8(y)) => assert(x =~= y),
        (ColumnView::TimestampMillis(x), ColumnView::TimestampMillis(y)) => assert(x =~= y),
        (ColumnView::Utf8List(x), ColumnView::Utf8List(y)) => assert(x =~= y),
        _ => {},
    }
}

fn push_cell(column: &mut Column, cell: Option<Cell>)
    ensures
        final(column)@ == pushed(old(column)@, optional_cell(cell)),
{
    match column {
        Column::Boolean(cells) => {
            match cell {
                Some(Cell::Boolean(x)) => cells.push(Some(x)),
                _ => cells.push(None),
            }
        },
        Column::Int64(cells) => {
            match cell {
                Some(Cell::Int64(x)) => cells.push(Some(x)),
                _ => cells.push(None),
            }
        },
        Column::UInt64(cells) => {
            match cell {
                Some(Cell::UInt64(x)) => cells.push(Some(x)),
                _ => cells.push(None),
            }
        },
        Column::Float64(cells) => {
            let ghost before = cells@;
            match cell {
                Some(Cell::Float64(x)) => cells.push(Some(x)),
                _ => cells.push(None),
            }
            assert(arrow_batch::double_cells(cells@) =~= arrow_batch::double_cells(before).push(
                arrow_batch::double_cell(cells@.last()),
            ));
        },
        Column::Utf8(cells) => {
            let ghost before = cells@;
            match cell {
                Some(Cell::Utf8(x)) => cells.push(Some(x)),
                _ => cells.push(None),
            }
            assert(arrow_batch::text_cells(cells@) =~= arrow_batch::text_cells(before).push(
                arrow_batch::text_cell(cells@.last()),
            ));
        },
        Column::TimestampMillis(cells) => {
            match cell {
                Some(Cell::TimestampMillis(x)) => cells.push(Some(x)),
                _ => cells.push(None),
            }
        },
        Column::Utf8List(cells) => {
            let ghost before = cells@;
            match cell {
                Some(Cell::Utf8List(x)) => cells.push(Some(x)),
                _ => cells.push(None),
            }
            assert(arrow_batch::list_cells(cells@) =~= arrow_batch::list_cells(before).push(
                arrow_batch::list_cell(cells@.last()),
            ));
        },
    }
}

proof fn column_grows(kind: ColumnKind, cells: Seq<Option<CellView>>, cell: Option<CellView>)
    ensures
        column_of(kind, cells.push(cell)) == pushed(column_of(kind, cells), cell),
{
    match (column_of(kind, cells.push(cell)), pushed(column_of(kind, cells), cell)) {
        (ColumnView::Boolean(x), ColumnView::Boolean(y)) => assert(x =~= y),
        (ColumnView::Int64(x), ColumnView::Int64(y)) => assert(x =~= y),
        (ColumnView::UInt64(x), ColumnView::UInt64(y)) => assert(x =~= y),
        (ColumnView::Float64(x), ColumnView::Float64(y)) => assert(x =~= y),
        (ColumnView::Utf8(x), ColumnView::Utf8(y)) => assert(x =~= y),
        (ColumnView::TimestampMillis(x), ColumnView::TimestampMillis(y)) => assert(x =~= y),
        (ColumnView::Utf8List(x), ColumnView::Utf8List(y)) => assert(x =~= y),
        _ => {},
    }
}

/// The row path of a column.
pub open spec fn row_path_of(spec: SpecView) -> Seq<char> {
    "$."@ + spec.path
}

/// What a row holds for a column; `None` where nothing is there and the column
/// allows that. A parent that is null counts as absent, a parent of any other
/// wrong shape does not.
pub open spec fn located(spec: SpecView, row: JsonView) -> Result<Option<JsonView>, Seq<char>> {
    match row_path::walk(row, row_path::segments_of(row_path_of(spec))) {
        Walked::Found(value) => Ok(Some(value)),
        Walked::Missing(_) => if spec.nullable {
            Ok(None)
        } else {
            Err("missing key"@)
        },
        Walked::Blocked(_, found) => if found == "null"@ && spec.nullable {
            Ok(None)
        } else {
            Err(found)
        },
    }
}

/// The cell that a located value makes.
pub open spec fn cell_of(spec: SpecView, found: Option<JsonView>) -> Result<
    Option<CellView>,
    Seq<char>,
> {
    match found {
        None => Ok(None),
        Some(JsonView::Null) => if spec.nullable {
            Ok(None)
        } else {
            Err("null"@)
        },
        Some(value) => match converted(spec.field_type, value) {
            Ok(cell) => Ok(Some(cell)),
            Err(found) => Err(found),
        },
    }
}

/// The values of results in a row, or the position and reason of the first
/// failure.
pub open spec fn collected<T>(results: Seq<Result<T, Seq<char>>>) -> Result<
    Seq<T>,
    (nat, Seq<char>),
>
    decreases results.len(),
{
    if results.len() == 0 {
        Ok(Seq::empty())
    } else {
        match collected(results.drop_last()) {
            Ok(done) => match results.last() {
                Ok(value) => Ok(done.push(value)),
                Err(found) => Err(((results.len() - 1) as nat, found)),
            },
            Err(e) => Err(e),
        }
    }
}

/// The failure of one row of a column.
pub open spec fn failed(spec: SpecView, page: usize, row: nat, found: Seq<char>) -> ErrorView {
    ErrorView::ConversionFailed {
        path: row_path_of(spec),
        column: spec.name,
        page,
        row: row as usize,
        expected: spec.field_type.label_text(),
        found,
    }
}

/// What each row holds for a column.
pub open spec fn located_rows(spec: SpecView, rows: Seq<JsonView>) -> Seq<
    Result<Option<JsonView>, Seq<char>>,
> {
    Seq::new(rows.len(), |i: int| located(spec, rows[i]))
}

/// The cells that located values make.
pub open spec fn cells_of(spec: SpecView, found: Seq<Option<JsonView>>) -> Seq<
    Result<Option<CellView>, Seq<char>>,
> {
    Seq::new(found.len(), |i: int| cell_of(spec, found[i]))
}

/// The column that rows make: first every row is located, then every value is
/// converted.
pub open spec fn converted_column(spec: SpecView, rows: Seq<JsonView>, page: usize) -> Result<
    ColumnView,
    ErrorView,
> {
    match collected(located_rows(spec, rows)) {
        Ok(found) => match collected(cells_of(spec, found)) {
            Ok(cells) => Ok(column_of(spec.field_type.kind(), cells)),
            Err((row, found)) => Err(failed(spec, page, row, found)),
        },
        Err((row, found)) => Err(failed(spec, page, row, found)),
    }
}

/// The columns that rows make, or the failure of the first column that fails.
pub open spec fn converted_columns(
    specs: Seq<SpecView>,
    rows: Seq<JsonView>,
    page: usize,
) -> Result<Seq<ColumnView>, ErrorView>
    decreases specs.len(),
{
    if specs.len() == 0 {
        Ok(Seq::empty())
    } else {
        match converted_columns(specs.drop_last(), rows, page) {
            Ok(done) => match converted_column(specs.last(), rows, page) {
                Ok(column) => Ok(done.push(column)),
                Err(e) => Err(e),
            },
            Err(e) => Err(e),
        }
    }
}

proof fn first_failure_stands<T>(results: Seq<Result<T, Seq<char>>>, i: int)
    requires
        0 <= i <= results.len(),
        collected(results.take(i)) is Err,
    ensures
        collected(results) == collected(results.take(i)),
    decreases results.len(),
{
    if i == results.len() {
        assert(results.take(i) =~= results);
    } else {
        assert(results.drop_last().take(i) =~= results.take(i));
        first_failure_stands(results.drop_last(), i);
    }
}

proof fn collected_step<T>(results: Seq<Result<T, Seq<char>>>, i: int)
    requires
        0 <= i < results.len(),
        collected(results.take(i)) is Ok,
    ensures
        match results[i] {
            Ok(value) => collected(results.take(i + 1)) == Ok::<_, (nat, Seq<char>)>(
                collected(results.take(i))->Ok_0.push(value),
            ),
            Err(found) => collected(results) == Err::<Seq<T>, _>((i as nat, found)),
        },
{
    assert(results.take(i + 1).drop_last() =~= results.take(i));
    if results[i] is Err {
        first_failure_stands(results, i + 1);
    }
}

/// Results without a failure are collected one by one.
pub proof fn collected_values<T>(results: Seq<Result<T, Seq<char>>>)
    requires
        collected(results) is Ok,
    ensures
        collected(results)->Ok_0.len() == results.len(),
        forall|i: int|
            0 <= i < results.len() ==> #[trigger] results[i] == Ok::<T, Seq<char>>(
                collected(results)->Ok_0[i],
            ),
    decreases results.len(),
{
    if results.len() > 0 {
        collected_values(results.drop_last());
        let shorter = results.drop_last();
        assert forall|i: int| 0 <= i < results.len() implies #[trigger] results[i] == Ok::<
            T,
            Seq<char>,
        >(collected(results)->Ok_0[i]) by {
            if i < results.len() - 1 {
                assert(shorter[i] == results[i]);
            }
        }
    }
}

/// A column spec with its path parsed.
#[derive(Debug)]
struct CompiledField {
    spec: ColumnSpec,
    path: RowPath,
}

fn failure(field: &CompiledField, page: usize, row: usize, found: &str) -> (e: OpenConnectorError)
    requires
        field.path@ == row_path_of(field.spec@),
    ensures
        e@ == failed(field.spec@, page, row as nat, found@),
{
    OpenConnectorError::ConversionFailed {
        path: field.path.as_str().to_owned(),
        column: field.spec.name.clone(),
        page,
        row,
        expected: field.spec.field_type.label().to_owned(),
        found: found.to_owned(),
    }
}

/// The models of optional values.
pub open spec fn found_views(found: Seq<Option<&Json>>) -> Seq<Option<JsonView>> {
    Seq::new(
        found.len(),
        |i: int|
            match found[i] {
                Some(value) => Some(value@),
                None => None,
            },
    )
}

fn locate<'a>(field: &CompiledField, row: &'a Json, page: usize) -> (r: Result<
    Option<&'a Json>,
    String,
>)
    requires
        field.path@ == row_path_of(field.spec@),
    ensures
        match r {
            Ok(Some(value)) => located(field.spec@, row@) == Ok::<_, Seq<char>>(Some(value@)),
            Ok(None) => located(field.spec@, row@) == Ok::<Option<JsonView>, Seq<char>>(None),
            Err(found) => located(field.spec@, row@) == Err::<Option<JsonView>, _>(found@),
        },
{
    match field.path.extract(row, page) {
        Ok(value) => Ok(Some(value)),
        Err(OpenConnectorError::RowPathNotFound { .. }) => if field.spec.nullable {
            Ok(None)
        } else {
            Err("missing key".to_owned())
        },
        Err(OpenConnectorError::RowPathNotObject { found, .. }) => if same_text(
            found.as_str(),
            "null",
        ) && field.spec.nullable {
            Ok(None)
        } else {
            Err(found)
        },
        Err(e) => {
            assert(false);
            Err(e.message())
        },
    }
}

fn locate_rows<'a>(field: &CompiledField, rows: &'a [Json], page: usize) -> (r: Result<
    Vec<Option<&'a Json>>,
    OpenConnectorError,
>)
    requires
        field.path@ == row_path_of(field.spec@),
    ensures
        match r {
            Ok(found) => collected(located_rows(field.spec@, json::views(rows@))) == Ok::<
                _,
                (nat, Seq<char>),
            >(found_views(found@)),
            Err(e) => collected(located_rows(field.spec@, json::views(rows@))) matches Err((
                row,
                found,
            )) && e@ == failed(field.spec@, page, row, found),
        },
{
    let ghost results = located_rows(field.spec@, json::views(rows@));
    let mut out: Vec<Option<&'a Json>> = Vec::new();
    let mut i: usize = 0;
    assert(results.take(0) =~= Seq::empty());
    assert(found_views(out@) =~= Seq::empty());
    while i < rows.len()
        invariant
            field.path@ == row_path_of(field.spec@),
            results == located_rows(field.spec@, json::views(rows@)),
            i <= rows@.len(),
            collected(results.take(i as int)) == Ok::<_, (nat, Seq<char>)>(found_views(out@)),
        decreases rows@.len() - i,
    {
        let ghost before = found_views(out@);
        proof {
            collected_step(results, i as int);
            assert(results[i as int] == located(field.spec@, rows@[i as int]@));
        }
        match locate(field, &rows[i], page) {
            Ok(value) => {
                out.push(value);
                assert(found_views(out@) =~= before.push(
                    match value {
                        Some(value) => Some(value@),
                        None => None,
                    },
                ));
            },
            Err(found) => {
                return Err(failure(field, page, i, found.as_str()));
            },
        }
        i += 1;
    }
    assert(results.take(i as int) =~= results);
    Ok(out)
}

fn make_cell(spec: &ColumnSpec, found: Option<&Json>) -> (r: Result<Option<Cell>, String>)
    ensures
        ({
            let wanted = cell_of(
                spec@,
                match found {
                    Some(value) => Some(value@),
                    None => None,
                },
            );
            match r {
                Ok(Some(cell)) => wanted == Ok::<_, Seq<char>>(Some(cell@)),
                Ok(None) => wanted == Ok::<Option<CellView>, Seq<char>>(None),
                Err(found) => wanted == Err::<Option<CellView>, _>(found@),
            }
        }),
{
    match found {
        None => Ok(None),
        Some(value) => {
            if value.is_null() {
                if spec.nullable {
                    Ok(None)
                } else {
                    Err("null".to_owned())
                }
            } else {
                match convert_cell(&spec.field_type, value) {
                    Ok(cell) => Ok(Some(cell)),
                    Err(found) => Err(found),
                }
            }
        },
    }
}

fn convert_column(field: &CompiledField, rows: &[Json], page: usize) -> (r: Result<
    Column,
    OpenConnectorError,
>)
    requires
        field.path@ == row_path_of(field.spec@),
    ensures
        row_path::result_view(r) == converted_column(field.spec@, json::views(rows@), page),
{
    let found = match locate_rows(field, rows, page) {
        Ok(found) => found,
        Err(e) => {
            return Err(e);
        },
    };
    let ghost kind = field.spec@.field_type.kind();
    let ghost results = cells_of(field.spec@, found_views(found@));
    let mut column = empty_column(field.spec.field_type.arrow_type());
    let mut i: usize = 0;
    assert(results.take(0) =~= Seq::empty());
    while i < found.len()
        invariant
            field.path@ == row_path_of(field.spec@),
            kind == field.spec@.field_type.kind(),
            results == cells_of(field.spec@, found_views(found@)),
            collected(located_rows(field.spec@, json::views(rows@))) == Ok::<_, (nat, Seq<char>)>(
                found_views(found@),
            ),
            i <= found@.len(),
            collected(results.take(i as int)) is Ok,
            column@ == column_of(kind, collected(results.take(i as int))->Ok_0),
        decreases found@.len() - i,
    {
        proof {
            collected_step(results, i as int);
            assert(results[i as int] == cell_of(field.spec@, found_views(found@)[i as int]));
        }
        match make_cell(&field.spec, found[i]) {
            Ok(cell) => {
                proof {
                    column_grows(
                        kind,
                        collected(results.take(i as int))->Ok_0,
                        optional_cell(cell),
                    );
                }
                push_cell(&mut column, cell);
            },
            Err(text) => {
                return Err(failure(field, page, i, text.as_str()));
            },
        }
        i += 1;
    }
    assert(results.take(i as int) =~= results);
    Ok(column)
}

/// Why a column cannot be compiled, if it cannot. Column paths are relative to
/// the row: one that starts like a whole-document path would silently read a
/// key named `$`.
pub open spec fn column_problem(spec: SpecView) -> Option<ErrorView> {
    if text::has_prefix(spec.path, "$."@) {
        Some(
            ErrorView::InvalidRowPath {
                path: spec.path,
                reason: "column paths are row-relative object keys (write '"@ + spec.path.skip(2)
                    + "', not '"@ + spec.path + "')"@,
            },
        )
    } else {
        match row_path::parsed_path(row_path_of(spec)) {
            Ok(_) => None,
            Err(e) => Some(e),
        }
    }
}

/// The problem of the first column that has one.
pub open spec fn first_problem(specs: Seq<SpecView>) -> Option<ErrorView>
    decreases specs.len(),
{
    if specs.len() == 0 {
        None
    } else {
        match first_problem(specs.drop_last()) {
            Some(e) => Some(e),
            None => column_problem(specs.last()),
        }
    }
}

/// The schema of declared columns.
pub open spec fn fields_of(specs: Seq<SpecView>) -> Seq<FieldView> {
    Seq::new(
        specs.len(),
        |i: int|
            FieldView {
                name: specs[i].name,
                kind: Some(specs[i].field_type.kind()),
                nullable: specs[i].nullable,
            },
    )
}

/// The models of column specs in a row.
pub open spec fn spec_views(columns: Seq<ColumnSpec>) -> Seq<SpecView> {
    Seq::new(columns.len(), |i: int| columns[i]@)
}

/// The models of field mappings in a row.
pub open spec fn mapping_views(mappings: Seq<FieldMapping>) -> Seq<SpecView> {
    Seq::new(mappings.len(), |i: int| mappings[i]@)
}

proof fn first_problem_stands(specs: Seq<SpecView>, i: int)
    requires
        0 <= i <= specs.len(),
        first_problem(specs.take(i)) is Some,
    ensures
        first_problem(specs) == first_problem(specs.take(i)),
    decreases specs.len(),
{
    if i == specs.len() {
        assert(specs.take(i) =~= specs);
    } else {
        assert(specs.drop_last().take(i) =~= specs.take(i));
        first_problem_stands(specs.drop_last(), i);
    }
}

/// Converts rows against one fixed schema, which never changes for the
/// converter's lifetime.
#[derive(Debug)]
pub struct RowConverter {
    fields: Vec<CompiledField>,
    schema: Arc<Schema>,
}

impl View for RowConverter {
    type V = Seq<SpecView>;

    closed spec fn view(&self) -> Seq<SpecView> {
        Seq::new(self.fields@.len(), |i: int| self.fields@[i].spec@)
    }
}

fn compile_column(spec: ColumnSpec) -> (r: Result<CompiledField, OpenConnectorError>)
    ensures
        match r {
            Ok(field) => column_problem(spec@) is None && field.spec@ == spec@ && field.path@
                == row_path_of(spec@),
            Err(e) => column_problem(spec@) == Some(e@),
        },
{
    let chars = chars_of(spec.path.as_str());
    if starts_with(&chars, "$.") {
        proof {
            reveal_strlit("$.");
            assert(spec.path@.skip(2) =~= spec.path@.subrange(2, spec.path@.len() as int));
        }
        let rest = text_of(&chars, 2, chars.len());
        let reason = concat5(
            "column paths are row-relative object keys (write '",
            rest.as_str(),
            "', not '",
            spec.path.as_str(),
            "')",
        );
        return Err(OpenConnectorError::InvalidRowPath { path: spec.path, reason });
    }
    match RowPath::parse(concat2("$.", spec.path.as_str()).as_str()) {
        Ok(path) => Ok(CompiledField { spec, path }),
        Err(e) => Err(e),
    }
}

proof fn column_facts(spec: SpecView, rows: Seq<JsonView>, page: usize)
    requires
        converted_column(spec, rows, page) is Ok,
    ensures
        converted_column(spec, rows, page)->Ok_0.kind() == spec.field_type.kind(),
        converted_column(spec, rows, page)->Ok_0.len() == rows.len(),
        spec.nullable || !converted_column(spec, rows, page)->Ok_0.nulls(),
{
    let located = located_rows(spec, rows);
    collected_values(located);
    let found = collected(located)->Ok_0;
    let results = cells_of(spec, found);
    collected_values(results);
    let cells = collected(results)->Ok_0;
    assert forall|i: int| 0 <= i < cells.len() implies (match #[trigger] cells[i] {
        Some(cell) => cell.kind() == spec.field_type.kind(),
        None => spec.nullable,
    }) by {
        assert(located[i] == Ok::<Option<JsonView>, Seq<char>>(found[i]));
        assert(results[i] == Ok::<Option<CellView>, Seq<char>>(cells[i]));
    }
}

/// Every column of a conversion is converted on its own.
pub proof fn columns_facts(specs: Seq<SpecView>, rows: Seq<JsonView>, page: usize)
    requires
        converted_columns(specs, rows, page) is Ok,
    ensures
        converted_columns(specs, rows, page)->Ok_0.len() == specs.len(),
        forall|i: int|
            0 <= i < specs.len() ==> converted_column(#[trigger] specs[i], rows, page) == Ok::<
                _,
                ErrorView,
            >(converted_columns(specs, rows, page)->Ok_0[i]),
    decreases specs.len(),
{
    if specs.len() > 0 {
        columns_facts(specs.drop_last(), rows, page);
        let shorter = specs.drop_last();
        assert forall|i: int| 0 <= i < specs.len() implies converted_column(
            #[trigger] specs[i],
            rows,
            page,
        ) == Ok::<_, ErrorView>(converted_columns(specs, rows, page)->Ok_0[i]) by {
            if i < specs.len() - 1 {
                assert(shorter[i] == specs[i]);
            }
        }
    }
}

/// Converted columns always make a batch under the declared schema: there is
/// one for each declared column, of its type, with one cell for each row, and
/// with a null only where the column allows it.
pub proof fn conversion_matches_the_schema(specs: Seq<SpecView>, rows: Seq<JsonView>, page: usize)
    requires
        specs.len() > 0,
        converted_columns(specs, rows, page) is Ok,
    ensures
        arrow_batch::makes_batch(fields_of(specs), converted_columns(specs, rows, page)->Ok_0),
        forall|i: int|
            0 <= i < specs.len() ==> (#[trigger] converted_columns(
                specs,
                rows,
                page,
            )->Ok_0[i]).len() == rows.len(),
{
    columns_facts(specs, rows, page);
    let columns = converted_columns(specs, rows, page)->Ok_0;
    assert forall|i: int| 0 <= i < specs.len() implies (#[trigger] columns[i]).len() == rows.len()
        && columns[i].kind() == specs[i].field_type.kind() && (specs[i].nullable
        || !columns[i].nulls()) by {
        assert(converted_column(specs[i], rows, page) == Ok::<_, ErrorView>(columns[i]));
        column_facts(specs[i], rows, page);
    }
    assert(columns[0].len() == rows.len());
}

/// Whether the path of a column begins with a key.
pub open spec fn mapped_key(specs: Seq<SpecView>, key: Seq<char>) -> bool {
    exists|i: int|
        0 <= i < specs.len() && #[trigger] row_path::segments_of(row_path_of(specs[i]))[0] == key
}

/// Whether two rows hold the same under every key that begins the path of a
/// column.
pub open spec fn same_where_mapped(specs: Seq<SpecView>, row: JsonView, other: JsonView) -> bool {
    &&& row is Object
    &&& other is Object
    &&& forall|key: Seq<char>| #[trigger]
        mapped_key(specs, key) ==> (row->Object_0.contains_key(key)
            == other->Object_0.contains_key(key)) && (row->Object_0.contains_key(key)
            ==> row->Object_0[key] == other->Object_0[key])
}

proof fn same_where_mapped_locates_the_same(
    specs: Seq<SpecView>,
    i: int,
    row: JsonView,
    other: JsonView,
)
    requires
        0 <= i < specs.len(),
        same_where_mapped(specs, row, other),
    ensures
        located(specs[i], row) == located(specs[i], other),
{
    let segments = row_path::segments_of(row_path_of(specs[i]));
    assert(segments.len() > 0);
    assert(mapped_key(specs, segments[0]));
}

/// Keys of a row that begin the path of no column are ignored: rows that hold
/// the same under all other keys convert to the same columns, or fail in the
/// same way.
pub proof fn unmapped_keys_are_ignored(
    specs: Seq<SpecView>,
    rows: Seq<JsonView>,
    others: Seq<JsonView>,
    page: usize,
)
    requires
        rows.len() == others.len(),
        forall|k: int|
            0 <= k < rows.len() ==> same_where_mapped(specs, #[trigger] rows[k], others[k]),
    ensures
        converted_columns(specs, rows, page) == converted_columns(specs, others, page),
{
    unmapped_keys_up_to(specs, specs.len() as int, rows, others, page);
    assert(specs.take(specs.len() as int) =~= specs);
}

proof fn unmapped_keys_up_to(
    specs: Seq<SpecView>,
    n: int,
    rows: Seq<JsonView>,
    others: Seq<JsonView>,
    page: usize,
)
    requires
        0 <= n <= specs.len(),
        rows.len() == others.len(),
        forall|k: int|
            0 <= k < rows.len() ==> same_where_mapped(specs, #[trigger] rows[k], others[k]),
    ensures
        converted_columns(specs.take(n), rows, page) == converted_columns(
            specs.take(n),
            others,
            page,
        ),
    decreases n,
{
    if n > 0 {
        unmapped_keys_up_to(specs, n - 1, rows, others, page);
        assert(specs.take(n).drop_last() =~= specs.take(n - 1));
        let spec = specs[n - 1];
        assert(specs.take(n).last() == spec);
        assert(located_rows(spec, rows) =~= located_rows(spec, others)) by {
            assert forall|k: int| 0 <= k < rows.len() implies located(spec, rows[k]) == located(
                spec,
                others[k],
            ) by {
                same_where_mapped_locates_the_same(specs, n - 1, rows[k], others[k]);
            }
        }
    }
}

/// Whether what a failure found is told by the column's declaration and by
/// kinds of values alone.
pub open spec fn says_no_value(field_type: FieldTypeView, found: Seq<char>) -> bool {
    ||| found == "missing key"@
    ||| json::kind_name(found)
    ||| json::described_kind_name(found)
    ||| found == "a non-epoch string"@
    ||| found == "an epoch out of range for millisecond timestamps"@
    ||| found == "an epoch second out of range for millisecond timestamps"@
    ||| exists|kind: Seq<char>| #[trigger] json::kind_name(kind) && found == kind + " array element"@
    ||| field_type matches FieldTypeView::Utf8ListFromObjectKey(key) && (found
        == "array element without key '"@ + key + "'"@ || exists|kind: Seq<char>| #[trigger]
        json::kind_name(kind) && found == "array element whose '"@ + key + "' is "@ + kind)
}

/// A failure that collecting reports is one of the results.
pub proof fn failed_at<T>(results: Seq<Result<T, Seq<char>>>)
    ensures
        collected(results) matches Err((row, found)) ==> row < results.len() && results[row as int]
            == Err::<T, Seq<char>>(found),
    decreases results.len(),
{
    if results.len() > 0 {
        failed_at(results.drop_last());
    }
}

proof fn items_say_no_value(
    field_type: FieldTypeView,
    pluck: Option<Seq<char>>,
    items: Seq<JsonView>,
)
    requires
        pluck matches Some(key) ==> field_type == FieldTypeView::Utf8ListFromObjectKey(key),
    ensures
        list_items(pluck, items) matches Err(found) ==> says_no_value(field_type, found),
    decreases items.len(),
{
    if items.len() > 0 {
        items_say_no_value(field_type, pluck, items.drop_last());
        let item = items.last();
        assert(json::kind_name(item.kind()));
        match (pluck, item) {
            (Some(key), JsonView::Object(members)) => {
                assert(json::kind_name(members[key].kind()));
            },
            _ => {},
        }
    }
}

proof fn cells_say_no_value(spec: SpecView, found: Option<JsonView>)
    ensures
        cell_of(spec, found) matches Err(said) ==> says_no_value(spec.field_type, said),
{
    match found {
        Some(value) => {
            assert(json::kind_name(value.kind()));
            match (spec.field_type, value) {
                (FieldTypeView::Utf8List, JsonView::Array(items)) => items_say_no_value(
                    spec.field_type,
                    None,
                    items,
                ),
                (
                    FieldTypeView::Utf8ListFromObjectKey(key),
                    JsonView::Array(items),
                ) => items_say_no_value(spec.field_type, Some(key), items),
                _ => {},
            }
        },
        None => {},
    }
}

/// A failed conversion names a column, the page and a row of it, the expected
/// type, and the kind of what was found. It never holds a value of the page.
pub proof fn failures_show_no_value(specs: Seq<SpecView>, rows: Seq<JsonView>, page: usize)
    ensures
        converted_columns(specs, rows, page) matches Err(e) ==> exists|
            i: int,
            row: nat,
            found: Seq<char>,
        |
            0 <= i < specs.len() && row < rows.len() && e == #[trigger] failed(
                specs[i],
                page,
                row,
                found,
            ) && says_no_value(specs[i].field_type, found),
    decreases specs.len(),
{
    if specs.len() > 0 {
        let earlier = specs.drop_last();
        failures_show_no_value(earlier, rows, page);
        match converted_columns(earlier, rows, page) {
            Err(e) => {
                let (i, row, found) = choose|i: int, row: nat, found: Seq<char>|
                    0 <= i < earlier.len() && row < rows.len() && e == #[trigger] failed(
                        earlier[i],
                        page,
                        row,
                        found,
                    ) && says_no_value(earlier[i].field_type, found);
                assert(earlier[i] == specs[i]);
                assert(e == failed(specs[i], page, row, found));
            },
            Ok(_) => {
                let last = specs.len() - 1;
                let spec = specs[last];
                failed_at(located_rows(spec, rows));
                match collected(located_rows(spec, rows)) {
                    Err((row, found)) => {
                        row_path::blocked_by_kind(
                            rows[row as int],
                            row_path::segments_of(row_path_of(spec)),
                        );
                        assert(located(spec, rows[row as int]) == Err::<Option<JsonView>, Seq<char>>(
                            found,
                        ));
                        assert(failed(specs[last], page, row, found) == failed(
                            spec,
                            page,
                            row,
                            found,
                        ));
                    },
                    Ok(values) => {
                        collected_values(located_rows(spec, rows));
                        failed_at(cells_of(spec, values));
                        match collected(cells_of(spec, values)) {
                            Err((row, found)) => {
                                cells_say_no_value(spec, values[row as int]);
                                assert(failed(specs[last], page, row, found) == failed(
                                    spec,
                                    page,
                                    row,
                                    found,
                                ));
                            },
                            Ok(_) => {},
                        }
                    },
                }
            },
        }
    }
}

/// A page without rows converts to empty columns of the declared types.
pub proof fn an_empty_page_converts(specs: Seq<SpecView>, page: usize)
    ensures
        converted_columns(specs, Seq::empty(), page) is Ok,
        converted_columns(specs, Seq::empty(), page)->Ok_0.len() == specs.len(),
        forall|i: int|
            0 <= i < specs.len() ==> (#[trigger] converted_columns(
                specs,
                Seq::empty(),
                page,
            )->Ok_0[i]).len() == 0 && converted_columns(specs, Seq::empty(), page)->Ok_0[i].kind()
                == specs[i].field_type.kind(),
    decreases specs.len(),
{
    if specs.len() > 0 {
        an_empty_page_converts(specs.drop_last(), page);
        let rows = Seq::<JsonView>::empty();
        let spec = specs.last();
        assert(located_rows(spec, rows).len() == 0);
        let found = Seq::<Option<JsonView>>::empty();
        assert(cells_of(spec, found).len() == 0);
        assert(converted_column(spec, rows, page) is Ok);
        column_facts(spec, rows, page);
        let shorter = converted_columns(specs.drop_last(), rows, page)->Ok_0;
        let all = converted_columns(specs, rows, page)->Ok_0;
        assert forall|i: int| 0 <= i < specs.len() implies (#[trigger] all[i]).len() == 0
            && all[i].kind() == specs[i].field_type.kind() by {
            if i < specs.len() - 1 {
                assert(all[i] == shorter[i]);
                assert(specs.drop_last()[i] == specs[i]);
            }
        }
    }
}

/// What converting a page gives: a batch, or the failure of a column. A table
/// without columns makes no batch.
pub open spec fn batch_result(specs: Seq<SpecView>, rows: Seq<JsonView>, page: usize) -> Result<
    Seq<ColumnView>,
    ErrorView,
> {
    match converted_columns(specs, rows, page) {
        Ok(columns) => if specs.len() == 0 {
            Err(
                ErrorView::ConversionFailed {
                    path: "$"@,
                    column: "<batch>"@,
                    page,
                    row: 0,
                    expected: "a batch matching the fixed schema"@,
                    found:
                        "Invalid argument error: must either specify a row count or at least one column"@,
                },
            )
        } else {
            Ok(columns)
        },
        Err(e) => Err(e),
    }
}

impl RowConverter {
    #[verifier::type_invariant]
    spec fn compiled(self) -> bool {
        &&& forall|i: int|
            0 <= i < self.fields@.len() ==> (#[trigger] self.fields@[i]).path@ == row_path_of(
                self.fields@[i].spec@,
            )
        &&& arrow_batch::schema_fields(*self.schema) == fields_of(self@)
    }

    /// Compiles a converter from static field mappings.
    pub fn new(mappings: &[FieldMapping]) -> (r: Result<RowConverter, OpenConnectorError>)
        ensures
            match r {
                Ok(converter) => first_problem(mapping_views(mappings@)) is None && converter@
                    == mapping_views(mappings@),
                Err(e) => first_problem(mapping_views(mappings@)) == Some(e@),
            },
    {
        let mut columns: Vec<ColumnSpec> = Vec::new();
        let mut i: usize = 0;
        while i < mappings.len()
            invariant
                i <= mappings@.len(),
                columns@.len() == i,
                forall|k: int| 0 <= k < i ==> (#[trigger] columns@[k])@ == mappings@[k]@,
            decreases mappings@.len() - i,
        {
            columns.push(ColumnSpec::from(&mappings[i]));
            i += 1;
        }
        assert(spec_views(columns@) =~= mapping_views(mappings@));
        RowConverter::from_columns(columns)
    }

    /// Compiles a converter from owned column specs.
    pub fn from_columns(columns: Vec<ColumnSpec>) -> (r: Result<RowConverter, OpenConnectorError>)
        ensures
            match r {
                Ok(converter) => first_problem(spec_views(columns@)) is None && converter@
                    == spec_views(columns@),
                Err(e) => first_problem(spec_views(columns@)) == Some(e@),
            },
    {
        let ghost specs = spec_views(columns@);
        let mut fields: Vec<CompiledField> = Vec::new();
        let mut declared: Vec<(String, ColumnKind, bool)> = Vec::new();
        let mut i: usize = 0;
        assert(specs.take(0) =~= Seq::empty());
        while i < columns.len()
            invariant
                specs == spec_views(columns@),
                i <= columns@.len(),
                fields@.len() == i,
                declared@.len() == i,
                first_problem(specs.take(i as int)) is None,
                forall|k: int|
                    0 <= k < i ==> (#[trigger] fields@[k]).path@ == row_path_of(fields@[k].spec@)
                        && fields@[k].spec@ == specs[k],
                arrow_batch::declared_fields(declared@) == fields_of(specs.take(i as int)),
            decreases columns@.len() - i,
        {
            proof {
                assert(specs.take(i + 1).drop_last() =~= specs.take(i as int));
                assert(specs.take(i + 1).last() == columns@[i as int]@);
            }
            match compile_column(columns[i].clone()) {
                Ok(field) => {
                    declared.push(
                        (
                            field.spec.name.clone(),
                            field.spec.field_type.arrow_type(),
                            field.spec.nullable,
                        ),
                    );
                    fields.push(field);
                    assert(arrow_batch::declared_fields(declared@) =~= fields_of(
                        specs.take(i + 1),
                    )) by {
                        assert forall|k: int| 0 <= k <= i implies arrow_batch::declared_fields(
                            declared@,
                        )[k] == fields_of(specs.take(i + 1))[k] by {
                            if k < i {
                                assert(fields_of(specs.take(i as int))[k] == fields_of(
                                    specs.take(i + 1),
                                )[k]);
                            }
                        }
                    }
                },
                Err(e) => {
                    proof {
                        first_problem_stands(specs, i + 1);
                    }
                    return Err(e);
                },
            }
            i += 1;
        }
        assert(specs.take(i as int) =~= specs);
        let ghost made = Seq::new(fields@.len(), |k: int| fields@[k].spec@);
        assert(made =~= specs);
        Ok(RowConverter { fields, schema: arrow_schema(declared) })
    }

    /// The fixed Arrow schema.
    pub fn schema(&self) -> (schema: &Arc<Schema>)
        ensures
            arrow_batch::schema_fields(**schema) == fields_of(self@),
    {
        proof {
            use_type_invariant(self);
        }
        &self.schema
    }

    /// Converts one page of rows to columns. `page` is for messages only.
    pub fn convert_columns(&self, rows: &[Json], page: usize) -> (r: Result<
        Vec<Column>,
        OpenConnectorError,
    >)
        ensures
            match r {
                Ok(columns) => converted_columns(self@, json::views(rows@), page) == Ok::<
                    _,
                    ErrorView,
                >(arrow_batch::column_views(columns@)),
                Err(e) => converted_columns(self@, json::views(rows@), page) == Err::<
                    Seq<ColumnView>,
                    _,
                >(e@),
            },
    {
        proof {
            use_type_invariant(self);
        }
        let ghost specs = self@;
        let ghost all = json::views(rows@);
        let mut columns: Vec<Column> = Vec::new();
        let mut i: usize = 0;
        assert(specs.take(0) =~= Seq::empty());
        assert(arrow_batch::column_views(columns@) =~= Seq::empty());
        while i < self.fields.len()
            invariant
                specs == self@,
                specs.len() == self.fields@.len(),
                all == json::views(rows@),
                forall|k: int|
                    0 <= k < self.fields@.len() ==> (#[trigger] self.fields@[k]).path@
                        == row_path_of(self.fields@[k].spec@) && self.fields@[k].spec@ == specs[k],
                i <= self.fields@.len(),
                converted_columns(specs.take(i as int), all, page) == Ok::<_, ErrorView>(
                    arrow_batch::column_views(columns@),
                ),
            decreases self.fields@.len() - i,
        {
            let ghost before = arrow_batch::column_views(columns@);
            proof {
                assert(specs.take(i + 1).drop_last() =~= specs.take(i as int));
                assert(specs.take(i + 1).last() == self.fields@[i as int].spec@);
            }
            match convert_column(&self.fields[i], rows, page) {
                Ok(column) => {
                    columns.push(column);
                    assert(arrow_batch::column_views(columns@) =~= before.push(column@));
                },
                Err(e) => {
                    proof {
                        column_failure_stands(specs, all, page, i + 1);
                    }
                    return Err(e);
                },
            }
            i += 1;
        }
        assert(specs.take(i as int) =~= specs);
        Ok(columns)
    }

    /// Converts one page of rows to a record batch. `page` is for messages
    /// only; a page without rows gives an empty batch.
    pub fn convert(&self, rows: &[Json], page: usize) -> (r: Result<Batch, OpenConnectorError>)
        requires
            converted_columns(self@, json::views(rows@), page) matches Ok(columns)
                ==> arrow_batch::columns_fit(columns),
        ensures
            match batch_result(self@, json::views(rows@), page) {
                Ok(columns) => r matches Ok(batch) && arrow_batch::batch_columns(batch) == columns
                    && arrow_batch::batch_fields(batch) == fields_of(self@),
                Err(e) => r matches Err(found) && found@ == e,
            },
    {
        let columns = match self.convert_columns(rows, page) {
            Ok(columns) => columns,
            Err(e) => {
                return Err(e);
            },
        };
        proof {
            use_type_invariant(self);
            columns_facts(self@, json::views(rows@), page);
            if self@.len() > 0 {
                conversion_matches_the_schema(self@, json::views(rows@), page);
            }
        }
        match batch_of(&self.schema, columns) {
            Ok(batch) => Ok(batch),
            Err(found) => Err(
                OpenConnectorError::ConversionFailed {
                    path: "$".to_owned(),
                    column: "<batch>".to_owned(),
                    page,
                    row: 0,
                    expected: "a batch matching the fixed schema".to_owned(),
                    found,
                },
            ),
        }
    }

    /// Converts like [`RowConverter::convert`], but gives `None` where some
    /// column holds more text than the 32-bit offsets of an Arrow array count.
    pub fn convert_checked(&self, rows: &[Json], page: usize) -> (r: Option<
        Result<Batch, OpenConnectorError>,
    >)
        ensures
            r is None <==> (converted_columns(self@, json::views(rows@), page) matches Ok(columns)
                && !arrow_batch::columns_fit(columns)),
            r matches Some(result) ==> match batch_result(self@, json::views(rows@), page) {
                Ok(columns) => result matches Ok(batch) && arrow_batch::batch_columns(batch)
                    == columns && arrow_batch::batch_fields(batch) == fields_of(self@),
                Err(e) => result matches Err(found) && found@ == e,
            },
    {
        match self.convert_columns(rows, page) {
            Ok(columns) => {
                let ghost all = arrow_batch::column_views(columns@);
                let mut i: usize = 0;
                while i < columns.len()
                    invariant
                        i <= columns@.len(),
                        all == arrow_batch::column_views(columns@),
                        converted_columns(self@, json::views(rows@), page) == Ok::<_, ErrorView>(
                            all,
                        ),
                        forall|k: int| 0 <= k < i ==> (#[trigger] all[k]).fits(),
                    decreases columns@.len() - i,
                {
                    if !column_fits(&columns[i]) {
                        assert(!all[i as int].fits());
                        return None;
                    }
                    i += 1;
                }
            },
            Err(_) => {},
        }
        Some(self.convert(rows, page))
    }
}

proof fn column_failure_stands(specs: Seq<SpecView>, rows: Seq<JsonView>, page: usize, i: int)
    requires
        0 <= i <= specs.len(),
        converted_columns(specs.take(i), rows, page) is Err,
    ensures
        converted_columns(specs, rows, page) == converted_columns(specs.take(i), rows, page),
    decreases specs.len(),
{
    if i == specs.len() {
        assert(specs.take(i) =~= specs);
    } else {
        assert(specs.drop_last().take(i) =~= specs.take(i));
        column_failure_stands(specs.drop_last(), rows, page, i);
    }
}

} // verus!
