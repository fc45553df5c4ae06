//! Columns of plain cells, and the Arrow record batches made of them.
use std::sync::Arc;

use arrow::array::{
    ArrayData, ArrayRef, BooleanArray, Float64Array, Int64Array, ListBuilder, RecordBatch,
    StringArray, StringBuilder, StructArray, TimestampMillisecondArray, UInt64Array,
};
use arrow::datatypes::{DataType, Field, Schema, TimeUnit};
use vstd::prelude::*;

use crate::decimal;
use crate::decimal::Decimal;
use crate::text;

verus! {

/// The Arrow types that a column can have.
#[derive(Debug, Clone, Copy, PartialEq, Eq, Structural)]
pub enum ColumnKind {
    /// Boolean.
    Boolean,
    /// Int64.
    Int64,
    /// UInt64.
    UInt64,
    /// Float64.
    Float64,
    /// Utf8.
    Utf8,
    /// Timestamp in milliseconds, time zone `UTC`.
    TimestampMillisUtc,
    /// List of nullable Utf8 items.
    Utf8List,
}

/// The cells of one column; `None` is null.
#[derive(Debug)]
pub enum Column {
    Boolean(Vec<Option<bool>>),
    Int64(Vec<Option<i64>>),
    UInt64(Vec<Option<u64>>),
    Float64(Vec<Option<Decimal>>),
    Utf8(Vec<Option<String>>),
    TimestampMillis(Vec<Option<i64>>),
    Utf8List(Vec<Option<Vec<Option<String>>>>),
}

/// The model of a [`Column`]. Doubles stand by their bits.
pub enum ColumnView {
    Boolean(Seq<Option<bool>>),
    Int64(Seq<Option<i64>>),
    UInt64(Seq<Option<u64>>),
    Float64(Seq<Option<u64>>),
    Utf8(Seq<Option<Seq<char>>>),
    TimestampMillis(Seq<Option<i64>>),
    Utf8List(Seq<Option<Seq<Option<Seq<char>>>>>),
}

/// The model of an optional text.
pub open spec fn text_cell(cell: Option<String>) -> Option<Seq<char>> {
    match cell {
        Some(s) => Some(s@),
        None => None,
    }
}

/// The models of optional texts.
pub open spec fn text_cells(cells: Seq<Option<String>>) -> Seq<Option<Seq<char>>> {
    Seq::new(cells.len(), |i: int| text_cell(cells[i]))
}

/// The model of an optional double.
pub open spec fn double_cell(cell: Option<Decimal>) -> Option<u64> {
    match cell {
        Some(double) => Some(double@),
        None => None,
    }
}

/// The models of optional doubles.
pub open spec fn double_cells(cells: Seq<Option<Decimal>>) -> Seq<Option<u64>> {
    Seq::new(cells.len(), |i: int| double_cell(cells[i]))
}

/// The model of an optional list of texts.
pub open spec fn list_cell(cell: Option<Vec<Option<String>>>) -> Option<Seq<Option<Seq<char>>>> {
    match cell {
        Some(items) => Some(text_cells(items@)),
        None => None,
    }
}

/// The models of optional lists of texts.
pub open spec fn list_cells(cells: Seq<Option<Vec<Option<String>>>>) -> Seq<
    Option<Seq<Option<Seq<char>>>>,
> {
    Seq::new(cells.len(), |i: int| list_cell(cells[i]))
}

impl View for Column {
    type V = ColumnView;

    open spec fn view(&self) -> ColumnView {
        match self {
            Column::Boolean(cells) => ColumnView::Boolean(cells@),
            Column::Int64(cells) => ColumnView::Int64(cells@),
            Column::UInt64(cells) => ColumnView::UInt64(cells@),
            Column::Float64(cells) => ColumnView::Float64(double_cells(cells@)),
            Column::Utf8(cells) => ColumnView::Utf8(text_cells(cells@)),
            Column::TimestampMillis(cells) => ColumnView::TimestampMillis(cells@),
            Column::Utf8List(cells) => ColumnView::Utf8List(list_cells(cells@)),
        }
    }
}

/// Whether some cell is null.
pub open spec fn has_null<T>(cells: Seq<Option<T>>) -> bool {
    exists|i: int| 0 <= i < cells.len() && (#[trigger] cells[i]) is None
}

/// The number of bytes that texts take together.
pub open spec fn text_bytes(cells: Seq<Option<Seq<char>>>) -> nat
    decreases cells.len(),
{
    if cells.len() == 0 {
        0
    } else {
        text_bytes(cells.drop_last()) + match cells.last() {
            Some(s) => vstd::utf8::encode_utf8(s).len(),
            None => 0,
        }
    }
}

/// The items of all lists in a row.
pub open spec fn flattened(lists: Seq<Option<Seq<Option<Seq<char>>>>>) -> Seq<Option<Seq<char>>>
    decreases lists.len(),
{
    if lists.len() == 0 {
        Seq::empty()
    } else {
        flattened(lists.drop_last()) + match lists.last() {
            Some(items) => items,
            None => Seq::empty(),
        }
    }
}

/// Whether texts can lie in one Arrow array, whose offsets are 32-bit.
pub open spec fn texts_fit(cells: Seq<Option<Seq<char>>>) -> bool {
    text_bytes(cells) <= i32::MAX
}

impl ColumnView {
    /// The type of the column.
    pub open spec fn kind(self) -> ColumnKind {
        match self {
            ColumnView::Boolean(_) => ColumnKind::Boolean,
            ColumnView::Int64(_) => ColumnKind::Int64,
            ColumnView::UInt64(_) => ColumnKind::UInt64,
            ColumnView::Float64(_) => ColumnKind::Float64,
            ColumnView::Utf8(_) => ColumnKind::Utf8,
            ColumnView::TimestampMillis(_) => ColumnKind::TimestampMillisUtc,
            ColumnView::Utf8List(_) => ColumnKind::Utf8List,
        }
    }

    /// The number of cells.
    pub open spec fn len(self) -> nat {
        match self {
            ColumnView::Boolean(cells) => cells.len(),
            ColumnView::Int64(cells) => cells.len(),
            ColumnView::UInt64(cells) => cells.len(),
            ColumnView::Float64(cells) => cells.len(),
            ColumnView::Utf8(cells) => cells.len(),
            ColumnView::TimestampMillis(cells) => cells.len(),
            ColumnView::Utf8List(cells) => cells.len(),
        }
    }

    /// Whether some cell is null.
    pub open spec fn nulls(self) -> bool {
        match self {
            ColumnView::Boolean(cells) => has_null(cells),
            ColumnView::Int64(cells) => has_null(cells),
            ColumnView::UInt64(cells) => has_null(cells),
            ColumnView::Float64(cells) => has_null(cells),
            ColumnView::Utf8(cells) => has_null(cells),
            ColumnView::TimestampMillis(cells) => has_null(cells),
            ColumnView::Utf8List(cells) => has_null(cells),
        }
    }

    /// Whether the texts can lie in one Arrow array.
    pub open spec fn fits(self) -> bool {
        match self {
            ColumnView::Utf8(cells) => texts_fit(cells),
            ColumnView::Utf8List(cells) => texts_fit(flattened(cells)) && flattened(cells).len()
                <= i32::MAX,
            _ => true,
        }
    }
}

/// One field of a schema: its name, its type where that is one of
/// [`ColumnKind`], and whether it may hold nulls.
pub struct FieldView {
    pub name: Seq<char>,
    pub kind: Option<ColumnKind>,
    pub nullable: bool,
}

/// Whether columns make a batch under these fields.
pub open spec fn makes_batch(fields: Seq<FieldView>, columns: Seq<ColumnView>) -> bool {
    &&& columns.len() == fields.len()
    &&& columns.len() > 0
    &&& forall|i: int|
        0 <= i < columns.len() ==> {
            &&& fields[i].kind == Some((#[trigger] columns[i]).kind())
            &&& columns[i].len() == columns[0].len()
            &&& fields[i].nullable || !columns[i].nulls()
        }
}

/// An Arrow schema.
#[verifier::external_type_specification]
#[verifier::external_body]
pub struct ExSchema(Schema);

/// The fields of an Arrow schema, in order.
pub uninterp spec fn schema_fields(schema: Schema) -> Seq<FieldView>;

/// An Arrow array of one of the kinds of [`ColumnKind`].
#[verifier::external_body]
pub struct ArrowColumn {
    array: ArrayRef,
}

/// The cells of an Arrow array.
pub uninterp spec fn array_cells(column: ArrowColumn) -> ColumnView;

/// An Arrow record batch.
#[verifier::external_body]
#[derive(Debug)]
pub struct Batch {
    batch: RecordBatch,
}

/// The raw data of an Arrow array.
#[verifier::external_type_specification]
#[verifier::external_body]
pub struct ExArrayData(ArrayData);

/// The columns of a struct array, given by its raw data.
pub uninterp spec fn data_columns(data: ArrayData) -> Seq<ColumnView>;

/// The fields of a struct array, given by its raw data.
pub uninterp spec fn data_fields(data: ArrayData) -> Seq<FieldView>;

/// The columns of a record batch.
pub uninterp spec fn batch_columns(batch: Batch) -> Seq<ColumnView>;

/// The fields of a record batch's schema.
pub uninterp spec fn batch_fields(batch: Batch) -> Seq<FieldView>;

/// `StructArray::from(RecordBatch)` makes a struct array with the fields and
/// the columns of the batch, of which `ArrayData::from` gives the raw data.
#[verifier::external_body]
fn struct_data(batch: Batch) -> (data: ArrayData)
    ensures
        data_columns(data) == batch_columns(batch),
        data_fields(data) == batch_fields(batch),
{
    ArrayData::from(StructArray::from(batch.batch))
}

impl Batch {
    /// The raw data of a struct array with the fields and the columns of the
    /// batch, for callers that go on with Arrow.
    pub fn into_data(self) -> (data: ArrayData)
        ensures
            data_columns(data) == batch_columns(self),
            data_fields(data) == batch_fields(self),
    {
        struct_data(self)
    }
}

/// An Arrow builder for a column of lists of texts.
#[verifier::external_body]
pub struct ListColumn {
    builder: ListBuilder<StringBuilder>,
}

/// The lists that a builder has completed.
pub uninterp spec fn completed_lists(column: ListColumn) -> Seq<Option<Seq<Option<Seq<char>>>>>;

/// The items of the list that a builder has begun.
pub uninterp spec fn begun_list(column: ListColumn) -> Seq<Option<Seq<char>>>;

/// The model of a column declaration.
pub open spec fn declared_fields(declared: Seq<(String, ColumnKind, bool)>) -> Seq<FieldView> {
    Seq::new(
        declared.len(),
        |i: int|
            FieldView {
                name: declared[i].0@,
                kind: Some(declared[i].1),
                nullable: declared[i].2,
            },
    )
}

/// `Schema::new` keeps the fields in order; each is made by `Field::new` with
/// the Arrow type that its kind names.
#[verifier::external_body]
pub(crate) fn arrow_schema(declared: Vec<(String, ColumnKind, bool)>) -> (schema: Arc<Schema>)
    ensures
        schema_fields(*schema) == declared_fields(declared@),
{
    let data_type = |kind: ColumnKind| match kind {
        ColumnKind::Boolean => DataType::Boolean,
        ColumnKind::Int64 => DataType::Int64,
        ColumnKind::UInt64 => DataType::UInt64,
        ColumnKind::Float64 => DataType::Float64,
        ColumnKind::Utf8 => DataType::Utf8,
        ColumnKind::TimestampMillisUtc => DataType::Timestamp(TimeUnit::Millisecond, Some("UTC".into())),
        ColumnKind::Utf8List => DataType::List(Arc::new(Field::new("item", DataType::Utf8, true))),
    };
    let fields = declared.into_iter().map(|(name, kind, null)| Field::new(name, data_type(kind), null));
    Arc::new(Schema::new(fields.collect::<Vec<_>>()))
}

/// `BooleanArray::from(Vec<Option<bool>>)` holds the cells.
#[verifier::external_body]
fn boolean_array(cells: Vec<Option<bool>>) -> (column: ArrowColumn)
    ensures
        array_cells(column) == ColumnView::Boolean(cells@),
{
    ArrowColumn { array: Arc::new(BooleanArray::from(cells)) }
}

/// `Int64Array::from(Vec<Option<i64>>)` holds the cells.
#[verifier::external_body]
fn int64_array(cells: Vec<Option<i64>>) -> (column: ArrowColumn)
    ensures
        array_cells(column) == ColumnView::Int64(cells@),
{
    ArrowColumn { array: Arc::new(Int64Array::from(cells)) }
}

/// `UInt64Array::from(Vec<Option<u64>>)` holds the cells.
#[verifier::external_body]
fn uint64_array(cells: Vec<Option<u64>>) -> (column: ArrowColumn)
    ensures
        array_cells(column) == ColumnView::UInt64(cells@),
{
    ArrowColumn { array: Arc::new(UInt64Array::from(cells)) }
}

/// The doubles that texts spell.
pub open spec fn spelled_doubles(cells: Seq<Option<String>>) -> Seq<Option<u64>> {
    Seq::new(
        cells.len(),
        |i: int|
            match cells[i] {
                Some(s) => decimal::finite_double(s@),
                None => None,
            },
    )
}

/// `Float64Array::from(Vec<Option<_>>)` holds the doubles that `str::parse`
/// reads from the texts.
#[verifier::external_body]
fn float64_array(cells: Vec<Option<String>>) -> (column: ArrowColumn)
    requires
        forall|i: int|
            0 <= i < cells@.len() ==> ((#[trigger] cells@[i]) matches Some(s)
                ==> decimal::finite_double(s@) is Some),
    ensures
        array_cells(column) == ColumnView::Float64(spelled_doubles(cells@)),
{
    let doubles = cells.into_iter().map(|cell| cell.and_then(|spelled| spelled.parse().ok()));
    ArrowColumn { array: Arc::new(Float64Array::from(doubles.collect::<Vec<Option<_>>>())) }
}

/// `StringArray::from(Vec<Option<String>>)` holds the cells. Its offsets are
/// 32-bit: it panics on more bytes than they can count.
#[verifier::external_body]
fn utf8_array(cells: Vec<Option<String>>) -> (column: ArrowColumn)
    requires
        texts_fit(text_cells(cells@)),
    ensures
        array_cells(column) == ColumnView::Utf8(text_cells(cells@)),
{
    ArrowColumn { array: Arc::new(StringArray::from(cells)) }
}

/// `TimestampMillisecondArray::from(Vec<Option<i64>>)`, with the time zone
/// `UTC`, holds the cells.
#[verifier::external_body]
fn timestamp_array(cells: Vec<Option<i64>>) -> (column: ArrowColumn)
    ensures
        array_cells(column) == ColumnView::TimestampMillis(cells@),
{
    ArrowColumn { array: Arc::new(TimestampMillisecondArray::from(cells).with_timezone("UTC")) }
}

/// `ListBuilder::new` starts with no list.
#[verifier::external_body]
fn new_list_column() -> (column: ListColumn)
    ensures
        completed_lists(column) == Seq::<Option<Seq<Option<Seq<char>>>>>::empty(),
        begun_list(column) == Seq::<Option<Seq<char>>>::empty(),
{
    ListColumn { builder: ListBuilder::new(StringBuilder::new()) }
}

/// `StringBuilder::append_option` adds one item to the list that is begun. Its
/// offsets are 32-bit: it panics on more bytes than they can count.
#[verifier::external_body]
fn add_item(column: &mut ListColumn, item: Option<&str>)
    requires
        texts_fit(
            (flattened(completed_lists(*old(column))) + begun_list(*old(column))).push(text::optional(item)),
        ),
    ensures
        completed_lists(*final(column)) == completed_lists(*old(column)),
        begun_list(*final(column)) == begun_list(*old(column)).push(text::optional(item)),
{
    column.builder.values().append_option(item)
}

/// `ListBuilder::append` completes a list: the one that is begun when it is
/// valid, else a null. Its offsets are 32-bit: it panics on more items than
/// they can count.
#[verifier::external_body]
fn complete_list(column: &mut ListColumn, valid: bool)
    requires
        !valid ==> begun_list(*old(column)).len() == 0,
        (flattened(completed_lists(*old(column))) + begun_list(*old(column))).len() <= i32::MAX,
    ensures
        completed_lists(*final(column)) == completed_lists(*old(column)).push(
            if valid {
                Some(begun_list(*old(column)))
            } else {
                None
            },
        ),
        begun_list(*final(column)) == Seq::<Option<Seq<char>>>::empty(),
{
    column.builder.append(valid)
}

/// `ListBuilder::finish` gives the completed lists.
#[verifier::external_body]
fn finish_lists(column: ListColumn) -> (array: ArrowColumn)
    requires
        begun_list(column).len() == 0,
    ensures
        array_cells(array) == ColumnView::Utf8List(completed_lists(column)),
{
    let mut builder = column.builder;
    ArrowColumn { array: Arc::new(builder.finish()) }
}

/// The cells of arrays in a row.
pub open spec fn all_cells(columns: Seq<ArrowColumn>) -> Seq<ColumnView> {
    Seq::new(columns.len(), |i: int| array_cells(columns[i]))
}

/// `RecordBatch::try_new` makes a batch of columns that agree with the fields
/// in number, type and nullability and with each other in length, and of
/// nothing else. The error is given by its text.
#[verifier::external_body]
fn record_batch(schema: &Arc<Schema>, columns: Vec<ArrowColumn>) -> (r: Result<Batch, String>)
    ensures
        match r {
            Ok(batch) => {
                &&& makes_batch(schema_fields(**schema), all_cells(columns@))
                &&& batch_columns(batch) == all_cells(columns@)
                &&& batch_fields(batch) == schema_fields(**schema)
            },
            Err(message) => {
                &&& !makes_batch(schema_fields(**schema), all_cells(columns@))
                &&& schema_fields(**schema).len() == 0 && columns@.len() == 0 ==> message@
                    == "Invalid argument error: must either specify a row count or at least one column"@
            },
        },
{
    let arrays = columns.into_iter().map(|column| column.array).collect();
    match RecordBatch::try_new(Arc::clone(schema), arrays) {
        Ok(batch) => Ok(Batch { batch }),
        Err(e) => Err(e.to_string()),
    }
}

proof fn bytes_grow(cells: Seq<Option<Seq<char>>>, i: int)
    requires
        0 <= i <= cells.len(),
    ensures
        text_bytes(cells.take(i)) <= text_bytes(cells),
    decreases cells.len(),
{
    if i == cells.len() {
        assert(cells.take(i) =~= cells);
    } else {
        bytes_grow(cells.drop_last(), i);
        assert(cells.drop_last().take(i) =~= cells.take(i));
    }
}

proof fn bytes_of_prefix(prefix: Seq<Option<Seq<char>>>, cells: Seq<Option<Seq<char>>>)
    requires
        prefix.len() <= cells.len(),
        prefix == cells.take(prefix.len() as int),
    ensures
        text_bytes(prefix) <= text_bytes(cells),
{
    bytes_grow(cells, prefix.len() as int);
}

proof fn flattened_prefix(lists: Seq<Option<Seq<Option<Seq<char>>>>>, i: int)
    requires
        0 <= i <= lists.len(),
    ensures
        flattened(lists.take(i)).len() <= flattened(lists).len(),
        flattened(lists.take(i)) == flattened(lists).take(flattened(lists.take(i)).len() as int),
    decreases lists.len(),
{
    if i == lists.len() {
        assert(lists.take(i) =~= lists);
        assert(flattened(lists).take(flattened(lists).len() as int) =~= flattened(lists));
    } else {
        let shorter = lists.drop_last();
        flattened_prefix(shorter, i);
        assert(shorter.take(i) =~= lists.take(i));
        let part = flattened(lists.take(i));
        assert(flattened(lists).take(part.len() as int) =~= flattened(shorter).take(
            part.len() as int,
        ));
    }
}

/// Adds the bytes of one text to a count, unless the sum passes the limit of
/// 32-bit offsets.
fn add_bytes(count: u64, cell: &Option<String>) -> (r: Option<u64>)
    requires
        count <= i32::MAX,
    ensures
        match r {
            Some(sum) => sum <= i32::MAX && sum == count + text_bytes(seq![text_cell(*cell)]),
            None => count + text_bytes(seq![text_cell(*cell)]) > i32::MAX,
        },
{
    proof {
        assert(seq![text_cell(*cell)].drop_last() =~= Seq::empty());
        assert(text_bytes(seq![text_cell(*cell)].drop_last()) == 0);
    }
    match cell {
        Some(s) => {
            let bytes: usize = s.as_str().as_bytes().len();
            if bytes as u64 > i32::MAX as u64 - count {
                None
            } else {
                Some(count + bytes as u64)
            }
        },
        None => Some(count),
    }
}

proof fn bytes_of_next(cells: Seq<Option<Seq<char>>>, i: int)
    requires
        0 <= i < cells.len(),
    ensures
        text_bytes(cells.take(i + 1)) == text_bytes(cells.take(i)) + text_bytes(seq![cells[i]]),
{
    let next = cells.take(i + 1);
    assert(next.drop_last() =~= cells.take(i));
    assert(seq![cells[i]].drop_last() =~= Seq::empty());
    assert(text_bytes(seq![cells[i]].drop_last()) == 0);
}

fn check_texts(cells: &Vec<Option<String>>) -> (r: bool)
    ensures
        r == texts_fit(text_cells(cells@)),
{
    let ghost all = text_cells(cells@);
    let mut count: u64 = 0;
    let mut i: usize = 0;
    while i < cells.len()
        invariant
            all == text_cells(cells@),
            i <= cells@.len(),
            count <= i32::MAX,
            count == text_bytes(all.take(i as int)),
        decreases cells@.len() - i,
    {
        proof {
            bytes_of_next(all, i as int);
            bytes_grow(all, i + 1);
        }
        match add_bytes(count, &cells[i]) {
            Some(sum) => {
                count = sum;
            },
            None => {
                return false;
            },
        }
        i += 1;
    }
    assert(all.take(i as int) =~= all);
    true
}

fn check_lists(cells: &Vec<Option<Vec<Option<String>>>>) -> (r: bool)
    ensures
        r == ColumnView::Utf8List(list_cells(cells@)).fits(),
{
    let ghost lists = list_cells(cells@);
    let ghost all = flattened(lists);
    let mut count: u64 = 0;
    let mut items_seen: u64 = 0;
    let mut i: usize = 0;
    assert(flattened(lists.take(0)) =~= Seq::empty());
    while i < cells.len()
        invariant
            lists == list_cells(cells@),
            all == flattened(lists),
            i <= cells@.len(),
            count <= i32::MAX,
            count == text_bytes(flattened(lists.take(i as int))),
            items_seen <= i32::MAX,
            items_seen == flattened(lists.take(i as int)).len(),
        decreases cells@.len() - i,
    {
        let ghost before = flattened(lists.take(i as int));
        proof {
            assert(lists.take(i + 1).drop_last() =~= lists.take(i as int));
            assert(lists.take(i + 1).last() == list_cell(cells@[i as int]));
            flattened_prefix(lists, i + 1);
            bytes_of_prefix(flattened(lists.take(i + 1)), all);
        }
        match &cells[i] {
            Some(items) => {
                let ghost texts = text_cells(items@);
                let ghost after = before + texts;
                assert(flattened(lists.take(i + 1)) == after);
                if items.len() as u64 > i32::MAX as u64 - items_seen {
                    return false;
                }
                let mut k: usize = 0;
                assert(before + texts.take(0) =~= before);
                while k < items.len()
                    invariant
                        k <= items@.len(),
                        texts == text_cells(items@),
                        after == before + texts,
                        text_bytes(after) <= text_bytes(all),
                        all == flattened(lists),
                        lists == list_cells(cells@),
                        count <= i32::MAX,
                        count == text_bytes(before + texts.take(k as int)),
                    decreases items@.len() - k,
                {
                    proof {
                        let n = before.len() + k;
                        assert(after.take(n as int) =~= before + texts.take(k as int));
                        assert(after.take(n as int + 1) =~= before + texts.take(k + 1));
                        assert(after[n as int] == text_cell(items@[k as int]));
                        bytes_of_next(after, n as int);
                        bytes_grow(after, n as int + 1);
                    }
                    match add_bytes(count, &items[k]) {
                        Some(sum) => {
                            count = sum;
                        },
                        None => {
                            return false;
                        },
                    }
                    k += 1;
                }
                assert(before + texts.take(k as int) =~= after);
                items_seen = items_seen + items.len() as u64;
            },
            None => {
                assert(flattened(lists.take(i + 1)) =~= before);
            },
        }
        i += 1;
    }
    assert(lists.take(i as int) =~= lists);
    true
}

/// Whether a column's texts can lie in one Arrow array.
pub fn column_fits(column: &Column) -> (r: bool)
    ensures
        r == column@.fits(),
{
    match column {
        Column::Utf8(cells) => check_texts(cells),
        Column::Utf8List(cells) => check_lists(cells),
        _ => true,
    }
}

fn list_array(cells: &Vec<Option<Vec<Option<String>>>>) -> (array: ArrowColumn)
    requires
        ColumnView::Utf8List(list_cells(cells@)).fits(),
    ensures
        array_cells(array) == ColumnView::Utf8List(list_cells(cells@)),
{
    let ghost lists = list_cells(cells@);
    let ghost all = flattened(lists);
    let mut column = new_list_column();
    let mut i: usize = 0;
    assert(lists.take(0) =~= Seq::empty());
    while i < cells.len()
        invariant
            lists == list_cells(cells@),
            all == flattened(lists),
            texts_fit(all),
            all.len() <= i32::MAX,
            i <= cells@.len(),
            completed_lists(column) == lists.take(i as int),
            begun_list(column).len() == 0,
        decreases cells@.len() - i,
    {
        let ghost before = flattened(lists.take(i as int));
        proof {
            assert(lists.take(i + 1).drop_last() =~= lists.take(i as int));
            assert(lists.take(i + 1).last() == list_cell(cells@[i as int]));
            flattened_prefix(lists, i + 1);
            bytes_of_prefix(flattened(lists.take(i + 1)), all);
        }
        match &cells[i] {
            Some(items) => {
                let ghost texts = text_cells(items@);
                let ghost after = before + texts;
                assert(flattened(lists.take(i + 1)) == after);
                let mut k: usize = 0;
                assert(begun_list(column) =~= texts.take(0));
                while k < items.len()
                    invariant
                        k <= items@.len(),
                        texts == text_cells(items@),
                        after == before + texts,
                        texts_fit(after),
                        completed_lists(column) == lists.take(i as int),
                        before == flattened(lists.take(i as int)),
                        begun_list(column) == texts.take(k as int),
                    decreases items@.len() - k,
                {
                    let item: Option<&str> = match &items[k] {
                        Some(s) => Some(s.as_str()),
                        None => None,
                    };
                    proof {
                        let n = before.len() + k;
                        assert(text::optional(item) == texts[k as int]);
                        assert(after.take(n as int + 1) =~= (before + texts.take(k as int)).push(
                            text::optional(item),
                        ));
                        bytes_grow(after, n as int + 1);
                        assert(texts.take(k + 1) =~= texts.take(k as int).push(text::optional(item)));
                    }
                    add_item(&mut column, item);
                    k += 1;
                }
                assert(texts.take(k as int) =~= texts);
                complete_list(&mut column, true);
            },
            None => {
                assert(before + begun_list(column) =~= before);
                assert(flattened(lists.take(i + 1)) =~= before);
                complete_list(&mut column, false);
            },
        }
        i += 1;
        assert(lists.take(i as int) =~= lists.take(i - 1).push(lists[i - 1]));
    }
    assert(lists.take(i as int) =~= lists);
    finish_lists(column)
}

fn double_array(cells: &Vec<Option<Decimal>>) -> (array: ArrowColumn)
    ensures
        array_cells(array) == ColumnView::Float64(double_cells(cells@)),
{
    let mut spelled: Vec<Option<String>> = Vec::new();
    let mut i: usize = 0;
    while i < cells.len()
        invariant
            i <= cells@.len(),
            spelled@.len() == i,
            forall|k: int|
                0 <= k < i ==> match #[trigger] spelled@[k] {
                    Some(s) => cells@[k] is Some && decimal::finite_double(s@) == Some(
                        cells@[k]->0@,
                    ),
                    None => cells@[k] is None,
                },
        decreases cells@.len() - i,
    {
        match &cells[i] {
            Some(double) => {
                spelled.push(Some(double.as_text().to_owned()));
            },
            None => {
                spelled.push(None);
            },
        }
        i += 1;
    }
    assert(spelled_doubles(spelled@) =~= double_cells(cells@));
    float64_array(spelled)
}

/// The Arrow array of a column.
pub fn arrow_column(column: Column) -> (array: ArrowColumn)
    requires
        column@.fits(),
    ensures
        array_cells(array) == column@,
{
    match column {
        Column::Boolean(cells) => boolean_array(cells),
        Column::Int64(cells) => int64_array(cells),
        Column::UInt64(cells) => uint64_array(cells),
        Column::Float64(cells) => double_array(&cells),
        Column::Utf8(cells) => utf8_array(cells),
        Column::TimestampMillis(cells) => timestamp_array(cells),
        Column::Utf8List(cells) => list_array(&cells),
    }
}

/// The models of columns in a row.
pub open spec fn column_views(columns: Seq<Column>) -> Seq<ColumnView> {
    Seq::new(columns.len(), |i: int| columns[i]@)
}

/// Whether the texts of every column can lie in one Arrow array.
pub open spec fn columns_fit(columns: Seq<ColumnView>) -> bool {
    forall|i: int| 0 <= i < columns.len() ==> (#[trigger] columns[i]).fits()
}

/// The record batch of columns, or why they do not make one.
pub fn batch_of(schema: &Arc<Schema>, columns: Vec<Column>) -> (r: Result<Batch, String>)
    requires
        columns_fit(column_views(columns@)),
    ensures
        match r {
            Ok(batch) => {
                &&& makes_batch(schema_fields(**schema), column_views(columns@))
                &&& batch_columns(batch) == column_views(columns@)
                &&& batch_fields(batch) == schema_fields(**schema)
            },
            Err(message) => {
                &&& !makes_batch(schema_fields(**schema), column_views(columns@))
                &&& schema_fields(**schema).len() == 0 && columns@.len() == 0 ==> message@
                    == "Invalid argument error: must either specify a row count or at least one column"@
            },
        },
{
    let ghost wanted = column_views(columns@);
    let mut left = columns;
    let mut arrays: Vec<ArrowColumn> = Vec::new();
    while left.len() > 0
        invariant
            columns_fit(wanted),
            arrays@.len() + left@.len() == wanted.len(),
            all_cells(arrays@) == wanted.take(arrays@.len() as int),
            column_views(left@) == wanted.skip(arrays@.len() as int),
        decreases left@.len(),
    {
        let ghost n = arrays@.len() as int;
        assert(column_views(left@)[0] == wanted[n]);
        let column = left.remove(0);
        assert(column@ == wanted[n]);
        arrays.push(arrow_column(column));
        assert(all_cells(arrays@) =~= wanted.take(n + 1));
        assert(column_views(left@) =~= wanted.skip(n + 1)) by {
            assert forall|i: int| 0 <= i < left@.len() implies left@[i]@ == wanted[n + 1 + i] by {
                assert(wanted.skip(n)[i + 1] == wanted[n + 1 + i]);
            }
        }
    }
    assert(all_cells(arrays@) =~= wanted);
    record_batch(schema, arrays)
}

} // verus!
