//! Source packs: the relational contract of each table over an action.
use vstd::prelude::*;

use crate::decimal::Decimal;
use crate::json;
use crate::json::{Json, JsonView, Number, NumberView};
use crate::open_connector::json_to_arrow;
use crate::open_connector::json_to_arrow::{FieldMapping, SpecView};
use crate::open_connector::pagination::{PaginationStrategy, StrategyView};
use crate::text;
use crate::text::same_text;

verus! {

/// The comparison that a pushed filter makes.
#[derive(Debug, Clone, Copy, PartialEq, Eq, Structural)]
pub enum FilterOperator {
    Eq,
    Gt,
    GtEq,
}

/// Whether the provider applies a filter exactly, or to a wider set of rows
/// that the engine filters again.
#[derive(Debug, Clone, Copy, PartialEq, Eq, Structural)]
pub enum Fidelity {
    Exact,
    Inexact,
}

/// How a filter value is written into the action input.
#[derive(Debug, Clone, Copy, PartialEq, Eq, Structural)]
pub enum ValueFormat {
    /// As it is.
    Verbatim,
    /// As an RFC 3339 timestamp.
    Rfc3339,
    /// As whole epoch seconds, rounded down.
    EpochSeconds,
    /// As a text of whole epoch seconds, rounded down.
    EpochSecondsString,
}

/// A predicate that a table can push into its action input.
#[derive(Debug, Clone, Copy)]
pub struct FilterMapping {
    /// Column that the predicate is on.
    pub column: &'static str,
    /// Comparison that it makes.
    pub operator: FilterOperator,
    /// Action input field that it sets.
    pub input_field: &'static str,
    /// How exactly the provider applies it.
    pub fidelity: Fidelity,
    /// How the value is written.
    pub value_format: ValueFormat,
}

/// The model of a [`FilterMapping`].
pub struct FilterView {
    pub column: Seq<char>,
    pub operator: FilterOperator,
    pub input_field: Seq<char>,
    pub fidelity: Fidelity,
    pub value_format: ValueFormat,
}

impl View for FilterMapping {
    type V = FilterView;

    open spec fn view(&self) -> FilterView {
        FilterView {
            column: self.column@,
            operator: self.operator,
            input_field: self.input_field@,
            fidelity: self.fidelity,
            value_format: self.value_format,
        }
    }
}

/// A value that a table always sends. Its model is the JSON value that is sent.
#[derive(Debug)]
pub enum FixedValue {
    Bool(bool),
    Int(i64),
    Float(Decimal),
    Str(&'static str),
    StrList(&'static [&'static str]),
    Json(Json),
}

/// The models of slices in a row.
pub open spec fn slice_texts(items: Seq<&'static str>) -> Seq<Seq<char>> {
    Seq::new(items.len(), |i: int| items[i]@)
}

/// A JSON number that is a signed integer.
pub open spec fn signed(n: i64) -> JsonView {
    JsonView::Number(
        if n < 0 {
            NumberView::NegInt(n)
        } else {
            NumberView::PosInt(n as u64)
        },
    )
}

impl View for FixedValue {
    type V = JsonView;

    open spec fn view(&self) -> JsonView {
        match self {
            FixedValue::Bool(b) => JsonView::Bool(*b),
            FixedValue::Int(n) => signed(*n),
            FixedValue::Float(double) => JsonView::Number(NumberView::Double(double@)),
            FixedValue::Str(s) => JsonView::String(s@),
            FixedValue::StrList(items) => json::string_array(slice_texts(items@)),
            FixedValue::Json(json) => json@,
        }
    }
}

impl FixedValue {
    /// The JSON value that is sent.
    pub fn to_json(&self) -> (r: Json)
        ensures
            r@ == self@,
    {
        match self {
            FixedValue::Bool(b) => Json::Bool(*b),
            FixedValue::Int(n) => Json::Number(Number::NegInt(*n)),
            FixedValue::Float(double) => Json::Number(Number::Double(double.clone())),
            FixedValue::Str(s) => Json::String((*s).to_owned()),
            FixedValue::StrList(items) => {
                let mut out: Vec<Json> = Vec::new();
                let mut i: usize = 0;
                while i < items.len()
                    invariant
                        i <= items@.len(),
                        out@.len() == i,
                        forall|k: int|
                            0 <= k < i ==> json::json_view(#[trigger] out@[k]) == JsonView::String(
                                items@[k]@,
                            ),
                    decreases items@.len() - i,
                {
                    out.push(Json::String(items[i].to_owned()));
                    i += 1;
                }
                let r = Json::Array(out);
                assert(r@->Array_0 =~= self@->Array_0);
                r
            },
            FixedValue::Json(json) => json.clone(),
        }
    }
}

/// One table of a source pack.
#[derive(Debug)]
pub struct SourcePackTable {
    /// Full table ID, `<pack>.<table>`.
    pub id: &'static str,
    /// Action that the table scans.
    pub action_id: &'static str,
    /// Where the rows lie in a response.
    pub row_path: &'static str,
    /// Columns, in order.
    pub fields: &'static [FieldMapping],
    /// How the action pages.
    pub pagination: PaginationStrategy,
    /// Resource inputs that a binding must supply.
    pub required_resources: &'static [&'static str],
    /// Resource inputs that a binding may supply.
    pub optional_resources: &'static [&'static str],
    /// Inputs that every request carries.
    pub fixed_inputs: &'static [(&'static str, FixedValue)],
    /// Predicates that can be pushed.
    pub filters: &'static [FilterMapping],
    /// Where a response reports an error of the provider.
    pub error_path: Option<&'static str>,
    /// Fingerprint that the action's output schema must have.
    pub expected_fingerprint: Option<&'static str>,
}

/// The model of a [`SourcePackTable`].
#[verifier::ext_equal]
pub struct TableView {
    pub id: Seq<char>,
    pub action_id: Seq<char>,
    pub row_path: Seq<char>,
    pub fields: Seq<SpecView>,
    pub pagination: StrategyView,
    pub required_resources: Seq<Seq<char>>,
    pub optional_resources: Seq<Seq<char>>,
    pub fixed_inputs: Seq<(Seq<char>, JsonView)>,
    pub filters: Seq<FilterView>,
    pub error_path: Option<Seq<char>>,
    pub expected_fingerprint: Option<Seq<char>>,
}

/// The models of fixed inputs.
pub open spec fn fixed_views(inputs: Seq<(&'static str, FixedValue)>) -> Seq<
    (Seq<char>, JsonView),
> {
    Seq::new(inputs.len(), |i: int| (inputs[i].0@, inputs[i].1@))
}

/// The models of filters.
pub open spec fn filter_views(filters: Seq<FilterMapping>) -> Seq<FilterView> {
    Seq::new(filters.len(), |i: int| filters[i]@)
}

impl View for SourcePackTable {
    type V = TableView;

    open spec fn view(&self) -> TableView {
        TableView {
            id: self.id@,
            action_id: self.action_id@,
            row_path: self.row_path@,
            fields: json_to_arrow::mapping_views(self.fields@),
            pagination: self.pagination@,
            required_resources: slice_texts(self.required_resources@),
            optional_resources: slice_texts(self.optional_resources@),
            fixed_inputs: fixed_views(self.fixed_inputs@),
            filters: filter_views(self.filters@),
            error_path: text::optional(self.error_path),
            expected_fingerprint: text::optional(self.expected_fingerprint),
        }
    }
}

impl TableView {
    /// Whether the table's action takes this resource input.
    pub open spec fn declares(self, key: Seq<char>) -> bool {
        self.required_resources.contains(key) || self.optional_resources.contains(key)
    }
}

/// Whether one of the slices is this text.
pub fn lists(items: &[&'static str], key: &str) -> (r: bool)
    ensures
        r == slice_texts(items@).contains(key@),
{
    let mut i: usize = 0;
    while i < items.len()
        invariant
            i <= items@.len(),
            forall|k: int| 0 <= k < i ==> (#[trigger] items@[k])@ != key@,
        decreases items@.len() - i,
    {
        if same_text(items[i], key) {
            assert(slice_texts(items@)[i as int] == key@);
            return true;
        }
        i += 1;
    }
    assert forall|k: int| 0 <= k < slice_texts(items@).len() implies slice_texts(items@)[k]
        != key@ by {
        assert(items@[k]@ != key@);
    }
    false
}

impl SourcePackTable {
    /// Whether the table's action takes this resource input.
    pub fn declares_resource(&self, key: &str) -> (r: bool)
        ensures
            r == self@.declares(key@),
    {
        lists(self.required_resources, key) || lists(self.optional_resources, key)
    }
}

/// A versioned set of tables over one provider's actions.
#[derive(Debug)]
pub struct SourcePack {
    /// Pack name.
    pub name: &'static str,
    /// Pack version.
    pub version: u32,
    /// Tables, in order of their names.
    pub tables: &'static [SourcePackTable],
}

/// The model of a [`SourcePack`].
#[verifier::ext_equal]
pub struct PackView {
    pub name: Seq<char>,
    pub version: u32,
    pub tables: Seq<TableView>,
}

impl View for SourcePack {
    type V = PackView;

    open spec fn view(&self) -> PackView {
        PackView {
            name: self.name@,
            version: self.version,
            tables: Seq::new(self.tables@.len(), |i: int| self.tables@[i]@),
        }
    }
}

} // verus!
