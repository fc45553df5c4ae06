//! What must hold between the parts of a source-pack table.
//!
//! A document's shape says nothing about these; the engine relies on them and
//! does not check them again during a scan.
use vstd::hash_set::StringHashSet;
use vstd::prelude::*;

use crate::open_connector::error::ErrorView;
use crate::open_connector::json_to_arrow;
use crate::open_connector::json_to_arrow::RowConverter;
use crate::open_connector::pagination;
use crate::open_connector::pagination::{PaginationStrategy, StrategyView};
use crate::open_connector::row_path;
use crate::open_connector::row_path::RowPath;
use crate::open_connector::source_pack;
use crate::open_connector::source_pack::{
    lists, Fidelity, FilterOperator, SourcePackTable, TableView, ValueFormat,
};
use crate::text::{concat3, concat4, concat5, same_text};

verus! {

/// The first of two problems.
pub open spec fn or_next(first: Option<Seq<char>>, next: Option<Seq<char>>) -> Option<Seq<char>> {
    match first {
        Some(problem) => Some(problem),
        None => next,
    }
}

/// The first problem in a row.
pub open spec fn first_of(problems: Seq<Option<Seq<char>>>) -> Option<Seq<char>>
    decreases problems.len(),
{
    if problems.len() == 0 {
        None
    } else {
        or_next(first_of(problems.drop_last()), problems.last())
    }
}

/// There is no first problem exactly when there is none.
pub proof fn no_problem_at_all(problems: Seq<Option<Seq<char>>>)
    ensures
        first_of(problems) is None <==> forall|i: int|
            0 <= i < problems.len() ==> (#[trigger] problems[i]) is None,
    decreases problems.len(),
{
    if problems.len() > 0 {
        let shorter = problems.drop_last();
        no_problem_at_all(shorter);
        let last = problems.len() - 1;
        assert forall|i: int| 0 <= i < shorter.len() implies shorter[i] == problems[i] by {}
        if first_of(problems) is None {
            assert forall|i: int| 0 <= i < problems.len() implies (#[trigger] problems[i]) is None by {
                if i < last {
                    assert(shorter[i] is None);
                }
            }
        } else if forall|i: int| 0 <= i < problems.len() ==> (#[trigger] problems[i]) is None {
            assert(problems[last] is None);
            assert forall|i: int| 0 <= i < shorter.len() implies (#[trigger] shorter[i]) is None by {
                assert(problems[i] is None);
            }
        }
    }
}

proof fn first_problem_found(problems: Seq<Option<Seq<char>>>, i: int)
    requires
        0 <= i < problems.len(),
        first_of(problems.take(i)) is None,
    ensures
        problems[i] is None ==> first_of(problems.take(i + 1)) is None,
        problems[i] is Some ==> first_of(problems) == problems[i],
    decreases problems.len(),
{
    assert(problems.take(i + 1).drop_last() =~= problems.take(i));
    if problems[i] is Some {
        if i == problems.len() - 1 {
            assert(problems.take(i + 1) =~= problems);
        } else {
            assert(problems.drop_last().take(i) =~= problems.take(i));
            first_problem_found(problems.drop_last(), i);
        }
    }
}

/// A problem of a table, with the table's ID in front.
pub open spec fn about(id: Seq<char>, problem: Seq<char>) -> Seq<char> {
    id + ": "@ + problem
}

/// The problem of a check that failed.
pub open spec fn as_problem(id: Seq<char>, check: Result<(), ErrorView>) -> Option<Seq<char>> {
    match check {
        Ok(_) => None,
        Err(e) => Some(about(id, e.message())),
    }
}

/// What the engine would find when it parses the table's parts.
pub open spec fn structure_problem(table: TableView) -> Option<Seq<char>> {
    or_next(
        as_problem(table.id, pagination::checked_path(Some(table.row_path))),
        or_next(
            as_problem(table.id, pagination::checked_path(table.error_path)),
            or_next(
                as_problem(table.id, pagination::validated(table.pagination)),
                match json_to_arrow::first_problem(table.fields) {
                    Some(e) => Some(about(table.id, e.message())),
                    None => None,
                },
            ),
        ),
    )
}

/// Whether a column comes after another of its name.
pub open spec fn column_repeats(table: TableView, j: int) -> bool {
    exists|k: int| 0 <= k < j && (#[trigger] table.fields[k]).name == table.fields[j].name
}

/// The problem of a column that repeats another.
pub open spec fn column_problem(table: TableView, j: int) -> Option<Seq<char>> {
    if column_repeats(table, j) {
        Some(about(table.id, "duplicate column '"@ + table.fields[j].name + "'"@))
    } else {
        None
    }
}

/// Whether a table has a column of this name.
pub open spec fn has_column(table: TableView, name: Seq<char>) -> bool {
    exists|k: int| 0 <= k < table.fields.len() && (#[trigger] table.fields[k]).name == name
}

/// Whether a filter comes after another on its column with its operator.
pub open spec fn filter_repeats(table: TableView, j: int) -> bool {
    exists|k: int|
        0 <= k < j && (#[trigger] table.filters[k]).column == table.filters[j].column
            && table.filters[k].operator == table.filters[j].operator
}

/// Whether a format rounds its value down.
pub open spec fn floors(format: ValueFormat) -> bool {
    format == ValueFormat::EpochSeconds || format == ValueFormat::EpochSecondsString
}

/// How an operator is named in messages.
pub open spec fn operator_text(operator: FilterOperator) -> Seq<char> {
    match operator {
        FilterOperator::Eq => "Eq"@,
        FilterOperator::Gt => "Gt"@,
        FilterOperator::GtEq => "GtEq"@,
    }
}

/// The problem of a filter: its column must be declared and not be filtered
/// twice by one operator, and a value that is rounded down is sound only as a
/// lower bound that is filtered again.
pub open spec fn filter_problem(table: TableView, j: int) -> Option<Seq<char>> {
    let filter = table.filters[j];
    if !has_column(table, filter.column) {
        Some(about(table.id, "filter references undeclared column '"@ + filter.column + "'"@))
    } else if filter_repeats(table, j) {
        Some(
            about(
                table.id,
                "duplicate filter mapping for column '"@ + filter.column + "' and operator "@
                    + operator_text(filter.operator),
            ),
        )
    } else if floors(filter.value_format) && filter.operator == FilterOperator::Eq {
        Some(
            about(
                table.id,
                "filter on '"@ + filter.column
                    + "' renders as flooring epoch seconds, which is only sound for lower bounds — operator "@
                    + operator_text(filter.operator)
                    + " would drop rows; declare gt/gt_eq or use the rfc3339 format"@,
            ),
        )
    } else if floors(filter.value_format) && filter.fidelity != Fidelity::Inexact {
        Some(
            about(
                table.id,
                "filter on '"@ + filter.column
                    + "' floors sub-second literals into a WIDER fetch, so it must be declared inexact (DataFusion re-filters locally); exact would surface rows the predicate excludes"@,
            ),
        )
    } else {
        None
    }
}

/// The problem of a required resource that is optional too.
pub open spec fn resource_problem(table: TableView, j: int) -> Option<Seq<char>> {
    if table.optional_resources.contains(table.required_resources[j]) {
        Some(
            about(
                table.id,
                "resource '"@ + table.required_resources[j]
                    + "' is declared both required and optional"@,
            ),
        )
    } else {
        None
    }
}

/// The inputs that pagination sets.
pub open spec fn pagination_inputs(strategy: StrategyView) -> Seq<Seq<char>> {
    match strategy {
        StrategyView::PageNumber { page_param, per_page_param, .. } => seq![
            page_param,
            per_page_param,
        ],
        StrategyView::Cursor { cursor_param, page_size_param, .. } => match page_size_param {
            Some(param) => seq![cursor_param, param],
            None => seq![cursor_param],
        },
        StrategyView::SinglePage => Seq::empty(),
    }
}

/// The problem of pagination whose inputs coincide or whose page size is zero.
pub open spec fn paging_problem(table: TableView) -> Option<Seq<char>> {
    match table.pagination {
        StrategyView::PageNumber { page_param, per_page_param, per_page, .. } => if page_param
            == per_page_param {
            Some(
                about(
                    table.id,
                    "pagination declares '"@ + page_param
                        + "' as both the page and page-size input"@,
                ),
            )
        } else if per_page == 0 {
            Some(about(table.id, "pagination page size must be positive"@))
        } else {
            None
        },
        StrategyView::Cursor { cursor_param, page_size_param, page_size, .. } => if page_size_param
            == Some(cursor_param) {
            Some(
                about(
                    table.id,
                    "pagination declares '"@ + cursor_param
                        + "' as both the cursor and page-size input"@,
                ),
            )
        } else if page_size_param is Some && page_size == 0 {
            Some(about(table.id, "pagination page size must be positive"@))
        } else {
            None
        },
        StrategyView::SinglePage => None,
    }
}

/// Whether a filter comes after another with its input.
pub open spec fn input_repeats(table: TableView, j: int) -> bool {
    exists|k: int|
        0 <= k < j && (#[trigger] table.filters[k]).input_field == table.filters[j].input_field
}

/// The problem of a filter whose input is another's, pagination's or a
/// resource's. An input that is also a fixed input is no problem: the filter
/// then overrides it.
pub open spec fn filter_input_problem(table: TableView, j: int) -> Option<Seq<char>> {
    let input = table.filters[j].input_field;
    if input_repeats(table, j) {
        Some(
            about(
                table.id,
                "two filter mappings target input '"@ + input
                    + "'; declare one mapping per input"@,
            ),
        )
    } else if pagination_inputs(table.pagination).contains(input) {
        Some(
            about(
                table.id,
                "filter input '"@ + input
                    + "' collides with a pagination input, which is applied last and would overwrite the pushed predicate"@,
            ),
        )
    } else if table.declares(input) {
        Some(about(table.id, "filter input '"@ + input + "' collides with a declared resource"@))
    } else {
        None
    }
}

/// The problem of a fixed input that is a resource's or pagination's.
pub open spec fn fixed_input_problem(table: TableView, j: int) -> Option<Seq<char>> {
    let key = table.fixed_inputs[j].0;
    if table.declares(key) {
        Some(
            about(
                table.id,
                "fixed input '"@ + key
                    + "' collides with a declared resource — the request would carry an ambiguous value"@,
            ),
        )
    } else if pagination_inputs(table.pagination).contains(key) {
        Some(about(table.id, "fixed input '"@ + key + "' collides with a pagination input"@))
    } else {
        None
    }
}

/// The problem of an input of pagination that is a resource's.
pub open spec fn paged_resource_problem(table: TableView, j: int) -> Option<Seq<char>> {
    let input = pagination_inputs(table.pagination)[j];
    if table.declares(input) {
        Some(
            about(
                table.id,
                "resource '"@ + input
                    + "' collides with a pagination input, which is applied last and would overwrite it"@,
            ),
        )
    } else {
        None
    }
}

/// The problems of the columns.
pub open spec fn column_problems(table: TableView) -> Seq<Option<Seq<char>>> {
    Seq::new(table.fields.len(), |j: int| column_problem(table, j))
}

/// The problems of the filters.
pub open spec fn filter_problems(table: TableView) -> Seq<Option<Seq<char>>> {
    Seq::new(table.filters.len(), |j: int| filter_problem(table, j))
}

/// The problems of the resources.
pub open spec fn resource_problems(table: TableView) -> Seq<Option<Seq<char>>> {
    Seq::new(table.required_resources.len(), |j: int| resource_problem(table, j))
}

/// The problems of the filter inputs.
pub open spec fn filter_input_problems(table: TableView) -> Seq<Option<Seq<char>>> {
    Seq::new(table.filters.len(), |j: int| filter_input_problem(table, j))
}

/// The problems of the fixed inputs.
pub open spec fn fixed_input_problems(table: TableView) -> Seq<Option<Seq<char>>> {
    Seq::new(table.fixed_inputs.len(), |j: int| fixed_input_problem(table, j))
}

/// The problems of the inputs of pagination.
pub open spec fn paged_resource_problems(table: TableView) -> Seq<Option<Seq<char>>> {
    Seq::new(
        pagination_inputs(table.pagination).len(),
        |j: int| paged_resource_problem(table, j),
    )
}

/// The first problem of a table.
pub open spec fn table_problem(table: TableView) -> Option<Seq<char>> {
    or_next(
        structure_problem(table),
        or_next(
            first_of(column_problems(table)),
            or_next(
                first_of(filter_problems(table)),
                or_next(
                    first_of(resource_problems(table)),
                    or_next(
                        paging_problem(table),
                        or_next(
                            first_of(filter_input_problems(table)),
                            or_next(
                                first_of(fixed_input_problems(table)),
                                first_of(paged_resource_problems(table)),
                            ),
                        ),
                    ),
                ),
            ),
        ),
    )
}

/// The model of an optional problem.
pub open spec fn problem_view(problem: Option<String>) -> Option<Seq<char>> {
    match problem {
        Some(problem) => Some(problem@),
        None => None,
    }
}

fn say(id: &str, problem: &str) -> (s: String)
    ensures
        s@ == about(id@, problem@),
{
    concat3(id, ": ", problem)
}

fn check_structure(table: &SourcePackTable) -> (r: Option<String>)
    ensures
        problem_view(r) == structure_problem(table@),
{
    match RowPath::parse(table.row_path) {
        Ok(_) => {},
        Err(e) => {
            return Some(say(table.id, e.message().as_str()));
        },
    }
    if let Some(path) = table.error_path {
        match RowPath::parse(path) {
            Ok(_) => {},
            Err(e) => {
                return Some(say(table.id, e.message().as_str()));
            },
        }
    }
    match table.pagination.validate() {
        Ok(_) => {},
        Err(e) => {
            return Some(say(table.id, e.message().as_str()));
        },
    }
    match RowConverter::new(table.fields) {
        Ok(_) => None,
        Err(e) => Some(say(table.id, e.message().as_str())),
    }
}

/// The names of the columns before position `n`.
pub open spec fn names_before(table: TableView, n: int) -> Set<Seq<char>> {
    Set::new(
        |name: Seq<char>|
            exists|k: int| 0 <= k < n && (#[trigger] table.fields[k]).name == name,
    )
}

fn check_columns(table: &SourcePackTable) -> (r: Result<StringHashSet, String>)
    ensures
        match r {
            Ok(names) => {
                &&& first_of(column_problems(table@)) is None
                &&& forall|name: Seq<char>|
                    names@.contains(name) <==> #[trigger] has_column(table@, name)
            },
            Err(problem) => first_of(column_problems(table@)) == Some(problem@),
        },
{
    let ghost view = table@;
    let ghost problems = column_problems(view);
    let mut names = StringHashSet::new();
    let mut j: usize = 0;
    assert(problems.take(0) =~= Seq::empty());
    assert(names@ =~= names_before(view, 0));
    while j < table.fields.len()
        invariant
            view == table@,
            problems == column_problems(view),
            j <= table.fields@.len(),
            first_of(problems.take(j as int)) is None,
            names@ == names_before(view, j as int),
        decreases table.fields@.len() - j,
    {
        proof {
            first_problem_found(problems, j as int);
            assert(view.fields[j as int].name == table.fields@[j as int].name@);
            assert(names_before(view, j as int).contains(view.fields[j as int].name)
                <==> column_repeats(view, j as int));
        }
        let name = table.fields[j].name;
        if !names.insert(name.to_owned()) {
            let problem = concat3("duplicate column '", name, "'");
            return Err(say(table.id, problem.as_str()));
        }
        j += 1;
        assert(names@ =~= names_before(view, j as int)) by {
            assert forall|n: Seq<char>| names_before(view, j as int).contains(n) <==> (
            names_before(view, j - 1).contains(n) || n == name@) by {
                if n == name@ {
                    assert(view.fields[j - 1].name == n);
                }
                if names_before(view, j - 1).contains(n) {
                    let k = choose|k: int|
                        0 <= k < j - 1 && (#[trigger] view.fields[k]).name == n;
                    assert(view.fields[k].name == n);
                }
            }
        }
    }
    assert(problems.take(j as int) =~= problems);
    Ok(names)
}

fn operator_name(operator: FilterOperator) -> (r: &'static str)
    ensures
        r@ == operator_text(operator),
{
    match operator {
        FilterOperator::Eq => "Eq",
        FilterOperator::Gt => "Gt",
        FilterOperator::GtEq => "GtEq",
    }
}

fn filter_seen(table: &SourcePackTable, j: usize) -> (r: bool)
    requires
        j < table.filters@.len(),
    ensures
        r == filter_repeats(table@, j as int),
{
    let mut k: usize = 0;
    while k < j
        invariant
            k <= j < table.filters@.len(),
            forall|m: int|
                0 <= m < k ==> !((#[trigger] table.filters@[m]).column@
                    == table.filters@[j as int].column@ && table.filters@[m].operator
                    == table.filters@[j as int].operator),
        decreases j - k,
    {
        if same_text(table.filters[k].column, table.filters[j].column) && table.filters[k].operator
            == table.filters[j].operator {
            assert(table@.filters[k as int].column == table@.filters[j as int].column);
            return true;
        }
        k += 1;
    }
    assert forall|m: int| 0 <= m < j implies !((#[trigger] table@.filters[m]).column
        == table@.filters[j as int].column && table@.filters[m].operator
        == table@.filters[j as int].operator) by {
        assert(table@.filters[m] == table.filters@[m]@);
    }
    false
}

fn check_filter(table: &SourcePackTable, names: &StringHashSet, j: usize) -> (r: Option<String>)
    requires
        j < table.filters@.len(),
        forall|name: Seq<char>| names@.contains(name) <==> #[trigger] has_column(table@, name),
    ensures
        problem_view(r) == filter_problem(table@, j as int),
{
    let filter = &table.filters[j];
    assert(table@.filters[j as int] == filter@);
    assert(has_column(table@, filter@.column) <==> names@.contains(filter@.column));
    if !names.contains(filter.column) {
        let problem = concat3("filter references undeclared column '", filter.column, "'");
        return Some(say(table.id, problem.as_str()));
    }
    if filter_seen(table, j) {
        let problem = concat4(
            "duplicate filter mapping for column '",
            filter.column,
            "' and operator ",
            operator_name(filter.operator),
        );
        return Some(say(table.id, problem.as_str()));
    }
    if filter.value_format == ValueFormat::EpochSeconds || filter.value_format
        == ValueFormat::EpochSecondsString {
        if filter.operator == FilterOperator::Eq {
            let problem = concat5(
                "filter on '",
                filter.column,
                "' renders as flooring epoch seconds, which is only sound for lower bounds — operator ",
                operator_name(filter.operator),
                " would drop rows; declare gt/gt_eq or use the rfc3339 format",
            );
            return Some(say(table.id, problem.as_str()));
        }
        if filter.fidelity != Fidelity::Inexact {
            let problem = concat3(
                "filter on '",
                filter.column,
                "' floors sub-second literals into a WIDER fetch, so it must be declared inexact (DataFusion re-filters locally); exact would surface rows the predicate excludes",
            );
            return Some(say(table.id, problem.as_str()));
        }
    }
    None
}

fn check_filters(table: &SourcePackTable, names: &StringHashSet) -> (r: Option<String>)
    requires
        forall|name: Seq<char>| names@.contains(name) <==> #[trigger] has_column(table@, name),
    ensures
        problem_view(r) == first_of(filter_problems(table@)),
{
    let ghost problems = filter_problems(table@);
    let mut j: usize = 0;
    assert(problems.take(0) =~= Seq::empty());
    while j < table.filters.len()
        invariant
            problems == filter_problems(table@),
            forall|name: Seq<char>| names@.contains(name) <==> #[trigger] has_column(table@, name),
            j <= table.filters@.len(),
            first_of(problems.take(j as int)) is None,
        decreases table.filters@.len() - j,
    {
        proof {
            first_problem_found(problems, j as int);
        }
        let problem = check_filter(table, names, j);
        if problem.is_some() {
            return problem;
        }
        j += 1;
    }
    assert(problems.take(j as int) =~= problems);
    None
}

fn check_resources(table: &SourcePackTable) -> (r: Option<String>)
    ensures
        problem_view(r) == first_of(resource_problems(table@)),
{
    let ghost problems = resource_problems(table@);
    let mut j: usize = 0;
    assert(problems.take(0) =~= Seq::empty());
    while j < table.required_resources.len()
        invariant
            problems == resource_problems(table@),
            j <= table.required_resources@.len(),
            first_of(problems.take(j as int)) is None,
        decreases table.required_resources@.len() - j,
    {
        proof {
            first_problem_found(problems, j as int);
        }
        let required = table.required_resources[j];
        if lists(table.optional_resources, required) {
            let problem = concat3(
                "resource '",
                required,
                "' is declared both required and optional",
            );
            return Some(say(table.id, problem.as_str()));
        }
        j += 1;
    }
    assert(problems.take(j as int) =~= problems);
    None
}

fn inputs_of(strategy: &PaginationStrategy) -> (r: Vec<&'static str>)
    ensures
        source_pack::slice_texts(r@) == pagination_inputs(strategy@),
{
    let mut inputs: Vec<&'static str> = Vec::new();
    match strategy {
        PaginationStrategy::PageNumber { page_param, per_page_param, .. } => {
            inputs.push(*page_param);
            inputs.push(*per_page_param);
        },
        PaginationStrategy::Cursor { cursor_param, page_size_param, .. } => {
            inputs.push(*cursor_param);
            if let Some(param) = page_size_param {
                inputs.push(*param);
            }
        },
        PaginationStrategy::SinglePage => {},
    }
    assert(source_pack::slice_texts(inputs@) =~= pagination_inputs(strategy@));
    inputs
}

fn check_paging(table: &SourcePackTable) -> (r: Option<String>)
    ensures
        problem_view(r) == paging_problem(table@),
{
    match &table.pagination {
        PaginationStrategy::PageNumber { page_param, per_page_param, per_page, .. } => {
            if same_text(page_param, per_page_param) {
                let problem = concat3(
                    "pagination declares '",
                    page_param,
                    "' as both the page and page-size input",
                );
                return Some(say(table.id, problem.as_str()));
            }
            if *per_page == 0 {
                return Some(say(table.id, "pagination page size must be positive"));
            }
        },
        PaginationStrategy::Cursor { cursor_param, page_size_param, page_size, .. } => {
            if let Some(param) = page_size_param {
                if same_text(param, cursor_param) {
                    let problem = concat3(
                        "pagination declares '",
                        cursor_param,
                        "' as both the cursor and page-size input",
                    );
                    return Some(say(table.id, problem.as_str()));
                }
                if *page_size == 0 {
                    return Some(say(table.id, "pagination page size must be positive"));
                }
            }
        },
        PaginationStrategy::SinglePage => {},
    }
    None
}

fn input_seen(table: &SourcePackTable, j: usize) -> (r: bool)
    requires
        j < table.filters@.len(),
    ensures
        r == input_repeats(table@, j as int),
{
    let mut k: usize = 0;
    while k < j
        invariant
            k <= j < table.filters@.len(),
            forall|m: int|
                0 <= m < k ==> (#[trigger] table.filters@[m]).input_field@
                    != table.filters@[j as int].input_field@,
        decreases j - k,
    {
        if same_text(table.filters[k].input_field, table.filters[j].input_field) {
            assert(table@.filters[k as int].input_field == table@.filters[j as int].input_field);
            return true;
        }
        k += 1;
    }
    assert forall|m: int| 0 <= m < j implies (#[trigger] table@.filters[m]).input_field
        != table@.filters[j as int].input_field by {
        assert(table@.filters[m] == table.filters@[m]@);
    }
    false
}

fn check_filter_inputs(table: &SourcePackTable, inputs: &Vec<&'static str>) -> (r: Option<String>)
    requires
        source_pack::slice_texts(inputs@) == pagination_inputs(table@.pagination),
    ensures
        problem_view(r) == first_of(filter_input_problems(table@)),
{
    let ghost problems = filter_input_problems(table@);
    let mut j: usize = 0;
    assert(problems.take(0) =~= Seq::empty());
    while j < table.filters.len()
        invariant
            problems == filter_input_problems(table@),
            source_pack::slice_texts(inputs@) == pagination_inputs(table@.pagination),
            j <= table.filters@.len(),
            first_of(problems.take(j as int)) is None,
        decreases table.filters@.len() - j,
    {
        proof {
            first_problem_found(problems, j as int);
            assert(table@.filters[j as int] == table.filters@[j as int]@);
        }
        let input = table.filters[j].input_field;
        if input_seen(table, j) {
            let problem = concat3(
                "two filter mappings target input '",
                input,
                "'; declare one mapping per input",
            );
            return Some(say(table.id, problem.as_str()));
        }
        if lists(inputs.as_slice(), input) {
            let problem = concat3(
                "filter input '",
                input,
                "' collides with a pagination input, which is applied last and would overwrite the pushed predicate",
            );
            return Some(say(table.id, problem.as_str()));
        }
        if table.declares_resource(input) {
            let problem = concat3("filter input '", input, "' collides with a declared resource");
            return Some(say(table.id, problem.as_str()));
        }
        j += 1;
    }
    assert(problems.take(j as int) =~= problems);
    None
}

fn check_fixed_inputs(table: &SourcePackTable, inputs: &Vec<&'static str>) -> (r: Option<String>)
    requires
        source_pack::slice_texts(inputs@) == pagination_inputs(table@.pagination),
    ensures
        problem_view(r) == first_of(fixed_input_problems(table@)),
{
    let ghost problems = fixed_input_problems(table@);
    let mut j: usize = 0;
    assert(problems.take(0) =~= Seq::empty());
    while j < table.fixed_inputs.len()
        invariant
            problems == fixed_input_problems(table@),
            source_pack::slice_texts(inputs@) == pagination_inputs(table@.pagination),
            j <= table.fixed_inputs@.len(),
            first_of(problems.take(j as int)) is None,
        decreases table.fixed_inputs@.len() - j,
    {
        proof {
            first_problem_found(problems, j as int);
        }
        let key = table.fixed_inputs[j].0;
        if table.declares_resource(key) {
            let problem = concat3(
                "fixed input '",
                key,
                "' collides with a declared resource — the request would carry an ambiguous value",
            );
            return Some(say(table.id, problem.as_str()));
        }
        if lists(inputs.as_slice(), key) {
            let problem = concat3("fixed input '", key, "' collides with a pagination input");
            return Some(say(table.id, problem.as_str()));
        }
        j += 1;
    }
    assert(problems.take(j as int) =~= problems);
    None
}

fn check_paged_resources(table: &SourcePackTable, inputs: &Vec<&'static str>) -> (r: Option<String>)
    requires
        source_pack::slice_texts(inputs@) == pagination_inputs(table@.pagination),
    ensures
        problem_view(r) == first_of(paged_resource_problems(table@)),
{
    let ghost problems = paged_resource_problems(table@);
    let mut j: usize = 0;
    assert(problems.take(0) =~= Seq::empty());
    assert(source_pack::slice_texts(inputs@).len() == inputs@.len());
    while j < inputs.len()
        invariant
            problems == paged_resource_problems(table@),
            problems.len() == inputs@.len(),
            source_pack::slice_texts(inputs@) == pagination_inputs(table@.pagination),
            j <= inputs@.len(),
            first_of(problems.take(j as int)) is None,
        decreases inputs@.len() - j,
    {
        let input = inputs[j];
        proof {
            first_problem_found(problems, j as int);
            assert(pagination_inputs(table@.pagination)[j as int] == input@);
        }
        if table.declares_resource(input) {
            let problem = concat3(
                "resource '",
                input,
                "' collides with a pagination input, which is applied last and would overwrite it",
            );
            return Some(say(table.id, problem.as_str()));
        }
        j += 1;
    }
    assert(problems.take(j as int) =~= problems);
    None
}

/// Checks what must hold between the parts of a table, and reports the first
/// problem.
pub fn validate_table(table: &SourcePackTable) -> (r: Result<(), String>)
    ensures
        match r {
            Ok(_) => table_problem(table@) is None,
            Err(problem) => table_problem(table@) == Some(problem@),
        },
{
    if let Some(problem) = check_structure(table) {
        return Err(problem);
    }
    let names = match check_columns(table) {
        Ok(names) => names,
        Err(problem) => {
            return Err(problem);
        },
    };
    if let Some(problem) = check_filters(table, &names) {
        return Err(problem);
    }
    if let Some(problem) = check_resources(table) {
        return Err(problem);
    }
    if let Some(problem) = check_paging(table) {
        return Err(problem);
    }
    let inputs = inputs_of(&table.pagination);
    if let Some(problem) = check_filter_inputs(table, &inputs) {
        return Err(problem);
    }
    if let Some(problem) = check_fixed_inputs(table, &inputs) {
        return Err(problem);
    }
    if let Some(problem) = check_paged_resources(table, &inputs) {
        return Err(problem);
    }
    Ok(())
}

/// A valid table's parts agree: its paths parse and its columns compile, its
/// column names differ, its filters are on its columns and no two are alike, no
/// filter input is set by anything that would overwrite it, no fixed input is a
/// resource's or pagination's, no resource is pagination's, and pagination sets
/// different inputs for pages that are not empty.
pub proof fn a_valid_table_is_consistent(table: TableView)
    requires
        table_problem(table) is None,
    ensures
        pagination::validated(table.pagination) is Ok,
        json_to_arrow::first_problem(table.fields) is None,
        forall|i: int, j: int|
            0 <= i < j < table.fields.len() ==> (#[trigger] table.fields[i]).name != (
            #[trigger] table.fields[j]).name,
        forall|j: int|
            0 <= j < table.filters.len() ==> has_column(
                table,
                (#[trigger] table.filters[j]).column,
            ),
        forall|j: int|
            0 <= j < table.filters.len() && floors((#[trigger] table.filters[j]).value_format)
                ==> table.filters[j].operator != FilterOperator::Eq && table.filters[j].fidelity
                == Fidelity::Inexact,
        forall|i: int, j: int|
            0 <= i < j < table.filters.len() ==> (#[trigger] table.filters[i]).input_field != (
            #[trigger] table.filters[j]).input_field,
        forall|j: int|
            0 <= j < table.filters.len() ==> !pagination_inputs(table.pagination).contains(
                (#[trigger] table.filters[j]).input_field,
            ) && !table.declares(table.filters[j].input_field),
        forall|j: int|
            0 <= j < table.fixed_inputs.len() ==> !pagination_inputs(table.pagination).contains(
                (#[trigger] table.fixed_inputs[j]).0,
            ) && !table.declares(table.fixed_inputs[j].0),
        forall|j: int|
            0 <= j < table.required_resources.len() ==> !table.optional_resources.contains(
                #[trigger] table.required_resources[j],
            ),
        forall|j: int|
            0 <= j < pagination_inputs(table.pagination).len() ==> !table.declares(
                #[trigger] pagination_inputs(table.pagination)[j],
            ),
        forall|i: int, j: int|
            0 <= i < j < table.filters.len() ==> (#[trigger] table.filters[i]).column != (
            #[trigger] table.filters[j]).column || table.filters[i].operator
                != table.filters[j].operator,
        pagination_inputs(table.pagination).no_duplicates(),
        table.pagination matches StrategyView::PageNumber { per_page, .. } ==> per_page > 0,
        table.pagination matches StrategyView::Cursor { page_size_param: Some(_), page_size, .. }
            ==> page_size > 0,
{
    no_problem_at_all(paged_resource_problems(table));
    assert forall|j: int| 0 <= j < pagination_inputs(table.pagination).len() implies
        !table.declares(#[trigger] pagination_inputs(table.pagination)[j]) by {
        assert(paged_resource_problems(table)[j] is None);
    }
    assert forall|i: int, j: int| 0 <= i < j < table.filters.len() implies (
    #[trigger] table.filters[i]).column != (#[trigger] table.filters[j]).column
        || table.filters[i].operator != table.filters[j].operator by {
        no_problem_at_all(filter_problems(table));
        assert(filter_problems(table)[j] is None);
    }
    no_problem_at_all(column_problems(table));
    no_problem_at_all(filter_problems(table));
    no_problem_at_all(resource_problems(table));
    no_problem_at_all(filter_input_problems(table));
    no_problem_at_all(fixed_input_problems(table));
    assert forall|i: int, j: int| 0 <= i < j < table.fields.len() implies (
    #[trigger] table.fields[i]).name != (#[trigger] table.fields[j]).name by {
        assert(column_problems(table)[j] is None);
    }
    assert forall|j: int| 0 <= j < table.filters.len() implies has_column(
        table,
        (#[trigger] table.filters[j]).column,
    ) && (floors(table.filters[j].value_format) ==> table.filters[j].operator != FilterOperator::Eq
        && table.filters[j].fidelity == Fidelity::Inexact) by {
        assert(filter_problems(table)[j] is None);
    }
    assert forall|i: int, j: int| 0 <= i < j < table.filters.len() implies (
    #[trigger] table.filters[i]).input_field != (#[trigger] table.filters[j]).input_field by {
        assert(filter_input_problems(table)[j] is None);
    }
    assert forall|j: int| 0 <= j < table.filters.len() implies !pagination_inputs(
        table.pagination,
    ).contains((#[trigger] table.filters[j]).input_field) && !table.declares(
        table.filters[j].input_field,
    ) by {
        assert(filter_input_problems(table)[j] is None);
    }
    assert forall|j: int| 0 <= j < table.fixed_inputs.len() implies !pagination_inputs(
        table.pagination,
    ).contains((#[trigger] table.fixed_inputs[j]).0) && !table.declares(
        table.fixed_inputs[j].0,
    ) by {
        assert(fixed_input_problems(table)[j] is None);
    }
    assert forall|j: int| 0 <= j < table.required_resources.len() implies
        !table.optional_resources.contains(#[trigger] table.required_resources[j]) by {
        assert(resource_problems(table)[j] is None);
    }
}

} // verus!
