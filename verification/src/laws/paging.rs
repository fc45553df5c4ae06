//! When a scan goes on, and what it asks for.
use vstd::prelude::*;

use crate::json::{JsonView, NumberView};
use crate::open_connector::error::ErrorView;
use crate::open_connector::pagination;
use crate::open_connector::pagination::{PaginationView, StrategyView};
use crate::open_connector::row_path;
use crate::text;

verus! {

/// How a value is described where it is not what was asked for.
pub open spec fn described(value: JsonView) -> Seq<char> {
    match value {
        JsonView::Null => "null"@,
        JsonView::Bool(_) => "a boolean"@,
        JsonView::Number(_) => "a number"@,
        JsonView::String(_) => "a string"@,
        JsonView::Array(_) => "an array"@,
        JsonView::Object(_) => "an object"@,
    }
}

/// A table that pages by cursors and declares no has-more signal goes on exactly
/// where the response gives a cursor: an absent, null or empty cursor ends the
/// scan, a cursor that was followed before is a loop, any other is followed, and
/// how many rows the page had does not matter.
pub proof fn cursors_are_followed(state: PaginationView, envelope: JsonView, rows: usize)
    requires
        state.strategy matches StrategyView::Cursor { has_more_path, .. } && has_more_path is None,
    ensures
        match row_path::extracted(state.strategy->next_cursor_path, envelope, state.page) {
            Ok(JsonView::String(cursor)) => pagination::next_page(state, envelope, rows) == (
            if cursor.len() == 0 {
                Ok::<Option<Seq<char>>, ErrorView>(None)
            } else if state.seen.contains(cursor) {
                Err(ErrorView::PaginationLoop { token: cursor })
            } else {
                Ok(Some(cursor))
            }),
            Ok(JsonView::Null) => pagination::next_page(state, envelope, rows) == Ok::<
                Option<Seq<char>>,
                ErrorView,
            >(None),
            Ok(other) => pagination::next_page(state, envelope, rows) == Err::<
                Option<Seq<char>>,
                ErrorView,
            >(
                ErrorView::PaginationCursorInvalid {
                    path: state.strategy->next_cursor_path,
                    page: state.page,
                    found: described(other),
                },
            ),
            Err(ErrorView::RowPathNotFound { .. }) => pagination::next_page(state, envelope, rows)
                == Ok::<Option<Seq<char>>, ErrorView>(None),
            Err(e) => pagination::next_page(state, envelope, rows) == Err::<
                Option<Seq<char>>,
                ErrorView,
            >(e),
        },
{
}

/// Where a table that pages by cursors declares a has-more signal, `false` there
/// ends the scan whatever the cursor, `true` goes on with a cursor that must be
/// there and be new, and anything else is an error.
pub proof fn has_more_signals_decide(state: PaginationView, envelope: JsonView, rows: usize)
    requires
        state.strategy matches StrategyView::Cursor { has_more_path, .. } && has_more_path is Some,
    ensures
        match row_path::extracted(state.strategy->has_more_path->0, envelope, state.page) {
            Ok(JsonView::Bool(false)) => pagination::next_page(state, envelope, rows) == Ok::<
                Option<Seq<char>>,
                ErrorView,
            >(None),
            Ok(JsonView::Bool(true)) => match row_path::extracted(
                state.strategy->next_cursor_path,
                envelope,
                state.page,
            ) {
                Ok(JsonView::String(cursor)) => if cursor.len() == 0 {
                    pagination::next_page(state, envelope, rows) matches Err(e)
                        && e is PaginationCursorInvalid
                } else if state.seen.contains(cursor) {
                    pagination::next_page(state, envelope, rows) == Err::<
                        Option<Seq<char>>,
                        ErrorView,
                    >(ErrorView::PaginationLoop { token: cursor })
                } else {
                    pagination::next_page(state, envelope, rows) == Ok::<
                        Option<Seq<char>>,
                        ErrorView,
                    >(Some(cursor))
                },
                _ => pagination::next_page(state, envelope, rows) is Err,
            },
            Ok(other) => pagination::next_page(state, envelope, rows) == Err::<
                Option<Seq<char>>,
                ErrorView,
            >(
                ErrorView::PaginationHasMoreInvalid {
                    path: state.strategy->has_more_path->0,
                    page: state.page,
                    found: described(other),
                },
            ),
            Err(ErrorView::RowPathNotFound { .. }) => pagination::next_page(state, envelope, rows)
                == Err::<Option<Seq<char>>, ErrorView>(
                ErrorView::PaginationHasMoreInvalid {
                    path: state.strategy->has_more_path->0,
                    page: state.page,
                    found: "absent"@,
                },
            ),
            Err(e) => pagination::next_page(state, envelope, rows) == Err::<
                Option<Seq<char>>,
                ErrorView,
            >(e),
        },
{
}

/// Where a has-more signal is true and there is no usable cursor, the error names
/// the cursor's path and the page.
pub proof fn a_promised_cursor_must_come(state: PaginationView, envelope: JsonView, rows: usize)
    requires
        state.strategy matches StrategyView::Cursor { has_more_path, .. } && has_more_path is Some,
        row_path::extracted(state.strategy->has_more_path->0, envelope, state.page) == Ok::<
            JsonView,
            ErrorView,
        >(JsonView::Bool(true)),
        match row_path::extracted(state.strategy->next_cursor_path, envelope, state.page) {
            Ok(JsonView::String(cursor)) => cursor.len() == 0,
            Ok(_) => true,
            Err(e) => e is RowPathNotFound,
        },
    ensures
        pagination::next_page(state, envelope, rows) matches Err(
            ErrorView::PaginationCursorInvalid { path, page, found },
        ) && path == state.strategy->next_cursor_path && page == state.page && found == match
        row_path::extracted(state.strategy->next_cursor_path, envelope, state.page) {
            Ok(JsonView::String(_)) | Ok(JsonView::Null) | Err(_) =>
                "null, empty, or absent while the has-more signal is true"@,
            Ok(other) => described(other),
        },
{
}

/// A table that pages by number and declares a total goes on exactly while the
/// page is below the total, and asks for the next number; a total that is no
/// whole number is an error.
pub proof fn totals_decide(state: PaginationView, envelope: JsonView, rows: usize)
    requires
        state.strategy matches StrategyView::PageNumber { total_pages_path, .. }
            && total_pages_path is Some,
    ensures
        match row_path::extracted(state.strategy->total_pages_path->0, envelope, state.page) {
            Ok(JsonView::Number(NumberView::PosInt(total))) => pagination::next_page(
                state,
                envelope,
                rows,
            ) == Ok::<Option<Seq<char>>, ErrorView>(
                if state.page < total {
                    Some(text::decimal((state.page + 1) as nat))
                } else {
                    None
                },
            ),
            Ok(other) => pagination::next_page(state, envelope, rows) == Err::<
                Option<Seq<char>>,
                ErrorView,
            >(
                ErrorView::PaginationTotalInvalid {
                    path: state.strategy->total_pages_path->0,
                    page: state.page,
                    found: described(other),
                },
            ),
            Err(e) => pagination::next_page(state, envelope, rows) == Err::<
                Option<Seq<char>>,
                ErrorView,
            >(e),
        },
{
}

/// A table that pages by number and declares the raw length of a page, but no
/// total, goes on exactly while that length fills the page.
pub proof fn raw_lengths_decide(state: PaginationView, envelope: JsonView, rows: usize)
    requires
        state.strategy matches StrategyView::PageNumber {
            total_pages_path,
            raw_page_size_path,
            ..
        } && total_pages_path is None && raw_page_size_path is Some,
    ensures
        match row_path::extracted(state.strategy->raw_page_size_path->0, envelope, state.page) {
            Ok(JsonView::Number(NumberView::PosInt(fetched))) => pagination::next_page(
                state,
                envelope,
                rows,
            ) == Ok::<Option<Seq<char>>, ErrorView>(
                if fetched >= state.strategy->per_page {
                    Some(text::decimal((state.page + 1) as nat))
                } else {
                    None
                },
            ),
            Ok(other) => pagination::next_page(state, envelope, rows) == Err::<
                Option<Seq<char>>,
                ErrorView,
            >(
                ErrorView::PaginationRawPageSizeInvalid {
                    path: state.strategy->raw_page_size_path->0,
                    page: state.page,
                    found: described(other),
                },
            ),
            Err(e) => pagination::next_page(state, envelope, rows) == Err::<
                Option<Seq<char>>,
                ErrorView,
            >(e),
        },
{
}

/// A table that pages by number and declares no signal goes on exactly while
/// pages are full, whatever else the response holds.
pub proof fn full_pages_go_on(state: PaginationView, envelope: JsonView, rows: usize)
    requires
        state.strategy matches StrategyView::PageNumber {
            total_pages_path,
            raw_page_size_path,
            ..
        } && total_pages_path is None && raw_page_size_path is None,
    ensures
        pagination::next_page(state, envelope, rows) == Ok::<Option<Seq<char>>, ErrorView>(
            if rows >= state.strategy->per_page {
                Some(text::decimal((state.page + 1) as nat))
            } else {
                None
            },
        ),
{
}

/// A numbered page is asked for by its number and the page size, under their own
/// names; everything else that is asked stays.
pub proof fn numbered_pages_are_asked_for(
    state: PaginationView,
    input: Map<Seq<char>, JsonView>,
    other: Seq<char>,
)
    requires
        state.strategy is PageNumber,
        other != state.strategy->page_param,
        other != state.strategy->per_page_param,
    ensures
        state.strategy->page_param != state.strategy->per_page_param ==> (
        pagination::applied(state, input).contains_key(state.strategy->page_param)
            && pagination::applied(state, input)[state.strategy->page_param] == JsonView::Number(
            NumberView::PosInt(state.page as u64),
        )),
        pagination::applied(state, input).contains_key(state.strategy->per_page_param),
        pagination::applied(state, input)[state.strategy->per_page_param] == JsonView::Number(
            NumberView::PosInt(state.strategy->per_page as u64),
        ),
        pagination::applied(state, input).contains_key(other) == input.contains_key(other),
        input.contains_key(other) ==> pagination::applied(state, input)[other] == input[other],
{
}

/// A page behind a cursor is asked for by the cursor, and the first page by none;
/// the page size is asked for where the table names an input for it; everything
/// else that is asked stays.
pub proof fn cursors_are_asked_for(
    state: PaginationView,
    input: Map<Seq<char>, JsonView>,
    other: Seq<char>,
)
    requires
        state.strategy is Cursor,
        other != state.strategy->cursor_param,
        state.strategy->page_size_param != Some(other),
    ensures
        state.strategy->page_size_param != Some(state.strategy->cursor_param) ==> match state.next_token {
            Some(cursor) => pagination::applied(state, input).contains_key(
                state.strategy->cursor_param,
            ) && pagination::applied(state, input)[state.strategy->cursor_param]
                == JsonView::String(cursor),
            None => {
                &&& pagination::applied(state, input).contains_key(state.strategy->cursor_param)
                    == input.contains_key(state.strategy->cursor_param)
                &&& input.contains_key(state.strategy->cursor_param) ==> pagination::applied(
                    state,
                    input,
                )[state.strategy->cursor_param] == input[state.strategy->cursor_param]
            },
        },
        state.strategy->page_size_param matches Some(param) ==> (pagination::applied(
            state,
            input,
        ).contains_key(param) && pagination::applied(state, input)[param] == JsonView::Number(
            NumberView::PosInt(state.strategy->page_size as u64),
        )),
        pagination::applied(state, input).contains_key(other) == input.contains_key(other),
        input.contains_key(other) ==> pagination::applied(state, input)[other] == input[other],
{
}

/// A table of one page asks for nothing but its own inputs.
pub proof fn single_pages_ask_for_nothing(state: PaginationView, input: Map<Seq<char>, JsonView>)
    requires
        state.strategy is SinglePage,
    ensures
        pagination::applied(state, input) == input,
{
}

/// A scan begins at page one, has followed no cursor and has none to send.
pub proof fn scans_begin_at_the_first_page(strategy: StrategyView, input: Map<Seq<char>, JsonView>)
    ensures
        pagination::started(strategy).strategy == strategy,
        pagination::started(strategy).page == 1,
        forall|cursor: Seq<char>| !#[trigger] pagination::started(strategy).seen.contains(cursor),
        strategy is Cursor ==> pagination::started(strategy).next_token is None,
        strategy is PageNumber ==> pagination::started(strategy).next_token == Some(seq!['1']),
        strategy is SinglePage ==> pagination::started(strategy).next_token is None,
{
    assert(text::decimal(1) =~= seq!['1']);
}

/// Following a cursor asks the next page for it, counts one page more, and
/// remembers it beside all that were followed before, so that coming back to any
/// of them is a loop.
pub proof fn followed_cursors_are_remembered(
    state: PaginationView,
    cursor: Seq<char>,
    earlier: Seq<char>,
)
    requires
        state.strategy is Cursor,
        state.page < usize::MAX,
    ensures
        pagination::moved_on(state, cursor).strategy == state.strategy,
        pagination::moved_on(state, cursor).page == state.page + 1,
        pagination::moved_on(state, cursor).next_token == Some(cursor),
        pagination::moved_on(state, cursor).seen.contains(earlier) <==> state.seen.contains(earlier)
            || earlier == cursor,
{
}

/// The numbers of numbered pages run: the page after one is asked for by the
/// next number.
pub proof fn numbered_pages_run(
    state: PaginationView,
    token: Seq<char>,
    input: Map<Seq<char>, JsonView>,
)
    requires
        state.strategy is PageNumber,
        state.page < usize::MAX,
        state.strategy->page_param != state.strategy->per_page_param,
    ensures
        pagination::applied(
            pagination::moved_on(state, token),
            input,
        )[state.strategy->page_param] == JsonView::Number(
            NumberView::PosInt((state.page + 1) as u64),
        ),
{
}

/// A pagination is valid exactly where every path that it declares is accepted
/// and it declares at most one signal for the end of numbered pages.
pub proof fn valid_paginations(strategy: StrategyView)
    ensures
        pagination::validated(strategy) is Ok <==> match strategy {
            StrategyView::PageNumber { total_pages_path, raw_page_size_path, .. } => {
                &&& total_pages_path matches Some(path) ==> row_path::parsed_path(path) is Ok
                &&& raw_page_size_path matches Some(path) ==> row_path::parsed_path(path) is Ok
                &&& total_pages_path is None || raw_page_size_path is None
            },
            StrategyView::Cursor { next_cursor_path, has_more_path, .. } => {
                &&& row_path::parsed_path(next_cursor_path) is Ok
                &&& has_more_path matches Some(path) ==> row_path::parsed_path(path) is Ok
            },
            StrategyView::SinglePage => true,
        },
        pagination::validated(strategy) matches Err(e) ==> e is InvalidRowPath,
        (strategy matches StrategyView::PageNumber {
            total_pages_path: Some(total),
            raw_page_size_path: Some(raw),
            ..
        } && row_path::parsed_path(total) is Ok && row_path::parsed_path(raw) is Ok)
            ==> pagination::validated(strategy) == Err::<(), _>(
            ErrorView::InvalidRowPath {
                path: "<pagination>"@,
                reason: "total_pages_path and raw_page_size_path are mutually exclusive; declare the one signal the provider makes authoritative"@,
            },
        ),
{
}

proof fn scans_keep_their_strategy(start: PaginationView, responses: Seq<(JsonView, usize)>)
    ensures
        pagination::scanned(start, responses) matches Some(state) ==> state.strategy
            == start.strategy,
    decreases responses.len(),
{
    if responses.len() > 0 {
        scans_keep_their_strategy(start, responses.drop_last());
    }
}

/// In a scan by cursors the request behind a response carries the cursor that the
/// response gave, and in a scan by numbers the number of its page.
pub proof fn requests_carry_what_responses_gave(
    strategy: StrategyView,
    responses: Seq<(JsonView, usize)>,
    response: (JsonView, usize),
    input: Map<Seq<char>, JsonView>,
)
    requires
        pagination::scanned(pagination::started(strategy), responses.push(response)) is Some,
    ensures
        ({
            let before = pagination::scanned(pagination::started(strategy), responses)->0;
            let state = pagination::scanned(
                pagination::started(strategy),
                responses.push(response),
            )->0;
            &&& strategy is Cursor && strategy->page_size_param != Some(strategy->cursor_param) ==> (
            row_path::extracted(
                strategy->next_cursor_path,
                response.0,
                before.page,
            ) matches Ok(JsonView::String(cursor)) && cursor.len() > 0 && pagination::applied(
                state,
                input,
            )[strategy->cursor_param] == JsonView::String(cursor))
            &&& strategy is PageNumber && strategy->page_param != strategy->per_page_param
                && before.page < usize::MAX ==> pagination::applied(
                state,
                input,
            )[strategy->page_param] == JsonView::Number(
                NumberView::PosInt((before.page + 1) as u64),
            )
            &&& !(strategy is SinglePage)
        }),
{
    assert(responses.push(response).drop_last() =~= responses);
    scans_keep_their_strategy(pagination::started(strategy), responses);
}

} // verus!
