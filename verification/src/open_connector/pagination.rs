//! Typed pagination strategies.
//!
//! A table declares how it pages; the engine injects page inputs, reads
//! continuation state from each response and checks that every strategy
//! advances. A repeated cursor fails the scan instead of looping forever.
use vstd::hash_set::StringHashSet;
use vstd::prelude::*;

use crate::json;
use crate::json::{set_member, Json, JsonView, Number};
use crate::open_connector::error::{ErrorView, OpenConnectorError};
use crate::open_connector::row_path;
use crate::open_connector::row_path::RowPath;
use crate::text;
use crate::text::{decimal_text, parse_u64};

verus! {

/// How a source-pack table paginates.
#[derive(Debug, Clone, Copy)]
pub enum PaginationStrategy {
    /// The request carries a page number, counted from one, and a page size.
    ///
    /// With `total_pages_path` the scan trusts the provider's page count and
    /// ends only when it is reached: a provider that filters rows after paging
    /// may return short or empty pages in the middle. With
    /// `raw_page_size_path` it trusts the provider's count of rows before
    /// filtering and goes on while that fills the page. With neither, a short
    /// page is the last one.
    PageNumber {
        /// Action input field for the page number.
        page_param: &'static str,
        /// Action input field for the page size.
        per_page_param: &'static str,
        /// Page size to request.
        per_page: u32,
        /// Where the response gives the total number of pages. Excludes
        /// `raw_page_size_path`.
        total_pages_path: Option<&'static str>,
        /// Where the response gives the page length before filtering.
        raw_page_size_path: Option<&'static str>,
    },
    /// The request carries the previous page's cursor, none on the first page;
    /// an absent, null or empty cursor ends the scan.
    Cursor {
        /// Action input field for the cursor.
        cursor_param: &'static str,
        /// Where the response gives the next cursor.
        next_cursor_path: &'static str,
        /// Action input field for the page size, if there is one.
        page_size_param: Option<&'static str>,
        /// Page size to request; unused without `page_size_param`.
        page_size: u32,
        /// Where the response says whether there is more. Some providers
        /// return a cursor on the last page too and signal the end only here:
        /// `false` ends the scan whatever the cursor, `true` requires one.
        has_more_path: Option<&'static str>,
    },
    /// One request, one page, no pagination inputs.
    SinglePage,
}

/// The model of a [`PaginationStrategy`].
pub enum StrategyView {
    PageNumber {
        page_param: Seq<char>,
        per_page_param: Seq<char>,
        per_page: u32,
        total_pages_path: Option<Seq<char>>,
        raw_page_size_path: Option<Seq<char>>,
    },
    Cursor {
        cursor_param: Seq<char>,
        next_cursor_path: Seq<char>,
        page_size_param: Option<Seq<char>>,
        page_size: u32,
        has_more_path: Option<Seq<char>>,
    },
    SinglePage,
}

impl View for PaginationStrategy {
    type V = StrategyView;

    open spec fn view(&self) -> StrategyView {
        match self {
            PaginationStrategy::PageNumber {
                page_param,
                per_page_param,
                per_page,
                total_pages_path,
                raw_page_size_path,
            } => StrategyView::PageNumber {
                page_param: page_param@,
                per_page_param: per_page_param@,
                per_page: *per_page,
                total_pages_path: text::optional(*total_pages_path),
                raw_page_size_path: text::optional(*raw_page_size_path),
            },
            PaginationStrategy::Cursor {
                cursor_param,
                next_cursor_path,
                page_size_param,
                page_size,
                has_more_path,
            } => StrategyView::Cursor {
                cursor_param: cursor_param@,
                next_cursor_path: next_cursor_path@,
                page_size_param: text::optional(*page_size_param),
                page_size: *page_size,
                has_more_path: text::optional(*has_more_path),
            },
            PaginationStrategy::SinglePage => StrategyView::SinglePage,
        }
    }
}

/// Pagination state for one scan.
pub struct Pagination {
    strategy: PaginationStrategy,
    page: usize,
    next_token: Option<String>,
    seen_tokens: StringHashSet,
    cursor_path: Option<RowPath>,
    total_pages_path: Option<RowPath>,
    raw_page_size_path: Option<RowPath>,
    has_more_path: Option<RowPath>,
}

/// The model of a [`Pagination`].
#[verifier::ext_equal]
pub struct PaginationView {
    /// How the table pages.
    pub strategy: StrategyView,
    /// The number, from one, of the page about to be requested.
    pub page: usize,
    /// The page number or cursor of that page.
    pub next_token: Option<Seq<char>>,
    /// The cursors that have been followed.
    pub seen: Set<Seq<char>>,
}

/// A path that is absent, or parses.
pub open spec fn checked_path(path: Option<Seq<char>>) -> Result<(), ErrorView> {
    match path {
        Some(path) => match row_path::parsed_path(path) {
            Ok(_) => Ok(()),
            Err(e) => Err(e),
        },
        None => Ok(()),
    }
}

/// The first failure of two checks.
pub open spec fn both_checked(
    first: Result<(), ErrorView>,
    second: Result<(), ErrorView>,
) -> Result<(), ErrorView> {
    match first {
        Ok(_) => second,
        Err(e) => Err(e),
    }
}

/// Whether every path of a strategy parses, and if not how the first fails.
pub open spec fn checked_paths(strategy: StrategyView) -> Result<(), ErrorView> {
    match strategy {
        StrategyView::Cursor { next_cursor_path, has_more_path, .. } => both_checked(
            checked_path(Some(next_cursor_path)),
            checked_path(has_more_path),
        ),
        StrategyView::PageNumber { total_pages_path, raw_page_size_path, .. } => both_checked(
            checked_path(total_pages_path),
            checked_path(raw_page_size_path),
        ),
        StrategyView::SinglePage => Ok(()),
    }
}

/// Whether a strategy names two signals that could disagree.
pub open spec fn names_two_signals(strategy: StrategyView) -> bool {
    strategy matches StrategyView::PageNumber { total_pages_path, raw_page_size_path, .. }
        && total_pages_path is Some && raw_page_size_path is Some
}

/// What validating a strategy gives.
pub open spec fn validated(strategy: StrategyView) -> Result<(), ErrorView> {
    both_checked(
        checked_paths(strategy),
        if names_two_signals(strategy) {
            Err(
                ErrorView::InvalidRowPath {
                    path: "<pagination>"@,
                    reason: "total_pages_path and raw_page_size_path are mutually exclusive; declare the one signal the provider makes authoritative"@,
                },
            )
        } else {
            Ok(())
        },
    )
}

/// The state in which a scan starts.
pub open spec fn started(strategy: StrategyView) -> PaginationView {
    PaginationView {
        strategy,
        page: 1,
        next_token: if strategy is PageNumber {
            Some(text::decimal(1))
        } else {
            None
        },
        seen: Set::empty(),
    }
}

/// An action input with the parameters of the page about to be requested.
pub open spec fn applied(
    state: PaginationView,
    input: Map<Seq<char>, JsonView>,
) -> Map<Seq<char>, JsonView> {
    match state.strategy {
        StrategyView::PageNumber { page_param, per_page_param, per_page, .. } => input.insert(
            page_param,
            json::integer(state.page as u64),
        ).insert(per_page_param, json::integer(per_page as u64)),
        StrategyView::Cursor { cursor_param, page_size_param, page_size, .. } => {
            let with_cursor = match state.next_token {
                Some(token) => input.insert(cursor_param, JsonView::String(token)),
                None => input,
            };
            match page_size_param {
                Some(param) => with_cursor.insert(param, json::integer(page_size as u64)),
                None => with_cursor,
            }
        },
        StrategyView::SinglePage => input,
    }
}

/// Whether a numbered page is followed by another.
pub open spec fn more_pages(
    state: PaginationView,
    per_page: u32,
    total_pages_path: Option<Seq<char>>,
    raw_page_size_path: Option<Seq<char>>,
    envelope: JsonView,
    rows_in_page: usize,
) -> Result<bool, ErrorView> {
    match total_pages_path {
        Some(path) => match row_path::extracted(path, envelope, state.page) {
            Ok(total) => match total.as_u64() {
                Some(pages) => Ok(state.page < pages),
                None => Err(
                    ErrorView::PaginationTotalInvalid {
                        path: path,
                        page: state.page,
                        found: total.described_kind(),
                    },
                ),
            },
            Err(e) => Err(e),
        },
        None => match raw_page_size_path {
            Some(path) => match row_path::extracted(path, envelope, state.page) {
                Ok(fetched) => match fetched.as_u64() {
                    Some(rows) => Ok(rows >= per_page),
                    None => Err(
                        ErrorView::PaginationRawPageSizeInvalid {
                            path: path,
                            page: state.page,
                            found: fetched.described_kind(),
                        },
                    ),
                },
                Err(e) => Err(e),
            },
            None => Ok(rows_in_page >= per_page),
        },
    }
}

/// What the has-more signal says; without one there may be more.
pub open spec fn has_more(
    page: usize,
    has_more_path: Option<Seq<char>>,
    envelope: JsonView,
) -> Result<bool, ErrorView> {
    match has_more_path {
        Some(path) => match row_path::extracted(path, envelope, page) {
            Ok(JsonView::Bool(more)) => Ok(more),
            Ok(other) => Err(
                ErrorView::PaginationHasMoreInvalid {
                    path: path,
                    page,
                    found: other.described_kind(),
                },
            ),
            Err(ErrorView::RowPathNotFound { .. }) => Err(
                ErrorView::PaginationHasMoreInvalid { path: path, page, found: "absent"@ },
            ),
            Err(e) => Err(e),
        },
        None => Ok(true),
    }
}

/// The cursor that a response gives, if it gives one.
pub open spec fn given_cursor(
    page: usize,
    next_cursor_path: Seq<char>,
    envelope: JsonView,
) -> Result<Option<Seq<char>>, ErrorView> {
    match row_path::extracted(next_cursor_path, envelope, page) {
        Ok(JsonView::String(cursor)) => Ok(
            if cursor.len() > 0 {
                Some(cursor)
            } else {
                None
            },
        ),
        Ok(JsonView::Null) => Ok(None),
        Ok(other) => Err(
            ErrorView::PaginationCursorInvalid {
                path: next_cursor_path,
                page,
                found: other.described_kind(),
            },
        ),
        Err(ErrorView::RowPathNotFound { .. }) => Ok(None),
        Err(e) => Err(e),
    }
}

/// What follows a fetched page: nothing, or the page with this token.
pub open spec fn next_page(state: PaginationView, envelope: JsonView, rows_in_page: usize) -> Result<
    Option<Seq<char>>,
    ErrorView,
> {
    match state.strategy {
        StrategyView::PageNumber { per_page, total_pages_path, raw_page_size_path, .. } => {
            match more_pages(
                state,
                per_page,
                total_pages_path,
                raw_page_size_path,
                envelope,
                rows_in_page,
            ) {
                Ok(true) => Ok(Some(text::decimal((state.page + 1) as nat))),
                Ok(false) => Ok(None),
                Err(e) => Err(e),
            }
        },
        StrategyView::Cursor { next_cursor_path, has_more_path, .. } => {
            match has_more(state.page, has_more_path, envelope) {
                Ok(true) => match given_cursor(state.page, next_cursor_path, envelope) {
                    Ok(Some(cursor)) => if state.seen.contains(cursor) {
                        Err(ErrorView::PaginationLoop { token: cursor })
                    } else {
                        Ok(Some(cursor))
                    },
                    Ok(None) => if has_more_path is Some {
                        Err(
                            ErrorView::PaginationCursorInvalid {
                                path: next_cursor_path,
                                page: state.page,
                                found: "null, empty, or absent while the has-more signal is true"@,
                            },
                        )
                    } else {
                        Ok(None)
                    },
                    Err(e) => Err(e),
                },
                Ok(false) => Ok(None),
                Err(e) => Err(e),
            }
        },
        StrategyView::SinglePage => Ok(None),
    }
}

/// The state once the page with this token is the one to request.
pub open spec fn moved_on(state: PaginationView, token: Seq<char>) -> PaginationView {
    PaginationView {
        strategy: state.strategy,
        page: (state.page + 1) as usize,
        next_token: Some(token),
        seen: if state.strategy is Cursor {
            state.seen.insert(token)
        } else {
            state.seen
        },
    }
}

/// Whether a parsed path is the declared one.
pub open spec fn holds_path(parsed: Option<RowPath>, declared: Option<Seq<char>>) -> bool {
    match (parsed, declared) {
        (Some(parsed), Some(declared)) => parsed@ == declared,
        (None, None) => true,
        _ => false,
    }
}

fn parse_declared(path: Option<&'static str>) -> (r: Result<Option<RowPath>, OpenConnectorError>)
    ensures
        match r {
            Ok(parsed) => checked_path(text::optional(path)) == Ok::<(), ErrorView>(())
                && holds_path(parsed, text::optional(path)),
            Err(e) => checked_path(text::optional(path)) == Err::<(), _>(e@),
        },
{
    match path {
        Some(path) => match RowPath::parse(path) {
            Ok(parsed) => Ok(Some(parsed)),
            Err(e) => Err(e),
        },
        None => Ok(None),
    }
}

impl PaginationStrategy {
    /// Checks the embedded paths, so that a malformed one fails when a table
    /// is bound and not in the middle of a scan.
    pub fn validate(&self) -> (r: Result<(), OpenConnectorError>)
        ensures
            row_path::result_view(r) == validated(self@),
    {
        match self {
            PaginationStrategy::Cursor { next_cursor_path, has_more_path, .. } => {
                match parse_declared(Some(*next_cursor_path)) {
                    Ok(_) => {},
                    Err(e) => {
                        return Err(e);
                    },
                }
                match parse_declared(*has_more_path) {
                    Ok(_) => {},
                    Err(e) => {
                        return Err(e);
                    },
                }
            },
            PaginationStrategy::PageNumber { total_pages_path, raw_page_size_path, .. } => {
                match parse_declared(*total_pages_path) {
                    Ok(_) => {},
                    Err(e) => {
                        return Err(e);
                    },
                }
                match parse_declared(*raw_page_size_path) {
                    Ok(_) => {},
                    Err(e) => {
                        return Err(e);
                    },
                }
                if total_pages_path.is_some() && raw_page_size_path.is_some() {
                    return Err(
                        OpenConnectorError::InvalidRowPath {
                            path: "<pagination>".to_owned(),
                            reason:
                                "total_pages_path and raw_page_size_path are mutually exclusive; declare the one signal the provider makes authoritative".to_owned(),
                        },
                    );
                }
            },
            PaginationStrategy::SinglePage => {},
        }
        Ok(())
    }
}

impl View for Pagination {
    type V = PaginationView;

    closed spec fn view(&self) -> PaginationView {
        PaginationView {
            strategy: self.strategy@,
            page: self.page,
            next_token: match self.next_token {
                Some(token) => Some(token@),
                None => None,
            },
            seen: self.seen_tokens@,
        }
    }
}

impl Pagination {
    /// Whether the parsed paths and the token agree with the strategy and the
    /// page.
    pub closed spec fn wf(self) -> bool {
        &&& self.page >= 1
        &&& match self.strategy@ {
            StrategyView::PageNumber { total_pages_path, raw_page_size_path, .. } => {
                &&& self@.next_token == Some(text::decimal(self.page as nat))
                &&& holds_path(self.total_pages_path, total_pages_path)
                &&& holds_path(self.raw_page_size_path, raw_page_size_path)
            },
            StrategyView::Cursor { next_cursor_path, has_more_path, .. } => {
                &&& holds_path(self.cursor_path, Some(next_cursor_path))
                &&& holds_path(self.has_more_path, has_more_path)
            },
            StrategyView::SinglePage => true,
        }
    }

    /// Starts a scan at its first page.
    pub fn new(strategy: PaginationStrategy) -> (r: Result<Pagination, OpenConnectorError>)
        ensures
            match r {
                Ok(pagination) => {
                    &&& checked_paths(strategy@) == Ok::<(), ErrorView>(())
                    &&& pagination.wf()
                    &&& pagination@ == started(strategy@)
                },
                Err(e) => checked_paths(strategy@) == Err::<(), _>(e@),
            },
    {
        let next_token = match &strategy {
            PaginationStrategy::PageNumber { .. } => Some(decimal_text(1)),
            _ => None,
        };
        let (cursor_path, total_pages_path) = match &strategy {
            PaginationStrategy::Cursor { next_cursor_path, .. } => match parse_declared(
                Some(*next_cursor_path),
            ) {
                Ok(parsed) => (parsed, None),
                Err(e) => {
                    return Err(e);
                },
            },
            PaginationStrategy::PageNumber { total_pages_path, .. } => match parse_declared(
                *total_pages_path,
            ) {
                Ok(parsed) => (None, parsed),
                Err(e) => {
                    return Err(e);
                },
            },
            PaginationStrategy::SinglePage => (None, None),
        };
        let (has_more_path, raw_page_size_path) = match &strategy {
            PaginationStrategy::Cursor { has_more_path, .. } => match parse_declared(
                *has_more_path,
            ) {
                Ok(parsed) => (parsed, None),
                Err(e) => {
                    return Err(e);
                },
            },
            PaginationStrategy::PageNumber { raw_page_size_path, .. } => match parse_declared(
                *raw_page_size_path,
            ) {
                Ok(parsed) => (None, parsed),
                Err(e) => {
                    return Err(e);
                },
            },
            PaginationStrategy::SinglePage => (None, None),
        };
        Ok(
            Pagination {
                strategy,
                page: 1,
                next_token,
                seen_tokens: StringHashSet::new(),
                cursor_path,
                total_pages_path,
                raw_page_size_path,
                has_more_path,
            },
        )
    }

    /// The number, from one, of the page about to be requested.
    pub fn page(&self) -> (page: usize)
        ensures
            page == self@.page,
    {
        self.page
    }

    /// Puts this page's parameters into the action input.
    pub fn apply(&self, input: &mut Vec<(String, Json)>)
        requires
            self.wf(),
        ensures
            json::members_view(final(input)@) == applied(self@, json::members_view(old(input)@)),
    {
        match &self.strategy {
            PaginationStrategy::PageNumber { page_param, per_page_param, per_page, .. } => {
                let read = match &self.next_token {
                    Some(token) => parse_u64(token.as_str()),
                    None => None,
                };
                let page: u64 = match read {
                    Some(page) => page,
                    None => 1,
                };
                proof {
                    text::decimal_reads_back(self.page as nat);
                }
                set_member(input, (*page_param).to_owned(), Json::Number(Number::PosInt(page)));
                set_member(
                    input,
                    (*per_page_param).to_owned(),
                    Json::Number(Number::PosInt(*per_page as u64)),
                );
            },
            PaginationStrategy::Cursor { cursor_param, page_size_param, page_size, .. } => {
                if let Some(token) = &self.next_token {
                    set_member(input, (*cursor_param).to_owned(), Json::String(token.clone()));
                }
                if let Some(param) = page_size_param {
                    set_member(
                        input,
                        (*param).to_owned(),
                        Json::Number(Number::PosInt(*page_size as u64)),
                    );
                }
            },
            PaginationStrategy::SinglePage => {},
        }
    }

    /// Moves on after a fetched page: `true` when another page is to be
    /// requested, `false` when the scan is complete. `envelope` is the response
    /// and `rows_in_page` the number of rows taken from it.
    pub fn advance(&mut self, envelope: &Json, rows_in_page: usize) -> (r: Result<
        bool,
        OpenConnectorError,
    >)
        requires
            old(self).wf(),
            old(self)@.page < usize::MAX,
        ensures
            final(self).wf(),
            match next_page(old(self)@, envelope@, rows_in_page) {
                Ok(Some(token)) => r == Ok::<bool, OpenConnectorError>(true) && final(self)@
                    == moved_on(old(self)@, token),
                Ok(None) => r == Ok::<bool, OpenConnectorError>(false) && final(self)@
                    == old(self)@,
                Err(e) => (r matches Err(found) && found@ == e) && final(self)@ == old(self)@,
            },
    {
        match self.strategy {
            PaginationStrategy::PageNumber { per_page, .. } => {
                let more = match self.numbered_page_follows(per_page, envelope, rows_in_page) {
                    Ok(more) => more,
                    Err(e) => {
                        return Err(e);
                    },
                };
                if more {
                    self.page += 1;
                    self.next_token = Some(decimal_text(self.page as u64));
                }
                Ok(more)
            },
            PaginationStrategy::Cursor { .. } => {
                match self.signalled_more(envelope) {
                    Ok(true) => {},
                    Ok(false) => {
                        return Ok(false);
                    },
                    Err(e) => {
                        return Err(e);
                    },
                }
                let next = match self.read_cursor(envelope) {
                    Ok(Some(next)) => next,
                    Ok(None) => {
                        return Ok(false);
                    },
                    Err(e) => {
                        return Err(e);
                    },
                };
                let ghost before = self.seen_tokens@;
                if !self.seen_tokens.insert(next.clone()) {
                    assert(self.seen_tokens@ =~= before);
                    return Err(OpenConnectorError::PaginationLoop { token: next });
                }
                self.page += 1;
                self.next_token = Some(next);
                Ok(true)
            },
            PaginationStrategy::SinglePage => Ok(false),
        }
    }

    fn numbered_page_follows(&self, per_page: u32, envelope: &Json, rows_in_page: usize) -> (r:
        Result<bool, OpenConnectorError>)
        requires
            self.wf(),
            self.strategy@ matches StrategyView::PageNumber { per_page: size, .. } && size
                == per_page,
        ensures
            self.strategy@ matches StrategyView::PageNumber {
                total_pages_path,
                raw_page_size_path,
                ..
            } && row_path::result_view(r) == more_pages(
                self@,
                per_page,
                total_pages_path,
                raw_page_size_path,
                envelope@,
                rows_in_page,
            ),
    {
        match &self.total_pages_path {
            Some(path) => {
                let total = match path.extract(envelope, self.page) {
                    Ok(total) => total,
                    Err(e) => {
                        return Err(e);
                    },
                };
                match total.as_u64() {
                    Some(pages) => Ok((self.page as u64) < pages),
                    None => Err(
                        OpenConnectorError::PaginationTotalInvalid {
                            path: path.as_str().to_owned(),
                            page: self.page,
                            found: total.described_kind().to_owned(),
                        },
                    ),
                }
            },
            None => match &self.raw_page_size_path {
                Some(path) => {
                    let fetched = match path.extract(envelope, self.page) {
                        Ok(fetched) => fetched,
                        Err(e) => {
                            return Err(e);
                        },
                    };
                    match fetched.as_u64() {
                        Some(rows) => Ok(rows >= per_page as u64),
                        None => Err(
                            OpenConnectorError::PaginationRawPageSizeInvalid {
                                path: path.as_str().to_owned(),
                                page: self.page,
                                found: fetched.described_kind().to_owned(),
                            },
                        ),
                    }
                },
                None => Ok(rows_in_page >= per_page as usize),
            },
        }
    }

    fn signalled_more(&self, envelope: &Json) -> (r: Result<bool, OpenConnectorError>)
        requires
            self.wf(),
            self.strategy is Cursor,
        ensures
            row_path::result_view(r) == has_more(
                self.page,
                self.strategy@->has_more_path,
                envelope@,
            ),
    {
        match &self.has_more_path {
            Some(path) => match path.extract(envelope, self.page) {
                Ok(Json::Bool(more)) => Ok(*more),
                Ok(other) => Err(
                    OpenConnectorError::PaginationHasMoreInvalid {
                        path: path.as_str().to_owned(),
                        page: self.page,
                        found: other.described_kind().to_owned(),
                    },
                ),
                Err(OpenConnectorError::RowPathNotFound { .. }) => Err(
                    OpenConnectorError::PaginationHasMoreInvalid {
                        path: path.as_str().to_owned(),
                        page: self.page,
                        found: "absent".to_owned(),
                    },
                ),
                Err(e) => Err(e),
            },
            None => Ok(true),
        }
    }

    fn read_cursor(&self, envelope: &Json) -> (r: Result<Option<String>, OpenConnectorError>)
        requires
            self.wf(),
            self.strategy is Cursor,
        ensures
            match given_cursor(self.page, self.strategy@->next_cursor_path, envelope@) {
                Ok(Some(cursor)) => r matches Ok(Some(found)) && found@ == cursor,
                Ok(None) => if self.strategy@->has_more_path is Some {
                    r matches Err(e) && e@ == (ErrorView::PaginationCursorInvalid {
                        path: self.strategy@->next_cursor_path,
                        page: self.page,
                        found: "null, empty, or absent while the has-more signal is true"@,
                    })
                } else {
                    r matches Ok(None)
                },
                Err(e) => r matches Err(found) && found@ == e,
            },
    {
        let path = match &self.cursor_path {
            Some(path) => path,
            None => {
                return Err(
                    OpenConnectorError::InvalidRowPath {
                        path: "<cursor>".to_owned(),
                        reason: "cursor strategy without a parsed path".to_owned(),
                    },
                );
            },
        };
        match path.extract(envelope, self.page) {
            Ok(Json::String(cursor)) => {
                if !cursor.as_str().is_empty() {
                    return Ok(Some(cursor.clone()));
                }
            },
            Ok(Json::Null) => {},
            Ok(other) => {
                return Err(
                    OpenConnectorError::PaginationCursorInvalid {
                        path: path.as_str().to_owned(),
                        page: self.page,
                        found: other.described_kind().to_owned(),
                    },
                );
            },
            Err(OpenConnectorError::RowPathNotFound { .. }) => {},
            Err(e) => {
                return Err(e);
            },
        }
        if self.has_more_path.is_some() {
            return Err(
                OpenConnectorError::PaginationCursorInvalid {
                    path: path.as_str().to_owned(),
                    page: self.page,
                    found: "null, empty, or absent while the has-more signal is true".to_owned(),
                },
            );
        }
        Ok(None)
    }
}

/// The state after a scan has moved on once for each of these responses, each
/// given with its number of rows. `None` when one of them ended or failed it.
pub open spec fn scanned(
    start: PaginationView,
    responses: Seq<(JsonView, usize)>,
) -> Option<PaginationView>
    decreases responses.len(),
{
    if responses.len() == 0 {
        Some(start)
    } else {
        match scanned(start, responses.drop_last()) {
            Some(state) => match next_page(state, responses.last().0, responses.last().1) {
                Ok(Some(token)) => Some(moved_on(state, token)),
                _ => None,
            },
            None => None,
        }
    }
}

/// Each move takes a scan to the next page number, under the same strategy.
pub proof fn a_scan_counts_its_pages(
    strategy: StrategyView,
    responses: Seq<(JsonView, usize)>,
)
    requires
        scanned(started(strategy), responses) is Some,
        responses.len() < usize::MAX,
    ensures
        scanned(started(strategy), responses)->0.page == responses.len() + 1,
        scanned(started(strategy), responses)->0.strategy == strategy,
        strategy is PageNumber ==> scanned(started(strategy), responses)->0.next_token == Some(
            text::decimal((responses.len() + 1) as nat),
        ),
    decreases responses.len(),
{
    if responses.len() > 0 {
        a_scan_counts_its_pages(strategy, responses.drop_last());
    }
}

proof fn followed_cursors_are_kept(
    strategy: StrategyView,
    responses: Seq<(JsonView, usize)>,
    i: int,
)
    requires
        strategy is Cursor,
        scanned(started(strategy), responses) is Some,
        responses.len() < usize::MAX,
        0 < i <= responses.len(),
    ensures
        scanned(started(strategy), responses.take(i)) matches Some(state) && (
        state.next_token matches Some(token) && scanned(started(strategy), responses)->0.seen.contains(
            token,
        )),
    decreases responses.len(),
{
    a_scan_counts_its_pages(strategy, responses.drop_last());
    if i == responses.len() {
        assert(responses.take(i) =~= responses);
    } else {
        followed_cursors_are_kept(strategy, responses.drop_last(), i);
        assert(responses.drop_last().take(i) =~= responses.take(i));
    }
}

/// No page is requested twice: at any two points of one scan the tokens
/// differ, so a scan cannot loop.
pub proof fn a_scan_never_repeats_a_page(
    strategy: StrategyView,
    responses: Seq<(JsonView, usize)>,
    i: int,
    j: int,
)
    requires
        scanned(started(strategy), responses) is Some,
        responses.len() < usize::MAX,
        0 <= i < j <= responses.len(),
    ensures
        scanned(started(strategy), responses.take(i)) matches Some(earlier) && (scanned(
            started(strategy),
            responses.take(j),
        ) matches Some(later) && earlier.next_token != later.next_token),
{
    a_prefix_of_a_scan_is_a_scan(strategy, responses, i);
    a_prefix_of_a_scan_is_a_scan(strategy, responses, j);
    let upto = responses.take(j);
    assert(upto.take(i) =~= responses.take(i));
    a_scan_counts_its_pages(strategy, upto);
    a_scan_counts_its_pages(strategy, upto.drop_last());
    a_scan_counts_its_pages(strategy, upto.take(i));
    if strategy is PageNumber {
        if text::decimal((i + 1) as nat) == text::decimal((j + 1) as nat) {
            text::decimal_is_injective((i + 1) as nat, (j + 1) as nat);
        }
    } else if strategy is Cursor && i > 0 {
        followed_cursors_are_kept(strategy, upto.drop_last(), i);
        assert(upto.drop_last().take(i) =~= upto.take(i));
    } else {
        assert(upto.take(0) =~= Seq::empty());
    }
}

proof fn a_prefix_of_a_scan_is_a_scan(
    strategy: StrategyView,
    responses: Seq<(JsonView, usize)>,
    i: int,
)
    requires
        scanned(started(strategy), responses) is Some,
        0 <= i <= responses.len(),
    ensures
        scanned(started(strategy), responses.take(i)) is Some,
    decreases responses.len(),
{
    if i == responses.len() {
        assert(responses.take(i) =~= responses);
    } else {
        a_prefix_of_a_scan_is_a_scan(strategy, responses.drop_last(), i);
        assert(responses.drop_last().take(i) =~= responses.take(i));
    }
}

/// A strategy is valid exactly when its paths parse, so that a scan can start
/// with it, and it names at most one signal.
pub proof fn valid_strategies_can_start(strategy: StrategyView)
    ensures
        validated(strategy) is Ok <==> checked_paths(strategy) is Ok && !names_two_signals(strategy),
{
}

/// A declared total, or a declared raw page size, decides alone: the number of
/// rows in a page does not matter, so short and empty pages do not end a scan.
pub proof fn declared_signals_ignore_the_row_count(
    state: PaginationView,
    envelope: JsonView,
    rows: usize,
    other_rows: usize,
)
    requires
        state.strategy matches StrategyView::PageNumber {
            total_pages_path,
            raw_page_size_path,
            ..
        } && (total_pages_path is Some || raw_page_size_path is Some),
    ensures
        next_page(state, envelope, rows) == next_page(state, envelope, other_rows),
{
}

/// A has-more signal of `false` ends the scan, whatever the cursor.
pub proof fn a_false_signal_ends_the_scan(state: PaginationView, envelope: JsonView, rows: usize)
    requires
        state.strategy matches StrategyView::Cursor { has_more_path: Some(path), .. }
            && row_path::extracted(path, envelope, state.page) == Ok::<JsonView, ErrorView>(
            JsonView::Bool(false),
        ),
    ensures
        next_page(state, envelope, rows) == Ok::<Option<Seq<char>>, ErrorView>(None),
{
}

/// Where a has-more signal is declared, nothing but `false` ends the scan: with
/// any other signal, or without a usable cursor, it goes on or fails.
pub proof fn a_declared_signal_never_ends_quietly(
    state: PaginationView,
    envelope: JsonView,
    rows: usize,
)
    requires
        state.strategy matches StrategyView::Cursor { has_more_path: Some(path), .. }
            && row_path::extracted(path, envelope, state.page) != Ok::<JsonView, ErrorView>(
            JsonView::Bool(false),
        ),
    ensures
        next_page(state, envelope, rows) != Ok::<Option<Seq<char>>, ErrorView>(None),
{
}

/// A signal or cursor that cannot be used is told by its kind, never by its
/// value. Only a repeated cursor is shown.
pub proof fn unusable_signals_show_no_value(
    state: PaginationView,
    envelope: JsonView,
    rows: usize,
)
    ensures
        next_page(state, envelope, rows) matches Err(e) ==> match e {
            ErrorView::PaginationTotalInvalid { found, .. } => json::described_kind_name(found),
            ErrorView::PaginationRawPageSizeInvalid { found, .. } => json::described_kind_name(
                found,
            ),
            ErrorView::PaginationHasMoreInvalid { found, .. } => json::described_kind_name(found)
                || found == "absent"@,
            ErrorView::PaginationCursorInvalid { found, .. } => json::described_kind_name(found)
                || found == "null, empty, or absent while the has-more signal is true"@,
            ErrorView::PaginationLoop { token } => state.seen.contains(token),
            ErrorView::RowPathNotObject { found, .. } => json::described_kind_name(found),
            ErrorView::RowPathNotFound { .. } => true,
            _ => false,
        },
{
    match state.strategy {
        StrategyView::PageNumber { total_pages_path, raw_page_size_path, .. } => {
            if let Some(path) = total_pages_path {
                row_path::blocked_by_kind(envelope, row_path::segments_of(path));
            }
            if let Some(path) = raw_page_size_path {
                row_path::blocked_by_kind(envelope, row_path::segments_of(path));
            }
        },
        StrategyView::Cursor { next_cursor_path, has_more_path, .. } => {
            row_path::blocked_by_kind(envelope, row_path::segments_of(next_cursor_path));
            if let Some(path) = has_more_path {
                row_path::blocked_by_kind(envelope, row_path::segments_of(path));
            }
        },
        StrategyView::SinglePage => {},
    }
}

/// A single-page scan asks for one page and adds nothing to the input.
pub proof fn a_single_page_is_all(
    state: PaginationView,
    envelope: JsonView,
    rows: usize,
    input: Map<Seq<char>, JsonView>,
)
    requires
        state.strategy is SinglePage,
    ensures
        next_page(state, envelope, rows) == Ok::<Option<Seq<char>>, ErrorView>(None),
        applied(state, input) == input,
{
}

} // verus!
