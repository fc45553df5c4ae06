//! The ad-hoc SQL endpoint: what a request may say, and the order in which it
//! is validated, recorded, executed and answered.
//!
//! The server performs one action at a time and reports what came of it; the
//! functions here decide on the next one.
use vstd::prelude::*;

use crate::json;
use crate::json::{get_member, set_member, Json, JsonView, Number};
use crate::json_text;
use crate::server::pipeline_handlers::{Metric, MetricView};
use crate::server::query_audit::QueryAuditStatus;
use crate::server::response;
use crate::server::response::{create_error, ApiError, ApiErrorView};
use crate::text;
use crate::text::{concat2, concat3, concat5, decimal_text};

verus! {

/// Row cap of a request that gives none.
pub const DEFAULT_MAX_ROWS: usize = 1000;

/// Most characters that a purpose may have.
pub const MAX_PURPOSE_CHARS: usize = 2000;

/// Most characters that a session ID may have.
pub const MAX_SESSION_ID_CHARS: usize = 200;

/// Most bytes that a context may take as JSON text.
pub const MAX_AI_CONTEXT_BYTES: usize = 4096;

/// A request to the endpoint.
#[derive(Debug)]
pub struct QueryRequest {
    /// One SQL statement.
    pub sql: String,
    /// Most rows to return, at least one.
    pub max_rows: Option<usize>,
    /// What the caller says about the query. A JSON null counts as given.
    pub ai_context: Option<Json>,
}

/// The value under a key of an object, if there is one.
pub open spec fn member(members: Map<Seq<char>, JsonView>, key: Seq<char>) -> Option<JsonView> {
    if members.contains_key(key) {
        Some(members[key])
    } else {
        None
    }
}

/// Why a field of a context is refused, if it is.
pub open spec fn context_string_problem(
    field: Option<JsonView>,
    name: Seq<char>,
    max_chars: usize,
) -> Option<Seq<char>> {
    match field {
        Some(JsonView::String(s)) => if s.len() == 0 {
            Some("ai_context."@ + name + " must not be empty"@)
        } else if s.len() > max_chars {
            Some(
                "ai_context."@ + name + " must be at most "@ + text::decimal(max_chars as nat)
                    + " characters"@,
            )
        } else {
            None
        },
        _ => Some("ai_context."@ + name + " is required and must be a non-empty string"@),
    }
}

/// Why the fields of a context are refused, given the size of its JSON text.
pub open spec fn context_fields_problem(
    members: Map<Seq<char>, JsonView>,
    bytes: nat,
) -> Option<Seq<char>> {
    if bytes > MAX_AI_CONTEXT_BYTES {
        Some("ai_context must serialize to at most 4096 bytes"@)
    } else {
        match context_string_problem(
            member(members, "purpose"@),
            "purpose"@,
            MAX_PURPOSE_CHARS,
        ) {
            Some(problem) => Some(problem),
            None => context_string_problem(
                member(members, "session_id"@),
                "session_id"@,
                MAX_SESSION_ID_CHARS,
            ),
        }
    }
}

/// Why a context is refused, if it is: it must be an object, not too large,
/// with a purpose and a session ID.
pub open spec fn context_problem(context: Option<JsonView>) -> Option<Seq<char>> {
    match context {
        None => None,
        Some(JsonView::Object(members)) => context_fields_problem(
            members,
            vstd::utf8::encode_utf8(json_text::json_text(JsonView::Object(members))).len(),
        ),
        Some(_) => Some("ai_context must be a JSON object"@),
    }
}

/// The model of an optional document.
pub open spec fn optional_json(value: Option<&Json>) -> Option<JsonView> {
    match value {
        Some(value) => Some(value@),
        None => None,
    }
}

/// Checks that a field of a context is a string that is neither empty nor too
/// long.
pub fn validate_context_string(field: Option<&Json>, name: &str, max_chars: usize) -> (r: Result<
    (),
    String,
>)
    ensures
        match r {
            Ok(_) => context_string_problem(optional_json(field), name@, max_chars) is None,
            Err(problem) => context_string_problem(optional_json(field), name@, max_chars) == Some(
                problem@,
            ),
        },
{
    match field {
        Some(Json::String(s)) => {
            let chars: usize = s.as_str().unicode_len();
            if chars == 0 {
                Err(concat3("ai_context.", name, " must not be empty"))
            } else if chars > max_chars {
                let limit = decimal_text(max_chars as u64);
                Err(
                    concat5(
                        "ai_context.",
                        name,
                        " must be at most ",
                        limit.as_str(),
                        " characters",
                    ),
                )
            } else {
                Ok(())
            }
        },
        _ => Err(concat3("ai_context.", name, " is required and must be a non-empty string")),
    }
}

/// Checks the fields of a context, given the size of its JSON text.
pub fn validate_context_fields(members: &Vec<(String, Json)>, bytes: usize) -> (r: Result<
    (),
    String,
>)
    ensures
        match r {
            Ok(_) => context_fields_problem(json::members_view(members@), bytes as nat) is None,
            Err(problem) => context_fields_problem(json::members_view(members@), bytes as nat)
                == Some(problem@),
        },
{
    if bytes > MAX_AI_CONTEXT_BYTES {
        return Err("ai_context must serialize to at most 4096 bytes".to_owned());
    }
    match validate_context_string(get_member(members, "purpose"), "purpose", MAX_PURPOSE_CHARS) {
        Ok(_) => validate_context_string(
            get_member(members, "session_id"),
            "session_id",
            MAX_SESSION_ID_CHARS,
        ),
        Err(problem) => Err(problem),
    }
}

/// Checks what the caller says about the query.
pub fn validate_ai_context(ai_context: Option<&Json>) -> (r: Result<(), String>)
    ensures
        match r {
            Ok(_) => context_problem(optional_json(ai_context)) is None,
            Err(problem) => context_problem(optional_json(ai_context)) == Some(problem@),
        },
{
    match ai_context {
        None => Ok(()),
        Some(value) => match value {
            Json::Object(members) => {
                let size: usize = json_text::to_text(value).as_str().as_bytes().len();
                validate_context_fields(members, size)
            },
            _ => Err("ai_context must be a JSON object".to_owned()),
        },
    }
}

/// What a statement does: a query returns rows, anything else a small result.
#[derive(Debug, Clone, Copy, PartialEq, Eq, Structural)]
pub enum StatementKind {
    Query,
    Other,
}

/// Why a statement was refused.
#[derive(Debug)]
pub enum SqlRejection {
    /// It defines data.
    DdlNotAllowed { operation: String },
    /// It writes to a source that may only be read.
    WriteNotAllowed { operation: String, table: String },
    /// It is not exactly one statement.
    NotExactlyOneStatement { count: usize },
    /// It reads a schema that is closed to ad-hoc queries.
    SchemaNotAllowed { schema: String, table: String },
    /// It is of a kind that is not allowed.
    StatementNotAllowed,
    /// It cannot be parsed.
    ParseError,
}

/// What a reply tells about a refusal.
pub open spec fn rejection_details(rejection: SqlRejection) -> Option<JsonView> {
    match rejection {
        SqlRejection::DdlNotAllowed { operation } => Some(
            JsonView::Object(json::no_members().insert("operation"@, JsonView::String(operation@))),
        ),
        SqlRejection::WriteNotAllowed { operation, table } => Some(
            JsonView::Object(
                json::no_members().insert("operation"@, JsonView::String(operation@)).insert(
                    "table"@,
                    JsonView::String(table@),
                ),
            ),
        ),
        SqlRejection::NotExactlyOneStatement { count } => Some(
            JsonView::Object(
                json::no_members().insert("statement_count"@, json::integer(count as u64)),
            ),
        ),
        SqlRejection::SchemaNotAllowed { schema, table } => Some(
            JsonView::Object(
                json::no_members().insert("schema"@, JsonView::String(schema@)).insert(
                    "table"@,
                    JsonView::String(table@),
                ),
            ),
        ),
        SqlRejection::StatementNotAllowed | SqlRejection::ParseError => None,
    }
}

fn details_of(rejection: &SqlRejection) -> (r: Option<Json>)
    ensures
        match r {
            Some(details) => rejection_details(*rejection) == Some(details@),
            None => rejection_details(*rejection) is None,
        },
{
    let mut members: Vec<(String, Json)> = Vec::new();
    match rejection {
        SqlRejection::DdlNotAllowed { operation } => {
            set_member(&mut members, "operation".to_owned(), Json::String(operation.clone()));
        },
        SqlRejection::WriteNotAllowed { operation, table } => {
            set_member(&mut members, "operation".to_owned(), Json::String(operation.clone()));
            set_member(&mut members, "table".to_owned(), Json::String(table.clone()));
        },
        SqlRejection::NotExactlyOneStatement { count } => {
            set_member(
                &mut members,
                "statement_count".to_owned(),
                Json::Number(Number::PosInt(*count as u64)),
            );
        },
        SqlRejection::SchemaNotAllowed { schema, table } => {
            set_member(&mut members, "schema".to_owned(), Json::String(schema.clone()));
            set_member(&mut members, "table".to_owned(), Json::String(table.clone()));
        },
        SqlRejection::StatementNotAllowed | SqlRejection::ParseError => {
            return None;
        },
    }
    Some(Json::Object(members))
}

/// Where a request stands.
#[derive(Debug)]
pub enum QueryState<'a> {
    /// The statement is being validated.
    Validating { request: &'a QueryRequest, max_rows: usize, auditing: bool },
    /// The audit record is being written.
    Recording { request: &'a QueryRequest, max_rows: usize, kind: StatementKind },
    /// The statement is being executed.
    Executing { max_rows: usize, kind: StatementKind, recorded: bool },
    /// The rows are being turned into JSON.
    Converting { rows: usize, truncated: bool, recorded: bool },
    /// The request is answered.
    Answered,
}

/// What came of an action.
#[derive(Debug)]
pub enum QueryEvent {
    /// The statement was validated, or refused with this message.
    Validated(Result<StatementKind, (String, SqlRejection)>),
    /// The audit record was written, or could not be.
    Recorded(bool),
    /// The engine gave this many rows, or failed with this message.
    Executed(Result<usize, String>),
    /// The rows were converted, or this went wrong.
    Converted(Result<(), String>),
}

/// What is stamped on the audit record.
#[derive(Debug)]
pub struct AuditOutcome {
    pub status: QueryAuditStatus,
    pub row_count: Option<usize>,
    pub error: Option<String>,
}

/// What the server does next.
#[derive(Debug)]
pub enum QueryAction<'a> {
    /// Validate the statement.
    Validate { sql: &'a str },
    /// Write the audit record: the statement, what the caller says about it,
    /// the row cap and the kind of the statement.
    Record {
        sql: &'a str,
        ai_context: Option<&'a Json>,
        max_rows: usize,
        kind: StatementKind,
    },
    /// Execute the statement, fetching at most this many rows where a limit is
    /// given.
    Execute { sql: &'a str, fetch: Option<usize> },
    /// Turn the rows into JSON, keeping only the first so many where a limit is
    /// given.
    Convert { keep: Option<usize> },
    /// Stamp the outcome on the audit record where there is one, count the
    /// request, then reply with so many rows, truncated or not, or with an
    /// error.
    Answer {
        metric: Metric,
        outcome: Option<AuditOutcome>,
        reply: Result<(usize, bool), ApiError>,
    },
}

/// The model of an [`AuditOutcome`].
pub struct OutcomeView {
    pub status: QueryAuditStatus,
    pub row_count: Option<usize>,
    pub error: Option<Seq<char>>,
}

impl View for AuditOutcome {
    type V = OutcomeView;

    open spec fn view(&self) -> OutcomeView {
        OutcomeView {
            status: self.status,
            row_count: self.row_count,
            error: match self.error {
                Some(error) => Some(error@),
                None => None,
            },
        }
    }
}

/// The model of a [`QueryAction`].
pub enum ActionView {
    Validate { sql: Seq<char> },
    Record {
        sql: Seq<char>,
        ai_context: Option<JsonView>,
        max_rows: usize,
        kind: StatementKind,
    },
    Execute { sql: Seq<char>, fetch: Option<usize> },
    Convert { keep: Option<usize> },
    Answer {
        metric: MetricView,
        outcome: Option<OutcomeView>,
        reply: Result<(usize, bool), ApiErrorView>,
    },
}

impl<'a> View for QueryAction<'a> {
    type V = ActionView;

    open spec fn view(&self) -> ActionView {
        match self {
            QueryAction::Validate { sql } => ActionView::Validate { sql: sql@ },
            QueryAction::Record { sql, ai_context, max_rows, kind } => ActionView::Record {
                sql: sql@,
                ai_context: optional_json(*ai_context),
                max_rows: *max_rows,
                kind: *kind,
            },
            QueryAction::Execute { sql, fetch } => ActionView::Execute { sql: sql@, fetch: *fetch },
            QueryAction::Convert { keep } => ActionView::Convert { keep: *keep },
            QueryAction::Answer { metric, outcome, reply } => ActionView::Answer {
                metric: metric@,
                outcome: match outcome {
                    Some(outcome) => Some(outcome@),
                    None => None,
                },
                reply: match reply {
                    Ok(rows) => Ok(*rows),
                    Err(e) => Err(e@),
                },
            },
        }
    }
}

/// The model of a request.
pub struct RequestView {
    pub sql: Seq<char>,
    pub max_rows: Option<usize>,
    pub ai_context: Option<JsonView>,
}

impl View for QueryRequest {
    type V = RequestView;

    open spec fn view(&self) -> RequestView {
        RequestView {
            sql: self.sql@,
            max_rows: self.max_rows,
            ai_context: match self.ai_context {
                Some(context) => Some(context@),
                None => None,
            },
        }
    }
}

/// An error reply: it is counted under its type.
pub open spec fn failed(outcome: Option<OutcomeView>, e: ApiErrorView) -> ActionView {
    ActionView::Answer {
        metric: MetricView::Failure { error_type: e.error_type },
        outcome,
        reply: Err(e),
    }
}

/// A reply before anything was recorded.
pub open spec fn refused(e: ApiErrorView) -> ActionView {
    failed(None, e)
}

/// How a request begins: its row cap and context are checked, then its
/// statement is validated.
pub open spec fn begun<'a>(request: &'a QueryRequest, auditing: bool) -> (
    QueryState<'a>,
    ActionView,
) {
    if request.max_rows == Some(0usize) {
        (
            QueryState::Answered,
            refused(
                response::plain_error(
                    400,
                    "max_rows must be a positive integer"@,
                    "parameter_validation_error"@,
                ),
            ),
        )
    } else {
        match context_problem(request@.ai_context) {
            Some(problem) => (
                QueryState::Answered,
                refused(response::plain_error(400, problem, "parameter_validation_error"@)),
            ),
            None => (
                QueryState::Validating {
                    request,
                    max_rows: match request.max_rows {
                        Some(n) => n,
                        None => DEFAULT_MAX_ROWS,
                    },
                    auditing,
                },
                ActionView::Validate { sql: request@.sql },
            ),
        }
    }
}

/// How many rows to fetch: one more than the cap, so that truncation shows,
/// within what the engine can hold in a signed integer.
pub open spec fn fetch_limit(max_rows: usize) -> usize {
    if max_rows >= i64::MAX {
        i64::MAX as usize
    } else if max_rows == usize::MAX {
        max_rows
    } else {
        (max_rows + 1) as usize
    }
}

/// The step from a valid statement: a query is fetched with its cap, anything
/// else without.
pub open spec fn executing<'a>(
    request: &'a QueryRequest,
    max_rows: usize,
    kind: StatementKind,
    recorded: bool,
) -> (QueryState<'a>, ActionView) {
    (
        QueryState::Executing { max_rows, kind, recorded },
        ActionView::Execute {
            sql: request@.sql,
            fetch: if kind == StatementKind::Query {
                Some(fetch_limit(max_rows))
            } else {
                None
            },
        },
    )
}

/// An outcome, where the statement was recorded.
pub open spec fn stamped(
    recorded: bool,
    status: QueryAuditStatus,
    row_count: Option<usize>,
    error: Option<Seq<char>>,
) -> Option<OutcomeView> {
    if recorded {
        Some(OutcomeView { status, row_count, error })
    } else {
        None
    }
}

/// What follows an event. `None` where the event is not the one that is waited
/// for.
pub open spec fn stepped<'a>(state: QueryState<'a>, event: QueryEvent) -> Option<
    (QueryState<'a>, ActionView),
> {
    match (state, event) {
        (
            QueryState::Validating { request, max_rows, auditing },
            QueryEvent::Validated(result),
        ) => match result {
            Ok(kind) => if auditing {
                Some(
                    (
                        QueryState::Recording { request, max_rows, kind },
                        ActionView::Record {
                            sql: request@.sql,
                            ai_context: request@.ai_context,
                            max_rows,
                            kind,
                        },
                    ),
                )
            } else {
                Some(executing(request, max_rows, kind, false))
            },
            Err((message, rejection)) => Some(
                (
                    QueryState::Answered,
                    refused(
                        ApiErrorView {
                            status: 400,
                            message: message@,
                            error_type: "sql_validation_error"@,
                            details: rejection_details(rejection),
                        },
                    ),
                ),
            ),
        },
        (
            QueryState::Recording { request, max_rows, kind },
            QueryEvent::Recorded(written),
        ) => if written {
            Some(executing(request, max_rows, kind, true))
        } else {
            Some(
                (
                    QueryState::Answered,
                    refused(
                        response::plain_error(
                            503,
                            "Query auditing is enabled but the audit record could not be written; the query was not executed"@,
                            "query_audit_error"@,
                        ),
                    ),
                ),
            )
        },
        (
            QueryState::Executing { max_rows, kind, recorded },
            QueryEvent::Executed(result),
        ) => match result {
            Ok(rows) => {
                let truncated = kind == StatementKind::Query && rows > max_rows;
                Some(
                    (
                        QueryState::Converting {
                            rows: if truncated {
                                max_rows
                            } else {
                                rows
                            },
                            truncated,
                            recorded,
                        },
                        ActionView::Convert {
                            keep: if truncated {
                                Some(max_rows)
                            } else {
                                None
                            },
                        },
                    ),
                )
            },
            Err(error) => Some(
                (
                    QueryState::Answered,
                    failed(
                        stamped(recorded, QueryAuditStatus::Failed, None, Some(error@)),
                        response::plain_error(
                            500,
                            "SQL query execution failed; see server logs for details"@,
                            "query_execution_error"@,
                        ),
                    ),
                ),
            ),
        },
        (
            QueryState::Converting { rows, truncated, recorded },
            QueryEvent::Converted(result),
        ) => match result {
            Ok(_) => Some(
                (
                    QueryState::Answered,
                    ActionView::Answer {
                        metric: MetricView::Success,
                        outcome: stamped(recorded, QueryAuditStatus::Succeeded, Some(rows), None),
                        reply: Ok((rows, truncated)),
                    },
                ),
            ),
            Err(error) => Some(
                (
                    QueryState::Answered,
                    failed(
                        stamped(
                            recorded,
                            QueryAuditStatus::Failed,
                            Some(rows),
                            Some("result conversion failed: "@ + error@),
                        ),
                        response::plain_error(
                            500,
                            "Failed to convert query results to JSON; see server logs for details"@,
                            "result_conversion_error"@,
                        ),
                    ),
                ),
            ),
        },
        _ => None,
    }
}

fn fail<'a>(outcome: Option<AuditOutcome>, e: ApiError) -> (r: QueryAction<'a>)
    ensures
        r@ == failed(
            match outcome {
                Some(outcome) => Some(outcome@),
                None => None,
            },
            e@,
        ),
{
    QueryAction::Answer {
        metric: Metric::Failure { error_type: e.error_type },
        outcome,
        reply: Err(e),
    }
}

/// Begins a request. `auditing` tells whether there is an audit ledger.
pub fn begin_query<'a>(request: &'a QueryRequest, auditing: bool) -> (r: (
    QueryState<'a>,
    QueryAction<'a>,
))
    ensures
        (r.0, r.1@) == begun(request, auditing),
{
    let cap: usize = match request.max_rows {
        Some(0) => {
            let e = create_error(
                400,
                "max_rows must be a positive integer",
                "parameter_validation_error",
            );
            return (QueryState::Answered, fail(None, e));
        },
        Some(n) => n,
        None => DEFAULT_MAX_ROWS,
    };
    match validate_ai_context(context_of(request)) {
        Ok(_) => (
            QueryState::Validating { request, max_rows: cap, auditing },
            QueryAction::Validate { sql: request.sql.as_str() },
        ),
        Err(problem) => {
            let e = create_error(400, problem.as_str(), "parameter_validation_error");
            (QueryState::Answered, fail(None, e))
        },
    }
}

fn context_of<'a>(request: &'a QueryRequest) -> (r: Option<&'a Json>)
    ensures
        optional_json(r) == request@.ai_context,
{
    match &request.ai_context {
        Some(context) => Some(context),
        None => None,
    }
}

fn execute<'a>(
    request: &'a QueryRequest,
    max_rows: usize,
    kind: StatementKind,
    recorded: bool,
) -> (r: (QueryState<'a>, QueryAction<'a>))
    ensures
        (r.0, r.1@) == executing(request, max_rows, kind, recorded),
{
    let fetch = match kind {
        StatementKind::Query => {
            let wanted: usize = max_rows.saturating_add(1);
            let most: u64 = i64::MAX as u64;
            if wanted as u64 > most {
                Some(most as usize)
            } else {
                Some(wanted)
            }
        },
        StatementKind::Other => None,
    };
    (
        QueryState::Executing { max_rows, kind, recorded },
        QueryAction::Execute { sql: request.sql.as_str(), fetch },
    )
}

fn outcome(
    recorded: bool,
    status: QueryAuditStatus,
    row_count: Option<usize>,
    error: Option<String>,
) -> (r: Option<AuditOutcome>)
    ensures
        (match r {
            Some(outcome) => Some(outcome@),
            None => None,
        }) == stamped(
            recorded,
            status,
            row_count,
            match error {
                Some(error) => Some(error@),
                None => None,
            },
        ),
{
    if recorded {
        Some(AuditOutcome { status, row_count, error })
    } else {
        None
    }
}

/// Decides what follows an event. `None` where the event is not the one that is
/// waited for.
pub fn step_query<'a>(state: QueryState<'a>, event: QueryEvent) -> (r: Option<
    (QueryState<'a>, QueryAction<'a>),
>)
    ensures
        match r {
            Some((next, action)) => stepped(state, event) == Some((next, action@)),
            None => stepped(state, event) is None,
        },
{
    match (state, event) {
        (
            QueryState::Validating { request, max_rows, auditing },
            QueryEvent::Validated(result),
        ) => match result {
            Ok(kind) => if auditing {
                Some(
                    (
                        QueryState::Recording { request, max_rows, kind },
                        QueryAction::Record {
                            sql: request.sql.as_str(),
                            ai_context: context_of(request),
                            max_rows,
                            kind,
                        },
                    ),
                )
            } else {
                Some(execute(request, max_rows, kind, false))
            },
            Err((message, rejection)) => {
                let e = ApiError {
                    status: 400,
                    message,
                    error_type: "sql_validation_error",
                    details: details_of(&rejection),
                };
                Some((QueryState::Answered, fail(None, e)))
            },
        },
        (
            QueryState::Recording { request, max_rows, kind },
            QueryEvent::Recorded(written),
        ) => if written {
            Some(execute(request, max_rows, kind, true))
        } else {
            let e = create_error(
                503,
                "Query auditing is enabled but the audit record could not be written; the query was not executed",
                "query_audit_error",
            );
            Some((QueryState::Answered, fail(None, e)))
        },
        (
            QueryState::Executing { max_rows, kind, recorded },
            QueryEvent::Executed(result),
        ) => match result {
            Ok(rows) => {
                let truncated = kind == StatementKind::Query && rows > max_rows;
                let kept: usize = if truncated {
                    max_rows
                } else {
                    rows
                };
                let keep = if truncated {
                    Some(max_rows)
                } else {
                    None
                };
                Some(
                    (
                        QueryState::Converting { rows: kept, truncated, recorded },
                        QueryAction::Convert { keep },
                    ),
                )
            },
            Err(error) => {
                let e = create_error(
                    500,
                    "SQL query execution failed; see server logs for details",
                    "query_execution_error",
                );
                let outcome = outcome(recorded, QueryAuditStatus::Failed, None, Some(error));
                Some((QueryState::Answered, fail(outcome, e)))
            },
        },
        (
            QueryState::Converting { rows, truncated, recorded },
            QueryEvent::Converted(result),
        ) => match result {
            Ok(_) => {
                let outcome = outcome(recorded, QueryAuditStatus::Succeeded, Some(rows), None);
                Some(
                    (
                        QueryState::Answered,
                        QueryAction::Answer {
                            metric: Metric::Success,
                            outcome,
                            reply: Ok((rows, truncated)),
                        },
                    ),
                )
            },
            Err(error) => {
                let e = create_error(
                    500,
                    "Failed to convert query results to JSON; see server logs for details",
                    "result_conversion_error",
                );
                let reason = concat2("result conversion failed: ", error.as_str());
                let outcome = outcome(
                    recorded,
                    QueryAuditStatus::Failed,
                    Some(rows),
                    Some(reason),
                );
                Some((QueryState::Answered, fail(outcome, e)))
            },
        },
        _ => None,
    }
}

/// The states that a request can be in after these events.
pub open spec fn reached<'a>(start: QueryState<'a>, events: Seq<QueryEvent>) -> Option<
    QueryState<'a>,
>
    decreases events.len(),
{
    if events.len() == 0 {
        Some(start)
    } else {
        match reached(start, events.drop_last()) {
            Some(state) => match stepped(state, events.last()) {
                Some((next, _)) => Some(next),
                None => None,
            },
            None => None,
        }
    }
}

/// Whether a state may only be reached with a written record, where there is a
/// ledger.
pub open spec fn accounted_for<'a>(state: QueryState<'a>, auditing: bool) -> bool {
    match state {
        QueryState::Validating { auditing: on, .. } => on == auditing,
        QueryState::Recording { .. } => auditing,
        QueryState::Executing { recorded, .. } => recorded == auditing,
        QueryState::Converting { recorded, .. } => recorded == auditing,
        QueryState::Answered => true,
    }
}

/// With a ledger, a statement is executed only once its record is written:
/// whenever a request stands at execution or behind it, it is recorded.
pub proof fn nothing_executes_unrecorded(
    request: &QueryRequest,
    auditing: bool,
    events: Seq<QueryEvent>,
)
    requires
        reached(begun(request, auditing).0, events) is Some,
    ensures
        accounted_for(reached(begun(request, auditing).0, events)->0, auditing),
    decreases events.len(),
{
    if events.len() > 0 {
        nothing_executes_unrecorded(request, auditing, events.drop_last());
    }
}

/// A statement that cannot be recorded is not executed: the request is
/// answered at once.
pub proof fn an_unwritten_record_stops_the_request(
    request: &QueryRequest,
    max_rows: usize,
    kind: StatementKind,
)
    ensures
        stepped(
            QueryState::Recording { request, max_rows, kind },
            QueryEvent::Recorded(false),
        ) matches Some((state, action)) && state == QueryState::Answered && action is Answer
            && action->reply is Err,
{
}

/// A refused statement leaves no record: the request goes from validation to
/// its answer.
pub proof fn refused_statements_are_not_recorded(
    request: &QueryRequest,
    max_rows: usize,
    auditing: bool,
    message: String,
    rejection: SqlRejection,
)
    ensures
        stepped(
            QueryState::Validating { request, max_rows, auditing },
            QueryEvent::Validated(Err((message, rejection))),
        ) matches Some((state, action)) && state == QueryState::Answered && action is Answer
            && action->outcome is None && action->reply is Err,
{
}

/// A query's answer holds at most the cap of rows, and says truncated exactly
/// when the engine gave more; then it holds the cap.
pub proof fn answers_keep_to_the_cap(max_rows: usize, rows: usize, recorded: bool)
    ensures
        ({
            let executing = QueryState::Executing {
                max_rows,
                kind: StatementKind::Query,
                recorded,
            };
            stepped(executing, QueryEvent::Executed(Ok(rows))) matches Some((state, action))
                && (state matches QueryState::Converting { rows: kept, truncated, .. } && {
                &&& kept <= max_rows
                &&& truncated <==> rows > max_rows
                &&& kept == (if truncated {
                    max_rows
                } else {
                    rows
                })
                &&& action == (ActionView::Convert {
                    keep: if truncated {
                        Some(max_rows)
                    } else {
                        None
                    },
                })
            })
        }),
{
}

/// What the engine says when it fails goes to the ledger and not to the
/// client: the reply is the same whatever the error.
pub proof fn engine_errors_are_not_shown(state: QueryState, error: String, other: String)
    requires
        state is Executing,
    ensures
        stepped(state, QueryEvent::Executed(Err(error))) matches Some((_, action)) && (stepped(
            state,
            QueryEvent::Executed(Err(other)),
        ) matches Some((_, other_action)) && action is Answer && other_action is Answer
            && action->reply == other_action->reply),
{
}

/// Whether a state is on the way of a request.
pub open spec fn serves<'a>(state: QueryState<'a>, request: &QueryRequest) -> bool {
    match state {
        QueryState::Validating { request: own, max_rows, .. } => own == request && max_rows
            == row_cap(request@),
        QueryState::Recording { request: own, max_rows, .. } => own == request && max_rows
            == row_cap(request@),
        QueryState::Executing { max_rows, .. } => max_rows == row_cap(request@),
        _ => true,
    }
}

/// The row cap of a request.
pub open spec fn row_cap(request: RequestView) -> usize {
    match request.max_rows {
        Some(n) => n,
        None => DEFAULT_MAX_ROWS,
    }
}

/// Whether what an action names is what the request says.
pub open spec fn acts_for(action: ActionView, request: RequestView) -> bool {
    match action {
        ActionView::Validate { sql } => sql == request.sql,
        ActionView::Record { sql, ai_context, max_rows, .. } => sql == request.sql && ai_context
            == request.ai_context && max_rows == row_cap(request),
        ActionView::Execute { sql, .. } => sql == request.sql,
        _ => true,
    }
}

/// Whether an action, if it answers, counts the request: a success as one, and
/// a failure under the type that the reply gives.
pub open spec fn counted(action: ActionView) -> bool {
    match action {
        ActionView::Answer { metric, reply, .. } => match reply {
            Ok(_) => metric == MetricView::Success,
            Err(e) => metric == (MetricView::Failure { error_type: e.error_type }),
        },
        _ => true,
    }
}

proof fn requests_stay(request: &QueryRequest, auditing: bool, events: Seq<QueryEvent>)
    requires
        reached(begun(request, auditing).0, events) is Some,
    ensures
        serves(reached(begun(request, auditing).0, events)->0, request),
    decreases events.len(),
{
    if events.len() > 0 {
        requests_stay(request, auditing, events.drop_last());
    }
}

/// Whatever happens on the way, the statement that is validated, recorded and
/// executed is that of the request, the record holds the context and the cap of
/// the request, and every answer is counted.
pub proof fn what_is_asked_is_what_is_done(
    request: &QueryRequest,
    auditing: bool,
    events: Seq<QueryEvent>,
    event: QueryEvent,
)
    requires
        reached(begun(request, auditing).0, events) is Some,
    ensures
        acts_for(begun(request, auditing).1, request@),
        counted(begun(request, auditing).1),
        stepped(reached(begun(request, auditing).0, events)->0, event) matches Some(
            (_, action),
        ) ==> acts_for(action, request@) && counted(action),
{
    requests_stay(request, auditing, events);
}

} // verus!
