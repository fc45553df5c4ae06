//! How ad-hoc queries are answered and recorded.
use vstd::prelude::*;

use crate::json::JsonView;
use crate::json_text;
use crate::laws::conversion;
use crate::laws::replies;
use crate::server::pipeline_handlers::MetricView;
use crate::server::query_audit;
use crate::server::query_audit::{AuditRow, QueryAuditStatus};
use crate::server::query_handlers;
use crate::server::query_handlers::{
    ActionView, OutcomeView, QueryEvent, QueryRequest, QueryState, SqlRejection, StatementKind,
};
use crate::text;

verus! {

/// Whether a field of a context is a text that is not empty and not too long.
pub open spec fn proper_field(field: Option<JsonView>, max_chars: nat) -> bool {
    field matches Some(JsonView::String(s)) && 0 < s.len() <= max_chars
}

/// Whether what a caller says about a query is proper: an object of at most 4096
/// bytes with a purpose of at most 2000 characters and a session of at most 200,
/// neither empty.
pub open spec fn proper_context(context: JsonView) -> bool {
    context matches JsonView::Object(members) && {
        &&& vstd::utf8::encode_utf8(json_text::json_text(context)).len() <= 4096
        &&& members.contains_key("purpose"@) && proper_field(Some(members["purpose"@]), 2000)
        &&& members.contains_key("session_id"@) && proper_field(Some(members["session_id"@]), 200)
    }
}

/// A query is validated exactly where its cap is not zero and what the caller says
/// about it, if anything, is proper; otherwise it is answered at once with 400 and
/// counted as that failure, and nothing is recorded.
pub proof fn proper_requests_are_validated(request: &QueryRequest, auditing: bool)
    ensures
        ({
            let proper = request@.max_rows != Some(0usize) && (request@.ai_context matches Some(
                context,
            ) ==> proper_context(context));
            if proper {
                query_handlers::begun(request, auditing) matches (
                    QueryState::Validating { request: own, max_rows, auditing: on },
                    ActionView::Validate { sql },
                ) && own == request && on == auditing && sql == request@.sql && max_rows == (
                match request@.max_rows {
                    Some(n) => n,
                    None => 1000usize,
                })
            } else {
                query_handlers::begun(request, auditing) matches (
                    QueryState::Answered,
                    ActionView::Answer {
                        metric: MetricView::Failure { error_type },
                        outcome: None,
                        reply: Err(e),
                    },
                ) && e.status == 400 && e.error_type == "parameter_validation_error"@ && error_type
                    == e.error_type && e.details is None
            }
        }),
{
}

/// What is said of an improper context tells what is wrong with it.
pub proof fn improper_contexts_are_told(
    name: Seq<char>,
    max_chars: usize,
    s: Seq<char>,
    field: Option<JsonView>,
)
    requires
        !(field matches Some(JsonView::String(_))),
    ensures
        query_handlers::context_string_problem(field, name, max_chars) == Some(
            "ai_context."@ + name + " is required and must be a non-empty string"@,
        ),
        s.len() == 0 ==> query_handlers::context_string_problem(
            Some(JsonView::String(s)),
            name,
            max_chars,
        ) == Some("ai_context."@ + name + " must not be empty"@),
        s.len() > max_chars && s.len() > 0 ==> query_handlers::context_string_problem(
            Some(JsonView::String(s)),
            name,
            max_chars,
        ) == Some(
            "ai_context."@ + name + " must be at most "@ + text::decimal(max_chars as nat)
                + " characters"@,
        ),
        0 < s.len() <= max_chars ==> query_handlers::context_string_problem(
            Some(JsonView::String(s)),
            name,
            max_chars,
        ) is None,
{
}

/// The way of a query that nothing goes wrong with: it is validated, recorded where
/// there is a ledger, executed and converted. One row more than the cap is fetched,
/// so that more rows than the cap are noticed; the answer holds at most the cap, says
/// whether there were more, is counted as a success, and the ledger is told the
/// number of rows that were returned.
pub proof fn queries_are_answered(request: &QueryRequest, auditing: bool, rows: usize)
    requires
        query_handlers::begun(request, auditing).0 is Validating,
        query_handlers::row_cap(request@) < i64::MAX,
        query_handlers::row_cap(request@) < usize::MAX,
    ensures
        ({
            let cap = query_handlers::row_cap(request@);
            let start = query_handlers::begun(request, auditing).0;
            let validated = query_handlers::stepped(
                start,
                QueryEvent::Validated(Ok(StatementKind::Query)),
            );
            let executing = QueryState::Executing {
                max_rows: cap,
                kind: StatementKind::Query,
                recorded: auditing,
            };
            let execute = ActionView::Execute { sql: request@.sql, fetch: Some((cap + 1) as usize) };
            let kept = if rows > cap {
                cap
            } else {
                rows
            };
            &&& if auditing {
                validated matches Some((state, record)) && record == (ActionView::Record {
                    sql: request@.sql,
                    ai_context: request@.ai_context,
                    max_rows: cap,
                    kind: StatementKind::Query,
                }) && query_handlers::stepped(state, QueryEvent::Recorded(true)) == Some(
                    (executing, execute),
                )
            } else {
                validated == Some((executing, execute))
            }
            &&& query_handlers::stepped(executing, QueryEvent::Executed(Ok(rows))) matches Some(
                (converting, convert),
            ) && convert == (ActionView::Convert {
                keep: if rows > cap {
                    Some(cap)
                } else {
                    None
                },
            }) && query_handlers::stepped(converting, QueryEvent::Converted(Ok(()))) == Some(
                (
                    QueryState::Answered,
                    ActionView::Answer {
                        metric: MetricView::Success,
                        outcome: if auditing {
                            Some(
                                OutcomeView {
                                    status: QueryAuditStatus::Succeeded,
                                    row_count: Some(kept),
                                    error: None,
                                },
                            )
                        } else {
                            None
                        },
                        reply: Ok((kept, rows > cap)),
                    },
                ),
            )
        }),
{
}

/// A statement that is no query is executed without a limit and all that it gives is
/// kept.
pub proof fn other_statements_are_not_capped(
    request: &QueryRequest,
    max_rows: usize,
    rows: usize,
    recorded: bool,
)
    ensures
        query_handlers::stepped(
            QueryState::Validating { request, max_rows, auditing: false },
            QueryEvent::Validated(Ok(StatementKind::Other)),
        ) == Some(
            (
                QueryState::Executing { max_rows, kind: StatementKind::Other, recorded: false },
                ActionView::Execute { sql: request@.sql, fetch: None },
            ),
        ),
        query_handlers::stepped(
            QueryState::Executing { max_rows, kind: StatementKind::Other, recorded },
            QueryEvent::Executed(Ok(rows)),
        ) == Some(
            (
                QueryState::Converting { rows, truncated: false, recorded },
                ActionView::Convert { keep: None },
            ),
        ),
{
}

/// A cap that is as large as the engine's own largest limit, or larger, is asked for
/// as that limit.
pub proof fn large_caps_are_bounded(max_rows: usize)
    ensures
        query_handlers::fetch_limit(max_rows) <= i64::MAX,
        max_rows < i64::MAX && max_rows < usize::MAX ==> query_handlers::fetch_limit(max_rows)
            == max_rows + 1,
        max_rows >= i64::MAX ==> query_handlers::fetch_limit(max_rows) == i64::MAX,
{
}

/// What goes wrong behind the validation is answered with 500 or, where the record
/// could not be written, 503, without details; the ledger, where there is one, is
/// told of the failure and the engine's words.
pub proof fn failures_are_recorded(
    request: &QueryRequest,
    max_rows: usize,
    kind: StatementKind,
    rows: usize,
    truncated: bool,
    recorded: bool,
    error: String,
)
    ensures
        query_handlers::stepped(
            QueryState::Executing { max_rows, kind, recorded },
            QueryEvent::Executed(Err(error)),
        ) matches Some(
            (
                QueryState::Answered,
                ActionView::Answer { metric: MetricView::Failure { error_type }, outcome, reply: Err(e) },
            ),
        ) && e.status == 500 && e.error_type == "query_execution_error"@ && error_type
            == e.error_type && e.details is None && outcome == (if recorded {
            Some(
                OutcomeView {
                    status: QueryAuditStatus::Failed,
                    row_count: None,
                    error: Some(error@),
                },
            )
        } else {
            None
        }),
        query_handlers::stepped(
            QueryState::Converting { rows, truncated, recorded },
            QueryEvent::Converted(Err(error)),
        ) matches Some(
            (
                QueryState::Answered,
                ActionView::Answer { metric: MetricView::Failure { error_type }, outcome, reply: Err(e) },
            ),
        ) && e.status == 500 && e.error_type == "result_conversion_error"@ && error_type
            == e.error_type && e.details is None && outcome == (if recorded {
            Some(
                OutcomeView {
                    status: QueryAuditStatus::Failed,
                    row_count: Some(rows),
                    error: Some("result conversion failed: "@ + error@),
                },
            )
        } else {
            None
        }),
        query_handlers::stepped(
            QueryState::Recording { request, max_rows, kind },
            QueryEvent::Recorded(false),
        ) matches Some(
            (
                QueryState::Answered,
                ActionView::Answer {
                    metric: MetricView::Failure { error_type },
                    outcome: None,
                    reply: Err(e),
                },
            ),
        ) && e.status == 503 && e.error_type == "query_audit_error"@ && error_type == e.error_type
            && e.details is None,
{
}

/// A statement that is refused is answered with 400, the words of the refusal, and what
/// was wrong: the operation, the table, the schema or the number of statements.
pub proof fn refusals_tell_what_is_wrong(
    request: &QueryRequest,
    max_rows: usize,
    auditing: bool,
    message: String,
    rejection: SqlRejection,
)
    ensures
        query_handlers::stepped(
            QueryState::Validating { request, max_rows, auditing },
            QueryEvent::Validated(Err((message, rejection))),
        ) matches Some(
            (
                QueryState::Answered,
                ActionView::Answer {
                    metric: MetricView::Failure { error_type },
                    outcome: None,
                    reply: Err(e),
                },
            ),
        ) && e.status == 400 && e.error_type == "sql_validation_error"@ && error_type == e.error_type
            && e.message == message@ && match rejection {
            SqlRejection::DdlNotAllowed { operation } => e.details matches Some(details)
                && replies::holds(details, "operation"@, JsonView::String(operation@)),
            SqlRejection::WriteNotAllowed { operation, table } => e.details matches Some(details)
                && replies::holds(details, "operation"@, JsonView::String(operation@))
                && replies::holds(details, "table"@, JsonView::String(table@)),
            SqlRejection::NotExactlyOneStatement { count } => e.details matches Some(details)
                && replies::holds(details, "statement_count"@, replies::count(count as int)),
            SqlRejection::SchemaNotAllowed { schema, table } => e.details matches Some(details)
                && replies::holds(details, "schema"@, JsonView::String(schema@)) && replies::holds(
                details,
                "table"@,
                JsonView::String(table@),
            ),
            SqlRejection::StatementNotAllowed => e.details is None,
            SqlRejection::ParseError => e.details is None,
        },
{
    reveal_strlit("operation");
    reveal_strlit("table");
    reveal_strlit("statement_count");
    reveal_strlit("schema");
    assert("operation"@.len() == 9);
    assert("table"@.len() == 5);
    assert("statement_count"@.len() == 15);
    assert("schema"@.len() == 6);
}

/// The record of a query holds its ID, its time, its statement, what the caller said as
/// text, the session that it names, the cap and the kind, and says that it has
/// started.
pub proof fn records_hold_what_was_asked(
    id: Seq<char>,
    created_at: Seq<char>,
    sql: Seq<char>,
    context: Option<JsonView>,
    max_rows: usize,
    kind: Seq<char>,
)
    ensures
        query_audit::started_of(id, created_at, sql, context, max_rows, kind).id == id,
        query_audit::started_of(id, created_at, sql, context, max_rows, kind).created_at == created_at,
        query_audit::started_of(id, created_at, sql, context, max_rows, kind).sql == sql,
        match context {
            Some(said) => query_audit::started_of(
                id,
                created_at,
                sql,
                context,
                max_rows,
                kind,
            ).ai_context == Some(json_text::json_text(said)),
            None => query_audit::started_of(
                id,
                created_at,
                sql,
                context,
                max_rows,
                kind,
            ).ai_context is None,
        },
        context matches Some(JsonView::Object(members)) && members.contains_key("session_id"@)
            && members["session_id"@] is String ==> query_audit::started_of(
            id,
            created_at,
            sql,
            context,
            max_rows,
            kind,
        ).session_id == Some(context->0->Object_0["session_id"@]->String_0),
        !(context matches Some(JsonView::Object(members)) && members.contains_key("session_id"@)
            && members["session_id"@] is String) ==> query_audit::started_of(
            id,
            created_at,
            sql,
            context,
            max_rows,
            kind,
        ).session_id is None,
        max_rows <= i64::MAX ==> query_audit::started_of(
            id,
            created_at,
            sql,
            context,
            max_rows,
            kind,
        ).max_rows == max_rows,
        query_audit::started_of(id, created_at, sql, context, max_rows, kind).statement_kind == kind,
        query_audit::started_of(id, created_at, sql, context, max_rows, kind).status == seq![
            's',
            't',
            'a',
            'r',
            't',
            'e',
            'd',
        ],
{
    reveal_strlit("started");
    assert("started"@ =~= seq!['s', 't', 'a', 'r', 't', 'e', 'd']);
}

/// Counts are kept as they are, and the few that a signed number cannot hold wrap
/// around; different counts stay different.
pub proof fn counts_stay_different(a: usize, b: usize)
    ensures
        a <= i64::MAX ==> query_audit::signed_count(a) == a,
        i64::MIN <= query_audit::signed_count(a) <= i64::MAX,
        query_audit::signed_count(a) == query_audit::signed_count(b) ==> a == b,
{
}

/// What a ledger shows of a record is what it holds, under the name of each part; what
/// is not there is null.
pub proof fn ledger_rows_are_shown_as_they_are(row: AuditRow)
    ensures
        replies::holds(query_audit::row_document(row), "id"@, JsonView::String(row.id@)),
        replies::holds(query_audit::row_document(row), "created_at"@, JsonView::String(row.created_at@)),
        replies::holds(
            query_audit::row_document(row),
            "finished_at"@,
            match row.finished_at {
                Some(s) => JsonView::String(s@),
                None => JsonView::Null,
            },
        ),
        replies::holds(query_audit::row_document(row), "sql"@, JsonView::String(row.sql@)),
        replies::holds(
            query_audit::row_document(row),
            "ai_context"@,
            match row.ai_context {
                Some(context) => context@,
                None => JsonView::Null,
            },
        ),
        replies::holds(
            query_audit::row_document(row),
            "session_id"@,
            match row.session_id {
                Some(s) => JsonView::String(s@),
                None => JsonView::Null,
            },
        ),
        replies::holds(
            query_audit::row_document(row),
            "max_rows"@,
            conversion::json_integer(row.max_rows as int),
        ),
        replies::holds(
            query_audit::row_document(row),
            "statement_kind"@,
            JsonView::String(row.statement_kind@),
        ),
        replies::holds(query_audit::row_document(row), "status"@, JsonView::String(row.status@)),
        replies::holds(
            query_audit::row_document(row),
            "row_count"@,
            match row.row_count {
                Some(n) => conversion::json_integer(n as int),
                None => JsonView::Null,
            },
        ),
        replies::holds(
            query_audit::row_document(row),
            "error"@,
            match row.error {
                Some(s) => JsonView::String(s@),
                None => JsonView::Null,
            },
        ),
{
    reveal_strlit("id");
    reveal_strlit("created_at");
    reveal_strlit("finished_at");
    reveal_strlit("sql");
    reveal_strlit("ai_context");
    reveal_strlit("session_id");
    reveal_strlit("max_rows");
    reveal_strlit("statement_kind");
    reveal_strlit("status");
    reveal_strlit("row_count");
    reveal_strlit("error");
    assert("id"@.len() == 2);
    assert("created_at"@.len() == 10);
    assert("finished_at"@.len() == 11);
    assert("sql"@.len() == 3);
    assert("ai_context"@.len() == 10);
    assert("session_id"@.len() == 10);
    assert("max_rows"@.len() == 8);
    assert("statement_kind"@.len() == 14);
    assert("status"@.len() == 6);
    assert("row_count"@.len() == 9);
    assert("error"@.len() == 5);
    assert("created_at"@[0] == 'c' && "ai_context"@[0] == 'a');
    assert("created_at"@[0] == 'c' && "session_id"@[0] == 's');
    assert("ai_context"@[0] == 'a' && "session_id"@[0] == 's');
}

/// The value of a hexadecimal digit.
pub open spec fn hex_digit_value(c: char) -> nat {
    if '0' <= c <= '9' {
        (c as int - '0' as int) as nat
    } else {
        (c as int - 'a' as int + 10) as nat
    }
}

/// The number that a row of hexadecimal digits spells.
pub open spec fn hex_value(s: Seq<char>) -> nat
    decreases s.len(),
{
    if s.len() == 0 {
        0
    } else {
        hex_value(s.drop_last()) * 16 + hex_digit_value(s.last())
    }
}

/// A number in hexadecimal is digits and small letters from which it is read back.
pub proof fn hexadecimal_reads_back(n: nat)
    ensures
        query_audit::hex(n).len() > 0,
        hex_value(query_audit::hex(n)) == n,
        forall|i: int|
            0 <= i < query_audit::hex(n).len() ==> '0' <= #[trigger] query_audit::hex(n)[i] <= '9'
                || 'a' <= query_audit::hex(n)[i] <= 'f',
    decreases n,
{
    let s = query_audit::hex(n);
    if n < 16 {
        assert(s.drop_last() =~= Seq::empty());
        assert(hex_value(s.drop_last()) == 0);
        assert(s.last() == query_audit::hex_digit(n));
        digit_reads_back(n);
    } else {
        hexadecimal_reads_back(n / 16);
        assert(s.drop_last() =~= query_audit::hex(n / 16));
        assert(s.last() == query_audit::hex_digit(n % 16));
        digit_reads_back(n % 16);
        assert forall|i: int| 0 <= i < s.len() implies '0' <= #[trigger] s[i] <= '9' || 'a' <= s[i]
            <= 'f' by {
            if i < s.len() - 1 {
                assert(s[i] == query_audit::hex(n / 16)[i]);
            }
        }
    }
}

proof fn digit_reads_back(d: nat)
    requires
        d < 16,
    ensures
        hex_digit_value(query_audit::hex_digit(d)) == d,
        '0' <= query_audit::hex_digit(d) <= '9' || 'a' <= query_audit::hex_digit(d) <= 'f',
{
}

/// The ID of a record is its time and its number, in hexadecimal, with a dash
/// between them.
pub proof fn ids_tell_time_and_number(nanos: u128, number: u64)
    ensures
        exists|front: Seq<char>, back: Seq<char>|
            query_audit::id_text(nanos, number) == #[trigger] (front + seq!['-'] + back) && hex_value(
                front,
            ) == nanos && hex_value(back) == number,
{
    reveal_strlit("-");
    assert("-"@ =~= seq!['-']);
    hexadecimal_reads_back(nanos as nat);
    hexadecimal_reads_back(number as nat);
    let front = query_audit::hex(nanos as nat);
    let back = query_audit::hex(number as nat);
    assert(query_audit::id_text(nanos, number) == front + seq!['-'] + back);
}

/// The words of every answer that is not the caller's own text: what is improper about a
/// request, and that the details of a failure stand in the logs.
pub proof fn answers_say_these_words(
    request: &QueryRequest,
    auditing: bool,
    max_rows: usize,
    kind: StatementKind,
    rows: usize,
    truncated: bool,
    recorded: bool,
    error: String,
    context: JsonView,
    members: Map<Seq<char>, JsonView>,
    bytes: nat,
)
    requires
        !(context is Object),
        bytes > 4096,
    ensures
        request@.max_rows == Some(0usize) ==> (query_handlers::begun(request, auditing).1 matches
            ActionView::Answer { reply: Err(e), .. } && e.message
            == "max_rows must be a positive integer"@),
        query_handlers::context_problem(Some(context)) == Some("ai_context must be a JSON object"@),
        query_handlers::context_fields_problem(members, bytes) == Some(
            "ai_context must serialize to at most 4096 bytes"@,
        ),
        query_handlers::context_problem(None) is None,
        query_handlers::stepped(
            QueryState::Recording { request, max_rows, kind },
            QueryEvent::Recorded(false),
        ) matches Some((_, ActionView::Answer { reply: Err(e), .. })) && e.message
            == "Query auditing is enabled but the audit record could not be written; the query was not executed"@,
        query_handlers::stepped(
            QueryState::Executing { max_rows, kind, recorded },
            QueryEvent::Executed(Err(error)),
        ) matches Some((_, ActionView::Answer { reply: Err(e), .. })) && e.message
            == "SQL query execution failed; see server logs for details"@,
        query_handlers::stepped(
            QueryState::Converting { rows, truncated, recorded },
            QueryEvent::Converted(Err(error)),
        ) matches Some((_, ActionView::Answer { reply: Err(e), .. })) && e.message
            == "Failed to convert query results to JSON; see server logs for details"@,
{
}

/// An improper request is told what is wrong with its context.
pub proof fn improper_requests_are_told(request: &QueryRequest, auditing: bool, problem: Seq<char>)
    requires
        request@.max_rows != Some(0usize),
        query_handlers::context_problem(request@.ai_context) == Some(problem),
    ensures
        query_handlers::begun(request, auditing).1 matches ActionView::Answer { reply: Err(e), .. }
            && e.message == problem,
{
}

/// The purpose is looked at before the session, each under its own name and with its
/// own limit.
pub proof fn context_fields_have_their_limits(members: Map<Seq<char>, JsonView>, bytes: nat)
    requires
        bytes <= 4096,
    ensures
        query_handlers::context_fields_problem(members, bytes) == match (
        query_handlers::context_string_problem(
            if members.contains_key("purpose"@) {
                Some(members["purpose"@])
            } else {
                None
            },
            "purpose"@,
            2000,
        )) {
            Some(problem) => Some(problem),
            None => query_handlers::context_string_problem(
                if members.contains_key("session_id"@) {
                    Some(members["session_id"@])
                } else {
                    None
                },
                "session_id"@,
                200,
            ),
        },
{
}

/// Statuses are written by their names.
pub proof fn statuses_go_by_their_names(status: QueryAuditStatus)
    ensures
        query_audit::status_text(status) == match status {
            QueryAuditStatus::Started => "started"@,
            QueryAuditStatus::Succeeded => "succeeded"@,
            QueryAuditStatus::Failed => "failed"@,
            QueryAuditStatus::Unknown => "unknown"@,
        },
{
}

/// An event is taken only by the state that waits for it, and a request that is answered
/// takes none.
pub proof fn events_are_taken_in_turn(state: QueryState, event: QueryEvent)
    ensures
        query_handlers::stepped(state, event) is Some <==> match event {
            QueryEvent::Validated(_) => state is Validating,
            QueryEvent::Recorded(_) => state is Recording,
            QueryEvent::Executed(_) => state is Executing,
            QueryEvent::Converted(_) => state is Converting,
        },
{
}

} // verus!
