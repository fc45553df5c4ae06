//! Records of the query audit ledger.
//!
//! A record is committed before its statement runs and stamped with the
//! outcome afterwards, so that nothing executes unrecorded.
use vstd::prelude::*;

use crate::json;
use crate::json::{get_member, set_member, Json, JsonView, Number, NumberView};
use crate::json_text;
use crate::text;
use crate::text::concat3;

verus! {

/// Outcome of an audited statement. A record that is still `Started` after a
/// restart belongs to a statement that was killed, and becomes `Unknown`.
#[derive(Debug, Clone, Copy, PartialEq, Eq, Structural)]
pub enum QueryAuditStatus {
    Started,
    Succeeded,
    Failed,
    Unknown,
}

/// How a status is written in the ledger.
pub open spec fn status_text(status: QueryAuditStatus) -> Seq<char> {
    match status {
        QueryAuditStatus::Started => "started"@,
        QueryAuditStatus::Succeeded => "succeeded"@,
        QueryAuditStatus::Failed => "failed"@,
        QueryAuditStatus::Unknown => "unknown"@,
    }
}

impl QueryAuditStatus {
    /// How the status is written in the ledger.
    pub fn as_str(&self) -> (r: &'static str)
        ensures
            r@ == status_text(*self),
    {
        match self {
            QueryAuditStatus::Started => "started",
            QueryAuditStatus::Succeeded => "succeeded",
            QueryAuditStatus::Failed => "failed",
            QueryAuditStatus::Unknown => "unknown",
        }
    }
}

/// Different statuses are written differently.
pub proof fn statuses_are_told_apart(a: QueryAuditStatus, b: QueryAuditStatus)
    requires
        status_text(a) == status_text(b),
    ensures
        a == b,
{
    reveal_strlit("started");
    reveal_strlit("succeeded");
    reveal_strlit("failed");
    reveal_strlit("unknown");
    assert("started"@.len() == 7 && "succeeded"@.len() == 9);
    assert("failed"@.len() == 6 && "unknown"@.len() == 7);
    assert("started"@[0] == 's' && "unknown"@[0] == 'u');
}

/// The record that is committed before a statement runs.
#[derive(Debug)]
pub struct StartedRecord {
    pub id: String,
    pub created_at: String,
    pub sql: String,
    /// The caller's context as JSON text.
    pub ai_context: Option<String>,
    /// The context's session, kept apart so that it can be looked up.
    pub session_id: Option<String>,
    pub max_rows: i64,
    pub statement_kind: String,
    pub status: &'static str,
}

/// The model of a [`StartedRecord`].
pub struct StartedView {
    pub id: Seq<char>,
    pub created_at: Seq<char>,
    pub sql: Seq<char>,
    pub ai_context: Option<Seq<char>>,
    pub session_id: Option<Seq<char>>,
    pub max_rows: int,
    pub statement_kind: Seq<char>,
    pub status: Seq<char>,
}

/// The model of an optional string.
pub open spec fn optional(s: Option<String>) -> Option<Seq<char>> {
    match s {
        Some(s) => Some(s@),
        None => None,
    }
}

impl View for StartedRecord {
    type V = StartedView;

    open spec fn view(&self) -> StartedView {
        StartedView {
            id: self.id@,
            created_at: self.created_at@,
            sql: self.sql@,
            ai_context: optional(self.ai_context),
            session_id: optional(self.session_id),
            max_rows: self.max_rows as int,
            statement_kind: self.statement_kind@,
            status: self.status@,
        }
    }
}

/// The session that a context names, if it names one.
pub open spec fn session_of(context: Option<JsonView>) -> Option<Seq<char>> {
    match context {
        Some(JsonView::Object(members)) => if members.contains_key("session_id"@) {
            match members["session_id"@] {
                JsonView::String(s) => Some(s),
                _ => None,
            }
        } else {
            None
        },
        _ => None,
    }
}

/// A count as the ledger's signed column holds it.
pub open spec fn signed_count(n: usize) -> int {
    if n <= i64::MAX {
        n as int
    } else {
        n - 0x1_0000_0000_0000_0000
    }
}

/// The model of an optional document.
pub open spec fn context_view(context: Option<&Json>) -> Option<JsonView> {
    match context {
        Some(context) => Some(context@),
        None => None,
    }
}

/// The record that is committed before a statement runs.
pub open spec fn started_of(
    id: Seq<char>,
    created_at: Seq<char>,
    sql: Seq<char>,
    context: Option<JsonView>,
    max_rows: usize,
    statement_kind: Seq<char>,
) -> StartedView {
    StartedView {
        id,
        created_at,
        sql,
        ai_context: match context {
            Some(context) => Some(json_text::json_text(context)),
            None => None,
        },
        session_id: session_of(context),
        max_rows: signed_count(max_rows),
        statement_kind,
        status: status_text(QueryAuditStatus::Started),
    }
}

/// The session that a context names, if it names one.
pub fn session_id(context: Option<&Json>) -> (r: Option<String>)
    ensures
        optional(r) == session_of(context_view(context)),
{
    match context {
        Some(Json::Object(members)) => match get_member(members, "session_id") {
            Some(Json::String(s)) => Some(s.clone()),
            _ => None,
        },
        _ => None,
    }
}

/// A count as the ledger's signed column holds it.
pub fn ledger_count(n: usize) -> (r: i64)
    ensures
        r == signed_count(n),
{
    let wide: u64 = n as u64;
    assert(wide <= 0x7fff_ffff_ffff_ffff ==> (wide as i64) == wide) by (bit_vector);
    assert(wide > 0x7fff_ffff_ffff_ffff ==> (wide as i64) == wide - 0x1_0000_0000_0000_0000)
        by (bit_vector);
    #[verifier::truncate]
    (wide as i64)
}

/// The record that is committed before a statement runs.
pub fn started_record(
    id: String,
    created_at: String,
    sql: &str,
    ai_context: Option<&Json>,
    max_rows: usize,
    statement_kind: &str,
) -> (r: StartedRecord)
    ensures
        r@ == started_of(
            id@,
            created_at@,
            sql@,
            context_view(ai_context),
            max_rows,
            statement_kind@,
        ),
{
    let context_text = match ai_context {
        Some(context) => Some(json_text::to_text(context)),
        None => None,
    };
    StartedRecord {
        id,
        created_at,
        sql: sql.to_owned(),
        ai_context: context_text,
        session_id: session_id(ai_context),
        max_rows: ledger_count(max_rows),
        statement_kind: statement_kind.to_owned(),
        status: QueryAuditStatus::Started.as_str(),
    }
}

/// What a record is updated with once its statement has ended.
#[derive(Debug)]
pub struct OutcomeRecord {
    pub id: String,
    pub status: &'static str,
    pub finished_at: String,
    pub row_count: Option<i64>,
    pub error: Option<String>,
}

/// What a record is updated with once its statement has ended.
pub fn outcome_record(
    id: &str,
    status: QueryAuditStatus,
    finished_at: String,
    row_count: Option<usize>,
    error: Option<&str>,
) -> (r: OutcomeRecord)
    ensures
        r.id@ == id@,
        r.status@ == status_text(status),
        r.finished_at == finished_at,
        match row_count {
            Some(n) => r.row_count is Some && r.row_count->0 == signed_count(n),
            None => r.row_count is None,
        },
        optional(r.error) == text::optional(error),
{
    OutcomeRecord {
        id: id.to_owned(),
        status: status.as_str(),
        finished_at,
        row_count: match row_count {
            Some(n) => Some(ledger_count(n)),
            None => None,
        },
        error: match error {
            Some(error) => Some(error.to_owned()),
            None => None,
        },
    }
}

/// A record as the ledger holds it. The context is the document that its text
/// stands for, where it stands for one.
#[derive(Debug)]
pub struct AuditRow {
    pub id: String,
    pub created_at: String,
    pub finished_at: Option<String>,
    pub sql: String,
    pub ai_context: Option<Json>,
    pub session_id: Option<String>,
    pub max_rows: i64,
    pub statement_kind: String,
    pub status: String,
    pub row_count: Option<i64>,
    pub error: Option<String>,
}

/// A string, or null where there is none.
pub open spec fn text_or_null(s: Option<String>) -> JsonView {
    match s {
        Some(s) => JsonView::String(s@),
        None => JsonView::Null,
    }
}

/// A signed integer.
pub open spec fn signed_integer(n: i64) -> JsonView {
    JsonView::Number(
        if n < 0 {
            NumberView::NegInt(n)
        } else {
            NumberView::PosInt(n as u64)
        },
    )
}

/// A record as a document.
pub open spec fn row_document(row: AuditRow) -> JsonView {
    JsonView::Object(
        json::no_members().insert("id"@, JsonView::String(row.id@)).insert(
            "created_at"@,
            JsonView::String(row.created_at@),
        ).insert("finished_at"@, text_or_null(row.finished_at)).insert(
            "sql"@,
            JsonView::String(row.sql@),
        ).insert(
            "ai_context"@,
            match row.ai_context {
                Some(context) => context@,
                None => JsonView::Null,
            },
        ).insert("session_id"@, text_or_null(row.session_id)).insert(
            "max_rows"@,
            signed_integer(row.max_rows),
        ).insert("statement_kind"@, JsonView::String(row.statement_kind@)).insert(
            "status"@,
            JsonView::String(row.status@),
        ).insert(
            "row_count"@,
            match row.row_count {
                Some(n) => signed_integer(n),
                None => JsonView::Null,
            },
        ).insert("error"@, text_or_null(row.error)),
    )
}

fn nullable(s: Option<String>) -> (r: Json)
    ensures
        r@ == text_or_null(s),
{
    match s {
        Some(s) => Json::String(s),
        None => Json::Null,
    }
}

impl AuditRow {
    /// The record as a document.
    pub fn into_json(self) -> (r: Json)
        ensures
            r@ == row_document(self),
    {
        let mut members: Vec<(String, Json)> = Vec::new();
        set_member(&mut members, "id".to_owned(), Json::String(self.id));
        set_member(&mut members, "created_at".to_owned(), Json::String(self.created_at));
        set_member(&mut members, "finished_at".to_owned(), nullable(self.finished_at));
        set_member(&mut members, "sql".to_owned(), Json::String(self.sql));
        let context = match self.ai_context {
            Some(context) => context,
            None => Json::Null,
        };
        set_member(&mut members, "ai_context".to_owned(), context);
        set_member(&mut members, "session_id".to_owned(), nullable(self.session_id));
        let max_rows = Json::Number(Number::NegInt(self.max_rows));
        set_member(&mut members, "max_rows".to_owned(), max_rows);
        set_member(&mut members, "statement_kind".to_owned(), Json::String(self.statement_kind));
        set_member(&mut members, "status".to_owned(), Json::String(self.status));
        let row_count = match self.row_count {
            Some(n) => Json::Number(Number::NegInt(n)),
            None => Json::Null,
        };
        set_member(&mut members, "row_count".to_owned(), row_count);
        set_member(&mut members, "error".to_owned(), nullable(self.error));
        Json::Object(members)
    }
}

/// The lower-case hexadecimal digit of a number below sixteen.
pub open spec fn hex_digit(d: nat) -> char {
    if d < 10 {
        (48 + d) as char
    } else {
        (87 + d) as char
    }
}

/// A number in lower-case hexadecimal, without leading zeros.
pub open spec fn hex(n: nat) -> Seq<char>
    decreases n,
{
    if n < 16 {
        seq![hex_digit(n)]
    } else {
        hex(n / 16).push(hex_digit(n % 16))
    }
}

/// The id of a record: the time in nanoseconds, which orders records, and a
/// counter, which tells apart those of one nanosecond.
pub open spec fn id_text(nanos: u128, seq: u64) -> Seq<char> {
    hex(nanos as nat) + "-"@ + hex(seq as nat)
}

fn hex_digit_of(d: u128) -> (c: char)
    requires
        d < 16,
    ensures
        c == hex_digit(d as nat),
{
    if d < 10 {
        (48u8 + d as u8) as char
    } else {
        (87u8 + d as u8) as char
    }
}

fn hex_text(n: u128) -> (s: String)
    ensures
        s@ == hex(n as nat),
    decreases n,
{
    if n < 16 {
        let mut s = String::new();
        s.push(hex_digit_of(n));
        s
    } else {
        let mut s = hex_text(n / 16);
        s.push(hex_digit_of(n % 16));
        s
    }
}

/// The id of a record.
pub fn new_id(nanos: u128, seq: u64) -> (id: String)
    ensures
        id@ == id_text(nanos, seq),
{
    concat3(hex_text(nanos).as_str(), "-", hex_text(seq as u128).as_str())
}

proof fn hex_has_no_dash(n: nat)
    ensures
        hex(n).len() > 0,
        !hex(n).contains('-'),
    decreases n,
{
    if n < 16 {
        assert(hex(n)[0] == hex_digit(n));
    } else {
        hex_has_no_dash(n / 16);
        let front = hex(n / 16);
        assert forall|k: int| 0 <= k < hex(n).len() implies hex(n)[k] != '-' by {
            if k < front.len() {
                assert(front[k] != '-');
            } else {
                assert(hex(n)[k] == hex_digit(n % 16));
            }
        }
    }
}

proof fn hex_tells_apart(a: nat, b: nat)
    requires
        hex(a) == hex(b),
    ensures
        a == b,
    decreases a,
{
    hex_has_no_dash(a / 16);
    hex_has_no_dash(b / 16);
    if a < 16 || b < 16 {
        if a < 16 && b < 16 {
            assert(hex(a)[0] == hex_digit(a) && hex(b)[0] == hex_digit(b));
        } else {
            assert(hex(a).len() != hex(b).len());
        }
    } else {
        assert(hex(a).drop_last() =~= hex(a / 16));
        assert(hex(b).drop_last() =~= hex(b / 16));
        hex_tells_apart(a / 16, b / 16);
        assert(hex(a).last() == hex_digit(a % 16) && hex(b).last() == hex_digit(b % 16));
    }
}

/// Records of different times or counters have different ids.
pub proof fn ids_are_unique(nanos: u128, seq: u64, other_nanos: u128, other_seq: u64)
    requires
        id_text(nanos, seq) == id_text(other_nanos, other_seq),
    ensures
        nanos == other_nanos,
        seq == other_seq,
{
    reveal_strlit("-");
    let a = hex(nanos as nat);
    let b = hex(other_nanos as nat);
    let id = id_text(nanos, seq);
    let other = id_text(other_nanos, other_seq);
    hex_has_no_dash(nanos as nat);
    hex_has_no_dash(other_nanos as nat);
    assert(id[a.len() as int] == '-' && other[b.len() as int] == '-');
    if a.len() < b.len() {
        assert(other[a.len() as int] == b[a.len() as int]);
        assert(b.contains('-'));
    }
    if b.len() < a.len() {
        assert(id[b.len() as int] == a[b.len() as int]);
        assert(a.contains('-'));
    }
    assert(a =~= id.take(a.len() as int));
    assert(b =~= other.take(b.len() as int));
    assert(hex(seq as nat) =~= id.skip(a.len() as int + 1));
    assert(hex(other_seq as nat) =~= other.skip(b.len() as int + 1));
    hex_tells_apart(nanos as nat, other_nanos as nat);
    hex_tells_apart(seq as nat, other_seq as nat);
}

} // verus!
