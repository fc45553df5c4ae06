//! What calls give back, for every value that they may be given.
use vstd::prelude::*;

use crate::json::{Json, JsonView, Number};
use crate::json_text;
use crate::laws::access;
use crate::laws::connectors;
use crate::laws::packs;
use crate::laws::paths;
use crate::laws::registering;
use crate::laws::replies;
use crate::laws::sources as source_laws;
use crate::laws::substitution;
use crate::laws::texts;
use crate::open_connector::action_registry;
use crate::open_connector::action_registry::{ActionMetadata, DiscoveredAction};
use crate::open_connector::error::OpenConnectorError;
use crate::open_connector::json_to_arrow;
use crate::open_connector::json_to_arrow::{Cell, FieldMapping, FieldType};
use crate::open_connector::packs::loader;
use crate::open_connector::packs::loader::ColumnDoc;
use crate::open_connector::pagination::{Pagination, PaginationStrategy};
use crate::open_connector::row_path::RowPath;
use crate::open_connector::source_pack::SourcePackTable;
use crate::open_connector::table::OpenConnectorTableProvider;
use crate::order;
use crate::server::auth;
use crate::server::auth::{
    AuthOutcome, AuthReply, AuthResponse, Moment, SessionInfo, SessionStep,
};
use crate::server::config;
use crate::server::config::{
    AdhocSqlPolicy, ContextFile, DirectoryEntry, FoundPath, SqlValidatorConfig, StorageCheck,
};
use crate::server::config_error::{ConfigError, ConfigErrorView};
use crate::server::data_source;
use crate::server::data_source::{DataSource, PathView};
use crate::server::logging;
use crate::server::pipeline_handlers;
use crate::server::pipeline_handlers::{
    ExecuteAction, ExecuteActionView, ExecuteRequest, ExecuteState, MetricView, Pipeline,
};
use crate::server::query_audit;
use crate::server::query_audit::{OutcomeRecord, QueryAuditStatus};
use crate::server::registration;
use crate::server::registration::{RegistrationAction, RegistrationEvent, RegistrationState};
use crate::server::response::ApiError;
use crate::server::semantics::SemanticsRegistry;
use crate::server::sql_params;
use crate::server::startup;
use crate::server::startup::{
    CliArgs, JobLoad, LoadFailure, PipelineFile, ServerConfig, SqlCheck,
};
use crate::text;
use crate::text_map;

verus! {

/// A boolean in a boolean column is converted, and to a cell that holds it.
pub proof fn booleans_are_converted_to_themselves(b: bool, r: Result<Cell, String>)
    requires
        call_ensures(json_to_arrow::convert_cell, (&FieldType::Boolean, &Json::Bool(b)), r),
    ensures
        r matches Ok(Cell::Boolean(kept)) && kept == b,
{
}

/// A text in a column of texts is converted, and to a cell that holds it.
pub proof fn texts_are_converted_to_themselves(s: String, r: Result<Cell, String>)
    requires
        call_ensures(json_to_arrow::convert_cell, (&FieldType::Utf8, &Json::String(s)), r),
    ensures
        r matches Ok(Cell::Utf8(kept)) && kept@ == s@,
{
}

/// A text parameter becomes a literal from which it is read back, whatever follows it
/// but a quote.
pub proof fn text_parameters_become_literals(
    name: &str,
    s: String,
    behind: Seq<char>,
    r: Result<String, String>,
)
    requires
        call_ensures(sql_params::param_to_sql, (name, &Json::String(s)), r),
        behind.len() > 0 ==> behind[0] != '\'',
    ensures
        r matches Ok(literal) && literal@.len() > 0 && literal@[0] == '\''
            && sql_params::read_literal((literal@ + behind).skip(1)) == Some((s@, behind)),
{
    substitution::parameters_stand_for_their_values(name@, JsonView::String(s@));
}

/// A parameter that is an object is refused, whatever it holds.
pub proof fn object_parameters_are_refused(
    name: &str,
    members: Vec<(String, Json)>,
    r: Result<String, String>,
)
    requires
        call_ensures(sql_params::param_to_sql, (name, &Json::Object(members)), r),
    ensures
        r is Err,
{
}

/// The IDs of actions are asked for once each and in order.
pub proof fn actions_are_asked_for_once(ids: &Vec<String>, asked: Vec<String>, i: int, j: int)
    requires
        call_ensures(action_registry::ids_to_discover, (ids,), asked),
        0 <= i < j < asked@.len(),
    ensures
        order::before(asked@[i]@, asked@[j]@),
        text::texts(ids@).contains(asked@[i]@),
{
    let sorted = text::texts(asked@);
    assert(sorted[i] == asked@[i]@ && sorted[j] == asked@[j]@);
    assert(sorted.contains(sorted[i]));
}

/// Without an authentication service every request is let in.
pub proof fn open_servers_let_everyone_in(
    authorization: Option<&Vec<u8>>,
    cookie: Option<&Vec<u8>>,
    step: SessionStep,
)
    requires
        call_ensures(auth::begin_session, (None::<&str>, authorization, cookie), step),
    ensures
        step is Allow,
{
}

/// With an authentication service no request is let in at once: one with a bearer token
/// has its own token looked up, and one without any token is refused with 401.
pub proof fn guarded_servers_ask_for_a_token(
    name: &str,
    authorization: Option<&Vec<u8>>,
    cookie: Option<&Vec<u8>>,
    token: Seq<char>,
    step: SessionStep,
)
    requires
        call_ensures(auth::begin_session, (Some(name), authorization, cookie), step),
    ensures
        !(step is Allow),
        (authorization matches Some(bytes) && auth::visible_text(bytes@) == Some(
            seq!['B', 'e', 'a', 'r', 'e', 'r', ' '] + token,
        )) ==> (step matches SessionStep::LookUp { token: asked } && asked@ == token),
        authorization is None && cookie is None ==> (step matches SessionStep::Deny(reply)
            && reply.status == 401),
{
    reveal_strlit("Bearer ");
    assert("Bearer "@ =~= seq!['B', 'e', 'a', 'r', 'e', 'r', ' ']);
    if let Some(bytes) = authorization {
        if auth::visible_text(bytes@) == Some("Bearer "@ + token) {
            auth::bearer_tokens_come_first(token, bytes@, auth::raw(cookie), name@);
        }
    }
}

/// A session is accepted exactly while it is active and has not expired; otherwise the
/// answer is 401, on every kind of endpoint.
pub proof fn only_living_sessions_are_accepted(
    session: Option<SessionInfo>,
    now: Moment,
    r: Result<(), AuthReply>,
    api: Result<(), ApiError>,
)
    requires
        call_ensures(auth::verify_session, (session, now), r),
        call_ensures(auth::check_session, (session, now), api),
        now.nanoseconds < 1_000_000_000,
        session matches Some(s) ==> s.expires_at.nanoseconds < 1_000_000_000,
    ensures
        r is Ok <==> (session matches Some(s) && s.active && access::nanoseconds(now)
            < access::nanoseconds(s.expires_at)),
        r is Ok <==> api is Ok,
        r matches Err(reply) ==> reply.status == 401,
        api matches Err(e) ==> e.status == 401 && e.error_type@ == "unauthorized"@ && e.message@
            == "Invalid or expired session"@ && e.details is None,
{
    if let Some(s) = session {
        access::sessions_last_until_they_expire(s, now);
    }
}

/// What the authentication service replies is passed on as it is, but for a status that
/// is none; without a service the answer is 404, a request that could not be handed over
/// is a 400 and a service that failed a 500, each with its problem.
pub proof fn replies_of_the_service_are_passed_on(
    response: AuthResponse,
    problem: String,
    passed: AuthReply,
    disabled: AuthReply,
    refused: AuthReply,
    failed: AuthReply,
)
    requires
        call_ensures(auth::answer_auth, (AuthOutcome::Replied(response),), passed),
        call_ensures(auth::answer_auth, (AuthOutcome::Disabled,), disabled),
        call_ensures(auth::answer_auth, (AuthOutcome::Refused(problem),), refused),
        call_ensures(auth::answer_auth, (AuthOutcome::Failed(problem),), failed),
    ensures
        passed.body@ == response.body@,
        100 <= response.status < 1000 ==> passed.status == response.status,
        !(100 <= response.status < 1000) ==> passed.status == 500,
        passed@.headers == auth::sendable(text_map::text_pairs(response.headers@)),
        disabled.status == 404,
        refused.status == 400,
        failed.status == 500,
        refused.body@ == failed.body@,
        refused.body@ == vstd::utf8::encode_utf8(
            json_text::json_text(auth::error_document(problem@)),
        ),
{
}

/// Ad-hoc queries are kept out of the schema of the authentication service, and of no
/// other; both they and pipelines have the access modes that the sources have.
pub proof fn tokens_are_out_of_reach(
    sources: &Vec<DataSource>,
    policy: AdhocSqlPolicy,
    validator: SqlValidatorConfig,
    sql: &str,
    check: SqlCheck,
    i: int,
)
    requires
        call_ensures(config::adhoc_policy_from_sources, (sources,), policy),
        call_ensures(config::validator_config_from_sources, (sources,), validator),
        call_ensures(startup::validate_pipeline_sql, (sql, sources), check),
        0 <= i < sources@.len(),
        forall|k: int, l: int|
            0 <= k < l < sources@.len() ==> (#[trigger] sources@[k]).name@ != (
            #[trigger] sources@[l]).name@,
    ensures
        text::texts(policy.denied_schemas@) == seq![seq!['a', 'u', 't', 'h']],
        policy.access@ == validator@,
        check.access@ == validator@,
        check.sql@ == sql@,
        validator@.contains_key(sources@[i].name@),
        validator@[sources@[i].name@] == sources@[i].access_mode,
{
    reveal_strlit("auth");
    assert("auth"@ =~= seq!['a', 'u', 't', 'h']);
    let views = data_source::source_views(sources@);
    let names = config::source_names(views);
    source_laws::repeated_names(names);
    if let Some(name) = order::repeated(names) {
        let (k, l) = choose|k: int, l: int|
            0 <= k < l < names.len() && #[trigger] names[k] == name && #[trigger] names[l] == name;
        assert(sources@[k].name@ == names[k] && sources@[l].name@ == names[l]);
    }
    assert(views[i].name == sources@[i].name@);
    config::modes_are_those_of_the_sources(views, sources@[i].name@);
}

/// The pipeline files of a path: none without a path, a file itself, the YAML files of a
/// directory in order and each once; what is not there, or holds none, is an error that
/// names the path.
pub proof fn pipeline_files_are_found(
    path: &str,
    entries: Vec<DirectoryEntry>,
    has_extension: bool,
    without: Result<Vec<String>, ConfigError>,
    file: Result<Vec<String>, ConfigError>,
    directory: Result<Vec<String>, ConfigError>,
    missing: Result<Vec<String>, ConfigError>,
    other: Result<Vec<String>, ConfigError>,
)
    requires
        call_ensures(config::resolve_pipeline_files, (None::<&str>, &FoundPath::File), without),
        call_ensures(config::resolve_pipeline_files, (Some(path), &FoundPath::File), file),
        call_ensures(
            config::resolve_pipeline_files,
            (Some(path), &FoundPath::Directory { entries }),
            directory,
        ),
        call_ensures(
            config::resolve_pipeline_files,
            (Some(path), &FoundPath::Missing { has_extension }),
            missing,
        ),
        call_ensures(config::resolve_pipeline_files, (Some(path), &FoundPath::Other), other),
    ensures
        without matches Ok(files) && files@.len() == 0,
        file matches Ok(files) && files@.len() == 1 && files@[0]@ == path@,
        match directory {
            Ok(files) => files@.len() > 0 && order::ascending(text::texts(files@)) && forall|
                s: Seq<char>,
            | #[trigger]
                text::texts(files@).contains(s) <==> config::yaml_paths(entries@).contains(s),
            Err(e) => config::yaml_paths(entries@).len() == 0 && e@ == (
            ConfigErrorView::NoPipelineFilesInDirectory { path: path@ }),
        },
        missing matches Err(e) && e@ == (if has_extension {
            ConfigErrorView::PipelineFileNotFound { path: path@ }
        } else {
            ConfigErrorView::PipelineDirectoryNotFound { path: path@ }
        }),
        other matches Err(e) && e@ == (ConfigErrorView::PipelineFileNotFound { path: path@ }),
{
    if let Ok(files) = file {
        assert(text::texts(files@)[0] == path@);
        assert(text::texts(files@).len() == 1);
    }
    if let Ok(files) = directory {
        let paths = config::yaml_paths(entries@);
        assert(paths.contains(paths[0]));
        assert(text::texts(files@).contains(paths[0]));
    }
}

/// The sources of an accepted context are those of its file, all and in their order.
pub proof fn contexts_give_their_sources(
    kind: Option<String>,
    data_sources: Vec<DataSource>,
    checks: &Vec<StorageCheck>,
    r: Result<Vec<DataSource>, ConfigError>,
)
    requires
        call_ensures(
            config::load_context_config,
            (ContextFile::Read { kind, data_sources }, checks),
            r,
        ),
    ensures
        r matches Ok(sources) ==> sources@ == data_sources@ && (kind matches Some(k) && k@ == seq![
            'c',
            'o',
            'n',
            't',
            'e',
            'x',
            't',
        ]),
{
    reveal_strlit("context");
    assert("context"@ =~= seq!['c', 'o', 'n', 't', 'e', 'x', 't']);
}

/// A server that starts has the sources of its context where it was given one and none
/// otherwise, the arguments that it was started with, the words that the overlay has for
/// columns, and for every table the overlay's words before the source's own.
pub proof fn servers_start_with_what_they_are_given(
    args: CliArgs,
    context: Vec<DataSource>,
    files: Vec<PipelineFile>,
    jobs: &Vec<JobLoad>,
    overlay: SemanticsRegistry,
    r: Result<ServerConfig, LoadFailure>,
    table: Seq<char>,
)
    requires
        call_ensures(startup::load_server_config, (args, context, files, jobs, overlay), r),
    ensures
        r matches Ok(config) ==> {
            &&& config.args == args
            &&& args.ctx_file is Some ==> config.data_sources@ == context@
            &&& args.ctx_file is None ==> config.data_sources@.len() == 0
            &&& config.pipelines@.len() == files@.len()
            &&& config.semantics@.columns == overlay@.columns
            &&& overlay@.tables.contains_key(table) ==> config.semantics@.tables.contains_key(table)
                && config.semantics@.tables[table] == overlay@.tables[table]
        },
        r is Ok <==> startup::load_problem(files@, jobs@) is None,
        r matches Err(e) ==> startup::load_problem(files@, jobs@) == Some(e@),
{
    if let Ok(config) = r {
        if overlay@.tables.contains_key(table) {
            crate::server::semantics::overlays_win(
                overlay@.tables,
                startup::source_descriptions(data_source::source_views(config.data_sources@)),
                table,
            );
        }
    }
}

/// Jobs are missing where a path was given that holds files but no job.
pub proof fn missing_jobs_are_noticed(path: &str, files: usize, jobs: usize, r: bool, none: bool)
    requires
        call_ensures(startup::jobs_are_missing, (Some(path), files, jobs), r),
        call_ensures(startup::jobs_are_missing, (None::<&str>, files, jobs), none),
    ensures
        r <==> files > 0 && jobs == 0,
        !none,
{
}

/// Asking for the execution of a pipeline that is not there is answered at once with 404
/// and the names of those that are, and is not counted.
pub proof fn unknown_pipelines_are_not_executed(
    pipelines: &Vec<Pipeline>,
    name: &str,
    request: &ExecuteRequest,
    r: (ExecuteState, ExecuteAction),
)
    requires
        call_ensures(pipeline_handlers::begin_execution, (pipelines, name, request), r),
        forall|i: int| 0 <= i < pipelines@.len() ==> (#[trigger] pipelines@[i]).name@ != name@,
    ensures
        r.0 is Answered,
        r.1@ matches ExecuteActionView::Answer { metric: MetricView::Uncounted, reply: Err(e) }
            && e.status == 404 && (e.details matches Some(details) && replies::holds_list(
            details,
            "available_pipelines"@,
            Seq::new(pipelines@.len(), |i: int| pipelines@[i].name@),
        ) && replies::holds(details, "requested_pipeline"@, JsonView::String(name@))),
{
    let views = pipeline_handlers::pipeline_views(pipelines@);
    replies::pipelines_are_found_by_name(views, name@);
    if let Some(pipeline) = pipeline_handlers::pipeline_named(views, name@) {
        let i = choose|i: int|
            0 <= i < views.len() && #[trigger] views[i] == pipeline && forall|j: int|
                0 <= j < i ==> (#[trigger] views[j]).name != name@;
        assert(pipelines@[i].name@ == name@);
    }
    let names = pipeline_handlers::pipeline_names(views);
    assert(names =~= Seq::new(pipelines@.len(), |i: int| pipelines@[i].name@));
    replies::unknown_pipelines_are_named(name@, names, true);
}

/// The outcome that a ledger is told is the outcome: the ID, the status, the time, the
/// number of rows and the error.
pub proof fn outcomes_are_recorded_as_they_are(
    id: &str,
    status: QueryAuditStatus,
    finished_at: String,
    row_count: Option<usize>,
    error: Option<&str>,
    r: OutcomeRecord,
)
    requires
        call_ensures(query_audit::outcome_record, (id, status, finished_at, row_count, error), r),
    ensures
        r.id@ == id@,
        r.status@ == query_audit::status_text(status),
        r.finished_at == finished_at,
        match row_count {
            Some(n) => n <= i64::MAX ==> (r.row_count matches Some(kept) && kept == n),
            None => r.row_count is None,
        },
        match error {
            Some(words) => r.error matches Some(kept) && kept@ == words@,
            None => r.error is None,
        },
{
}

/// The floor is lifted by the variable alone: without it, or with a value that says no,
/// plans stay out of the logs.
pub proof fn plans_are_logged_on_purpose(value: &str, with: bool, without: bool)
    requires
        call_ensures(logging::allow_plan_value_logging_from_env, (Some(value),), with),
        call_ensures(logging::allow_plan_value_logging_from_env, (None::<&str>,), without),
    ensures
        !without,
        texts::all_white(value@) ==> !with,
        text::lower(text::trim(value@)) == seq!['n', 'o'] ==> !with,
        text::lower(text::trim(value@)) == seq!['0'] ==> !with,
        text::lower(text::trim(value@)) == seq!['f', 'a', 'l', 's', 'e'] ==> !with,
        text::lower(text::trim(value@)) == seq!['1'] ==> with,
{
    texts::nothing_is_left_of_white_space(value@);
    reveal_strlit("0");
    reveal_strlit("false");
    reveal_strlit("no");
    assert("0"@ =~= seq!['0']);
    assert("false"@ =~= seq!['f', 'a', 'l', 's', 'e']);
    assert("no"@ =~= seq!['n', 'o']);
    assert(seq!['1'] != seq!['0']) by {
        assert(seq!['1'][0] != seq!['0'][0]);
    }
}

/// What a failed registration is introduced by names the source.
pub proof fn failed_registrations_name_the_source(name: &str, r: String)
    requires
        call_ensures(registration::registration_context, (name,), r),
    ensures
        r@ == "Failed to register data source: "@ + name@,
{
}

/// A path that was parsed is the text that it was parsed from, and gives the value that
/// its keys lead to.
pub proof fn parsed_paths_give_values(
    source: &str,
    path: RowPath,
    shown: &str,
    keys: Seq<Seq<char>>,
    value: &Json,
    target: JsonView,
    page: usize,
    r: Result<&Json, OpenConnectorError>,
)
    requires
        call_ensures(RowPath::parse, (source,), Ok(path)),
        call_ensures(RowPath::as_str, (&path,), shown),
        call_ensures(RowPath::extract, (&path, value, page), r),
        paths::writable(keys),
        source@ == paths::path_through(keys),
    ensures
        shown@ == source@,
        r matches Ok(found) && found@ == target <==> paths::leads(value@, keys, target),
{
    paths::paths_give_what_their_keys_lead_to(keys, value@, target, page);
}

/// A pagination starts at page one.
pub proof fn paginations_start_at_one(strategy: PaginationStrategy, p: Pagination, page: usize)
    requires
        call_ensures(Pagination::new, (strategy,), Ok(p)),
        call_ensures(Pagination::page, (&p,), page),
    ensures
        page == 1,
{
}

/// What a discovered action said is what its entry gives back.
pub proof fn actions_give_back_what_was_said(
    id: &str,
    discovered: DiscoveredAction,
    action: ActionMetadata,
    shown: &str,
    read_only: Option<bool>,
    input: Option<&Json>,
    output: Option<&Json>,
    fingerprint: &str,
    hashed: String,
)
    requires
        call_ensures(action_registry::check_discovered, (id, discovered), Ok(action)),
        call_ensures(ActionMetadata::action_id, (&action,), shown),
        call_ensures(ActionMetadata::read_only, (&action,), read_only),
        call_ensures(ActionMetadata::input_schema, (&action,), input),
        call_ensures(ActionMetadata::output_schema, (&action,), output),
        call_ensures(ActionMetadata::fingerprint, (&action,), fingerprint),
        call_ensures(action_registry::fingerprint_schema, (output,), hashed),
    ensures
        shown@ == id@,
        read_only == discovered.read_only,
        match (input, discovered.input_schema) {
            (Some(kept), Some(said)) => kept@ == said@,
            (None, None) => true,
            _ => false,
        },
        match (output, discovered.output_schema) {
            (Some(kept), Some(said)) => kept@ == said@,
            (None, None) => true,
            _ => false,
        },
        fingerprint@ == hashed@,
        discovered.locally_executable == Some(true),
{
}

/// A bound table gives back what it was bound with: its table, its limits in their own
/// places, its row path, and of the resource the inputs that the table declares.
pub proof fn bound_tables_give_back_what_they_were_given(
    gateway: String,
    binding: Option<String>,
    connection: Option<String>,
    table: &'static SourcePackTable,
    version: u32,
    resource: &Json,
    max_pages: u32,
    max_rows: u64,
    seconds: u64,
    bound: OpenConnectorTableProvider,
    given: &'static SourcePackTable,
    limits: (u32, u64),
    timeout: u64,
    path: &RowPath,
    sent: &Json,
    members: Map<Seq<char>, JsonView>,
    key: Seq<char>,
)
    requires
        call_ensures(
            OpenConnectorTableProvider::new,
            (
                gateway,
                binding,
                connection,
                table,
                version,
                resource,
                max_pages,
                max_rows,
                seconds,
            ),
            Ok(bound),
        ),
        call_ensures(OpenConnectorTableProvider::table, (&bound,), given),
        call_ensures(OpenConnectorTableProvider::limits, (&bound,), limits),
        call_ensures(OpenConnectorTableProvider::scan_timeout_seconds, (&bound,), timeout),
        call_ensures(OpenConnectorTableProvider::row_path, (&bound,), path),
        call_ensures(OpenConnectorTableProvider::resource, (&bound,), sent),
        resource@ == JsonView::Object(members),
    ensures
        given@ == table@,
        limits == (max_pages, max_rows),
        timeout == seconds,
        path@ == table@.row_path,
        sent@ matches JsonView::Object(kept) && (kept.contains_key(key) <==> members.contains_key(
            key,
        ) && (table@.required_resources.contains(key) || table@.optional_resources.contains(key)))
            && (kept.contains_key(key) ==> kept[key] == members[key]),
{
    connectors::declared_inputs_are_sent_as_given(table@, resource@, key);
}

/// Parameters are put in the order of their lengths in bytes, the longest first, and
/// none is lost or added.
pub proof fn long_names_come_first(names: Vec<String>, ordered: Vec<String>, i: int, j: int)
    requires
        call_ensures(sql_params::longest_first, (names,), ordered),
        0 <= i < j < ordered@.len(),
    ensures
        vstd::utf8::encode_utf8(ordered@[i]@).len() >= vstd::utf8::encode_utf8(ordered@[j]@).len(),
        text::texts(ordered@).to_multiset() == text::texts(names@).to_multiset(),
{
    assert(text::texts(ordered@)[i] == ordered@[i]@ && text::texts(ordered@)[j] == ordered@[j]@);
}

/// Whenever a call begins or steps a registration and asks for the source to be
/// registered, it asks for that under the source's name and at the source's connection
/// string, where its type is a connected one, or else at the text of its path.
pub proof fn registrations_ask_for_the_source(
    source: &DataSource,
    documents: bool,
    state: RegistrationState,
    event: RegistrationEvent,
    begun: (RegistrationState, RegistrationAction),
    stepped: Option<(RegistrationState, RegistrationAction)>,
)
    requires
        call_ensures(registration::begin_registration, (source, documents), begun),
        call_ensures(
            registration::step_registration,
            (source, documents, state, event),
            stepped,
        ),
        registering::fits(source@, state),
    ensures
        begun.1 matches RegistrationAction::Register(asked) ==> asked.name@ == source.name@ && (
        if data_source::connected_type(source.source_type) {
            source.connection_string matches Some(connection) && asked.location@ == connection@
        } else {
            source.path@ == PathView::Text(asked.location@)
        }),
        stepped matches Some((_, RegistrationAction::Register(asked))) ==> asked.name@
            == source.name@ && (if data_source::connected_type(source.source_type) {
            source.connection_string matches Some(connection) && asked.location@ == connection@
        } else {
            source.path@ == PathView::Text(asked.location@)
        }),
{
    registering::sources_are_registered_where_they_are(source@, documents, state, event);
}

/// A column that a document declares in seconds converts the digits of a number to a
/// thousand times as many milliseconds, and one that it declares in milliseconds to as
/// many.
pub proof fn declared_columns_convert_in_their_unit(
    table_id: &str,
    doc: &ColumnDoc,
    field: FieldMapping,
    n: nat,
    digits: String,
    r: Result<Cell, String>,
)
    requires
        call_ensures(loader::convert_column, (table_id, doc), Ok(field)),
        call_ensures(json_to_arrow::convert_cell, (&field.field_type, &Json::String(digits)), r),
        doc.key is None,
        digits@ == text::decimal(n),
        1000 * n <= i64::MAX,
    ensures
        doc.column_type is TimestampSStringUtc ==> (r matches Ok(Cell::TimestampMillis(millis))
            && millis == 1000 * n),
        doc.column_type is TimestampMsStringUtc ==> (r matches Ok(Cell::TimestampMillis(millis))
            && millis == n),
{
    packs::declared_units_are_kept(table_id@, *doc, n);
}

/// What a number becomes in each column that takes numbers: itself as a signed or an
/// unsigned integer, as many milliseconds, or a thousand times as many.
pub proof fn numbers_become_their_columns_cells(
    n: u64,
    signed: Result<Cell, String>,
    unsigned: Result<Cell, String>,
    millis: Result<Cell, String>,
    seconds: Result<Cell, String>,
)
    requires
        call_ensures(
            json_to_arrow::convert_cell,
            (&FieldType::Int64, &Json::Number(Number::PosInt(n))),
            signed,
        ),
        call_ensures(
            json_to_arrow::convert_cell,
            (&FieldType::UInt64, &Json::Number(Number::PosInt(n))),
            unsigned,
        ),
        call_ensures(
            json_to_arrow::convert_cell,
            (&FieldType::TimestampMillisUtc, &Json::Number(Number::PosInt(n))),
            millis,
        ),
        call_ensures(
            json_to_arrow::convert_cell,
            (&FieldType::TimestampSecondsUtc, &Json::Number(Number::PosInt(n))),
            seconds,
        ),
    ensures
        if n <= i64::MAX {
            signed matches Ok(Cell::Int64(kept)) && kept == n
        } else {
            signed is Err
        },
        unsigned matches Ok(Cell::UInt64(kept)) && kept == n,
        if n <= i64::MAX {
            millis matches Ok(Cell::TimestampMillis(kept)) && kept == n
        } else {
            millis is Err
        },
        if 1000 * n <= i64::MAX {
            seconds matches Ok(Cell::TimestampMillis(kept)) && kept == 1000 * n
        } else {
            seconds is Err
        },
{
}

/// A negative number is no unsigned integer, and as a signed one it is itself.
pub proof fn negative_numbers_stay_negative(
    n: i64,
    signed: Result<Cell, String>,
    unsigned: Result<Cell, String>,
)
    requires
        n < 0,
        call_ensures(
            json_to_arrow::convert_cell,
            (&FieldType::Int64, &Json::Number(Number::NegInt(n))),
            signed,
        ),
        call_ensures(
            json_to_arrow::convert_cell,
            (&FieldType::UInt64, &Json::Number(Number::NegInt(n))),
            unsigned,
        ),
    ensures
        signed matches Ok(Cell::Int64(kept)) && kept == n,
        unsigned is Err,
{
}

} // verus!
