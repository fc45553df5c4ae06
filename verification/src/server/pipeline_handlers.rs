//! The pipeline endpoints: health, listings, data sources, and the execution
//! of a pipeline with its parameters.
use vstd::prelude::*;

use crate::json;
use crate::json::{array, set_member, strings, Json, JsonView, Number};
use crate::server::data_source;
use crate::server::data_source::{DataSource, DataSourceView};
use crate::server::location;
use crate::server::location::without_user;
use crate::server::response::{ApiError, ApiErrorView};
use crate::server::semantics;
use crate::server::semantics::{SemanticsRegistry, SemanticsView};
use crate::server::sql_params;
use crate::server::sql_params::{longest_first, substitute_sql_params};
use crate::text;
use crate::text::{concat2, concat3, same_text};
use crate::text_map;

verus! {

/// A pipeline that was loaded.
#[derive(Debug)]
pub struct Pipeline {
    pub name: String,
    pub version: String,
    /// Its query, with placeholders for its parameters.
    pub sql: String,
    /// Its parameters: name, and type as it is shown to developers.
    pub parameters: Vec<(String, String)>,
    pub created_at: Json,
    pub updated_at: Json,
}

/// The model of a [`Pipeline`].
pub struct PipelineView {
    pub name: Seq<char>,
    pub version: Seq<char>,
    pub sql: Seq<char>,
    pub parameters: Seq<(Seq<char>, Seq<char>)>,
    pub created_at: JsonView,
    pub updated_at: JsonView,
}

impl View for Pipeline {
    type V = PipelineView;

    open spec fn view(&self) -> PipelineView {
        PipelineView {
            name: self.name@,
            version: self.version@,
            sql: self.sql@,
            parameters: text_map::text_pairs(self.parameters@),
            created_at: self.created_at@,
            updated_at: self.updated_at@,
        }
    }
}

/// The models of pipelines in a row.
pub open spec fn pipeline_views(pipelines: Seq<Pipeline>) -> Seq<PipelineView> {
    Seq::new(pipelines.len(), |i: int| pipelines[i]@)
}

/// The pipeline with a name.
pub open spec fn pipeline_named(pipelines: Seq<PipelineView>, name: Seq<char>) -> Option<
    PipelineView,
>
    decreases pipelines.len(),
{
    if pipelines.len() == 0 {
        None
    } else {
        match pipeline_named(pipelines.drop_last(), name) {
            Some(pipeline) => Some(pipeline),
            None => if pipelines.last().name == name {
                Some(pipelines.last())
            } else {
                None
            },
        }
    }
}

proof fn pipeline_named_stands(pipelines: Seq<PipelineView>, name: Seq<char>, i: int)
    requires
        0 <= i <= pipelines.len(),
        pipeline_named(pipelines.take(i), name) is Some,
    ensures
        pipeline_named(pipelines, name) == pipeline_named(pipelines.take(i), name),
    decreases pipelines.len(),
{
    if i == pipelines.len() {
        assert(pipelines.take(i) =~= pipelines);
    } else {
        assert(pipelines.drop_last().take(i) =~= pipelines.take(i));
        pipeline_named_stands(pipelines.drop_last(), name, i);
    }
}

/// The pipeline with a name.
pub fn find_pipeline<'a>(pipelines: &'a Vec<Pipeline>, name: &str) -> (r: Option<&'a Pipeline>)
    ensures
        match r {
            Some(pipeline) => pipeline_named(pipeline_views(pipelines@), name@) == Some(pipeline@),
            None => pipeline_named(pipeline_views(pipelines@), name@) is None,
        },
{
    let ghost all = pipeline_views(pipelines@);
    let mut i: usize = 0;
    assert(all.take(0) =~= Seq::empty());
    while i < pipelines.len()
        invariant
            all == pipeline_views(pipelines@),
            i <= pipelines@.len(),
            pipeline_named(all.take(i as int), name@) is None,
        decreases pipelines@.len() - i,
    {
        proof {
            assert(all.take(i + 1).drop_last() =~= all.take(i as int));
            assert(all.take(i + 1).last() == all[i as int]);
        }
        if same_text(pipelines[i].name.as_str(), name) {
            proof {
                pipeline_named_stands(all, name@, i + 1);
            }
            return Some(&pipelines[i]);
        }
        i += 1;
    }
    assert(all.take(i as int) =~= all);
    None
}

/// The names of pipelines in a row.
pub open spec fn pipeline_names(pipelines: Seq<PipelineView>) -> Seq<Seq<char>> {
    Seq::new(pipelines.len(), |i: int| pipelines[i].name)
}

/// The first of each pair.
pub open spec fn firsts(pairs: Seq<(Seq<char>, Seq<char>)>) -> Seq<Seq<char>> {
    Seq::new(pairs.len(), |i: int| pairs[i].0)
}

fn names_of(pipelines: &Vec<Pipeline>) -> (r: Vec<String>)
    ensures
        text::texts(r@) == pipeline_names(pipeline_views(pipelines@)),
{
    let mut names: Vec<String> = Vec::new();
    let mut i: usize = 0;
    while i < pipelines.len()
        invariant
            i <= pipelines@.len(),
            names@.len() == i,
            forall|k: int| 0 <= k < i ==> (#[trigger] names@[k])@ == pipelines@[k].name@,
        decreases pipelines@.len() - i,
    {
        names.push(pipelines[i].name.clone());
        i += 1;
    }
    assert(text::texts(names@) =~= pipeline_names(pipeline_views(pipelines@)));
    names
}

fn parameter_names(parameters: &Vec<(String, String)>) -> (r: Vec<String>)
    ensures
        text::texts(r@) == firsts(text_map::text_pairs(parameters@)),
{
    let mut names: Vec<String> = Vec::new();
    let mut i: usize = 0;
    while i < parameters.len()
        invariant
            i <= parameters@.len(),
            names@.len() == i,
            forall|k: int| 0 <= k < i ==> (#[trigger] names@[k])@ == parameters@[k].0@,
        decreases parameters@.len() - i,
    {
        names.push(parameters[i].0.clone());
        i += 1;
    }
    assert(text::texts(names@) =~= firsts(text_map::text_pairs(parameters@)));
    names
}

fn put(members: &mut Vec<(String, Json)>, key: &str, value: Json)
    ensures
        json::members_view(final(members)@) == json::members_view(old(members)@).insert(
            key@,
            value@,
        ),
{
    set_member(members, key.to_owned(), value);
}

fn put_text(members: &mut Vec<(String, Json)>, key: &str, value: &str)
    ensures
        json::members_view(final(members)@) == json::members_view(old(members)@).insert(
            key@,
            JsonView::String(value@),
        ),
{
    set_member(members, key.to_owned(), Json::String(value.to_owned()));
}

fn put_count(members: &mut Vec<(String, Json)>, key: &str, n: usize)
    ensures
        json::members_view(final(members)@) == json::members_view(old(members)@).insert(
            key@,
            json::integer(n as u64),
        ),
{
    set_member(members, key.to_owned(), Json::Number(Number::PosInt(n as u64)));
}

/// The reply to a request for a pipeline that there is not. `requested` is the
/// name where the details tell it.
pub open spec fn not_found(
    name: Seq<char>,
    available: Seq<Seq<char>>,
    requested: bool,
) -> ApiErrorView {
    let details = json::no_members().insert(
        "available_pipelines"@,
        json::string_array(available),
    );
    ApiErrorView {
        status: 404,
        message: "Pipeline '"@ + name + "' not found"@,
        error_type: "pipeline_not_found"@,
        details: Some(
            JsonView::Object(
                if requested {
                    details.insert("requested_pipeline"@, JsonView::String(name))
                } else {
                    details
                },
            ),
        ),
    }
}

fn pipeline_not_found(pipelines: &Vec<Pipeline>, name: &str, requested: bool) -> (r: ApiError)
    ensures
        r@ == not_found(name@, pipeline_names(pipeline_views(pipelines@)), requested),
{
    let mut details: Vec<(String, Json)> = Vec::new();
    let names = names_of(pipelines);
    put(&mut details, "available_pipelines", strings(&names));
    if requested {
        put_text(&mut details, "requested_pipeline", name);
    }
    ApiError {
        status: 404,
        message: concat3("Pipeline '", name, "' not found"),
        error_type: "pipeline_not_found",
        details: Some(Json::Object(details)),
    }
}

/// Whether the table of a source could be reached, and if not, why.
#[derive(Debug)]
pub struct SourceCheck {
    pub name: String,
    pub error: Option<String>,
}

/// The model of a [`SourceCheck`].
pub struct CheckView {
    pub name: Seq<char>,
    pub error: Option<Seq<char>>,
}

impl View for SourceCheck {
    type V = CheckView;

    open spec fn view(&self) -> CheckView {
        CheckView { name: self.name@, error: data_source::owned(self.error) }
    }
}

/// The models of checks in a row.
pub open spec fn check_views(checks: Seq<SourceCheck>) -> Seq<CheckView> {
    Seq::new(checks.len(), |i: int| checks[i]@)
}

/// What a health report says of a source.
pub open spec fn check_document(check: CheckView) -> JsonView {
    let named = json::no_members().insert("name"@, JsonView::String(check.name));
    match check.error {
        None => JsonView::Object(
            named.insert("status"@, JsonView::String("healthy"@)).insert(
                "accessible"@,
                JsonView::Bool(true),
            ),
        ),
        Some(error) => JsonView::Object(
            named.insert("status"@, JsonView::String("unhealthy"@)).insert(
                "accessible"@,
                JsonView::Bool(false),
            ).insert("error"@, JsonView::String(error)),
        ),
    }
}

/// How many sources could be reached.
pub open spec fn healthy(checks: Seq<CheckView>) -> nat
    decreases checks.len(),
{
    if checks.len() == 0 {
        0
    } else if checks.last().error is None {
        healthy(checks.drop_last()) + 1
    } else {
        healthy(checks.drop_last())
    }
}

/// What a health report says of its pipeline.
pub open spec fn pipeline_summary(pipeline: PipelineView) -> JsonView {
    JsonView::Object(
        json::no_members().insert("name"@, JsonView::String(pipeline.name)).insert(
            "version"@,
            JsonView::String(pipeline.version),
        ).insert("parameters"@, json::string_array(firsts(pipeline.parameters))),
    )
}

/// The health report of a pipeline: healthy if every source could be reached,
/// else degraded.
pub open spec fn health_report(
    pipeline: PipelineView,
    checks: Seq<CheckView>,
    elapsed_ms: u64,
    timestamp: Seq<char>,
) -> JsonView {
    JsonView::Object(
        json::no_members().insert(
            "status"@,
            JsonView::String(
                if healthy(checks) == checks.len() {
                    "healthy"@
                } else {
                    "degraded"@
                },
            ),
        ).insert("pipeline"@, pipeline_summary(pipeline)).insert(
            "data_sources"@,
            JsonView::Object(
                json::no_members().insert("total"@, json::integer(checks.len() as u64)).insert(
                    "healthy"@,
                    json::integer(healthy(checks) as u64),
                ).insert(
                    "checks"@,
                    JsonView::Array(Seq::new(checks.len(), |i: int| check_document(checks[i]))),
                ),
            ),
        ).insert("health_check_time_ms"@, json::integer(elapsed_ms)).insert(
            "timestamp"@,
            JsonView::String(timestamp),
        ),
    )
}

fn check_json(check: &SourceCheck) -> (r: Json)
    ensures
        r@ == check_document(check@),
{
    let mut members: Vec<(String, Json)> = Vec::new();
    put_text(&mut members, "name", check.name.as_str());
    match &check.error {
        None => {
            put_text(&mut members, "status", "healthy");
            put(&mut members, "accessible", Json::Bool(true));
        },
        Some(error) => {
            put_text(&mut members, "status", "unhealthy");
            put(&mut members, "accessible", Json::Bool(false));
            put_text(&mut members, "error", error.as_str());
        },
    }
    Json::Object(members)
}

fn summary_json(pipeline: &Pipeline) -> (r: Json)
    ensures
        r@ == pipeline_summary(pipeline@),
{
    let mut members: Vec<(String, Json)> = Vec::new();
    put_text(&mut members, "name", pipeline.name.as_str());
    put_text(&mut members, "version", pipeline.version.as_str());
    let names = parameter_names(&pipeline.parameters);
    put(&mut members, "parameters", strings(&names));
    Json::Object(members)
}

/// Answers a health check of one pipeline. `checks` are those of the sources,
/// in order, and `elapsed_ms` is the time that they took.
pub fn pipeline_health_check(
    pipelines: &Vec<Pipeline>,
    name: &str,
    checks: &Vec<SourceCheck>,
    elapsed_ms: u64,
    timestamp: &str,
) -> (r: Result<Json, ApiError>)
    ensures
        match pipeline_named(pipeline_views(pipelines@), name@) {
            Some(pipeline) => r matches Ok(report) && report@ == health_report(
                pipeline,
                check_views(checks@),
                elapsed_ms,
                timestamp@,
            ),
            None => r matches Err(e) && e@ == not_found(
                name@,
                pipeline_names(pipeline_views(pipelines@)),
                false,
            ),
        },
{
    let pipeline = match find_pipeline(pipelines, name) {
        Some(pipeline) => pipeline,
        None => return Err(pipeline_not_found(pipelines, name, false)),
    };
    let ghost all = check_views(checks@);
    let mut reached: usize = 0;
    let mut documents: Vec<Json> = Vec::new();
    let mut i: usize = 0;
    assert(all.take(0) =~= Seq::empty());
    while i < checks.len()
        invariant
            all == check_views(checks@),
            i <= checks@.len(),
            reached == healthy(all.take(i as int)),
            reached <= i,
            documents@.len() == i,
            forall|k: int| 0 <= k < i ==> (#[trigger] documents@[k])@ == check_document(all[k]),
        decreases checks@.len() - i,
    {
        proof {
            assert(all.take(i + 1).drop_last() =~= all.take(i as int));
            assert(all.take(i + 1).last() == all[i as int]);
        }
        if checks[i].error.is_none() {
            reached += 1;
        }
        documents.push(check_json(&checks[i]));
        i += 1;
    }
    proof {
        assert(all.take(i as int) =~= all);
        assert(json::views(documents@) =~= Seq::new(all.len(), |k: int| check_document(all[k])));
    }
    let mut sources: Vec<(String, Json)> = Vec::new();
    put_count(&mut sources, "total", checks.len());
    put_count(&mut sources, "healthy", reached);
    put(&mut sources, "checks", array(documents));
    let mut report: Vec<(String, Json)> = Vec::new();
    let status = if reached == checks.len() {
        "healthy"
    } else {
        "degraded"
    };
    put_text(&mut report, "status", status);
    put(&mut report, "pipeline", summary_json(pipeline));
    put(&mut report, "data_sources", Json::Object(sources));
    put(&mut report, "health_check_time_ms", Json::Number(Number::PosInt(elapsed_ms)));
    put_text(&mut report, "timestamp", timestamp);
    Ok(Json::Object(report))
}

/// A pipeline is reported healthy just if every one of its sources could be
/// reached.
pub proof fn healthy_means_all_reached(checks: Seq<CheckView>)
    ensures
        healthy(checks) <= checks.len(),
        healthy(checks) == checks.len() <==> forall|i: int|
            0 <= i < checks.len() ==> (#[trigger] checks[i]).error is None,
    decreases checks.len(),
{
    if checks.len() > 0 {
        let shorter = checks.drop_last();
        healthy_means_all_reached(shorter);
        assert(checks[checks.len() - 1] == checks.last());
        if healthy(checks) == checks.len() {
            assert forall|i: int| 0 <= i < checks.len() implies (#[trigger] checks[i]).error is None by {
                if i < shorter.len() {
                    assert(shorter[i] == checks[i]);
                }
            }
        }
        if forall|i: int| 0 <= i < checks.len() ==> (#[trigger] checks[i]).error is None {
            assert forall|i: int| 0 <= i < shorter.len() implies (#[trigger] shorter[i]).error is None by {
                assert(shorter[i] == checks[i]);
            }
        }
    }
}

/// Where a pipeline is executed.
pub open spec fn endpoint(name: Seq<char>) -> Seq<char> {
    "/"@ + name + "/execute"@
}

/// What is said of a parameter of a pipeline.
pub open spec fn parameter_document(parameter: (Seq<char>, Seq<char>)) -> JsonView {
    JsonView::Object(
        json::no_members().insert("name"@, JsonView::String(parameter.0)).insert(
            "type"@,
            JsonView::String(parameter.1),
        ),
    )
}

/// What is said of the parameters of a pipeline.
pub open spec fn parameter_documents(parameters: Seq<(Seq<char>, Seq<char>)>) -> JsonView {
    JsonView::Array(Seq::new(parameters.len(), |i: int| parameter_document(parameters[i])))
}

fn parameters_json(parameters: &Vec<(String, String)>) -> (r: Json)
    ensures
        r@ == parameter_documents(text_map::text_pairs(parameters@)),
{
    let ghost all = text_map::text_pairs(parameters@);
    let mut documents: Vec<Json> = Vec::new();
    let mut i: usize = 0;
    while i < parameters.len()
        invariant
            all == text_map::text_pairs(parameters@),
            i <= parameters@.len(),
            documents@.len() == i,
            forall|k: int| 0 <= k < i ==> (#[trigger] documents@[k])@ == parameter_document(all[k]),
        decreases parameters@.len() - i,
    {
        let mut members: Vec<(String, Json)> = Vec::new();
        put_text(&mut members, "name", parameters[i].0.as_str());
        put_text(&mut members, "type", parameters[i].1.as_str());
        documents.push(Json::Object(members));
        i += 1;
    }
    assert(json::views(documents@) =~= Seq::new(all.len(), |k: int| parameter_document(all[k])));
    array(documents)
}

/// What the listing says of a pipeline.
pub open spec fn listed(pipeline: PipelineView) -> JsonView {
    JsonView::Object(
        json::no_members().insert("name"@, JsonView::String(pipeline.name)).insert(
            "version"@,
            JsonView::String(pipeline.version),
        ).insert("endpoint"@, JsonView::String(endpoint(pipeline.name))).insert(
            "parameters"@,
            parameter_documents(pipeline.parameters),
        ),
    )
}

/// The listing of all pipelines.
pub open spec fn listing(
    pipelines: Seq<PipelineView>,
    data_sources: usize,
    timestamp: Seq<char>,
) -> JsonView {
    JsonView::Object(
        json::no_members().insert("success"@, JsonView::Bool(true)).insert(
            "pipelines"@,
            JsonView::Array(Seq::new(pipelines.len(), |i: int| listed(pipelines[i]))),
        ).insert("count"@, json::integer(pipelines.len() as u64)).insert(
            "data_sources"@,
            json::integer(data_sources as u64),
        ).insert("timestamp"@, JsonView::String(timestamp)),
    )
}

fn listed_json(pipeline: &Pipeline) -> (r: Json)
    ensures
        r@ == listed(pipeline@),
{
    let mut members: Vec<(String, Json)> = Vec::new();
    put_text(&mut members, "name", pipeline.name.as_str());
    put_text(&mut members, "version", pipeline.version.as_str());
    let target = concat3("/", pipeline.name.as_str(), "/execute");
    put_text(&mut members, "endpoint", target.as_str());
    put(&mut members, "parameters", parameters_json(&pipeline.parameters));
    Json::Object(members)
}

/// Lists all pipelines with their parameters.
pub fn list_pipelines(pipelines: &Vec<Pipeline>, data_sources: usize, timestamp: &str) -> (r: Json)
    ensures
        r@ == listing(pipeline_views(pipelines@), data_sources, timestamp@),
{
    let ghost all = pipeline_views(pipelines@);
    let mut documents: Vec<Json> = Vec::new();
    let mut i: usize = 0;
    while i < pipelines.len()
        invariant
            all == pipeline_views(pipelines@),
            i <= pipelines@.len(),
            documents@.len() == i,
            forall|k: int| 0 <= k < i ==> (#[trigger] documents@[k])@ == listed(all[k]),
        decreases pipelines@.len() - i,
    {
        documents.push(listed_json(&pipelines[i]));
        i += 1;
    }
    assert(json::views(documents@) =~= Seq::new(all.len(), |k: int| listed(all[k])));
    let mut members: Vec<(String, Json)> = Vec::new();
    put(&mut members, "success", Json::Bool(true));
    put(&mut members, "pipelines", array(documents));
    put_count(&mut members, "count", pipelines.len());
    put_count(&mut members, "data_sources", data_sources);
    put_text(&mut members, "timestamp", timestamp);
    Json::Object(members)
}

/// The description of one pipeline.
pub open spec fn description(pipeline: PipelineView, timestamp: Seq<char>) -> JsonView {
    JsonView::Object(
        json::no_members().insert("success"@, JsonView::Bool(true)).insert(
            "pipeline"@,
            JsonView::Object(
                json::no_members().insert("name"@, JsonView::String(pipeline.name)).insert(
                    "version"@,
                    JsonView::String(pipeline.version),
                ).insert("endpoint"@, JsonView::String(endpoint(pipeline.name))).insert(
                    "parameters"@,
                    parameter_documents(pipeline.parameters),
                ).insert("created_at"@, pipeline.created_at).insert(
                    "updated_at"@,
                    pipeline.updated_at,
                ),
            ),
        ).insert("timestamp"@, JsonView::String(timestamp)),
    )
}

/// Describes one pipeline.
pub fn get_pipelines_info(pipelines: &Vec<Pipeline>, name: &str, timestamp: &str) -> (r: Result<
    Json,
    ApiError,
>)
    ensures
        match pipeline_named(pipeline_views(pipelines@), name@) {
            Some(pipeline) => r matches Ok(info) && info@ == description(pipeline, timestamp@),
            None => r matches Err(e) && e@ == not_found(
                name@,
                pipeline_names(pipeline_views(pipelines@)),
                false,
            ),
        },
{
    let pipeline = match find_pipeline(pipelines, name) {
        Some(pipeline) => pipeline,
        None => return Err(pipeline_not_found(pipelines, name, false)),
    };
    let mut members: Vec<(String, Json)> = Vec::new();
    put_text(&mut members, "name", pipeline.name.as_str());
    put_text(&mut members, "version", pipeline.version.as_str());
    let target = concat3("/", pipeline.name.as_str(), "/execute");
    put_text(&mut members, "endpoint", target.as_str());
    put(&mut members, "parameters", parameters_json(&pipeline.parameters));
    put(&mut members, "created_at", pipeline.created_at.clone());
    put(&mut members, "updated_at", pipeline.updated_at.clone());
    let mut info: Vec<(String, Json)> = Vec::new();
    put(&mut info, "success", Json::Bool(true));
    put(&mut info, "pipeline", Json::Object(members));
    put_text(&mut info, "timestamp", timestamp);
    Ok(Json::Object(info))
}

/// What the catalog says of a column.
#[derive(Debug)]
pub struct ColumnInfo {
    pub name: String,
    /// Its type as it is shown to developers.
    pub data_type: String,
    pub nullable: bool,
}

/// What became of looking a table up in the catalog.
#[derive(Debug)]
pub enum TableLookup {
    /// There is no default catalog.
    NoCatalog,
    /// The default catalog has no public schema.
    NoSchema,
    /// The lookup failed.
    Failed(String),
    /// There is no such table.
    NotFound,
    /// The columns of the table.
    Found(Vec<ColumnInfo>),
}

/// A field of a table.
#[derive(Debug)]
pub struct FieldInfo {
    pub name: String,
    /// Its type as it is shown to developers; `type` in replies.
    pub field_type: String,
    pub nullable: bool,
    /// What it is, in words. Left out of replies where there is none.
    pub description: Option<String>,
}

/// The model of a [`FieldInfo`].
pub struct FieldView {
    pub name: Seq<char>,
    pub field_type: Seq<char>,
    pub nullable: bool,
    pub description: Option<Seq<char>>,
}

impl View for FieldInfo {
    type V = FieldView;

    open spec fn view(&self) -> FieldView {
        FieldView {
            name: self.name@,
            field_type: self.field_type@,
            nullable: self.nullable,
            description: data_source::owned(self.description),
        }
    }
}

/// The models of fields in a row.
pub open spec fn field_views(fields: Seq<FieldInfo>) -> Seq<FieldView> {
    Seq::new(fields.len(), |i: int| fields[i]@)
}

/// A column with its description.
pub open spec fn described_field(
    table: Seq<char>,
    column: ColumnInfo,
    semantics: SemanticsView,
) -> FieldView {
    FieldView {
        name: column.name@,
        field_type: column.data_type@,
        nullable: column.nullable,
        description: semantics::column_text(semantics, table, column.name@),
    }
}

/// The fields of a table, or why they are not known.
pub open spec fn table_schema(
    table: Seq<char>,
    found: TableLookup,
    semantics: SemanticsView,
) -> Result<Seq<FieldView>, Seq<char>> {
    match found {
        TableLookup::NoCatalog => Err("Default catalog 'datafusion' not found"@),
        TableLookup::NoSchema => Err("Schema 'public' not found"@),
        TableLookup::Failed(error) => Err("Failed to get table '"@ + table + "': "@ + error@),
        TableLookup::NotFound => Err("Table '"@ + table + "' not found in catalog"@),
        TableLookup::Found(columns) => Ok(
            Seq::new(
                columns@.len(),
                |i: int| described_field(table, columns@[i], semantics),
            ),
        ),
    }
}

fn copied(s: Option<&str>) -> (r: Option<String>)
    ensures
        data_source::owned(r) == text::optional(s),
{
    match s {
        Some(s) => Some(s.to_owned()),
        None => None,
    }
}

/// The fields of a table with their descriptions, given what the catalog says
/// of it.
pub fn get_table_schema(table: &str, found: &TableLookup, semantics: &SemanticsRegistry) -> (r:
    Result<Vec<FieldInfo>, String>)
    ensures
        match table_schema(table@, *found, semantics@) {
            Ok(fields) => r matches Ok(out) && field_views(out@) == fields,
            Err(problem) => r matches Err(out) && out@ == problem,
        },
{
    match found {
        TableLookup::NoCatalog => Err("Default catalog 'datafusion' not found".to_owned()),
        TableLookup::NoSchema => Err("Schema 'public' not found".to_owned()),
        TableLookup::Failed(error) => {
            let mut s = concat3("Failed to get table '", table, "': ");
            s.append(error.as_str());
            Err(s)
        },
        TableLookup::NotFound => Err(concat3("Table '", table, "' not found in catalog")),
        TableLookup::Found(columns) => {
            let mut fields: Vec<FieldInfo> = Vec::new();
            let mut i: usize = 0;
            while i < columns.len()
                invariant
                    i <= columns@.len(),
                    fields@.len() == i,
                    forall|k: int|
                        0 <= k < i ==> (#[trigger] fields@[k])@ == described_field(
                            table@,
                            columns@[k],
                            semantics@,
                        ),
                decreases columns@.len() - i,
            {
                let column = &columns[i];
                fields.push(
                    FieldInfo {
                        name: column.name.clone(),
                        field_type: column.data_type.clone(),
                        nullable: column.nullable,
                        description: copied(
                            semantics.column_description(table, column.name.as_str()),
                        ),
                    },
                );
                i += 1;
            }
            assert(field_views(fields@) =~= Seq::new(
                columns@.len(),
                |k: int| described_field(table@, columns@[k], semantics@),
            ));
            Ok(fields)
        },
    }
}

/// A table of a source.
#[derive(Debug)]
pub struct TableInfo {
    pub name: String,
    /// What it is, in words. Left out of replies where there is none.
    pub description: Option<String>,
    pub schema: Vec<FieldInfo>,
}

/// The model of a [`TableInfo`].
pub struct TableView {
    pub name: Seq<char>,
    pub description: Option<Seq<char>>,
    pub schema: Seq<FieldView>,
}

impl View for TableInfo {
    type V = TableView;

    open spec fn view(&self) -> TableView {
        TableView {
            name: self.name@,
            description: data_source::owned(self.description),
            schema: field_views(self.schema@),
        }
    }
}

/// What replies say of a source.
#[derive(Debug)]
pub struct DataSourceResponse {
    pub name: String,
    /// Its type as it is written in context files; `type` in replies.
    pub source_type: String,
    /// Its path, where it is a file.
    pub path: Option<String>,
    /// How it is reached, where it is a database.
    pub url: Option<String>,
    pub tables: Vec<TableInfo>,
}

/// The model of a [`DataSourceResponse`].
pub struct SourceResponseView {
    pub name: Seq<char>,
    pub source_type: Seq<char>,
    pub path: Option<Seq<char>>,
    pub url: Option<Seq<char>>,
    pub tables: Seq<TableView>,
}

/// The models of tables in a row.
pub open spec fn table_views(tables: Seq<TableInfo>) -> Seq<TableView> {
    Seq::new(tables.len(), |i: int| tables[i]@)
}

impl View for DataSourceResponse {
    type V = SourceResponseView;

    open spec fn view(&self) -> SourceResponseView {
        SourceResponseView {
            name: self.name@,
            source_type: self.source_type@,
            path: data_source::owned(self.path),
            url: data_source::owned(self.url),
            tables: table_views(self.tables@),
        }
    }
}

/// What is said of a source: a file has a path, a database a connection
/// string, shown without the user and the password, and either has the one
/// table with its name.
pub open spec fn source_response(
    source: DataSourceView,
    fields: Seq<FieldView>,
    semantics: SemanticsView,
) -> SourceResponseView {
    let connected = data_source::connected_type(source.source_type);
    SourceResponseView {
        name: source.name,
        source_type: data_source::type_text(source.source_type),
        path: if connected {
            None
        } else {
            Some(source.path.displayed())
        },
        url: match source.connection_string {
            Some(url) => if connected {
                Some(location::sanitized(url))
            } else {
                None
            },
            None => None,
        },
        tables: seq![
            TableView {
                name: source.name,
                description: text_map::lookup(semantics.tables, source.name),
                schema: fields,
            },
        ],
    }
}

/// Describes a source, given the fields of its table.
pub fn describe_source(
    source: &DataSource,
    fields: Vec<FieldInfo>,
    semantics: &SemanticsRegistry,
) -> (r: DataSourceResponse)
    ensures
        r@ == source_response(source@, field_views(fields@), semantics@),
{
    let connected = source.source_type.needs_connection();
    let path = if connected {
        None
    } else {
        Some(source.path.display())
    };
    let url = if connected {
        match &source.connection_string {
            Some(url) => Some(without_user(url.as_str())),
            None => None,
        }
    } else {
        None
    };
    let table = TableInfo {
        name: source.name.clone(),
        description: copied(semantics.table_description(source.name.as_str())),
        schema: fields,
    };
    let ghost only = table@;
    let mut tables: Vec<TableInfo> = Vec::new();
    tables.push(table);
    assert(table_views(tables@) =~= seq![only]);
    DataSourceResponse {
        name: source.name.clone(),
        source_type: source.source_type.as_str().to_owned(),
        path,
        url,
        tables,
    }
}

/// Members with a description where there is one.
pub open spec fn with_description(
    members: Map<Seq<char>, JsonView>,
    description: Option<Seq<char>>,
) -> Map<Seq<char>, JsonView> {
    match description {
        Some(description) => members.insert("description"@, JsonView::String(description)),
        None => members,
    }
}

/// A string, or null where there is none.
pub open spec fn nullable_text(s: Option<Seq<char>>) -> JsonView {
    match s {
        Some(s) => JsonView::String(s),
        None => JsonView::Null,
    }
}

/// A field in a reply.
pub open spec fn field_document(field: FieldView) -> JsonView {
    JsonView::Object(
        with_description(
            json::no_members().insert("name"@, JsonView::String(field.name)).insert(
                "type"@,
                JsonView::String(field.field_type),
            ).insert("nullable"@, JsonView::Bool(field.nullable)),
            field.description,
        ),
    )
}

/// A table in a reply.
pub open spec fn table_document(table: TableView) -> JsonView {
    JsonView::Object(
        with_description(
            json::no_members().insert("name"@, JsonView::String(table.name)).insert(
                "schema"@,
                JsonView::Array(
                    Seq::new(table.schema.len(), |i: int| field_document(table.schema[i])),
                ),
            ),
            table.description,
        ),
    )
}

/// A source in a reply.
pub open spec fn source_document(source: SourceResponseView) -> JsonView {
    JsonView::Object(
        json::no_members().insert("name"@, JsonView::String(source.name)).insert(
            "type"@,
            JsonView::String(source.source_type),
        ).insert("path"@, nullable_text(source.path)).insert("url"@, nullable_text(source.url)).insert(
            "tables"@,
            JsonView::Array(
                Seq::new(source.tables.len(), |i: int| table_document(source.tables[i])),
            ),
        ),
    )
}

fn put_description(members: &mut Vec<(String, Json)>, description: &Option<String>)
    ensures
        json::members_view(final(members)@) == with_description(
            json::members_view(old(members)@),
            data_source::owned(*description),
        ),
{
    match description {
        Some(description) => {
            put_text(members, "description", description.as_str());
        },
        None => {},
    }
}

fn text_or_null(s: &Option<String>) -> (r: Json)
    ensures
        r@ == nullable_text(data_source::owned(*s)),
{
    match s {
        Some(s) => Json::String(s.clone()),
        None => Json::Null,
    }
}

fn field_json(field: &FieldInfo) -> (r: Json)
    ensures
        r@ == field_document(field@),
{
    let mut members: Vec<(String, Json)> = Vec::new();
    put_text(&mut members, "name", field.name.as_str());
    put_text(&mut members, "type", field.field_type.as_str());
    put(&mut members, "nullable", Json::Bool(field.nullable));
    put_description(&mut members, &field.description);
    Json::Object(members)
}

fn table_json(table: &TableInfo) -> (r: Json)
    ensures
        r@ == table_document(table@),
{
    let ghost all = field_views(table.schema@);
    let mut fields: Vec<Json> = Vec::new();
    let mut i: usize = 0;
    while i < table.schema.len()
        invariant
            all == field_views(table.schema@),
            i <= table.schema@.len(),
            fields@.len() == i,
            forall|k: int| 0 <= k < i ==> (#[trigger] fields@[k])@ == field_document(all[k]),
        decreases table.schema@.len() - i,
    {
        fields.push(field_json(&table.schema[i]));
        i += 1;
    }
    assert(json::views(fields@) =~= Seq::new(all.len(), |k: int| field_document(all[k])));
    let mut members: Vec<(String, Json)> = Vec::new();
    put_text(&mut members, "name", table.name.as_str());
    put(&mut members, "schema", array(fields));
    put_description(&mut members, &table.description);
    Json::Object(members)
}

impl DataSourceResponse {
    /// The source in a reply.
    pub fn to_json(&self) -> (r: Json)
        ensures
            r@ == source_document(self@),
    {
        let ghost all = table_views(self.tables@);
        let mut tables: Vec<Json> = Vec::new();
        let mut i: usize = 0;
        while i < self.tables.len()
            invariant
                all == table_views(self.tables@),
                i <= self.tables@.len(),
                tables@.len() == i,
                forall|k: int| 0 <= k < i ==> (#[trigger] tables@[k])@ == table_document(all[k]),
            decreases self.tables@.len() - i,
        {
            tables.push(table_json(&self.tables[i]));
            i += 1;
        }
        assert(json::views(tables@) =~= Seq::new(all.len(), |k: int| table_document(all[k])));
        let mut members: Vec<(String, Json)> = Vec::new();
        put_text(&mut members, "name", self.name.as_str());
        put_text(&mut members, "type", self.source_type.as_str());
        put(&mut members, "path", text_or_null(&self.path));
        put(&mut members, "url", text_or_null(&self.url));
        put(&mut members, "tables", array(tables));
        Json::Object(members)
    }
}

/// The fields of a source's table; none where they are not known.
pub open spec fn known_fields(
    source: DataSourceView,
    found: TableLookup,
    semantics: SemanticsView,
) -> Seq<FieldView> {
    match table_schema(source.name, found, semantics) {
        Ok(fields) => fields,
        Err(_) => Seq::empty(),
    }
}

/// The listing of all sources.
pub open spec fn source_listing(
    sources: Seq<DataSourceView>,
    found: Seq<TableLookup>,
    semantics: SemanticsView,
    timestamp: Seq<char>,
) -> JsonView {
    JsonView::Object(
        json::no_members().insert("success"@, JsonView::Bool(true)).insert(
            "data"@,
            JsonView::Array(
                Seq::new(
                    sources.len(),
                    |i: int|
                        source_document(
                            source_response(
                                sources[i],
                                known_fields(sources[i], found[i], semantics),
                                semantics,
                            ),
                        ),
                ),
            ),
        ).insert("count"@, json::integer(sources.len() as u64)).insert(
            "timestamp"@,
            JsonView::String(timestamp),
        ),
    )
}

/// Lists all sources with their tables. `found` holds what the catalog says of
/// the table of each source; a source whose table is not known is listed with
/// an empty schema.
pub fn get_data_sources(
    sources: &Vec<DataSource>,
    found: &Vec<TableLookup>,
    semantics: &SemanticsRegistry,
    timestamp: &str,
) -> (r: Json)
    requires
        found@.len() == sources@.len(),
    ensures
        r@ == source_listing(
            data_source::source_views(sources@),
            found@,
            semantics@,
            timestamp@,
        ),
{
    let ghost all = data_source::source_views(sources@);
    let mut documents: Vec<Json> = Vec::new();
    let mut i: usize = 0;
    while i < sources.len()
        invariant
            all == data_source::source_views(sources@),
            found@.len() == sources@.len(),
            i <= sources@.len(),
            documents@.len() == i,
            forall|k: int|
                0 <= k < i ==> (#[trigger] documents@[k])@ == source_document(
                    source_response(
                        all[k],
                        known_fields(all[k], found@[k], semantics@),
                        semantics@,
                    ),
                ),
        decreases sources@.len() - i,
    {
        let source = &sources[i];
        let fields: Vec<FieldInfo> = match get_table_schema(
            source.name.as_str(),
            &found[i],
            semantics,
        ) {
            Ok(fields) => fields,
            Err(_) => {
                let none: Vec<FieldInfo> = Vec::new();
                assert(field_views(none@) =~= Seq::empty());
                none
            },
        };
        documents.push(describe_source(source, fields, semantics).to_json());
        i += 1;
    }
    assert(json::views(documents@) =~= Seq::new(
        all.len(),
        |k: int|
            source_document(
                source_response(all[k], known_fields(all[k], found@[k], semantics@), semantics@),
            ),
    ));
    let mut members: Vec<(String, Json)> = Vec::new();
    put(&mut members, "success", Json::Bool(true));
    put(&mut members, "data", array(documents));
    put_count(&mut members, "count", sources.len());
    put_text(&mut members, "timestamp", timestamp);
    Json::Object(members)
}

/// A source never shows both a path and a connection string: which of the two
/// it can show is decided by its type. A connection string that is shown names
/// neither user nor password.
pub proof fn sources_show_one_location(
    source: DataSourceView,
    fields: Seq<FieldView>,
    semantics: SemanticsView,
)
    ensures
        ({
            let shown = source_response(source, fields, semantics);
            &&& data_source::connected_type(source.source_type) ==> shown.path is None && (
            shown.url is Some == source.connection_string is Some)
            &&& shown.url matches Some(url) ==> url == location::sanitized(
                source.connection_string->0,
            ) && (location::authority(url) matches Some(authority) ==> !authority.contains('@'))
            &&& !data_source::connected_type(source.source_type) ==> shown.url is None && shown.path
                == Some(source.path.displayed())
        }),
{
    match source.connection_string {
        Some(url) => location::shown_locations_name_no_user(url),
        None => {},
    }
}

/// A request to execute a pipeline.
#[derive(Debug)]
pub struct ExecuteRequest {
    /// The parameters by their names. Of two with one name the later one
    /// counts.
    pub parameters: Vec<(String, Json)>,
}

/// The reply to a request that succeeded.
#[derive(Debug)]
pub struct ExecuteResponse {
    pub data: Vec<Json>,
    pub rows: usize,
    pub execution_time_ms: u64,
}

/// Where an execution stands.
#[derive(Debug)]
pub enum ExecuteState {
    /// The query is being executed.
    Executing,
    /// The rows are being turned into JSON.
    Converting { rows: usize },
    /// The request is answered.
    Answered,
}

/// What came of an action.
#[derive(Debug)]
pub enum ExecuteEvent {
    /// The engine gave this many rows, or failed with this message.
    Executed(Result<usize, String>),
    /// The rows were converted, or this went wrong; then the second text is
    /// their schema as it is shown to developers.
    Converted(Result<Vec<Json>, (String, String)>),
}

/// What is counted of a request.
#[derive(Debug, Clone, Copy)]
pub enum Metric {
    /// Nothing.
    Uncounted,
    /// A success.
    Success,
    /// A failure of this type.
    Failure { error_type: &'static str },
}

/// The model of a [`Metric`].
pub enum MetricView {
    Uncounted,
    Success,
    Failure { error_type: Seq<char> },
}

impl View for Metric {
    type V = MetricView;

    open spec fn view(&self) -> MetricView {
        match self {
            Metric::Uncounted => MetricView::Uncounted,
            Metric::Success => MetricView::Success,
            Metric::Failure { error_type } => MetricView::Failure { error_type: error_type@ },
        }
    }
}

/// What the server does next.
#[derive(Debug)]
pub enum ExecuteAction {
    /// Execute a query.
    Execute { sql: String },
    /// Turn the rows into JSON.
    Convert,
    /// Count the request, then reply with rows or with an error.
    Answer { metric: Metric, reply: Result<(Vec<Json>, usize), ApiError> },
}

/// The model of an [`ExecuteAction`].
pub enum ExecuteActionView {
    Execute { sql: Seq<char> },
    Convert,
    Answer { metric: MetricView, reply: Result<(Seq<Json>, usize), ApiErrorView> },
}

impl View for ExecuteAction {
    type V = ExecuteActionView;

    open spec fn view(&self) -> ExecuteActionView {
        match self {
            ExecuteAction::Execute { sql } => ExecuteActionView::Execute { sql: sql@ },
            ExecuteAction::Convert => ExecuteActionView::Convert,
            ExecuteAction::Answer { metric, reply } => ExecuteActionView::Answer {
                metric: metric@,
                reply: match reply {
                    Ok((data, rows)) => Ok((data@, *rows)),
                    Err(e) => Err(e@),
                },
            },
        }
    }
}

/// A reply that is counted as a failure of its own type.
pub open spec fn counted_failure(e: ApiErrorView) -> ExecuteActionView {
    ExecuteActionView::Answer {
        metric: MetricView::Failure { error_type: e.error_type },
        reply: Err(e),
    }
}

/// The keys of parameters in a row.
pub open spec fn keys(parameters: Seq<(String, Json)>) -> Seq<Seq<char>> {
    Seq::new(parameters.len(), |i: int| parameters[i].0@)
}

/// Members with a list of names where there are some.
pub open spec fn with_names(
    members: Map<Seq<char>, JsonView>,
    key: Seq<char>,
    names: Seq<Seq<char>>,
) -> Map<Seq<char>, JsonView> {
    if names.len() == 0 {
        members
    } else {
        members.insert(key, json::string_array(names))
    }
}

/// The reply to a request whose parameters do not fit: missing ones are named
/// first.
pub open spec fn parameter_error(
    expected: Seq<Seq<char>>,
    received: Seq<Seq<char>>,
    missing: Seq<Seq<char>>,
    unsupported: Seq<Seq<char>>,
) -> ApiErrorView {
    let known = json::no_members().insert(
        "expected_parameters"@,
        json::string_array(expected),
    ).insert("received_parameters"@, json::string_array(received));
    ApiErrorView {
        status: 400,
        message: if missing.len() > 0 {
            "Missing required parameters: "@ + text::joined(missing, ", "@)
        } else {
            "Unsupported parameter types: "@ + text::joined(unsupported, ", "@)
        },
        error_type: "parameter_validation_error"@,
        details: Some(
            JsonView::Object(
                with_names(
                    with_names(known, "missing_parameters"@, missing),
                    "unsupported_parameters"@,
                    unsupported,
                ),
            ),
        ),
    }
}

/// How the execution of a query begins, given its expected parameters in the
/// order in which they are substituted: with the query, or with a reply where
/// the parameters do not fit.
pub open spec fn begun(
    sql: Seq<char>,
    expected: Seq<Seq<char>>,
    parameters: Seq<(String, Json)>,
) -> (ExecuteState, ExecuteActionView) {
    let done = sql_params::substituted(sql, expected, json::members_view(parameters));
    if done.missing.len() > 0 || done.unsupported.len() > 0 {
        (
            ExecuteState::Answered,
            counted_failure(
                parameter_error(expected, keys(parameters), done.missing, done.unsupported),
            ),
        )
    } else {
        (ExecuteState::Executing, ExecuteActionView::Execute { sql: done.sql })
    }
}

fn keys_of(parameters: &Vec<(String, Json)>) -> (r: Vec<String>)
    ensures
        text::texts(r@) == keys(parameters@),
{
    let mut names: Vec<String> = Vec::new();
    let mut i: usize = 0;
    while i < parameters.len()
        invariant
            i <= parameters@.len(),
            names@.len() == i,
            forall|k: int| 0 <= k < i ==> (#[trigger] names@[k])@ == parameters@[k].0@,
        decreases parameters@.len() - i,
    {
        names.push(parameters[i].0.clone());
        i += 1;
    }
    assert(text::texts(names@) =~= keys(parameters@));
    names
}

fn put_names(members: &mut Vec<(String, Json)>, key: &str, names: &Vec<String>)
    ensures
        json::members_view(final(members)@) == with_names(
            json::members_view(old(members)@),
            key@,
            text::texts(names@),
        ),
{
    if names.len() > 0 {
        put(members, key, strings(names));
    }
}

fn refuse_parameters(
    expected: &Vec<String>,
    received: &Vec<String>,
    missing: &Vec<String>,
    unsupported: &Vec<String>,
) -> (r: ApiError)
    ensures
        r@ == parameter_error(
            text::texts(expected@),
            text::texts(received@),
            text::texts(missing@),
            text::texts(unsupported@),
        ),
{
    let mut details: Vec<(String, Json)> = Vec::new();
    put(&mut details, "expected_parameters", strings(expected));
    put(&mut details, "received_parameters", strings(received));
    put_names(&mut details, "missing_parameters", missing);
    put_names(&mut details, "unsupported_parameters", unsupported);
    let message = if missing.len() > 0 {
        concat2("Missing required parameters: ", text::join(missing, ", ").as_str())
    } else {
        concat2("Unsupported parameter types: ", text::join(unsupported, ", ").as_str())
    };
    ApiError {
        status: 400,
        message,
        error_type: "parameter_validation_error",
        details: Some(Json::Object(details)),
    }
}

/// Begins the execution of a query with its expected parameters in the order
/// in which they are substituted.
pub fn begin_with(sql: &str, expected: &Vec<String>, parameters: &Vec<(String, Json)>) -> (r: (
    ExecuteState,
    ExecuteAction,
))
    ensures
        (r.0, r.1@) == begun(sql@, text::texts(expected@), parameters@),
{
    let mut query = sql.to_owned();
    let (missing, unsupported) = substitute_sql_params(&mut query, expected, parameters);
    assert(text::texts(missing@).len() == missing@.len());
    assert(text::texts(unsupported@).len() == unsupported@.len());
    if missing.len() > 0 || unsupported.len() > 0 {
        let received = keys_of(parameters);
        let e = refuse_parameters(expected, &received, &missing, &unsupported);
        let metric = Metric::Failure { error_type: "parameter_validation_error" };
        (ExecuteState::Answered, ExecuteAction::Answer { metric, reply: Err(e) })
    } else {
        (ExecuteState::Executing, ExecuteAction::Execute { sql: query })
    }
}

/// Whether names are an order of a pipeline's parameters with the longest
/// first.
pub open spec fn orders_parameters(pipeline: PipelineView, expected: Seq<Seq<char>>) -> bool {
    &&& sql_params::longest_first_order(expected)
    &&& expected.to_multiset() == firsts(pipeline.parameters).to_multiset()
}

/// Begins the execution of a pipeline. Its parameters are substituted longest
/// name first; the order of names of one length is left open.
pub fn begin_execution(pipelines: &Vec<Pipeline>, name: &str, request: &ExecuteRequest) -> (r: (
    ExecuteState,
    ExecuteAction,
))
    ensures
        match pipeline_named(pipeline_views(pipelines@), name@) {
            Some(pipeline) => exists|expected: Seq<Seq<char>>| #[trigger]
                orders_parameters(pipeline, expected) && (r.0, r.1@) == begun(
                    pipeline.sql,
                    expected,
                    request.parameters@,
                ),
            None => r.0 is Answered && r.1@ == (ExecuteActionView::Answer {
                metric: MetricView::Uncounted,
                reply: Err(
                    not_found(name@, pipeline_names(pipeline_views(pipelines@)), true),
                ),
            }),
        },
{
    match find_pipeline(pipelines, name) {
        Some(pipeline) => {
            let expected = longest_first(parameter_names(&pipeline.parameters));
            assert(orders_parameters(pipeline@, text::texts(expected@)));
            begin_with(pipeline.sql.as_str(), &expected, &request.parameters)
        },
        None => {
            let e = pipeline_not_found(pipelines, name, true);
            (
                ExecuteState::Answered,
                ExecuteAction::Answer { metric: Metric::Uncounted, reply: Err(e) },
            )
        },
    }
}

/// The reply to a query that the engine could not execute.
pub open spec fn execution_error(error: Seq<char>) -> ApiErrorView {
    ApiErrorView {
        status: 500,
        message: "SQL query execution failed: "@ + error,
        error_type: "query_execution_error"@,
        details: Some(
            JsonView::Object(
                json::no_members().insert("engine_error"@, JsonView::String(error)).insert(
                    "registered_tables"@,
                    JsonView::String("Check server logs for data source registration status"@),
                ).insert(
                    "suggestion"@,
                    JsonView::String(
                        "Verify that data sources are properly registered and accessible"@,
                    ),
                ),
            ),
        ),
    }
}

/// The reply to a query whose rows could not be turned into JSON.
pub open spec fn conversion_error(error: Seq<char>, schema: Seq<char>, rows: usize) -> ApiErrorView {
    ApiErrorView {
        status: 500,
        message: "Failed to convert query results to JSON: "@ + error,
        error_type: "result_conversion_error"@,
        details: Some(
            JsonView::Object(
                json::no_members().insert("conversion_error"@, JsonView::String(error)).insert(
                    "record_batch_schema"@,
                    JsonView::String(schema),
                ).insert("record_batch_rows"@, json::integer(rows as u64)),
            ),
        ),
    }
}

fn execution_failed(error: &str) -> (r: ApiError)
    ensures
        r@ == execution_error(error@),
{
    let mut details: Vec<(String, Json)> = Vec::new();
    put_text(&mut details, "engine_error", error);
    put_text(
        &mut details,
        "registered_tables",
        "Check server logs for data source registration status",
    );
    put_text(
        &mut details,
        "suggestion",
        "Verify that data sources are properly registered and accessible",
    );
    ApiError {
        status: 500,
        message: concat2("SQL query execution failed: ", error),
        error_type: "query_execution_error",
        details: Some(Json::Object(details)),
    }
}

fn conversion_failed(error: &str, schema: &str, rows: usize) -> (r: ApiError)
    ensures
        r@ == conversion_error(error@, schema@, rows),
{
    let mut details: Vec<(String, Json)> = Vec::new();
    put_text(&mut details, "conversion_error", error);
    put_text(&mut details, "record_batch_schema", schema);
    put_count(&mut details, "record_batch_rows", rows);
    ApiError {
        status: 500,
        message: concat2("Failed to convert query results to JSON: ", error),
        error_type: "result_conversion_error",
        details: Some(Json::Object(details)),
    }
}

/// What follows an event. `None` where the event is not the one that is waited
/// for.
pub open spec fn stepped(state: ExecuteState, event: ExecuteEvent) -> Option<
    (ExecuteState, ExecuteActionView),
> {
    match (state, event) {
        (ExecuteState::Executing, ExecuteEvent::Executed(result)) => match result {
            Ok(rows) => Some((ExecuteState::Converting { rows }, ExecuteActionView::Convert)),
            Err(error) => Some(
                (ExecuteState::Answered, counted_failure(execution_error(error@))),
            ),
        },
        (ExecuteState::Converting { rows }, ExecuteEvent::Converted(result)) => match result {
            Ok(data) => Some(
                (
                    ExecuteState::Answered,
                    ExecuteActionView::Answer {
                        metric: MetricView::Success,
                        reply: Ok((data@, rows)),
                    },
                ),
            ),
            Err((error, schema)) => Some(
                (
                    ExecuteState::Answered,
                    counted_failure(conversion_error(error@, schema@, rows)),
                ),
            ),
        },
        _ => None,
    }
}

/// Decides what follows an event. `None` where the event is not the one that is
/// waited for.
pub fn step_execution(state: ExecuteState, event: ExecuteEvent) -> (r: Option<
    (ExecuteState, ExecuteAction),
>)
    ensures
        match r {
            Some((next, action)) => stepped(state, event) == Some((next, action@)),
            None => stepped(state, event) is None,
        },
{
    match (state, event) {
        (ExecuteState::Executing, ExecuteEvent::Executed(result)) => match result {
            Ok(rows) => Some((ExecuteState::Converting { rows }, ExecuteAction::Convert)),
            Err(error) => {
                let e = execution_failed(error.as_str());
                let metric = Metric::Failure { error_type: "query_execution_error" };
                Some((ExecuteState::Answered, ExecuteAction::Answer { metric, reply: Err(e) }))
            },
        },
        (ExecuteState::Converting { rows }, ExecuteEvent::Converted(result)) => match result {
            Ok(data) => Some(
                (
                    ExecuteState::Answered,
                    ExecuteAction::Answer { metric: Metric::Success, reply: Ok((data, rows)) },
                ),
            ),
            Err((error, schema)) => {
                let e = conversion_failed(error.as_str(), schema.as_str(), rows);
                let metric = Metric::Failure { error_type: "result_conversion_error" };
                Some((ExecuteState::Answered, ExecuteAction::Answer { metric, reply: Err(e) }))
            },
        },
        _ => None,
    }
}

/// The reply to a request that succeeded.
pub open spec fn success_document(
    data: Seq<JsonView>,
    rows: usize,
    execution_time_ms: u64,
) -> JsonView {
    JsonView::Object(
        json::no_members().insert("data"@, JsonView::Array(data)).insert(
            "rows"@,
            json::integer(rows as u64),
        ).insert("execution_time_ms"@, json::integer(execution_time_ms)),
    )
}

impl ExecuteResponse {
    /// The reply as JSON.
    pub fn into_json(self) -> (r: Json)
        ensures
            r@ == success_document(json::views(self.data@), self.rows, self.execution_time_ms),
    {
        let mut members: Vec<(String, Json)> = Vec::new();
        put(&mut members, "data", array(self.data));
        put_count(&mut members, "rows", self.rows);
        put(
            &mut members,
            "execution_time_ms",
            Json::Number(Number::PosInt(self.execution_time_ms)),
        );
        Json::Object(members)
    }
}

/// No query is executed with a parameter missing or unusable.
pub proof fn only_complete_queries_are_executed(
    sql: Seq<char>,
    expected: Seq<Seq<char>>,
    parameters: Seq<(String, Json)>,
)
    ensures
        ({
            let given = json::members_view(parameters);
            begun(sql, expected, parameters).1 is Execute <==> forall|i: int|
                0 <= i < expected.len() ==> given.contains_key(#[trigger] expected[i])
                    && sql_params::param_sql(expected[i], given[expected[i]]) is Ok
        }),
    decreases expected.len(),
{
    let given = json::members_view(parameters);
    if expected.len() > 0 {
        let shorter = expected.drop_last();
        only_complete_queries_are_executed(sql, shorter, parameters);
        let last = expected.last();
        assert(expected[expected.len() - 1] == last);
        if begun(sql, expected, parameters).1 is Execute {
            assert forall|i: int| 0 <= i < expected.len() implies given.contains_key(
                #[trigger] expected[i],
            ) && sql_params::param_sql(expected[i], given[expected[i]]) is Ok by {
                if i < shorter.len() {
                    assert(shorter[i] == expected[i]);
                }
            }
        }
        if forall|i: int|
            0 <= i < expected.len() ==> given.contains_key(#[trigger] expected[i])
                && sql_params::param_sql(expected[i], given[expected[i]]) is Ok {
            assert forall|i: int| 0 <= i < shorter.len() implies given.contains_key(
                #[trigger] shorter[i],
            ) && sql_params::param_sql(shorter[i], given[shorter[i]]) is Ok by {
                assert(shorter[i] == expected[i]);
            }
        }
    }
}

/// Every failure is counted under the type that its reply gives.
pub proof fn failures_are_counted_by_type(state: ExecuteState, event: ExecuteEvent)
    ensures
        stepped(state, event) matches Some((_, ExecuteActionView::Answer { metric, reply })) ==> (
        match reply {
            Ok(_) => metric is Success,
            Err(e) => metric == (MetricView::Failure { error_type: e.error_type }),
        }),
{
}

} // verus!
