//! What the documents of replies hold.
use vstd::prelude::*;

use crate::json::{Json, JsonView, NumberView};
use crate::server::data_source;
use crate::server::data_source::DataSourceView;
use crate::server::location;
use crate::server::pipeline_handlers;
use crate::server::pipeline_handlers::{
    CheckView, ColumnInfo, ExecuteActionView, ExecuteEvent, ExecuteState, FieldView, MetricView,
    PipelineView, SourceResponseView, TableLookup, TableView,
};
use crate::server::semantics::SemanticsView;
use crate::server::sql_params;
use crate::text;

verus! {

/// Whether a document holds a value under a key.
pub open spec fn holds(document: JsonView, key: Seq<char>, value: JsonView) -> bool {
    document matches JsonView::Object(members) && members.contains_key(key) && members[key] == value
}

/// Whether a document has no member under a key.
pub open spec fn lacks(document: JsonView, key: Seq<char>) -> bool {
    document matches JsonView::Object(members) && !members.contains_key(key)
}

/// Whether a document has members under these keys and no others.
pub open spec fn has_only(document: JsonView, keys: Seq<Seq<char>>) -> bool {
    document matches JsonView::Object(members) && forall|key: Seq<char>| #[trigger]
        members.contains_key(key) ==> keys.contains(key)
}

/// A whole number in a document.
pub open spec fn count(n: int) -> JsonView {
    JsonView::Number(NumberView::PosInt(n as u64))
}

/// Whether a value is a list of texts, in their order.
pub open spec fn lists(value: JsonView, texts: Seq<Seq<char>>) -> bool {
    value matches JsonView::Array(items) && items.len() == texts.len() && forall|i: int|
        0 <= i < texts.len() ==> #[trigger] items[i] == JsonView::String(texts[i])
}

/// Whether a document holds a list of texts under a key.
pub open spec fn holds_list(document: JsonView, key: Seq<char>, texts: Seq<Seq<char>>) -> bool {
    document matches JsonView::Object(members) && members.contains_key(key) && lists(
        members[key],
        texts,
    )
}

/// What a document holds under a key.
pub open spec fn under(document: JsonView, key: Seq<char>) -> JsonView {
    document->Object_0[key]
}

/// The answer about a source that was reached says healthy and accessible; about one
/// that was not, it says neither, and why.
pub proof fn checks_say_what_was_found(check: CheckView)
    ensures
        holds(pipeline_handlers::check_document(check), "name"@, JsonView::String(check.name)),
        match check.error {
            None => {
                &&& holds(
                    pipeline_handlers::check_document(check),
                    "status"@,
                    JsonView::String("healthy"@),
                )
                &&& holds(pipeline_handlers::check_document(check), "accessible"@, JsonView::Bool(true))
                &&& lacks(pipeline_handlers::check_document(check), "error"@)
            },
            Some(error) => {
                &&& holds(
                    pipeline_handlers::check_document(check),
                    "status"@,
                    JsonView::String("unhealthy"@),
                )
                &&& holds(pipeline_handlers::check_document(check), "accessible"@, JsonView::Bool(false))
                &&& holds(pipeline_handlers::check_document(check), "error"@, JsonView::String(error))
            },
        },
{
    reveal_strlit("name");
    reveal_strlit("status");
    reveal_strlit("accessible");
    reveal_strlit("error");
    assert("name"@.len() == 4);
    assert("status"@.len() == 6);
    assert("accessible"@.len() == 10);
    assert("error"@.len() == 5);
}

/// The number of healthy sources is that of the checks without an error.
pub proof fn healthy_sources_are_counted(checks: Seq<CheckView>)
    ensures
        pipeline_handlers::healthy(checks) == checks.filter(|check: CheckView| check.error is None).len(),
    decreases checks.len(),
{
    reveal(Seq::filter);
    if checks.len() > 0 {
        healthy_sources_are_counted(checks.drop_last());
    }
}

proof fn all_healthy(checks: Seq<CheckView>)
    ensures
        pipeline_handlers::healthy(checks) <= checks.len(),
        pipeline_handlers::healthy(checks) == checks.len() <==> forall|k: int|
            0 <= k < checks.len() ==> (#[trigger] checks[k]).error is None,
    decreases checks.len(),
{
    if checks.len() > 0 {
        let shorter = checks.drop_last();
        all_healthy(shorter);
        assert(checks[checks.len() - 1] == checks.last());
        if pipeline_handlers::healthy(checks) == checks.len() {
            assert forall|k: int| 0 <= k < checks.len() implies (
            #[trigger] checks[k]).error is None by {
                if k < shorter.len() {
                    assert(shorter[k] == checks[k]);
                }
            }
        } else if forall|k: int| 0 <= k < checks.len() ==> (#[trigger] checks[k]).error is None {
            assert forall|k: int| 0 <= k < shorter.len() implies (
            #[trigger] shorter[k]).error is None by {
                assert(checks[k] == shorter[k]);
            }
        }
    }
}

/// A health report names the pipeline, says how many sources there are, how many are
/// healthy and what each check found, in their order; the whole is healthy exactly
/// where all are.
pub proof fn health_reports_say_what_was_found(
    pipeline: PipelineView,
    checks: Seq<CheckView>,
    elapsed_ms: u64,
    timestamp: Seq<char>,
    i: int,
)
    ensures
        holds(
            pipeline_handlers::health_report(pipeline, checks, elapsed_ms, timestamp),
            "status"@,
            JsonView::String(
                if forall|k: int| 0 <= k < checks.len() ==> (#[trigger] checks[k]).error is None {
                    "healthy"@
                } else {
                    "degraded"@
                },
            ),
        ),
        holds(
            pipeline_handlers::health_report(pipeline, checks, elapsed_ms, timestamp),
            "health_check_time_ms"@,
            JsonView::Number(NumberView::PosInt(elapsed_ms)),
        ),
        holds(
            pipeline_handlers::health_report(pipeline, checks, elapsed_ms, timestamp),
            "timestamp"@,
            JsonView::String(timestamp),
        ),
        holds(
            under(
                pipeline_handlers::health_report(pipeline, checks, elapsed_ms, timestamp),
                "pipeline"@,
            ),
            "name"@,
            JsonView::String(pipeline.name),
        ),
        holds(
            under(
                pipeline_handlers::health_report(pipeline, checks, elapsed_ms, timestamp),
                "pipeline"@,
            ),
            "version"@,
            JsonView::String(pipeline.version),
        ),
        holds_list(
            under(
                pipeline_handlers::health_report(pipeline, checks, elapsed_ms, timestamp),
                "pipeline"@,
            ),
            "parameters"@,
            Seq::new(pipeline.parameters.len(), |k: int| pipeline.parameters[k].0),
        ),
        holds(
            under(
                pipeline_handlers::health_report(pipeline, checks, elapsed_ms, timestamp),
                "data_sources"@,
            ),
            "total"@,
            count(checks.len() as int),
        ),
        holds(
            under(
                pipeline_handlers::health_report(pipeline, checks, elapsed_ms, timestamp),
                "data_sources"@,
            ),
            "healthy"@,
            count(checks.filter(|check: CheckView| check.error is None).len() as int),
        ),
        under(
            under(
                pipeline_handlers::health_report(pipeline, checks, elapsed_ms, timestamp),
                "data_sources"@,
            ),
            "checks"@,
        ) matches JsonView::Array(items) && items.len() == checks.len() && (0 <= i < checks.len()
            ==> items[i] == pipeline_handlers::check_document(checks[i])),
{
    reveal_strlit("status");
    reveal_strlit("pipeline");
    reveal_strlit("data_sources");
    reveal_strlit("health_check_time_ms");
    reveal_strlit("timestamp");
    reveal_strlit("name");
    reveal_strlit("version");
    reveal_strlit("parameters");
    reveal_strlit("total");
    reveal_strlit("healthy");
    reveal_strlit("checks");
    assert("status"@.len() == 6);
    assert("pipeline"@.len() == 8);
    assert("data_sources"@.len() == 12);
    assert("health_check_time_ms"@.len() == 20);
    assert("timestamp"@.len() == 9);
    assert("name"@.len() == 4);
    assert("version"@.len() == 7);
    assert("parameters"@.len() == 10);
    assert("total"@.len() == 5);
    assert("healthy"@.len() == 7);
    assert("checks"@.len() == 6);
    assert("status"@[0] == 's' && "checks"@[0] == 'c');
    assert("version"@[0] == 'v' && "healthy"@[0] == 'h');
    healthy_sources_are_counted(checks);
    all_healthy(checks);
}

/// A listing holds every pipeline in its order, with its name, its version, the
/// address under its name that executes it, and its parameters with their types, and
/// counts them.
pub proof fn listings_name_every_pipeline(
    pipelines: Seq<PipelineView>,
    data_sources: usize,
    timestamp: Seq<char>,
    i: int,
    k: int,
)
    ensures
        holds(pipeline_handlers::listing(pipelines, data_sources, timestamp), "success"@, JsonView::Bool(true)),
        holds(
            pipeline_handlers::listing(pipelines, data_sources, timestamp),
            "count"@,
            count(pipelines.len() as int),
        ),
        holds(
            pipeline_handlers::listing(pipelines, data_sources, timestamp),
            "data_sources"@,
            count(data_sources as int),
        ),
        holds(
            pipeline_handlers::listing(pipelines, data_sources, timestamp),
            "timestamp"@,
            JsonView::String(timestamp),
        ),
        under(
            pipeline_handlers::listing(pipelines, data_sources, timestamp),
            "pipelines"@,
        ) matches JsonView::Array(items) && items.len() == pipelines.len() && (0 <= i
            < pipelines.len() ==> {
            &&& holds(items[i], "name"@, JsonView::String(pipelines[i].name))
            &&& holds(items[i], "version"@, JsonView::String(pipelines[i].version))
            &&& holds(
                items[i],
                "endpoint"@,
                JsonView::String(seq!['/'] + pipelines[i].name + "/execute"@),
            )
            &&& under(items[i], "parameters"@) matches JsonView::Array(parameters)
                && parameters.len() == pipelines[i].parameters.len() && (0 <= k
                < pipelines[i].parameters.len() ==> holds(
                parameters[k],
                "name"@,
                JsonView::String(pipelines[i].parameters[k].0),
            ) && holds(parameters[k], "type"@, JsonView::String(pipelines[i].parameters[k].1)))
        }),
{
    reveal_strlit("success");
    reveal_strlit("pipelines");
    reveal_strlit("count");
    reveal_strlit("data_sources");
    reveal_strlit("timestamp");
    reveal_strlit("name");
    reveal_strlit("version");
    reveal_strlit("endpoint");
    reveal_strlit("parameters");
    reveal_strlit("type");
    assert("success"@.len() == 7);
    assert("pipelines"@.len() == 9);
    assert("count"@.len() == 5);
    assert("data_sources"@.len() == 12);
    assert("timestamp"@.len() == 9);
    assert("name"@.len() == 4);
    assert("version"@.len() == 7);
    assert("endpoint"@.len() == 8);
    assert("parameters"@.len() == 10);
    assert("type"@.len() == 4);
    assert("success"@[0] == 's' && "version"@[0] == 'v');
    assert("pipelines"@[0] == 'p' && "timestamp"@[0] == 't');
    assert("name"@[0] == 'n' && "type"@[0] == 't');
    reveal_strlit("/");
    assert("/"@ =~= seq!['/']);
}

/// The description of a pipeline holds its name, version, address and times, and its
/// parameters with their types.
pub proof fn descriptions_say_what_a_pipeline_is(
    pipeline: PipelineView,
    timestamp: Seq<char>,
    k: int,
)
    ensures
        holds(pipeline_handlers::description(pipeline, timestamp), "success"@, JsonView::Bool(true)),
        holds(
            pipeline_handlers::description(pipeline, timestamp),
            "timestamp"@,
            JsonView::String(timestamp),
        ),
        ({
            let shown = under(pipeline_handlers::description(pipeline, timestamp), "pipeline"@);
            &&& holds(shown, "name"@, JsonView::String(pipeline.name))
            &&& holds(shown, "version"@, JsonView::String(pipeline.version))
            &&& holds(shown, "endpoint"@, JsonView::String(seq!['/'] + pipeline.name + "/execute"@))
            &&& holds(shown, "created_at"@, pipeline.created_at)
            &&& holds(shown, "updated_at"@, pipeline.updated_at)
            &&& under(shown, "parameters"@) matches JsonView::Array(parameters) && parameters.len()
                == pipeline.parameters.len() && (0 <= k < pipeline.parameters.len() ==> holds(
                parameters[k],
                "name"@,
                JsonView::String(pipeline.parameters[k].0),
            ) && holds(parameters[k], "type"@, JsonView::String(pipeline.parameters[k].1)))
        }),
{
    reveal_strlit("success");
    reveal_strlit("pipeline");
    reveal_strlit("timestamp");
    reveal_strlit("name");
    reveal_strlit("version");
    reveal_strlit("endpoint");
    reveal_strlit("parameters");
    reveal_strlit("created_at");
    reveal_strlit("updated_at");
    reveal_strlit("type");
    assert("success"@.len() == 7);
    assert("pipeline"@.len() == 8);
    assert("timestamp"@.len() == 9);
    assert("name"@.len() == 4);
    assert("version"@.len() == 7);
    assert("endpoint"@.len() == 8);
    assert("parameters"@.len() == 10);
    assert("created_at"@.len() == 10);
    assert("updated_at"@.len() == 10);
    assert("type"@.len() == 4);
    assert("success"@[0] == 's' && "version"@[0] == 'v');
    assert("pipeline"@[0] == 'p' && "endpoint"@[0] == 'e');
    assert("name"@[0] == 'n' && "type"@[0] == 't');
    assert("parameters"@[0] == 'p' && "created_at"@[0] == 'c');
    assert("parameters"@[0] == 'p' && "updated_at"@[0] == 'u');
    assert("created_at"@[0] == 'c' && "updated_at"@[0] == 'u');
    reveal_strlit("/");
    assert("/"@ =~= seq!['/']);
}

/// A pipeline is found by its own name: the first with the name, and none where no
/// pipeline has it.
pub proof fn pipelines_are_found_by_name(pipelines: Seq<PipelineView>, name: Seq<char>)
    ensures
        match pipeline_handlers::pipeline_named(pipelines, name) {
            Some(pipeline) => pipeline.name == name && exists|i: int|
                0 <= i < pipelines.len() && #[trigger] pipelines[i] == pipeline && forall|j: int|
                    0 <= j < i ==> (#[trigger] pipelines[j]).name != name,
            None => forall|i: int| 0 <= i < pipelines.len() ==> (#[trigger] pipelines[i]).name != name,
        },
    decreases pipelines.len(),
{
    if pipelines.len() > 0 {
        let shorter = pipelines.drop_last();
        let last = pipelines.len() - 1;
        pipelines_are_found_by_name(shorter, name);
        assert(pipelines[last] == pipelines.last());
        match pipeline_handlers::pipeline_named(shorter, name) {
            Some(pipeline) => {
                let i = choose|i: int|
                    0 <= i < shorter.len() && #[trigger] shorter[i] == pipeline && forall|j: int|
                        0 <= j < i ==> (#[trigger] shorter[j]).name != name;
                assert(pipelines[i] == pipeline);
                assert forall|j: int| 0 <= j < i implies (#[trigger] pipelines[j]).name != name by {
                    assert(shorter[j] == pipelines[j]);
                }
            },
            None => {
                assert forall|j: int| 0 <= j < last implies (#[trigger] pipelines[j]).name != name by {
                    assert(shorter[j] == pipelines[j]);
                }
            },
        }
    }
}

/// Asking for a pipeline that is not there is answered with 404, the name, and the
/// names of all that are.
pub proof fn unknown_pipelines_are_named(name: Seq<char>, available: Seq<Seq<char>>, requested: bool)
    ensures
        pipeline_handlers::not_found(name, available, requested).status == 404,
        pipeline_handlers::not_found(name, available, requested).error_type == "pipeline_not_found"@,
        pipeline_handlers::not_found(name, available, requested).message == "Pipeline '"@ + name
            + "' not found"@,
        pipeline_handlers::not_found(name, available, requested).details matches Some(details)
            && holds_list(details, "available_pipelines"@, available) && (if requested {
            holds(details, "requested_pipeline"@, JsonView::String(name))
        } else {
            lacks(details, "requested_pipeline"@)
        }),
{
    reveal_strlit("available_pipelines");
    reveal_strlit("requested_pipeline");
    assert("available_pipelines"@.len() == 19);
    assert("requested_pipeline"@.len() == 18);
}

/// A field is shown with its name, type and whether it may be null, and described
/// exactly where it has a description.
pub proof fn fields_are_shown_as_they_are(field: FieldView)
    ensures
        holds(pipeline_handlers::field_document(field), "name"@, JsonView::String(field.name)),
        holds(pipeline_handlers::field_document(field), "type"@, JsonView::String(field.field_type)),
        holds(pipeline_handlers::field_document(field), "nullable"@, JsonView::Bool(field.nullable)),
        match field.description {
            Some(words) => holds(
                pipeline_handlers::field_document(field),
                "description"@,
                JsonView::String(words),
            ),
            None => lacks(pipeline_handlers::field_document(field), "description"@),
        },
{
    reveal_strlit("name");
    reveal_strlit("type");
    reveal_strlit("nullable");
    reveal_strlit("description");
    assert("name"@.len() == 4);
    assert("type"@.len() == 4);
    assert("nullable"@.len() == 8);
    assert("description"@.len() == 11);
    assert("name"@[0] == 'n' && "type"@[0] == 't');
}

/// A table is shown with its name and its fields in their order, and described exactly
/// where it has a description.
pub proof fn tables_are_shown_as_they_are(table: TableView, i: int)
    ensures
        holds(pipeline_handlers::table_document(table), "name"@, JsonView::String(table.name)),
        under(pipeline_handlers::table_document(table), "schema"@) matches JsonView::Array(fields)
            && fields.len() == table.schema.len() && (0 <= i < table.schema.len() ==> fields[i]
            == pipeline_handlers::field_document(table.schema[i])),
        match table.description {
            Some(words) => holds(
                pipeline_handlers::table_document(table),
                "description"@,
                JsonView::String(words),
            ),
            None => lacks(pipeline_handlers::table_document(table), "description"@),
        },
{
    reveal_strlit("name");
    reveal_strlit("schema");
    reveal_strlit("description");
    assert("name"@.len() == 4);
    assert("schema"@.len() == 6);
    assert("description"@.len() == 11);
}

/// A source is shown with its name, its type, its path and address where it has them
/// and null where it has not, and its tables in their order.
pub proof fn sources_are_shown_as_they_are(source: SourceResponseView, i: int)
    ensures
        holds(pipeline_handlers::source_document(source), "name"@, JsonView::String(source.name)),
        holds(pipeline_handlers::source_document(source), "type"@, JsonView::String(source.source_type)),
        holds(
            pipeline_handlers::source_document(source),
            "path"@,
            match source.path {
                Some(path) => JsonView::String(path),
                None => JsonView::Null,
            },
        ),
        holds(
            pipeline_handlers::source_document(source),
            "url"@,
            match source.url {
                Some(url) => JsonView::String(url),
                None => JsonView::Null,
            },
        ),
        under(pipeline_handlers::source_document(source), "tables"@) matches JsonView::Array(tables)
            && tables.len() == source.tables.len() && (0 <= i < source.tables.len() ==> tables[i]
            == pipeline_handlers::table_document(source.tables[i])),
{
    reveal_strlit("name");
    reveal_strlit("type");
    reveal_strlit("path");
    reveal_strlit("url");
    reveal_strlit("tables");
    assert("name"@.len() == 4);
    assert("type"@.len() == 4);
    assert("path"@.len() == 4);
    assert("url"@.len() == 3);
    assert("tables"@.len() == 6);
    assert("name"@[0] == 'n' && "type"@[0] == 't');
    assert("name"@[0] == 'n' && "path"@[0] == 'p');
    assert("type"@[0] == 't' && "path"@[0] == 'p');
}

/// What is shown of a source is what it is: its name and type; the path of one that is
/// reached by a path, and the sanitized address of one that is reached by a
/// connection string; and one table of its name, with its description and fields.
pub proof fn shown_sources_are_those_configured(
    source: DataSourceView,
    fields: Seq<FieldView>,
    semantics: SemanticsView,
)
    ensures
        pipeline_handlers::source_response(source, fields, semantics).name == source.name,
        pipeline_handlers::source_response(source, fields, semantics).source_type
            == data_source::type_text(source.source_type),
        if data_source::connected_type(source.source_type) {
            &&& pipeline_handlers::source_response(source, fields, semantics).path is None
            &&& match source.connection_string {
                Some(url) => pipeline_handlers::source_response(source, fields, semantics).url
                    == Some(location::sanitized(url)),
                None => pipeline_handlers::source_response(source, fields, semantics).url is None,
            }
        } else {
            &&& pipeline_handlers::source_response(source, fields, semantics).path == Some(
                source.path.displayed(),
            )
            &&& pipeline_handlers::source_response(source, fields, semantics).url is None
        },
        pipeline_handlers::source_response(source, fields, semantics).tables.len() == 1,
        pipeline_handlers::source_response(source, fields, semantics).tables[0].name == source.name,
        pipeline_handlers::source_response(source, fields, semantics).tables[0].schema == fields,
        pipeline_handlers::source_response(source, fields, semantics).tables[0].description == (
        if semantics.tables.contains_key(source.name) {
            Some(semantics.tables[source.name])
        } else {
            None::<Seq<char>>
        }),
{
}

/// The schema of a table is its columns in their order, each with its name, type and
/// whether it may be null, and the words that the semantics have for it; where the
/// table cannot be had, the reason is said and names the table.
pub proof fn schemas_are_the_columns_found(
    table: Seq<char>,
    columns: Vec<ColumnInfo>,
    error: String,
    semantics: SemanticsView,
    i: int,
)
    ensures
        pipeline_handlers::table_schema(table, TableLookup::Found(columns), semantics) matches Ok(
            fields,
        ) && fields.len() == columns@.len() && (0 <= i < columns@.len() ==> {
            &&& fields[i].name == columns@[i].name@
            &&& fields[i].field_type == columns@[i].data_type@
            &&& fields[i].nullable == columns@[i].nullable
            &&& fields[i].description == crate::server::semantics::column_text(
                semantics,
                table,
                columns@[i].name@,
            )
        }),
        pipeline_handlers::table_schema(table, TableLookup::Failed(error), semantics) == Err::<
            Seq<FieldView>,
            _,
        >("Failed to get table '"@ + table + "': "@ + error@),
        pipeline_handlers::table_schema(table, TableLookup::NotFound, semantics) == Err::<
            Seq<FieldView>,
            _,
        >("Table '"@ + table + "' not found in catalog"@),
        pipeline_handlers::table_schema(table, TableLookup::NoCatalog, semantics) == Err::<
            Seq<FieldView>,
            _,
        >("Default catalog 'datafusion' not found"@),
        pipeline_handlers::table_schema(table, TableLookup::NoSchema, semantics) == Err::<
            Seq<FieldView>,
            _,
        >("Schema 'public' not found"@),
{
}

/// The listing of sources shows every source in its order and counts them; one whose
/// table cannot be had is shown without fields.
pub proof fn source_listings_show_every_source(
    sources: Seq<DataSourceView>,
    found: Seq<TableLookup>,
    semantics: SemanticsView,
    timestamp: Seq<char>,
    i: int,
)
    ensures
        holds(
            pipeline_handlers::source_listing(sources, found, semantics, timestamp),
            "success"@,
            JsonView::Bool(true),
        ),
        holds(
            pipeline_handlers::source_listing(sources, found, semantics, timestamp),
            "count"@,
            count(sources.len() as int),
        ),
        holds(
            pipeline_handlers::source_listing(sources, found, semantics, timestamp),
            "timestamp"@,
            JsonView::String(timestamp),
        ),
        under(
            pipeline_handlers::source_listing(sources, found, semantics, timestamp),
            "data"@,
        ) matches JsonView::Array(items) && items.len() == sources.len() && (0 <= i < sources.len()
            ==> items[i] == pipeline_handlers::source_document(
            pipeline_handlers::source_response(
                sources[i],
                match pipeline_handlers::table_schema(sources[i].name, found[i], semantics) {
                    Ok(fields) => fields,
                    Err(_) => Seq::empty(),
                },
                semantics,
            ),
        )),
{
    reveal_strlit("success");
    reveal_strlit("data");
    reveal_strlit("count");
    reveal_strlit("timestamp");
    assert("success"@.len() == 7);
    assert("data"@.len() == 4);
    assert("count"@.len() == 5);
    assert("timestamp"@.len() == 9);
}

/// A request with missing or unusable parameters is answered with 400; the message
/// names the missing ones, or else the unusable ones, and the details list what was
/// expected, what was received, and whatever is missing or unusable.
pub proof fn parameter_errors_say_what_is_wrong(
    expected: Seq<Seq<char>>,
    received: Seq<Seq<char>>,
    missing: Seq<Seq<char>>,
    unsupported: Seq<Seq<char>>,
)
    ensures
        pipeline_handlers::parameter_error(expected, received, missing, unsupported).status == 400,
        pipeline_handlers::parameter_error(expected, received, missing, unsupported).error_type
            == "parameter_validation_error"@,
        missing.len() > 0 ==> pipeline_handlers::parameter_error(
            expected,
            received,
            missing,
            unsupported,
        ).message == "Missing required parameters: "@ + text::joined(missing, seq![',', ' ']),
        missing.len() == 0 ==> pipeline_handlers::parameter_error(
            expected,
            received,
            missing,
            unsupported,
        ).message == "Unsupported parameter types: "@ + text::joined(unsupported, seq![',', ' ']),
        pipeline_handlers::parameter_error(
            expected,
            received,
            missing,
            unsupported,
        ).details matches Some(details) && {
            &&& holds_list(details, "expected_parameters"@, expected)
            &&& holds_list(details, "received_parameters"@, received)
            &&& if missing.len() > 0 {
                holds_list(details, "missing_parameters"@, missing)
            } else {
                lacks(details, "missing_parameters"@)
            }
            &&& if unsupported.len() > 0 {
                holds_list(details, "unsupported_parameters"@, unsupported)
            } else {
                lacks(details, "unsupported_parameters"@)
            }
        },
{
    reveal_strlit("expected_parameters");
    reveal_strlit("received_parameters");
    reveal_strlit("missing_parameters");
    reveal_strlit("unsupported_parameters");
    assert("expected_parameters"@.len() == 19);
    assert("received_parameters"@.len() == 19);
    assert("missing_parameters"@.len() == 18);
    assert("unsupported_parameters"@.len() == 22);
    assert("expected_parameters"@[0] == 'e' && "received_parameters"@[0] == 'r');
    reveal_strlit(", ");
    assert(", "@ =~= seq![',', ' ']);
}

/// A pipeline's query is executed, with its parameters in it, exactly where nothing is
/// missing or unusable; otherwise the request is answered with the parameter error and
/// counted as that failure.
pub proof fn complete_requests_are_executed(
    sql: Seq<char>,
    expected: Seq<Seq<char>>,
    parameters: Seq<(String, Json)>,
)
    ensures
        ({
            let done = sql_params::substituted(
                sql,
                expected,
                crate::json::members_view(parameters),
            );
            if done.missing.len() == 0 && done.unsupported.len() == 0 {
                pipeline_handlers::begun(sql, expected, parameters) == (
                    ExecuteState::Executing,
                    ExecuteActionView::Execute { sql: done.sql },
                )
            } else {
                pipeline_handlers::begun(sql, expected, parameters) matches (
                    ExecuteState::Answered,
                    ExecuteActionView::Answer {
                        metric: MetricView::Failure { error_type },
                        reply: Err(e),
                    },
                ) && error_type == "parameter_validation_error"@ && e.status == 400 && e.error_type
                    == error_type && e == pipeline_handlers::parameter_error(
                    expected,
                    Seq::new(parameters.len(), |i: int| parameters[i].0@),
                    done.missing,
                    done.unsupported,
                )
            }
        }),
{
    assert(pipeline_handlers::keys(parameters) =~= Seq::new(
        parameters.len(),
        |i: int| parameters[i].0@,
    ));
}

/// What an executed pipeline is answered: the converted rows and as many as the engine
/// gave, or an error of 500 that tells what failed and is counted under its type.
pub proof fn executions_are_answered(
    rows: usize,
    data: Vec<Json>,
    error: String,
    schema: String,
)
    ensures
        pipeline_handlers::stepped(ExecuteState::Executing, ExecuteEvent::Executed(Ok(rows))) == Some(
            (ExecuteState::Converting { rows }, ExecuteActionView::Convert),
        ),
        pipeline_handlers::stepped(
            ExecuteState::Converting { rows },
            ExecuteEvent::Converted(Ok(data)),
        ) == Some(
            (
                ExecuteState::Answered,
                ExecuteActionView::Answer { metric: MetricView::Success, reply: Ok((data@, rows)) },
            ),
        ),
        pipeline_handlers::stepped(
            ExecuteState::Executing,
            ExecuteEvent::Executed(Err(error)),
        ) matches Some(
            (
                ExecuteState::Answered,
                ExecuteActionView::Answer {
                    metric: MetricView::Failure { error_type },
                    reply: Err(e),
                },
            ),
        ) && error_type == e.error_type && e.status == 500 && e.error_type
            == "query_execution_error"@ && e.message == "SQL query execution failed: "@ + error@ && (
        e.details matches Some(details) && holds(
            details,
            "engine_error"@,
            JsonView::String(error@),
        ) && holds(
            details,
            "registered_tables"@,
            JsonView::String("Check server logs for data source registration status"@),
        ) && holds(
            details,
            "suggestion"@,
            JsonView::String("Verify that data sources are properly registered and accessible"@),
        )),
        pipeline_handlers::stepped(
            ExecuteState::Converting { rows },
            ExecuteEvent::Converted(Err((error, schema))),
        ) matches Some(
            (
                ExecuteState::Answered,
                ExecuteActionView::Answer {
                    metric: MetricView::Failure { error_type },
                    reply: Err(e),
                },
            ),
        ) && error_type == e.error_type && e.status == 500 && e.error_type
            == "result_conversion_error"@ && e.message
            == "Failed to convert query results to JSON: "@ + error@ && (
        e.details matches Some(details) && holds(
            details,
            "conversion_error"@,
            JsonView::String(error@),
        ) && holds(details, "record_batch_schema"@, JsonView::String(schema@)) && holds(
            details,
            "record_batch_rows"@,
            count(rows as int),
        )),
{
    reveal_strlit("engine_error");
    reveal_strlit("registered_tables");
    reveal_strlit("suggestion");
    reveal_strlit("conversion_error");
    reveal_strlit("record_batch_schema");
    reveal_strlit("record_batch_rows");
    assert("engine_error"@.len() == 12);
    assert("registered_tables"@.len() == 17);
    assert("suggestion"@.len() == 10);
    assert("conversion_error"@.len() == 16);
    assert("record_batch_schema"@.len() == 19);
    assert("record_batch_rows"@.len() == 17);
    assert("registered_tables"@[2] == 'g' && "record_batch_rows"@[2] == 'c');
}

/// A success is answered with the rows, their number and the time that it took.
pub proof fn successes_show_their_rows(data: Seq<JsonView>, rows: usize, execution_time_ms: u64)
    ensures
        holds(
            pipeline_handlers::success_document(data, rows, execution_time_ms),
            "data"@,
            JsonView::Array(data),
        ),
        holds(
            pipeline_handlers::success_document(data, rows, execution_time_ms),
            "rows"@,
            count(rows as int),
        ),
        holds(
            pipeline_handlers::success_document(data, rows, execution_time_ms),
            "execution_time_ms"@,
            JsonView::Number(NumberView::PosInt(execution_time_ms)),
        ),
{
    reveal_strlit("data");
    reveal_strlit("rows");
    reveal_strlit("execution_time_ms");
    assert("data"@.len() == 4);
    assert("rows"@.len() == 4);
    assert("execution_time_ms"@.len() == 17);
    assert("data"@[0] == 'd' && "rows"@[0] == 'r');
}

/// An event of an execution is taken only by the state that waits for it.
pub proof fn execution_events_are_taken_in_turn(state: ExecuteState, event: ExecuteEvent)
    ensures
        pipeline_handlers::stepped(state, event) is Some <==> match event {
            ExecuteEvent::Executed(_) => state is Executing,
            ExecuteEvent::Converted(_) => state is Converting,
        },
{
}

} // verus!
