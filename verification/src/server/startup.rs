//! The start of the server: what was loaded becomes its configuration, or the
//! start fails.
use vstd::prelude::*;

use crate::json::Json;
use crate::server::config;
use crate::server::config::{validator_config_from_sources, SqlValidatorConfig};
use crate::server::data_source;
use crate::server::data_source::{DataSource, DataSourceView};
use crate::server::pipeline_handlers::Pipeline;
use crate::server::semantics;
use crate::server::semantics::SemanticsRegistry;
use crate::text;
use crate::text::{concat2, concat3, same_text};

verus! {

/// The arguments of the server.
#[derive(Debug, Default)]
pub struct CliArgs {
    /// A pipeline file or a directory of them.
    pub pipeline_path: Option<String>,
    /// A job file or a directory of them.
    pub jobs_path: Option<String>,
    /// The ledger of job runs.
    pub jobs_db_path: Option<String>,
    /// The context file.
    pub ctx_file: Option<String>,
    /// A file of descriptions or a directory of them.
    pub semantics_path: Option<String>,
    pub port: u16,
    /// The ledger of ad-hoc statements, which are recorded only with one.
    pub query_audit_db: Option<String>,
    /// After how many days records of the ledger are deleted.
    pub query_audit_retention_days: Option<u32>,
}

/// The configuration of the server.
#[derive(Debug)]
pub struct ServerConfig {
    pub pipelines: Vec<Pipeline>,
    /// The names of jobs.
    pub jobs: Vec<String>,
    pub data_sources: Vec<DataSource>,
    pub semantics: SemanticsRegistry,
    pub args: CliArgs,
}

/// Why the start failed: a message and, where there is one, its cause.
#[derive(Debug)]
pub struct LoadFailure {
    pub message: String,
    pub cause: Option<String>,
}

/// The model of a [`LoadFailure`].
pub struct FailureView {
    pub message: Seq<char>,
    pub cause: Option<Seq<char>>,
}

impl View for LoadFailure {
    type V = FailureView;

    open spec fn view(&self) -> FailureView {
        FailureView { message: self.message@, cause: data_source::owned(self.cause) }
    }
}

/// A check of SQL against the access modes of the sources, as it is asked for.
#[derive(Debug)]
pub struct SqlCheck {
    pub sql: String,
    pub access: SqlValidatorConfig,
}

/// What is to be checked of the SQL of a pipeline: it may do what the access
/// modes of the sources allow. Pipelines are written by operators, so no schema
/// is denied to them.
pub fn validate_pipeline_sql(sql: &str, data_sources: &Vec<DataSource>) -> (r: SqlCheck)
    ensures
        r.sql@ == sql@,
        r.access@ == config::source_modes(data_source::source_views(data_sources@)),
{
    SqlCheck { sql: sql.to_owned(), access: validator_config_from_sources(data_sources) }
}

/// What the check of SQL says.
#[derive(Debug)]
pub enum SqlVerdict {
    Passed,
    /// The SQL does what the access modes do not allow.
    Rejected { error: String },
}

/// What the check of a pipeline's SQL says, before any pipeline is loaded.
/// Paths are given as they are shown to developers.
#[derive(Debug)]
pub enum PipelineScreen {
    /// The file could not be read as a pipeline.
    Unreadable { path: String, error: String },
    /// The name and the SQL in the file, and what the check says of that SQL.
    Checked { name: String, sql: String, verdict: SqlVerdict },
}

/// What a file says of a pipeline beside its name and its SQL.
#[derive(Debug)]
pub struct PipelineDetails {
    pub version: String,
    /// Its parameters: name, and type as it is shown to developers.
    pub parameters: Vec<(String, String)>,
    pub created_at: Json,
    pub updated_at: Json,
}

/// What became of loading a pipeline.
#[derive(Debug)]
pub enum PipelineLoad {
    Loaded(PipelineDetails),
    Failed { path: String, error: String },
}

/// A file that may hold a pipeline: what the check of its SQL says, and what
/// became of loading it.
#[derive(Debug)]
pub struct PipelineFile {
    pub screen: PipelineScreen,
    pub load: PipelineLoad,
}

/// What became of loading a job.
#[derive(Debug)]
pub enum JobLoad {
    /// A job with this name.
    Loaded { name: String },
    /// The file is not a job.
    NotAJob,
    Failed { path: String, error: String },
}

/// A pipeline that could not be loaded.
pub open spec fn unloadable(path: Seq<char>, error: Seq<char>) -> FailureView {
    FailureView { message: "Failed to load pipeline from "@ + path, cause: Some(error) }
}

/// What the check of a pipeline's SQL finds.
pub open spec fn screen_problem(screen: PipelineScreen) -> Option<FailureView> {
    match screen {
        PipelineScreen::Unreadable { path, error } => Some(unloadable(path@, error@)),
        PipelineScreen::Checked { name, sql, verdict } => match verdict {
            SqlVerdict::Passed => None,
            SqlVerdict::Rejected { error } => Some(
                FailureView {
                    message: "Pipeline '"@ + name@ + "' SQL validation failed: "@ + error@,
                    cause: None,
                },
            ),
        },
    }
}

/// What the first check that finds something finds.
pub open spec fn screens_problem(files: Seq<PipelineFile>) -> Option<FailureView>
    decreases files.len(),
{
    if files.len() == 0 {
        None
    } else {
        match screens_problem(files.drop_last()) {
            Some(e) => Some(e),
            None => screen_problem(files.last().screen),
        }
    }
}

/// The pipeline with a name, its SQL and what else its file says.
pub open spec fn assembled(name: String, sql: String, details: PipelineDetails) -> Pipeline {
    Pipeline {
        name,
        version: details.version,
        sql,
        parameters: details.parameters,
        created_at: details.created_at,
        updated_at: details.updated_at,
    }
}

/// The pipeline of a file: its SQL is the SQL that was checked.
pub open spec fn pipeline_of(file: PipelineFile) -> Result<Pipeline, FailureView> {
    match (file.screen, file.load) {
        (PipelineScreen::Unreadable { path, error }, _) => Err(unloadable(path@, error@)),
        (_, PipelineLoad::Failed { path, error }) => Err(unloadable(path@, error@)),
        (
            PipelineScreen::Checked { name, sql, verdict },
            PipelineLoad::Loaded(details),
        ) => Ok(assembled(name, sql, details)),
    }
}

/// The pipelines that were loaded, which must have different names.
pub open spec fn pipelines_loaded(files: Seq<PipelineFile>) -> Result<Seq<Pipeline>, FailureView>
    decreases files.len(),
{
    if files.len() == 0 {
        Ok(Seq::empty())
    } else {
        match pipelines_loaded(files.drop_last()) {
            Err(e) => Err(e),
            Ok(before) => match pipeline_of(files.last()) {
                Err(e) => Err(e),
                Ok(pipeline) => if pipeline_names(before).contains(pipeline.name@) {
                    Err(
                        FailureView {
                            message: "Duplicate pipeline name '"@ + pipeline.name@
                                + "' found. Each pipeline must have a unique name."@,
                            cause: None,
                        },
                    )
                } else {
                    Ok(before.push(pipeline))
                },
            },
        }
    }
}

/// The names of pipelines in a row.
pub open spec fn pipeline_names(pipelines: Seq<Pipeline>) -> Seq<Seq<char>> {
    Seq::new(pipelines.len(), |i: int| pipelines[i].name@)
}

/// The jobs that were loaded, which must have names that neither another job
/// nor a pipeline has. Files that are not jobs are skipped.
pub open spec fn jobs_loaded(pipelines: Seq<Seq<char>>, loads: Seq<JobLoad>) -> Result<
    Seq<Seq<char>>,
    FailureView,
>
    decreases loads.len(),
{
    if loads.len() == 0 {
        Ok(Seq::empty())
    } else {
        match jobs_loaded(pipelines, loads.drop_last()) {
            Err(e) => Err(e),
            Ok(before) => match loads.last() {
                JobLoad::NotAJob => Ok(before),
                JobLoad::Failed { path, error } => Err(
                    FailureView {
                        message: "Failed to load job from "@ + path@ + ": "@ + error@,
                        cause: None,
                    },
                ),
                JobLoad::Loaded { name } => if pipelines.contains(name@) {
                    Err(
                        FailureView {
                            message: "Job name '"@ + name@
                                + "' collides with an existing pipeline name; both primitives share the same namespace in this server"@,
                            cause: None,
                        },
                    )
                } else if before.contains(name@) {
                    Err(
                        FailureView {
                            message: "Duplicate job name '"@ + name@
                                + "' found. Each job must have a unique name."@,
                            cause: None,
                        },
                    )
                } else {
                    Ok(before.push(name@))
                },
            },
        }
    }
}

proof fn screens_problem_stands(screens: Seq<PipelineFile>, i: int)
    requires
        0 <= i <= screens.len(),
        screens_problem(screens.take(i)) is Some,
    ensures
        screens_problem(screens) == screens_problem(screens.take(i)),
    decreases screens.len(),
{
    if i == screens.len() {
        assert(screens.take(i) =~= screens);
    } else {
        assert(screens.drop_last().take(i) =~= screens.take(i));
        screens_problem_stands(screens.drop_last(), i);
    }
}

proof fn pipeline_failure_stands(loads: Seq<PipelineFile>, i: int)
    requires
        0 <= i <= loads.len(),
        pipelines_loaded(loads.take(i)) is Err,
    ensures
        pipelines_loaded(loads) == pipelines_loaded(loads.take(i)),
    decreases loads.len(),
{
    if i == loads.len() {
        assert(loads.take(i) =~= loads);
    } else {
        assert(loads.drop_last().take(i) =~= loads.take(i));
        pipeline_failure_stands(loads.drop_last(), i);
    }
}

proof fn job_failure_stands(pipelines: Seq<Seq<char>>, loads: Seq<JobLoad>, i: int)
    requires
        0 <= i <= loads.len(),
        jobs_loaded(pipelines, loads.take(i)) is Err,
    ensures
        jobs_loaded(pipelines, loads) == jobs_loaded(pipelines, loads.take(i)),
    decreases loads.len(),
{
    if i == loads.len() {
        assert(loads.take(i) =~= loads);
    } else {
        assert(loads.drop_last().take(i) =~= loads.take(i));
        job_failure_stands(pipelines, loads.drop_last(), i);
    }
}

fn unloadable_pipeline(path: &str, error: &str) -> (r: LoadFailure)
    ensures
        r@ == unloadable(path@, error@),
{
    LoadFailure {
        message: concat2("Failed to load pipeline from ", path),
        cause: Some(error.to_owned()),
    }
}

/// Checks what the checks of the pipelines' SQL say.
pub fn check_screens(files: &Vec<PipelineFile>) -> (r: Result<(), LoadFailure>)
    ensures
        match r {
            Ok(_) => screens_problem(files@) is None,
            Err(e) => screens_problem(files@) == Some(e@),
        },
{
    let mut i: usize = 0;
    assert(files@.take(0) =~= Seq::empty());
    while i < files.len()
        invariant
            i <= files@.len(),
            screens_problem(files@.take(i as int)) is None,
        decreases files@.len() - i,
    {
        assert(files@.take(i + 1).drop_last() =~= files@.take(i as int));
        match &files[i].screen {
            PipelineScreen::Unreadable { path, error } => {
                proof {
                    screens_problem_stands(files@, i + 1);
                }
                return Err(unloadable_pipeline(path.as_str(), error.as_str()));
            },
            PipelineScreen::Checked { name, sql: _, verdict } => match verdict {
                SqlVerdict::Passed => {},
                SqlVerdict::Rejected { error } => {
                    proof {
                        screens_problem_stands(files@, i + 1);
                    }
                    let mut message = concat3(
                        "Pipeline '",
                        name.as_str(),
                        "' SQL validation failed: ",
                    );
                    message.append(error.as_str());
                    return Err(LoadFailure { message, cause: None });
                },
            },
        }
        i += 1;
    }
    assert(files@.take(i as int) =~= files@);
    Ok(())
}

/// The pipeline of a file.
fn assemble(file: PipelineFile) -> (r: Result<Pipeline, LoadFailure>)
    ensures
        match r {
            Ok(pipeline) => pipeline_of(file) == Ok::<_, FailureView>(pipeline),
            Err(e) => pipeline_of(file) == Err::<Pipeline, _>(e@),
        },
{
    let PipelineFile { screen, load } = file;
    match screen {
        PipelineScreen::Unreadable { path, error } => Err(
            unloadable_pipeline(path.as_str(), error.as_str()),
        ),
        PipelineScreen::Checked { name, sql, verdict: _ } => match load {
            PipelineLoad::Failed { path, error } => Err(
                unloadable_pipeline(path.as_str(), error.as_str()),
            ),
            PipelineLoad::Loaded(details) => Ok(
                Pipeline {
                    name,
                    version: details.version,
                    sql,
                    parameters: details.parameters,
                    created_at: details.created_at,
                    updated_at: details.updated_at,
                },
            ),
        },
    }
}

fn has_pipeline(pipelines: &Vec<Pipeline>, name: &str) -> (r: bool)
    ensures
        r == pipeline_names(pipelines@).contains(name@),
{
    let ghost names = pipeline_names(pipelines@);
    let mut i: usize = 0;
    while i < pipelines.len()
        invariant
            names == pipeline_names(pipelines@),
            i <= pipelines@.len(),
            forall|k: int| 0 <= k < i ==> #[trigger] names[k] != name@,
        decreases pipelines@.len() - i,
    {
        if same_text(pipelines[i].name.as_str(), name) {
            assert(names[i as int] == name@);
            return true;
        }
        i += 1;
    }
    false
}

fn has_job(jobs: &Vec<String>, name: &str) -> (r: bool)
    ensures
        r == text::texts(jobs@).contains(name@),
{
    let ghost names = text::texts(jobs@);
    let mut i: usize = 0;
    while i < jobs.len()
        invariant
            names == text::texts(jobs@),
            i <= jobs@.len(),
            forall|k: int| 0 <= k < i ==> #[trigger] names[k] != name@,
        decreases jobs@.len() - i,
    {
        if same_text(jobs[i].as_str(), name) {
            assert(names[i as int] == name@);
            return true;
        }
        i += 1;
    }
    false
}

/// Collects the pipelines that were loaded.
pub fn collect_pipelines(files: Vec<PipelineFile>) -> (r: Result<Vec<Pipeline>, LoadFailure>)
    ensures
        match r {
            Ok(pipelines) => pipelines_loaded(files@) == Ok::<_, FailureView>(pipelines@),
            Err(e) => pipelines_loaded(files@) == Err::<Seq<Pipeline>, _>(e@),
        },
{
    let ghost all = files@;
    let ghost mut done: int = 0;
    let mut rest = files;
    let mut pipelines: Vec<Pipeline> = Vec::new();
    assert(all.take(0) =~= Seq::empty());
    while rest.len() > 0
        invariant
            all == files@,
            0 <= done <= all.len(),
            rest@ == all.skip(done),
            pipelines_loaded(all.take(done)) == Ok::<_, FailureView>(pipelines@),
        decreases rest@.len(),
    {
        let file = rest.remove(0);
        proof {
            assert(file == all[done]);
            assert(all.take(done + 1).drop_last() =~= all.take(done));
            assert(all.take(done + 1).last() == file);
            assert(rest@ =~= all.skip(done + 1));
        }
        let pipeline = match assemble(file) {
            Ok(pipeline) => pipeline,
            Err(e) => {
                proof {
                    pipeline_failure_stands(all, done + 1);
                }
                return Err(e);
            },
        };
        if has_pipeline(&pipelines, pipeline.name.as_str()) {
            proof {
                pipeline_failure_stands(all, done + 1);
            }
            return Err(
                LoadFailure {
                    message: concat3(
                        "Duplicate pipeline name '",
                        pipeline.name.as_str(),
                        "' found. Each pipeline must have a unique name.",
                    ),
                    cause: None,
                },
            );
        }
        pipelines.push(pipeline);
        proof {
            done = done + 1;
        }
    }
    assert(all.take(done) =~= all);
    Ok(pipelines)
}

/// Collects the names of the jobs that were loaded.
pub fn collect_jobs(pipelines: &Vec<Pipeline>, loads: &Vec<JobLoad>) -> (r: Result<
    Vec<String>,
    LoadFailure,
>)
    ensures
        match r {
            Ok(jobs) => jobs_loaded(pipeline_names(pipelines@), loads@) == Ok::<_, FailureView>(
                text::texts(jobs@),
            ),
            Err(e) => jobs_loaded(pipeline_names(pipelines@), loads@) == Err::<Seq<Seq<char>>, _>(
                e@,
            ),
        },
{
    let ghost names = pipeline_names(pipelines@);
    let mut jobs: Vec<String> = Vec::new();
    let mut i: usize = 0;
    assert(loads@.take(0) =~= Seq::empty());
    assert(text::texts(jobs@) =~= Seq::empty());
    while i < loads.len()
        invariant
            names == pipeline_names(pipelines@),
            i <= loads@.len(),
            jobs_loaded(names, loads@.take(i as int)) == Ok::<_, FailureView>(text::texts(jobs@)),
        decreases loads@.len() - i,
    {
        let ghost before = text::texts(jobs@);
        assert(loads@.take(i + 1).drop_last() =~= loads@.take(i as int));
        match &loads[i] {
            JobLoad::NotAJob => {},
            JobLoad::Failed { path, error } => {
                proof {
                    job_failure_stands(names, loads@, i + 1);
                }
                let mut message = concat3("Failed to load job from ", path.as_str(), ": ");
                message.append(error.as_str());
                return Err(LoadFailure { message, cause: None });
            },
            JobLoad::Loaded { name } => {
                if has_pipeline(pipelines, name.as_str()) {
                    proof {
                        job_failure_stands(names, loads@, i + 1);
                    }
                    return Err(
                        LoadFailure {
                            message: concat3(
                                "Job name '",
                                name.as_str(),
                                "' collides with an existing pipeline name; both primitives share the same namespace in this server",
                            ),
                            cause: None,
                        },
                    );
                }
                if has_job(&jobs, name.as_str()) {
                    proof {
                        job_failure_stands(names, loads@, i + 1);
                    }
                    return Err(
                        LoadFailure {
                            message: concat3(
                                "Duplicate job name '",
                                name.as_str(),
                                "' found. Each job must have a unique name.",
                            ),
                            cause: None,
                        },
                    );
                }
                jobs.push(name.clone());
                assert(text::texts(jobs@) =~= before.push(name@));
            },
        }
        i += 1;
    }
    assert(loads@.take(i as int) =~= loads@);
    Ok(jobs)
}

/// The name of each source with its description in the context file.
pub open spec fn source_descriptions(sources: Seq<DataSourceView>) -> Seq<
    (Seq<char>, Option<Seq<char>>),
> {
    Seq::new(sources.len(), |i: int| (sources[i].name, sources[i].description))
}

/// The name of each source with its description in the context file.
pub fn context_descriptions(sources: &Vec<DataSource>) -> (r: Vec<(String, Option<String>)>)
    ensures
        semantics::described(r@) == source_descriptions(data_source::source_views(sources@)),
{
    let mut descriptions: Vec<(String, Option<String>)> = Vec::new();
    let mut i: usize = 0;
    while i < sources.len()
        invariant
            i <= sources@.len(),
            descriptions@.len() == i,
            forall|k: int|
                0 <= k < i ==> (#[trigger] descriptions@[k]).0@ == sources@[k].name@
                    && data_source::owned(descriptions@[k].1) == data_source::owned(
                    sources@[k].description,
                ),
        decreases sources@.len() - i,
    {
        let description: Option<String> = match &sources[i].description {
            Some(description) => Some(description.clone()),
            None => None,
        };
        descriptions.push((sources[i].name.clone(), description));
        i += 1;
    }
    assert(semantics::described(descriptions@) =~= source_descriptions(
        data_source::source_views(sources@),
    ));
    descriptions
}

/// Whether the operator is warned that a path for jobs was given and none of
/// its files is one.
pub fn jobs_are_missing(jobs_path: Option<&str>, files: usize, jobs: usize) -> (r: bool)
    ensures
        r == (jobs_path is Some && files > 0 && jobs == 0),
{
    jobs_path.is_some() && files > 0 && jobs == 0
}

/// Why the start fails, if it does. Everything about the SQL of pipelines is
/// checked before any is loaded, and pipelines are loaded before jobs.
pub open spec fn load_problem(files: Seq<PipelineFile>, jobs: Seq<JobLoad>) -> Option<FailureView> {
    match screens_problem(files) {
        Some(e) => Some(e),
        None => match pipelines_loaded(files) {
            Err(e) => Some(e),
            Ok(loaded) => match jobs_loaded(pipeline_names(loaded), jobs) {
                Err(e) => Some(e),
                Ok(_) => None,
            },
        },
    }
}

/// Whether pipelines are those of files whose SQL passed the check: one of
/// each file, with the name and the SQL that were checked.
pub open spec fn all_checked(pipelines: Seq<Pipeline>, files: Seq<PipelineFile>) -> bool {
    &&& pipelines.len() == files.len()
    &&& forall|i: int|
        #![trigger pipelines[i]]
        0 <= i < files.len() ==> files[i].screen == (PipelineScreen::Checked {
            name: pipelines[i].name,
            sql: pipelines[i].sql,
            verdict: SqlVerdict::Passed,
        })
}

/// The configuration that was loaded: the pipelines and jobs, each with a name
/// of its own, the arguments as given, the sources of the context file, and the
/// descriptions completed by those of the sources. The SQL of every pipeline
/// passed its check. Without a context file there are no sources.
pub fn load_server_config(
    args: CliArgs,
    context: Vec<DataSource>,
    files: Vec<PipelineFile>,
    jobs: &Vec<JobLoad>,
    overlay: SemanticsRegistry,
) -> (r: Result<ServerConfig, LoadFailure>)
    ensures
        match r {
            Err(e) => load_problem(files@, jobs@) == Some(e@),
            Ok(config) => {
                &&& load_problem(files@, jobs@) is None
                &&& pipelines_loaded(files@) == Ok::<_, FailureView>(config.pipelines@)
                &&& all_checked(config.pipelines@, files@)
                &&& pipeline_names(config.pipelines@).no_duplicates()
                &&& jobs_loaded(pipeline_names(config.pipelines@), jobs@) == Ok::<_, FailureView>(
                    text::texts(config.jobs@),
                )
                &&& text::texts(config.jobs@).no_duplicates()
                &&& forall|i: int|
                    0 <= i < config.jobs@.len() ==> !pipeline_names(config.pipelines@).contains(
                        (#[trigger] config.jobs@[i])@,
                    )
                &&& config.data_sources@ == if args.ctx_file is Some {
                    context@
                } else {
                    Seq::empty()
                }
                &&& config.args == args
                &&& config.semantics@.tables == semantics::completed(
                    overlay@.tables,
                    source_descriptions(data_source::source_views(config.data_sources@)),
                )
                &&& config.semantics@.columns == overlay@.columns
            },
        },
{
    match check_screens(&files) {
        Ok(_) => {},
        Err(e) => return Err(e),
    }
    let ghost all = files@;
    let pipelines = match collect_pipelines(files) {
        Ok(pipelines) => pipelines,
        Err(e) => return Err(e),
    };
    let jobs_found = match collect_jobs(&pipelines, jobs) {
        Ok(jobs) => jobs,
        Err(e) => return Err(e),
    };
    proof {
        loaded_pipelines_were_checked(all);
        loaded_pipelines_have_their_own_names(all);
        loaded_jobs_have_their_own_names(pipeline_names(pipelines@), jobs@);
        assert forall|i: int| 0 <= i < jobs_found@.len() implies !pipeline_names(
            pipelines@,
        ).contains((#[trigger] jobs_found@[i])@) by {
            assert(text::texts(jobs_found@)[i] == jobs_found@[i]@);
        }
    }
    let data_sources = if args.ctx_file.is_some() {
        context
    } else {
        Vec::new()
    };
    let mut semantics = overlay;
    semantics.complete(&context_descriptions(&data_sources));
    Ok(ServerConfig { pipelines, jobs: jobs_found, data_sources, semantics, args })
}

proof fn screens_passed(files: Seq<PipelineFile>, i: int)
    requires
        screens_problem(files) is None,
        0 <= i < files.len(),
    ensures
        screen_problem(files[i].screen) is None,
    decreases files.len(),
{
    if i < files.len() - 1 {
        screens_passed(files.drop_last(), i);
    }
}

proof fn loaded_in_order(files: Seq<PipelineFile>, i: int)
    requires
        pipelines_loaded(files) is Ok,
    ensures
        (pipelines_loaded(files)->Ok_0).len() == files.len(),
        0 <= i < files.len() ==> pipeline_of(files[i]) == Ok::<_, FailureView>(
            (pipelines_loaded(files)->Ok_0)[i],
        ),
    decreases files.len(),
{
    if files.len() > 0 {
        loaded_in_order(files.drop_last(), i);
    }
}

/// Where nothing stops the start, every file is a pipeline whose SQL passed
/// the check, and that SQL is what the pipeline runs.
pub proof fn loaded_pipelines_were_checked(files: Seq<PipelineFile>)
    requires
        screens_problem(files) is None,
        pipelines_loaded(files) is Ok,
    ensures
        all_checked(pipelines_loaded(files)->Ok_0, files),
{
    let pipelines = pipelines_loaded(files)->Ok_0;
    loaded_in_order(files, 0);
    assert forall|i: int| #![trigger pipelines[i]] 0 <= i < files.len() implies files[i].screen == (
    PipelineScreen::Checked {
        name: pipelines[i].name,
        sql: pipelines[i].sql,
        verdict: SqlVerdict::Passed,
    }) by {
        screens_passed(files, i);
        loaded_in_order(files, i);
    }
}

/// No two pipelines that were loaded share a name.
pub proof fn loaded_pipelines_have_their_own_names(loads: Seq<PipelineFile>)
    requires
        pipelines_loaded(loads) is Ok,
    ensures
        pipeline_names(pipelines_loaded(loads)->Ok_0).no_duplicates(),
    decreases loads.len(),
{
    if loads.len() > 0 {
        loaded_pipelines_have_their_own_names(loads.drop_last());
        let before = pipelines_loaded(loads.drop_last())->Ok_0;
        let now = pipelines_loaded(loads)->Ok_0;
        let names = pipeline_names(now);
        let earlier = pipeline_names(before);
        assert(names =~= earlier.push(names.last()));
        assert forall|i: int, j: int| 0 <= i < names.len() && 0 <= j < names.len() && i != j implies names[i]
            != names[j] by {
            if i < earlier.len() && j < earlier.len() {
                assert(earlier[i] != earlier[j]);
            } else if i < earlier.len() {
                assert(earlier.contains(earlier[i]));
            } else {
                assert(earlier.contains(earlier[j]));
            }
        }
    }
}

/// No two jobs that were loaded share a name, and none has that of a pipeline.
pub proof fn loaded_jobs_have_their_own_names(pipelines: Seq<Seq<char>>, loads: Seq<JobLoad>)
    requires
        jobs_loaded(pipelines, loads) is Ok,
    ensures
        (jobs_loaded(pipelines, loads)->Ok_0).no_duplicates(),
        forall|i: int|
            0 <= i < (jobs_loaded(pipelines, loads)->Ok_0).len() ==> !pipelines.contains(
                #[trigger] (jobs_loaded(pipelines, loads)->Ok_0)[i],
            ),
    decreases loads.len(),
{
    if loads.len() > 0 {
        loaded_jobs_have_their_own_names(pipelines, loads.drop_last());
        let earlier = jobs_loaded(pipelines, loads.drop_last())->Ok_0;
        let names = jobs_loaded(pipelines, loads)->Ok_0;
        if loads.last() is Loaded {
            assert(names =~= earlier.push(names.last()));
            assert forall|i: int, j: int|
                0 <= i < names.len() && 0 <= j < names.len() && i != j implies names[i]
                != names[j] by {
                if i < earlier.len() && j < earlier.len() {
                    assert(earlier[i] != earlier[j]);
                } else if i < earlier.len() {
                    assert(earlier.contains(earlier[i]));
                } else {
                    assert(earlier.contains(earlier[j]));
                }
            }
            assert forall|i: int| 0 <= i < names.len() implies !pipelines.contains(
                #[trigger] names[i],
            ) by {
                if i < earlier.len() {
                    assert(names[i] == earlier[i]);
                }
            }
        }
    }
}

} // verus!
