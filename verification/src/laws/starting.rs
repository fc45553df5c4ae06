//! What a server starts with, and what stops it.
use vstd::prelude::*;

use crate::server::data_source::DataSourceView;
use crate::server::pipeline_handlers::Pipeline;
use crate::server::startup;
use crate::server::startup::{
    FailureView, JobLoad, PipelineDetails, PipelineFile, PipelineLoad, PipelineScreen, SqlVerdict,
};

verus! {

/// Whether a file is a pipeline that can be used: it was read, its SQL passed, and it
/// was loaded.
pub open spec fn usable(file: PipelineFile) -> bool {
    file.screen matches PipelineScreen::Checked { verdict, .. } && verdict is Passed
        && file.load is Loaded
}

/// The name of the pipeline in a file.
pub open spec fn name_in(file: PipelineFile) -> Seq<char> {
    file.screen->name@
}

/// A pipeline is what its file says: the name and the SQL that were checked, and the
/// version, parameters and times that were loaded.
pub proof fn pipelines_are_what_their_files_say(
    name: String,
    sql: String,
    verdict: SqlVerdict,
    details: PipelineDetails,
    path: String,
    error: String,
    load: PipelineLoad,
)
    ensures
        startup::pipeline_of(
            PipelineFile {
                screen: PipelineScreen::Checked { name, sql, verdict },
                load: PipelineLoad::Loaded(details),
            },
        ) == Ok::<_, FailureView>(
            Pipeline {
                name,
                version: details.version,
                sql,
                parameters: details.parameters,
                created_at: details.created_at,
                updated_at: details.updated_at,
            },
        ),
        startup::pipeline_of(
            PipelineFile {
                screen: PipelineScreen::Checked { name, sql, verdict },
                load: PipelineLoad::Failed { path, error },
            },
        ) == Err::<Pipeline, _>(
            FailureView {
                message: "Failed to load pipeline from "@ + path@,
                cause: Some(error@),
            },
        ),
        startup::pipeline_of(
            PipelineFile { screen: PipelineScreen::Unreadable { path, error }, load },
        ) == Err::<Pipeline, _>(
            FailureView {
                message: "Failed to load pipeline from "@ + path@,
                cause: Some(error@),
            },
        ),
{
}

/// SQL that does not pass the check stops the start, and the failure names the
/// pipeline and tells the verdict; a file that cannot be read is named with its
/// error.
pub proof fn rejected_sql_stops_the_start(
    name: String,
    sql: String,
    path: String,
    error: String,
)
    ensures
        startup::screen_problem(
            PipelineScreen::Checked { name, sql, verdict: SqlVerdict::Rejected { error } },
        ) == Some(
            FailureView {
                message: "Pipeline '"@ + name@ + "' SQL validation failed: "@ + error@,
                cause: None,
            },
        ),
        startup::screen_problem(
            PipelineScreen::Checked { name, sql, verdict: SqlVerdict::Passed },
        ) is None,
        startup::screen_problem(PipelineScreen::Unreadable { path, error }) == Some(
            FailureView {
                message: "Failed to load pipeline from "@ + path@,
                cause: Some(error@),
            },
        ),
{
}

proof fn screens_are_all_looked_at(files: Seq<PipelineFile>)
    ensures
        match startup::screens_problem(files) {
            None => forall|i: int|
                0 <= i < files.len() ==> startup::screen_problem(
                    (#[trigger] files[i]).screen,
                ) is None,
            Some(e) => exists|i: int|
                0 <= i < files.len() && startup::screen_problem((#[trigger] files[i]).screen) == Some(e)
                    && forall|j: int|
                    0 <= j < i ==> startup::screen_problem((#[trigger] files[j]).screen) is None,
        },
    decreases files.len(),
{
    if files.len() > 0 {
        let shorter = files.drop_last();
        let last = files.len() - 1;
        screens_are_all_looked_at(shorter);
        assert(files[last] == files.last());
        match startup::screens_problem(shorter) {
            None => {
                assert forall|i: int| 0 <= i < last implies startup::screen_problem(
                    (#[trigger] files[i]).screen,
                ) is None by {
                    assert(shorter[i] == files[i]);
                }
            },
            Some(e) => {
                let i = choose|i: int|
                    0 <= i < shorter.len() && startup::screen_problem((#[trigger] shorter[i]).screen)
                        == Some(e) && forall|j: int|
                        0 <= j < i ==> startup::screen_problem((#[trigger] shorter[j]).screen) is None;
                assert(files[i] == shorter[i]);
                assert forall|j: int| 0 <= j < i implies startup::screen_problem(
                    (#[trigger] files[j]).screen,
                ) is None by {
                    assert(shorter[j] == files[j]);
                }
            },
        }
    }
}

proof fn pipelines_load_one_for_one(files: Seq<PipelineFile>)
    ensures
        startup::pipelines_loaded(files) matches Ok(pipelines) ==> {
            &&& pipelines.len() == files.len()
            &&& forall|i: int|
                0 <= i < files.len() ==> startup::pipeline_of(#[trigger] files[i]) == Ok::<
                    _,
                    FailureView,
                >(pipelines[i])
            &&& forall|i: int, j: int|
                0 <= i < j < files.len() ==> (#[trigger] pipelines[i]).name@ != (
                #[trigger] pipelines[j]).name@
        },
        (forall|i: int|
            0 <= i < files.len() ==> startup::pipeline_of(#[trigger] files[i]) is Ok) && (forall|
            i: int,
            j: int,
        |
            0 <= i < j < files.len() ==> name_in(#[trigger] files[i]) != name_in(#[trigger] files[j]))
            ==> startup::pipelines_loaded(files) is Ok,
    decreases files.len(),
{
    if files.len() > 0 {
        let shorter = files.drop_last();
        let last = files.len() - 1;
        pipelines_load_one_for_one(shorter);
        assert(files[last] == files.last());
        if let Ok(pipelines) = startup::pipelines_loaded(files) {
            let before = startup::pipelines_loaded(shorter)->Ok_0;
            let names = startup::pipeline_names(before);
            assert forall|i: int| 0 <= i < files.len() implies startup::pipeline_of(
                #[trigger] files[i],
            ) == Ok::<_, FailureView>(pipelines[i]) by {
                if i < last {
                    assert(shorter[i] == files[i]);
                }
            }
            assert forall|i: int, j: int| 0 <= i < j < files.len() implies (
            #[trigger] pipelines[i]).name@ != (#[trigger] pipelines[j]).name@ by {
                assert(before[i] == pipelines[i]);
                if j < last {
                    assert(before[j] == pipelines[j]);
                } else {
                    assert(names[i] == pipelines[i].name@);
                    assert(names.contains(names[i]));
                }
            }
        }
        if (forall|i: int| 0 <= i < files.len() ==> startup::pipeline_of(#[trigger] files[i]) is Ok)
            && (forall|i: int, j: int|
            0 <= i < j < files.len() ==> name_in(#[trigger] files[i]) != name_in(
                #[trigger] files[j],
            )) {
            assert forall|i: int| 0 <= i < shorter.len() implies startup::pipeline_of(
                #[trigger] shorter[i],
            ) is Ok by {
                assert(files[i] == shorter[i]);
            }
            assert forall|i: int, j: int| 0 <= i < j < shorter.len() implies name_in(
                #[trigger] shorter[i],
            ) != name_in(#[trigger] shorter[j]) by {
                assert(name_in(files[i]) != name_in(files[j]));
            }
            let before = startup::pipelines_loaded(shorter)->Ok_0;
            let names = startup::pipeline_names(before);
            let one = startup::pipeline_of(files[last])->Ok_0;
            if names.contains(one.name@) {
                let k = choose|k: int| 0 <= k < names.len() && names[k] == one.name@;
                assert(startup::pipeline_of(shorter[k]) == Ok::<_, FailureView>(before[k]));
                assert(shorter[k] == files[k]);
                assert(name_in(files[k]) != name_in(files[last]));
            }
        }
    }
}

/// Where files have pipelines with one name, the start is stopped by a failure that
/// names it.
pub proof fn repeated_pipelines_stop_the_start(files: Seq<PipelineFile>, file: PipelineFile)
    requires
        startup::pipelines_loaded(files) is Ok,
        startup::pipeline_of(file) is Ok,
        exists|i: int| 0 <= i < files.len() && name_in(#[trigger] files[i]) == name_in(file),
    ensures
        startup::pipelines_loaded(files.push(file)) == Err::<Seq<Pipeline>, _>(
            FailureView {
                message: "Duplicate pipeline name '"@ + name_in(file)
                    + "' found. Each pipeline must have a unique name."@,
                cause: None,
            },
        ),
{
    pipelines_load_one_for_one(files);
    assert(files.push(file).drop_last() =~= files);
    let i = choose|i: int| 0 <= i < files.len() && name_in(#[trigger] files[i]) == name_in(file);
    let loaded = startup::pipelines_loaded(files)->Ok_0;
    let names = startup::pipeline_names(loaded);
    assert(startup::pipeline_of(files[i]) == Ok::<_, FailureView>(loaded[i]));
    assert(names[i] == name_in(file));
    assert(names.contains(names[i]));
}

/// The jobs that are loaded are those that the files hold, in their order; a file that
/// is no job is passed over.
pub proof fn jobs_are_those_in_the_files(
    pipelines: Seq<Seq<char>>,
    loads: Seq<JobLoad>,
    name: String,
    path: String,
    error: String,
)
    requires
        startup::jobs_loaded(pipelines, loads) is Ok,
    ensures
        startup::jobs_loaded(pipelines, Seq::empty()) == Ok::<_, FailureView>(
            Seq::<Seq<char>>::empty(),
        ),
        startup::jobs_loaded(pipelines, loads.push(JobLoad::NotAJob)) == startup::jobs_loaded(
            pipelines,
            loads,
        ),
        startup::jobs_loaded(pipelines, loads.push(JobLoad::Loaded { name })) == (
        if pipelines.contains(name@) {
            Err::<Seq<Seq<char>>, _>(
                FailureView {
                    message: "Job name '"@ + name@
                        + "' collides with an existing pipeline name; both primitives share the same namespace in this server"@,
                    cause: None,
                },
            )
        } else if startup::jobs_loaded(pipelines, loads)->Ok_0.contains(name@) {
            Err(
                FailureView {
                    message: "Duplicate job name '"@ + name@
                        + "' found. Each job must have a unique name."@,
                    cause: None,
                },
            )
        } else {
            Ok(startup::jobs_loaded(pipelines, loads)->Ok_0.push(name@))
        }),
        startup::jobs_loaded(pipelines, loads.push(JobLoad::Failed { path, error })) == Err::<
            Seq<Seq<char>>,
            _,
        >(
            FailureView {
                message: "Failed to load job from "@ + path@ + ": "@ + error@,
                cause: None,
            },
        ),
{
    assert(loads.push(JobLoad::NotAJob).drop_last() =~= loads);
    assert(loads.push(JobLoad::Loaded { name }).drop_last() =~= loads);
    assert(loads.push(JobLoad::Failed { path, error }).drop_last() =~= loads);
}

/// The first failure among jobs stands, whatever follows.
pub proof fn job_failures_stand(pipelines: Seq<Seq<char>>, loads: Seq<JobLoad>, load: JobLoad)
    requires
        startup::jobs_loaded(pipelines, loads) is Err,
    ensures
        startup::jobs_loaded(pipelines, loads.push(load)) == startup::jobs_loaded(pipelines, loads),
{
    assert(loads.push(load).drop_last() =~= loads);
}

/// A server starts exactly where every file is a usable pipeline, no two pipelines
/// share a name, and the jobs load beside them.
pub proof fn sound_servers_start(files: Seq<PipelineFile>, jobs: Seq<JobLoad>)
    ensures
        startup::load_problem(files, jobs) is None <==> {
            &&& forall|i: int| 0 <= i < files.len() ==> usable(#[trigger] files[i])
            &&& forall|i: int, j: int|
                0 <= i < j < files.len() ==> name_in(#[trigger] files[i]) != name_in(
                    #[trigger] files[j],
                )
            &&& startup::jobs_loaded(
                Seq::new(files.len(), |i: int| name_in(files[i])),
                jobs,
            ) is Ok
        },
{
    screens_are_all_looked_at(files);
    pipelines_load_one_for_one(files);
    let names = Seq::new(files.len(), |i: int| name_in(files[i]));
    if let Ok(pipelines) = startup::pipelines_loaded(files) {
        assert forall|i: int| 0 <= i < files.len() implies startup::pipeline_names(pipelines)[i]
            == names[i] by {
            assert(startup::pipeline_of(files[i]) == Ok::<_, FailureView>(pipelines[i]));
        }
        assert(startup::pipeline_names(pipelines) =~= names);
    }
    if startup::load_problem(files, jobs) is None {
        let pipelines = startup::pipelines_loaded(files)->Ok_0;
        assert forall|i: int| 0 <= i < files.len() implies usable(#[trigger] files[i]) by {
            assert(startup::screen_problem(files[i].screen) is None);
            assert(startup::pipeline_of(files[i]) == Ok::<_, FailureView>(pipelines[i]));
        }
        assert forall|i: int, j: int| 0 <= i < j < files.len() implies name_in(#[trigger] files[i])
            != name_in(#[trigger] files[j]) by {
            assert(startup::pipeline_of(files[i]) == Ok::<_, FailureView>(pipelines[i]));
            assert(startup::pipeline_of(files[j]) == Ok::<_, FailureView>(pipelines[j]));
            assert(pipelines[i].name@ != pipelines[j].name@);
        }
    } else if (forall|i: int| 0 <= i < files.len() ==> usable(#[trigger] files[i])) && (forall|
        i: int,
        j: int,
    |
        0 <= i < j < files.len() ==> name_in(#[trigger] files[i]) != name_in(#[trigger] files[j])) {
        assert forall|i: int| 0 <= i < files.len() implies startup::pipeline_of(
            #[trigger] files[i],
        ) is Ok by {
            assert(usable(files[i]));
        }
        if let Some(e) = startup::screens_problem(files) {
            let i = choose|i: int|
                0 <= i < files.len() && startup::screen_problem((#[trigger] files[i]).screen) == Some(e)
                    && forall|j: int|
                    0 <= j < i ==> startup::screen_problem((#[trigger] files[j]).screen) is None;
            assert(usable(files[i]));
        }
    }
}

/// The pipelines of a server that starts are those of the files, one for one and in
/// their order.
pub proof fn servers_run_what_the_files_say(files: Seq<PipelineFile>, jobs: Seq<JobLoad>, i: int)
    requires
        startup::load_problem(files, jobs) is None,
        0 <= i < files.len(),
    ensures
        startup::pipelines_loaded(files) matches Ok(pipelines) && pipelines.len() == files.len()
            && startup::pipeline_of(files[i]) == Ok::<_, FailureView>(pipelines[i]),
{
    pipelines_load_one_for_one(files);
}

/// The descriptions that sources bring are their own, under their names.
pub proof fn sources_bring_their_descriptions(sources: Seq<DataSourceView>, i: int)
    requires
        0 <= i < sources.len(),
    ensures
        startup::source_descriptions(sources).len() == sources.len(),
        startup::source_descriptions(sources)[i].0 == sources[i].name,
        startup::source_descriptions(sources)[i].1 == sources[i].description,
{
}

} // verus!
