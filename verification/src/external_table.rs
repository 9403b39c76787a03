//! Setting up a dataset, and creating the table that serves it.

use crate::accelerator::DuckLakeAccelerator;
use crate::error::{outcome, viewed, Error, ErrorView, FilePathError};
use crate::lookup::{endpoint_config, open_path};
use crate::params::Params;
use crate::pool::{pool_usage_fits, shared_pool, PoolPlan, PoolPlanView};
use crate::remote::{remote_table, RemoteTablePlan, RemoteTablePlanView};
use crate::schema::{field_views, Field, FieldView, TableReference, TableReferenceView};
use crate::source::{AccelerationSource, Mode, RuntimeContext};
use vstd::prelude::*;

verus! {

/// Options with the value under `from` moved to `to`, in place of the value that was there.
pub open spec fn moved(
    options: Map<Seq<char>, Seq<char>>,
    from: Seq<char>,
    to: Seq<char>,
) -> Map<Seq<char>, Seq<char>> {
    if options.contains_key(from) {
        options.remove(from).insert(to, options[from])
    } else {
        options
    }
}

/// Options under the names that DuckDB tables know.
pub open spec fn renamed_options(options: Map<Seq<char>, Seq<char>>) -> Map<Seq<char>, Seq<char>> {
    moved(
        moved(moved(options, "file"@, "open"@), "ducklake_open"@, "open"@),
        "on_refresh_recompute_statistics"@,
        "recompute_statistics_on_write"@,
    )
}

/// Options with the directory for temporary files that the runtime sets.
pub open spec fn with_temp_directory(
    options: Map<Seq<char>, Seq<char>>,
    temp_directory: Option<String>,
) -> Map<Seq<char>, Seq<char>> {
    match temp_directory {
        Some(directory) => options.insert("temp_directory"@, directory@),
        None => options,
    }
}

/// Options with the database file of a source that is accelerated into a file, unless they name one.
pub open spec fn with_open_path(
    options: Map<Seq<char>, Seq<char>>,
    source: AccelerationSource,
    data_base_path: Seq<char>,
) -> Map<Seq<char>, Seq<char>> {
    if source.file_accelerated && !options.contains_key("open"@) {
        options.insert("open"@, open_path(source, data_base_path))
    } else {
        options
    }
}

/// The options of the table that serves a source.
pub open spec fn table_options(
    options: Map<Seq<char>, Seq<char>>,
    source: Option<AccelerationSource>,
    runtime: RuntimeContext,
) -> Map<Seq<char>, Seq<char>> {
    match source {
        Some(source) => with_open_path(
            with_temp_directory(renamed_options(options), runtime.temp_directory),
            source,
            runtime.data_base_path@,
        ),
        None => renamed_options(options),
    }
}

/// A table to be created.
pub struct ExternalTablePlan {
    /// The options of the table.
    pub options: Params,
    /// The pool to open before the table is created, where the table serves a source.
    pub pool: Option<PoolPlan>,
}

/// An [`ExternalTablePlan`] with its texts as character sequences.
pub struct ExternalTablePlanView {
    pub options: Map<Seq<char>, Seq<char>>,
    pub pool: Option<PoolPlanView>,
}

impl View for ExternalTablePlan {
    type V = ExternalTablePlanView;

    open spec fn view(&self) -> ExternalTablePlanView {
        ExternalTablePlanView { options: self.options@, pool: viewed(self.pool) }
    }
}

/// The table to be created for a source, or the reason why there is none.
pub open spec fn external_table(
    options: Map<Seq<char>, Seq<char>>,
    source: Option<AccelerationSource>,
    runtime: RuntimeContext,
) -> Result<ExternalTablePlanView, ErrorView> {
    let options = table_options(options, source, runtime);
    match source {
        Some(source) => match shared_pool(source, runtime) {
            Ok(pool) => Ok(ExternalTablePlanView { options, pool: Some(pool) }),
            Err(error) => Err(error),
        },
        None => Ok(ExternalTablePlanView { options, pool: None }),
    }
}

/// Where a table is kept.
#[derive(Debug)]
pub enum TableRoute {
    /// At a hosted endpoint.
    Remote(RemoteTablePlan),
    /// In the local DuckDB.
    Local,
}

/// A [`TableRoute`] with its texts as character sequences.
pub enum TableRouteView {
    Remote(RemoteTablePlanView),
    Local,
}

impl View for TableRoute {
    type V = TableRouteView;

    open spec fn view(&self) -> TableRouteView {
        match self {
            TableRoute::Remote(plan) => TableRouteView::Remote(plan@),
            TableRoute::Local => TableRouteView::Local,
        }
    }
}

/// Where a table with these options is kept, or the reason why it cannot be.
pub open spec fn table_route(
    reference: TableReferenceView,
    fields: Seq<FieldView>,
    options: Map<Seq<char>, Seq<char>>,
) -> Result<TableRouteView, ErrorView> {
    match endpoint_config(options) {
        Ok(Some(config)) => Ok(TableRouteView::Remote(remote_table(reference, fields, config))),
        Ok(None) => Ok(TableRouteView::Local),
        Err(error) => Err(error),
    }
}

/// What becomes of a planned table once the attempt to open its pool is over: without the pool there
/// is no table, and with it the options of the plan say where the table is kept.
pub open spec fn opened_table(
    plan: ExternalTablePlanView,
    opened: Result<(), String>,
    reference: TableReferenceView,
    fields: Seq<FieldView>,
) -> Result<TableRouteView, ErrorView> {
    match opened {
        Ok(_) => table_route(reference, fields, plan.options),
        Err(source) => Err(ErrorView::AccelerationCreationFailed { source: source@ }),
    }
}

/// A step in setting up a dataset.
#[derive(Debug)]
pub enum InitStep {
    /// Make the directory for data files.
    MakeDataDirectory,
    /// Remove the file at this path, if there is one.
    RemoveExistingFile { path: String },
    /// Open the pool of the dataset.
    OpenSharedPool,
}

/// An [`InitStep`] with its text as a character sequence.
pub enum InitStepView {
    MakeDataDirectory,
    RemoveExistingFile { path: Seq<char> },
    OpenSharedPool,
}

impl View for InitStep {
    type V = InitStepView;

    open spec fn view(&self) -> InitStepView {
        match self {
            InitStep::MakeDataDirectory => InitStepView::MakeDataDirectory,
            InitStep::RemoveExistingFile { path } => InitStepView::RemoveExistingFile {
                path: path@,
            },
            InitStep::OpenSharedPool => InitStepView::OpenSharedPool,
        }
    }
}

/// The parameters of a source name a database file, be it with a blank.
pub open spec fn names_open_path(source: AccelerationSource) -> bool {
    source.acceleration matches Some(acceleration) && (acceleration.params@.contains_key("open"@)
        || acceleration.params@.contains_key("ducklake_open"@))
}

/// The steps that set up a source, in order.
pub open spec fn init_steps(source: AccelerationSource, data_base_path: Seq<char>) -> Seq<
    InitStepView,
> {
    let directory = if source.file_accelerated && source.acceleration is Some && !names_open_path(
        source,
    ) {
        seq![InitStepView::MakeDataDirectory]
    } else {
        seq![]
    };
    let removal = if source.file_accelerated && source.acceleration is Some
        && source.acceleration->0.mode is FileCreate {
        seq![InitStepView::RemoveExistingFile { path: open_path(source, data_base_path) }]
    } else {
        seq![]
    };
    directory + removal + seq![InitStepView::OpenSharedPool]
}

/// Why a step of a set-up failed.
#[derive(Debug)]
pub enum InitFailure {
    /// The file system refused, with this text.
    FileSystem { source: String },
    /// There is no pool, for this reason.
    Pool(Error),
}

/// The error with which a set-up ends after a failed step.
pub open spec fn setup_error(failure: InitFailure) -> Error {
    match failure {
        InitFailure::FileSystem { source } => Error::AccelerationInitializationFailed { source },
        InitFailure::Pool(error) => error,
    }
}

/// What follows in a set-up after a step that came out as `last`: the next step, nothing more, or the
/// error; and the steps that remain then.
pub open spec fn setup_advance(remaining: Seq<InitStep>, last: Result<(), InitFailure>) -> (
    Result<Option<InitStep>, Error>,
    Seq<InitStep>,
) {
    match last {
        Ok(_) => if remaining.len() == 0 {
            (Ok(None), remaining)
        } else {
            (Ok(Some(remaining[0])), remaining.drop_first())
        },
        Err(failure) => (Err(setup_error(failure)), Seq::empty()),
    }
}

/// The steps that a set-up takes where they come out, one by one, as `outcomes`; before the first of
/// them stands `last`.
pub open spec fn setup_taken(
    remaining: Seq<InitStep>,
    last: Result<(), InitFailure>,
    outcomes: Seq<Result<(), InitFailure>>,
) -> Seq<InitStep>
    decreases outcomes.len(),
{
    match setup_advance(remaining, last).0 {
        Ok(Some(step)) => if outcomes.len() == 0 {
            seq![step]
        } else {
            seq![step] + setup_taken(
                setup_advance(remaining, last).1,
                outcomes[0],
                outcomes.drop_first(),
            )
        },
        _ => seq![],
    }
}

/// The result of a set-up whose steps come out as `outcomes`, or `None` while a step is under way.
pub open spec fn setup_result(
    remaining: Seq<InitStep>,
    last: Result<(), InitFailure>,
    outcomes: Seq<Result<(), InitFailure>>,
) -> Option<Result<(), Error>>
    decreases outcomes.len(),
{
    match setup_advance(remaining, last).0 {
        Ok(Some(_)) => if outcomes.len() == 0 {
            None
        } else {
            setup_result(setup_advance(remaining, last).1, outcomes[0], outcomes.drop_first())
        },
        Ok(None) => Some(Ok(())),
        Err(error) => Some(Err(error)),
    }
}

/// Moves the value under `from` to `to`.
fn move_option(options: &mut Params, from: &str, to: &str)
    ensures
        final(options)@ == moved(old(options)@, from@, to@),
{
    let ghost before = options@;
    if let Some(value) = options.remove(from) {
        options.insert(to.to_string(), value);
    } else {
        assert(before.remove(from@) =~= before);
    }
}

impl DuckLakeAccelerator {
    /// What to create for a table with `options` that serves `source`: the options under which to
    /// create it, and the pool to open first.
    pub fn create_external_table(
        &self,
        options: Params,
        source: Option<&AccelerationSource>,
        runtime: &RuntimeContext,
    ) -> (res: Result<ExternalTablePlan, Error>)
        requires
            source matches Some(source) ==> pool_usage_fits(*source, *runtime) && (source.wf()
                || with_temp_directory(
                renamed_options(options@),
                runtime.temp_directory,
            ).contains_key("open"@)),
        ensures
            outcome(res) == external_table(
                options@,
                match source {
                    Some(source) => Some(*source),
                    None => None,
                },
                *runtime,
            ),
    {
        let mut options = options;
        move_option(&mut options, "file", "open");
        move_option(&mut options, "ducklake_open", "open");
        move_option(
            &mut options,
            "on_refresh_recompute_statistics",
            "recompute_statistics_on_write",
        );
        let source = match source {
            Some(source) => source,
            None => {
                return Ok(ExternalTablePlan { options, pool: None });
            },
        };
        if let Some(temp_directory) = &runtime.temp_directory {
            options.insert("temp_directory".to_string(), temp_directory.clone());
        }
        if source.file_accelerated && !options.contains_key("open") {
            match self.ducklake_open_path(source, runtime.data_base_path.as_str()) {
                Ok(open_path) => options.insert("open".to_string(), open_path),
                Err(error) => {
                    return Err(error);
                },
            }
        }
        match self.get_shared_pool(source, runtime) {
            Ok(pool) => Ok(ExternalTablePlan { options, pool: Some(pool) }),
            Err(error) => Err(error),
        }
    }

    /// Where the table `name` with the columns `fields` is kept under `options`.
    pub fn route_external_table(
        name: TableReference,
        fields: Vec<Field>,
        options: &Params,
    ) -> (res: Result<TableRoute, Error>)
        ensures
            outcome(res) == table_route(name@, field_views(fields@), options@),
    {
        match Self::endpoint_config_from_options(options) {
            Ok(Some(config)) => Ok(
                TableRoute::Remote(Self::create_remote_table_provider(name, fields, config)),
            ),
            Ok(None) => Ok(TableRoute::Local),
            Err(error) => Err(error),
        }
    }

    /// Where the table of `plan` is kept, once the attempt to open its pool is over; `opened` holds
    /// the text of the failure, if it failed. A plan without a pool counts as opened.
    pub fn external_table_opened(
        plan: &ExternalTablePlan,
        opened: Result<(), String>,
        name: TableReference,
        fields: Vec<Field>,
    ) -> (res: Result<TableRoute, Error>)
        ensures
            outcome(res) == opened_table(plan@, opened, name@, field_views(fields@)),
    {
        match Self::shared_pool_opened(opened) {
            Ok(_) => Self::route_external_table(name, fields, &plan.options),
            Err(error) => Err(error),
        }
    }

    /// Whether `source` is set up: always, unless it is accelerated into a file that is not there.
    pub fn is_initialized(&self, source: &AccelerationSource, has_existing_file: bool) -> (res: bool)
        ensures
            res == (!source.file_accelerated || has_existing_file),
    {
        if !source.file_accelerated {
            return true;
        }
        has_existing_file
    }

    /// The steps that set up `source`.
    pub fn init(&self, source: &AccelerationSource, data_base_path: &str) -> (res: Result<
        Vec<InitStep>,
        FilePathError,
    >)
        requires
            source.wf(),
        ensures
            res matches Ok(steps) && steps@.map_values(|step: InitStep| step@) == init_steps(
                *source,
                data_base_path@,
            ),
    {
        let mut steps: Vec<InitStep> = Vec::new();
        if !source.file_accelerated {
            steps.push(InitStep::OpenSharedPool);
            assert(steps@.map_values(|step: InitStep| step@) =~= init_steps(
                *source,
                data_base_path@,
            ));
            return Ok(steps);
        }
        let path = match self.file_path(source, data_base_path) {
            Ok(path) => path,
            Err(error) => {
                return Err(error);
            },
        };
        if let Some(acceleration) = &source.acceleration {
            if !acceleration.params.contains_key("open") && !acceleration.params.contains_key(
                "ducklake_open",
            ) {
                steps.push(InitStep::MakeDataDirectory);
            }
            if acceleration.mode == Mode::FileCreate {
                steps.push(InitStep::RemoveExistingFile { path });
            }
        }
        steps.push(InitStep::OpenSharedPool);
        assert(steps@.map_values(|step: InitStep| step@) =~= init_steps(*source, data_base_path@));
        Ok(steps)
    }

    /// The next step of a set-up, after the last one came out as `last`. A failure ends the set-up:
    /// no step remains after it.
    pub fn next_init_step(remaining: &mut Vec<InitStep>, last: Result<(), InitFailure>) -> (res:
        Result<Option<InitStep>, Error>)
        ensures
            res == setup_advance(old(remaining)@, last).0,
            final(remaining)@ == setup_advance(old(remaining)@, last).1,
    {
        match last {
            Ok(_) => {
                if remaining.len() == 0 {
                    Ok(None)
                } else {
                    let ghost before = remaining@;
                    let step = remaining.remove(0);
                    assert(remaining@ =~= before.drop_first());
                    Ok(Some(step))
                }
            },
            Err(failure) => {
                remaining.clear();
                match failure {
                    InitFailure::FileSystem { source } => Err(
                        Error::AccelerationInitializationFailed { source },
                    ),
                    InitFailure::Pool(error) => Err(error),
                }
            },
        }
    }
}

} // verus!
