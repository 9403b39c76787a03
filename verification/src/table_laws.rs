//! How a dataset is set up and how its table is created, said of the settings, the options and the
//! runtime.

use crate::accelerator::DuckLakeAccelerator;
use crate::error::{outcome, Error, FilePathError};
use crate::external_table::{
    table_options, table_route, ExternalTablePlan, InitFailure, InitStep, TableRoute,
};
use crate::laws::lemma_option_names;
use crate::lookup::{
    endpoint_keys, first_value, open_path, password_keys, username_keys, EndpointConfigView,
};
use crate::lookup_laws::{
    filled, is_database_file, is_value_of_three, lemma_endpoint_names, lemma_open_path,
};
use crate::params::Params;
use crate::pool::PoolPlan;
use crate::pool_laws::{is_pool_outcome, lemma_pool_outcome};
use crate::remote_laws::{lemma_reaches_table, reaches_table};
use crate::schema::{field_views, Field, TableReference};
use crate::secret::secret_text;
use crate::source::{AccelerationSource, RuntimeContext};
use crate::text::trimmed;
use vstd::prelude::*;

verus! {

/// The options of a table that serves `source`, made of the `given` ones, name by name.
///
/// The database file is what `ducklake_open` says, or else `file`, or else `open`, or else, for a source
/// that is accelerated into a file, the file of that source. `on_refresh_recompute_statistics` is
/// handed on under `recompute_statistics_on_write`. The directory for temporary files is the one that
/// the runtime sets for its sources, or else the given one. Everything else is as given.
pub open spec fn are_table_options(
    options: Map<Seq<char>, Seq<char>>,
    given: Map<Seq<char>, Seq<char>>,
    source: Option<AccelerationSource>,
    runtime: RuntimeContext,
) -> bool {
    &&& !options.contains_key("file"@)
    &&& !options.contains_key("ducklake_open"@)
    &&& !options.contains_key("on_refresh_recompute_statistics"@)
    &&& if given.contains_key("ducklake_open"@) {
        options.contains_key("open"@) && options["open"@] == given["ducklake_open"@]
    } else if given.contains_key("file"@) {
        options.contains_key("open"@) && options["open"@] == given["file"@]
    } else if given.contains_key("open"@) {
        options.contains_key("open"@) && options["open"@] == given["open"@]
    } else if source is Some && source->0.file_accelerated {
        options.contains_key("open"@) && is_database_file(
            options["open"@],
            source->0.acceleration->0.params@,
            runtime.data_base_path@,
        )
    } else {
        !options.contains_key("open"@)
    }
    &&& if given.contains_key("on_refresh_recompute_statistics"@) {
        options.contains_key("recompute_statistics_on_write"@)
            && options["recompute_statistics_on_write"@]
            == given["on_refresh_recompute_statistics"@]
    } else {
        comes_through(options, given, "recompute_statistics_on_write"@)
    }
    &&& if source is Some && runtime.temp_directory is Some {
        options.contains_key("temp_directory"@) && options["temp_directory"@]
            == runtime.temp_directory->0@
    } else {
        comes_through(options, given, "temp_directory"@)
    }
    &&& forall|name: Seq<char>|
        name != "file"@ && name != "open"@ && name != "ducklake_open"@ && name
            != "on_refresh_recompute_statistics"@ && name != "recompute_statistics_on_write"@ && name
            != "temp_directory"@ ==> #[trigger] comes_through(options, given, name)
}

/// The option `name` is as it was given.
pub open spec fn comes_through(
    options: Map<Seq<char>, Seq<char>>,
    given: Map<Seq<char>, Seq<char>>,
    name: Seq<char>,
) -> bool {
    &&& options.contains_key(name) <==> given.contains_key(name)
    &&& given.contains_key(name) ==> options[name] == given[name]
}

proof fn lemma_table_options(
    given: Map<Seq<char>, Seq<char>>,
    source: Option<AccelerationSource>,
    runtime: RuntimeContext,
)
    requires
        source matches Some(source) ==> source.acceleration is Some,
    ensures
        are_table_options(table_options(given, source, runtime), given, source, runtime),
{
    lemma_option_names();
    if let Some(source) = source {
        lemma_open_path(source, runtime.data_base_path@);
        let path = open_path(source, runtime.data_base_path@);
        assert(is_database_file(
            path,
            source.acceleration->0.params@,
            runtime.data_base_path@,
        ));
    }
}

/// A table that serves no source needs no pool. One that serves a source needs its pool, and cannot be
/// without it: what stands in the way of the pool stands in the way of the table. Either way its
/// options are made of the given ones.
pub proof fn law_table_of_a_source(
    accelerator: &DuckLakeAccelerator,
    options: Params,
    source: Option<&AccelerationSource>,
    runtime: &RuntimeContext,
    res: Result<ExternalTablePlan, Error>,
)
    requires
        call_ensures(
            DuckLakeAccelerator::create_external_table,
            (accelerator, options, source, runtime),
            res,
        ),
    ensures
        match source {
            None => res matches Ok(plan) && plan.pool is None && are_table_options(
                plan.options@,
                options@,
                None,
                *runtime,
            ),
            Some(source) => match res {
                Ok(plan) => plan.pool matches Some(pool) && is_pool_outcome(
                    Ok::<PoolPlan, Error>(pool),
                    *source,
                    *runtime,
                ) && are_table_options(plan.options@, options@, Some(*source), *runtime),
                Err(error) => is_pool_outcome(Err::<PoolPlan, Error>(error), *source, *runtime),
            },
        },
{
    match source {
        None => {
            lemma_table_options(options@, None, *runtime);
        },
        Some(source) => {
            match res {
                Ok(plan) => {
                    lemma_pool_outcome(Ok::<PoolPlan, Error>(plan.pool->0), *source, *runtime);
                    lemma_table_options(options@, Some(*source), *runtime);
                },
                Err(error) => {
                    lemma_pool_outcome(Err::<PoolPlan, Error>(error), *source, *runtime);
                },
            }
        },
    }
}

/// `res` is where a table with these options is kept: locally without an endpoint, at the endpoint with
/// one and both credentials, and nowhere with an endpoint and one of them missing.
pub open spec fn is_route(
    res: Result<TableRoute, Error>,
    name: TableReference,
    fields: Seq<Field>,
    options: Map<Seq<char>, Seq<char>>,
) -> bool {
    let hosted = filled(options, "endpoint"@) || filled(options, "ducklake_endpoint"@);
    let username = filled(options, "username"@) || filled(options, "user"@) || filled(
        options,
        "ducklake_username"@,
    );
    let password = filled(options, "password"@) || filled(options, "pass"@) || filled(
        options,
        "ducklake_password"@,
    );
    let endpoint = if filled(options, "endpoint"@) {
        trimmed(options["endpoint"@])
    } else {
        trimmed(options["ducklake_endpoint"@])
    };
    &&& !hosted ==> (res matches Ok(TableRoute::Local))
    &&& hosted && !username ==> (res matches Err(Error::MissingEndpointUsername))
    &&& hosted && username && !password ==> (res matches Err(Error::MissingEndpointPassword))
    &&& hosted && username && password ==> (res matches Ok(TableRoute::Remote(plan)) && reaches_table(
        plan,
        name,
        fields,
        endpoint,
        plan.username@,
        secret_text(plan.password),
    ) && is_value_of_three(
        plan.username@,
        options,
        "username"@,
        "user"@,
        "ducklake_username"@,
    ) && is_value_of_three(
        secret_text(plan.password),
        options,
        "password"@,
        "pass"@,
        "ducklake_password"@,
    ))
}

proof fn lemma_route(
    res: Result<TableRoute, Error>,
    name: TableReference,
    fields: Seq<Field>,
    options: Map<Seq<char>, Seq<char>>,
)
    requires
        outcome(res) == table_route(name@, field_views(fields), options),
    ensures
        is_route(res, name, fields, options),
{
    lemma_endpoint_names(options);
    if first_value(options, endpoint_keys()) is Some && first_value(options, username_keys())
        is Some && first_value(options, password_keys()) is Some {
        let config = EndpointConfigView {
            endpoint: first_value(options, endpoint_keys())->0,
            username: first_value(options, username_keys())->0,
            password: first_value(options, password_keys())->0,
        };
        assert(res matches Ok(TableRoute::Remote(_)));
        lemma_reaches_table(res->Ok_0->Remote_0, name, fields, config);
    }
}

/// Without an endpoint a table is kept locally, with one and both credentials it is kept there, and with
/// an endpoint and one of them missing it is refused.
pub proof fn law_route_of_a_table(
    name: TableReference,
    fields: Vec<Field>,
    options: &Params,
    res: Result<TableRoute, Error>,
)
    requires
        call_ensures(DuckLakeAccelerator::route_external_table, (name, fields, options), res),
    ensures
        is_route(res, name, fields@, options@),
{
    lemma_route(res, name, fields@, options@);
}

/// A table whose pool did not open is refused with the text of the failure; otherwise its own options
/// say where it is kept.
pub proof fn law_table_after_its_pool(
    plan: &ExternalTablePlan,
    opened: Result<(), String>,
    name: TableReference,
    fields: Vec<Field>,
    res: Result<TableRoute, Error>,
)
    requires
        call_ensures(
            DuckLakeAccelerator::external_table_opened,
            (plan, opened, name, fields),
            res,
        ),
    ensures
        opened matches Err(text) ==> (res matches Err(Error::AccelerationCreationFailed { source })
            && source@ == text@),
        opened is Ok ==> is_route(res, name, fields@, plan.options@),
{
    if opened is Ok {
        lemma_route(res, name, fields@, plan.options@);
    }
}

/// A source is set up unless it is accelerated into a file that is not there.
pub proof fn law_what_is_set_up(
    accelerator: &DuckLakeAccelerator,
    source: &AccelerationSource,
    has_existing_file: bool,
    res: bool,
)
    requires
        call_ensures(
            DuckLakeAccelerator::is_initialized,
            (accelerator, source, has_existing_file),
            res,
        ),
    ensures
        !res <==> source.file_accelerated && !has_existing_file,
{
}

/// Setting up a source ends with its pool. For a source that is accelerated into a file, the data
/// directory is made first where no parameter for the file is given, blank or not; and a file that is to
/// be made anew is removed right before the pool is opened, whatever the parameters are. There are no
/// other steps.
pub proof fn law_steps_of_a_setup(
    accelerator: &DuckLakeAccelerator,
    source: &AccelerationSource,
    data_base_path: &str,
    res: Result<Vec<InitStep>, FilePathError>,
)
    requires
        call_ensures(DuckLakeAccelerator::init, (accelerator, source, data_base_path), res),
        source.wf(),
    ensures
        res matches Ok(steps) && ({
            let params = source.acceleration->0.params@;
            let makes = source.file_accelerated && !params.contains_key("open"@)
                && !params.contains_key("ducklake_open"@);
            let removes = source.file_accelerated && source.acceleration->0.mode is FileCreate;
            let last = steps@.len() - 1;
            &&& last >= 0
            &&& steps@[last] is OpenSharedPool
            &&& last == (if makes {
                1int
            } else {
                0int
            }) + (if removes {
                1int
            } else {
                0int
            })
            &&& makes ==> steps@[0] is MakeDataDirectory
            &&& removes ==> (steps@[last - 1] matches InitStep::RemoveExistingFile { path }
                && is_database_file(path@, params, data_base_path@))
        }),
{
    let steps = res->Ok_0;
    let views = steps@.map_values(|step: InitStep| step@);
    assert(views.len() == steps@.len());
    assert forall|i: int| 0 <= i < steps@.len() implies #[trigger] steps@[i]@ == views[i] by {}
    if source.file_accelerated {
        lemma_open_path(*source, data_base_path@);
        assert(is_database_file(
            open_path(*source, data_base_path@),
            source.acceleration->0.params@,
            data_base_path@,
        ));
    }
    assert(steps@[steps@.len() - 1]@ == views[views.len() - 1]);
    assert(steps@[0]@ == views[0]);
    if steps@.len() > 1 {
        assert(steps@[steps@.len() - 2]@ == views[views.len() - 2]);
    }
}

/// Of a source that is to be made anew in a file, the set-up removes the file of its pool, once and before
/// the pool is opened. Of any other source it removes nothing.
pub proof fn law_a_new_file_replaces_the_old_one(
    accelerator: &DuckLakeAccelerator,
    source: &AccelerationSource,
    runtime: &RuntimeContext,
    data_base_path: &str,
    steps: Vec<InitStep>,
    pool: PoolPlan,
)
    requires
        data_base_path@ == runtime.data_base_path@,
        call_ensures(
            DuckLakeAccelerator::init,
            (accelerator, source, data_base_path),
            Ok::<Vec<InitStep>, FilePathError>(steps),
        ),
        call_ensures(
            DuckLakeAccelerator::get_shared_pool,
            (accelerator, source, runtime),
            Ok::<PoolPlan, Error>(pool),
        ),
        source.wf(),
    ensures
        forall|i: int|
            0 <= i < steps@.len() ==> (#[trigger] steps@[i] is RemoveExistingFile <==> i
                == steps@.len() - 2 && source.file_accelerated && source.acceleration->0.mode
                is FileCreate),
        forall|i: int|
            0 <= i < steps@.len() ==> (#[trigger] steps@[i] matches InitStep::RemoveExistingFile {
                path,
            } ==> pool.path matches Some(file) && path@ == file@),
        source.file_accelerated && source.acceleration->0.mode is FileCreate ==> exists|i: int|
            0 <= i < steps@.len() && #[trigger] steps@[i] is RemoveExistingFile,
{
    law_steps_of_a_setup(
        accelerator,
        source,
        data_base_path,
        Ok::<Vec<InitStep>, FilePathError>(steps),
    );
    lemma_pool_outcome(Ok::<PoolPlan, Error>(pool), *source, *runtime);
    if source.file_accelerated {
        lemma_open_path(*source, data_base_path@);
    }
    if source.file_accelerated && source.acceleration->0.mode is FileCreate {
        let at = steps@.len() - 2;
        let path = steps@[at]->path@;
        assert(is_database_file(path, source.acceleration->0.params@, data_base_path@));
        assert(is_database_file(
            pool.path->0@,
            source.acceleration->0.params@,
            data_base_path@,
        ));
        assert(steps@[at] is RemoveExistingFile);
    }
}

/// After a step that came out well comes the next one, and nothing where none is left. After a step that
/// failed nothing comes: a failure of the file system is the failure of the set-up, with its text, and
/// the reason why there is no pool is handed on as it is.
pub proof fn law_next_step(
    remaining: &mut Vec<InitStep>,
    last: Result<(), InitFailure>,
    next: Result<Option<InitStep>, Error>,
)
    requires
        call_ensures(DuckLakeAccelerator::next_init_step, (remaining, last), next),
    ensures
        match last {
            Ok(_) => if old(remaining)@.len() == 0 {
                (next matches Ok(None)) && final(remaining)@.len() == 0
            } else {
                next matches Ok(Some(step)) && old(remaining)@ == seq![step] + final(remaining)@
            },
            Err(InitFailure::FileSystem { source: text }) => final(remaining)@.len() == 0 && (
            next matches Err(Error::AccelerationInitializationFailed { source }) && source == text),
            Err(InitFailure::Pool(reason)) => final(remaining)@.len() == 0 && (next matches Err(error)
                && error == reason),
        },
{
    let steps = old(remaining)@;
    if steps.len() > 0 {
        assert(steps =~= seq![steps[0]] + steps.drop_first());
    }
}

} // verus!
