//! What holds of the accelerator's decisions taken together.

use crate::error::{Error, ErrorView};
use crate::external_table::{
    external_table, init_steps, names_open_path, opened_table, renamed_options, setup_error,
    setup_result, setup_taken, table_options, table_route, ExternalTablePlanView, InitFailure,
    InitStep, InitStepView, TableRouteView,
};
use crate::lookup::{
    catalog_name, catalog_name_keys, connection_string_keys, default_open_path, endpoint_keys,
    first_value, non_empty_value, open_keys, open_path, password_keys, source_value, username_keys,
};
use crate::parameters::{parameter_list, ParameterScope};
use crate::pool::{
    attach_statement, instance_usage, pool_max_size, pool_path, pool_size_param, pool_usage,
    pool_usage_fits, shared_pool, use_statement, users_of_instance,
};
use crate::remote::{
    flight_endpoint, has_scheme, is_parse_failure, remote_sql_run, RemoteSqlEvent, RemoteSqlStep,
};
use crate::schema::{FieldView, TableReferenceView};
use crate::source::{AccelerationSource, RuntimeContext};
use crate::sql::create_table_statement;
use crate::text::{
    all_digits, contains_text, decimal, digit_char, digits, digits_value, is_digit, is_white_space,
    parsed_u32, stands_at, trimmed, without_plus,
};
use vstd::prelude::*;

verus! {

/// A trimmed text neither begins nor ends with white space, and trimming it again changes nothing.
pub proof fn law_trimmed_text_is_clean(text: Seq<char>)
    ensures
        trimmed(text).len() > 0 ==> !is_white_space(trimmed(text).first()) && !is_white_space(
            trimmed(text).last(),
        ),
        trimmed(trimmed(text)) == trimmed(text),
    decreases text.len(),
{
    if text.len() > 0 && is_white_space(text.first()) {
        law_trimmed_text_is_clean(text.drop_first());
    } else if text.len() > 0 && is_white_space(text.last()) {
        law_trimmed_text_is_clean(text.drop_last());
    }
}

proof fn lemma_digits_value(value: nat)
    ensures
        digits(value).len() > 0,
        all_digits(digits(value)),
        digits_value(digits(value)) == value,
    decreases value,
{
    reveal_with_fuel(digits_value, 2);
    if value < 10 {
        assert(digits(value).drop_last() =~= Seq::<char>::empty());
        assert(digit_char(value) as nat == '0' as nat + value);
    } else {
        lemma_digits_value(value / 10);
        assert(digits(value).drop_last() =~= digits(value / 10));
        assert(digit_char(value % 10) as nat == '0' as nat + value % 10);
    }
}

/// A number that was written in decimal notation is read back as it was.
pub proof fn law_written_number_is_read_back(value: u32)
    ensures
        parsed_u32(decimal(value as int)) == Some(value),
{
    lemma_digits_value(value as nat);
    let text = decimal(value as int);
    assert(is_digit(text[0]));
    assert(without_plus(text) == text);
}

/// A pool size that is set in decimal notation is the size of the pool, whatever else holds.
pub proof fn law_set_pool_size_is_used(
    params: Map<Seq<char>, Seq<char>>,
    size: u32,
    usage: nat,
    min_idle_connections: nat,
)
    requires
        params.contains_key("connection_pool_size"@),
        params["connection_pool_size"@] == decimal(size as int),
    ensures
        pool_max_size(usage, params, min_idle_connections) == size,
{
    law_written_number_is_read_back(size);
}

/// Without a size that is set, a pool has room for its idle connections and for every user of its
/// database, and no more than the larger of the two.
pub proof fn law_default_pool_has_room(
    params: Map<Seq<char>, Seq<char>>,
    usage: nat,
    min_idle_connections: nat,
)
    requires
        pool_size_param(params) is None,
    ensures
        pool_max_size(usage, params, min_idle_connections) >= min_idle_connections,
        pool_max_size(usage, params, min_idle_connections) >= usage,
        pool_max_size(usage, params, min_idle_connections) == min_idle_connections || pool_max_size(
            usage,
            params,
            min_idle_connections,
        ) == usage,
{
}

/// A value that is found is not blank and has no white space around it. It stands under one of the
/// keys, and under no key before that one stands anything but blanks.
pub proof fn law_found_value_is_the_first(params: Map<Seq<char>, Seq<char>>, keys: Seq<Seq<char>>)
    ensures
        match first_value(params, keys) {
            Some(value) => {
                &&& value.len() > 0
                &&& trimmed(value) == value
                &&& exists|i: int|
                    {
                        &&& 0 <= i < keys.len()
                        &&& non_empty_value(params, #[trigger] keys[i]) == Some(value)
                        &&& forall|j: int|
                            0 <= j < i ==> non_empty_value(params, #[trigger] keys[j]) is None
                    }
            },
            None => forall|i: int|
                0 <= i < keys.len() ==> non_empty_value(params, #[trigger] keys[i]) is None,
        },
    decreases keys.len(),
{
    if keys.len() > 0 {
        let rest = keys.drop_first();
        match non_empty_value(params, keys[0]) {
            Some(value) => {
                law_trimmed_text_is_clean(params[keys[0]]);
                assert(non_empty_value(params, keys[0]) == Some(value));
            },
            None => {
                law_found_value_is_the_first(params, rest);
                match first_value(params, rest) {
                    Some(value) => {
                        let i = choose|i: int|
                            {
                                &&& 0 <= i < rest.len()
                                &&& non_empty_value(params, #[trigger] rest[i]) == Some(value)
                                &&& forall|j: int|
                                    0 <= j < i ==> non_empty_value(params, #[trigger] rest[j]) is None
                            };
                        assert(non_empty_value(params, keys[i + 1]) == Some(value));
                        assert forall|j: int| 0 <= j < i + 1 implies non_empty_value(
                            params,
                            #[trigger] keys[j],
                        ) is None by {
                            if j > 0 {
                                assert(rest[j - 1] == keys[j]);
                            }
                        }
                    },
                    None => {
                        assert forall|i: int| 0 <= i < keys.len() implies non_empty_value(
                            params,
                            #[trigger] keys[i],
                        ) is None by {
                            if i > 0 {
                                assert(rest[i - 1] == keys[i]);
                            }
                        }
                    },
                }
            },
        }
    }
}

/// What is found under a list of keys depends on the values under those keys alone.
pub proof fn law_other_keys_do_not_matter(
    params: Map<Seq<char>, Seq<char>>,
    others: Map<Seq<char>, Seq<char>>,
    keys: Seq<Seq<char>>,
)
    requires
        forall|i: int|
            0 <= i < keys.len() ==> (params.contains_key(#[trigger] keys[i]) <==> others.contains_key(
                keys[i],
            )) && (params.contains_key(keys[i]) ==> params[keys[i]] == others[keys[i]]),
    ensures
        first_value(params, keys) == first_value(others, keys),
    decreases keys.len(),
{
    if keys.len() > 0 {
        let rest = keys.drop_first();
        assert forall|i: int| 0 <= i < rest.len() implies (params.contains_key(#[trigger] rest[i])
            <==> others.contains_key(rest[i])) && (params.contains_key(rest[i]) ==> params[rest[i]]
            == others[rest[i]]) by {
            assert(rest[i] == keys[i + 1]);
        }
        assert(params.contains_key(keys[0]) <==> others.contains_key(keys[0]));
        law_other_keys_do_not_matter(params, others, rest);
    }
}

/// A blank value is as good as none.
pub proof fn law_blank_value_is_no_value(
    params: Map<Seq<char>, Seq<char>>,
    key: Seq<char>,
    keys: Seq<Seq<char>>,
)
    requires
        params.contains_key(key) ==> trimmed(params[key]).len() == 0,
    ensures
        first_value(params, keys) == first_value(params.remove(key), keys),
    decreases keys.len(),
{
    if keys.len() > 0 {
        law_blank_value_is_no_value(params, key, keys.drop_first());
        assert(non_empty_value(params, keys[0]) == non_empty_value(params.remove(key), keys[0]));
    }
}

/// An endpoint that was given a protocol keeps it: what comes out always has a protocol, and
/// normalizing it again changes nothing.
pub proof fn law_normalized_endpoint_has_a_scheme(endpoint: Seq<char>)
    ensures
        has_scheme(flight_endpoint(endpoint)),
        flight_endpoint(flight_endpoint(endpoint)) == flight_endpoint(endpoint),
{
    if !has_scheme(endpoint) {
        assert("grpc+tls://"@.is_prefix_of("grpc+tls://"@ + endpoint));
    }
}

/// A database has at least the use that asks for it, and at most one more for each dataset.
pub proof fn law_usage_is_bounded(
    datasets: Seq<AccelerationSource>,
    path: Option<Seq<char>>,
    data_base_path: Seq<char>,
)
    ensures
        1 <= instance_usage(datasets, path, data_base_path) <= 1 + datasets.len(),
    decreases datasets.len(),
{
    if datasets.len() > 0 {
        law_usage_is_bounded(datasets.drop_last(), path, data_base_path);
    }
}

/// With fewer datasets than a `u32` can count, the pool of every source can be sized.
pub proof fn law_usage_fits(source: AccelerationSource, runtime: RuntimeContext)
    requires
        runtime.datasets@.len() < u32::MAX,
    ensures
        pool_usage_fits(source, runtime),
{
    law_usage_is_bounded(
        runtime.datasets@,
        pool_path(source, runtime),
        runtime.data_base_path@,
    );
}

/// The users of a database are counted part by part, so that their order does not matter.
pub proof fn law_users_add_up(
    some: Seq<AccelerationSource>,
    others: Seq<AccelerationSource>,
    path: Option<Seq<char>>,
    data_base_path: Seq<char>,
)
    ensures
        users_of_instance(some + others, path, data_base_path) == users_of_instance(
            some,
            path,
            data_base_path,
        ) + users_of_instance(others, path, data_base_path),
        users_of_instance(some + others, path, data_base_path) == users_of_instance(
            others + some,
            path,
            data_base_path,
        ),
{
    lemma_users_concat(some, others, path, data_base_path);
    lemma_users_concat(others, some, path, data_base_path);
}

proof fn lemma_users_concat(
    some: Seq<AccelerationSource>,
    others: Seq<AccelerationSource>,
    path: Option<Seq<char>>,
    data_base_path: Seq<char>,
)
    ensures
        users_of_instance(some + others, path, data_base_path) == users_of_instance(
            some,
            path,
            data_base_path,
        ) + users_of_instance(others, path, data_base_path),
    decreases others.len(),
{
    if others.len() == 0 {
        assert(some + others =~= some);
    } else {
        lemma_users_concat(some, others.drop_last(), path, data_base_path);
        assert((some + others).drop_last() =~= some + others.drop_last());
        assert((some + others).last() == others.last());
    }
}

/// A source gets a pool exactly where it has acceleration settings that name a connection string or
/// an endpoint and, to be kept in a file, is accelerated into one.
pub proof fn law_pool_is_owed(source: AccelerationSource, runtime: RuntimeContext)
    ensures
        shared_pool(source, runtime) is Ok <==> (source.acceleration matches Some(acceleration) && (
        source_value(source, connection_string_keys()) is Some || source_value(
            source,
            endpoint_keys(),
        ) is Some) && (acceleration.mode.is_file_mode() ==> source.file_accelerated)),
{
}

/// Every connection of a pool first asks for a checkpoint on shutdown. Where a DuckLake is attached,
/// its extension is loaded before, and its catalog is made current after; where none is, nothing else
/// is run.
pub proof fn law_pool_setup_order(source: AccelerationSource, runtime: RuntimeContext)
    requires
        shared_pool(source, runtime) is Ok,
    ensures
        ({
            let queries = shared_pool(source, runtime)->Ok_0.setup_queries;
            &&& queries[0] == "PRAGMA enable_checkpoint_on_shutdown"@
            &&& match source_value(source, connection_string_keys()) {
                Some(connection_string) => {
                    &&& queries.len() == 5
                    &&& queries[1] == "INSTALL ducklake"@
                    &&& queries[2] == "LOAD ducklake"@
                    &&& queries[3] == attach_statement(connection_string, catalog_name(source))
                    &&& queries[4] == use_statement(catalog_name(source))
                },
                None => queries.len() == 1,
            }
        }),
{
}

/// Two sources on the same database have pools on the same database, sized for the same use.
pub proof fn law_same_database_same_pool(
    a: AccelerationSource,
    b: AccelerationSource,
    runtime: RuntimeContext,
)
    requires
        shared_pool(a, runtime) is Ok,
        shared_pool(b, runtime) is Ok,
        pool_path(a, runtime) == pool_path(b, runtime),
    ensures
        shared_pool(a, runtime)->Ok_0.path == shared_pool(b, runtime)->Ok_0.path,
        pool_usage(a, runtime) == pool_usage(b, runtime),
        pool_size_param(a.acceleration->0.params@) == pool_size_param(b.acceleration->0.params@)
            ==> shared_pool(a, runtime)->Ok_0.max_size == shared_pool(b, runtime)->Ok_0.max_size,
{
}

/// Two sources are on the same database exactly where both are kept in memory, or both in files with
/// the same path.
pub proof fn law_what_makes_one_database(
    a: AccelerationSource,
    b: AccelerationSource,
    runtime: RuntimeContext,
)
    requires
        shared_pool(a, runtime) is Ok,
        shared_pool(b, runtime) is Ok,
    ensures
        shared_pool(a, runtime)->Ok_0.path == shared_pool(b, runtime)->Ok_0.path <==> ({
            let mode_a = a.acceleration->0.mode;
            let mode_b = b.acceleration->0.mode;
            ||| mode_a is Memory && mode_b is Memory
            ||| mode_a.is_file_mode() && mode_b.is_file_mode() && open_path(
                a,
                runtime.data_base_path@,
            ) == open_path(b, runtime.data_base_path@)
        }),
{
}

/// A pool that was opened for one source, and is kept under its database, is found again for every
/// source that is in memory like the first, or in a file with the same path.
pub proof fn law_open_pool_is_found_again<P>(
    a: AccelerationSource,
    b: AccelerationSource,
    runtime: RuntimeContext,
    open: Map<Option<Seq<char>>, P>,
)
    requires
        shared_pool(a, runtime) is Ok,
        shared_pool(b, runtime) is Ok,
        open.contains_key(shared_pool(a, runtime)->Ok_0.path),
        (a.acceleration->0.mode is Memory && b.acceleration->0.mode is Memory) || (
        a.acceleration->0.mode.is_file_mode() && b.acceleration->0.mode.is_file_mode() && open_path(
            a,
            runtime.data_base_path@,
        ) == open_path(b, runtime.data_base_path@)),
    ensures
        open.contains_key(shared_pool(b, runtime)->Ok_0.path),
        open[shared_pool(b, runtime)->Ok_0.path] == open[shared_pool(a, runtime)->Ok_0.path],
{
}

/// The names of the options that are moved or set are all different.
pub(crate) proof fn lemma_option_names()
    ensures
        "file"@ != "open"@,
        "ducklake_open"@ != "open"@,
        "ducklake_open"@ != "file"@,
        "on_refresh_recompute_statistics"@ != "open"@,
        "on_refresh_recompute_statistics"@ != "file"@,
        "on_refresh_recompute_statistics"@ != "ducklake_open"@,
        "recompute_statistics_on_write"@ != "open"@,
        "recompute_statistics_on_write"@ != "file"@,
        "recompute_statistics_on_write"@ != "ducklake_open"@,
        "recompute_statistics_on_write"@ != "on_refresh_recompute_statistics"@,
        "temp_directory"@ != "open"@,
        "temp_directory"@ != "file"@,
        "temp_directory"@ != "ducklake_open"@,
        "temp_directory"@ != "on_refresh_recompute_statistics"@,
        "temp_directory"@ != "recompute_statistics_on_write"@,
{
    reveal_strlit("file");
    reveal_strlit("open");
    reveal_strlit("ducklake_open");
    reveal_strlit("on_refresh_recompute_statistics");
    reveal_strlit("recompute_statistics_on_write");
    reveal_strlit("temp_directory");
    assert("file"@[0] == 'f');
    assert("open"@[0] == 'o');
    assert("open"@.len() == 4);
    assert("ducklake_open"@.len() == 13);
    assert("on_refresh_recompute_statistics"@.len() == 31);
    assert("recompute_statistics_on_write"@.len() == 29);
    assert("temp_directory"@.len() == 14);
}

/// Renamed options have none of the old names left, and renaming them again changes nothing.
pub proof fn law_renaming_is_complete(options: Map<Seq<char>, Seq<char>>)
    ensures
        !renamed_options(options).contains_key("file"@),
        !renamed_options(options).contains_key("ducklake_open"@),
        !renamed_options(options).contains_key("on_refresh_recompute_statistics"@),
        renamed_options(renamed_options(options)) == renamed_options(options),
{
    lemma_option_names();
}

/// Of the names for the database file the accelerator's own goes before `file`, and `file` before
/// `open`.
pub proof fn law_open_option_precedence(options: Map<Seq<char>, Seq<char>>)
    ensures
        options.contains_key("ducklake_open"@) ==> renamed_options(options).contains_key("open"@)
            && renamed_options(options)["open"@] == options["ducklake_open"@],
        !options.contains_key("ducklake_open"@) && options.contains_key("file"@) ==> renamed_options(
            options,
        ).contains_key("open"@) && renamed_options(options)["open"@] == options["file"@],
        !options.contains_key("ducklake_open"@) && !options.contains_key("file"@) ==> (
        renamed_options(options).contains_key("open"@) <==> options.contains_key("open"@)) && (
        options.contains_key("open"@) ==> renamed_options(options)["open"@] == options["open"@]),
{
    lemma_option_names();
}

/// Every option that is neither renamed nor set by the runtime comes through as it was.
pub proof fn law_other_options_come_through(
    options: Map<Seq<char>, Seq<char>>,
    source: Option<AccelerationSource>,
    runtime: RuntimeContext,
    name: Seq<char>,
)
    requires
        name != "file"@,
        name != "open"@,
        name != "ducklake_open"@,
        name != "on_refresh_recompute_statistics"@,
        name != "recompute_statistics_on_write"@,
        name != "temp_directory"@,
    ensures
        table_options(options, source, runtime).contains_key(name) <==> options.contains_key(name),
        options.contains_key(name) ==> table_options(options, source, runtime)[name]
            == options[name],
{
}

/// A table that serves a file-accelerated source names a database file. Where its options name none,
/// that file is the one of the source's pool.
pub proof fn law_table_and_pool_share_the_file(
    options: Map<Seq<char>, Seq<char>>,
    source: AccelerationSource,
    runtime: RuntimeContext,
)
    requires
        source.file_accelerated,
    ensures
        table_options(options, Some(source), runtime).contains_key("open"@),
        !options.contains_key("open"@) && !options.contains_key("file"@) && !options.contains_key(
            "ducklake_open"@,
        ) ==> table_options(options, Some(source), runtime)["open"@] == open_path(
            source,
            runtime.data_base_path@,
        ),
        pool_path(source, runtime) is Some ==> pool_path(source, runtime) == Some(
            open_path(source, runtime.data_base_path@),
        ),
{
    lemma_option_names();
}

/// A table is kept at a hosted endpoint exactly where its options name one and give both credentials;
/// it is kept locally exactly where they name none. So an endpoint without credentials is never
/// passed over in favour of the local database. A table at an endpoint is created, read and written
/// under the given name and with the given columns.
pub proof fn law_endpoint_decides_the_route(
    reference: TableReferenceView,
    fields: Seq<FieldView>,
    options: Map<Seq<char>, Seq<char>>,
)
    ensures
        table_route(reference, fields, options) == Ok::<_, ErrorView>(TableRouteView::Local)
            <==> first_value(options, endpoint_keys()) is None,
        (table_route(reference, fields, options) matches Ok(TableRouteView::Remote(_))) <==> (
        first_value(options, endpoint_keys()) is Some && first_value(options, username_keys()) is Some
            && first_value(options, password_keys()) is Some),
        table_route(reference, fields, options) matches Ok(TableRouteView::Remote(plan))
            ==> plan.username == first_value(options, username_keys())->0 && plan.password
            == first_value(options, password_keys())->0 && has_scheme(plan.endpoint),
        table_route(reference, fields, options) matches Ok(TableRouteView::Remote(plan)) ==> plan.table
            == reference && plan.fields == fields && plan.create_table_sql == create_table_statement(
            plan.table,
            plan.fields,
        ),
{
    if let Some(endpoint) = first_value(options, endpoint_keys()) {
        law_normalized_endpoint_has_a_scheme(endpoint);
    }
}

/// Setting up a source ends with its pool, which is opened once. A file is removed only where it is to
/// be made anew, and it is the file of that pool.
pub proof fn law_setup_ends_with_the_pool(source: AccelerationSource, runtime: RuntimeContext)
    ensures
        ({
            let steps = init_steps(source, runtime.data_base_path@);
            &&& steps.len() > 0
            &&& forall|i: int|
                0 <= i < steps.len() ==> (#[trigger] steps[i] is OpenSharedPool <==> i == steps.len()
                    - 1)
            &&& forall|i: int|
                0 <= i < steps.len() ==> (#[trigger] steps[i] matches InitStepView::RemoveExistingFile {
                    path,
                } ==> source.acceleration matches Some(acceleration) && acceleration.mode is FileCreate
                    && pool_path(source, runtime) == Some(path))
        }),
{
}

/// A set-up takes its steps in their order and stops at the first that fails: every step but the last
/// that is taken came out well. So no file is removed and no pool is opened after a failure.
pub proof fn law_failed_step_ends_the_setup(
    steps: Seq<InitStep>,
    start: Result<(), InitFailure>,
    outcomes: Seq<Result<(), InitFailure>>,
)
    requires
        start is Ok,
    ensures
        setup_taken(steps, start, outcomes).is_prefix_of(steps),
        forall|i: int|
            0 <= i < setup_taken(steps, start, outcomes).len() - 1 ==> i < outcomes.len()
                && #[trigger] outcomes[i] is Ok,
    decreases outcomes.len(),
{
    let taken = setup_taken(steps, start, outcomes);
    if steps.len() > 0 && outcomes.len() > 0 {
        let rest = outcomes.drop_first();
        let inner = setup_taken(steps.drop_first(), outcomes[0], rest);
        if outcomes[0] is Ok {
            law_failed_step_ends_the_setup(steps.drop_first(), outcomes[0], rest);
            assert forall|i: int| 0 < i < taken.len() implies taken[i] == steps[i] by {
                assert(inner[i - 1] == steps.drop_first()[i - 1]);
            }
            assert forall|i: int| 0 <= i < taken.len() - 1 implies i < outcomes.len()
                && #[trigger] outcomes[i] is Ok by {
                if i > 0 {
                    assert(rest[i - 1] is Ok);
                }
            }
        } else {
            assert(inner =~= Seq::<InitStep>::empty());
        }
    }
}

/// A set-up of which a step fails ends with that failure; one of which every step comes out well ends
/// well.
pub proof fn law_setup_result(
    steps: Seq<InitStep>,
    start: Result<(), InitFailure>,
    outcomes: Seq<Result<(), InitFailure>>,
    at: int,
)
    requires
        start is Ok,
        0 <= at <= steps.len(),
        at <= outcomes.len(),
        forall|i: int| 0 <= i < at ==> #[trigger] outcomes[i] is Ok,
    ensures
        at == steps.len() ==> (setup_result(steps, start, outcomes) matches Some(Ok(_))),
        at < steps.len() && at < outcomes.len() ==> (outcomes[at] matches Err(failure)
            ==> setup_result(steps, start, outcomes) == Some(Err::<(), Error>(setup_error(failure)))),
    decreases at,
{
    if at > 0 {
        let rest = outcomes.drop_first();
        assert(outcomes[0] is Ok);
        assert forall|i: int| 0 <= i < at - 1 implies #[trigger] rest[i] is Ok by {
            assert(rest[i] == outcomes[i + 1]);
        }
        law_setup_result(steps.drop_first(), outcomes[0], rest, at - 1);
    } else if at < steps.len() && at < outcomes.len() {
        reveal_with_fuel(setup_result, 2);
    }
}

/// The table of a source is routed by the options that were prepared for it, and only once its pool is
/// open.
pub proof fn law_table_needs_its_pool(
    options: Map<Seq<char>, Seq<char>>,
    source: Option<AccelerationSource>,
    runtime: RuntimeContext,
    plan: ExternalTablePlanView,
    opened: Result<(), String>,
    reference: TableReferenceView,
    fields: Seq<FieldView>,
)
    requires
        external_table(options, source, runtime) == Ok::<_, ErrorView>(plan),
    ensures
        plan.pool is Some <==> source is Some,
        opened_table(plan, opened, reference, fields) is Ok ==> opened is Ok,
        opened is Ok ==> opened_table(plan, opened, reference, fields) == table_route(
            reference,
            fields,
            table_options(options, source, runtime),
        ),
{
}

/// A file-accelerated source whose parameters have no entry for the database file is kept in the data
/// directory, and that directory is made first of all.
pub proof fn law_default_file_has_its_directory(
    source: AccelerationSource,
    data_base_path: Seq<char>,
)
    requires
        source.file_accelerated,
        source.wf(),
        !names_open_path(source),
    ensures
        open_path(source, data_base_path) == default_open_path(data_base_path),
        init_steps(source, data_base_path)[0] is MakeDataDirectory,
{
    let params = source.acceleration->0.params@;
    assert(open_keys().drop_first().drop_first() =~= Seq::<Seq<char>>::empty());
    assert(open_keys().drop_first()[0] == "ducklake_open"@);
    assert(first_value(params, open_keys().drop_first().drop_first()) is None);
    assert(first_value(params, open_keys().drop_first()) is None);
}

/// A statement at the endpoint succeeds exactly where its results are read to their end with no
/// failure before it.
pub proof fn law_remote_sql_succeeds_at_the_end(events: Seq<RemoteSqlEvent>)
    ensures
        remote_sql_run(events) == RemoteSqlStep::Finished(Ok(())) <==> exists|i: int|
            {
                &&& 0 <= i < events.len()
                &&& #[trigger] events[i] is StreamEnded
                &&& forall|j: int|
                    0 <= j < i ==> (#[trigger] events[j] is QueryAccepted || events[j] is Batch)
            },
    decreases events.len(),
{
    if events.len() > 0 {
        let rest = events.drop_first();
        law_remote_sql_succeeds_at_the_end(rest);
        if events[0] is QueryAccepted || events[0] is Batch {
            if remote_sql_run(rest) == RemoteSqlStep::Finished(Ok(())) {
                let i = choose|i: int|
                    {
                        &&& 0 <= i < rest.len()
                        &&& #[trigger] rest[i] is StreamEnded
                        &&& forall|j: int|
                            0 <= j < i ==> (#[trigger] rest[j] is QueryAccepted || rest[j] is Batch)
                    };
                assert(events[i + 1] is StreamEnded);
                assert forall|j: int| 0 <= j < i + 1 implies (#[trigger] events[j] is QueryAccepted
                    || events[j] is Batch) by {
                    if j > 0 {
                        assert(rest[j - 1] == events[j]);
                    }
                }
            }
            if exists|i: int|
                {
                    &&& 0 <= i < events.len()
                    &&& #[trigger] events[i] is StreamEnded
                    &&& forall|j: int|
                        0 <= j < i ==> (#[trigger] events[j] is QueryAccepted || events[j] is Batch)
                } {
                let i = choose|i: int|
                    {
                        &&& 0 <= i < events.len()
                        &&& #[trigger] events[i] is StreamEnded
                        &&& forall|j: int|
                            0 <= j < i ==> (#[trigger] events[j] is QueryAccepted || events[j] is Batch)
                    };
                assert(rest[i - 1] is StreamEnded);
                assert forall|j: int| 0 <= j < i - 1 implies (#[trigger] rest[j] is QueryAccepted
                    || rest[j] is Batch) by {
                    assert(rest[j] == events[j + 1]);
                }
            }
        } else {
            assert(events[0] is StreamEnded ==> remote_sql_run(events) == RemoteSqlStep::Finished(
                Ok(()),
            ));
        }
    }
}

/// The first failure that the endpoint reports is the failure of the statement, with the text that
/// came with it.
pub proof fn law_remote_sql_fails_at_the_first_failure(events: Seq<RemoteSqlEvent>, at: int)
    requires
        0 <= at < events.len(),
        forall|j: int| 0 <= j < at ==> (#[trigger] events[j] is QueryAccepted || events[j] is Batch),
    ensures
        events[at] matches RemoteSqlEvent::QueryFailed { source } ==> remote_sql_run(events)
            == RemoteSqlStep::Finished(Err(Error::UnableToExecuteRemoteSql { source })),
        events[at] matches RemoteSqlEvent::BatchFailed { source } ==> remote_sql_run(events)
            == RemoteSqlStep::Finished(Err(Error::RemoteSqlStream { source })),
    decreases at,
{
    if at > 0 {
        let rest = events.drop_first();
        assert forall|j: int| 0 <= j < at - 1 implies (#[trigger] rest[j] is QueryAccepted || rest[j]
            is Batch) by {
            assert(rest[j] == events[j + 1]);
        }
        assert(events[0] is QueryAccepted || events[0] is Batch);
        law_remote_sql_fails_at_the_first_failure(rest, at - 1);
    }
}

proof fn lemma_contained_behind(prefix: Seq<char>, text: Seq<char>, needle: Seq<char>)
    requires
        contains_text(text, needle),
    ensures
        contains_text(prefix + text, needle),
{
    let at = choose|at: int| #[trigger] stands_at(text, needle, at);
    let shifted = at + prefix.len();
    assert((prefix + text).subrange(shifted, shifted + needle.len()) =~= text.subrange(
        at,
        at + needle.len(),
    ));
    assert(stands_at(prefix + text, needle, shifted));
}

proof fn lemma_contained_in_text(prefix: Seq<char>, text: Seq<char>, needle: Seq<char>, at: int)
    requires
        stands_at(prefix + text, needle, at),
        at >= prefix.len(),
    ensures
        contains_text(text, needle),
{
    let shifted = at - prefix.len();
    assert((prefix + text).subrange(at, at + needle.len()) =~= text.subrange(
        shifted,
        shifted + needle.len(),
    ));
    assert(stands_at(text, needle, shifted));
}

/// A failed statement is passed over exactly where the text that came from the endpoint says that it
/// could not be parsed. What the accelerator adds to that text makes no difference.
pub proof fn law_parse_failure_comes_from_the_endpoint(source: Seq<char>)
    ensures
        is_parse_failure(ErrorView::UnableToExecuteRemoteSql { source }) <==> contains_text(
            source,
            "Unable to parse command"@,
        ),
        is_parse_failure(ErrorView::RemoteSqlStream { source }) <==> contains_text(
            source,
            "Unable to parse command"@,
        ),
{
    let needle = "Unable to parse command"@;
    reveal_strlit("Unable to parse command");
    assert(needle.len() == 23 && needle[0] == 'U' && needle[10] == 'p');
    let refused = "Unable to execute DuckLake endpoint SQL: "@;
    reveal_strlit("Unable to execute DuckLake endpoint SQL: ");
    assert(refused =~= seq!['U', 'n', 'a', 'b', 'l', 'e', ' ', 't', 'o', ' ', 'e', 'x', 'e', 'c', 'u', 't', 'e', ' ', 'D', 'u', 'c', 'k', 'L', 'a', 'k', 'e', ' ', 'e', 'n', 'd', 'p', 'o', 'i', 'n', 't', ' ', 'S', 'Q', 'L', ':', ' ']);
    let broken = "DuckLake endpoint SQL stream failed: "@;
    reveal_strlit("DuckLake endpoint SQL stream failed: ");
    assert(broken =~= seq!['D', 'u', 'c', 'k', 'L', 'a', 'k', 'e', ' ', 'e', 'n', 'd', 'p', 'o', 'i', 'n', 't', ' ', 'S', 'Q', 'L', ' ', 's', 't', 'r', 'e', 'a', 'm', ' ', 'f', 'a', 'i', 'l', 'e', 'd', ':', ' ']);
    if contains_text(source, needle) {
        lemma_contained_behind(refused, source, needle);
        lemma_contained_behind(broken, source, needle);
    }
    if contains_text(refused + source, needle) {
        let at = choose|at: int| #[trigger] stands_at(refused + source, needle, at);
        if at < refused.len() {
            assert((refused + source).subrange(at, at + needle.len())[0] == refused[at]);
            assert(at == 0);
            assert((refused + source).subrange(at, at + needle.len())[10] == refused[10]);
            assert(false);
        }
        lemma_contained_in_text(refused, source, needle, at);
    }
    if contains_text(broken + source, needle) {
        let at = choose|at: int| #[trigger] stands_at(broken + source, needle, at);
        if at < broken.len() {
            assert((broken + source).subrange(at, at + needle.len())[0] == broken[at]);
            assert(false);
        }
        lemma_contained_in_text(broken, source, needle, at);
    }
}

/// `name` is a parameter of the accelerator.
pub open spec fn is_component_parameter(name: Seq<char>) -> bool {
    exists|i: int|
        0 <= i < parameter_list().len() && (#[trigger] parameter_list()[i]).name == name
            && parameter_list()[i].scope == ParameterScope::Component
}

/// A list of keys begins with a parameter of the accelerator, and ends with the same name behind the
/// prefix of the accelerator.
pub open spec fn keys_of_a_parameter(keys: Seq<Seq<char>>) -> bool {
    keys.len() > 0 && is_component_parameter(keys.first()) && keys.last() == "ducklake"@ + "_"@
        + keys.first()
}

/// Every value that the accelerator looks up is a parameter that it declares, found with and without
/// the prefix.
pub proof fn law_looked_up_keys_are_declared()
    ensures
        keys_of_a_parameter(open_keys()),
        keys_of_a_parameter(connection_string_keys()),
        keys_of_a_parameter(catalog_name_keys()),
        keys_of_a_parameter(endpoint_keys()),
        keys_of_a_parameter(username_keys()),
        keys_of_a_parameter(password_keys()),
{
    reveal_strlit("ducklake");
    reveal_strlit("_");
    reveal_strlit("open");
    reveal_strlit("ducklake_open");
    reveal_strlit("connection_string");
    reveal_strlit("ducklake_connection_string");
    reveal_strlit("catalog_name");
    reveal_strlit("ducklake_catalog_name");
    reveal_strlit("endpoint");
    reveal_strlit("ducklake_endpoint");
    reveal_strlit("username");
    reveal_strlit("ducklake_username");
    reveal_strlit("password");
    reveal_strlit("ducklake_password");
    let list = parameter_list();
    assert(list[1].name == "open"@);
    assert(list[2].name == "connection_string"@);
    assert(list[3].name == "catalog_name"@);
    assert(list[4].name == "endpoint"@);
    assert(list[5].name == "username"@);
    assert(list[6].name == "password"@);
    assert("ducklake_open"@ =~= "ducklake"@ + "_"@ + "open"@);
    assert("ducklake_connection_string"@ =~= "ducklake"@ + "_"@ + "connection_string"@);
    assert("ducklake_catalog_name"@ =~= "ducklake"@ + "_"@ + "catalog_name"@);
    assert("ducklake_endpoint"@ =~= "ducklake"@ + "_"@ + "endpoint"@);
    assert("ducklake_username"@ =~= "ducklake"@ + "_"@ + "username"@);
    assert("ducklake_password"@ =~= "ducklake"@ + "_"@ + "password"@);
}

/// Of all the parameters the password alone is secret.
pub proof fn law_only_the_password_is_secret()
    ensures
        forall|i: int|
            0 <= i < parameter_list().len() ==> ((#[trigger] parameter_list()[i]).secret
                <==> parameter_list()[i].name == "password"@),
{
    reveal_strlit("password");
    reveal_strlit("file_watcher");
    reveal_strlit("open");
    reveal_strlit("connection_string");
    reveal_strlit("catalog_name");
    reveal_strlit("endpoint");
    reveal_strlit("username");
    reveal_strlit("connection_pool_size");
    reveal_strlit("on_refresh_recompute_statistics");
    reveal_strlit("optimizer_duckdb_aggregate_pushdown");
    assert("password"@[0] == 'p');
    assert("endpoint"@[0] == 'e');
    assert("username"@[0] == 'u');
    assert("password"@.len() == 8);
    let list = parameter_list();
    assert(list.len() == 10);
    assert forall|i: int| 0 <= i < list.len() implies ((#[trigger] list[i]).secret <==> list[i].name
        == "password"@) by {
        assert(i == 0 || i == 1 || i == 2 || i == 3 || i == 4 || i == 5 || i == 6 || i == 7 || i == 8
            || i == 9);
    }
}

} // verus!
