//! Which pool a source gets, said of its settings and of the datasets around it.

use crate::accelerator::DuckLakeAccelerator;
use crate::error::{outcome, Error};
use crate::lookup::{
    catalog_name, catalog_name_keys, connection_string_keys, endpoint_keys, open_path,
};
use crate::lookup_laws::{filled, is_database_file, lemma_open_path, lemma_two_names};
use crate::pool::{
    attach_statement, pool_max_size, pool_size_param, shared_pool, use_statement, users_of_instance,
    PoolPlan,
};
use crate::source::{Acceleration, AccelerationSource, Engine, RuntimeContext};
use crate::sql_laws::{lemma_quoting_reads_back, unquoted};
use crate::text::{digits_value, doubled, parsed_u32, trimmed, without_plus};
use crate::text_laws::{halved, lemma_doubled_reads_back, lemma_halved_concat, writes_row};
use vstd::prelude::*;

verus! {

/// The dataset is accelerated by this accelerator in memory.
pub open spec fn is_in_memory(dataset: AccelerationSource) -> bool {
    dataset.acceleration matches Some(acceleration) && acceleration.engine == Engine::DuckLake
        && acceleration.mode is Memory
}

/// The dataset is accelerated by this accelerator into the file at `path`.
pub open spec fn is_in_file(
    dataset: AccelerationSource,
    path: Seq<char>,
    data_base_path: Seq<char>,
) -> bool {
    &&& dataset.file_accelerated
    &&& dataset.acceleration matches Some(acceleration) && acceleration.engine == Engine::DuckLake
        && (acceleration.mode is File || acceleration.mode is FileCreate) && is_database_file(
        path,
        acceleration.params@,
        data_base_path,
    )
}

/// The datasets that are in memory.
pub open spec fn datasets_in_memory(datasets: Seq<AccelerationSource>) -> Seq<AccelerationSource> {
    datasets.filter(|dataset: AccelerationSource| is_in_memory(dataset))
}

/// The datasets that are in the file at `path`.
pub open spec fn datasets_in_file(
    datasets: Seq<AccelerationSource>,
    path: Seq<char>,
    data_base_path: Seq<char>,
) -> Seq<AccelerationSource> {
    datasets.filter(|dataset: AccelerationSource| is_in_file(dataset, path, data_base_path))
}

proof fn lemma_users_in_memory(datasets: Seq<AccelerationSource>, data_base_path: Seq<char>)
    ensures
        users_of_instance(datasets, None, data_base_path) == datasets_in_memory(datasets).len(),
    decreases datasets.len(),
{
    reveal(Seq::filter);
    if datasets.len() > 0 {
        lemma_users_in_memory(datasets.drop_last(), data_base_path);
    }
}

proof fn lemma_users_in_file(
    datasets: Seq<AccelerationSource>,
    path: Seq<char>,
    data_base_path: Seq<char>,
)
    ensures
        users_of_instance(datasets, Some(path), data_base_path) == datasets_in_file(
            datasets,
            path,
            data_base_path,
        ).len(),
    decreases datasets.len(),
{
    reveal(Seq::filter);
    if datasets.len() > 0 {
        lemma_users_in_file(datasets.drop_last(), path, data_base_path);
        if datasets.last().acceleration is Some {
            lemma_open_path(datasets.last(), data_base_path);
            assert(is_database_file(
                path,
                datasets.last().acceleration->0.params@,
                data_base_path,
            ) <==> path == open_path(datasets.last(), data_base_path));
        }
    }
}

/// The database in memory is counted once for itself and once for each dataset that has settings with
/// this engine and the mode in memory, whatever else holds of it.
pub proof fn law_users_of_the_memory(
    accelerator: &DuckLakeAccelerator,
    datasets: &Vec<AccelerationSource>,
    data_base_path: &str,
    res: u32,
)
    requires
        call_ensures(
            DuckLakeAccelerator::get_num_accelerating_datasets,
            (accelerator, None::<&str>, datasets, data_base_path),
            res,
        ),
    ensures
        res == 1 + datasets_in_memory(datasets@).len(),
        (forall|i: int| 0 <= i < datasets@.len() ==> is_in_memory(#[trigger] datasets@[i])) ==> res
            == 1 + datasets@.len(),
        (forall|i: int| 0 <= i < datasets@.len() ==> !is_in_memory(#[trigger] datasets@[i])) ==> res
            == 1,
{
    lemma_users_in_memory(datasets@, data_base_path@);
    lemma_all_or_none(datasets@, |dataset: AccelerationSource| is_in_memory(dataset));
}

proof fn lemma_all_or_none(
    datasets: Seq<AccelerationSource>,
    counted: spec_fn(AccelerationSource) -> bool,
)
    ensures
        (forall|i: int| 0 <= i < datasets.len() ==> counted(#[trigger] datasets[i]))
            ==> datasets.filter(counted).len() == datasets.len(),
        (forall|i: int| 0 <= i < datasets.len() ==> !counted(#[trigger] datasets[i]))
            ==> datasets.filter(counted).len() == 0,
    decreases datasets.len(),
{
    reveal(Seq::filter);
    if datasets.len() > 0 {
        lemma_all_or_none(datasets.drop_last(), counted);
        assert(datasets.last() == datasets[datasets.len() - 1]);
    }
}

/// The database in a file is counted once for itself and once for each dataset that is accelerated into
/// a file, with this engine, with a file mode, and with the same path.
pub proof fn law_users_of_a_file(
    accelerator: &DuckLakeAccelerator,
    path: &str,
    datasets: &Vec<AccelerationSource>,
    data_base_path: &str,
    res: u32,
)
    requires
        call_ensures(
            DuckLakeAccelerator::get_num_accelerating_datasets,
            (accelerator, Some(path), datasets, data_base_path),
            res,
        ),
    ensures
        res == 1 + datasets_in_file(datasets@, path@, data_base_path@).len(),
{
    lemma_users_in_file(datasets@, path@, data_base_path@);
}

/// `size` is the number under `connection_pool_size`, where a number that fits is written there.
/// Otherwise it is the larger of the number of users and the number of idle connections.
pub open spec fn is_pool_size(
    size: nat,
    users: nat,
    params: Map<Seq<char>, Seq<char>>,
    min_idle: nat,
) -> bool {
    let set = |row: Seq<char>|
        params.contains_key("connection_pool_size"@) && writes_row(
            params["connection_pool_size"@],
            row,
        ) && digits_value(row) <= u32::MAX;
    &&& forall|row: Seq<char>| #[trigger] set(row) ==> size == digits_value(row)
    &&& (forall|row: Seq<char>| !#[trigger] set(row)) ==> size >= users && size >= min_idle && (size
        == users || size == min_idle)
}

proof fn lemma_pool_size(users: nat, params: Map<Seq<char>, Seq<char>>, min_idle: nat)
    ensures
        is_pool_size(
            pool_max_size(users, params, min_idle),
            users,
            params,
            min_idle,
        ),
{
    reveal_strlit("+");
    assert("+"@ =~= seq!['+']);
    let set = |row: Seq<char>|
        params.contains_key("connection_pool_size"@) && writes_row(
            params["connection_pool_size"@],
            row,
        ) && digits_value(row) <= u32::MAX;
    let size = pool_max_size(users, params, min_idle);
    assert forall|row: Seq<char>| #[trigger] set(row) implies size == digits_value(row) by {
        let text = params["connection_pool_size"@];
        if text == row {
            assert('0' <= row[0] <= '9');
            assert(without_plus(text) == row);
        } else {
            assert(text[0] == '+');
            assert(without_plus(text) =~= row);
        }
    }
    if pool_size_param(params) is Some {
        let text = params["connection_pool_size"@];
        assert(parsed_u32(text) is Some);
        let row = without_plus(text);
        if text[0] == '+' {
            assert(text =~= "+"@ + row);
        }
        assert(set(row));
    }
}

/// A pool has the size that is set for it, or else room for its users and its idle connections.
pub proof fn law_pool_size(users: u32, acceleration: &Acceleration, min_idle: u32, res: u32)
    requires
        call_ensures(DuckLakeAccelerator::get_pool_max_size, (users, acceleration, min_idle), res),
    ensures
        is_pool_size(res as nat, users as nat, acceleration.params@, min_idle as nat),
{
    lemma_pool_size(users as nat, acceleration.params@, min_idle as nat);
}

/// `text` attaches the DuckLake at `connection` as the catalog `catalog`.
pub open spec fn attaches(text: Seq<char>, connection: Seq<char>, catalog: Seq<char>) -> bool {
    exists|target: Seq<char>, name: Seq<char>|
        {
            &&& text == #[trigger] ("ATTACH "@ + target + " AS "@ + name)
            &&& unquoted(target, '\'') == Some("ducklake:"@ + connection)
            &&& unquoted(name, '"') == Some(catalog)
        }
}

/// `text` makes the catalog `catalog` the current one.
pub open spec fn makes_current(text: Seq<char>, catalog: Seq<char>) -> bool {
    exists|name: Seq<char>| text == #[trigger] ("USE "@ + name) && unquoted(name, '"') == Some(catalog)
}

proof fn lemma_attaches(connection: Seq<char>, catalog: Seq<char>)
    ensures
        attaches(attach_statement(connection, catalog), connection, catalog),
        makes_current(use_statement(catalog), catalog),
{
    let scheme = "ducklake:"@;
    reveal_strlit("ATTACH 'ducklake:");
    reveal_strlit("ATTACH ");
    reveal_strlit("ducklake:");
    reveal_strlit("' AS \"");
    reveal_strlit(" AS ");
    reveal_strlit("USE \"");
    reveal_strlit("USE ");
    reveal_strlit("\"");
    assert(scheme =~= seq!['d', 'u', 'c', 'k', 'l', 'a', 'k', 'e', ':']);
    assert("ATTACH 'ducklake:"@ =~= "ATTACH "@ + seq!['\''] + scheme);
    assert("' AS \""@ =~= seq!['\''] + " AS "@ + seq!['"']);
    assert("USE \""@ =~= "USE "@ + seq!['"']);
    assert("\""@ =~= seq!['"']);
    let target = seq!['\''] + (scheme + doubled(connection, '\'')) + seq!['\''];
    let name = seq!['"'] + doubled(catalog, '"') + seq!['"'];
    lemma_plain_reads_as_itself(scheme, '\'');
    lemma_doubled_reads_back(connection, '\'');
    lemma_halved_concat(scheme, doubled(connection, '\''), '\'');
    assert(target.subrange(1, target.len() - 1) =~= scheme + doubled(connection, '\''));
    lemma_quoting_reads_back(catalog, '"');
    assert(attach_statement(connection, catalog) =~= "ATTACH "@ + target + " AS "@ + name);
    assert(use_statement(catalog) =~= "USE "@ + name);
}

proof fn lemma_plain_reads_as_itself(text: Seq<char>, quote: char)
    requires
        forall|i: int| 0 <= i < text.len() ==> #[trigger] text[i] != quote,
    ensures
        halved(text, quote) == Some(text),
    decreases text.len(),
{
    if text.len() == 0 {
        assert(text =~= Seq::<char>::empty());
    } else {
        assert forall|i: int| 0 <= i < text.skip(1).len() implies #[trigger] text.skip(1)[i]
            != quote by {
            assert(text.skip(1)[i] == text[i + 1]);
        }
        lemma_plain_reads_as_itself(text.skip(1), quote);
        assert(text =~= seq![text[0]] + text.skip(1));
    }
}

/// The statements from `at` on make a connection ready for the DuckLake at `connection`: it asks for a
/// checkpoint on shutdown, gets the extension, attaches the DuckLake and makes its catalog current.
pub open spec fn prepares_for_ducklake(
    queries: Seq<String>,
    at: int,
    connection: Seq<char>,
    catalog: Seq<char>,
) -> bool {
    &&& queries.len() == at + 5
    &&& queries[at]@ == "PRAGMA enable_checkpoint_on_shutdown"@
    &&& queries[at + 1]@ == "INSTALL ducklake"@
    &&& queries[at + 2]@ == "LOAD ducklake"@
    &&& attaches(queries[at + 3]@, connection, catalog)
    &&& makes_current(queries[at + 4]@, catalog)
}

/// The statements for a DuckLake come behind those that are there. Nothing else of the pool changes.
pub proof fn law_ducklake_statements(
    before: PoolPlan,
    connection_string: &str,
    catalog_name: &str,
    after: PoolPlan,
)
    requires
        call_ensures(
            DuckLakeAccelerator::with_ducklake_setup_queries,
            (before, connection_string, catalog_name),
            after,
        ),
    ensures
        prepares_for_ducklake(
            after.setup_queries@,
            before.setup_queries@.len() as int,
            connection_string@,
            catalog_name@,
        ),
        forall|i: int|
            0 <= i < before.setup_queries@.len() ==> (#[trigger] after.setup_queries@[i])@
                == before.setup_queries@[i]@,
        after.max_size == before.max_size,
        after.min_idle == before.min_idle,
        match (before.path, after.path) {
            (Some(a), Some(b)) => a@ == b@,
            (None, None) => true,
            _ => false,
        },
{
    lemma_attaches(connection_string@, catalog_name@);
    let old_texts = before@.setup_queries;
    let new_texts = after@.setup_queries;
    assert(new_texts.len() == after.setup_queries@.len());
    assert(old_texts.len() == before.setup_queries@.len());
    assert forall|i: int| 0 <= i < new_texts.len() implies #[trigger] new_texts[i]
        == after.setup_queries@[i]@ by {}
    assert forall|i: int| 0 <= i < before.setup_queries@.len() implies (
    #[trigger] after.setup_queries@[i])@ == before.setup_queries@[i]@ by {
        assert(new_texts[i] == old_texts[i]);
    }
    let at = old_texts.len() as int;
    assert(new_texts[at] == after.setup_queries@[at]@);
    assert(new_texts[at + 1] == after.setup_queries@[at + 1]@);
    assert(new_texts[at + 2] == after.setup_queries@[at + 2]@);
    assert(new_texts[at + 3] == after.setup_queries@[at + 3]@);
    assert(new_texts[at + 4] == after.setup_queries@[at + 4]@);
    assert(before@.path == after@.path);
}

/// `plan` is the pool of a source with these settings.
pub open spec fn is_pool_of(
    plan: PoolPlan,
    acceleration: Acceleration,
    runtime: RuntimeContext,
) -> bool {
    let params = acceleration.params@;
    let connection = if filled(params, "connection_string"@) {
        trimmed(params["connection_string"@])
    } else {
        trimmed(params["ducklake_connection_string"@])
    };
    let catalog = if filled(params, "catalog_name"@) {
        trimmed(params["catalog_name"@])
    } else if filled(params, "ducklake_catalog_name"@) {
        trimmed(params["ducklake_catalog_name"@])
    } else {
        "ducklake"@
    };
    &&& plan.min_idle == runtime.min_idle_connections
    &&& acceleration.mode is Memory ==> plan.path is None && is_pool_size(
        plan.max_size as nat,
        1 + datasets_in_memory(runtime.datasets@).len(),
        params,
        runtime.min_idle_connections as nat,
    )
    &&& acceleration.mode is File || acceleration.mode is FileCreate ==> (plan.path matches Some(path)
        && is_database_file(path@, params, runtime.data_base_path@) && is_pool_size(
        plan.max_size as nat,
        1 + datasets_in_file(runtime.datasets@, path@, runtime.data_base_path@).len(),
        params,
        runtime.min_idle_connections as nat,
    ))
    &&& if filled(params, "connection_string"@) || filled(params, "ducklake_connection_string"@) {
        prepares_for_ducklake(plan.setup_queries@, 0, connection, catalog)
    } else {
        plan.setup_queries@.len() == 1 && plan.setup_queries@[0]@
            == "PRAGMA enable_checkpoint_on_shutdown"@
    }
}

/// `res` is what a source gets: no pool without acceleration settings, without a DuckLake or an endpoint
/// to connect to, or with a file mode and no acceleration into a file; otherwise its pool.
pub open spec fn is_pool_outcome(
    res: Result<PoolPlan, Error>,
    source: AccelerationSource,
    runtime: RuntimeContext,
) -> bool {
    match source.acceleration {
        None => res matches Err(Error::AccelerationNotEnabled { dataset }) && dataset@
            == source.name@,
        Some(acceleration) => {
            let params = acceleration.params@;
            let connected = filled(params, "connection_string"@) || filled(
                params,
                "ducklake_connection_string"@,
            ) || filled(params, "endpoint"@) || filled(params, "ducklake_endpoint"@);
            let misplaced = !(acceleration.mode is Memory) && !source.file_accelerated;
            &&& !connected ==> (res matches Err(Error::MissingConnectionConfiguration))
            &&& connected && misplaced ==> (res matches Err(Error::InvalidConfiguration { detail })
                && detail@ == "Dataset is not file accelerated"@)
            &&& connected && !misplaced ==> (res matches Ok(plan) && is_pool_of(
                plan,
                acceleration,
                runtime,
            ))
        },
    }
}

pub(crate) proof fn lemma_pool_outcome(
    res: Result<PoolPlan, Error>,
    source: AccelerationSource,
    runtime: RuntimeContext,
)
    requires
        outcome(res) == shared_pool(source, runtime),
    ensures
        is_pool_outcome(res, source, runtime),
{
    if let Some(acceleration) = source.acceleration {
        let params = acceleration.params@;
        lemma_two_names(params, "connection_string"@, "ducklake_connection_string"@);
        lemma_two_names(params, "endpoint"@, "ducklake_endpoint"@);
        lemma_two_names(params, "catalog_name"@, "ducklake_catalog_name"@);
        assert(connection_string_keys() =~= seq![
            "connection_string"@,
            "ducklake_connection_string"@,
        ]);
        assert(endpoint_keys() =~= seq!["endpoint"@, "ducklake_endpoint"@]);
        assert(catalog_name_keys() =~= seq!["catalog_name"@, "ducklake_catalog_name"@]);
        if let Ok(plan) = res {
            let texts = plan@.setup_queries;
            assert(texts.len() == plan.setup_queries@.len());
            assert forall|i: int| 0 <= i < texts.len() implies #[trigger] texts[i]
                == plan.setup_queries@[i]@ by {}
            if filled(params, "connection_string"@) || filled(params, "ducklake_connection_string"@) {
                let connection = if filled(params, "connection_string"@) {
                    trimmed(params["connection_string"@])
                } else {
                    trimmed(params["ducklake_connection_string"@])
                };
                lemma_attaches(connection, catalog_name(source));
                assert(texts[0] == plan.setup_queries@[0]@);
                assert(texts[1] == plan.setup_queries@[1]@);
                assert(texts[2] == plan.setup_queries@[2]@);
                assert(texts[3] == plan.setup_queries@[3]@);
                assert(texts[4] == plan.setup_queries@[4]@);
            } else {
                assert(texts[0] == plan.setup_queries@[0]@);
            }
            let base = runtime.data_base_path@;
            if acceleration.mode is Memory {
                lemma_users_in_memory(runtime.datasets@, base);
                lemma_pool_size(
                    1 + datasets_in_memory(runtime.datasets@).len(),
                    params,
                    runtime.min_idle_connections as nat,
                );
            } else {
                let path = open_path(source, base);
                lemma_open_path(source, base);
                assert(is_database_file(path, params, base));
                lemma_users_in_file(runtime.datasets@, path, base);
                lemma_pool_size(
                    1 + datasets_in_file(runtime.datasets@, path, base).len(),
                    params,
                    runtime.min_idle_connections as nat,
                );
            }
        }
    }
}

/// A source without acceleration settings has no pool; nor has one that names neither a DuckLake nor an
/// endpoint, nor one with a file mode that is not accelerated into a file. Every other source has one:
/// on its file or in memory, with room for its users, and ready for its DuckLake where it names one.
pub proof fn law_pool_of_a_source(
    accelerator: &DuckLakeAccelerator,
    source: &AccelerationSource,
    runtime: &RuntimeContext,
    res: Result<PoolPlan, Error>,
)
    requires
        call_ensures(DuckLakeAccelerator::get_shared_pool, (accelerator, source, runtime), res),
    ensures
        is_pool_outcome(res, *source, *runtime),
{
    lemma_pool_outcome(res, *source, *runtime);
}

/// A pool that opened is used as it is; one that did not is an error with the text of the failure.
pub proof fn law_pool_is_used_or_reported<P>(opened: Result<P, String>, res: Result<P, Error>)
    requires
        call_ensures(DuckLakeAccelerator::shared_pool_opened::<P>, (opened,), res),
    ensures
        match (opened, res) {
            (Ok(pool), Ok(used)) => pool == used,
            (Err(text), Err(Error::AccelerationCreationFailed { source })) => text == source,
            _ => false,
        },
{
}

} // verus!
