//! The DuckDB connection pool that datasets share.

use crate::accelerator::DuckLakeAccelerator;
use crate::error::{outcome, viewed, Error, ErrorView};
use crate::lookup::{
    catalog_name, connection_string_keys, endpoint_keys, open_path, source_value,
};
use crate::source::{Acceleration, AccelerationSource, Engine, Mode, RuntimeContext};
use crate::text::{double, doubled, parse_u32, parsed_u32, same_text};
use vstd::prelude::*;
use vstd::string::StringExecFns;

verus! {

/// A connection pool to be opened.
#[derive(Debug)]
pub struct PoolPlan {
    /// The database file, or `None` for a database in memory.
    pub path: Option<String>,
    /// The largest number of connections.
    pub max_size: u32,
    /// The number of idle connections to keep open.
    pub min_idle: u32,
    /// The statements that each new connection runs, in order.
    pub setup_queries: Vec<String>,
}

/// A [`PoolPlan`] with its texts as character sequences.
pub struct PoolPlanView {
    pub path: Option<Seq<char>>,
    pub max_size: nat,
    pub min_idle: nat,
    pub setup_queries: Seq<Seq<char>>,
}

impl View for PoolPlan {
    type V = PoolPlanView;

    open spec fn view(&self) -> PoolPlanView {
        PoolPlanView {
            path: viewed(self.path),
            max_size: self.max_size as nat,
            min_idle: self.min_idle as nat,
            setup_queries: self.setup_queries@.map_values(|query: String| query@),
        }
    }
}

/// The statement that attaches a DuckLake under a catalog name.
pub open spec fn attach_statement(connection_string: Seq<char>, catalog: Seq<char>) -> Seq<char> {
    "ATTACH 'ducklake:"@ + doubled(connection_string, '\'') + "' AS \""@ + doubled(catalog, '"')
        + "\""@
}

/// The statement that makes a catalog the current one.
pub open spec fn use_statement(catalog: Seq<char>) -> Seq<char> {
    "USE \""@ + doubled(catalog, '"') + "\""@
}

/// The statements that prepare a connection for work on a DuckLake.
pub open spec fn ducklake_setup_queries(
    connection_string: Seq<char>,
    catalog: Seq<char>,
) -> Seq<Seq<char>> {
    seq![
        "PRAGMA enable_checkpoint_on_shutdown"@,
        "INSTALL ducklake"@,
        "LOAD ducklake"@,
        attach_statement(connection_string, catalog),
        use_statement(catalog),
    ]
}

/// The statements that each connection of the pool of `source` runs.
pub open spec fn setup_queries(source: AccelerationSource) -> Seq<Seq<char>> {
    match source_value(source, connection_string_keys()) {
        Some(connection_string) => ducklake_setup_queries(connection_string, catalog_name(source)),
        None => seq!["PRAGMA enable_checkpoint_on_shutdown"@],
    }
}

/// A dataset uses the database instance in the file `path`, or the one in memory where there is no
/// path.
pub open spec fn uses_instance(
    dataset: AccelerationSource,
    path: Option<Seq<char>>,
    data_base_path: Seq<char>,
) -> bool {
    match dataset.acceleration {
        Some(acceleration) => acceleration.engine == Engine::DuckLake && match path {
            Some(path) => {
                &&& acceleration.mode.is_file_mode()
                &&& dataset.file_accelerated
                &&& open_path(dataset, data_base_path) == path
            },
            None => acceleration.mode is Memory,
        },
        None => false,
    }
}

/// The number of datasets that use a database instance.
pub open spec fn users_of_instance(
    datasets: Seq<AccelerationSource>,
    path: Option<Seq<char>>,
    data_base_path: Seq<char>,
) -> nat
    decreases datasets.len(),
{
    if datasets.len() == 0 {
        0
    } else if uses_instance(datasets.last(), path, data_base_path) {
        users_of_instance(datasets.drop_last(), path, data_base_path) + 1
    } else {
        users_of_instance(datasets.drop_last(), path, data_base_path)
    }
}

/// The number for which a pool is sized: one, and one more for each dataset that uses the instance.
pub open spec fn instance_usage(
    datasets: Seq<AccelerationSource>,
    path: Option<Seq<char>>,
    data_base_path: Seq<char>,
) -> nat {
    1 + users_of_instance(datasets, path, data_base_path)
}

/// The pool size that parameters set, where they set one that can be read.
pub open spec fn pool_size_param(params: Map<Seq<char>, Seq<char>>) -> Option<u32> {
    if params.contains_key("connection_pool_size"@) {
        parsed_u32(params["connection_pool_size"@])
    } else {
        None
    }
}

/// The size of a pool: what the parameters say, or else room for the idle connections and for every
/// user of the instance.
pub open spec fn pool_max_size(
    usage: nat,
    params: Map<Seq<char>, Seq<char>>,
    min_idle_connections: nat,
) -> nat {
    match pool_size_param(params) {
        Some(size) => size as nat,
        None => if usage > min_idle_connections {
            usage
        } else {
            min_idle_connections
        },
    }
}

/// The database file of the pool of `source`, or `None` for a database in memory.
pub open spec fn pool_path(source: AccelerationSource, runtime: RuntimeContext) -> Option<Seq<char>> {
    match source.acceleration {
        Some(acceleration) => if acceleration.mode.is_file_mode() {
            Some(open_path(source, runtime.data_base_path@))
        } else {
            None
        },
        None => None,
    }
}

/// The number for which the pool of `source` is sized.
pub open spec fn pool_usage(source: AccelerationSource, runtime: RuntimeContext) -> nat {
    instance_usage(runtime.datasets@, pool_path(source, runtime), runtime.data_base_path@)
}

/// The pool of `source`, or the reason why it has none.
pub open spec fn shared_pool(source: AccelerationSource, runtime: RuntimeContext) -> Result<
    PoolPlanView,
    ErrorView,
> {
    match source.acceleration {
        None => Err(ErrorView::AccelerationNotEnabled { dataset: source.name@ }),
        Some(acceleration) => if source_value(source, connection_string_keys()) is None
            && source_value(source, endpoint_keys()) is None {
            Err(ErrorView::MissingConnectionConfiguration)
        } else if acceleration.mode.is_file_mode() && !source.file_accelerated {
            Err(ErrorView::InvalidConfiguration { detail: "Dataset is not file accelerated"@ })
        } else {
            Ok(
                PoolPlanView {
                    path: pool_path(source, runtime),
                    max_size: pool_max_size(
                        pool_usage(source, runtime),
                        acceleration.params@,
                        runtime.min_idle_connections as nat,
                    ),
                    min_idle: runtime.min_idle_connections as nat,
                    setup_queries: setup_queries(source),
                },
            )
        },
    }
}

/// The number for which the pool of `source` is sized can be counted.
pub open spec fn pool_usage_fits(source: AccelerationSource, runtime: RuntimeContext) -> bool {
    shared_pool(source, runtime) is Ok ==> pool_usage(source, runtime) <= u32::MAX
}

proof fn lemma_users_grow(
    datasets: Seq<AccelerationSource>,
    i: int,
    path: Option<Seq<char>>,
    data_base_path: Seq<char>,
)
    requires
        0 <= i <= datasets.len(),
    ensures
        users_of_instance(datasets.take(i), path, data_base_path) <= users_of_instance(
            datasets,
            path,
            data_base_path,
        ),
    decreases datasets.len() - i,
{
    if i < datasets.len() {
        lemma_users_grow(datasets, i + 1, path, data_base_path);
        assert(datasets.take(i + 1).drop_last() == datasets.take(i));
    } else {
        assert(datasets.take(i) == datasets);
    }
}

/// `query` behind the setup queries of `plan`.
fn with_setup_query(plan: PoolPlan, query: String) -> (res: PoolPlan)
    ensures
        res@ == (PoolPlanView { setup_queries: plan@.setup_queries.push(query@), ..plan@ }),
{
    let mut queries = plan.setup_queries;
    queries.push(query);
    let res = PoolPlan { setup_queries: queries, ..plan };
    assert(res@.setup_queries =~= plan@.setup_queries.push(query@));
    res
}

impl DuckLakeAccelerator {
    /// Adds to `plan` the statements that prepare a connection for work on the DuckLake at
    /// `connection_string`, attached as `catalog_name`.
    pub fn with_ducklake_setup_queries(
        plan: PoolPlan,
        connection_string: &str,
        catalog_name: &str,
    ) -> (res: PoolPlan)
        ensures
            res@ == (PoolPlanView {
                setup_queries: plan@.setup_queries + ducklake_setup_queries(
                    connection_string@,
                    catalog_name@,
                ),
                ..plan@
            }),
    {
        let escaped_connection_string = double(connection_string, '\'');
        let escaped_catalog_name = double(catalog_name, '"');
        let mut attach_sql = "ATTACH 'ducklake:".to_string();
        attach_sql.append(escaped_connection_string.as_str());
        attach_sql.append("' AS \"");
        attach_sql.append(escaped_catalog_name.as_str());
        attach_sql.append("\"");
        let mut use_sql = "USE \"".to_string();
        use_sql.append(escaped_catalog_name.as_str());
        use_sql.append("\"");
        let ghost before = plan@.setup_queries;
        let plan = with_setup_query(plan, "PRAGMA enable_checkpoint_on_shutdown".to_string());
        let plan = with_setup_query(plan, "INSTALL ducklake".to_string());
        let plan = with_setup_query(plan, "LOAD ducklake".to_string());
        let plan = with_setup_query(plan, attach_sql);
        let plan = with_setup_query(plan, use_sql);
        assert(plan@.setup_queries =~= before + ducklake_setup_queries(
            connection_string@,
            catalog_name@,
        ));
        plan
    }

    /// The number for which a pool on the database at `path` is sized. Without a path the database
    /// is the one in memory.
    pub fn get_num_accelerating_datasets(
        &self,
        path: Option<&str>,
        datasets: &Vec<AccelerationSource>,
        data_base_path: &str,
    ) -> (res: u32)
        requires
            instance_usage(datasets@, viewed(path), data_base_path@) <= u32::MAX,
        ensures
            res == instance_usage(datasets@, viewed(path), data_base_path@),
    {
        let ghost key = viewed(path);
        let mut instance_usage: u32 = 1;
        let mut i: usize = 0;
        while i < datasets.len()
            invariant
                i <= datasets@.len(),
                key == viewed(path),
                instance_usage == 1 + users_of_instance(
                    datasets@.take(i as int),
                    key,
                    data_base_path@,
                ),
                1 + users_of_instance(datasets@, key, data_base_path@) <= u32::MAX,
            decreases datasets@.len() - i,
        {
            let dataset = &datasets[i];
            proof {
                assert(datasets@.take(i + 1).drop_last() == datasets@.take(i as int));
                lemma_users_grow(datasets@, i + 1, key, data_base_path@);
            }
            i = i + 1;
            if let Some(acceleration) = &dataset.acceleration {
                if acceleration.engine != Engine::DuckLake {
                    continue;
                }
                if let Some(this_file_path) = path {
                    if matches!(acceleration.mode, Mode::File | Mode::FileCreate) {
                        if let Ok(file_path) = self.file_path(dataset, data_base_path) {
                            if same_text(this_file_path, file_path.as_str()) {
                                instance_usage = instance_usage + 1;
                            }
                        }
                    }
                } else if acceleration.mode == Mode::Memory {
                    instance_usage = instance_usage + 1;
                }
            }
        }
        assert(datasets@.take(datasets@.len() as int) == datasets@);
        instance_usage
    }

    /// The size of a pool that `num_accelerating_datasets` use.
    pub fn get_pool_max_size(
        num_accelerating_datasets: u32,
        acceleration: &Acceleration,
        min_idle_connections: u32,
    ) -> (res: u32)
        ensures
            res == pool_max_size(
                num_accelerating_datasets as nat,
                acceleration.params@,
                min_idle_connections as nat,
            ),
    {
        if let Some(size_text) = acceleration.params.get("connection_pool_size") {
            if let Some(size) = parse_u32(size_text) {
                return size;
            }
        }
        if num_accelerating_datasets > min_idle_connections {
            num_accelerating_datasets
        } else {
            min_idle_connections
        }
    }

    /// The pool that `source` shares with the datasets on the same database. With an endpoint the
    /// pool holds local checkpoints and state, and the tables are at the endpoint. The plan names the
    /// database; that a pool already open on it is handed out again is up to the DuckDB factory that
    /// carries the plan out.
    pub fn get_shared_pool(&self, source: &AccelerationSource, runtime: &RuntimeContext) -> (res:
        Result<PoolPlan, Error>)
        requires
            pool_usage_fits(*source, *runtime),
        ensures
            outcome(res) == shared_pool(*source, *runtime),
    {
        let acceleration = match &source.acceleration {
            Some(acceleration) => acceleration,
            None => {
                return Err(Error::AccelerationNotEnabled { dataset: source.name.clone() });
            },
        };
        let connection_string = Self::ducklake_connection_string(source);
        let endpoint = Self::ducklake_endpoint(source);
        if connection_string.is_none() && endpoint.is_none() {
            return Err(Error::MissingConnectionConfiguration);
        }
        let catalog_name = Self::ducklake_catalog_name(source);
        let path = match acceleration.mode {
            Mode::File | Mode::FileCreate => {
                match self.ducklake_open_path(source, runtime.data_base_path.as_str()) {
                    Ok(path) => Some(path),
                    Err(error) => {
                        return Err(error);
                    },
                }
            },
            Mode::Memory => None,
        };
        let num_accelerating_datasets: u32 = self.get_num_accelerating_datasets(
            match &path {
                Some(path) => Some(path.as_str()),
                None => None,
            },
            &runtime.datasets,
            runtime.data_base_path.as_str(),
        );
        let max_size: u32 = Self::get_pool_max_size(
            num_accelerating_datasets,
            acceleration,
            runtime.min_idle_connections,
        );
        let plan = PoolPlan {
            path,
            max_size,
            min_idle: runtime.min_idle_connections,
            setup_queries: Vec::new(),
        };
        assert(plan@.setup_queries =~= Seq::<Seq<char>>::empty());
        let plan = match &connection_string {
            Some(connection_string) => Self::with_ducklake_setup_queries(
                plan,
                connection_string.as_str(),
                catalog_name.as_str(),
            ),
            None => with_setup_query(plan, "PRAGMA enable_checkpoint_on_shutdown".to_string()),
        };
        assert(plan@.setup_queries =~= setup_queries(*source));
        Ok(plan)
    }

    /// What became of a pool after the attempt to open it; `opened` holds the pool, or the text of
    /// the failure.
    pub fn shared_pool_opened<P>(opened: Result<P, String>) -> (res: Result<P, Error>)
        ensures
            res == (match opened {
                Ok(pool) => Ok(pool),
                Err(source) => Err(Error::AccelerationCreationFailed { source }),
            }),
    {
        match opened {
            Ok(pool) => Ok(pool),
            Err(source) => Err(Error::AccelerationCreationFailed { source }),
        }
    }
}

} // verus!
