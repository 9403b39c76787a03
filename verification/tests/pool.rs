use ducklake::accelerator::DuckLakeAccelerator;
use ducklake::error::Error;
use ducklake::params::Params;
use ducklake::pool::PoolPlan;
use ducklake::source::{Acceleration, AccelerationSource, Engine, Mode, RuntimeContext};

fn acceleration(engine: Engine, mode: Mode, entries: &[(&str, &str)]) -> Acceleration {
    let mut params = Params::new();
    for (name, value) in entries {
        params.insert(name.to_string(), value.to_string());
    }
    Acceleration { engine, mode, params }
}

fn dataset(engine: Engine, mode: Mode, file_accelerated: bool, entries: &[(&str, &str)]) -> AccelerationSource {
    AccelerationSource {
        name: "orders".to_string(),
        file_accelerated,
        acceleration: Some(acceleration(engine, mode, entries)),
    }
}

fn runtime(datasets: Vec<AccelerationSource>) -> RuntimeContext {
    RuntimeContext {
        data_base_path: "/data".to_string(),
        datasets,
        min_idle_connections: 3,
        temp_directory: None,
    }
}

fn plan(source: &AccelerationSource, runtime: &RuntimeContext) -> Result<PoolPlan, Error> {
    DuckLakeAccelerator::new().get_shared_pool(source, runtime)
}

#[test]
fn setup_queries_attach_and_use_the_catalog() {
    let empty = PoolPlan { path: None, max_size: 1, min_idle: 1, setup_queries: vec!["SELECT 1".to_string()] };
    let plan = DuckLakeAccelerator::with_ducklake_setup_queries(empty, "s3://o'brien/meta", "la\"ke");
    assert_eq!(
        plan.setup_queries,
        vec![
            "SELECT 1",
            "PRAGMA enable_checkpoint_on_shutdown",
            "INSTALL ducklake",
            "LOAD ducklake",
            "ATTACH 'ducklake:s3://o''brien/meta' AS \"la\"\"ke\"",
            "USE \"la\"\"ke\"",
        ]
    );
    assert_eq!((plan.path, plan.max_size, plan.min_idle), (None, 1, 1));
}

#[test]
fn a_connection_string_cannot_name_the_catalog() {
    let attach = |connection: &str, catalog: &str| {
        let empty = PoolPlan { path: None, max_size: 1, min_idle: 1, setup_queries: vec![] };
        DuckLakeAccelerator::with_ducklake_setup_queries(empty, connection, catalog).setup_queries[3].clone()
    };
    assert_ne!(attach("x' AS \"a", "b"), attach("x", "a"));
    assert_ne!(attach("x", "a"), attach("x", "b"));
    let using = |catalog: &str| {
        let empty = PoolPlan { path: None, max_size: 1, min_idle: 1, setup_queries: vec![] };
        DuckLakeAccelerator::with_ducklake_setup_queries(empty, "x", catalog).setup_queries[4].clone()
    };
    assert_ne!(using("a\""), using("a"));
}

#[test]
fn datasets_on_the_same_file_are_counted() {
    let accelerator = DuckLakeAccelerator::new();
    let datasets = vec![
        dataset(Engine::DuckLake, Mode::File, true, &[("open", "/a.db")]),
        dataset(Engine::DuckLake, Mode::FileCreate, true, &[("ducklake_open", " /a.db ")]),
        dataset(Engine::DuckLake, Mode::File, true, &[("open", "/b.db")]),
        dataset(Engine::DuckLake, Mode::File, true, &[]),
        dataset(Engine::DuckLake, Mode::File, false, &[("open", "/a.db")]),
        dataset(Engine::DuckLake, Mode::Memory, true, &[("open", "/a.db")]),
        dataset(Engine::Other, Mode::File, true, &[("open", "/a.db")]),
        AccelerationSource { name: "plain".to_string(), file_accelerated: false, acceleration: None },
    ];
    assert_eq!(accelerator.get_num_accelerating_datasets(Some("/a.db"), &datasets, "/data"), 3);
    assert_eq!(accelerator.get_num_accelerating_datasets(Some("/b.db"), &datasets, "/data"), 2);
    assert_eq!(
        accelerator.get_num_accelerating_datasets(Some("/data/accelerated_ducklake.db"), &datasets, "/data"),
        2
    );
    assert_eq!(accelerator.get_num_accelerating_datasets(Some("/c.db"), &datasets, "/data"), 1);
    assert_eq!(accelerator.get_num_accelerating_datasets(None, &datasets, "/data"), 2);
    assert_eq!(accelerator.get_num_accelerating_datasets(None, &vec![], "/data"), 1);
}

#[test]
fn the_order_of_datasets_does_not_matter() {
    let accelerator = DuckLakeAccelerator::new();
    let make = |path: &str| dataset(Engine::DuckLake, Mode::File, true, &[("open", path)]);
    let forward = vec![make("/a"), make("/b"), make("/a")];
    let backward = vec![make("/a"), make("/a"), make("/b")];
    assert_eq!(accelerator.get_num_accelerating_datasets(Some("/a"), &forward, "/d"), 3);
    assert_eq!(accelerator.get_num_accelerating_datasets(Some("/a"), &backward, "/d"), 3);
}

#[test]
fn pool_size_follows_the_parameter() {
    let size = |value: &str| {
        DuckLakeAccelerator::get_pool_max_size(
            2,
            &acceleration(Engine::DuckLake, Mode::Memory, &[("connection_pool_size", value)]),
            3,
        )
    };
    assert_eq!(size("17"), 17);
    assert_eq!(size("0"), 0);
    assert_eq!(size("+1"), 1);
    assert_eq!(size("4294967295"), u32::MAX);
    for unreadable in ["", "many", "-1", " 17", "4294967296"] {
        assert_eq!(size(unreadable), 3);
    }
}

#[test]
fn default_pool_size_has_room_for_all() {
    let plain = acceleration(Engine::DuckLake, Mode::Memory, &[]);
    assert_eq!(DuckLakeAccelerator::get_pool_max_size(2, &plain, 3), 3);
    assert_eq!(DuckLakeAccelerator::get_pool_max_size(3, &plain, 3), 3);
    assert_eq!(DuckLakeAccelerator::get_pool_max_size(9, &plain, 3), 9);
}

#[test]
fn a_file_pool_with_a_connection_string() {
    let source = dataset(
        Engine::DuckLake,
        Mode::File,
        true,
        &[("open", "/a.db"), ("connection_string", "s3://meta"), ("catalog_name", "lake")],
    );
    let same = || dataset(Engine::DuckLake, Mode::File, true, &[("open", "/a.db")]);
    let runtime = runtime(vec![same(), same(), same(), same()]);
    let plan = plan(&source, &runtime).unwrap();
    assert_eq!(plan.path, Some("/a.db".to_string()));
    assert_eq!(plan.max_size, 5);
    assert_eq!(plan.min_idle, 3);
    assert_eq!(
        plan.setup_queries,
        vec![
            "PRAGMA enable_checkpoint_on_shutdown",
            "INSTALL ducklake",
            "LOAD ducklake",
            "ATTACH 'ducklake:s3://meta' AS \"lake\"",
            "USE \"lake\"",
        ]
    );
}

#[test]
fn a_memory_pool_for_an_endpoint() {
    let source = dataset(Engine::DuckLake, Mode::Memory, false, &[("ducklake_endpoint", "host:443")]);
    let plan = plan(&source, &runtime(vec![])).unwrap();
    assert_eq!(plan.path, None);
    assert_eq!(plan.max_size, 3);
    assert_eq!(plan.setup_queries, vec!["PRAGMA enable_checkpoint_on_shutdown"]);
}

#[test]
fn a_new_file_pool_uses_the_default_file() {
    let source = dataset(Engine::DuckLake, Mode::FileCreate, true, &[("connection_string", "x")]);
    let plan = plan(&source, &runtime(vec![])).unwrap();
    assert_eq!(plan.path, Some("/data/accelerated_ducklake.db".to_string()));
    assert_eq!(plan.setup_queries[3], "ATTACH 'ducklake:x' AS \"ducklake\"");
}

#[test]
fn a_pool_needs_acceleration_settings() {
    let source = AccelerationSource { name: "orders".to_string(), file_accelerated: false, acceleration: None };
    let error = plan(&source, &runtime(vec![])).unwrap_err();
    assert!(matches!(&error, Error::AccelerationNotEnabled { dataset } if dataset == "orders"));
    assert_eq!(error.message(), "Acceleration not enabled for dataset: orders");
}

#[test]
fn a_pool_needs_a_connection_string_or_an_endpoint() {
    let source = dataset(Engine::DuckLake, Mode::File, false, &[("connection_string", " ")]);
    let error = plan(&source, &runtime(vec![])).unwrap_err();
    assert!(matches!(error, Error::MissingConnectionConfiguration));
    assert_eq!(
        error.message(),
        "Missing required DuckLake acceleration parameters. Specify either ducklake_connection_string, or ducklake_endpoint + ducklake_username + ducklake_password"
    );
}

#[test]
fn a_file_pool_needs_file_acceleration() {
    for mode in [Mode::File, Mode::FileCreate] {
        let source = dataset(Engine::DuckLake, mode, false, &[("connection_string", "x")]);
        let error = plan(&source, &runtime(vec![])).unwrap_err();
        assert!(matches!(error, Error::InvalidConfiguration { .. }));
    }
}

#[test]
fn a_pool_that_does_not_open_is_an_error() {
    assert!(matches!(DuckLakeAccelerator::shared_pool_opened(Ok(7)), Ok(7)));
    let error = DuckLakeAccelerator::shared_pool_opened::<u8>(Err("disk full".to_string())).unwrap_err();
    assert!(matches!(&error, Error::AccelerationCreationFailed { source } if source == "disk full"));
    assert_eq!(error.message(), "Acceleration creation failed: disk full");
}

#[test]
fn sources_on_the_same_file_have_the_same_pool() {
    let first = dataset(Engine::DuckLake, Mode::File, true, &[("open", "/a.db"), ("connection_string", "x")]);
    let second = dataset(Engine::DuckLake, Mode::FileCreate, true, &[("ducklake_open", "/a.db"), ("endpoint", "h")]);
    let runtime = runtime(vec![
        dataset(Engine::DuckLake, Mode::File, true, &[("open", "/a.db")]),
        dataset(Engine::DuckLake, Mode::File, true, &[("open", "/a.db")]),
        dataset(Engine::DuckLake, Mode::File, true, &[("open", "/a.db")]),
    ]);
    let one = plan(&first, &runtime).unwrap();
    let other = plan(&second, &runtime).unwrap();
    assert_eq!(one.path, other.path);
    assert_eq!((one.max_size, other.max_size), (4, 4));
}

#[test]
fn sources_on_one_file_ask_for_one_database() {
    let served = |mode: Mode, entries: &[(&str, &str)]| {
        let source = dataset(Engine::DuckLake, mode, !matches!(mode, Mode::Memory), entries);
        plan(&source, &runtime(vec![])).unwrap().path
    };
    let first = served(Mode::File, &[("open", "/a.db"), ("connection_string", "x")]);
    assert_eq!(first, Some("/a.db".to_string()));
    assert_eq!(served(Mode::FileCreate, &[("ducklake_open", "/a.db"), ("connection_string", "y")]), first);
    assert_ne!(served(Mode::File, &[("open", "/b.db"), ("connection_string", "x")]), first);
    let memory = served(Mode::Memory, &[("connection_string", "x")]);
    assert_eq!(memory, None);
    assert_eq!(served(Mode::Memory, &[("connection_string", "y")]), memory);
}
