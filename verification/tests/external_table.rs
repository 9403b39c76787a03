use ducklake::accelerator::DuckLakeAccelerator;
use ducklake::error::Error;
use ducklake::external_table::{InitFailure, InitStep, TableRoute};
use ducklake::params::Params;
use ducklake::schema::{DataType, Field, TableReference};
use ducklake::source::{Acceleration, AccelerationSource, Engine, Mode, RuntimeContext};

fn params(entries: &[(&str, &str)]) -> Params {
    let mut params = Params::new();
    for (name, value) in entries {
        params.insert(name.to_string(), value.to_string());
    }
    params
}

fn source(mode: Mode, file_accelerated: bool, entries: &[(&str, &str)]) -> AccelerationSource {
    AccelerationSource {
        name: "orders".to_string(),
        file_accelerated,
        acceleration: Some(Acceleration { engine: Engine::DuckLake, mode, params: params(entries) }),
    }
}

fn runtime(temp_directory: Option<&str>) -> RuntimeContext {
    RuntimeContext {
        data_base_path: "/data".to_string(),
        datasets: vec![],
        min_idle_connections: 2,
        temp_directory: temp_directory.map(String::from),
    }
}

fn sorted(params: &Params) -> Vec<(String, String)> {
    let mut entries = params.entries().clone();
    entries.sort();
    entries
}

fn pairs(entries: &[(&str, &str)]) -> Vec<(String, String)> {
    entries.iter().map(|(name, value)| (name.to_string(), value.to_string())).collect()
}

fn table() -> (TableReference, Vec<Field>) {
    (
        TableReference::Bare { table: "t".to_string() },
        vec![Field { name: "id".to_string(), data_type: DataType::Int64, nullable: true }],
    )
}

#[test]
fn options_are_renamed() {
    let accelerator = DuckLakeAccelerator::new();
    let plan = accelerator
        .create_external_table(
            params(&[("file", "/f.db"), ("on_refresh_recompute_statistics", "disabled"), ("keep", "me")]),
            None,
            &runtime(Some("/tmp")),
        )
        .unwrap();
    assert_eq!(
        sorted(&plan.options),
        pairs(&[("keep", "me"), ("open", "/f.db"), ("recompute_statistics_on_write", "disabled")])
    );
    assert!(plan.pool.is_none());
}

#[test]
fn renaming_again_changes_nothing() {
    let accelerator = DuckLakeAccelerator::new();
    let once = accelerator
        .create_external_table(params(&[("ducklake_open", "/f.db"), ("x", "y")]), None, &runtime(None))
        .unwrap();
    let first = sorted(&once.options);
    let twice = accelerator.create_external_table(once.options, None, &runtime(None)).unwrap();
    assert_eq!(sorted(&twice.options), first);
}

#[test]
fn the_own_name_of_the_file_goes_first() {
    let accelerator = DuckLakeAccelerator::new();
    let open = |entries: &[(&str, &str)]| {
        let plan = accelerator.create_external_table(params(entries), None, &runtime(None)).unwrap();
        plan.options.get("open").map(String::from)
    };
    assert_eq!(open(&[("open", "o"), ("file", "f"), ("ducklake_open", "d")]), Some("d".to_string()));
    assert_eq!(open(&[("open", "o"), ("file", "f")]), Some("f".to_string()));
    assert_eq!(open(&[("open", "o")]), Some("o".to_string()));
    assert_eq!(open(&[]), None);
}

#[test]
fn a_source_adds_its_file_and_the_temp_directory() {
    let accelerator = DuckLakeAccelerator::new();
    let served = source(Mode::File, true, &[("open", "/a.db"), ("connection_string", "x")]);
    let plan = accelerator.create_external_table(params(&[]), Some(&served), &runtime(Some("/tmp/q"))).unwrap();
    assert_eq!(sorted(&plan.options), pairs(&[("open", "/a.db"), ("temp_directory", "/tmp/q")]));
    assert_eq!(plan.pool.unwrap().path, Some("/a.db".to_string()));
}

#[test]
fn a_file_that_the_options_name_is_kept() {
    let accelerator = DuckLakeAccelerator::new();
    let served = source(Mode::File, true, &[("open", "/a.db"), ("connection_string", "x")]);
    let plan = accelerator.create_external_table(params(&[("file", "/b.db")]), Some(&served), &runtime(None)).unwrap();
    assert_eq!(sorted(&plan.options), pairs(&[("open", "/b.db")]));
}

#[test]
fn a_source_in_memory_adds_no_file() {
    let accelerator = DuckLakeAccelerator::new();
    let served = source(Mode::Memory, false, &[("connection_string", "x")]);
    let plan = accelerator.create_external_table(params(&[("a", "b")]), Some(&served), &runtime(None)).unwrap();
    assert_eq!(sorted(&plan.options), pairs(&[("a", "b")]));
    assert_eq!(plan.pool.unwrap().path, None);
}

#[test]
fn a_source_without_a_pool_gets_no_table() {
    let accelerator = DuckLakeAccelerator::new();
    let served = source(Mode::Memory, false, &[]);
    let error = accelerator.create_external_table(params(&[]), Some(&served), &runtime(None)).err();
    assert!(matches!(error, Some(Error::MissingConnectionConfiguration)));
}

#[test]
fn a_table_without_an_endpoint_is_local() {
    let (name, fields) = table();
    let route = DuckLakeAccelerator::route_external_table(name, fields, &params(&[("username", "u")]));
    assert!(matches!(route, Ok(TableRoute::Local)));
}

#[test]
fn a_table_with_an_endpoint_is_remote() {
    let (name, fields) = table();
    let options = params(&[("endpoint", "host"), ("username", "u"), ("password", "p")]);
    match DuckLakeAccelerator::route_external_table(name, fields, &options) {
        Ok(TableRoute::Remote(plan)) => {
            assert_eq!(plan.endpoint, "grpc+tls://host");
            assert_eq!(plan.username, "u");
            assert_eq!(plan.password.expose(), "p");
            assert_eq!(plan.create_table_sql, "CREATE TABLE IF NOT EXISTS \"t\" (\"id\" BIGINT)");
            assert!(matches!(&plan.table, TableReference::Bare { table } if table == "t"));
            assert_eq!(plan.fields.len(), 1);
            assert_eq!(plan.fields[0].name, "id");
        }
        _ => panic!("the table is not remote"),
    }
}

#[test]
fn a_table_with_an_endpoint_needs_credentials() {
    let (name, fields) = table();
    let error = DuckLakeAccelerator::route_external_table(name, fields, &params(&[("endpoint", "host")])).err();
    assert!(matches!(error, Some(Error::MissingEndpointUsername)));
    let (name, fields) = table();
    let options = params(&[("endpoint", "host"), ("username", "u"), ("password", " ")]);
    let error = DuckLakeAccelerator::route_external_table(name, fields, &options).err();
    assert!(matches!(error, Some(Error::MissingEndpointPassword)));
}

#[test]
fn a_source_in_memory_is_always_set_up() {
    let accelerator = DuckLakeAccelerator::new();
    assert!(accelerator.is_initialized(&source(Mode::Memory, false, &[]), false));
    assert!(accelerator.is_initialized(&source(Mode::File, true, &[]), true));
    assert!(!accelerator.is_initialized(&source(Mode::File, true, &[]), false));
}

#[test]
fn setting_up_a_source_in_memory_opens_its_pool() {
    let steps = DuckLakeAccelerator::new().init(&source(Mode::Memory, false, &[]), "/data").unwrap();
    assert!(matches!(steps.as_slice(), [InitStep::OpenSharedPool]));
}

#[test]
fn setting_up_the_default_file_makes_its_directory() {
    let steps = DuckLakeAccelerator::new().init(&source(Mode::File, true, &[]), "/data").unwrap();
    assert!(matches!(steps.as_slice(), [InitStep::MakeDataDirectory, InitStep::OpenSharedPool]));
}

#[test]
fn setting_up_a_new_file_removes_the_old_one() {
    let steps = DuckLakeAccelerator::new().init(&source(Mode::FileCreate, true, &[]), "/data").unwrap();
    assert!(matches!(
        steps.as_slice(),
        [InitStep::MakeDataDirectory, InitStep::RemoveExistingFile { path }, InitStep::OpenSharedPool]
            if path == "/data/accelerated_ducklake.db"
    ));
    let steps = DuckLakeAccelerator::new()
        .init(&source(Mode::FileCreate, true, &[("ducklake_open", "/x.db")]), "/data")
        .unwrap();
    assert!(matches!(
        steps.as_slice(),
        [InitStep::RemoveExistingFile { path }, InitStep::OpenSharedPool] if path == "/x.db"
    ));
}

#[test]
fn a_blank_file_name_still_counts_as_named() {
    let steps = DuckLakeAccelerator::new().init(&source(Mode::File, true, &[("open", " ")]), "/data").unwrap();
    assert!(matches!(steps.as_slice(), [InitStep::OpenSharedPool]));
}

#[test]
fn a_table_is_routed_by_the_options_of_its_plan() {
    let accelerator = DuckLakeAccelerator::new();
    let options = params(&[("endpoint", "host"), ("username", "u"), ("password", "p")]);
    let plan = accelerator.create_external_table(options, None, &runtime(None)).unwrap();
    let (name, fields) = table();
    let route = DuckLakeAccelerator::external_table_opened(&plan, Ok(()), name, fields);
    assert!(matches!(route, Ok(TableRoute::Remote(remote)) if remote.endpoint == "grpc+tls://host"));

    let plan = accelerator.create_external_table(params(&[("file", "/f.db")]), None, &runtime(None)).unwrap();
    let (name, fields) = table();
    let route = DuckLakeAccelerator::external_table_opened(&plan, Ok(()), name, fields);
    assert!(matches!(route, Ok(TableRoute::Local)));
}

#[test]
fn a_pool_that_does_not_open_gives_no_table() {
    let accelerator = DuckLakeAccelerator::new();
    let served = source(Mode::Memory, false, &[("connection_string", "x")]);
    let plan = accelerator.create_external_table(params(&[]), Some(&served), &runtime(None)).unwrap();
    let (name, fields) = table();
    let error = DuckLakeAccelerator::external_table_opened(&plan, Err("locked".to_string()), name, fields).err();
    assert!(matches!(error, Some(Error::AccelerationCreationFailed { source }) if source == "locked"));
}

#[test]
fn a_set_up_takes_its_steps_in_order() {
    let mut steps = DuckLakeAccelerator::new().init(&source(Mode::FileCreate, true, &[]), "/data").unwrap();
    let step = DuckLakeAccelerator::next_init_step(&mut steps, Ok(()));
    assert!(matches!(step, Ok(Some(InitStep::MakeDataDirectory))));
    let step = DuckLakeAccelerator::next_init_step(&mut steps, Ok(()));
    assert!(matches!(step, Ok(Some(InitStep::RemoveExistingFile { .. }))));
    let step = DuckLakeAccelerator::next_init_step(&mut steps, Ok(()));
    assert!(matches!(step, Ok(Some(InitStep::OpenSharedPool))));
    let step = DuckLakeAccelerator::next_init_step(&mut steps, Ok(()));
    assert!(matches!(step, Ok(None)));
}

#[test]
fn a_step_that_fails_ends_the_set_up() {
    let mut steps = DuckLakeAccelerator::new().init(&source(Mode::FileCreate, true, &[]), "/data").unwrap();
    assert!(DuckLakeAccelerator::next_init_step(&mut steps, Ok(())).is_ok());
    let denied = InitFailure::FileSystem { source: "denied".to_string() };
    let error = DuckLakeAccelerator::next_init_step(&mut steps, Err(denied)).err();
    assert!(matches!(error, Some(Error::AccelerationInitializationFailed { source }) if source == "denied"));
    assert!(steps.is_empty());
}

#[test]
fn a_set_up_without_a_pool_ends_with_its_reason() {
    let mut steps = vec![InitStep::OpenSharedPool];
    assert!(DuckLakeAccelerator::next_init_step(&mut steps, Ok(())).is_ok());
    let missing = InitFailure::Pool(Error::MissingConnectionConfiguration);
    let error = DuckLakeAccelerator::next_init_step(&mut steps, Err(missing)).err();
    assert!(matches!(error, Some(Error::MissingConnectionConfiguration)));
}
