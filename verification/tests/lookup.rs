use ducklake::accelerator::{AccessMode, DuckDbSetting, DuckLakeAccelerator, FunctionSupport, SqlDialect};
use ducklake::error::{Error, FilePathError};
use ducklake::parameters::ParameterScope;
use ducklake::params::Params;
use ducklake::secret::Secret;
use ducklake::source::{Acceleration, AccelerationSource, Engine, Mode};

fn params(entries: &[(&str, &str)]) -> Params {
    let mut params = Params::new();
    for (name, value) in entries {
        params.insert(name.to_string(), value.to_string());
    }
    params
}

fn source(file_accelerated: bool, entries: &[(&str, &str)]) -> AccelerationSource {
    AccelerationSource {
        name: "orders".to_string(),
        file_accelerated,
        acceleration: Some(Acceleration {
            engine: Engine::DuckLake,
            mode: if file_accelerated { Mode::File } else { Mode::Memory },
            params: params(entries),
        }),
    }
}

#[test]
fn the_first_key_with_a_value_wins() {
    let found = params(&[("a", "  "), ("b", " two "), ("c", "three")]);
    assert_eq!(DuckLakeAccelerator::non_empty_param(&found, &["a", "b", "c"]), Some("two".to_string()));
    assert_eq!(DuckLakeAccelerator::non_empty_param(&found, &["c", "b"]), Some("three".to_string()));
    assert_eq!(DuckLakeAccelerator::non_empty_param(&found, &["a", "d"]), None);
    assert_eq!(DuckLakeAccelerator::non_empty_param(&found, &[]), None);
}

#[test]
fn open_path_comes_from_the_parameters() {
    let accelerator = DuckLakeAccelerator::new();
    let path = |entries: &[(&str, &str)]| accelerator.ducklake_open_path(&source(true, entries), "/data").unwrap();
    assert_eq!(path(&[("open", " /tmp/a.db ")]), "/tmp/a.db");
    assert_eq!(path(&[("ducklake_open", "/tmp/b.db")]), "/tmp/b.db");
    assert_eq!(path(&[("open", "/tmp/a.db"), ("ducklake_open", "/tmp/b.db")]), "/tmp/a.db");
    assert_eq!(path(&[("open", " "), ("ducklake_open", "/tmp/b.db")]), "/tmp/b.db");
}

#[test]
fn open_path_defaults_to_the_data_directory() {
    let accelerator = DuckLakeAccelerator::default();
    assert_eq!(
        accelerator.ducklake_open_path(&source(true, &[]), "/app/.spice/data").unwrap(),
        "/app/.spice/data/accelerated_ducklake.db"
    );
    assert_eq!(
        accelerator.file_path(&source(true, &[("open", "\t")]), "/d").unwrap(),
        "/d/accelerated_ducklake.db"
    );
}

#[test]
fn open_path_needs_file_acceleration() {
    let accelerator = DuckLakeAccelerator::new();
    let error = accelerator.ducklake_open_path(&source(false, &[("open", "/a")]), "/d").unwrap_err();
    assert!(matches!(&error, Error::InvalidConfiguration { detail } if detail == "Dataset is not file accelerated"));
    assert_eq!(
        error.message(),
        "Invalid DuckLake acceleration configuration: Dataset is not file accelerated"
    );
    let error = accelerator.file_path(&source(false, &[]), "/d").unwrap_err();
    let FilePathError::External { engine, source: cause } = error;
    assert_eq!(engine, Engine::DuckLake);
    assert!(matches!(cause, Error::InvalidConfiguration { .. }));
}

#[test]
fn connection_settings_are_found_with_and_without_prefix() {
    assert_eq!(
        DuckLakeAccelerator::ducklake_connection_string(&source(false, &[("connection_string", "s3://m")])),
        Some("s3://m".to_string())
    );
    assert_eq!(
        DuckLakeAccelerator::ducklake_connection_string(&source(false, &[("ducklake_connection_string", "s3://n")])),
        Some("s3://n".to_string())
    );
    assert_eq!(DuckLakeAccelerator::ducklake_connection_string(&source(false, &[])), None);
    assert_eq!(
        DuckLakeAccelerator::ducklake_endpoint(&source(false, &[("ducklake_endpoint", "host:443")])),
        Some("host:443".to_string())
    );
    assert_eq!(DuckLakeAccelerator::ducklake_endpoint(&source(false, &[("endpoint", "   ")])), None);
}

#[test]
fn the_catalog_is_called_ducklake_by_default() {
    assert_eq!(DuckLakeAccelerator::ducklake_catalog_name(&source(false, &[])), "ducklake");
    assert_eq!(DuckLakeAccelerator::ducklake_catalog_name(&source(false, &[("catalog_name", "lake")])), "lake");
    assert_eq!(
        DuckLakeAccelerator::ducklake_catalog_name(&source(false, &[("ducklake_catalog_name", " lake2 ")])),
        "lake2"
    );
}

#[test]
fn a_source_without_acceleration_has_no_settings() {
    let bare = AccelerationSource { name: "x".to_string(), file_accelerated: false, acceleration: None };
    assert_eq!(DuckLakeAccelerator::ducklake_connection_string(&bare), None);
    assert_eq!(DuckLakeAccelerator::ducklake_endpoint(&bare), None);
    assert_eq!(DuckLakeAccelerator::ducklake_catalog_name(&bare), "ducklake");
}

#[test]
fn an_endpoint_comes_with_credentials() {
    let config = DuckLakeAccelerator::endpoint_config_from_options(&params(&[
        ("endpoint", " host:443 "),
        ("user", "ada"),
        ("ducklake_password", " s3cret "),
    ]))
    .unwrap()
    .unwrap();
    assert_eq!(config.endpoint, "host:443");
    assert_eq!(config.username, "ada");
    assert_eq!(config.password.expose(), "s3cret");
}

#[test]
fn credentials_have_aliases_in_order() {
    let config = DuckLakeAccelerator::endpoint_config_from_options(&params(&[
        ("ducklake_endpoint", "h"),
        ("username", "first"),
        ("user", "second"),
        ("ducklake_username", "third"),
        ("pass", "p2"),
        ("ducklake_password", "p3"),
    ]))
    .unwrap()
    .unwrap();
    assert_eq!(config.username, "first");
    assert_eq!(config.password.expose(), "p2");
}

#[test]
fn without_an_endpoint_no_credentials_are_needed() {
    assert!(DuckLakeAccelerator::endpoint_config_from_options(&params(&[])).unwrap().is_none());
    assert!(DuckLakeAccelerator::endpoint_config_from_options(&params(&[("username", "ada")])).unwrap().is_none());
}

#[test]
fn an_endpoint_without_credentials_is_an_error() {
    let error = DuckLakeAccelerator::endpoint_config_from_options(&params(&[("endpoint", "h")])).unwrap_err();
    assert!(matches!(error, Error::MissingEndpointUsername));
    assert_eq!(error.message(), "Missing required DuckLake acceleration parameter: ducklake_username");
    let error =
        DuckLakeAccelerator::endpoint_config_from_options(&params(&[("endpoint", "h"), ("username", "u")])).unwrap_err();
    assert!(matches!(error, Error::MissingEndpointPassword));
    assert_eq!(error.message(), "Missing required DuckLake acceleration parameter: ducklake_password");
}

#[test]
fn a_secret_keeps_its_text_out_of_sight() {
    let secret = Secret::new("hunter2");
    assert_eq!(secret.expose(), "hunter2");
    assert!(!format!("{:?}", secret).contains("hunter2"));
}

#[test]
fn the_factory_is_set_up_for_duckdb() {
    for accelerator in [DuckLakeAccelerator::new(), DuckLakeAccelerator::default()] {
        let factory = accelerator.duckdb_factory;
        assert_eq!(factory.access_mode, AccessMode::ReadWrite);
        assert_eq!(factory.dialect, SqlDialect::DuckDb);
        assert_eq!(factory.function_support, FunctionSupport::DenySpiceSpecific);
        assert_eq!(
            factory.settings,
            vec![
                DuckDbSetting::OrderByNonIntegerLiteral,
                DuckDbSetting::IndexScanPercentage,
                DuckDbSetting::IndexScanMaxCount,
                DuckDbSetting::TimeZone,
            ]
        );
    }
}

#[test]
fn the_accelerator_introduces_itself() {
    let accelerator = DuckLakeAccelerator::new();
    assert_eq!(accelerator.name(), "ducklake");
    assert_eq!(accelerator.prefix(), "ducklake");
    assert_eq!(accelerator.valid_file_extensions(), vec!["db", "ddb", "duckdb"]);
}

#[test]
fn the_parameters_are_listed() {
    let parameters = DuckLakeAccelerator::new().parameters();
    let names: Vec<&str> = parameters.iter().map(|p| p.name).collect();
    assert_eq!(
        names,
        vec![
            "file_watcher",
            "open",
            "connection_string",
            "catalog_name",
            "endpoint",
            "username",
            "password",
            "connection_pool_size",
            "on_refresh_recompute_statistics",
            "optimizer_duckdb_aggregate_pushdown",
        ]
    );
    let runtime: Vec<&str> =
        parameters.iter().filter(|p| p.scope == ParameterScope::Runtime).map(|p| p.name).collect();
    assert_eq!(
        runtime,
        vec![
            "file_watcher",
            "connection_pool_size",
            "on_refresh_recompute_statistics",
            "optimizer_duckdb_aggregate_pushdown",
        ]
    );
    let secret: Vec<&str> = parameters.iter().filter(|p| p.secret).map(|p| p.name).collect();
    assert_eq!(secret, vec!["password"]);
    assert_eq!(parameters[0].description, None);
    assert_eq!(
        parameters[3].description,
        Some("The attached DuckLake catalog name in DuckDB. Defaults to 'ducklake'.")
    );
}

#[test]
fn other_keys_do_not_matter() {
    let few = params(&[("a", "1")]);
    let many = params(&[("z", "0"), ("a", "1"), ("b", "2")]);
    for keys in [["a", "x"], ["x", "a"], ["x", "y"]] {
        assert_eq!(
            DuckLakeAccelerator::non_empty_param(&few, &keys),
            DuckLakeAccelerator::non_empty_param(&many, &keys)
        );
    }
}

#[test]
fn every_declared_component_parameter_is_read_with_and_without_prefix() {
    let accelerator = DuckLakeAccelerator::new();
    let declared: Vec<&str> = accelerator
        .parameters()
        .iter()
        .filter(|p| p.scope == ParameterScope::Component)
        .map(|p| p.name)
        .collect();
    assert_eq!(declared, vec!["open", "connection_string", "catalog_name", "endpoint", "username", "password"]);
    for prefix in ["", "ducklake_"] {
        let all: Vec<(String, String)> =
            declared.iter().map(|name| (format!("{prefix}{name}"), format!("value of {name}"))).collect();
        let entries: Vec<(&str, &str)> = all.iter().map(|(n, v)| (n.as_str(), v.as_str())).collect();
        let found = source(true, &entries);
        assert_eq!(accelerator.ducklake_open_path(&found, "/d").unwrap(), "value of open");
        assert_eq!(
            DuckLakeAccelerator::ducklake_connection_string(&found),
            Some("value of connection_string".to_string())
        );
        assert_eq!(DuckLakeAccelerator::ducklake_catalog_name(&found), "value of catalog_name");
        assert_eq!(DuckLakeAccelerator::ducklake_endpoint(&found), Some("value of endpoint".to_string()));
        let config = DuckLakeAccelerator::endpoint_config_from_options(&params(&entries)).unwrap().unwrap();
        assert_eq!(config.username, "value of username");
        assert_eq!(config.password.expose(), "value of password");
    }
}
