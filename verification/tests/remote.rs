use ducklake::accelerator::{DuckLakeAccelerator, SqlDialect};
use ducklake::error::Error;
use ducklake::lookup::EndpointConfig;
use ducklake::remote::{RemoteSqlEvent, RemoteSqlStep, RemoteTableStep};
use ducklake::schema::{DataType, Field, TableReference};
use ducklake::secret::Secret;

#[test]
fn endpoints_get_a_protocol() {
    let normalize = DuckLakeAccelerator::normalize_flight_endpoint;
    assert_eq!(normalize("host:443"), "grpc+tls://host:443");
    assert_eq!(normalize(""), "grpc+tls://");
    assert_eq!(normalize("ftp://host"), "grpc+tls://ftp://host");
    assert_eq!(normalize("GRPC://host"), "grpc+tls://GRPC://host");
    for given in ["grpc+tls://host", "grpc://host", "https://host", "http://host"] {
        assert_eq!(normalize(given), given);
    }
    assert_eq!(normalize(normalize("host").as_str()), "grpc+tls://host");
}

#[test]
fn a_remote_table_is_planned() {
    let plan = DuckLakeAccelerator::create_remote_table_provider(
        TableReference::Bare { table: "orders".to_string() },
        vec![Field { name: "id".to_string(), data_type: DataType::Int32, nullable: false }],
        EndpointConfig {
            endpoint: "host:443".to_string(),
            username: "ada".to_string(),
            password: Secret::new("s3cret"),
        },
    );
    assert_eq!(plan.endpoint, "grpc+tls://host:443");
    assert_eq!(plan.username, "ada");
    assert_eq!(plan.password.expose(), "s3cret");
    assert_eq!(plan.create_table_sql, "CREATE TABLE IF NOT EXISTS \"orders\" (\"id\" INTEGER NOT NULL)");
    assert_eq!(plan.provider_name, "ducklake");
    assert!(matches!(&plan.table, TableReference::Bare { table } if table == "orders"));
    assert!(matches!(
        plan.fields.as_slice(),
        [Field { name, data_type: DataType::Int32, nullable: false }] if name == "id"
    ));
    assert!(matches!(plan.dialect, SqlDialect::DuckDb));
}

#[test]
fn a_client_that_does_not_connect_is_an_error() {
    assert!(matches!(DuckLakeAccelerator::flight_client_created(Ok("client")), Ok("client")));
    let error = DuckLakeAccelerator::flight_client_created::<u8>(Err("refused".to_string())).unwrap_err();
    assert!(matches!(&error, Error::UnableToCreateFlightClient { source } if source == "refused"));
    assert_eq!(error.message(), "Unable to create DuckLake endpoint Flight client: refused");
}

#[test]
fn results_are_read_to_their_end() {
    for event in [RemoteSqlEvent::QueryAccepted, RemoteSqlEvent::Batch] {
        assert!(matches!(DuckLakeAccelerator::execute_remote_sql(event), RemoteSqlStep::ReadNext));
    }
    assert!(matches!(
        DuckLakeAccelerator::execute_remote_sql(RemoteSqlEvent::StreamEnded),
        RemoteSqlStep::Finished(Ok(()))
    ));
}

#[test]
fn a_statement_that_is_refused_fails() {
    let step = DuckLakeAccelerator::execute_remote_sql(RemoteSqlEvent::QueryFailed { source: "no".to_string() });
    match step {
        RemoteSqlStep::Finished(Err(error)) => {
            assert!(matches!(&error, Error::UnableToExecuteRemoteSql { source } if source == "no"));
            assert_eq!(error.message(), "Unable to execute DuckLake endpoint SQL: no");
        }
        _ => panic!("the statement goes on"),
    }
}

#[test]
fn results_that_break_off_fail() {
    let step = DuckLakeAccelerator::execute_remote_sql(RemoteSqlEvent::BatchFailed { source: "cut".to_string() });
    match step {
        RemoteSqlStep::Finished(Err(error)) => {
            assert!(matches!(&error, Error::RemoteSqlStream { source } if source == "cut"));
            assert_eq!(error.message(), "DuckLake endpoint SQL stream failed: cut");
        }
        _ => panic!("the statement goes on"),
    }
}

fn run(events: Vec<RemoteSqlEvent>) -> Result<(), Error> {
    for event in events {
        if let RemoteSqlStep::Finished(result) = DuckLakeAccelerator::execute_remote_sql(event) {
            return result;
        }
    }
    panic!("the statement goes on")
}

#[test]
fn a_statement_ends_at_the_first_failure_or_at_the_end() {
    assert!(run(vec![
        RemoteSqlEvent::QueryAccepted,
        RemoteSqlEvent::Batch,
        RemoteSqlEvent::Batch,
        RemoteSqlEvent::StreamEnded,
    ])
    .is_ok());
    assert!(matches!(
        run(vec![
            RemoteSqlEvent::QueryAccepted,
            RemoteSqlEvent::Batch,
            RemoteSqlEvent::BatchFailed { source: "first".to_string() },
            RemoteSqlEvent::StreamEnded,
        ]),
        Err(Error::RemoteSqlStream { source }) if source == "first"
    ));
}

#[test]
fn a_created_table_is_provided() {
    assert!(matches!(DuckLakeAccelerator::remote_table_created(Ok(())), RemoteTableStep::BuildProvider));
}

#[test]
fn a_parse_failure_is_passed_over() {
    let step = DuckLakeAccelerator::remote_table_created(Err(Error::UnableToExecuteRemoteSql {
        source: "status: Unable to parse command (code 3)".to_string(),
    }));
    match step {
        RemoteTableStep::WarnAndBuildProvider { message } => assert_eq!(
            message,
            "Unable to execute DuckLake endpoint SQL: status: Unable to parse command (code 3)"
        ),
        _ => panic!("the failure is not passed over"),
    }
    let step = DuckLakeAccelerator::remote_table_created(Err(Error::RemoteSqlStream {
        source: "Unable to parse command".to_string(),
    }));
    assert!(matches!(step, RemoteTableStep::WarnAndBuildProvider { .. }));
}

#[test]
fn any_other_failure_stands() {
    for source in ["", "unable to parse command", "parse command", "Unable to parse comman"] {
        let step = DuckLakeAccelerator::remote_table_created(Err(Error::UnableToExecuteRemoteSql {
            source: source.to_string(),
        }));
        assert!(matches!(
            step,
            RemoteTableStep::Fail(Error::UnableToExecuteRemoteSql { source: kept }) if kept == source
        ));
    }
}

#[test]
fn the_remaining_errors_have_messages() {
    assert_eq!(
        Error::UnableToCreateRemoteTableProvider { source: "x".to_string() }.message(),
        "Unable to create DuckLake endpoint table provider: x"
    );
    assert_eq!(
        Error::AccelerationInitializationFailed { source: "x".to_string() }.message(),
        "Acceleration initialization failed: x"
    );
}
