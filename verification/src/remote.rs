//! Tables at a hosted endpoint: which endpoint to connect to, what to run there, and what to make of
//! the answers.

use crate::accelerator::{DuckLakeAccelerator, SqlDialect};
use crate::error::{error_message, Error, ErrorView};
use crate::lookup::{EndpointConfig, EndpointConfigView};
use crate::schema::{field_views, Field, FieldView, TableReference, TableReferenceView};
use crate::secret::{secret_text, Secret};
use crate::sql::create_table_statement;
use crate::text::{contains, contains_text, joined, starts_with};
use vstd::prelude::*;

verus! {

/// An endpoint that says which protocol to speak.
pub open spec fn has_scheme(endpoint: Seq<char>) -> bool {
    ||| "grpc+tls://"@.is_prefix_of(endpoint)
    ||| "grpc://"@.is_prefix_of(endpoint)
    ||| "https://"@.is_prefix_of(endpoint)
    ||| "http://"@.is_prefix_of(endpoint)
}

/// An endpoint with its protocol: the given one, or else gRPC over TLS.
pub open spec fn flight_endpoint(endpoint: Seq<char>) -> Seq<char> {
    if has_scheme(endpoint) {
        endpoint
    } else {
        "grpc+tls://"@ + endpoint
    }
}

/// A table to be provided from a hosted endpoint.
#[derive(Debug)]
pub struct RemoteTablePlan {
    /// The endpoint to connect to.
    pub endpoint: String,
    pub username: String,
    pub password: Secret,
    /// The statement to run once connected.
    pub create_table_sql: String,
    /// The name under which the reading side of the table is known.
    pub provider_name: String,
    /// The table at the endpoint that is read and written.
    pub table: TableReference,
    /// The columns of the table. They are known beforehand: the endpoint is not asked for them.
    pub fields: Vec<Field>,
    /// The dialect in which the table is read.
    pub dialect: SqlDialect,
}

/// A [`RemoteTablePlan`] with its texts as character sequences.
pub struct RemoteTablePlanView {
    pub endpoint: Seq<char>,
    pub username: Seq<char>,
    pub password: Seq<char>,
    pub create_table_sql: Seq<char>,
    pub provider_name: Seq<char>,
    pub table: TableReferenceView,
    pub fields: Seq<FieldView>,
    pub dialect: SqlDialect,
}

impl View for RemoteTablePlan {
    type V = RemoteTablePlanView;

    open spec fn view(&self) -> RemoteTablePlanView {
        RemoteTablePlanView {
            endpoint: self.endpoint@,
            username: self.username@,
            password: secret_text(self.password),
            create_table_sql: self.create_table_sql@,
            provider_name: self.provider_name@,
            table: self.table@,
            fields: field_views(self.fields@),
            dialect: self.dialect,
        }
    }
}

/// How a table at a hosted endpoint is set up.
pub open spec fn remote_table(
    reference: TableReferenceView,
    fields: Seq<FieldView>,
    config: EndpointConfigView,
) -> RemoteTablePlanView {
    RemoteTablePlanView {
        endpoint: flight_endpoint(config.endpoint),
        username: config.username,
        password: config.password,
        create_table_sql: create_table_statement(reference, fields),
        provider_name: "ducklake"@,
        table: reference,
        fields,
        dialect: SqlDialect::DuckDb,
    }
}

/// What the endpoint answers while a statement runs.
#[derive(Debug)]
pub enum RemoteSqlEvent {
    /// The statement was taken; its results can be read.
    QueryAccepted,
    /// The statement was not taken.
    QueryFailed { source: String },
    /// One batch of results came.
    Batch,
    /// The results broke off.
    BatchFailed { source: String },
    /// There are no more results.
    StreamEnded,
}

/// What to do after an answer of the endpoint.
#[derive(Debug)]
pub enum RemoteSqlStep {
    /// Read the next batch of results.
    ReadNext,
    /// The statement is over, with this result.
    Finished(Result<(), Error>),
}

/// The step that an answer of the endpoint calls for.
pub open spec fn remote_sql_step(event: RemoteSqlEvent) -> RemoteSqlStep {
    match event {
        RemoteSqlEvent::QueryAccepted | RemoteSqlEvent::Batch => RemoteSqlStep::ReadNext,
        RemoteSqlEvent::StreamEnded => RemoteSqlStep::Finished(Ok(())),
        RemoteSqlEvent::QueryFailed { source } => RemoteSqlStep::Finished(
            Err(Error::UnableToExecuteRemoteSql { source }),
        ),
        RemoteSqlEvent::BatchFailed { source } => RemoteSqlStep::Finished(
            Err(Error::RemoteSqlStream { source }),
        ),
    }
}

/// Where a statement stands after a row of answers: the answers are taken one by one until the
/// statement is over.
pub open spec fn remote_sql_run(events: Seq<RemoteSqlEvent>) -> RemoteSqlStep
    decreases events.len(),
{
    if events.len() == 0 {
        RemoteSqlStep::ReadNext
    } else {
        match remote_sql_step(events[0]) {
            RemoteSqlStep::ReadNext => remote_sql_run(events.drop_first()),
            RemoteSqlStep::Finished(result) => RemoteSqlStep::Finished(result),
        }
    }
}

/// What to do after the attempt to create a table at the endpoint.
#[derive(Debug)]
pub enum RemoteTableStep {
    /// Provide the table.
    BuildProvider,
    /// Log the message, and provide the table all the same.
    WarnAndBuildProvider { message: String },
    /// Give up with this error.
    Fail(Error),
}

/// The endpoint could not make sense of a statement. Some endpoints say so of a statement that they
/// did run, where it has no results.
pub open spec fn is_parse_failure(error: ErrorView) -> bool {
    contains_text(error_message(error), "Unable to parse command"@)
}

impl DuckLakeAccelerator {
    /// `endpoint` with its protocol in front.
    pub fn normalize_flight_endpoint(endpoint: &str) -> (res: String)
        ensures
            res@ == flight_endpoint(endpoint@),
    {
        if starts_with(endpoint, "grpc+tls://") || starts_with(endpoint, "grpc://") || starts_with(
            endpoint,
            "https://",
        ) || starts_with(endpoint, "http://") {
            endpoint.to_string()
        } else {
            joined("grpc+tls://", endpoint)
        }
    }

    /// How to provide the table `name` with the columns `fields` from a hosted endpoint. The table
    /// that is created there is the one that is read and written afterwards, with the same columns.
    pub fn create_remote_table_provider(
        name: TableReference,
        fields: Vec<Field>,
        endpoint_config: EndpointConfig,
    ) -> (res: RemoteTablePlan)
        ensures
            res@ == remote_table(name@, field_views(fields@), endpoint_config@),
    {
        let endpoint = Self::normalize_flight_endpoint(endpoint_config.endpoint.as_str());
        let create_table_sql = Self::build_create_table_sql(&name, &fields);
        RemoteTablePlan {
            endpoint,
            username: endpoint_config.username,
            password: endpoint_config.password,
            create_table_sql,
            provider_name: "ducklake".to_string(),
            table: name,
            fields,
            dialect: SqlDialect::DuckDb,
        }
    }

    /// What became of the connection to the endpoint; `connected` holds the client, or the text of
    /// the failure.
    pub fn flight_client_created<C>(connected: Result<C, String>) -> (res: Result<C, Error>)
        ensures
            res == (match connected {
                Ok(client) => Ok(client),
                Err(source) => Err(Error::UnableToCreateFlightClient { source }),
            }),
    {
        match connected {
            Ok(client) => Ok(client),
            Err(source) => Err(Error::UnableToCreateFlightClient { source }),
        }
    }

    /// What to do after `event`, while a statement runs at the endpoint. The results are read to
    /// their end or to the first failure.
    pub fn execute_remote_sql(event: RemoteSqlEvent) -> (step: RemoteSqlStep)
        ensures
            step == remote_sql_step(event),
    {
        match event {
            RemoteSqlEvent::QueryAccepted => RemoteSqlStep::ReadNext,
            RemoteSqlEvent::Batch => RemoteSqlStep::ReadNext,
            RemoteSqlEvent::StreamEnded => RemoteSqlStep::Finished(Ok(())),
            RemoteSqlEvent::QueryFailed { source } => RemoteSqlStep::Finished(
                Err(Error::UnableToExecuteRemoteSql { source }),
            ),
            RemoteSqlEvent::BatchFailed { source } => RemoteSqlStep::Finished(
                Err(Error::RemoteSqlStream { source }),
            ),
        }
    }

    /// What to do after the statement that creates the table came out as `created`. An endpoint that
    /// says that it cannot parse the statement may have run it: that failure is no obstacle.
    pub fn remote_table_created(created: Result<(), Error>) -> (step: RemoteTableStep)
        ensures
            match created {
                Ok(_) => step == RemoteTableStep::BuildProvider,
                Err(error) => if is_parse_failure(error@) {
                    step matches RemoteTableStep::WarnAndBuildProvider { message } && message@
                        == error_message(error@)
                } else {
                    step == RemoteTableStep::Fail(error)
                },
            },
    {
        match created {
            Ok(_) => RemoteTableStep::BuildProvider,
            Err(error) => {
                let message = error.message();
                if contains(message.as_str(), "Unable to parse command") {
                    RemoteTableStep::WarnAndBuildProvider { message }
                } else {
                    RemoteTableStep::Fail(error)
                }
            },
        }
    }
}

} // verus!
