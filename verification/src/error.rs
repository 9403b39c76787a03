//! What can go wrong when a DuckLake acceleration is set up, and the text that says so.

use crate::source::Engine;
use crate::text::joined;
use vstd::prelude::*;

verus! {

/// A failure of the accelerator. A failure that something outside caused carries the text of the
/// cause in `source`.
#[derive(Debug)]
pub enum Error {
    AccelerationCreationFailed { source: String },
    AccelerationInitializationFailed { source: String },
    AccelerationNotEnabled { dataset: String },
    InvalidConfiguration { detail: String },
    MissingConnectionConfiguration,
    MissingEndpointUsername,
    MissingEndpointPassword,
    UnableToCreateFlightClient { source: String },
    UnableToExecuteRemoteSql { source: String },
    RemoteSqlStream { source: String },
    UnableToCreateRemoteTableProvider { source: String },
}

/// An [`Error`] with its texts as character sequences.
pub enum ErrorView {
    AccelerationCreationFailed { source: Seq<char> },
    AccelerationInitializationFailed { source: Seq<char> },
    AccelerationNotEnabled { dataset: Seq<char> },
    InvalidConfiguration { detail: Seq<char> },
    MissingConnectionConfiguration,
    MissingEndpointUsername,
    MissingEndpointPassword,
    UnableToCreateFlightClient { source: Seq<char> },
    UnableToExecuteRemoteSql { source: Seq<char> },
    RemoteSqlStream { source: Seq<char> },
    UnableToCreateRemoteTableProvider { source: Seq<char> },
}

impl View for Error {
    type V = ErrorView;

    open spec fn view(&self) -> ErrorView {
        match self {
            Error::AccelerationCreationFailed { source } => ErrorView::AccelerationCreationFailed {
                source: source@,
            },
            Error::AccelerationInitializationFailed { source } => {
                ErrorView::AccelerationInitializationFailed { source: source@ }
            },
            Error::AccelerationNotEnabled { dataset } => ErrorView::AccelerationNotEnabled {
                dataset: dataset@,
            },
            Error::InvalidConfiguration { detail } => ErrorView::InvalidConfiguration {
                detail: detail@,
            },
            Error::MissingConnectionConfiguration => ErrorView::MissingConnectionConfiguration,
            Error::MissingEndpointUsername => ErrorView::MissingEndpointUsername,
            Error::MissingEndpointPassword => ErrorView::MissingEndpointPassword,
            Error::UnableToCreateFlightClient { source } => ErrorView::UnableToCreateFlightClient {
                source: source@,
            },
            Error::UnableToExecuteRemoteSql { source } => ErrorView::UnableToExecuteRemoteSql {
                source: source@,
            },
            Error::RemoteSqlStream { source } => ErrorView::RemoteSqlStream { source: source@ },
            Error::UnableToCreateRemoteTableProvider { source } => {
                ErrorView::UnableToCreateRemoteTableProvider { source: source@ }
            },
        }
    }
}

/// The message of an error: a fixed text, then the detail that the error carries.
pub open spec fn error_message(error: ErrorView) -> Seq<char> {
    match error {
        ErrorView::AccelerationCreationFailed { source } => "Acceleration creation failed: "@ + source,
        ErrorView::AccelerationInitializationFailed { source } => {
            "Acceleration initialization failed: "@ + source
        },
        ErrorView::AccelerationNotEnabled { dataset } => {
            "Acceleration not enabled for dataset: "@ + dataset
        },
        ErrorView::InvalidConfiguration { detail } => {
            "Invalid DuckLake acceleration configuration: "@ + detail
        },
        ErrorView::MissingConnectionConfiguration => {
            "Missing required DuckLake acceleration parameters. Specify either ducklake_connection_string, or ducklake_endpoint + ducklake_username + ducklake_password"@
        },
        ErrorView::MissingEndpointUsername => {
            "Missing required DuckLake acceleration parameter: ducklake_username"@
        },
        ErrorView::MissingEndpointPassword => {
            "Missing required DuckLake acceleration parameter: ducklake_password"@
        },
        ErrorView::UnableToCreateFlightClient { source } => {
            "Unable to create DuckLake endpoint Flight client: "@ + source
        },
        ErrorView::UnableToExecuteRemoteSql { source } => {
            "Unable to execute DuckLake endpoint SQL: "@ + source
        },
        ErrorView::RemoteSqlStream { source } => "DuckLake endpoint SQL stream failed: "@ + source,
        ErrorView::UnableToCreateRemoteTableProvider { source } => {
            "Unable to create DuckLake endpoint table provider: "@ + source
        },
    }
}

impl Error {
    /// The message of the error.
    pub fn message(&self) -> (text: String)
        ensures
            text@ == error_message(self@),
    {
        match self {
            Error::AccelerationCreationFailed { source } => joined(
                "Acceleration creation failed: ",
                source.as_str(),
            ),
            Error::AccelerationInitializationFailed { source } => joined(
                "Acceleration initialization failed: ",
                source.as_str(),
            ),
            Error::AccelerationNotEnabled { dataset } => joined(
                "Acceleration not enabled for dataset: ",
                dataset.as_str(),
            ),
            Error::InvalidConfiguration { detail } => joined(
                "Invalid DuckLake acceleration configuration: ",
                detail.as_str(),
            ),
            Error::MissingConnectionConfiguration => {
                "Missing required DuckLake acceleration parameters. Specify either ducklake_connection_string, or ducklake_endpoint + ducklake_username + ducklake_password".to_string()
            },
            Error::MissingEndpointUsername => {
                "Missing required DuckLake acceleration parameter: ducklake_username".to_string()
            },
            Error::MissingEndpointPassword => {
                "Missing required DuckLake acceleration parameter: ducklake_password".to_string()
            },
            Error::UnableToCreateFlightClient { source } => joined(
                "Unable to create DuckLake endpoint Flight client: ",
                source.as_str(),
            ),
            Error::UnableToExecuteRemoteSql { source } => joined(
                "Unable to execute DuckLake endpoint SQL: ",
                source.as_str(),
            ),
            Error::RemoteSqlStream { source } => joined(
                "DuckLake endpoint SQL stream failed: ",
                source.as_str(),
            ),
            Error::UnableToCreateRemoteTableProvider { source } => joined(
                "Unable to create DuckLake endpoint table provider: ",
                source.as_str(),
            ),
        }
    }
}

/// A failure to name the file of an accelerated dataset.
#[derive(Debug)]
pub enum FilePathError {
    /// The accelerator of `engine` has no file for the dataset, for the reason in `source`.
    External { engine: Engine, source: Error },
}

/// What the value in an option stands for.
pub open spec fn viewed<T: View>(value: Option<T>) -> Option<T::V> {
    match value {
        Some(inner) => Some(inner@),
        None => None,
    }
}

/// What the values in a result stand for.
pub open spec fn outcome<T: View, E: View>(res: Result<T, E>) -> Result<T::V, E::V> {
    match res {
        Ok(value) => Ok(value@),
        Err(error) => Err(error@),
    }
}

} // verus!
