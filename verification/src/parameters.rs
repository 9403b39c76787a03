//! The parameters that the accelerator takes.

use crate::error::viewed;
use vstd::prelude::*;

verus! {

/// Whom a parameter is for.
#[derive(Debug, Clone, Copy, PartialEq, Eq, Structural)]
pub enum ParameterScope {
    /// The accelerator. The parameter may be written with the prefix of the accelerator.
    Component,
    /// The runtime. The parameter has no prefix.
    Runtime,
}

/// What is known of a parameter.
#[derive(Debug, Clone, Copy)]
pub struct ParameterSpec {
    pub name: &'static str,
    pub scope: ParameterScope,
    pub description: Option<&'static str>,
    /// The value is not to be shown.
    pub secret: bool,
}

/// A [`ParameterSpec`] with its texts as character sequences.
pub struct ParameterView {
    pub name: Seq<char>,
    pub scope: ParameterScope,
    pub description: Option<Seq<char>>,
    pub secret: bool,
}

impl View for ParameterSpec {
    type V = ParameterView;

    open spec fn view(&self) -> ParameterView {
        ParameterView {
            name: self.name@,
            scope: self.scope,
            description: viewed(self.description),
            secret: self.secret,
        }
    }
}

/// What a list of parameters stands for.
pub open spec fn parameter_views(parameters: Seq<ParameterSpec>) -> Seq<ParameterView> {
    parameters.map_values(|parameter: ParameterSpec| parameter@)
}

/// A parameter of the runtime that needs no description.
pub open spec fn runtime_parameter(name: Seq<char>) -> ParameterView {
    ParameterView { name, scope: ParameterScope::Runtime, description: None, secret: false }
}

/// A parameter of the accelerator that may be shown.
pub open spec fn component_parameter(name: Seq<char>, description: Seq<char>) -> ParameterView {
    ParameterView {
        name,
        scope: ParameterScope::Component,
        description: Some(description),
        secret: false,
    }
}

/// The parameters of the accelerator, in the order in which they are listed.
pub open spec fn parameter_list() -> Seq<ParameterView> {
    seq![
        runtime_parameter("file_watcher"@),
        component_parameter(
            "open"@,
            "Optional path to an existing DuckDB file used to host local DuckLake metadata/checkpoint state."@,
        ),
        component_parameter(
            "connection_string"@,
            "DuckLake metadata connection string (for example, s3://bucket/path/metadata.ducklake)."@,
        ),
        component_parameter(
            "catalog_name"@,
            "The attached DuckLake catalog name in DuckDB. Defaults to 'ducklake'."@,
        ),
        component_parameter(
            "endpoint"@,
            "Optional hosted DuckLake Flight endpoint (for example, appexperiment-shared-ducklake-1-v2.summation.com:443 or grpc+tls://...)."@,
        ),
        component_parameter(
            "username"@,
            "Username for hosted DuckLake endpoint authentication."@,
        ),
        ParameterView {
            secret: true,
            ..component_parameter(
                "password"@,
                "Password for hosted DuckLake endpoint authentication."@,
            )
        },
        ParameterView {
            description: Some(
                "The maximum number of client connections created in the ducklake connection pool."@,
            ),
            ..runtime_parameter("connection_pool_size"@)
        },
        runtime_parameter("on_refresh_recompute_statistics"@),
        runtime_parameter("optimizer_duckdb_aggregate_pushdown"@),
    ]
}

impl ParameterSpec {
    /// A parameter of the runtime.
    pub fn runtime(name: &'static str) -> (res: ParameterSpec)
        ensures
            res@ == runtime_parameter(name@),
    {
        ParameterSpec { name, scope: ParameterScope::Runtime, description: None, secret: false }
    }

    /// A parameter of the accelerator.
    pub fn component(name: &'static str) -> (res: ParameterSpec)
        ensures
            res@ == (ParameterView {
                name: name@,
                scope: ParameterScope::Component,
                description: None,
                secret: false,
            }),
    {
        ParameterSpec { name, scope: ParameterScope::Component, description: None, secret: false }
    }

    /// The parameter with a description.
    pub fn description(self, description: &'static str) -> (res: ParameterSpec)
        ensures
            res@ == (ParameterView { description: Some(description@), ..self@ }),
    {
        ParameterSpec { description: Some(description), ..self }
    }

    /// The parameter, not to be shown.
    pub fn secret(self) -> (res: ParameterSpec)
        ensures
            res@ == (ParameterView { secret: true, ..self@ }),
    {
        ParameterSpec { secret: true, ..self }
    }

    /// The parameters of the accelerator.
    pub fn all() -> (res: Vec<ParameterSpec>)
        ensures
            parameter_views(res@) == parameter_list(),
    {
        let mut res: Vec<ParameterSpec> = Vec::new();
        res.push(Self::runtime("file_watcher"));
        res.push(
            Self::component("open").description(
                "Optional path to an existing DuckDB file used to host local DuckLake metadata/checkpoint state.",
            ),
        );
        res.push(
            Self::component("connection_string").description(
                "DuckLake metadata connection string (for example, s3://bucket/path/metadata.ducklake).",
            ),
        );
        res.push(
            Self::component("catalog_name").description(
                "The attached DuckLake catalog name in DuckDB. Defaults to 'ducklake'.",
            ),
        );
        res.push(
            Self::component("endpoint").description(
                "Optional hosted DuckLake Flight endpoint (for example, appexperiment-shared-ducklake-1-v2.summation.com:443 or grpc+tls://...).",
            ),
        );
        res.push(
            Self::component("username").description(
                "Username for hosted DuckLake endpoint authentication.",
            ),
        );
        res.push(
            Self::component("password").secret().description(
                "Password for hosted DuckLake endpoint authentication.",
            ),
        );
        res.push(
            Self::runtime("connection_pool_size").description(
                "The maximum number of client connections created in the ducklake connection pool.",
            ),
        );
        res.push(Self::runtime("on_refresh_recompute_statistics"));
        res.push(Self::runtime("optimizer_duckdb_aggregate_pushdown"));
        assert(parameter_views(res@) =~= parameter_list());
        res
    }
}

} // verus!
