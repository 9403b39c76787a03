//! The accelerator itself: how its DuckDB factory is set up, and what it tells of itself.

use crate::parameters::{parameter_list, parameter_views, ParameterSpec};
use vstd::prelude::*;

verus! {

/// How DuckDB opens a database.
#[derive(Debug, Clone, Copy, PartialEq, Eq, Structural)]
pub enum AccessMode {
    Automatic,
    ReadOnly,
    ReadWrite,
}

/// A DuckDB setting that the accelerator registers with its factory.
#[derive(Debug, Clone, Copy, PartialEq, Eq, Structural)]
pub enum DuckDbSetting {
    OrderByNonIntegerLiteral,
    IndexScanPercentage,
    IndexScanMaxCount,
    TimeZone,
}

/// The SQL dialect in which a factory writes its queries.
#[derive(Debug, Clone, Copy, PartialEq, Eq, Structural)]
pub enum SqlDialect {
    Default,
    DuckDb,
}

/// The functions that a factory hands down to DuckDB.
#[derive(Debug, Clone, Copy, PartialEq, Eq, Structural)]
pub enum FunctionSupport {
    All,
    DenySpiceSpecific,
}

/// How the factory of DuckDB table providers is set up.
#[derive(Debug)]
pub struct FactoryConfig {
    pub access_mode: AccessMode,
    pub dialect: SqlDialect,
    /// The registered settings, in the order of their registration.
    pub settings: Vec<DuckDbSetting>,
    pub function_support: FunctionSupport,
}

/// An accelerator that keeps datasets in a DuckLake.
#[derive(Debug)]
pub struct DuckLakeAccelerator {
    pub duckdb_factory: FactoryConfig,
}

/// The set-up of the factory that every accelerator has.
pub open spec fn is_ducklake_factory(config: FactoryConfig) -> bool {
    &&& config.access_mode == AccessMode::ReadWrite
    &&& config.dialect == SqlDialect::DuckDb
    &&& config.settings@ =~= seq![
        DuckDbSetting::OrderByNonIntegerLiteral,
        DuckDbSetting::IndexScanPercentage,
        DuckDbSetting::IndexScanMaxCount,
        DuckDbSetting::TimeZone,
    ]
    &&& config.function_support == FunctionSupport::DenySpiceSpecific
}

impl DuckLakeAccelerator {
    /// An accelerator whose factory opens databases for reading and writing.
    #[must_use]
    pub fn new() -> (accelerator: DuckLakeAccelerator)
        ensures
            is_ducklake_factory(accelerator.duckdb_factory),
    {
        let mut settings: Vec<DuckDbSetting> = Vec::new();
        settings.push(DuckDbSetting::OrderByNonIntegerLiteral);
        settings.push(DuckDbSetting::IndexScanPercentage);
        settings.push(DuckDbSetting::IndexScanMaxCount);
        settings.push(DuckDbSetting::TimeZone);
        DuckLakeAccelerator {
            duckdb_factory: FactoryConfig {
                access_mode: AccessMode::ReadWrite,
                dialect: SqlDialect::DuckDb,
                settings,
                function_support: FunctionSupport::DenySpiceSpecific,
            },
        }
    }

    /// The name of the accelerator.
    pub fn name(&self) -> (res: &'static str)
        ensures
            res@ == "ducklake"@,
    {
        "ducklake"
    }

    /// The prefix that the parameters of the accelerator may have.
    pub fn prefix(&self) -> (res: &'static str)
        ensures
            res@ == "ducklake"@,
    {
        "ducklake"
    }

    /// The extensions that a database file may have.
    pub fn valid_file_extensions(&self) -> (res: Vec<&'static str>)
        ensures
            res@.map_values(|extension: &str| extension@) == seq!["db"@, "ddb"@, "duckdb"@],
    {
        let mut res: Vec<&'static str> = Vec::new();
        res.push("db");
        res.push("ddb");
        res.push("duckdb");
        assert(res@.map_values(|extension: &str| extension@) =~= seq!["db"@, "ddb"@, "duckdb"@]);
        res
    }

    /// The parameters that the accelerator takes.
    pub fn parameters(&self) -> (res: Vec<ParameterSpec>)
        ensures
            parameter_views(res@) == parameter_list(),
    {
        ParameterSpec::all()
    }
}

impl Default for DuckLakeAccelerator {
    fn default() -> (accelerator: DuckLakeAccelerator)
        ensures
            is_ducklake_factory(accelerator.duckdb_factory),
    {
        DuckLakeAccelerator::new()
    }
}

} // verus!
