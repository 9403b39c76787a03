//! The decisions of an accelerator that keeps datasets in a DuckLake.
//!
//! A dataset is accelerated into a local DuckDB, with a DuckLake attached to it, or at a hosted
//! endpoint that speaks Arrow Flight SQL. This crate decides what is to be opened, created and run;
//! it opens, creates and runs nothing itself.
//!
//! - [`accelerator`]: the accelerator, and what it tells of itself.
//! - [`lookup`]: what the parameters of a dataset and the options of a table say.
//! - [`pool`]: the DuckDB connection pool that datasets share.
//! - [`external_table`]: setting up a dataset, and creating the table that serves it.
//! - [`remote`]: tables at a hosted endpoint.
//! - [`sql`]: the statement that creates such a table.
//! - [`text_laws`], [`lookup_laws`], [`sql_laws`], [`pool_laws`], [`table_laws`], [`remote_laws`],
//!   [`value_laws`]: what each operation does, said of what goes in and what comes out.
//! - [`quoting`], [`column_laws`], [`laws`]: what holds of all of this together.

pub mod accelerator;
pub mod column_laws;
pub mod error;
pub mod external_table;
pub mod laws;
pub mod lookup;
pub mod lookup_laws;
pub mod parameters;
pub mod params;
pub mod pool;
pub mod pool_laws;
pub mod quoting;
pub mod remote;
pub mod remote_laws;
pub mod schema;
pub mod secret;
pub mod source;
pub mod sql;
pub mod sql_laws;
pub mod table_laws;
pub mod text;
pub mod text_laws;
pub mod value_laws;
