//! What the accelerator reads of a dataset and of the runtime around it.

use crate::params::Params;
use vstd::prelude::*;

verus! {

/// The engine that an acceleration names.
#[derive(Debug, Clone, Copy, PartialEq, Eq, Structural)]
pub enum Engine {
    /// This accelerator.
    DuckLake,
    /// Any other accelerator.
    Other,
}

/// Where an accelerated dataset is kept.
#[derive(Debug, Clone, Copy, PartialEq, Eq, Structural)]
pub enum Mode {
    /// In memory.
    Memory,
    /// In a file, which is kept between runs.
    File,
    /// In a file, which is made anew at each start.
    FileCreate,
}

impl Mode {
    /// The dataset is kept in a file.
    pub open spec fn is_file_mode(self) -> bool {
        self is File || self is FileCreate
    }
}

/// The acceleration settings of a dataset.
pub struct Acceleration {
    pub engine: Engine,
    pub mode: Mode,
    pub params: Params,
}

/// A dataset, or anything else that can be accelerated.
pub struct AccelerationSource {
    /// The name of the dataset.
    pub name: String,
    /// Whether the runtime accelerates the dataset into a file.
    pub file_accelerated: bool,
    /// The acceleration settings, where the dataset has any.
    pub acceleration: Option<Acceleration>,
}

impl AccelerationSource {
    /// A file-accelerated dataset has acceleration settings.
    pub open spec fn wf(self) -> bool {
        self.file_accelerated ==> self.acceleration is Some
    }
}

/// What the accelerator needs to know of the runtime that it serves.
pub struct RuntimeContext {
    /// The directory for data files.
    pub data_base_path: String,
    /// The datasets of the app that are valid.
    pub datasets: Vec<AccelerationSource>,
    /// The number of idle connections that a DuckDB pool keeps open.
    pub min_idle_connections: u32,
    /// The directory for temporary files of queries, where the app sets one.
    pub temp_directory: Option<String>,
}

} // verus!
