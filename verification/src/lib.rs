//! A queryable inventory of ETL pipeline subtasks, inferred from a directory
//! tree that follows a fixed naming convention: an optional stage folder, an
//! optional database-system folder, and an optional entity folder between the
//! root and each script file.

pub mod classify;
pub mod errors;
pub mod inventory;
pub mod laws;
pub mod paths;
pub mod strutil;
pub mod subtask;
pub mod taxonomy;

pub use classify::classify;
pub use errors::EtlError;
pub use inventory::SubtaskManager;
pub use subtask::Subtask;
pub use taxonomy::EtlStage;
pub use taxonomy::SystemType;
pub use taxonomy::TaskType;
