//! Moving aged demo files from one storage backend to another while the
//! remote catalog keeps pointing at a backend that holds the file.
//!
//! The crate holds the decisions of that job and proves them: where a demo
//! lives under a storage root, how its content digest is accumulated, which
//! action follows which outcome while one demo is transferred, and when a
//! batch stops. Reading files, talking to the catalog and waiting are left to
//! the program that drives these types.

pub mod batch;
pub mod catalog;
pub mod config;
pub mod digest;
pub mod error;
pub mod path;
pub mod store;
pub mod transfer;

pub use crate::batch::Batch;
pub use crate::catalog::Demo;
pub use crate::config::{ApiConfig, Config, ConfigError, MigrateConfig, StorageConfig, StorageRoot};
pub use crate::digest::Digester;
pub use crate::error::Error;
pub use crate::path::generate_path;
pub use crate::store::Store;
pub use crate::transfer::{Action, Event, Notice, Stage, Transfer};
