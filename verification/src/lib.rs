//! Coordination core of a background profiling daemon.
//!
//! The daemon mediates between remote callers and two collaborators: a
//! scheduler that drives profile collection, and a configuration value that
//! describes the collection policy. This crate holds the coordination
//! discipline itself: the canonical configuration text form, the startup
//! reconciliation that purges stale on-disk artifacts after a configuration
//! change, and the exclusive-access delegation wrappers that serialize every
//! operation on the shared {configuration, scheduler} record.

pub mod config;
pub mod digits;
pub mod disk;
pub mod error;
pub mod report;
pub mod scheduler;
pub mod service;

pub use config::Config;
pub use disk::DiskState;
pub use error::{BinderStatus, SvcError};
pub use scheduler::Scheduler;
pub use service::ProfcollectdBinderService;
