//! Core of a manager for local stand-in services: a cache of service
//! subtrees mirrored from a remote catalog, a catalog of installed service
//! manifests, and the bookkeeping of the processes started from them.
//!
//! Every function here works on values that the caller hands in. Whatever
//! touches the disk, the network or the process table is done by the caller,
//! which tells what it observed and carries out the plans that come back.

pub mod commands;
pub mod config;
pub mod contract;
pub mod error;
pub mod git;
pub mod mise;
pub mod paths;
pub mod process;
pub mod request_id;
pub mod seed;
pub mod service;
pub mod snapshot;
pub mod start;
pub mod text;

pub use config::{Config, ProjectConfig};
pub use error::Error;
pub use git::ServiceFetcher;
pub use process::{ProcessManager, ServiceInfo};
pub use service::{ContractsConfig, ServerConfig, ServiceDefinition, ServiceRegistry};
