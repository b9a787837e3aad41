//! Verified core of a desktop application's self-update pipeline.
//!
//! The pipeline runs in five strict stages: resolve the release channel for
//! the running build, fetch and normalize release metadata, download the
//! platform-appropriate asset, extract it over the current installation, and
//! relaunch the application. Everything that decides or computes is here,
//! stated in contracts; the surrounding process performs the network,
//! filesystem and process work that those decisions call for.

pub mod download;
pub mod error;
pub mod extract;
pub mod paths;
pub mod pipeline;
pub mod platform;
pub mod release;
pub mod relaunch;
pub mod resolver;
pub mod strutil;
