//! Launcher layer of the Prism Git client: path resolution, the activation
//! protocol spoken over the host's local socket, the launcher's decision
//! machine, the host's IPC server startup and per-connection handling, the
//! repository list, and the records built from the version control backend's
//! answers.

mod platform;
pub mod text;
pub mod protocol;
pub mod paths;
pub mod launch;
pub mod server;
pub mod config;
pub mod models;
