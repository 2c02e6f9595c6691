//! Decision logic of a live-reloading documentation server: which package and
//! target to document, when to rebuild, and where requests are sent.

pub mod cargo;
pub mod coordinator;
pub mod orchestrator;
pub mod path;
pub mod project;
pub mod runner;
pub mod server;
pub mod text;
pub mod trace;
pub mod watcher;
