//! A per-project issue notebook behind an MCP session: the notes and where
//! they are kept, the worker that looks after them, and the host that keeps
//! the session through the loss of a worker and through its own replacement.

pub mod anchor;
pub mod binary;
pub mod catalog;
pub mod client;
pub mod discovery;
pub mod fault;
pub mod frame;
pub mod host;
pub mod issue;
pub mod json;
pub mod kernel;
pub mod migration;
pub mod notebook;
pub mod order;
pub mod output;
pub mod path;
pub mod protocol;
pub mod reports;
pub mod routing;
pub mod service;
pub mod session;
pub mod store;
pub mod supervisor;
pub mod telemetry;
pub mod text;
pub mod tools;
