//! Multi-account gateway from typed GitHub operations to runs of the `gh` tool.
//!
//! - `config`: accounts, their token files, and how a call's credential is resolved.
//! - `gh`: what one run of `gh` is and how its outcome is classified.
//! - `tools`: the request types, each with the arguments it makes.
//! - `dispatch`: the operation table, which decides each run and the answer.
//! - `json`, `text`, `args`: the reading of JSON and base64, string helpers, argument building.
pub mod args;
pub mod cli;
pub mod config;
pub mod dispatch;
pub mod error;
pub mod gh;
pub mod json;
pub mod text;
pub mod tools;

pub use config::{Config, LogConfig};
pub use error::Error;
pub use gh::GhClient;
