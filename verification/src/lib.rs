//! Core logic of the DeepSeek Harness desktop shell: the page bridge script,
//! the Host supervisor state machine, the data-root and profile layout, and the
//! decisions behind the shell's commands and its `dsh-app` protocol.
//!
//! Everything that touches the window system, child processes, environment
//! variables or the disk lives in the application around this crate; the
//! functions here take and return plain values.

pub mod text;
pub mod bridge;
pub mod host;
pub mod commands;
pub mod paths;
pub mod profile;
pub mod protocol;
