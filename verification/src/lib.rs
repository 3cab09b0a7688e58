//! A minimal data-pipeline run: a named flow made of an ordered list of
//! tasks, each tracked through a lifecycle (pending, running, completed or
//! failed), with the flow's own status derived from its tasks.
//!
//! The library holds the state model, the derivation rules, the sequential
//! fail-fast execution protocol, and the snapshot rendering. Reading the
//! clock, performing a task's work and writing the snapshot out are the
//! caller's business: the library takes their results as plain values.

pub mod command;
pub mod flow;
pub mod json;
pub mod runner;
pub mod stamp;
pub mod status;
pub mod task;

pub use command::command_outcome;
pub use flow::Flow;
pub use json::flow_to_json;
pub use runner::RunPhase;
pub use runner::Runner;
pub use stamp::Stamp;
pub use status::Status;
pub use task::Task;
