//! A line-delimited diagnostic command server: the request model, the plan
//! of external invocations each command makes, the response header wire
//! form, and the per-connection session state machine.
pub mod text;
pub mod command;
pub mod plan;
pub mod session;
