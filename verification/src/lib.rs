//! Collaborative terminal replication.
//!
//! One participant in a shared session (the host) owns live terminals; any
//! number of other participants (guests) attach to them and — once the
//! transport is quiescent — observe the same screen contents. The host keeps
//! exclusive control of terminal input and process lifecycle.
//!
//! The terminal emulation engine, the windowing layer and the RPC transport
//! are external collaborators: this crate holds the replicated state, the
//! attach protocol and the convergence arguments, all on plain values.

pub mod bytes;
pub mod callback;
pub mod convergence;
pub mod ids;
pub mod messages;
pub mod project;
pub mod screen;
pub mod terminals;
pub mod venv;
