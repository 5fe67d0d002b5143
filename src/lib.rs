//! Native-function dispatch for a gas-metered bytecode interpreter: the
//! signature and value types that cross the native boundary, the result
//! protocol, the argument-extraction convention, the registry of native
//! functions and the built-in native operations it holds.

pub mod types;
pub mod status;
pub mod args;
pub mod crypto;
pub mod natives;
pub mod dispatch;
pub mod builtins;
pub mod laws;
