//! State that is kept per interpreter, and the way back to one.

pub mod interpreter_handle;
pub mod interpreter_handle_laws;
pub mod keys;
pub mod per_interpreter;
pub mod per_interpreter_laws;
pub mod registry;
pub mod teardown;
pub mod teardown_laws;
