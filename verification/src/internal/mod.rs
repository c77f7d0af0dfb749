//! What the runtime knows about threads, interpreters and references not yet released.

pub mod home;
pub mod home_laws;
pub mod pool;
pub mod pool_laws;
pub mod state;
pub mod state_laws;
