//! Module definitions.

pub mod pymodule;
pub mod pymodule_laws;
pub mod version;
pub mod version_laws;
