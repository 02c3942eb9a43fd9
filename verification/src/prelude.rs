//! Minimal set of imports to implement a handler with workers.

pub use crate::permission::Require;
pub use crate::permission::Rights;
pub use crate::server::Service;
pub use crate::session::Session;
pub use crate::worker;
pub use crate::worker::Worker;
