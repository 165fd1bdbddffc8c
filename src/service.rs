//! The services that peers run over their connections, and the ids of their
//! instances.

pub use crate::builtin_services::Lifeline;
pub use crate::protocol::ServiceId;
