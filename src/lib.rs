//! Control plane and service multiplexing of a peer-to-peer overlay: identity
//! proofs, the bearer directory, the per-peer service registry and instance
//! router, and the framing of control messages.

pub mod address;
pub mod bearer;
pub mod builtin_services;
pub mod config;
pub mod context;
pub mod error;
pub mod executor;
pub mod frame;
pub mod peer;
pub mod peer_proof;
pub mod protocol;
pub mod ring;
pub mod service;
pub mod stream;

pub use error::Error;
pub use protocol::{PeerId, Protocol};
pub use stream::NewStreamHandle;
