//! Core of a peer-to-peer relay network: a length-prefixed binary packet
//! protocol with a streaming parser, the per-connection handshake state
//! machine of the relay, and the long-term identity and ephemeral
//! key-agreement material that the handshake carries.

pub mod agreement;
pub mod cli;
pub mod error;
pub mod identity;
pub mod link;
pub mod proto;
pub mod relay;

pub use error::Error;
pub use identity::Identity;
pub use link::Link;
