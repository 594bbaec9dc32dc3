//! The configuration a process runs the library with: either operate a relay
//! bound to a configurable address, or send over a link. Parsing a command
//! line into these values is presentation and lives with the caller.

use vstd::prelude::*;

verus! {

/// The port a relay listens on when none is configured.
pub const DEFAULT_RELAY_PORT: u16 = 6200;

/// Options for operating a relay.
pub struct RelayOpts {
    /// The address the relay will listen on.
    pub address: String,
}

/// Options for sending a file or a directory.
pub struct SendOpts {}

/// The two operating modes of a process built on this library.
pub enum Command {
    /// Operate a relay.
    Relay(RelayOpts),
    /// Send a file or a directory.
    Send(SendOpts),
}

/// The full configuration of one process.
pub struct Opts {
    pub command: Command,
}

} // verus!
