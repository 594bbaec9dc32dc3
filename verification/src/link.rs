//! The client side of the protocol: a link binds an identity to a relay
//! address and owns the introduction the client must send on connecting.
//!
//! Resolving the address, opening the stream, and writing and flushing the
//! encoded introduction are I/O and live with the caller; the caller asks
//! the link for [`Link::introduction`] and puts its encoding on the wire.

use vstd::prelude::*;

use crate::error::Error;
use crate::identity::Identity;
use crate::proto::{Packet, PROTOCOL_VERSION};

verus! {

/// A client's binding of its identity to a target relay address.
pub struct Link {
    relay: String,
    identity: Identity,
    msg_id: u64,
}

impl Link {
    /// The address of the relay this link connects to.
    pub closed spec fn spec_relay(&self) -> Seq<char> {
        self.relay@
    }

    /// The identity offered in this link's introduction.
    pub closed spec fn spec_identity(&self) -> Identity {
        self.identity
    }

    /// The sequence number for the next message on this link.
    pub closed spec fn spec_msg_id(&self) -> u64 {
        self.msg_id
    }

    /// Constructs a new `Link` that connects to the given `relay` using the
    /// given `identity`.
    pub fn new_with_identity(relay: String, identity: Identity) -> (r: Result<Link, Error>)
        ensures
            r matches Ok(l) && l.spec_relay() == relay@ && l.spec_identity() == identity
                && l.spec_msg_id() == 0,
    {
        Ok(Link { relay, identity, msg_id: 0 })
    }

    /// The address of the relay this link connects to.
    pub fn relay(&self) -> (r: &String)
        ensures
            r@ == self.spec_relay(),
    {
        &self.relay
    }

    /// Returns the associated `identity`.
    pub fn identity(&self) -> (r: &Identity)
        ensures
            *r == self.spec_identity(),
    {
        &self.identity
    }

    /// The introduction this link sends immediately after connecting: the
    /// current protocol version and the bound identity's public key.
    pub fn introduction(&self) -> (p: Packet)
        ensures
            p == (Packet::ClientIntroduction {
                proto_ver: PROTOCOL_VERSION,
                pub_key: self.spec_identity().spec_public_key(),
            }),
    {
        let pub_key = *self.identity.public_key();
        Packet::ClientIntroduction { proto_ver: PROTOCOL_VERSION, pub_key }
    }
}

} // verus!
