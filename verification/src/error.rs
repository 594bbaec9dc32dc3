//! The error taxonomy of the library.

use vstd::prelude::*;

use crate::proto::PacketError;

verus! {

/// `std::io::Error` carried by the stream-level variants; opaque to the
/// verified code, which never inspects it.
#[verifier::external_type_specification]
#[verifier::external_body]
pub struct ExIoError(std::io::Error);

/// Everything that can go wrong while binding, connecting, or driving a
/// handshake. Resolution, bind and connect failures abort the respective
/// call; stream and protocol failures are isolated per connection.
#[derive(Debug)]
pub enum Error {
    /// Underlying I/O failure on an established stream.
    IoError(std::io::Error),
    /// Resolution of the bind address itself failed.
    BindAddressResolveError(std::io::Error),
    /// The bind address resolved to zero usable endpoints.
    InvalidBindAddress,
    /// The listener could not be bound to the resolved endpoint.
    RelayBindError(std::io::Error),
    /// A cryptographic primitive failed.
    CryptoError,
    /// The Ed25519 identity key pair could not be generated.
    Ed25519KeyPairGenerationError,
    /// The generated Ed25519 key pair was rejected on re-parsing.
    Ed25519KeyPairRejected(&'static str),
    /// The ephemeral key-agreement private key could not be generated.
    PrivateKeyGenerationError,
    /// No candidate endpoint of the relay accepted a connection.
    RelayConnectionFailed,
    /// The peer closed its stream in the middle of a packet.
    ConnectionReset,
    /// A well-formed but unexpected packet arrived during the handshake.
    UnexpectedPacket,
    /// The bytes on the wire do not form a packet.
    PacketFormatError(PacketError),
}

} // verus!
