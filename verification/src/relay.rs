//! The relay side of the protocol: the per-connection receive buffer that
//! bridges a byte stream to the packet decoder, and the two-state handshake
//! machine that judges the one packet a fresh connection must send.
//!
//! The stream itself (reads, writes, shutdown, the accept loop) is I/O and
//! lives with the caller; the caller appends whatever one read yielded with
//! [`Connection::feed`], retries [`Connection::parse_packet`], and reports a
//! closed stream with [`Connection::on_stream_closed`].

use vstd::prelude::*;

use crate::error::Error;
use crate::proto::{decode, spec_decode, DecodeResult, Decoded, Packet, PUBLIC_KEY_LEN};

verus! {

/// Initial capacity of a connection's receive buffer, in bytes.
pub const RECV_BUFFER_SIZE: usize = 4096;

/// The receive buffer of a connection; opaque to the verified code, which
/// sees its contents only through `buffered_bytes`.
#[verifier::external_type_specification]
#[verifier::external_body]
pub struct ExBytesMut(bytes::BytesMut);

/// The bytes a buffer currently holds, head first.
pub uninterp spec fn buffered_bytes(b: bytes::BytesMut) -> Seq<u8>;

/// Relies on `bytes::BytesMut::with_capacity`: the returned buffer is empty
/// (only its capacity is pre-allocated).
#[verifier::external_body]
fn buffer_new() -> (b: bytes::BytesMut)
    ensures
        buffered_bytes(b) == Seq::<u8>::empty(),
{
    bytes::BytesMut::with_capacity(RECV_BUFFER_SIZE)
}

/// Relies on `bytes::BytesMut::len`: the number of bytes the buffer holds.
#[verifier::external_body]
fn buffer_len(b: &bytes::BytesMut) -> (n: usize)
    ensures
        n == buffered_bytes(*b).len(),
{
    b.len()
}

/// Relies on `bytes::BytesMut::extend_from_slice`: appends the given bytes
/// at the tail of the buffer.
#[verifier::external_body]
fn buffer_extend(b: &mut bytes::BytesMut, data: &Vec<u8>)
    ensures
        buffered_bytes(*final(b)) == buffered_bytes(*old(b)) + data@,
{
    b.extend_from_slice(data.as_slice());
}

/// Relies on `bytes::Buf::advance` on `BytesMut`: discards exactly the first
/// `n` bytes; panics past the end, which the precondition rules out.
#[verifier::external_body]
fn buffer_advance(b: &mut bytes::BytesMut, n: usize)
    requires
        n <= buffered_bytes(*old(b)).len(),
    ensures
        buffered_bytes(*final(b)) == buffered_bytes(*old(b)).skip(n as int),
{
    bytes::Buf::advance(b, n);
}

/// Relies on `BytesMut`'s `AsRef<[u8]>` and `slice::to_vec`: copies out the
/// buffered bytes, head first, leaving the buffer as it was.
#[verifier::external_body]
fn buffer_to_vec(b: &bytes::BytesMut) -> (v: Vec<u8>)
    ensures
        v@ == buffered_bytes(*b),
{
    b.as_ref().to_vec()
}

/// One side of a duplex byte stream with a growable receive buffer. Bytes
/// are appended at the tail by reads and consumed from the head by
/// successful decodes; bytes left after a partial decode are never
/// discarded.
pub struct Connection {
    buffer: bytes::BytesMut,
}

impl View for Connection {
    type V = Seq<u8>;

    closed spec fn view(&self) -> Seq<u8> {
        buffered_bytes(self.buffer)
    }
}

impl Connection {
    /// A connection with an empty receive buffer.
    pub fn new() -> (c: Connection)
        ensures
            c@ == Seq::<u8>::empty(),
    {
        Connection { buffer: buffer_new() }
    }

    /// Appends the bytes one stream read yielded at the tail of the receive
    /// buffer.
    pub fn feed(&mut self, data: &Vec<u8>)
        ensures
            final(self)@ == old(self)@ + data@,
    {
        buffer_extend(&mut self.buffer, data);
    }

    /// The number of bytes currently buffered.
    pub fn buffered_len(&self) -> (n: usize)
        ensures
            n == self@.len(),
    {
        buffer_len(&self.buffer)
    }

    /// Attempts to parse one packet from the current buffer contents.
    ///
    /// On success the consumed bytes are dropped from the head of the
    /// buffer; `Ok(None)` means not enough data has arrived yet and the
    /// buffer is kept as it is, so the caller should read more from the
    /// stream and try again; a malformed buffer is surfaced as an error and
    /// the connection should not be read further.
    pub fn parse_packet(&mut self) -> (r: Result<Option<Packet>, Error>)
        ensures
            match spec_decode(old(self)@) {
                Decoded::Introduction { proto_ver, public_key, consumed } => {
                    &&& r matches Ok(Some(p))
                    &&& p matches Packet::ClientIntroduction { proto_ver: v, pub_key }
                    &&& v == proto_ver
                    &&& pub_key@ == public_key
                    &&& final(self)@ == old(self)@.skip(consumed)
                },
                Decoded::NeedMoreData => {
                    &&& r matches Ok(q) && q is None
                    &&& final(self)@ == old(self)@
                },
                Decoded::Malformed { reason } => {
                    &&& r matches Err(e) && e == Error::PacketFormatError(reason)
                    &&& final(self)@ == old(self)@
                },
            },
    {
        let bytes = buffer_to_vec(&self.buffer);
        match decode(&bytes) {
            DecodeResult::Ready { packet, consumed } => {
                buffer_advance(&mut self.buffer, consumed);
                Ok(Some(packet))
            },
            DecodeResult::NeedMoreData => Ok(None),
            DecodeResult::Malformed { reason } => Err(Error::PacketFormatError(reason)),
        }
    }

    /// Judges a stream that closed while a packet was awaited: a close with
    /// an empty receive buffer is a clean end of stream, one with bytes
    /// still buffered means the peer closed in the middle of a packet.
    pub fn on_stream_closed(&self) -> (r: Result<Option<Packet>, Error>)
        ensures
            self@.len() == 0 ==> (r matches Ok(q) && q is None),
            self@.len() != 0 ==> (r matches Err(e) && e == Error::ConnectionReset),
    {
        if self.buffered_len() == 0 {
            Ok(None)
        } else {
            Err(Error::ConnectionReset)
        }
    }
}

/// The handshake of one accepted connection: it awaits exactly one
/// introduction packet, then is done or failed for good.
pub enum HandshakeState {
    /// The connection was accepted; no packet has been judged yet.
    AwaitingIntroduction,
    /// A `ClientIntroduction` arrived; the peer's declared version and key
    /// are recorded.
    Done { proto_ver: u16, public_key: [u8; PUBLIC_KEY_LEN] },
    /// No introduction arrived; the connection must be closed.
    Failed,
}

impl HandshakeState {
    /// The state of a freshly accepted connection.
    pub fn new() -> (s: HandshakeState)
        ensures
            s is AwaitingIntroduction,
    {
        HandshakeState::AwaitingIntroduction
    }

    /// The one transition of the machine, driven by what the single packet
    /// read returned: an introduction succeeds and is recorded; anything
    /// else — including a stream that closed cleanly before a packet —
    /// fails the handshake with `UnexpectedPacket`.
    pub fn on_packet(&mut self, packet: Option<Packet>) -> (r: Result<(), Error>)
        requires
            *old(self) is AwaitingIntroduction,
        ensures
            match packet {
                Some(Packet::ClientIntroduction { proto_ver, pub_key }) => {
                    &&& *final(self) == (HandshakeState::Done { proto_ver, public_key: pub_key })
                    &&& r is Ok
                },
                None => {
                    &&& *final(self) is Failed
                    &&& r matches Err(e) && e == Error::UnexpectedPacket
                },
            },
            r is Err <==> *final(self) is Failed,
    {
        match packet {
            Some(Packet::ClientIntroduction { proto_ver, pub_key }) => {
                *self = HandshakeState::Done { proto_ver, public_key: pub_key };
                Ok(())
            },
            None => {
                *self = HandshakeState::Failed;
                Err(Error::UnexpectedPacket)
            },
        }
    }

    /// Whether the relay must close this connection.
    pub fn must_close(&self) -> (b: bool)
        ensures
            b == (self is Failed),
    {
        match self {
            HandshakeState::Failed => true,
            _ => false,
        }
    }
}

} // verus!
