//! The wire format: packet variants, their encoding, and the streaming
//! decoder.
//!
//! Every packet starts with a 10-byte header: a 2-byte type id followed by an
//! 8-byte declared payload length, both big-endian. The payload of a
//! `ClientIntroduction` is a 2-byte protocol version followed by the 32-byte
//! public identity key.

use vstd::prelude::*;

verus! {

/// The current protocol revision, declared by the sender of a
/// `ClientIntroduction` and compared, never negotiated.
pub const PROTOCOL_VERSION: u16 = 0;

/// Wire type id of `Packet::ClientIntroduction`.
pub const CLIENT_INTRODUCTION_ID: u16 = 0;

/// Bytes of the fixed packet header: type id (2) plus payload length (8).
pub const HEADER_LEN: usize = 10;

/// Bytes of a public identity key on the wire.
pub const PUBLIC_KEY_LEN: usize = 32;

/// Declared payload length of a `ClientIntroduction`: version (2) plus
/// key (32).
pub const INTRODUCTION_PAYLOAD_LEN: u64 = 34;

/// The known packet kinds, one per wire type id.
#[derive(Clone, Copy, Debug, PartialEq, Eq, Structural)]
pub enum PacketType {
    /// The first message a client sends upon connection: its identity and
    /// protocol version.
    ClientIntroduction,
}

/// Why a buffer cannot be decoded into a packet.
#[derive(Clone, Copy, Debug, PartialEq, Eq, Structural)]
pub enum PacketError {
    /// The type id matches no known packet kind.
    InvalidPacketId,
    /// The declared payload length is too short to hold the packet's fields.
    Incomplete,
}

/// One discrete, self-delimiting unit of the wire protocol.
#[derive(Clone, Copy, Debug)]
pub enum Packet {
    ClientIntroduction { proto_ver: u16, pub_key: [u8; PUBLIC_KEY_LEN] },
}

/// What one decode attempt on a buffer reports.
#[derive(Debug)]
pub enum DecodeResult {
    /// A full packet, and the exact number of bytes to drop from the head of
    /// the buffer.
    Ready { packet: Packet, consumed: usize },
    /// The header, or the declared payload length, needs more bytes than
    /// have arrived yet.
    NeedMoreData,
    /// The bytes can never become a packet, however many more arrive.
    Malformed { reason: PacketError },
}

impl PacketType {
    /// The wire discriminator of this packet kind.
    pub open spec fn spec_id(self) -> u16 {
        match self {
            PacketType::ClientIntroduction => CLIENT_INTRODUCTION_ID,
        }
    }

    /// The wire discriminator of this packet kind.
    pub fn id(self) -> (r: u16)
        ensures
            r == self.spec_id(),
    {
        match self {
            PacketType::ClientIntroduction => CLIENT_INTRODUCTION_ID,
        }
    }

    /// The packet kind a wire discriminator denotes, if any.
    pub fn from_id(id: u16) -> (r: Result<PacketType, PacketError>)
        ensures
            id == CLIENT_INTRODUCTION_ID ==> r == Ok::<PacketType, PacketError>(
                PacketType::ClientIntroduction,
            ),
            id != CLIENT_INTRODUCTION_ID ==> r == Err::<PacketType, PacketError>(
                PacketError::InvalidPacketId,
            ),
    {
        if id == CLIENT_INTRODUCTION_ID {
            Ok(PacketType::ClientIntroduction)
        } else {
            Err(PacketError::InvalidPacketId)
        }
    }
}

/// The two bytes of `x`, most significant first.
pub open spec fn spec_u16_to_be_bytes(x: u16) -> Seq<u8> {
    seq![((x >> 8) & 0xff) as u8, (x & 0xff) as u8]
}

/// The `u16` whose big-endian bytes are `s`.
pub open spec fn spec_u16_from_be_bytes(s: Seq<u8>) -> u16
    recommends
        s.len() == 2,
{
    ((s[0] as u16) << 8) | (s[1] as u16)
}

/// The eight bytes of `x`, most significant first.
pub open spec fn spec_u64_to_be_bytes(x: u64) -> Seq<u8> {
    seq![
        ((x >> 56) & 0xff) as u8,
        ((x >> 48) & 0xff) as u8,
        ((x >> 40) & 0xff) as u8,
        ((x >> 32) & 0xff) as u8,
        ((x >> 24) & 0xff) as u8,
        ((x >> 16) & 0xff) as u8,
        ((x >> 8) & 0xff) as u8,
        (x & 0xff) as u8,
    ]
}

/// The `u64` whose big-endian bytes are `s`.
pub open spec fn spec_u64_from_be_bytes(s: Seq<u8>) -> u64
    recommends
        s.len() == 8,
{
    ((s[0] as u64) << 56) | ((s[1] as u64) << 48) | ((s[2] as u64) << 40) | ((s[3] as u64) << 32)
        | ((s[4] as u64) << 24) | ((s[5] as u64) << 16) | ((s[6] as u64) << 8) | (s[7] as u64)
}

pub proof fn lemma_u16_be_roundtrip(x: u16)
    ensures
        spec_u16_to_be_bytes(x).len() == 2,
        spec_u16_from_be_bytes(spec_u16_to_be_bytes(x)) == x,
{
    let s = spec_u16_to_be_bytes(x);
    assert(s[0] == ((x >> 8) & 0xff) as u8);
    assert(s[1] == (x & 0xff) as u8);
    assert((((((x >> 8) & 0xff) as u8) as u16) << 8) | (((x & 0xff) as u8) as u16) == x)
        by (bit_vector);
}

pub proof fn lemma_u64_be_roundtrip(x: u64)
    ensures
        spec_u64_to_be_bytes(x).len() == 8,
        spec_u64_from_be_bytes(spec_u64_to_be_bytes(x)) == x,
{
    let s = spec_u64_to_be_bytes(x);
    assert(s[0] == ((x >> 56) & 0xff) as u8);
    assert(s[1] == ((x >> 48) & 0xff) as u8);
    assert(s[2] == ((x >> 40) & 0xff) as u8);
    assert(s[3] == ((x >> 32) & 0xff) as u8);
    assert(s[4] == ((x >> 24) & 0xff) as u8);
    assert(s[5] == ((x >> 16) & 0xff) as u8);
    assert(s[6] == ((x >> 8) & 0xff) as u8);
    assert(s[7] == (x & 0xff) as u8);
    assert(((((x >> 56) & 0xff) as u8) as u64) << 56 | ((((x >> 48) & 0xff) as u8) as u64) << 48
        | ((((x >> 40) & 0xff) as u8) as u64) << 40 | ((((x >> 32) & 0xff) as u8) as u64) << 32
        | ((((x >> 24) & 0xff) as u8) as u64) << 24 | ((((x >> 16) & 0xff) as u8) as u64) << 16
        | ((((x >> 8) & 0xff) as u8) as u64) << 8 | (((x & 0xff) as u8) as u64) == x)
        by (bit_vector);
}

/// Appends the two big-endian bytes of `x` at the tail of `out`.
fn push_u16_be(out: &mut Vec<u8>, x: u16)
    ensures
        final(out)@ == old(out)@ + spec_u16_to_be_bytes(x),
{
    proof {
        assert((x >> 8) & 0xff < 256 && x & 0xff < 256) by (bit_vector);
    }
    out.push(((x >> 8) & 0xff) as u8);
    out.push((x & 0xff) as u8);
    proof {
        assert(final(out)@ =~= old(out)@ + spec_u16_to_be_bytes(x));
    }
}

/// Appends the eight big-endian bytes of `x` at the tail of `out`.
fn push_u64_be(out: &mut Vec<u8>, x: u64)
    ensures
        final(out)@ == old(out)@ + spec_u64_to_be_bytes(x),
{
    proof {
        assert((x >> 56) & 0xff < 256 && (x >> 48) & 0xff < 256 && (x >> 40) & 0xff < 256 && (x
            >> 32) & 0xff < 256 && (x >> 24) & 0xff < 256 && (x >> 16) & 0xff < 256 && (x >> 8)
            & 0xff < 256 && x & 0xff < 256) by (bit_vector);
    }
    out.push(((x >> 56) & 0xff) as u8);
    out.push(((x >> 48) & 0xff) as u8);
    out.push(((x >> 40) & 0xff) as u8);
    out.push(((x >> 32) & 0xff) as u8);
    out.push(((x >> 24) & 0xff) as u8);
    out.push(((x >> 16) & 0xff) as u8);
    out.push(((x >> 8) & 0xff) as u8);
    out.push((x & 0xff) as u8);
    proof {
        assert(final(out)@ =~= old(out)@ + spec_u64_to_be_bytes(x));
    }
}

/// The `u16` at `offset` in `buffer`, big-endian.
fn read_u16_be(buffer: &Vec<u8>, offset: usize) -> (r: u16)
    requires
        offset + 2 <= buffer@.len(),
    ensures
        r == spec_u16_from_be_bytes(buffer@.subrange(offset as int, offset as int + 2)),
{
    // binding the length as a usize puts its machine bound in scope
    let _n: usize = buffer.len();
    let hi = buffer[offset];
    let lo = buffer[offset + 1];
    proof {
        let s = buffer@.subrange(offset as int, offset as int + 2);
        assert(s[0] == hi && s[1] == lo);
    }
    ((hi as u16) << 8) | (lo as u16)
}

/// The `u64` at `offset` in `buffer`, big-endian.
fn read_u64_be(buffer: &Vec<u8>, offset: usize) -> (r: u64)
    requires
        offset + 8 <= buffer@.len(),
    ensures
        r == spec_u64_from_be_bytes(buffer@.subrange(offset as int, offset as int + 8)),
{
    // binding the length as a usize puts its machine bound in scope
    let _n: usize = buffer.len();
    let b0 = buffer[offset];
    let b1 = buffer[offset + 1];
    let b2 = buffer[offset + 2];
    let b3 = buffer[offset + 3];
    let b4 = buffer[offset + 4];
    let b5 = buffer[offset + 5];
    let b6 = buffer[offset + 6];
    let b7 = buffer[offset + 7];
    proof {
        let s = buffer@.subrange(offset as int, offset as int + 8);
        assert(s[0] == b0 && s[1] == b1 && s[2] == b2 && s[3] == b3 && s[4] == b4 && s[5] == b5
            && s[6] == b6 && s[7] == b7);
    }
    ((b0 as u64) << 56) | ((b1 as u64) << 48) | ((b2 as u64) << 40) | ((b3 as u64) << 32) | ((
    b4 as u64) << 24) | ((b5 as u64) << 16) | ((b6 as u64) << 8) | (b7 as u64)
}

impl Packet {
    /// The exact bytes this packet puts on the wire: type id, declared
    /// payload length, then the variant's fields in declared order.
    pub open spec fn spec_encode(self) -> Seq<u8> {
        match self {
            Packet::ClientIntroduction { proto_ver, pub_key } => spec_u16_to_be_bytes(
                CLIENT_INTRODUCTION_ID,
            ) + spec_u64_to_be_bytes(INTRODUCTION_PAYLOAD_LEN) + spec_u16_to_be_bytes(proto_ver)
                + pub_key@,
        }
    }

    /// Serializes the packet.
    pub fn encode(&self) -> (r: Vec<u8>)
        ensures
            r@ == self.spec_encode(),
    {
        match *self {
            Packet::ClientIntroduction { proto_ver, pub_key } => {
                let mut out: Vec<u8> = Vec::new();
                push_u16_be(&mut out, CLIENT_INTRODUCTION_ID);
                push_u64_be(&mut out, INTRODUCTION_PAYLOAD_LEN);
                push_u16_be(&mut out, proto_ver);
                let ghost prefix = out@;
                let mut i: usize = 0;
                while i < PUBLIC_KEY_LEN
                    invariant
                        i <= PUBLIC_KEY_LEN,
                        out@ == prefix + pub_key@.take(i as int),
                    decreases PUBLIC_KEY_LEN - i,
                {
                    out.push(pub_key[i]);
                    proof {
                        assert(out@ =~= prefix + pub_key@.take(i as int + 1));
                    }
                    i = i + 1;
                }
                proof {
                    assert(pub_key@.take(PUBLIC_KEY_LEN as int) =~= pub_key@);
                    assert(out@ =~= self.spec_encode());
                }
                out
            },
        }
    }
}

/// The decoder's verdict on a buffer, at the specification level; the
/// public key is kept as the byte sequence the buffer holds.
pub enum Decoded {
    Introduction { proto_ver: u16, public_key: Seq<u8>, consumed: int },
    NeedMoreData,
    Malformed { reason: PacketError },
}

/// What decoding a buffer must report, as a function of the bytes alone:
/// too few bytes for the header or for the declared payload length is
/// `NeedMoreData`; an unknown type id, or a declared payload length too
/// short for the variant's fields, is `Malformed`; otherwise the packet's
/// fields are read from the payload and the header plus the declared
/// payload length is consumed.
pub open spec fn spec_decode(b: Seq<u8>) -> Decoded {
    if b.len() < HEADER_LEN {
        Decoded::NeedMoreData
    } else if spec_u16_from_be_bytes(b.subrange(0, 2)) != CLIENT_INTRODUCTION_ID {
        Decoded::Malformed { reason: PacketError::InvalidPacketId }
    } else {
        let payload_len = spec_u64_from_be_bytes(b.subrange(2, HEADER_LEN as int));
        if payload_len < INTRODUCTION_PAYLOAD_LEN {
            Decoded::Malformed { reason: PacketError::Incomplete }
        } else if b.len() < HEADER_LEN + payload_len {
            Decoded::NeedMoreData
        } else {
            Decoded::Introduction {
                proto_ver: spec_u16_from_be_bytes(b.subrange(HEADER_LEN as int, HEADER_LEN + 2)),
                public_key: b.subrange(HEADER_LEN + 2, HEADER_LEN + 2 + PUBLIC_KEY_LEN),
                consumed: HEADER_LEN + payload_len,
            }
        }
    }
}

/// The executable result `r` reports exactly what `spec_decode` says of `b`.
pub open spec fn decode_reports(b: Seq<u8>, r: DecodeResult) -> bool {
    match spec_decode(b) {
        Decoded::Introduction { proto_ver, public_key, consumed } => {
            &&& r matches DecodeResult::Ready { packet, consumed: c }
            &&& packet matches Packet::ClientIntroduction { proto_ver: v, pub_key }
            &&& v == proto_ver
            &&& pub_key@ == public_key
            &&& c == consumed
        },
        Decoded::NeedMoreData => r is NeedMoreData,
        Decoded::Malformed { reason } => r == (DecodeResult::Malformed { reason }),
    }
}

/// Attempts to decode one packet from the head of `buffer`. Never reads past
/// the bytes available, and never blocks; a decoder's verdict is a function
/// of the buffer contents alone, so decoding the same buffer twice returns
/// the same result.
pub fn decode(buffer: &Vec<u8>) -> (r: DecodeResult)
    ensures
        decode_reports(buffer@, r),
{
    if buffer.len() < HEADER_LEN {
        return DecodeResult::NeedMoreData;
    }
    let type_id = read_u16_be(buffer, 0);
    if type_id != CLIENT_INTRODUCTION_ID {
        return DecodeResult::Malformed { reason: PacketError::InvalidPacketId };
    }
    let payload_len = read_u64_be(buffer, 2);
    if payload_len < INTRODUCTION_PAYLOAD_LEN {
        return DecodeResult::Malformed { reason: PacketError::Incomplete };
    }
    let available = (buffer.len() - HEADER_LEN) as u64;
    if available < payload_len {
        return DecodeResult::NeedMoreData;
    }
    let proto_ver = read_u16_be(buffer, HEADER_LEN);
    let mut pub_key = [0u8; PUBLIC_KEY_LEN];
    let mut i: usize = 0;
    while i < PUBLIC_KEY_LEN
        invariant
            i <= PUBLIC_KEY_LEN,
            buffer@.len() >= HEADER_LEN + 2 + PUBLIC_KEY_LEN,
            pub_key@.len() == PUBLIC_KEY_LEN,
            forall|j: int| 0 <= j < i ==> pub_key@[j] == buffer@[HEADER_LEN + 2 + j],
        decreases PUBLIC_KEY_LEN - i,
    {
        pub_key[i] = buffer[HEADER_LEN + 2 + i];
        i = i + 1;
    }
    proof {
        assert(pub_key@ =~= buffer@.subrange(
            HEADER_LEN + 2,
            HEADER_LEN + 2 + PUBLIC_KEY_LEN,
        ));
    }
    let consumed = HEADER_LEN + (payload_len as usize);
    DecodeResult::Ready { packet: Packet::ClientIntroduction { proto_ver, pub_key }, consumed }
}

/// Law: decoding what a packet encodes yields its own protocol version and
/// public key back, and consumes the whole encoding, for every version and
/// every key.
pub proof fn lemma_encode_decode_roundtrip(p: Packet)
    ensures
        ({
            let e = p.spec_encode();
            &&& e.len() == HEADER_LEN + INTRODUCTION_PAYLOAD_LEN
            &&& spec_decode(e) matches Decoded::Introduction { proto_ver, public_key, consumed }
            &&& proto_ver == p->proto_ver
            &&& public_key == p->pub_key@
            &&& consumed == e.len()
        }),
{
    match p {
        Packet::ClientIntroduction { proto_ver, pub_key } => {
            let e = p.spec_encode();
            let h = spec_u16_to_be_bytes(CLIENT_INTRODUCTION_ID);
            let l = spec_u64_to_be_bytes(INTRODUCTION_PAYLOAD_LEN);
            let v = spec_u16_to_be_bytes(proto_ver);
            lemma_u16_be_roundtrip(CLIENT_INTRODUCTION_ID);
            lemma_u64_be_roundtrip(INTRODUCTION_PAYLOAD_LEN);
            lemma_u16_be_roundtrip(proto_ver);
            assert(e.subrange(0, 2) =~= h);
            assert(e.subrange(2, HEADER_LEN as int) =~= l);
            assert(e.subrange(HEADER_LEN as int, HEADER_LEN + 2) =~= v);
            assert(e.subrange(HEADER_LEN + 2, HEADER_LEN + 2 + PUBLIC_KEY_LEN) =~= pub_key@);
        },
    }
}

/// Law: every strict prefix of an encoded packet decodes to `NeedMoreData`,
/// never to a wrong packet or an error; so a packet split at any offset and
/// delivered in two chunks is decoded exactly as if delivered at once.
pub proof fn lemma_prefix_needs_more_data(p: Packet, n: int)
    requires
        0 <= n < p.spec_encode().len(),
    ensures
        spec_decode(p.spec_encode().take(n)) is NeedMoreData,
{
    let e = p.spec_encode();
    let t = e.take(n);
    lemma_encode_decode_roundtrip(p);
    if n >= HEADER_LEN {
        assert(t.subrange(0, 2) =~= e.subrange(0, 2));
        assert(t.subrange(2, HEADER_LEN as int) =~= e.subrange(2, HEADER_LEN as int));
    }
}

/// Law: splitting an encoded packet at any offset and appending the second
/// chunk behind the first reassembles the full encoding, so a packet
/// delivered in two chunks decodes exactly as one delivered at once.
pub proof fn lemma_two_chunk_delivery(p: Packet, n: int)
    requires
        0 <= n <= p.spec_encode().len(),
    ensures
        p.spec_encode().take(n) + p.spec_encode().skip(n) == p.spec_encode(),
        n < p.spec_encode().len() ==> spec_decode(p.spec_encode().take(n)) is NeedMoreData,
{
    assert(p.spec_encode().take(n) + p.spec_encode().skip(n) =~= p.spec_encode());
    if n < p.spec_encode().len() {
        lemma_prefix_needs_more_data(p, n);
    }
}

/// Law: a buffer of at least header length whose first two bytes are no
/// known type id is malformed with `InvalidPacketId`, never a partial match.
pub proof fn lemma_unknown_type_id(b: Seq<u8>)
    requires
        b.len() >= HEADER_LEN,
        spec_u16_from_be_bytes(b.subrange(0, 2)) != CLIENT_INTRODUCTION_ID,
    ensures
        spec_decode(b) == (Decoded::Malformed { reason: PacketError::InvalidPacketId }),
{
}

} // verus!
