use vstd::prelude::*;

use crate::error::WispError;
use crate::support::payload::{bytes_as_slice, bytes_from_vec, bytes_seq, bytes_slice_from};

verus! {

/// The five Wisp packet types.
#[derive(Debug, Clone, Copy, PartialEq, Eq, Hash, Structural)]
pub enum PacketType {
    Connect,
    Data,
    Continue,
    Close,
    Info,
}

/// The packet type that a type byte names, if any.
pub open spec fn packet_type_of(code: u8) -> Option<PacketType> {
    if code == 1 {
        Some(PacketType::Connect)
    } else if code == 2 {
        Some(PacketType::Data)
    } else if code == 3 {
        Some(PacketType::Continue)
    } else if code == 4 {
        Some(PacketType::Close)
    } else if code == 5 {
        Some(PacketType::Info)
    } else {
        None
    }
}

impl PacketType {
    /// The type byte of this packet type on the wire.
    pub open spec fn code(self) -> u8 {
        match self {
            PacketType::Connect => 1,
            PacketType::Data => 2,
            PacketType::Continue => 3,
            PacketType::Close => 4,
            PacketType::Info => 5,
        }
    }

    pub fn from_u8(value: u8) -> (r: Result<Self, WispError>)
        ensures
            match packet_type_of(value) {
                Some(t) => r == Ok::<PacketType, WispError>(t),
                None => r == Err::<PacketType, WispError>(WispError::InvalidPacketType(value)),
            },
    {
        match value {
            1 => Ok(PacketType::Connect),
            2 => Ok(PacketType::Data),
            3 => Ok(PacketType::Continue),
            4 => Ok(PacketType::Close),
            5 => Ok(PacketType::Info),
            _ => Err(WispError::InvalidPacketType(value)),
        }
    }

    /// The type byte of this packet type on the wire.
    pub fn to_u8(self) -> (r: u8)
        ensures
            r == self.code(),
    {
        match self {
            PacketType::Connect => 1,
            PacketType::Data => 2,
            PacketType::Continue => 3,
            PacketType::Close => 4,
            PacketType::Info => 5,
        }
    }
}

/// The id of a stream within one connection; `0` is the connection itself.
pub type StreamId = u32;

/// The value of four bytes read as a little-endian unsigned integer.
pub open spec fn le_u32_value(b0: u8, b1: u8, b2: u8, b3: u8) -> int {
    b0 + 256 * b1 + 65536 * b2 + 16777216 * b3
}

/// The value of the four bytes of `s` that start at `at`, little-endian.
pub open spec fn le_u32_at(s: Seq<u8>, at: int) -> u32 {
    le_u32_value(s[at], s[at + 1], s[at + 2], s[at + 3]) as u32
}

/// The four little-endian bytes of `x`.
pub open spec fn le_u32_bytes(x: u32) -> Seq<u8> {
    seq![(x % 256) as u8, ((x / 256) % 256) as u8, ((x / 65536) % 256) as u8, (x / 16777216) as u8]
}

/// The value of the two bytes of `s` that start at `at`, little-endian.
pub open spec fn le_u16_at(s: Seq<u8>, at: int) -> u16 {
    (s[at] + 256 * s[at + 1]) as u16
}

/// The bytes of a packet on the wire: the type byte, the stream id in four
/// little-endian bytes, then the payload.
pub open spec fn encode_packet(t: PacketType, stream_id: u32, payload: Seq<u8>) -> Seq<u8> {
    seq![t.code()] + le_u32_bytes(stream_id) + payload
}

/// What a frame of bytes decodes to: shorter than the five header bytes it is
/// too short; with an unknown type byte it is refused; otherwise the header
/// gives the type and stream id and the rest is the payload.
pub open spec fn decode_packet(s: Seq<u8>) -> Result<(PacketType, u32, Seq<u8>), WispError> {
    if s.len() < 5 {
        Err(WispError::PacketTooShort(s.len() as usize))
    } else {
        match packet_type_of(s[0]) {
            None => Err(WispError::InvalidPacketType(s[0])),
            Some(t) => Ok((t, le_u32_at(s, 1), s.subrange(5, s.len() as int))),
        }
    }
}

/// A Wisp packet: a type, a stream and a payload.
#[derive(Debug, Clone, PartialEq, Eq)]
pub struct Packet {
    pub packet_type: PacketType,
    pub stream_id: StreamId,
    pub payload: bytes::Bytes,
}

impl View for Packet {
    type V = (PacketType, u32, Seq<u8>);

    open spec fn view(&self) -> (PacketType, u32, Seq<u8>) {
        (self.packet_type, self.stream_id, bytes_seq(self.payload))
    }
}

/// Reads four bytes of a slice as a little-endian `u32`.
fn read_u32_le(s: &[u8], at: usize) -> (r: u32)
    requires
        at + 4 <= s@.len(),
    ensures
        r == le_u32_at(s@, at as int),
{
    let b0 = s[at] as u32;
    let b1 = s[at + 1] as u32;
    let b2 = s[at + 2] as u32;
    let b3 = s[at + 3] as u32;
    b0 + b1 * 256 + b2 * 65536 + b3 * 16777216
}

/// Appends the four little-endian bytes of `x`.
fn push_u32_le(out: &mut Vec<u8>, x: u32)
    ensures
        final(out)@ == old(out)@ + le_u32_bytes(x),
{
    out.push((x % 256) as u8);
    out.push(((x / 256) % 256) as u8);
    out.push(((x / 65536) % 256) as u8);
    out.push((x / 16777216) as u8);
}

/// Appends all bytes of a slice.
fn push_slice(out: &mut Vec<u8>, s: &[u8])
    ensures
        final(out)@ == old(out)@ + s@,
{
    let ghost start = out@;
    let mut i: usize = 0;
    while i < s.len()
        invariant
            i <= s@.len(),
            out@ == start + s@.subrange(0, i as int),
        decreases s@.len() - i,
    {
        out.push(s[i]);
        i = i + 1;
        assert(out@ == start + s@.subrange(0, i as int));
    }
    assert(s@.subrange(0, s@.len() as int) == s@);
}

/// The header and payload of a packet of type `t`, as one buffer.
fn encode(t: PacketType, stream_id: StreamId, payload: &[u8]) -> (r: bytes::Bytes)
    ensures
        bytes_seq(r) == encode_packet(t, stream_id, payload@),
{
    let mut buf: Vec<u8> = Vec::new();
    buf.push(t.to_u8());
    push_u32_le(&mut buf, stream_id);
    push_slice(&mut buf, payload);
    bytes_from_vec(buf)
}

impl Packet {
    pub fn parse(data: bytes::Bytes) -> (r: Result<Self, WispError>)
        ensures
            match decode_packet(bytes_seq(data)) {
                Ok(v) => r matches Ok(p) && p@ == v,
                Err(e) => r matches Err(e2) && e2 == e,
            },
    {
        let s = bytes_as_slice(&data);
        let n = s.len();
        if n < 5 {
            return Err(WispError::PacketTooShort(n));
        }
        let packet_type = match PacketType::from_u8(s[0]) {
            Ok(t) => t,
            Err(e) => return Err(e),
        };
        let stream_id = read_u32_le(s, 1);
        let payload = bytes_slice_from(&data, 5);
        Ok(Packet { packet_type, stream_id, payload })
    }

    pub fn serialize(&self) -> (r: bytes::Bytes)
        ensures
            bytes_seq(r) == encode_packet(self.packet_type, self.stream_id, bytes_seq(self.payload)),
    {
        encode(self.packet_type, self.stream_id, bytes_as_slice(&self.payload))
    }

    /// The wire bytes of a DATA packet, without building a `Packet` first.
    pub fn serialize_data(stream_id: StreamId, payload: bytes::Bytes) -> (r: bytes::Bytes)
        ensures
            bytes_seq(r) == encode_packet(PacketType::Data, stream_id, bytes_seq(payload)),
    {
        encode(PacketType::Data, stream_id, bytes_as_slice(&payload))
    }

    pub fn data(stream_id: StreamId, payload: bytes::Bytes) -> (r: Self)
        ensures
            r@ == (PacketType::Data, stream_id, bytes_seq(payload)),
    {
        Packet { packet_type: PacketType::Data, stream_id, payload }
    }

    pub fn continue_packet(stream_id: StreamId, buffer_remaining: u32) -> (r: Self)
        ensures
            r@ == (PacketType::Continue, stream_id, le_u32_bytes(buffer_remaining)),
    {
        let mut payload: Vec<u8> = Vec::new();
        push_u32_le(&mut payload, buffer_remaining);
        assert(payload@ == le_u32_bytes(buffer_remaining));
        Packet { packet_type: PacketType::Continue, stream_id, payload: bytes_from_vec(payload) }
    }

    pub fn close(stream_id: StreamId, reason: u8) -> (r: Self)
        ensures
            r@ == (PacketType::Close, stream_id, seq![reason]),
    {
        let mut payload: Vec<u8> = Vec::new();
        payload.push(reason);
        Packet { packet_type: PacketType::Close, stream_id, payload: bytes_from_vec(payload) }
    }

    pub fn info(stream_id: StreamId, major: u8, minor: u8, extensions: &[u8]) -> (r: Self)
        ensures
            r@ == (PacketType::Info, stream_id, seq![major, minor] + extensions@),
    {
        let mut payload: Vec<u8> = Vec::new();
        payload.push(major);
        payload.push(minor);
        push_slice(&mut payload, extensions);
        assert(payload@ == seq![major, minor] + extensions@);
        Packet { packet_type: PacketType::Info, stream_id, payload: bytes_from_vec(payload) }
    }
}

/// Reading the four little-endian bytes of `x` gives `x` back, and writing
/// the value of four bytes gives those bytes back.
pub proof fn lemma_le_u32_roundtrip(x: u32, b0: u8, b1: u8, b2: u8, b3: u8)
    ensures
        le_u32_at(le_u32_bytes(x), 0) == x,
        le_u32_bytes(le_u32_value(b0, b1, b2, b3) as u32) == seq![b0, b1, b2, b3],
{
    let s = le_u32_bytes(x);
    assert(le_u32_value(s[0], s[1], s[2], s[3]) == x) by (nonlinear_arith)
        requires
            s[0] == x % 256,
            s[1] == (x / 256) % 256,
            s[2] == (x / 65536) % 256,
            s[3] == x / 16777216,
            0 <= x < 0x1_0000_0000,
    ;
    let v = le_u32_value(b0, b1, b2, b3);
    assert(0 <= v < 0x1_0000_0000);
    let y = v as u32;
    assert(y % 256 == b0 && (y / 256) % 256 == b1 && (y / 65536) % 256 == b2 && y / 16777216 == b3)
        by (nonlinear_arith)
        requires
            y == b0 + 256 * b1 + 65536 * b2 + 16777216 * b3,
            0 <= b0 < 256,
            0 <= b1 < 256,
            0 <= b2 < 256,
            0 <= b3 < 256,
    ;
    assert(le_u32_bytes(y) =~= seq![b0, b1, b2, b3]);
}

/// Decoding the wire bytes of a packet gives the packet back.
pub proof fn lemma_decode_encode(t: PacketType, stream_id: u32, payload: Seq<u8>)
    ensures
        decode_packet(encode_packet(t, stream_id, payload)) == Ok::<(PacketType, u32, Seq<u8>), WispError>((t, stream_id, payload)),
{
    let s = encode_packet(t, stream_id, payload);
    lemma_le_u32_roundtrip(stream_id, 0, 0, 0, 0);
    assert(s.subrange(5, s.len() as int) =~= payload);
    assert(s[1] == le_u32_bytes(stream_id)[0]);
    assert(s[2] == le_u32_bytes(stream_id)[1]);
    assert(s[3] == le_u32_bytes(stream_id)[2]);
    assert(s[4] == le_u32_bytes(stream_id)[3]);
}

/// A frame that decodes to a packet is exactly that packet's wire bytes.
pub proof fn lemma_encode_decode(s: Seq<u8>)
    requires
        decode_packet(s) is Ok,
    ensures
        ({
            let (t, stream_id, payload) = decode_packet(s)->Ok_0;
            encode_packet(t, stream_id, payload) == s
        }),
{
    let (t, stream_id, payload) = decode_packet(s)->Ok_0;
    lemma_le_u32_roundtrip(0, s[1], s[2], s[3], s[4]);
    assert(le_u32_bytes(stream_id) == seq![s[1], s[2], s[3], s[4]]);
    assert(encode_packet(t, stream_id, payload) =~= s);
}

} // verus!
