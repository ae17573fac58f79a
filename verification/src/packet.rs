//! Frame decoder and classifier.
//!
//! A captured link-layer frame is an opaque byte buffer. Decoding reads
//! fixed offsets only: bytes 0..14 are the Ethernet header region, bytes
//! 14..18 and 18..22 the IPv4 source and destination addresses, bytes
//! 34..38 the transport source and destination ports (big-endian), and
//! everything from byte 54 on is the payload. A buffer shorter than 54
//! bytes is rejected with a length error; nothing is read out of bounds.
//!
//! Classification (direction and protocol) is a pure function of byte 0
//! of the raw buffer: `0x00` gives Send/TCP, `0x01` gives Receive/UDP,
//! and every other value gives Both/Unknown.

use vstd::prelude::*;
use vstd::slice::slice_subrange;
use vstd::slice::slice_to_vec;

verus! {

/// The smallest raw buffer that can be decoded: 14 Ethernet bytes,
/// 20 IPv4 header bytes, and the 20-byte transport header region whose
/// first 4 bytes hold the two ports.
pub const MIN_FRAME_LEN: usize = 54;

/// Traffic direction assigned to one decoded frame.
#[derive(Clone, Copy, Debug, PartialEq, Eq, Structural)]
pub enum PacketDirection {
    Send,
    Receive,
    Both,
}

/// Coarse transport-protocol tag assigned to one decoded frame.
#[derive(Clone, Copy, Debug, PartialEq, Eq, Structural)]
pub enum Protocol {
    TCP,
    UDP,
    Unknown,
}

/// The two IPv4 addresses read from the fixed IP-header region.
pub struct IpHeader {
    pub src_ip: [u8; 4],
    pub dst_ip: [u8; 4],
}

/// Why a raw buffer could not be decoded.
#[derive(Clone, Copy, Debug, PartialEq, Eq, Structural)]
pub enum DecodeError {
    /// The buffer holds fewer than [`MIN_FRAME_LEN`] bytes, so the fixed
    /// field offsets would lie outside it.
    FrameTooShort,
}

/// One decoded frame: the structured, immutable result of `decode`.
#[derive(Debug)]
pub struct Packet {
    pub direction: PacketDirection,
    pub protocol: Protocol,
    pub src_ip: [u8; 4],
    pub src_port: u16,
    pub dst_ip: [u8; 4],
    pub dst_port: u16,
    pub payload: Vec<u8>,
}

/// Direction assigned to a frame whose leading byte is `b`.
pub open spec fn spec_direction_of(b: u8) -> PacketDirection {
    if b == 0x00 {
        PacketDirection::Send
    } else if b == 0x01 {
        PacketDirection::Receive
    } else {
        PacketDirection::Both
    }
}

/// Protocol assigned to a frame whose leading byte is `b`.
pub open spec fn spec_protocol_of(b: u8) -> Protocol {
    if b == 0x00 {
        Protocol::TCP
    } else if b == 0x01 {
        Protocol::UDP
    } else {
        Protocol::Unknown
    }
}

/// The big-endian (network byte order) reading of two bytes.
pub open spec fn spec_be16(hi: u8, lo: u8) -> u16 {
    (hi as int * 256 + lo as int) as u16
}

/// What every field of a record decoded from `raw` must be.
pub open spec fn spec_packet_of(raw: Seq<u8>, p: Packet) -> bool
    recommends
        raw.len() >= MIN_FRAME_LEN,
{
    &&& p.direction == spec_direction_of(raw[0])
    &&& p.protocol == spec_protocol_of(raw[0])
    &&& p.src_ip@ == raw.subrange(14, 18)
    &&& p.dst_ip@ == raw.subrange(18, 22)
    &&& p.src_port == spec_be16(raw[34], raw[35])
    &&& p.dst_port == spec_be16(raw[36], raw[37])
    &&& p.payload@ == raw.subrange(54, raw.len() as int)
}

impl Packet {
    /// Builds a record directly from already-extracted fields.
    pub fn new(
        direction: PacketDirection,
        protocol: Protocol,
        src_ip: [u8; 4],
        src_port: u16,
        dst_ip: [u8; 4],
        dst_port: u16,
        payload: Vec<u8>,
    ) -> (p: Packet)
        ensures
            p.direction == direction,
            p.protocol == protocol,
            p.src_ip == src_ip,
            p.src_port == src_port,
            p.dst_ip == dst_ip,
            p.dst_port == dst_port,
            p.payload == payload,
    {
        Packet { direction, protocol, src_ip, src_port, dst_ip, dst_port, payload }
    }

    /// Decodes one raw frame, rejecting buffers too short for the fixed
    /// field offsets instead of reading out of bounds.
    pub fn decode(packet: &[u8]) -> (result: Result<Packet, DecodeError>)
        ensures
            result is Ok <==> packet@.len() >= MIN_FRAME_LEN,
            result matches Ok(p) ==> spec_packet_of(packet@, p) && p.payload@.len() == packet@.len()
                - 54,
            result matches Err(e) ==> e == DecodeError::FrameTooShort,
    {
        if packet.len() < MIN_FRAME_LEN {
            Err(DecodeError::FrameTooShort)
        } else {
            Ok(Self::from_ethernet(packet))
        }
    }

    /// Decodes a raw frame already known to be long enough.
    pub fn from_ethernet(packet: &[u8]) -> (p: Packet)
        requires
            packet@.len() >= MIN_FRAME_LEN,
        ensures
            spec_packet_of(packet@, p),
    {
        let ip_header = Self::parse_ip_header(packet);
        let tcp_header = Self::parse_tcp_header(packet);

        Packet {
            direction: Self::parse_direction(packet),
            protocol: Self::parse_protocol(packet),
            src_ip: ip_header.src_ip,
            src_port: (tcp_header[0] as u16) * 256 + (tcp_header[1] as u16),
            dst_ip: ip_header.dst_ip,
            dst_port: (tcp_header[2] as u16) * 256 + (tcp_header[3] as u16),
            payload: Self::parse_payload(packet),
        }
    }

    /// Copies the 20-byte transport header region at offset 34.
    pub fn parse_udp_header(packet: &[u8]) -> (header: [u8; 20])
        requires
            packet@.len() >= 54,
        ensures
            header@ == packet@.subrange(34, 54),
    {
        let header = [
            packet[34], packet[35], packet[36], packet[37], packet[38],
            packet[39], packet[40], packet[41], packet[42], packet[43],
            packet[44], packet[45], packet[46], packet[47], packet[48],
            packet[49], packet[50], packet[51], packet[52], packet[53],
        ];
        proof {
            assert(header@ =~= packet@.subrange(34, 54));
        }
        header
    }

    /// Copies the 4 port bytes at offset 34: source port first, then
    /// destination port, both big-endian.
    pub fn parse_tcp_header(packet: &[u8]) -> (header: [u8; 4])
        requires
            packet@.len() >= 38,
        ensures
            header@ == packet@.subrange(34, 38),
    {
        let header = [packet[34], packet[35], packet[36], packet[37]];
        proof {
            assert(header@ =~= packet@.subrange(34, 38));
        }
        header
    }

    /// Classifies traffic direction from byte 0 of the raw buffer.
    pub fn parse_direction(packet: &[u8]) -> (direction: PacketDirection)
        requires
            packet@.len() >= 1,
        ensures
            direction == spec_direction_of(packet@[0]),
    {
        if packet[0] == 0x00 {
            PacketDirection::Send
        } else if packet[0] == 0x01 {
            PacketDirection::Receive
        } else {
            PacketDirection::Both
        }
    }

    /// Classifies the transport protocol from byte 0 of the raw buffer.
    pub fn parse_protocol(packet: &[u8]) -> (protocol: Protocol)
        requires
            packet@.len() >= 1,
        ensures
            protocol == spec_protocol_of(packet@[0]),
    {
        if packet[0] == 0x00 {
            Protocol::TCP
        } else if packet[0] == 0x01 {
            Protocol::UDP
        } else {
            Protocol::Unknown
        }
    }

    /// Copies the 14-byte Ethernet header region at offset 0.
    pub fn parse_ethernet_header(packet: &[u8]) -> (header: [u8; 14])
        requires
            packet@.len() >= 14,
        ensures
            header@ == packet@.subrange(0, 14),
    {
        let header = [
            packet[0], packet[1], packet[2], packet[3], packet[4], packet[5], packet[6],
            packet[7], packet[8], packet[9], packet[10], packet[11], packet[12], packet[13],
        ];
        proof {
            assert(header@ =~= packet@.subrange(0, 14));
        }
        header
    }

    /// Reads the two fixed-position IPv4 addresses: source at offset 14,
    /// destination at offset 18.
    pub fn parse_ip_header(packet: &[u8]) -> (header: IpHeader)
        requires
            packet@.len() >= 22,
        ensures
            header.src_ip@ == packet@.subrange(14, 18),
            header.dst_ip@ == packet@.subrange(18, 22),
    {
        let header = IpHeader {
            src_ip: [packet[14], packet[15], packet[16], packet[17]],
            dst_ip: [packet[18], packet[19], packet[20], packet[21]],
        };
        proof {
            assert(header.src_ip@ =~= packet@.subrange(14, 18));
            assert(header.dst_ip@ =~= packet@.subrange(18, 22));
        }
        header
    }

    /// Copies everything after the 54-byte header region.
    pub fn parse_payload(packet: &[u8]) -> (payload: Vec<u8>)
        requires
            packet@.len() >= 54,
        ensures
            payload@ == packet@.subrange(54, packet@.len() as int),
    {
        slice_to_vec(slice_subrange(packet, 54, packet.len()))
    }
}

/// Classification is a pure function of byte 0 of the raw buffer:
/// `0x00` always yields Send and TCP, `0x01` always yields Receive and
/// UDP, and every other value always yields Both and Unknown.
pub proof fn lemma_classification_pure(b: u8)
    ensures
        b == 0x00 ==> spec_direction_of(b) == PacketDirection::Send
            && spec_protocol_of(b) == Protocol::TCP,
        b == 0x01 ==> spec_direction_of(b) == PacketDirection::Receive
            && spec_protocol_of(b) == Protocol::UDP,
        b != 0x00 && b != 0x01 ==> spec_direction_of(b) == PacketDirection::Both
            && spec_protocol_of(b) == Protocol::Unknown,
{
}

/// Decoding is deterministic: any two records decoded from the same raw
/// buffer are structurally equal, field by field.
pub proof fn lemma_decode_deterministic(raw: Seq<u8>, p1: Packet, p2: Packet)
    requires
        raw.len() >= MIN_FRAME_LEN,
        spec_packet_of(raw, p1),
        spec_packet_of(raw, p2),
    ensures
        p1.direction == p2.direction,
        p1.protocol == p2.protocol,
        p1.src_ip == p2.src_ip,
        p1.dst_ip == p2.dst_ip,
        p1.src_port == p2.src_port,
        p1.dst_port == p2.dst_port,
        p1.payload@ == p2.payload@,
{
    assert(p1.src_ip =~= p2.src_ip);
    assert(p1.dst_ip =~= p2.dst_ip);
}

} // verus!
