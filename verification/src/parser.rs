//! Ethernet frames, IPv4 packets, TCP segments and UDP datagrams, read from raw bytes.

use crate::error::SnifferError;
use crate::text;
use vstd::prelude::*;
use vstd::slice::slice_subrange;
use vstd::string::*;

verus! {

/// The EtherType of IPv4.
pub const ETHER_TYPE_IPV4: u16 = 0x0800;

/// The EtherType of IPv6.
pub const ETHER_TYPE_IPV6: u16 = 0x86DD;

/// The EtherType of ARP.
pub const ETHER_TYPE_ARP: u16 = 0x0806;

/// The IPv4 protocol number of TCP.
pub const PROTOCOL_TCP: u8 = 6;

/// The IPv4 protocol number of UDP.
pub const PROTOCOL_UDP: u8 = 17;

/// Layer 2: an Ethernet II frame.
#[derive(Debug)]
pub struct EthernetFrame<'a> {
    pub src_mac: String,
    pub dest_mac: String,
    pub payload: IpProtocol<'a>,
}

/// Layer 3: what the frame carries.
#[derive(Debug)]
pub enum IpProtocol<'a> {
    Ipv4(Ipv4Packet<'a>),
    Ipv6,
    Arp,
    /// Anything else, with its EtherType.
    Unknown(u16),
}

/// An IPv4 packet.
#[derive(Debug)]
pub struct Ipv4Packet<'a> {
    pub src_ip: String,
    pub dest_ip: String,
    pub protocol: u8,
    pub transport: TransportProtocol<'a>,
}

/// Layer 4: what the IPv4 packet carries.
#[derive(Debug)]
pub enum TransportProtocol<'a> {
    Tcp(TcpHeader<'a>),
    Udp(UdpHeader<'a>),
    /// Anything else, with the bytes behind the IPv4 header.
    Unknown(&'a [u8]),
}

/// A TCP header and the bytes behind it.
#[derive(Debug)]
pub struct TcpHeader<'a> {
    pub src_port: u16,
    pub dest_port: u16,
    pub seq: u32,
    pub ack_num: u32,
    pub flags: TcpFlags,
    pub payload: &'a [u8],
}

/// A UDP header and the bytes behind it.
#[derive(Debug)]
pub struct UdpHeader<'a> {
    pub src_port: u16,
    pub dest_port: u16,
    pub len: u16,
    pub payload: &'a [u8],
}

/// The control bits of a TCP header.
#[derive(Debug, Clone, Copy)]
pub struct TcpFlags {
    pub syn: bool,
    pub ack: bool,
    pub fin: bool,
    pub rst: bool,
    pub psh: bool,
    pub urg: bool,
}

/// The mathematical content of a [`TcpHeader`].
pub struct TcpModel {
    pub src_port: u16,
    pub dest_port: u16,
    pub seq: u32,
    pub ack_num: u32,
    pub flags: TcpFlags,
    pub payload: Seq<u8>,
}

/// The mathematical content of a [`UdpHeader`].
pub struct UdpModel {
    pub src_port: u16,
    pub dest_port: u16,
    pub len: u16,
    pub payload: Seq<u8>,
}

/// The mathematical content of a [`TransportProtocol`].
pub enum TransportModel {
    Tcp(TcpModel),
    Udp(UdpModel),
    Unknown(Seq<u8>),
}

/// The mathematical content of an [`Ipv4Packet`].
pub struct Ipv4Model {
    pub src_ip: Seq<char>,
    pub dest_ip: Seq<char>,
    pub protocol: u8,
    pub transport: TransportModel,
}

/// The mathematical content of an [`IpProtocol`].
pub enum IpModel {
    Ipv4(Ipv4Model),
    Ipv6,
    Arp,
    Unknown(u16),
}

/// The mathematical content of an [`EthernetFrame`].
pub struct FrameModel {
    pub src_mac: Seq<char>,
    pub dest_mac: Seq<char>,
    pub payload: IpModel,
}

impl<'a> View for TcpHeader<'a> {
    type V = TcpModel;

    open spec fn view(&self) -> TcpModel {
        TcpModel {
            src_port: self.src_port,
            dest_port: self.dest_port,
            seq: self.seq,
            ack_num: self.ack_num,
            flags: self.flags,
            payload: self.payload@,
        }
    }
}

impl<'a> View for UdpHeader<'a> {
    type V = UdpModel;

    open spec fn view(&self) -> UdpModel {
        UdpModel {
            src_port: self.src_port,
            dest_port: self.dest_port,
            len: self.len,
            payload: self.payload@,
        }
    }
}

impl<'a> View for TransportProtocol<'a> {
    type V = TransportModel;

    open spec fn view(&self) -> TransportModel {
        match self {
            TransportProtocol::Tcp(tcp) => TransportModel::Tcp(tcp@),
            TransportProtocol::Udp(udp) => TransportModel::Udp(udp@),
            TransportProtocol::Unknown(raw) => TransportModel::Unknown(raw@),
        }
    }
}

impl<'a> View for Ipv4Packet<'a> {
    type V = Ipv4Model;

    open spec fn view(&self) -> Ipv4Model {
        Ipv4Model {
            src_ip: self.src_ip@,
            dest_ip: self.dest_ip@,
            protocol: self.protocol,
            transport: self.transport@,
        }
    }
}

impl<'a> View for IpProtocol<'a> {
    type V = IpModel;

    open spec fn view(&self) -> IpModel {
        match self {
            IpProtocol::Ipv4(ip) => IpModel::Ipv4(ip@),
            IpProtocol::Ipv6 => IpModel::Ipv6,
            IpProtocol::Arp => IpModel::Arp,
            IpProtocol::Unknown(ether_type) => IpModel::Unknown(*ether_type),
        }
    }
}

impl<'a> View for EthernetFrame<'a> {
    type V = FrameModel;

    open spec fn view(&self) -> FrameModel {
        FrameModel {
            src_mac: self.src_mac@,
            dest_mac: self.dest_mac@,
            payload: self.payload@,
        }
    }
}

/// The big-endian 16-bit number at offset `i`.
pub open spec fn be16_at(s: Seq<u8>, i: int) -> u16 {
    (s[i] * 256 + s[i + 1]) as u16
}

/// The big-endian 32-bit number at offset `i`.
pub open spec fn be32_at(s: Seq<u8>, i: int) -> u32 {
    (s[i] * 0x1000000 + s[i + 1] * 0x10000 + s[i + 2] * 0x100 + s[i + 3]) as u32
}

/// Whether the bit of weight `weight`, a power of two, is set in `b`.
pub open spec fn has_bit(b: u8, weight: int) -> bool {
    (b as int / weight) % 2 == 1
}

/// The control bits in the fourteenth byte of a TCP header.
pub open spec fn flags_of(b: u8) -> TcpFlags {
    TcpFlags {
        syn: has_bit(b, 2),
        ack: has_bit(b, 16),
        fin: has_bit(b, 1),
        rst: has_bit(b, 4),
        psh: has_bit(b, 8),
        urg: has_bit(b, 32),
    }
}

/// The length of a TCP header in bytes, as the header's high nibble gives it in words.
pub open spec fn tcp_header_len(data: Seq<u8>) -> int {
    (data[12] as int / 16) * 4
}

/// The length of an IPv4 header in bytes, as the header's low nibble gives it in words.
pub open spec fn ipv4_header_len(data: Seq<u8>) -> int {
    (data[0] as int % 16) * 4
}

/// The TCP segment in `data`, where `data` holds a whole TCP header.
pub open spec fn tcp_of(data: Seq<u8>) -> Option<TcpModel> {
    if data.len() < 20 || data.len() < tcp_header_len(data) {
        None
    } else {
        Some(
            TcpModel {
                src_port: be16_at(data, 0),
                dest_port: be16_at(data, 2),
                seq: be32_at(data, 4),
                ack_num: be32_at(data, 8),
                flags: flags_of(data[13]),
                payload: data.skip(tcp_header_len(data)),
            },
        )
    }
}

/// The UDP datagram in `data`, where `data` holds a whole UDP header.
pub open spec fn udp_of(data: Seq<u8>) -> Option<UdpModel> {
    if data.len() < 8 {
        None
    } else {
        Some(
            UdpModel {
                src_port: be16_at(data, 0),
                dest_port: be16_at(data, 2),
                len: be16_at(data, 4),
                payload: data.skip(8),
            },
        )
    }
}

/// What `data` carries under an IPv4 protocol number: a TCP segment or a UDP datagram where
/// the number says so and the header is whole, and else the bytes as they are.
pub open spec fn transport_of(protocol: u8, data: Seq<u8>) -> TransportModel {
    if protocol == PROTOCOL_TCP && tcp_of(data) is Some {
        TransportModel::Tcp(tcp_of(data)->0)
    } else if protocol == PROTOCOL_UDP && udp_of(data) is Some {
        TransportModel::Udp(udp_of(data)->0)
    } else {
        TransportModel::Unknown(data)
    }
}

/// Four bytes as a dotted IPv4 address.
pub open spec fn ip_text(a: u8, b: u8, c: u8, d: u8) -> Seq<char> {
    text::decimal(a as nat) + "."@ + text::decimal(b as nat) + "."@ + text::decimal(c as nat) + "."@ + text::decimal(
        d as nat,
    )
}

/// The IPv4 packet in `data`, where `data` holds a whole IPv4 header.
pub open spec fn ipv4_of(data: Seq<u8>) -> Option<Ipv4Model> {
    if data.len() < 20 || data.len() < ipv4_header_len(data) {
        None
    } else {
        Some(
            Ipv4Model {
                src_ip: ip_text(data[12], data[13], data[14], data[15]),
                dest_ip: ip_text(data[16], data[17], data[18], data[19]),
                protocol: data[9],
                transport: transport_of(data[9], data.skip(ipv4_header_len(data))),
            },
        )
    }
}

/// Bytes in hexadecimal with colons between them.
pub open spec fn mac_text(bytes: Seq<u8>) -> Seq<char>
    decreases bytes.len(),
{
    if bytes.len() == 0 {
        Seq::empty()
    } else if bytes.len() == 1 {
        text::hex_byte(bytes[0])
    } else {
        mac_text(bytes.drop_last()) + ":"@ + text::hex_byte(bytes.last())
    }
}

/// The EtherType field of a frame.
pub open spec fn ether_type_of(packet: Seq<u8>) -> u16 {
    be16_at(packet, 12)
}

/// What a frame carries behind its 14 header bytes. An IPv4 packet whose header is not whole
/// is carried as unknown, with the EtherType of IPv4.
pub open spec fn ip_of(packet: Seq<u8>) -> IpModel {
    let ether_type = ether_type_of(packet);
    if ether_type == ETHER_TYPE_IPV4 && ipv4_of(packet.skip(14)) is Some {
        IpModel::Ipv4(ipv4_of(packet.skip(14))->0)
    } else if ether_type == ETHER_TYPE_IPV6 {
        IpModel::Ipv6
    } else if ether_type == ETHER_TYPE_ARP {
        IpModel::Arp
    } else {
        IpModel::Unknown(ether_type)
    }
}

/// The frame in `packet`, where `packet` holds a whole Ethernet header.
pub open spec fn frame_of(packet: Seq<u8>) -> Option<FrameModel> {
    if packet.len() < 14 {
        None
    } else {
        Some(
            FrameModel {
                src_mac: mac_text(packet.subrange(6, 12)),
                dest_mac: mac_text(packet.subrange(0, 6)),
                payload: ip_of(packet),
            },
        )
    }
}

/// The number of two big-endian bytes.
fn be16(hi: u8, lo: u8) -> (n: u16)
    ensures
        n == hi * 256 + lo,
{
    hi as u16 * 256 + lo as u16
}

/// The number of four big-endian bytes.
fn be32(a: u8, b: u8, c: u8, d: u8) -> (n: u32)
    ensures
        n == a * 0x1000000 + b * 0x10000 + c * 0x100 + d,
{
    a as u32 * 0x1000000 + b as u32 * 0x10000 + c as u32 * 0x100 + d as u32
}

/// Six bytes as a MAC address: two upper-case hexadecimal digits each, colons between them.
pub fn format_mac(bytes: &[u8; 6]) -> (s: String)
    ensures
        s@ == mac_text(bytes@),
{
    let mut s = String::new();
    let mut i: usize = 0;
    proof {
        assert(bytes@.take(0) =~= Seq::<u8>::empty());
    }
    while i < 6
        invariant
            0 <= i <= 6,
            bytes@.len() == 6,
            s@ == mac_text(bytes@.take(i as int)),
        decreases 6 - i,
    {
        let ghost before = bytes@.take(i as int);
        let ghost after = bytes@.take(i + 1);
        proof {
            assert(after.drop_last() =~= before);
            assert(after.last() == bytes@[i as int]);
            text::padded_byte_is_hex_byte(bytes@[i as int]);
        }
        if i > 0 {
            s.append(":");
        }
        text::push_padded_hex(&mut s, bytes[i] as u64, 2);
        assert(s@ =~= mac_text(after));
        i = i + 1;
    }
    assert(bytes@.take(6) =~= bytes@);
    s
}

/// Four bytes as a dotted IPv4 address.
fn format_ip(a: u8, b: u8, c: u8, d: u8) -> (s: String)
    ensures
        s@ == ip_text(a, b, c, d),
{
    let mut s = String::new();
    text::push_decimal(&mut s, a as u64);
    s.append(".");
    text::push_decimal(&mut s, b as u64);
    s.append(".");
    text::push_decimal(&mut s, c as u64);
    s.append(".");
    text::push_decimal(&mut s, d as u64);
    assert(s@ =~= ip_text(a, b, c, d));
    s
}

/// Reads an Ethernet frame. It fails only where the 14 header bytes are not all there.
pub fn parse_ethernet(packet_data: &[u8]) -> (frame: Result<EthernetFrame<'_>, SnifferError>)
    ensures
        match frame {
            Ok(frame) => frame_of(packet_data@) == Some(frame@),
            Err(e) => frame_of(packet_data@) is None && e is InvalidLength,
        },
{
    if packet_data.len() < 14 {
        return Err(SnifferError::InvalidLength);
    }
    let dest_mac_bytes: [u8; 6] = [
        packet_data[0],
        packet_data[1],
        packet_data[2],
        packet_data[3],
        packet_data[4],
        packet_data[5],
    ];
    let src_mac_bytes: [u8; 6] = [
        packet_data[6],
        packet_data[7],
        packet_data[8],
        packet_data[9],
        packet_data[10],
        packet_data[11],
    ];
    let ether_type: u16 = be16(packet_data[12], packet_data[13]);
    let payload = match ether_type {
        ETHER_TYPE_IPV4 => {
            let rest = slice_subrange(packet_data, 14, packet_data.len());
            assert(rest@ =~= packet_data@.skip(14));
            match parse_ipv4(rest) {
                Ok(ipv4) => IpProtocol::Ipv4(ipv4),
                Err(_) => IpProtocol::Unknown(ETHER_TYPE_IPV4),
            }
        },
        ETHER_TYPE_IPV6 => IpProtocol::Ipv6,
        ETHER_TYPE_ARP => IpProtocol::Arp,
        _ => IpProtocol::Unknown(ether_type),
    };
    proof {
        assert(dest_mac_bytes@ =~= packet_data@.subrange(0, 6));
        assert(src_mac_bytes@ =~= packet_data@.subrange(6, 12));
        assert(payload@ == ip_of(packet_data@));
    }
    Ok(
        EthernetFrame {
            src_mac: format_mac(&src_mac_bytes),
            dest_mac: format_mac(&dest_mac_bytes),
            payload,
        },
    )
}

/// Reads an IPv4 packet. It fails only where the header, as long as its low nibble says and at
/// least 20 bytes, is not all there.
pub fn parse_ipv4(data: &[u8]) -> (packet: Result<Ipv4Packet<'_>, SnifferError>)
    ensures
        match packet {
            Ok(packet) => ipv4_of(data@) == Some(packet@),
            Err(e) => ipv4_of(data@) is None && e is InvalidLength,
        },
{
    if data.len() < 20 {
        return Err(SnifferError::InvalidLength);
    }
    let protocol: u8 = data[9];
    let src_ip = format_ip(data[12], data[13], data[14], data[15]);
    let dest_ip = format_ip(data[16], data[17], data[18], data[19]);
    let first: u8 = data[0];
    assert(first & 0x0F == first % 16) by (bit_vector);
    let ihl: usize = (first & 0x0F) as usize * 4;
    if data.len() < ihl {
        return Err(SnifferError::InvalidLength);
    }
    let raw_payload = slice_subrange(data, ihl, data.len());
    assert(raw_payload@ =~= data@.skip(ipv4_header_len(data@)));
    let transport = match protocol {
        PROTOCOL_TCP => match parse_tcp(raw_payload) {
            Ok(transport) => transport,
            Err(_) => TransportProtocol::Unknown(raw_payload),
        },
        PROTOCOL_UDP => match parse_udp(raw_payload) {
            Ok(transport) => transport,
            Err(_) => TransportProtocol::Unknown(raw_payload),
        },
        _ => TransportProtocol::Unknown(raw_payload),
    };
    Ok(Ipv4Packet { src_ip, dest_ip, protocol, transport })
}

/// The control bits in a byte of flags.
fn read_flags(flags_byte: u8) -> (flags: TcpFlags)
    ensures
        flags == flags_of(flags_byte),
{
    assert(((flags_byte & 0x01) != 0) == ((flags_byte / 1) % 2 == 1)) by (bit_vector);
    assert(((flags_byte & 0x02) != 0) == ((flags_byte / 2) % 2 == 1)) by (bit_vector);
    assert(((flags_byte & 0x04) != 0) == ((flags_byte / 4) % 2 == 1)) by (bit_vector);
    assert(((flags_byte & 0x08) != 0) == ((flags_byte / 8) % 2 == 1)) by (bit_vector);
    assert(((flags_byte & 0x10) != 0) == ((flags_byte / 16) % 2 == 1)) by (bit_vector);
    assert(((flags_byte & 0x20) != 0) == ((flags_byte / 32) % 2 == 1)) by (bit_vector);
    TcpFlags {
        fin: (flags_byte & 0x01) != 0,
        syn: (flags_byte & 0x02) != 0,
        rst: (flags_byte & 0x04) != 0,
        psh: (flags_byte & 0x08) != 0,
        ack: (flags_byte & 0x10) != 0,
        urg: (flags_byte & 0x20) != 0,
    }
}

/// Reads a TCP segment. It fails only where the header, as long as its data offset says and at
/// least 20 bytes, is not all there.
pub fn parse_tcp(data: &[u8]) -> (segment: Result<TransportProtocol<'_>, SnifferError>)
    ensures
        match segment {
            Ok(segment) => tcp_of(data@) is Some && segment@ == TransportModel::Tcp(
                tcp_of(data@)->0,
            ),
            Err(e) => tcp_of(data@) is None && e is InvalidLength,
        },
{
    if data.len() < 20 {
        return Err(SnifferError::InvalidLength);
    }
    let src_port: u16 = be16(data[0], data[1]);
    let dest_port: u16 = be16(data[2], data[3]);
    let seq: u32 = be32(data[4], data[5], data[6], data[7]);
    let ack_num: u32 = be32(data[8], data[9], data[10], data[11]);
    let offset_byte: u8 = data[12];
    assert((offset_byte >> 4) & 0x0F == offset_byte / 16) by (bit_vector);
    let data_offset: usize = ((offset_byte >> 4) & 0x0F) as usize * 4;
    if data.len() < data_offset {
        return Err(SnifferError::InvalidLength);
    }
    let flags = read_flags(data[13]);
    let payload = slice_subrange(data, data_offset, data.len());
    assert(payload@ =~= data@.skip(tcp_header_len(data@)));
    Ok(TransportProtocol::Tcp(TcpHeader { src_port, dest_port, seq, ack_num, flags, payload }))
}

/// Reads a UDP datagram. It fails only where the 8 header bytes are not all there.
pub fn parse_udp(data: &[u8]) -> (datagram: Result<TransportProtocol<'_>, SnifferError>)
    ensures
        match datagram {
            Ok(datagram) => udp_of(data@) is Some && datagram@ == TransportModel::Udp(
                udp_of(data@)->0,
            ),
            Err(e) => udp_of(data@) is None && e is InvalidLength,
        },
{
    if data.len() < 8 {
        return Err(SnifferError::InvalidLength);
    }
    let src_port: u16 = be16(data[0], data[1]);
    let dest_port: u16 = be16(data[2], data[3]);
    let len: u16 = be16(data[4], data[5]);
    let payload = slice_subrange(data, 8, data.len());
    assert(payload@ =~= data@.skip(8));
    Ok(TransportProtocol::Udp(UdpHeader { src_port, dest_port, len, payload }))
}

} // verus!
