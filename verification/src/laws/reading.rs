//! What is read of a frame, byte by byte.

use crate::parser;
use crate::text;
use vstd::prelude::*;

verus! {

/// A decimal numeral is one digit, or the numeral of the tenth part with one digit more.
pub proof fn decimal_is_written_digit_by_digit(n: nat)
    ensures
        n < 10 ==> text::decimal(n) == seq!["0123456789"@[n as int]],
        n >= 10 ==> text::decimal(n) == text::decimal(n / 10).push(
            "0123456789"@[(n % 10) as int],
        ),
{
    reveal_strlit("0123456789");
}

/// A hexadecimal numeral is one digit, or the numeral of the sixteenth part with one digit more.
pub proof fn hexadecimal_is_written_digit_by_digit(n: nat)
    ensures
        n < 16 ==> text::hex(n) == seq!["0123456789ABCDEF"@[n as int]],
        n >= 16 ==> text::hex(n) == text::hex(n / 16).push("0123456789ABCDEF"@[(n % 16) as int]),
{
    reveal_strlit("0123456789ABCDEF");
}

/// Padding puts zeros in front and nothing else, and no more than the width asks for.
pub proof fn padding_is_zeros_in_front(s: Seq<char>, width: nat)
    ensures
        ({
            let padded = text::zero_padded(s, width);
            let zeros = padded.len() - s.len();
            &&& padded.len() == if s.len() < width {
                width
            } else {
                s.len()
            }
            &&& padded.skip(zeros) == s
            &&& forall|i: int| 0 <= i < zeros ==> #[trigger] padded[i] == '0'
        }),
{
    let padded = text::zero_padded(s, width);
    assert(padded.skip(padded.len() - s.len()) =~= s);
}

/// The text of an address has two upper-case hexadecimal digits for each byte, the high one
/// first, and a colon between one byte and the next.
pub proof fn mac_text_is_hexadecimal_digits(bytes: Seq<u8>)
    requires
        bytes.len() > 0,
    ensures
        parser::mac_text(bytes).len() == 3 * bytes.len() - 1,
        forall|i: int|
            #![trigger bytes[i]]
            0 <= i < bytes.len() ==> {
                &&& parser::mac_text(bytes)[3 * i] == "0123456789ABCDEF"@[bytes[i] as int / 16]
                &&& parser::mac_text(bytes)[3 * i + 1] == "0123456789ABCDEF"@[bytes[i] as int % 16]
                &&& i + 1 < bytes.len() ==> parser::mac_text(bytes)[3 * i + 2] == ':'
            },
    decreases bytes.len(),
{
    reveal_strlit("0123456789ABCDEF");
    reveal_strlit(":");
    if bytes.len() > 1 {
        let front = bytes.drop_last();
        mac_text_is_hexadecimal_digits(front);
        assert forall|i: int|
            #![trigger bytes[i]]
            0 <= i < bytes.len() implies {
            &&& parser::mac_text(bytes)[3 * i] == "0123456789ABCDEF"@[bytes[i] as int / 16]
            &&& parser::mac_text(bytes)[3 * i + 1] == "0123456789ABCDEF"@[bytes[i] as int % 16]
            &&& i + 1 < bytes.len() ==> parser::mac_text(bytes)[3 * i + 2] == ':'
        } by {
            if i < front.len() {
                assert(front[i] == bytes[i]);
            }
        }
    }
}

/// A frame names its two ends: the destination is the text of its first six bytes, the source
/// that of the next six.
pub proof fn frame_names_its_ends(packet: Seq<u8>)
    requires
        packet.len() >= 14,
    ensures
        parser::frame_of(packet) matches Some(frame) && {
            &&& frame.dest_mac.len() == 17
            &&& frame.src_mac.len() == 17
            &&& forall|i: int|
                #![trigger packet[i]]
                0 <= i < 6 ==> {
                    &&& frame.dest_mac[3 * i] == "0123456789ABCDEF"@[packet[i] as int / 16]
                    &&& frame.dest_mac[3 * i + 1] == "0123456789ABCDEF"@[packet[i] as int % 16]
                    &&& i < 5 ==> frame.dest_mac[3 * i + 2] == ':'
                }
            &&& forall|i: int|
                #![trigger packet[6 + i]]
                0 <= i < 6 ==> {
                    &&& frame.src_mac[3 * i] == "0123456789ABCDEF"@[packet[6 + i] as int / 16]
                    &&& frame.src_mac[3 * i + 1] == "0123456789ABCDEF"@[packet[6 + i] as int % 16]
                    &&& i < 5 ==> frame.src_mac[3 * i + 2] == ':'
                }
        },
{
    let dest = packet.subrange(0, 6);
    let src = packet.subrange(6, 12);
    mac_text_is_hexadecimal_digits(dest);
    mac_text_is_hexadecimal_digits(src);
    assert(forall|i: int| #![trigger packet[i]] 0 <= i < 6 ==> dest[i] == packet[i]);
    assert(forall|i: int| #![trigger packet[6 + i]] 0 <= i < 6 ==> src[i] == packet[6 + i]);
}

/// The two bytes behind the addresses, and nothing else but the length of an IPv4 header, say
/// what a frame carries. A frame that announces IPv4 carries an IPv4 packet exactly where 20
/// bytes are there behind the Ethernet header, and as many words as the low half of the first of
/// them says.
pub proof fn ether_type_says_what_is_carried(packet: Seq<u8>)
    requires
        packet.len() >= 14,
    ensures
        ({
            let carried = parser::frame_of(packet)->0.payload;
            let ether_type = 256 * packet[12] + packet[13];
            let whole = packet.len() >= 34 && packet.len() - 14 >= 4 * (packet[14] as int % 16);
            &&& parser::frame_of(packet) is Some
            &&& carried is Ipv4 <==> ether_type == 0x0800 && whole
            &&& carried is Ipv6 <==> ether_type == 0x86DD
            &&& carried is Arp <==> ether_type == 0x0806
            &&& carried matches parser::IpModel::Unknown(announced) ==> announced == ether_type
        }),
{
    if packet.len() >= 34 {
        assert(packet.skip(14)[0] == packet[14]);
    }
}

/// The addresses of an IPv4 packet in a frame are the frame's bytes 26 to 29 and 30 to 33 in
/// dotted decimal, and its protocol is byte 23.
pub proof fn ipv4_packet_names_its_ends(packet: Seq<u8>)
    requires
        packet.len() >= 34,
        packet[12] == 0x08,
        packet[13] == 0x00,
        packet.len() - 14 >= 4 * (packet[14] as int % 16),
    ensures
        parser::frame_of(packet)->0.payload matches parser::IpModel::Ipv4(ip) && {
            &&& ip.src_ip == text::decimal(packet[26] as nat) + "."@ + text::decimal(
                packet[27] as nat,
            ) + "."@ + text::decimal(packet[28] as nat) + "."@ + text::decimal(packet[29] as nat)
            &&& ip.dest_ip == text::decimal(packet[30] as nat) + "."@ + text::decimal(
                packet[31] as nat,
            ) + "."@ + text::decimal(packet[32] as nat) + "."@ + text::decimal(packet[33] as nat)
            &&& ip.protocol == packet[23]
        },
{
    ether_type_says_what_is_carried(packet);
    let data = packet.skip(14);
    assert(forall|i: int| 0 <= i < 20 ==> data[i] == packet[14 + i]);
    assert(data[12] == packet[26] && data[13] == packet[27] && data[14] == packet[28] && data[15]
        == packet[29]);
    assert(data[16] == packet[30] && data[17] == packet[31] && data[18] == packet[32] && data[19]
        == packet[33]);
    assert(data[9] == packet[23]);
}

/// An IPv4 packet is read exactly where 20 bytes are there, and as many words as the low half of
/// the first byte says. Its addresses, its protocol and what lies behind its header are bytes of
/// it.
pub proof fn ipv4_packet_is_read_from_its_bytes(data: Seq<u8>)
    ensures
        parser::ipv4_of(data) is Some <==> data.len() >= 20 && data.len() >= 4 * (data[0] as int
            % 16),
        parser::ipv4_of(data) matches Some(ip) ==> {
            &&& ip.src_ip == text::decimal(data[12] as nat) + "."@ + text::decimal(
                data[13] as nat,
            ) + "."@ + text::decimal(data[14] as nat) + "."@ + text::decimal(data[15] as nat)
            &&& ip.dest_ip == text::decimal(data[16] as nat) + "."@ + text::decimal(
                data[17] as nat,
            ) + "."@ + text::decimal(data[18] as nat) + "."@ + text::decimal(data[19] as nat)
            &&& ip.protocol == data[9]
            &&& ip.transport is Unknown ==> (data[9] == 6 ==> parser::tcp_of(
                data.skip(4 * (data[0] as int % 16)),
            ) is None) && (data[9] == 17 ==> parser::udp_of(
                data.skip(4 * (data[0] as int % 16)),
            ) is None)
            &&& match ip.transport {
                parser::TransportModel::Tcp(tcp) => data[9] == 6 && Some(tcp) == parser::tcp_of(
                    data.skip(4 * (data[0] as int % 16)),
                ),
                parser::TransportModel::Udp(udp) => data[9] == 17 && Some(udp) == parser::udp_of(
                    data.skip(4 * (data[0] as int % 16)),
                ),
                parser::TransportModel::Unknown(raw) => raw == data.skip(
                    4 * (data[0] as int % 16),
                ),
            }
        },
{
    assert(parser::ipv4_header_len(data) == 4 * (data[0] as int % 16));
}

/// What an IPv4 packet in a frame carries is a TCP segment exactly under protocol 6 with a whole
/// TCP header, a UDP datagram exactly under protocol 17 with a whole UDP header, and otherwise
/// the rest of the frame as it is.
pub proof fn protocol_says_what_is_transported(packet: Seq<u8>)
    requires
        packet.len() >= 34,
        packet[12] == 0x08,
        packet[13] == 0x00,
        packet.len() - 14 >= 4 * (packet[14] as int % 16),
    ensures
        parser::frame_of(packet)->0.payload matches parser::IpModel::Ipv4(ip) && {
            let rest = packet.skip(14 + 4 * (packet[14] as int % 16));
            &&& ip.transport is Tcp <==> packet[23] == 6 && rest.len() >= 20 && rest.len() >= 4 * (
            rest[12] as int / 16)
            &&& ip.transport is Udp <==> packet[23] == 17 && rest.len() >= 8
            &&& match ip.transport {
                parser::TransportModel::Tcp(tcp) => Some(tcp) == parser::tcp_of(rest),
                parser::TransportModel::Udp(udp) => Some(udp) == parser::udp_of(rest),
                parser::TransportModel::Unknown(raw) => raw == rest,
            }
        },
{
    ether_type_says_what_is_carried(packet);
    let data = packet.skip(14);
    let n = 4 * (packet[14] as int % 16);
    assert(data[0] == packet[14] && data[9] == packet[23]);
    assert(data.skip(n) =~= packet.skip(14 + n));
    assert(parser::ipv4_header_len(data) == n);
}

/// A TCP segment is read exactly where 20 bytes are there, and as many words as the high half of
/// its thirteenth byte says. Its ports, numbers and flags are bits of its first 14 bytes.
pub proof fn tcp_segment_is_read_from_its_bytes(data: Seq<u8>)
    ensures
        parser::tcp_of(data) is Some <==> data.len() >= 20 && data.len() >= 4 * (data[12] as int
            / 16),
        parser::tcp_of(data) matches Some(tcp) ==> {
            &&& tcp.src_port == 256 * data[0] + data[1]
            &&& tcp.dest_port == 256 * data[2] + data[3]
            &&& tcp.seq == 16777216 * data[4] + 65536 * data[5] + 256 * data[6] + data[7]
            &&& tcp.ack_num == 16777216 * data[8] + 65536 * data[9] + 256 * data[10] + data[11]
            &&& tcp.flags.fin <==> (data[13] & 0x01) != 0
            &&& tcp.flags.syn <==> (data[13] & 0x02) != 0
            &&& tcp.flags.rst <==> (data[13] & 0x04) != 0
            &&& tcp.flags.psh <==> (data[13] & 0x08) != 0
            &&& tcp.flags.ack <==> (data[13] & 0x10) != 0
            &&& tcp.flags.urg <==> (data[13] & 0x20) != 0
        },
{
    let b = data[13];
    assert(((b & 0x01) != 0) == ((b / 1) % 2 == 1)) by (bit_vector);
    assert(((b & 0x02) != 0) == ((b / 2) % 2 == 1)) by (bit_vector);
    assert(((b & 0x04) != 0) == ((b / 4) % 2 == 1)) by (bit_vector);
    assert(((b & 0x08) != 0) == ((b / 8) % 2 == 1)) by (bit_vector);
    assert(((b & 0x10) != 0) == ((b / 16) % 2 == 1)) by (bit_vector);
    assert(((b & 0x20) != 0) == ((b / 32) % 2 == 1)) by (bit_vector);
}

/// The payload of a TCP segment is its end, without the four bytes for each of the words that
/// the high half of the thirteenth byte counts.
pub proof fn tcp_payload_is_the_end_of_the_segment(data: Seq<u8>)
    requires
        data.len() >= 20,
        4 * (data[12] as int / 16) <= data.len(),
    ensures
        parser::tcp_of(data) matches Some(tcp) && {
            &&& tcp.payload.len() == data.len() - 4 * (data[12] as int / 16)
            &&& forall|i: int|
                0 <= i < tcp.payload.len() ==> #[trigger] tcp.payload[i] == data[data.len()
                    - tcp.payload.len() + i]
        },
{
    assert(parser::tcp_header_len(data) == 4 * (data[12] as int / 16));
}

/// A TCP segment that was put together is taken apart again: whatever the header holds, options
/// included, what was put behind it is the payload.
pub proof fn tcp_payload_comes_back(header: Seq<u8>, payload: Seq<u8>)
    requires
        header.len() >= 20,
        header.len() == 4 * (header[12] as int / 16),
    ensures
        parser::tcp_of(header + payload) matches Some(tcp) && tcp.payload == payload,
{
    let data = header + payload;
    assert(data[12] == header[12]);
    assert(data.skip(header.len() as int) =~= payload);
    assert(parser::tcp_header_len(data) == header.len());
}

/// A UDP datagram is read exactly where 8 bytes are there. Its ports and its length are bits of
/// the first six, and its payload is all that lies behind the eighth.
pub proof fn udp_datagram_is_read_from_its_bytes(data: Seq<u8>)
    ensures
        parser::udp_of(data) is Some <==> data.len() >= 8,
        parser::udp_of(data) matches Some(udp) ==> {
            &&& udp.src_port == 256 * data[0] + data[1]
            &&& udp.dest_port == 256 * data[2] + data[3]
            &&& udp.len == 256 * data[4] + data[5]
            &&& udp.payload.len() == data.len() - 8
            &&& forall|i: int|
                0 <= i < udp.payload.len() ==> #[trigger] udp.payload[i] == data[8 + i]
        },
{
}

/// The mathematical content of what was read holds every field under its own name.
pub proof fn contents_hold_every_field(
    frame: parser::EthernetFrame<'_>,
    ip: parser::Ipv4Packet<'_>,
    tcp: parser::TcpHeader<'_>,
    udp: parser::UdpHeader<'_>,
)
    ensures
        frame@.src_mac == frame.src_mac@,
        frame@.dest_mac == frame.dest_mac@,
        frame@.payload == frame.payload@,
        ip@.src_ip == ip.src_ip@,
        ip@.dest_ip == ip.dest_ip@,
        ip@.protocol == ip.protocol,
        ip@.transport == ip.transport@,
        tcp@.src_port == tcp.src_port,
        tcp@.dest_port == tcp.dest_port,
        tcp@.seq == tcp.seq,
        tcp@.ack_num == tcp.ack_num,
        tcp@.flags == tcp.flags,
        tcp@.payload == tcp.payload@,
        udp@.src_port == udp.src_port,
        udp@.dest_port == udp.dest_port,
        udp@.len == udp.len,
        udp@.payload == udp.payload@,
{
}

/// The mathematical content of a layer tells its kinds apart as the layer does.
pub proof fn contents_keep_the_kind(
    network: parser::IpProtocol<'_>,
    transport: parser::TransportProtocol<'_>,
)
    ensures
        match network {
            parser::IpProtocol::Ipv4(ip) => network@ == parser::IpModel::Ipv4(ip@),
            parser::IpProtocol::Ipv6 => network@ is Ipv6,
            parser::IpProtocol::Arp => network@ is Arp,
            parser::IpProtocol::Unknown(ether_type) => network@ == parser::IpModel::Unknown(
                ether_type,
            ),
        },
        match transport {
            parser::TransportProtocol::Tcp(tcp) => transport@ == parser::TransportModel::Tcp(tcp@),
            parser::TransportProtocol::Udp(udp) => transport@ == parser::TransportModel::Udp(udp@),
            parser::TransportProtocol::Unknown(raw) => transport@
                == parser::TransportModel::Unknown(raw@),
        },
{
}

} // verus!
