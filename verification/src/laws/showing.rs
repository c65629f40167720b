//! What the list and the tree of protocols say of a packet.

use crate::display;
use crate::display::Color;
use crate::parser;
use crate::parser::TcpFlags;
use crate::text;
use vstd::prelude::*;

verus! {

/// Every line of the list begins with the packet's number, in brackets and at least three
/// digits wide; the number changes nothing else of the line.
pub proof fn line_begins_with_its_number(number: nat, other: nat, packet: Seq<u8>)
    ensures
        ({
            let line = display::numbered_row(number, packet);
            let digits = text::zero_padded(text::decimal(number), 3);
            let others = text::zero_padded(text::decimal(other), 3);
            &&& line.text.len() >= digits.len() as int + 3
            &&& line.text.take(digits.len() as int + 3) == "["@ + digits + "] "@
            &&& line.color == display::numbered_row(other, packet).color
            &&& line.text.skip(digits.len() as int + 3) == display::numbered_row(other, packet).text.skip(
                others.len() as int + 3,
            )
        }),
{
    reveal_strlit("[");
    reveal_strlit("] ");
    let line = display::numbered_row(number, packet);
    let digits = text::zero_padded(text::decimal(number), 3);
    let others = text::zero_padded(text::decimal(other), 3);
    let rest = display::packet_row(packet).text;
    assert(line.text.take(digits.len() as int + 3) =~= "["@ + digits + "] "@);
    assert(line.text.skip(digits.len() as int + 3) =~= rest);
    assert(display::numbered_row(other, packet).text.skip(others.len() as int + 3) =~= rest);
}

/// The line of a TCP segment is red and says so exactly where the reset bit, the third lowest of
/// the segment's fourteenth byte, is set; otherwise it is light blue, whatever the other flags
/// are.
pub proof fn only_resets_stand_out(number: nat, packet: Seq<u8>)
    requires
        packet.len() >= 34,
        packet[12] == 0x08,
        packet[13] == 0x00,
        packet[23] == 6,
        packet.len() - 14 - 4 * (packet[14] as int % 16) >= 20,
        packet.len() - 14 - 4 * (packet[14] as int % 16) >= 4 * (packet[26 + 4 * (packet[14] as int
            % 16)] as int / 16),
    ensures
        ({
            let flags = packet[27 + 4 * (packet[14] as int % 16)];
            let line = display::numbered_row(number, packet);
            let front = "["@ + text::zero_padded(text::decimal(number), 3) + "] "@;
            parser::frame_of(packet)->0.payload matches parser::IpModel::Ipv4(ip) && if (flags
                & 0x04) != 0 {
                &&& line.color == Color::Red
                &&& line.text == front + "协议: TCP(RST) | "@ + ip.src_ip + " -> "@ + ip.dest_ip
                    + " [异常断开连接]"@
            } else {
                &&& line.color == Color::LightBlue
                &&& line.text == front + "协议: TCP   | "@ + ip.src_ip + " -> "@ + ip.dest_ip
            }
        }),
{
    let n = 4 * (packet[14] as int % 16);
    let rest = packet.skip(14 + n);
    assert(rest[12] == packet[26 + n] && rest[13] == packet[27 + n]);
    super::reading::protocol_says_what_is_transported(packet);
    super::reading::tcp_segment_is_read_from_its_bytes(rest);
    line_says_what_was_read(number, packet);
}

/// The line of a packet says what was read of it: the protocol, its color, and the two ends,
/// those of IPv4 where they are known and those of Ethernet else. A packet without a whole
/// Ethernet header is damaged.
pub proof fn line_says_what_was_read(number: nat, packet: Seq<u8>)
    ensures
        ({
            let line = display::numbered_row(number, packet);
            let front = "["@ + text::zero_padded(text::decimal(number), 3) + "] "@;
            match parser::frame_of(packet) {
                None => line.color == Color::Red && line.text == front + "损坏的数据包"@,
                Some(frame) => match frame.payload {
                    parser::IpModel::Ipv4(ip) => match ip.transport {
                        parser::TransportModel::Tcp(tcp) => if tcp.flags.rst {
                            &&& line.color == Color::Red
                            &&& line.text == front + "协议: TCP(RST) | "@ + ip.src_ip + " -> "@
                                + ip.dest_ip + " [异常断开连接]"@
                        } else {
                            &&& line.color == Color::LightBlue
                            &&& line.text == front + "协议: TCP   | "@ + ip.src_ip + " -> "@
                                + ip.dest_ip
                        },
                        parser::TransportModel::Udp(_) => {
                            &&& line.color == Color::LightYellow
                            &&& line.text == front + "协议: UDP   | "@ + ip.src_ip + " -> "@
                                + ip.dest_ip
                        },
                        parser::TransportModel::Unknown(_) => {
                            &&& line.color == Color::White
                            &&& line.text == front + "协议: IPv4  | "@ + ip.src_ip + " -> "@
                                + ip.dest_ip
                        },
                    },
                    parser::IpModel::Ipv6 => {
                        &&& line.color == Color::LightMagenta
                        &&& line.text == front + "协议: IPv6  | MAC: "@ + frame.src_mac + " -> "@
                            + frame.dest_mac
                    },
                    parser::IpModel::Arp => {
                        &&& line.color == Color::LightGreen
                        &&& line.text == front + "协议: ARP   | MAC: "@ + frame.src_mac + " -> "@
                            + frame.dest_mac
                    },
                    parser::IpModel::Unknown(ether_type) => {
                        &&& line.color == Color::DarkGray
                        &&& line.text == front + "未知(0x"@ + text::zero_padded(
                            text::hex(ether_type as nat),
                            4,
                        ) + ") | MAC: "@ + frame.src_mac + " -> "@ + frame.dest_mac
                    },
                },
            }
        }),
{
    let line = display::numbered_row(number, packet);
    let front = "["@ + text::zero_padded(text::decimal(number), 3) + "] "@;
    match parser::frame_of(packet) {
        None => {},
        Some(frame) => match frame.payload {
            parser::IpModel::Ipv4(ip) => match ip.transport {
                parser::TransportModel::Tcp(tcp) => if tcp.flags.rst {
                    assert(line.text =~= front + "协议: TCP(RST) | "@ + ip.src_ip + " -> "@
                        + ip.dest_ip + " [异常断开连接]"@);
                } else {
                    assert(line.text =~= front + "协议: TCP   | "@ + ip.src_ip + " -> "@
                        + ip.dest_ip);
                },
                parser::TransportModel::Udp(_) => {
                    assert(line.text =~= front + "协议: UDP   | "@ + ip.src_ip + " -> "@
                        + ip.dest_ip);
                },
                parser::TransportModel::Unknown(_) => {
                    assert(line.text =~= front + "协议: IPv4  | "@ + ip.src_ip + " -> "@
                        + ip.dest_ip);
                },
            },
            parser::IpModel::Ipv6 => {
                assert(line.text =~= front + "协议: IPv6  | MAC: "@ + frame.src_mac + " -> "@
                    + frame.dest_mac);
            },
            parser::IpModel::Arp => {
                assert(line.text =~= front + "协议: ARP   | MAC: "@ + frame.src_mac + " -> "@
                    + frame.dest_mac);
            },
            parser::IpModel::Unknown(ether_type) => {
                assert(line.text =~= front + "未知(0x"@ + text::zero_padded(
                    text::hex(ether_type as nat),
                    4,
                ) + ") | MAC: "@ + frame.src_mac + " -> "@ + frame.dest_mac);
            },
        },
    }
}

/// Words are joined by one bar between each two of them.
pub proof fn bars_stand_between_words(words: Seq<Seq<char>>, word: Seq<char>)
    ensures
        display::joined(Seq::empty()) == Seq::<char>::empty(),
        words.len() == 0 ==> display::joined(words.push(word)) == word,
        words.len() > 0 ==> display::joined(words.push(word)) == display::joined(words) + "|"@
            + word,
{
    assert(words.push(word).drop_last() =~= words);
}

/// A flag is named exactly where it is set, each once and in this order: SYN, ACK, FIN, RST, PSH.
pub proof fn set_flags_are_named(flags: TcpFlags)
    ensures
        ({
            let names = display::flag_names(flags);
            let all = seq!["SYN"@, "ACK"@, "FIN"@, "RST"@, "PSH"@];
            let set = seq![flags.syn, flags.ack, flags.fin, flags.rst, flags.psh];
            &&& forall|k: int| 0 <= k < 5 ==> (names.contains(#[trigger] all[k]) <==> set[k])
            &&& forall|i: int|
                0 <= i < names.len() ==> exists|k: int|
                    0 <= k < 5 && #[trigger] names[i] == #[trigger] all[k]
            &&& forall|i: int, j: int, k: int, l: int|
                #![trigger names[i], names[j], all[k], all[l]]
                0 <= i < j < names.len() && 0 <= k < 5 && 0 <= l < 5 && names[i] == all[k]
                    && names[j] == all[l] ==> k < l
        }),
{
    reveal_strlit("SYN");
    reveal_strlit("ACK");
    reveal_strlit("FIN");
    reveal_strlit("RST");
    reveal_strlit("PSH");
    let all = seq!["SYN"@, "ACK"@, "FIN"@, "RST"@, "PSH"@];
    let set = seq![flags.syn, flags.ack, flags.fin, flags.rst, flags.psh];
    let names = display::flag_names(flags);
    assert(all[0][0] == 'S' && all[1][0] == 'A' && all[2][0] == 'F' && all[3][0] == 'R'
        && all[4][0] == 'P');
    let a: int = if flags.syn { 1 } else { 0 };
    let b = a + if flags.ack { 1int } else { 0 };
    let c = b + if flags.fin { 1int } else { 0 };
    let d = c + if flags.rst { 1int } else { 0 };
    let e = d + if flags.psh { 1int } else { 0 };
    assert(names.len() == e);
    assert(flags.syn ==> names[0] == all[0]);
    assert(flags.ack ==> names[a] == all[1]);
    assert(flags.fin ==> names[b] == all[2]);
    assert(flags.rst ==> names[c] == all[3]);
    assert(flags.psh ==> names[d] == all[4]);
    assert forall|i: int| 0 <= i < names.len() implies exists|k: int|
        0 <= k < 5 && #[trigger] names[i] == #[trigger] all[k] by {
        if i < a {
            assert(names[i] == all[0]);
        } else if i < b {
            assert(names[i] == all[1]);
        } else if i < c {
            assert(names[i] == all[2]);
        } else if i < d {
            assert(names[i] == all[3]);
        } else {
            assert(names[i] == all[4]);
        }
    }
    assert(forall|k: int| 0 <= k < 5 ==> (names.contains(#[trigger] all[k]) <==> set[k]));
}

/// The tree of a TCP segment gives the ports, the numbers, the flags that are set, and how many
/// bytes the payload has.
pub proof fn tcp_tree_says_what_was_read(tcp: parser::TcpModel)
    ensures
        display::transport_tree(parser::TransportModel::Tcp(tcp))
            == " └─ [Layer 4] 传输控制协议 (TCP)\n"@ + "      ├── 源端口: "@ + text::decimal(
            tcp.src_port as nat,
        ) + " ──> 目的端口: "@ + text::decimal(tcp.dest_port as nat) + "\n"@
            + "      ├── 序列号 (Seq): "@ + text::decimal(tcp.seq as nat) + " | 确认号 (Ack): "@
            + text::decimal(tcp.ack_num as nat) + "\n"@ + "      └── 控制标志位: ["@
            + display::joined(display::flag_names(tcp.flags)) + "] | 载荷大小: "@ + text::decimal(
            tcp.payload.len(),
        ) + " 字节"@,
{
}

/// The tree of a UDP datagram gives the ports and the length that stands in its header.
pub proof fn udp_tree_says_what_was_read(udp: parser::UdpModel)
    ensures
        display::transport_tree(parser::TransportModel::Udp(udp))
            == " └─ [Layer 4] 用户数据报协议 (UDP)\n"@ + "      └── 源端口: "@ + text::decimal(
            udp.src_port as nat,
        ) + " ──> 目的端口: "@ + text::decimal(udp.dest_port as nat) + " | 长度: "@
            + text::decimal(udp.len as nat) + " 字节"@,
{
}

/// The tree of a packet gives the two ends of its frame, the two ends of its IPv4 packet, and
/// what that carries; where something is not known, it says what is not.
pub proof fn tree_says_what_was_read(packet: Seq<u8>)
    ensures
        ({
            let tree = display::packet_tree(packet);
            match parser::frame_of(packet) {
                None => tree == " 解析失败: InvalidLength"@,
                Some(frame) => {
                    let front = " ├─ [Layer 2] 以太网帧: MAC ("@ + frame.src_mac + ") -> ("@
                        + frame.dest_mac + ")\n"@;
                    match frame.payload {
                        parser::IpModel::Ipv4(ip) => {
                            let inner = front + " ├─ [Layer 3] 互联网协议 (IPv4): "@ + ip.src_ip
                                + " -> "@ + ip.dest_ip + "\n"@;
                            &&& tree == inner + display::transport_tree(ip.transport)
                            &&& ip.transport matches parser::TransportModel::Unknown(raw) ==> tree
                                == inner + " └─ [Layer 4] 未知传输层协议 | 原始载荷大小: "@
                                + text::decimal(raw.len()) + " 字节"@
                        },
                        parser::IpModel::Ipv6 => tree == front
                            + " └─ [Layer 3] 互联网协议第六版 (IPv6) | 后台内核已基于 BPF 规则完成筛选"@,
                        parser::IpModel::Arp => tree == front
                            + " └─ [Layer 3] 地址解析协议 (ARP) | 用于局域网内 IP 与 MAC 地址的动态映射寻址"@,
                        parser::IpModel::Unknown(ether_type) => tree == front
                            + " └─ [Layer 3] 未知上层网络协议 (EtherType: 0x"@ + text::zero_padded(
                            text::hex(ether_type as nat),
                            4,
                        ) + ")，停止递进解析"@,
                    }
                },
            }
        }),
{
    let tree = display::packet_tree(packet);
    match parser::frame_of(packet) {
        None => {},
        Some(frame) => {
            let front = " ├─ [Layer 2] 以太网帧: MAC ("@ + frame.src_mac + ") -> ("@
                + frame.dest_mac + ")\n"@;
            match frame.payload {
                parser::IpModel::Ipv4(ip) => {
                    let inner = front + " ├─ [Layer 3] 互联网协议 (IPv4): "@ + ip.src_ip + " -> "@
                        + ip.dest_ip + "\n"@;
                    assert(tree =~= inner + display::transport_tree(ip.transport));
                    if let parser::TransportModel::Unknown(raw) = ip.transport {
                        assert(tree =~= inner
                            + " └─ [Layer 4] 未知传输层协议 | 原始载荷大小: "@ + text::decimal(
                            raw.len(),
                        ) + " 字节"@);
                    }
                },
                parser::IpModel::Unknown(ether_type) => {
                    assert(tree =~= front + " └─ [Layer 3] 未知上层网络协议 (EtherType: 0x"@
                        + text::zero_padded(text::hex(ether_type as nat), 4)
                        + ")，停止递进解析"@);
                },
                _ => {},
            }
        },
    }
}

} // verus!
