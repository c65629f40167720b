//! Packets as lines of the list and as a tree of protocols, and the words around them.

use crate::parser;
use crate::parser::{parse_ethernet, EthernetFrame, IpProtocol, Ipv4Packet, TcpFlags, TcpHeader, TransportProtocol, UdpHeader};
use crate::text;
use vstd::prelude::*;
use vstd::string::*;

verus! {

/// The colors of the screen.
#[derive(Debug, Clone, Copy, PartialEq, Eq, Structural)]
pub enum Color {
    White,
    DarkGray,
    Red,
    Green,
    Yellow,
    Cyan,
    LightRed,
    LightGreen,
    LightBlue,
    LightYellow,
    LightMagenta,
}

/// One line of the packet list.
#[derive(Debug)]
pub struct ListRow {
    pub text: String,
    pub color: Color,
}

/// The mathematical content of a [`ListRow`].
pub struct RowModel {
    pub text: Seq<char>,
    pub color: Color,
}

impl View for ListRow {
    type V = RowModel;

    open spec fn view(&self) -> RowModel {
        RowModel { text: self.text@, color: self.color }
    }
}

/// The number of a packet in brackets, at least three digits wide.
pub open spec fn number_text(number: nat) -> Seq<char> {
    "["@ + text::zero_padded(text::decimal(number), 3) + "] "@
}

/// The two ends of a packet.
pub open spec fn ends_text(from: Seq<char>, to: Seq<char>) -> Seq<char> {
    from + " -> "@ + to
}

/// The line of an IPv4 packet, without its number. A TCP segment that resets its connection
/// stands out.
pub open spec fn ipv4_row(ip: parser::Ipv4Model) -> RowModel {
    let ends = ends_text(ip.src_ip, ip.dest_ip);
    match ip.transport {
        parser::TransportModel::Tcp(tcp) => if tcp.flags.rst {
            RowModel {
                text: "协议: TCP(RST) | "@ + ends + " [异常断开连接]"@,
                color: Color::Red,
            }
        } else {
            RowModel { text: "协议: TCP   | "@ + ends, color: Color::LightBlue }
        },
        parser::TransportModel::Udp(_) => RowModel {
            text: "协议: UDP   | "@ + ends,
            color: Color::LightYellow,
        },
        parser::TransportModel::Unknown(_) => RowModel {
            text: "协议: IPv4  | "@ + ends,
            color: Color::White,
        },
    }
}

/// The line of a frame, without its number.
pub open spec fn frame_row(frame: parser::FrameModel) -> RowModel {
    let ends = ends_text(frame.src_mac, frame.dest_mac);
    match frame.payload {
        parser::IpModel::Ipv4(ip) => ipv4_row(ip),
        parser::IpModel::Ipv6 => RowModel {
            text: "协议: IPv6  | MAC: "@ + ends,
            color: Color::LightMagenta,
        },
        parser::IpModel::Arp => RowModel {
            text: "协议: ARP   | MAC: "@ + ends,
            color: Color::LightGreen,
        },
        parser::IpModel::Unknown(ether_type) => RowModel {
            text: "未知(0x"@ + text::zero_padded(text::hex(ether_type as nat), 4) + ") | MAC: "@
                + ends,
            color: Color::DarkGray,
        },
    }
}

/// The line of a packet, without its number.
pub open spec fn packet_row(packet: Seq<u8>) -> RowModel {
    match parser::frame_of(packet) {
        Some(frame) => frame_row(frame),
        None => RowModel { text: "损坏的数据包"@, color: Color::Red },
    }
}

/// The line of the packet that is the `number`th of the list, counted from one.
pub open spec fn numbered_row(number: nat, packet: Seq<u8>) -> RowModel {
    RowModel {
        text: number_text(number) + packet_row(packet).text,
        color: packet_row(packet).color,
    }
}

/// The names of the flags that are set. The urgent flag has no name here.
pub open spec fn flag_names(flags: TcpFlags) -> Seq<Seq<char>> {
    let syn = if flags.syn { seq!["SYN"@] } else { Seq::empty() };
    let ack = if flags.ack { seq!["ACK"@] } else { Seq::empty() };
    let fin = if flags.fin { seq!["FIN"@] } else { Seq::empty() };
    let rst = if flags.rst { seq!["RST"@] } else { Seq::empty() };
    let psh = if flags.psh { seq!["PSH"@] } else { Seq::empty() };
    syn + ack + fin + rst + psh
}

/// Words with bars between them.
pub open spec fn joined(words: Seq<Seq<char>>) -> Seq<char>
    decreases words.len(),
{
    if words.len() == 0 {
        Seq::empty()
    } else if words.len() == 1 {
        words[0]
    } else {
        joined(words.drop_last()) + "|"@ + words.last()
    }
}

/// The tree of a TCP segment.
pub open spec fn tcp_tree(tcp: parser::TcpModel) -> Seq<char> {
    " └─ [Layer 4] 传输控制协议 (TCP)\n"@ + "      ├── 源端口: "@ + text::decimal(
        tcp.src_port as nat,
    ) + " ──> 目的端口: "@ + text::decimal(tcp.dest_port as nat) + "\n"@
        + "      ├── 序列号 (Seq): "@ + text::decimal(tcp.seq as nat) + " | 确认号 (Ack): "@
        + text::decimal(tcp.ack_num as nat) + "\n"@ + "      └── 控制标志位: ["@ + joined(
        flag_names(tcp.flags),
    ) + "] | 载荷大小: "@ + text::decimal(tcp.payload.len()) + " 字节"@
}

/// The tree of a UDP datagram.
pub open spec fn udp_tree(udp: parser::UdpModel) -> Seq<char> {
    " └─ [Layer 4] 用户数据报协议 (UDP)\n"@ + "      └── 源端口: "@ + text::decimal(
        udp.src_port as nat,
    ) + " ──> 目的端口: "@ + text::decimal(udp.dest_port as nat) + " | 长度: "@ + text::decimal(
        udp.len as nat,
    ) + " 字节"@
}

/// The tree of what an IPv4 packet carries.
pub open spec fn transport_tree(transport: parser::TransportModel) -> Seq<char> {
    match transport {
        parser::TransportModel::Tcp(tcp) => tcp_tree(tcp),
        parser::TransportModel::Udp(udp) => udp_tree(udp),
        parser::TransportModel::Unknown(raw) => " └─ [Layer 4] 未知传输层协议 | 原始载荷大小: "@
            + text::decimal(raw.len()) + " 字节"@,
    }
}

/// The tree of what a frame carries.
pub open spec fn ip_tree(ip: parser::IpModel) -> Seq<char> {
    match ip {
        parser::IpModel::Ipv4(ip) => " ├─ [Layer 3] 互联网协议 (IPv4): "@ + ends_text(
            ip.src_ip,
            ip.dest_ip,
        ) + "\n"@ + transport_tree(ip.transport),
        parser::IpModel::Ipv6 =>
            " └─ [Layer 3] 互联网协议第六版 (IPv6) | 后台内核已基于 BPF 规则完成筛选"@,
        parser::IpModel::Arp =>
            " └─ [Layer 3] 地址解析协议 (ARP) | 用于局域网内 IP 与 MAC 地址的动态映射寻址"@,
        parser::IpModel::Unknown(ether_type) =>
            " └─ [Layer 3] 未知上层网络协议 (EtherType: 0x"@ + text::zero_padded(
            text::hex(ether_type as nat),
            4,
        ) + ")，停止递进解析"@,
    }
}

/// The tree of a packet.
pub open spec fn packet_tree(packet: Seq<u8>) -> Seq<char> {
    match parser::frame_of(packet) {
        Some(frame) => " ├─ [Layer 2] 以太网帧: MAC ("@ + frame.src_mac + ") -> ("@
            + frame.dest_mac + ")\n"@ + ip_tree(frame.payload),
        None => " 解析失败: InvalidLength"@,
    }
}

/// Appends the two ends of a packet.
fn push_ends(out: &mut String, from: &String, to: &String)
    ensures
        final(out)@ == old(out)@ + ends_text(from@, to@),
{
    out.append(from.as_str());
    out.append(" -> ");
    out.append(to.as_str());
    assert(out@ =~= old(out)@ + ends_text(from@, to@));
}

/// Appends the line of an IPv4 packet and gives its color.
fn push_ipv4_row(out: &mut String, ip: &Ipv4Packet<'_>) -> (color: Color)
    ensures
        final(out)@ == old(out)@ + ipv4_row(ip@).text,
        color == ipv4_row(ip@).color,
{
    let color = match &ip.transport {
        TransportProtocol::Tcp(tcp) => if tcp.flags.rst {
            out.append("协议: TCP(RST) | ");
            push_ends(out, &ip.src_ip, &ip.dest_ip);
            out.append(" [异常断开连接]");
            Color::Red
        } else {
            out.append("协议: TCP   | ");
            push_ends(out, &ip.src_ip, &ip.dest_ip);
            Color::LightBlue
        },
        TransportProtocol::Udp(_) => {
            out.append("协议: UDP   | ");
            push_ends(out, &ip.src_ip, &ip.dest_ip);
            Color::LightYellow
        },
        TransportProtocol::Unknown(_) => {
            out.append("协议: IPv4  | ");
            push_ends(out, &ip.src_ip, &ip.dest_ip);
            Color::White
        },
    };
    assert(out@ =~= old(out)@ + ipv4_row(ip@).text);
    color
}

/// Appends the line of a frame and gives its color.
fn push_frame_row(out: &mut String, frame: &EthernetFrame<'_>) -> (color: Color)
    ensures
        final(out)@ == old(out)@ + frame_row(frame@).text,
        color == frame_row(frame@).color,
{
    let color = match &frame.payload {
        IpProtocol::Ipv4(ip) => push_ipv4_row(out, ip),
        IpProtocol::Ipv6 => {
            out.append("协议: IPv6  | MAC: ");
            push_ends(out, &frame.src_mac, &frame.dest_mac);
            Color::LightMagenta
        },
        IpProtocol::Arp => {
            out.append("协议: ARP   | MAC: ");
            push_ends(out, &frame.src_mac, &frame.dest_mac);
            Color::LightGreen
        },
        IpProtocol::Unknown(ether_type) => {
            out.append("未知(0x");
            text::push_padded_hex(out, *ether_type as u64, 4);
            out.append(") | MAC: ");
            push_ends(out, &frame.src_mac, &frame.dest_mac);
            Color::DarkGray
        },
    };
    assert(out@ =~= old(out)@ + frame_row(frame@).text);
    color
}

/// The line of the packet that is the `number`th of the list, counted from one.
pub fn brief(number: usize, packet: &[u8]) -> (row: ListRow)
    ensures
        row@ == numbered_row(number as nat, packet@),
{
    let mut line = String::from_str("[");
    text::push_padded_decimal(&mut line, number as u64, 3);
    line.append("] ");
    let color = match parse_ethernet(packet) {
        Ok(frame) => push_frame_row(&mut line, &frame),
        Err(_) => {
            line.append("损坏的数据包");
            Color::Red
        },
    };
    assert(line@ =~= numbered_row(number as nat, packet@).text);
    ListRow { text: line, color }
}

/// Appends one word behind those that stand there already, with a bar between.
fn push_word(out: &mut String, first: &mut bool, word: &str, Ghost(words): Ghost<Seq<Seq<char>>>)
    requires
        *old(first) == (words.len() == 0),
        old(out)@ == joined(words),
    ensures
        !*final(first),
        final(out)@ == joined(words.push(word@)),
{
    if !*first {
        out.append("|");
    }
    out.append(word);
    *first = false;
    proof {
        assert(words.push(word@).drop_last() =~= words);
        assert(out@ =~= joined(words.push(word@)));
    }
}

/// The names of the flags that are set, with bars between them.
fn flag_list(flags: TcpFlags) -> (list: String)
    ensures
        list@ == joined(flag_names(flags)),
{
    let mut list = String::new();
    let mut first = true;
    let ghost mut words: Seq<Seq<char>> = Seq::empty();
    if flags.syn {
        push_word(&mut list, &mut first, "SYN", Ghost(words));
        proof {
            words = words.push("SYN"@);
        }
    }
    if flags.ack {
        push_word(&mut list, &mut first, "ACK", Ghost(words));
        proof {
            words = words.push("ACK"@);
        }
    }
    if flags.fin {
        push_word(&mut list, &mut first, "FIN", Ghost(words));
        proof {
            words = words.push("FIN"@);
        }
    }
    if flags.rst {
        push_word(&mut list, &mut first, "RST", Ghost(words));
        proof {
            words = words.push("RST"@);
        }
    }
    if flags.psh {
        push_word(&mut list, &mut first, "PSH", Ghost(words));
        proof {
            words = words.push("PSH"@);
        }
    }
    assert(words =~= flag_names(flags));
    list
}

/// Appends the tree of a TCP segment.
fn push_tcp_tree(out: &mut String, tcp: &TcpHeader<'_>)
    ensures
        final(out)@ == old(out)@ + tcp_tree(tcp@),
{
    let flags = flag_list(tcp.flags);
    out.append(" └─ [Layer 4] 传输控制协议 (TCP)\n");
    out.append("      ├── 源端口: ");
    text::push_decimal(out, tcp.src_port as u64);
    out.append(" ──> 目的端口: ");
    text::push_decimal(out, tcp.dest_port as u64);
    out.append("\n");
    out.append("      ├── 序列号 (Seq): ");
    text::push_decimal(out, tcp.seq as u64);
    out.append(" | 确认号 (Ack): ");
    text::push_decimal(out, tcp.ack_num as u64);
    out.append("\n");
    out.append("      └── 控制标志位: [");
    out.append(flags.as_str());
    out.append("] | 载荷大小: ");
    text::push_decimal(out, tcp.payload.len() as u64);
    out.append(" 字节");
    assert(out@ =~= old(out)@ + tcp_tree(tcp@));
}

/// Appends the tree of a UDP datagram.
fn push_udp_tree(out: &mut String, udp: &UdpHeader<'_>)
    ensures
        final(out)@ == old(out)@ + udp_tree(udp@),
{
    out.append(" └─ [Layer 4] 用户数据报协议 (UDP)\n");
    out.append("      └── 源端口: ");
    text::push_decimal(out, udp.src_port as u64);
    out.append(" ──> 目的端口: ");
    text::push_decimal(out, udp.dest_port as u64);
    out.append(" | 长度: ");
    text::push_decimal(out, udp.len as u64);
    out.append(" 字节");
    assert(out@ =~= old(out)@ + udp_tree(udp@));
}

/// Appends the tree of what a frame carries.
fn push_ip_tree(out: &mut String, payload: &IpProtocol<'_>)
    ensures
        final(out)@ == old(out)@ + ip_tree(payload@),
{
    match payload {
        IpProtocol::Ipv4(ip) => {
            out.append(" ├─ [Layer 3] 互联网协议 (IPv4): ");
            push_ends(out, &ip.src_ip, &ip.dest_ip);
            out.append("\n");
            match &ip.transport {
                TransportProtocol::Tcp(tcp) => push_tcp_tree(out, tcp),
                TransportProtocol::Udp(udp) => push_udp_tree(out, udp),
                TransportProtocol::Unknown(raw) => {
                    out.append(" └─ [Layer 4] 未知传输层协议 | 原始载荷大小: ");
                    text::push_decimal(out, raw.len() as u64);
                    out.append(" 字节");
                },
            }
        },
        IpProtocol::Ipv6 => {
            out.append(" └─ [Layer 3] 互联网协议第六版 (IPv6) | 后台内核已基于 BPF 规则完成筛选");
        },
        IpProtocol::Arp => {
            out.append(" └─ [Layer 3] 地址解析协议 (ARP) | 用于局域网内 IP 与 MAC 地址的动态映射寻址");
        },
        IpProtocol::Unknown(ether_type) => {
            out.append(" └─ [Layer 3] 未知上层网络协议 (EtherType: 0x");
            text::push_padded_hex(out, *ether_type as u64, 4);
            out.append(")，停止递进解析");
        },
    }
    assert(out@ =~= old(out)@ + ip_tree(payload@));
}

/// The tree of a packet's protocols, one layer under the other.
pub fn details(packet: &[u8]) -> (tree: String)
    ensures
        tree@ == packet_tree(packet@),
{
    match parse_ethernet(packet) {
        Ok(frame) => {
            let mut tree = String::from_str(" ├─ [Layer 2] 以太网帧: MAC (");
            tree.append(frame.src_mac.as_str());
            tree.append(") -> (");
            tree.append(frame.dest_mac.as_str());
            tree.append(")\n");
            push_ip_tree(&mut tree, &frame.payload);
            assert(tree@ =~= packet_tree(packet@));
            tree
        },
        Err(_) => String::from_str(" 解析失败: InvalidLength"),
    }
}

} // verus!
