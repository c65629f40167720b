//! What the operations of the library answer, told from what they are given.

use crate::capture::{CaptureEngine, CaptureEvent, CaptureSettings, CaptureStep};
use crate::display;
use crate::display::{Color, ListRow};
use crate::error::SnifferError;
use crate::export;
use crate::layout;
use crate::layout::{Area, Buttons, Rows};
use crate::model;
use crate::parser;
use crate::parser::{EthernetFrame, IpProtocol, Ipv4Packet, TransportProtocol};
use crate::prompt;
use crate::session::{Action, CaptureState, Event, Key, Mouse, MouseKind, Panel, Pointed, Pressed};
use crate::session::{Screen, Session};
use crate::text;
use vstd::prelude::*;

verus! {

/// Reading a TCP segment succeeds exactly where its header is whole, and gives the ports, the
/// numbers and the flags of the header and all the bytes behind it.
pub proof fn reading_tcp<'a>(data: &'a [u8], answer: Result<TransportProtocol<'a>, SnifferError>)
    requires
        call_ensures(parser::parse_tcp, (data,), answer),
    ensures
        answer is Ok <==> data@.len() >= 20 && data@.len() >= 4 * (data@[12] as int / 16),
        answer is Err ==> answer->Err_0 is InvalidLength,
        answer matches Ok(segment) ==> (segment matches TransportProtocol::Tcp(tcp) && {
            &&& tcp.src_port == 256 * data@[0] + data@[1]
            &&& tcp.dest_port == 256 * data@[2] + data@[3]
            &&& tcp.seq == 16777216 * data@[4] + 65536 * data@[5] + 256 * data@[6] + data@[7]
            &&& tcp.ack_num == 16777216 * data@[8] + 65536 * data@[9] + 256 * data@[10] + data@[11]
            &&& tcp.flags.fin <==> (data@[13] & 0x01) != 0
            &&& tcp.flags.syn <==> (data@[13] & 0x02) != 0
            &&& tcp.flags.rst <==> (data@[13] & 0x04) != 0
            &&& tcp.flags.psh <==> (data@[13] & 0x08) != 0
            &&& tcp.flags.ack <==> (data@[13] & 0x10) != 0
            &&& tcp.flags.urg <==> (data@[13] & 0x20) != 0
            &&& tcp.payload@.len() == data@.len() - 4 * (data@[12] as int / 16)
            &&& forall|i: int|
                0 <= i < tcp.payload@.len() ==> #[trigger] tcp.payload@[i] == data@[data@.len()
                    - tcp.payload@.len() + i]
        }),
{
    super::reading::tcp_segment_is_read_from_its_bytes(data@);
    if answer is Ok {
        super::reading::tcp_payload_is_the_end_of_the_segment(data@);
    }
}

/// Reading a UDP datagram succeeds exactly where its header is whole, and gives the ports and the
/// length of the header and all the bytes behind it.
pub proof fn reading_udp<'a>(data: &'a [u8], answer: Result<TransportProtocol<'a>, SnifferError>)
    requires
        call_ensures(parser::parse_udp, (data,), answer),
    ensures
        answer is Ok <==> data@.len() >= 8,
        answer is Err ==> answer->Err_0 is InvalidLength,
        answer matches Ok(datagram) ==> (datagram matches TransportProtocol::Udp(udp) && {
            &&& udp.src_port == 256 * data@[0] + data@[1]
            &&& udp.dest_port == 256 * data@[2] + data@[3]
            &&& udp.len == 256 * data@[4] + data@[5]
            &&& udp.payload@.len() == data@.len() - 8
            &&& forall|i: int|
                0 <= i < udp.payload@.len() ==> #[trigger] udp.payload@[i] == data@[8 + i]
        }),
{
    super::reading::udp_datagram_is_read_from_its_bytes(data@);
}

/// Reading an IPv4 packet succeeds exactly where its header is whole. What it carries is read as
/// TCP under protocol 6 and as UDP under protocol 17, and kept as it is where that fails and
/// under any other protocol.
pub proof fn reading_ipv4<'a>(data: &'a [u8], answer: Result<Ipv4Packet<'a>, SnifferError>)
    requires
        call_ensures(parser::parse_ipv4, (data,), answer),
    ensures
        answer is Ok <==> data@.len() >= 20 && data@.len() >= 4 * (data@[0] as int % 16),
        answer is Err ==> answer->Err_0 is InvalidLength,
        answer matches Ok(ip) ==> {
            let rest = data@.skip(4 * (data@[0] as int % 16));
            &&& ip.protocol == data@[9]
            &&& ip.src_ip@ == text::decimal(data@[12] as nat) + "."@ + text::decimal(
                data@[13] as nat,
            ) + "."@ + text::decimal(data@[14] as nat) + "."@ + text::decimal(data@[15] as nat)
            &&& ip.dest_ip@ == text::decimal(data@[16] as nat) + "."@ + text::decimal(
                data@[17] as nat,
            ) + "."@ + text::decimal(data@[18] as nat) + "."@ + text::decimal(data@[19] as nat)
            &&& ip.transport is Tcp <==> data@[9] == 6 && rest.len() >= 20 && rest.len() >= 4 * (
            rest[12] as int / 16)
            &&& ip.transport is Udp <==> data@[9] == 17 && rest.len() >= 8
            &&& ip.transport matches TransportProtocol::Tcp(tcp) ==> {
                &&& tcp.src_port == 256 * rest[0] + rest[1]
                &&& tcp.dest_port == 256 * rest[2] + rest[3]
                &&& tcp.payload@ == rest.skip(4 * (rest[12] as int / 16))
            }
            &&& ip.transport matches TransportProtocol::Udp(udp) ==> {
                &&& udp.src_port == 256 * rest[0] + rest[1]
                &&& udp.dest_port == 256 * rest[2] + rest[3]
                &&& udp.payload@ == rest.skip(8)
            }
            &&& ip.transport matches TransportProtocol::Unknown(raw) ==> raw@ == rest
        },
{
    let rest = data@.skip(4 * (data@[0] as int % 16));
    super::reading::ipv4_packet_is_read_from_its_bytes(data@);
    super::reading::tcp_segment_is_read_from_its_bytes(rest);
    super::reading::udp_datagram_is_read_from_its_bytes(rest);
    if parser::tcp_of(rest) is Some {
        super::reading::tcp_payload_is_the_end_of_the_segment(rest);
        assert(parser::tcp_of(rest)->0.payload =~= rest.skip(4 * (rest[12] as int / 16)));
    }
    if parser::udp_of(rest) is Some {
        assert(parser::udp_of(rest)->0.payload =~= rest.skip(8));
    }
}

/// Reading a frame succeeds exactly where it has 14 bytes. It names the source and the
/// destination, and the two bytes behind them say what it carries; only an IPv4 packet without a
/// whole header is carried under its number alone.
pub proof fn reading_a_frame<'a>(packet: &'a [u8], answer: Result<EthernetFrame<'a>, SnifferError>)
    requires
        call_ensures(parser::parse_ethernet, (packet,), answer),
    ensures
        answer is Ok <==> packet@.len() >= 14,
        answer is Err ==> answer->Err_0 is InvalidLength,
        answer matches Ok(frame) ==> {
            let ether_type = 256 * packet@[12] + packet@[13];
            let whole = packet@.len() >= 34 && packet@.len() - 14 >= 4 * (packet@[14] as int % 16);
            &&& frame.dest_mac@ == parser::mac_text(packet@.subrange(0, 6))
            &&& frame.src_mac@ == parser::mac_text(packet@.subrange(6, 12))
            &&& frame.payload is Ipv4 <==> ether_type == 0x0800 && whole
            &&& frame.payload is Ipv6 <==> ether_type == 0x86DD
            &&& frame.payload is Arp <==> ether_type == 0x0806
            &&& frame.payload matches IpProtocol::Unknown(announced) ==> announced == ether_type
            &&& frame.payload matches IpProtocol::Ipv4(ip) ==> parser::ipv4_of(packet@.skip(14))
                == Some(ip@)
        },
{
    if packet@.len() >= 14 {
        super::reading::ether_type_says_what_is_carried(packet@);
    }
}

/// A MAC address is written in six pairs of upper-case hexadecimal digits with colons between.
pub proof fn writing_a_mac_address(bytes: &[u8; 6], answer: String)
    requires
        call_ensures(parser::format_mac, (bytes,), answer),
    ensures
        answer@.len() == 17,
        forall|i: int|
            #![trigger bytes@[i]]
            0 <= i < 6 ==> {
                &&& answer@[3 * i] == "0123456789ABCDEF"@[bytes@[i] as int / 16]
                &&& answer@[3 * i + 1] == "0123456789ABCDEF"@[bytes@[i] as int % 16]
                &&& i < 5 ==> answer@[3 * i + 2] == ':'
            },
{
    super::reading::mac_text_is_hexadecimal_digits(bytes@);
}

/// The line of a frame with a TCP segment is red and speaks of a reset exactly where the reset
/// bit is set, and light blue else.
pub proof fn listing_a_tcp_segment(number: usize, packet: &[u8], row: ListRow)
    requires
        call_ensures(display::brief, (number, packet), row),
        packet@.len() >= 34,
        packet@[12] == 0x08,
        packet@[13] == 0x00,
        packet@[23] == 6,
        packet@.len() - 14 - 4 * (packet@[14] as int % 16) >= 20,
        packet@.len() - 14 - 4 * (packet@[14] as int % 16) >= 4 * (packet@[26 + 4 * (
        packet@[14] as int % 16)] as int / 16),
    ensures
        ({
            let front = "["@ + text::zero_padded(text::decimal(number as nat), 3) + "] "@;
            let from = text::decimal(packet@[26] as nat) + "."@ + text::decimal(packet@[27] as nat)
                + "."@ + text::decimal(packet@[28] as nat) + "."@ + text::decimal(
                packet@[29] as nat,
            );
            let to = text::decimal(packet@[30] as nat) + "."@ + text::decimal(packet@[31] as nat)
                + "."@ + text::decimal(packet@[32] as nat) + "."@ + text::decimal(
                packet@[33] as nat,
            );
            if (packet@[27 + 4 * (packet@[14] as int % 16)] & 0x04) != 0 {
                &&& row.color == Color::Red
                &&& row.text@ == front + "协议: TCP(RST) | "@ + from + " -> "@ + to
                    + " [异常断开连接]"@
            } else {
                &&& row.color == Color::LightBlue
                &&& row.text@ == front + "协议: TCP   | "@ + from + " -> "@ + to
            }
        }),
{
    super::showing::only_resets_stand_out(number as nat, packet@);
    super::reading::ipv4_packet_names_its_ends(packet@);
}

/// The line and the tree of a packet are told by what is read of it; a packet that is too short
/// for a frame is told as damaged in both.
pub proof fn telling_a_short_packet(number: usize, packet: &[u8], row: ListRow, tree: String)
    requires
        call_ensures(display::brief, (number, packet), row),
        call_ensures(display::details, (packet,), tree),
        packet@.len() < 14,
    ensures
        row.color == Color::Red,
        row.text@ == "["@ + text::zero_padded(text::decimal(number as nat), 3) + "] "@
            + "损坏的数据包"@,
        tree@ == " 解析失败: InvalidLength"@,
{
    super::showing::line_says_what_was_read(number as nat, packet@);
    super::showing::tree_says_what_was_read(packet@);
}

/// The line and the tree of a frame that carries no IPv4 packet.
pub proof fn telling_other_frames(number: usize, packet: &[u8], row: ListRow, tree: String)
    requires
        call_ensures(display::brief, (number, packet), row),
        call_ensures(display::details, (packet,), tree),
        packet@.len() >= 14,
        packet@[12] != 0x08 || packet@[13] != 0x00,
    ensures
        ({
            let front = "["@ + text::zero_padded(text::decimal(number as nat), 3) + "] "@;
            let from = parser::mac_text(packet@.subrange(6, 12));
            let to = parser::mac_text(packet@.subrange(0, 6));
            let first = " ├─ [Layer 2] 以太网帧: MAC ("@ + from + ") -> ("@ + to + ")\n"@;
            if packet@[12] == 0x86 && packet@[13] == 0xDD {
                &&& row.color == Color::LightMagenta
                &&& row.text@ == front + "协议: IPv6  | MAC: "@ + from + " -> "@ + to
                &&& tree@ == first
                    + " └─ [Layer 3] 互联网协议第六版 (IPv6) | 后台内核已基于 BPF 规则完成筛选"@
            } else if packet@[12] == 0x08 && packet@[13] == 0x06 {
                &&& row.color == Color::LightGreen
                &&& row.text@ == front + "协议: ARP   | MAC: "@ + from + " -> "@ + to
                &&& tree@ == first
                    + " └─ [Layer 3] 地址解析协议 (ARP) | 用于局域网内 IP 与 MAC 地址的动态映射寻址"@
            } else {
                let digits = text::zero_padded(
                    text::hex((256 * packet@[12] + packet@[13]) as nat),
                    4,
                );
                &&& row.color == Color::DarkGray
                &&& row.text@ == front + "未知(0x"@ + digits + ") | MAC: "@ + from + " -> "@ + to
                &&& tree@ == first + " └─ [Layer 3] 未知上层网络协议 (EtherType: 0x"@ + digits
                    + ")，停止递进解析"@
            }
        }),
{
    super::reading::ether_type_says_what_is_carried(packet@);
    super::showing::line_says_what_was_read(number as nat, packet@);
    super::showing::tree_says_what_was_read(packet@);
}

/// An exported file is the header of the classic format and, for each packet in the order of the
/// list, a record of 16 bytes and the packet.
#[verifier::spinoff_prover]
#[verifier::rlimit(50)]
pub proof fn exporting_a_list(packets: &[Vec<u8>], secs: u64, micros: u32, file: Vec<u8>, i: int)
    requires
        call_ensures(export::export_to_pcap, (packets, secs, micros), file),
        0 <= i < packets@.len(),
        packets@[i]@.len() < 0x1_0000_0000,
        secs < 0x1_0000_0000,
    ensures
        ({
            let f = file@;
            let before = export::contents(packets@).take(i);
            let at = 24 + super::exporting::room_of(before) as int;
            let len = packets@[i]@.len();
            &&& at + 16 + len <= f.len()
            &&& f[at] + 256 * f[at + 1] + 65536 * f[at + 2] + 16777216 * f[at + 3] == secs
            &&& f[at + 4] + 256 * f[at + 5] + 65536 * f[at + 6] + 16777216 * f[at + 7] == micros
            &&& f[at + 8] + 256 * f[at + 9] + 65536 * f[at + 10] + 16777216 * f[at + 11] == len
            &&& f[at + 12] + 256 * f[at + 13] + 65536 * f[at + 14] + 16777216 * f[at + 15] == len
            &&& f.subrange(at + 16, at + 16 + len) == packets@[i]@
        }),
{
    let all = export::contents(packets@);
    let low = export::low32(secs as int);
    super::exporting::every_packet_stands_in_the_file(all, i, low, micros);
}

/// An exported file has nothing but its header and the records of its packets.
#[verifier::spinoff_prover]
#[verifier::rlimit(50)]
pub proof fn exporting_nothing_else(packets: &[Vec<u8>], secs: u64, micros: u32, file: Vec<u8>)
    requires
        call_ensures(export::export_to_pcap, (packets, secs, micros), file),
    ensures
        file@.len() == 24 + super::exporting::room_of(export::contents(packets@)),
        packets@.len() == 0 ==> file@.len() == 24,
        file@.take(24) == seq![
            0xd4u8, 0xc3u8, 0xb2u8, 0xa1u8, 2u8, 0u8, 4u8, 0u8,
            0u8, 0u8, 0u8, 0u8, 0u8, 0u8, 0u8, 0u8,
            0xffu8, 0xffu8, 0u8, 0u8, 1u8, 0u8, 0u8, 0u8,
        ],
{
    let all = export::contents(packets@);
    let low = export::low32(secs as int);
    super::exporting::file_begins_with_the_classic_header(all, low, micros);
    super::exporting::file_is_as_long_as_its_records(all, low, micros);
}

/// A program exports the packets of its list.
#[verifier::spinoff_prover]
#[verifier::rlimit(50)]
pub proof fn exporting_the_program(session: &Session, secs: u64, micros: u32, file: Vec<u8>)
    requires
        call_ensures(Session::export_file, (session, secs, micros), file),
        secs < 0x1_0000_0000,
        forall|i: int|
            0 <= i < session@.packets.len() ==> (#[trigger] session@.packets[i]).len()
                < 0x1_0000_0000,
    ensures
        export::read_file(file@) == session@.packets,
        file@ == export::file_bytes(session@.packets, secs as u32, micros),
{
    assert(export::low32(secs as int) == secs as u32);
    export::export_reads_back(session@.packets, secs as u32, micros);
}

/// A typed number chooses the device of that number.
pub proof fn choosing_a_device(
    input: &str,
    count: usize,
    index: usize,
    before: Seq<char>,
    plus: bool,
    zeros: nat,
    n: nat,
    after: Seq<char>,
)
    requires
        call_ensures(prompt::choose_device, (input, count), index),
        count > 0,
        super::starting::is_blank(before),
        super::starting::is_blank(after),
        n <= usize::MAX,
        input@ == before + ((if plus {
            seq!['+']
        } else {
            Seq::empty()
        }) + Seq::new(zeros, |i: int| '0') + text::decimal(n)) + after,
    ensures
        n < count ==> index == n,
        n >= count ==> index == 0,
{
    super::starting::typed_number_chooses_its_device(
        before,
        plus,
        zeros,
        n,
        after,
        count as int,
    );
}

/// A line without a number chooses the device of number four, or the first where there are not
/// so many.
pub proof fn choosing_no_device(input: &str, count: usize, index: usize, i: int)
    requires
        call_ensures(prompt::choose_device, (input, count), index),
        count > 0,
        ({
            let typed = prompt::trimmed(input@);
            ||| typed.len() == 0
            ||| typed == seq!['+']
            ||| 0 <= i < typed.len() && !('0' <= typed[i] <= '9') && !(i == 0 && typed[i] == '+')
        }),
    ensures
        index == if count > 4 {
            4int
        } else {
            0
        },
{
    super::starting::line_without_a_number_chooses_the_default(input@, i, count as int);
}

/// A filter is what was typed, without the blanks around it.
pub proof fn taking_a_filter(
    input: &str,
    filter: String,
    before: Seq<char>,
    middle: Seq<char>,
    after: Seq<char>,
)
    requires
        call_ensures(prompt::filter_expression, (input,), filter),
        input@ == before + middle + after,
        super::starting::is_blank(before),
        super::starting::is_blank(after),
        middle.len() > 0 ==> !prompt::is_white_space(middle[0]) && !prompt::is_white_space(
            middle.last(),
        ),
    ensures
        filter@ == middle,
{
    super::starting::blanks_around_a_text_are_taken_away(before, middle, after);
}

/// A device is offered under its number, with its name and its description.
pub proof fn offering_a_device(index: usize, name: &str, description: &str, line: String)
    requires
        call_ensures(prompt::device_line, (index, name, description), line),
    ensures
        line@ == "["@ + text::decimal(index as nat) + "] 名字: "@ + name@ + " | 描述: "@
            + description@,
{
}

/// A capture is opened on the first device of the name, and it fails exactly where there is none.
/// It takes all packets whole, waits a second for each read, and filters exactly where a filter
/// was typed, by that very text and optimized.
pub proof fn opening_a_capture(
    devices: &[String],
    name: &str,
    filter: &str,
    answer: Result<CaptureSettings, SnifferError>,
)
    requires
        call_ensures(CaptureEngine::start_capture, (devices, name, filter), answer),
    ensures
        answer is Ok <==> exists|i: int|
            0 <= i < devices@.len() && (#[trigger] devices@[i])@ == name@,
        answer is Err ==> answer->Err_0 is DeviceNotFound,
        answer matches Ok(settings) ==> {
            &&& settings.device < devices@.len()
            &&& devices@[settings.device as int]@ == name@
            &&& forall|i: int| 0 <= i < settings.device ==> (#[trigger] devices@[i])@ != name@
            &&& settings.promiscuous
            &&& settings.snapshot_length == 65535
            &&& settings.timeout == 1000
            &&& settings.filter is None <==> filter@.len() == 0
            &&& settings.filter matches Some(text) ==> text@ == filter@
            &&& settings.optimized
        },
{
}

/// What a capture does next.
pub proof fn going_on_with_a_capture(event: CaptureEvent, step: CaptureStep)
    requires
        call_ensures(CaptureEngine::next_step, (event,), step),
    ensures
        match event {
            CaptureEvent::Received(packet) => step matches CaptureStep::Deliver(same) && same@
                == packet@,
            CaptureEvent::Failed(fault) => if fault.timeout_expired {
                step is Read
            } else {
                step matches CaptureStep::Fail(text) && text@
                    == "[Capture] 后台抓包遭遇致命错误: "@ + fault.debug@
            },
            CaptureEvent::Delivered => step is Read,
            CaptureEvent::ChannelClosed => step is Stop,
        },
{
}

/// What an error says.
pub proof fn telling_an_error(error: &SnifferError, message: String)
    requires
        call_ensures(SnifferError::message, (error,), message),
    ensures
        match error {
            SnifferError::PcapError(fault) => message@ == "Pcap 底层错误: "@ + fault.text@,
            SnifferError::DeviceNotFound => message@ == "找不到指定的网卡设备"@,
            SnifferError::InvalidLength => message@ == "数据包长度不足以解析首部"@,
            SnifferError::UnknownEtherType(ether_type) => message@
                == "未知的以太网协议类型: 0x"@ + text::hex(*ether_type as nat),
        },
{
}

/// A program starts with a running capture and an empty list, and tells so.
pub proof fn starting_a_program(session: Session, count: usize, selected: usize, scroll: usize)
    requires
        call_ensures(Session::new, (), session),
        call_ensures(Session::packet_count, (&session,), count),
        call_ensures(Session::selected, (&session,), selected),
        call_ensures(Session::scroll_offset, (&session,), scroll),
    ensures
        count == 0,
        selected == 0,
        scroll == 0,
        session@.state == CaptureState::Running,
        session@.info.len() == 0,
        session@.redraw,
{
}

/// The program tells its own state.
pub proof fn asking_a_program(
    session: &Session,
    count: usize,
    selected: usize,
    scroll: usize,
    state: CaptureState,
    redraw: bool,
    info: &str,
)
    requires
        call_ensures(Session::packet_count, (session,), count),
        call_ensures(Session::selected, (session,), selected),
        call_ensures(Session::scroll_offset, (session,), scroll),
        call_ensures(Session::capture_state, (session,), state),
        call_ensures(Session::needs_redraw, (session,), redraw),
        call_ensures(Session::info_message, (session,), info),
    ensures
        count == session@.packets.len(),
        selected == session@.selected,
        scroll == session@.scroll,
        state == session@.state,
        redraw == session@.redraw,
        info@ == session@.info,
{
}

/// A packet that arrives while the capture runs is the last of the list, and selected where the
/// one before it was. Nothing else changes, and nothing at all where the capture does not run.
pub proof fn keeping_a_packet(session: &mut Session, packet: Vec<u8>)
    requires
        call_ensures(Session::on_packet, (session, packet), ()),
        old(session)@.wf(),
    ensures
        ({
            let before = old(session)@;
            let after = final(session)@;
            if before.state == CaptureState::Running {
                &&& after.packets == before.packets.push(packet@)
                &&& after.selected == if before.selected + 1 >= before.packets.len() {
                    before.packets.len() as int
                } else {
                    before.selected
                }
                &&& after.scroll == before.scroll
                &&& after.state == before.state
                &&& after.info == before.info
                &&& after.redraw == before.redraw
            } else {
                after == before
            }
        }),
{
}

/// A key moves the selection by one packet inside the list, has the screen drawn, and ends the
/// program where it is the letter q.
pub proof fn pressing_a_key(session: &mut Session, key: Key, quit: bool)
    requires
        call_ensures(Session::on_key, (session, key), quit),
        old(session)@.wf(),
    ensures
        ({
            let before = old(session)@;
            let after = final(session)@;
            &&& quit <==> key == Key::Char('q') || key == Key::Char('Q')
            &&& after.packets == before.packets
            &&& after.scroll == before.scroll
            &&& after.state == before.state
            &&& after.info == before.info
            &&& after.redraw
            &&& after.selected == if key == Key::Up && before.selected > 0 {
                before.selected - 1
            } else if key == Key::Down && before.selected + 1 < before.packets.len() {
                before.selected + 1
            } else {
                before.selected
            }
        }),
{
}

/// An event keeps the list or clears it; keys, wheel and other reports do what they do alone.
pub proof fn reporting_an_event(
    session: &mut Session,
    event: Event,
    area: Option<Area>,
    action: Action,
)
    requires
        call_ensures(Session::on_event, (session, event, area), action),
        old(session)@.wf(),
    ensures
        final(session)@.wf(),
        final(session)@.redraw,
        final(session)@.packets == old(session)@.packets || (final(session)@.packets.len() == 0
            && final(session)@.state != CaptureState::Running),
        old(session)@.event_leads_to(event, area, (final(session)@, action)),
{
    super::events_keep_the_packets(old(session)@, event, area, final(session)@, action);
}

/// A jump selects its target, or the last packet, and changes nothing else.
pub proof fn jumping(session: &mut Session, target: usize)
    requires
        call_ensures(Session::jump_to, (session, target), ()),
        old(session)@.packets.len() > 0,
    ensures
        final(session)@.packets == old(session)@.packets,
        final(session)@.scroll == old(session)@.scroll,
        final(session)@.state == old(session)@.state,
        final(session)@.info == old(session)@.info,
        final(session)@.redraw == old(session)@.redraw,
        target < old(session)@.packets.len() ==> final(session)@.selected == target,
        target >= old(session)@.packets.len() ==> final(session)@.selected
            == old(session)@.packets.len() - 1,
{
}

/// A tick has the screen drawn and changes nothing else.
pub proof fn ticking(session: &mut Session)
    requires
        call_ensures(Session::on_tick, (session,), ()),
    ensures
        final(session)@.redraw,
        final(session)@.packets == old(session)@.packets,
        final(session)@.selected == old(session)@.selected,
        final(session)@.scroll == old(session)@.scroll,
        final(session)@.state == old(session)@.state,
        final(session)@.info == old(session)@.info,
{
}

/// The end of an export is told, with the failure where there was one.
pub proof fn ending_an_export(session: &mut Session, failure: Option<&str>)
    requires
        call_ensures(Session::on_exported, (session, failure), ()),
    ensures
        failure is None ==> final(session)@.info == "💾 成功导出标准文件: rusty_shark.pcap !"@,
        failure matches Some(text) ==> final(session)@.info == "❌ 导出文件系统出错: "@ + text@,
        final(session)@.packets == old(session)@.packets,
        final(session)@.selected == old(session)@.selected,
        final(session)@.scroll == old(session)@.scroll,
        final(session)@.state == old(session)@.state,
        final(session)@.redraw == old(session)@.redraw,
{
}

/// A press on the bar is what the buttons at its column make of it, and asks for what they ask.
pub proof fn pressing_the_bar(
    session: &mut Session,
    column: u16,
    buttons: &Buttons,
    asked: Pressed,
    bar: Area,
)
    requires
        call_ensures(Session::press, (session, column, buttons), asked),
        layout::lays_out_buttons(bar, *buttons),
    ensures
        ({
            let before = old(session)@;
            let after = final(session)@;
            let b = *buttons;
            let on_clear = b.clear.x <= column < b.clear.x + b.clear.width;
            let on_export = b.export.x <= column < b.export.x + b.export.width;
            &&& asked.export <==> on_export && before.packets.len() > 0
            &&& asked.quit <==> b.quit.x <= column < b.quit.x + b.quit.width
            &&& after.redraw == before.redraw
            &&& if on_clear && before.state != CaptureState::Running {
                after.packets.len() == 0 && after.selected == 0 && after.scroll == 0
            } else {
                &&& after.packets == before.packets
                &&& after.selected == before.selected
                &&& after.scroll == before.scroll
            }
            &&& after.state == if b.start.x <= column < b.start.x + b.start.width {
                CaptureState::Running
            } else if b.pause.x <= column < b.pause.x + b.pause.width && before.state
                == CaptureState::Running {
                CaptureState::Paused
            } else if b.stop.x <= column < b.stop.x + b.stop.width {
                CaptureState::Stopped
            } else {
                before.state
            }
        }),
{
    super::buttons_act_alone(old(session)@, bar, *buttons, column);
    let gaps = super::running::bar_is_split_from_left_to_right(bar, *buttons);
}

/// A press in the list selects the packet under the pointer, and one in a line of the bar asks
/// for the buttons.
pub proof fn pointing_at_the_list(session: &mut Session, mouse: Mouse, rows: &Rows, asked: Pointed)
    requires
        call_ensures(Session::point, (session, mouse, rows), asked),
        old(session)@.wf(),
        mouse.kind == MouseKind::LeftDown,
        rows.list.y < mouse.row < rows.list.y + rows.list.height - 1,
        rows.list.x < mouse.column < rows.list.x + rows.list.width - 1,
    ensures
        ({
            let before = old(session)@;
            let after = final(session)@;
            let packet = before.scroll + mouse.row - rows.list.y - 1;
            &&& asked == Pointed::Done
            &&& after.redraw
            &&& after.packets == before.packets
            &&& after.scroll == before.scroll
            &&& after.state == before.state
            &&& after.info == before.info
            &&& after.selected == if packet < before.packets.len() {
                packet
            } else {
                before.selected
            }
        }),
{
    super::running::press_selects_the_packet_under_the_pointer(
        old(session)@.dirty(),
        *rows,
        mouse,
    );
}

/// A composed panel shows the packets of the list from where it is scrolled to, marks the
/// selected one, and tells its details.
pub proof fn composing_a_panel(session: &mut Session, device: &str, height: u16, panel: Panel, i: int)
    requires
        call_ensures(Session::compose, (session, device, height), panel),
        old(session)@.wf(),
        old(session)@.packets.len() > 0,
        height > 2,
    ensures
        ({
            let before = old(session)@;
            let after = final(session)@;
            let n = panel.rows@.len();
            &&& after.packets == before.packets
            &&& after.selected == before.selected
            &&& after.state == before.state
            &&& after.info == before.info
            &&& !after.redraw
            &&& panel.total == before.packets.len()
            &&& panel.position == before.selected
            &&& n <= height - 2
            &&& n == height - 2 || after.scroll + n == before.packets.len()
            &&& 0 <= i < n ==> panel.rows@[i]@ == display::numbered_row(
                (after.scroll + i + 1) as nat,
                before.packets[after.scroll + i],
            )
            &&& panel.highlighted matches Some(line) && line < n && after.scroll + line
                == before.selected
            &&& panel.details@ == display::packet_tree(before.packets[before.selected])
            &&& before.info.len() > 0 ==> panel.tip@ == "  ✨ 状态反馈: "@ + before.info
        }),
{
    let before = old(session)@;
    let visible = model::visible_lines(height);
    super::running::panels_agree_on_the_selected_packet(before, device@, visible);
    super::running::drawing_scrolls_as_little_as_possible(before, visible, 0);
    super::running::list_shows_the_packets_from_the_scroll_position(
        before.drawn(visible),
        device@,
        visible,
        i,
    );
    assert(panel@.rows.len() == panel.rows@.len());
    if 0 <= i < panel.rows@.len() {
        assert(panel@.rows[i] == panel.rows@[i]@);
    }
}

/// A drawn screen is the split of its area, with the panel that fits the list's height.
pub proof fn drawing_a_screen(session: &mut Session, device: &str, area: Area, screen: Screen)
    requires
        call_ensures(Session::draw, (session, device, area), screen),
        old(session)@.wf(),
        old(session)@.packets.len() > 0,
        screen.rows.list.height > 2,
    ensures
        layout::lays_out_rows(area, screen.rows),
        layout::lays_out_buttons(screen.rows.bar, screen.buttons),
        final(session)@.packets == old(session)@.packets,
        final(session)@.selected == old(session)@.selected,
        screen.panel.details@ == display::packet_tree(
            old(session)@.packets[old(session)@.selected],
        ),
        screen.panel.highlighted matches Some(line) && final(session)@.scroll + line
            == old(session)@.selected && line < screen.rows.list.height - 2,
{
    let before = old(session)@;
    let visible = model::visible_lines(screen.rows.list.height);
    super::running::panels_agree_on_the_selected_packet(before, device@, visible);
    super::running::drawing_scrolls_as_little_as_possible(before, visible, 0);
}

/// Numerals are appended to what stands there, and change nothing of it.
pub proof fn appending_decimal_numerals(out: &mut String, n: u64, padded: &mut String, width: usize)
    requires
        call_ensures(text::push_decimal, (out, n), ()),
        call_ensures(text::push_padded_decimal, (padded, n, width), ()),
    ensures
        final(out)@ == old(out)@ + text::decimal(n as nat),
        final(padded)@ == old(padded)@ + text::zero_padded(text::decimal(n as nat), width as nat),
{
}

/// So are numerals in hexadecimal.
pub proof fn appending_hexadecimal_numerals(
    out: &mut String,
    n: u64,
    padded: &mut String,
    width: usize,
)
    requires
        call_ensures(text::push_hex, (out, n), ()),
        call_ensures(text::push_padded_hex, (padded, n, width), ()),
    ensures
        final(out)@ == old(out)@ + text::hex(n as nat),
        final(padded)@ == old(padded)@ + text::zero_padded(text::hex(n as nat), width as nat),
{
}

/// Every packet is listed and told as it was read: what the line and the tree say is told by the
/// frame that reading the same bytes gives.
pub proof fn telling_what_was_read<'a>(
    number: usize,
    packet: &'a [u8],
    answer: Result<EthernetFrame<'a>, SnifferError>,
    row: ListRow,
    tree: String,
)
    requires
        call_ensures(parser::parse_ethernet, (packet,), answer),
        call_ensures(display::brief, (number, packet), row),
        call_ensures(display::details, (packet,), tree),
    ensures
        answer matches Ok(frame) ==> {
            let front = "["@ + text::zero_padded(text::decimal(number as nat), 3) + "] "@;
            let first = " ├─ [Layer 2] 以太网帧: MAC ("@ + frame.src_mac@ + ") -> ("@
                + frame.dest_mac@ + ")\n"@;
            frame.payload matches IpProtocol::Ipv4(ip) ==> {
                let ends = ip.src_ip@ + " -> "@ + ip.dest_ip@;
                let second = first + " ├─ [Layer 3] 互联网协议 (IPv4): "@ + ends + "\n"@;
                match ip.transport {
                    TransportProtocol::Tcp(tcp) => {
                        &&& row.color == if tcp.flags.rst {
                            Color::Red
                        } else {
                            Color::LightBlue
                        }
                        &&& row.text@ == if tcp.flags.rst {
                            front + "协议: TCP(RST) | "@ + ends + " [异常断开连接]"@
                        } else {
                            front + "协议: TCP   | "@ + ends
                        }
                        &&& tree@ == second + (" └─ [Layer 4] 传输控制协议 (TCP)\n"@
                            + "      ├── 源端口: "@ + text::decimal(tcp.src_port as nat)
                            + " ──> 目的端口: "@ + text::decimal(tcp.dest_port as nat) + "\n"@
                            + "      ├── 序列号 (Seq): "@ + text::decimal(tcp.seq as nat)
                            + " | 确认号 (Ack): "@ + text::decimal(tcp.ack_num as nat) + "\n"@
                            + "      └── 控制标志位: ["@ + display::joined(
                            display::flag_names(tcp.flags),
                        ) + "] | 载荷大小: "@ + text::decimal(tcp.payload@.len()) + " 字节"@)
                    },
                    TransportProtocol::Udp(udp) => {
                        &&& row.color == Color::LightYellow
                        &&& row.text@ == front + "协议: UDP   | "@ + ends
                        &&& tree@ == second + (" └─ [Layer 4] 用户数据报协议 (UDP)\n"@
                            + "      └── 源端口: "@ + text::decimal(udp.src_port as nat)
                            + " ──> 目的端口: "@ + text::decimal(udp.dest_port as nat)
                            + " | 长度: "@ + text::decimal(udp.len as nat) + " 字节"@)
                    },
                    TransportProtocol::Unknown(raw) => {
                        &&& row.color == Color::White
                        &&& row.text@ == front + "协议: IPv4  | "@ + ends
                        &&& tree@ == second + (
                        " └─ [Layer 4] 未知传输层协议 | 原始载荷大小: "@ + text::decimal(raw@.len())
                            + " 字节"@)
                    },
                }
            }
        },
{
    if let Ok(frame) = answer {
        super::showing::line_says_what_was_read(number as nat, packet@);
        super::showing::tree_says_what_was_read(packet@);
        if let IpProtocol::Ipv4(ip) = frame.payload {
            let front = "["@ + text::zero_padded(text::decimal(number as nat), 3) + "] "@;
            let first = " ├─ [Layer 2] 以太网帧: MAC ("@ + frame.src_mac@ + ") -> ("@
                + frame.dest_mac@ + ")\n"@;
            let ends = ip.src_ip@ + " -> "@ + ip.dest_ip@;
            assert(first + " ├─ [Layer 3] 互联网协议 (IPv4): "@ + ends + "\n"@ =~= first
                + " ├─ [Layer 3] 互联网协议 (IPv4): "@ + ip.src_ip@ + " -> "@ + ip.dest_ip@
                + "\n"@);
            match ip.transport {
                TransportProtocol::Tcp(tcp) => {
                    super::showing::tcp_tree_says_what_was_read(tcp@);
                    if tcp.flags.rst {
                        assert(row.text@ =~= front + "协议: TCP(RST) | "@ + ends
                            + " [异常断开连接]"@);
                    } else {
                        assert(row.text@ =~= front + "协议: TCP   | "@ + ends);
                    }
                },
                TransportProtocol::Udp(udp) => {
                    super::showing::udp_tree_says_what_was_read(udp@);
                    assert(row.text@ =~= front + "协议: UDP   | "@ + ends);
                },
                TransportProtocol::Unknown(raw) => {
                    assert(row.text@ =~= front + "协议: IPv4  | "@ + ends);
                },
            }
        }
    }
}

/// Panels and buttons are laid out by the split of the very area that is given.
pub proof fn laying_out_a_screen(area: Area, rows: Rows, bar: Area, buttons: Buttons)
    requires
        call_ensures(layout::screen_rows, (area,), rows),
        call_ensures(layout::bar_buttons, (bar,), buttons),
    ensures
        layout::lays_out_rows(area, rows),
        layout::lays_out_buttons(bar, buttons),
        rows.status.y + rows.status.height <= rows.list.y,
        rows.list.y + rows.list.height <= rows.details.y,
        rows.details.y + rows.details.height <= rows.bar.y,
        rows.bar.y + rows.bar.height <= area.y + area.height,
        buttons.start.x + buttons.start.width <= buttons.pause.x,
        buttons.pause.x + buttons.pause.width <= buttons.stop.x,
        buttons.stop.x + buttons.stop.width <= buttons.clear.x,
        buttons.clear.x + buttons.clear.width <= buttons.export.x,
        buttons.export.x + buttons.export.width <= buttons.quit.x,
{
    super::running::screen_is_split_from_top_to_bottom(area, rows);
    let gaps = super::running::bar_is_split_from_left_to_right(bar, buttons);
}

/// A pointer does and asks for what the place where it stands is for: the ends of the scroll bar
/// move by one packet, its track asks for a jump, and a line of the bar asks for the buttons.
pub proof fn pointing_beside_the_list(
    session: &mut Session,
    mouse: Mouse,
    rows: &Rows,
    asked: Pointed,
)
    requires
        call_ensures(Session::point, (session, mouse, rows), asked),
        old(session)@.wf(),
        mouse.kind == MouseKind::LeftDown || mouse.kind == MouseKind::LeftDrag,
        !(rows.list.y < mouse.row < rows.list.y + rows.list.height - 1 && rows.list.x
            < mouse.column < rows.list.x + rows.list.width - 1),
    ensures
        ({
            let before = old(session)@;
            let after = final(session)@;
            let on_bar = mouse.column == rows.list.x + rows.list.width - 1 && rows.list.y
                <= mouse.row < rows.list.y + rows.list.height;
            let first = on_bar && mouse.row == rows.list.y;
            let last = on_bar && !first && mouse.row == rows.list.y + rows.list.height - 1;
            &&& after.redraw
            &&& after.packets == before.packets
            &&& after.scroll == before.scroll
            &&& after.state == before.state
            &&& after.info == before.info
            &&& after.selected == if first && before.selected > 0 {
                before.selected - 1
            } else if last && before.selected + 1 < before.packets.len() {
                before.selected + 1
            } else {
                before.selected
            }
            &&& asked == if on_bar && !first && !last && before.packets.len() > 0
                && rows.list.height >= 4 {
                Pointed::Jump {
                    row: (mouse.row - rows.list.y - 1) as u16,
                    height: (rows.list.height - 2) as u16,
                }
            } else if !on_bar && mouse.kind == MouseKind::LeftDown && rows.bar.y <= mouse.row
                < rows.bar.y + rows.bar.height {
                Pointed::Bar
            } else {
                Pointed::Done
            }
        }),
{
}

/// The wheel moves the selection by one packet inside the list, and asks for nothing; a drag over
/// the list, and what else a mouse does, only have the screen drawn.
pub proof fn turning_the_wheel(session: &mut Session, mouse: Mouse, rows: &Rows, asked: Pointed)
    requires
        call_ensures(Session::point, (session, mouse, rows), asked),
        old(session)@.wf(),
        mouse.kind != MouseKind::LeftDown,
        mouse.kind == MouseKind::LeftDrag ==> rows.list.y < mouse.row < rows.list.y
            + rows.list.height - 1 && rows.list.x < mouse.column < rows.list.x + rows.list.width
            - 1,
    ensures
        ({
            let before = old(session)@;
            let after = final(session)@;
            &&& asked == Pointed::Done
            &&& after.redraw
            &&& after.packets == before.packets
            &&& after.scroll == before.scroll
            &&& after.state == before.state
            &&& after.info == before.info
            &&& after.selected == if mouse.kind == MouseKind::ScrollUp && before.selected > 0 {
                before.selected - 1
            } else if mouse.kind == MouseKind::ScrollDown && before.selected + 1
                < before.packets.len() {
                before.selected + 1
            } else {
                before.selected
            }
        }),
{
}

/// The message after a press on the bar is that of its button, and stays where no button has
/// one.
pub proof fn hearing_from_the_bar(
    session: &mut Session,
    column: u16,
    buttons: &Buttons,
    asked: Pressed,
    bar: Area,
)
    requires
        call_ensures(Session::press, (session, column, buttons), asked),
        layout::lays_out_buttons(bar, *buttons),
    ensures
        ({
            let before = old(session)@;
            let running = before.state == CaptureState::Running;
            let b = *buttons;
            final(session)@.info == if b.start.x <= column < b.start.x + b.start.width {
                "监听引擎已唤醒，正在捕获最新流量..."@
            } else if b.pause.x <= column < b.pause.x + b.pause.width && running {
                "抓包已暂停，你可以自由翻阅和导出当前数据。"@
            } else if b.stop.x <= column < b.stop.x + b.stop.width {
                "抓包已彻底终止。"@
            } else if b.clear.x <= column < b.clear.x + b.clear.width && running {
                "⚠️ 警告：请先暂停或停止抓包再清空数据！"@
            } else if b.clear.x <= column < b.clear.x + b.clear.width {
                "缓冲区已清空，系统重置归零。"@
            } else if b.export.x <= column < b.export.x + b.export.width && before.packets.len()
                == 0 {
                "❌ 导出失败：当前没有任何捕获到的包数据！"@
            } else {
                before.info
            }
        }),
{
    super::buttons_act_alone(old(session)@, bar, *buttons, column);
    let gaps = super::running::bar_is_split_from_left_to_right(bar, *buttons);
}

/// A composed panel names the device, the state and the count, says what happened last, and
/// lights the buttons that fit; without packets it says so and marks nothing.
pub proof fn composing_the_rest_of_a_panel(
    session: &mut Session,
    device: &str,
    height: u16,
    panel: Panel,
)
    requires
        call_ensures(Session::compose, (session, device, height), panel),
        old(session)@.wf(),
    ensures
        ({
            let before = old(session)@;
            let running = before.state == CaptureState::Running;
            &&& panel.status@ == "  监听网卡: "@ + device@ + "  |  当前状态: "@ + (
            match before.state {
                CaptureState::Running => "🟢 运行中"@,
                CaptureState::Paused => "🟡 已暂停"@,
                CaptureState::Stopped => "🔴 已停止"@,
            }) + "  |   已捕获: "@ + text::decimal(before.packets.len()) + " 包"@
            &&& panel.tip@ == if before.info.len() == 0 {
                "  💡 提示：使用鼠标左键点击或按住拖拽右侧滚动条。"@
            } else {
                "  ✨ 状态反馈: "@ + before.info
            }
            &&& panel.looks.start.bold <==> running
            &&& panel.looks.pause.bold <==> before.state == CaptureState::Paused
            &&& panel.looks.stop.bold <==> before.state == CaptureState::Stopped
            &&& panel.looks.clear.color == Color::Cyan <==> !running && before.packets.len() > 0
            &&& panel.looks.export.bold <==> before.packets.len() > 0
            &&& before.packets.len() == 0 ==> {
                &&& panel.rows@.len() == 0
                &&& panel.highlighted is None
                &&& panel.details@
                    == " 📭 暂无数据，整个系统已归零。请点击下方 [开始/恢复] 重新触发流量..."@
            }
        }),
{
    let before = old(session)@;
    let visible = model::visible_lines(height);
    super::running::status_names_device_state_and_count(before.drawn(visible), device@, visible);
    super::running::buttons_look_like_the_state(before.drawn(visible), device@, visible);
    assert(panel@.rows.len() == panel.rows@.len());
}

} // verus!
