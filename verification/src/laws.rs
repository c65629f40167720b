//! What holds of the sniffer as a whole.

pub mod exporting;
pub mod operations;
pub mod reading;
pub mod running;
pub mod showing;
pub mod starting;

use crate::capture;
use crate::capture::{EventModel, StepModel};
use crate::display;
use crate::error::FaultModel;
use crate::layout;
use crate::layout::{Area, Buttons, Rows};
use crate::model;
use crate::model::SessionModel;
use crate::parser;
use crate::prompt;
use crate::session::{Action, Event, Mouse, Pressed};
use crate::text;
use vstd::prelude::*;

verus! {

/// The bytes behind the Ethernet and IPv4 headers of a frame.
pub open spec fn behind_ipv4(packet: Seq<u8>) -> Seq<u8> {
    packet.skip(14 + parser::ipv4_header_len(packet.skip(14)))
}

/// A frame is read exactly where its 14 header bytes are there.
pub proof fn whole_header_is_read(packet: Seq<u8>)
    ensures
        parser::frame_of(packet) is Some <==> packet.len() >= 14,
{
}

/// A frame whose content is not known is carried on with the EtherType that stands in it, also
/// where it announces an IPv4 packet that is not whole.
pub proof fn unknown_frame_keeps_its_ether_type(packet: Seq<u8>)
    requires
        packet.len() >= 14,
    ensures
        parser::ip_of(packet) matches parser::IpModel::Unknown(ether_type) ==> ether_type
            == parser::ether_type_of(packet),
        parser::ip_of(packet) is Ipv6 <==> parser::ether_type_of(packet) == 0x86DD,
        parser::ip_of(packet) is Arp <==> parser::ether_type_of(packet) == 0x0806,
        parser::ip_of(packet) is Ipv4 ==> parser::ether_type_of(packet) == 0x0800,
{
}

/// No byte of a payload is lost or made up: what an IPv4 packet carries is the end of the frame,
/// behind the headers as long as they say they are.
pub proof fn payload_is_the_end_of_the_frame(packet: Seq<u8>)
    requires
        packet.len() >= 14,
    ensures
        parser::ip_of(packet) matches parser::IpModel::Ipv4(ip) ==> {
            let carried = behind_ipv4(packet);
            match ip.transport {
                parser::TransportModel::Tcp(tcp) => tcp.payload == carried.skip(
                    parser::tcp_header_len(carried),
                ),
                parser::TransportModel::Udp(udp) => udp.payload == carried.skip(8),
                parser::TransportModel::Unknown(raw) => raw == carried,
            }
        },
{
    let inner = packet.skip(14);
    let n = parser::ipv4_header_len(inner);
    if parser::ip_of(packet) is Ipv4 {
        assert(inner.skip(n) =~= behind_ipv4(packet));
    }
}

/// Bytes behind a frame with a TCP segment lengthen the payload and change nothing else.
pub proof fn trailing_bytes_lengthen_tcp(packet: Seq<u8>, extra: Seq<u8>, tcp: parser::TcpModel)
    requires
        packet.len() >= 14,
        parser::ip_of(packet) matches parser::IpModel::Ipv4(ip) && ip.transport
            == parser::TransportModel::Tcp(tcp),
    ensures
        parser::frame_of(packet + extra) == Some(
            (parser::FrameModel {
                payload: parser::IpModel::Ipv4(
                    (parser::Ipv4Model {
                        transport: parser::TransportModel::Tcp(
                            (parser::TcpModel { payload: tcp.payload + extra, ..tcp }),
                        ),
                        ..(parser::ip_of(packet)->Ipv4_0)
                    }),
                ),
                ..(parser::frame_of(packet)->0)
            }),
        ),
{
    let inner = packet.skip(14);
    let n = parser::ipv4_header_len(inner);
    let carried = inner.skip(n);
    let m = parser::tcp_header_len(carried);
    assert((packet + extra).skip(14) =~= inner + extra);
    assert((inner + extra).skip(n) =~= carried + extra);
    assert((carried + extra).skip(m) =~= carried.skip(m) + extra);
    assert((packet + extra).subrange(0, 6) =~= packet.subrange(0, 6));
    assert((packet + extra).subrange(6, 12) =~= packet.subrange(6, 12));
}

/// Bytes behind a frame with a UDP datagram lengthen the payload and change nothing else.
pub proof fn trailing_bytes_lengthen_udp(packet: Seq<u8>, extra: Seq<u8>, udp: parser::UdpModel)
    requires
        packet.len() >= 14,
        parser::ip_of(packet) matches parser::IpModel::Ipv4(ip) && ip.transport
            == parser::TransportModel::Udp(udp),
    ensures
        parser::frame_of(packet + extra) == Some(
            (parser::FrameModel {
                payload: parser::IpModel::Ipv4(
                    (parser::Ipv4Model {
                        transport: parser::TransportModel::Udp(
                            (parser::UdpModel { payload: udp.payload + extra, ..udp }),
                        ),
                        ..(parser::ip_of(packet)->Ipv4_0)
                    }),
                ),
                ..(parser::frame_of(packet)->0)
            }),
        ),
{
    let inner = packet.skip(14);
    let n = parser::ipv4_header_len(inner);
    let carried = inner.skip(n);
    assert((packet + extra).skip(14) =~= inner + extra);
    assert((inner + extra).skip(n) =~= carried + extra);
    assert((carried + extra).skip(8) =~= carried.skip(8) + extra);
    assert((packet + extra).subrange(0, 6) =~= packet.subrange(0, 6));
    assert((packet + extra).subrange(6, 12) =~= packet.subrange(6, 12));
}

/// The text of an address of `n` bytes is three characters a byte, without the last colon.
proof fn mac_text_len(bytes: Seq<u8>)
    requires
        bytes.len() > 0,
    ensures
        parser::mac_text(bytes).len() == 3 * bytes.len() - 1,
    decreases bytes.len(),
{
    reveal_strlit(":");
    if bytes.len() > 1 {
        mac_text_len(bytes.drop_last());
    }
}

/// Two MAC addresses of one length have the same text only where they are the same.
pub proof fn mac_text_tells_addresses_apart(a: Seq<u8>, b: Seq<u8>)
    requires
        a.len() == b.len(),
        parser::mac_text(a) == parser::mac_text(b),
    ensures
        a == b,
    decreases a.len(),
{
    if a.len() == 0 {
        assert(a =~= b);
    } else if a.len() == 1 {
        text::hex_byte_is_injective(a[0], b[0]);
        assert(a =~= b);
    } else {
        reveal_strlit(":");
        let s = parser::mac_text(a);
        let t = parser::mac_text(b);
        mac_text_len(a);
        mac_text_len(a.drop_last());
        mac_text_len(b.drop_last());
        let n = parser::mac_text(a.drop_last()).len() as int;
        assert(s.take(n) =~= parser::mac_text(a.drop_last()));
        assert(t.take(n) =~= parser::mac_text(b.drop_last()));
        mac_text_tells_addresses_apart(a.drop_last(), b.drop_last());
        assert(s.skip(n + 1) =~= text::hex_byte(a.last()));
        assert(t.skip(n + 1) =~= text::hex_byte(b.last()));
        text::hex_byte_is_injective(a.last(), b.last());
        assert(a =~= a.drop_last().push(a.last()));
        assert(b =~= b.drop_last().push(b.last()));
    }
}

/// A text up to its first dot, and what stands behind the dot, are told by the text.
proof fn first_dot_splits(x: Seq<char>, u: Seq<char>, y: Seq<char>, v: Seq<char>)
    requires
        !x.contains('.'),
        !y.contains('.'),
        x + seq!['.'] + u == y + seq!['.'] + v,
    ensures
        x == y,
        u == v,
{
    let s = x + seq!['.'] + u;
    let t = y + seq!['.'] + v;
    if x.len() < y.len() {
        assert(s[x.len() as int] == '.');
        assert(t[x.len() as int] == y[x.len() as int]);
        assert(y.contains('.'));
    }
    if y.len() < x.len() {
        assert(t[y.len() as int] == '.');
        assert(s[y.len() as int] == x[y.len() as int]);
        assert(x.contains('.'));
    }
    assert(x =~= s.take(x.len() as int));
    assert(y =~= t.take(y.len() as int));
    assert(u =~= s.skip(x.len() as int + 1));
    assert(v =~= t.skip(y.len() as int + 1));
}

/// A decimal numeral holds no dot.
proof fn decimal_has_no_dot(n: nat)
    ensures
        !text::decimal(n).contains('.'),
{
    decimal_is_digits(n);
}

/// Two IPv4 addresses have the same text only where they are the same.
pub proof fn ip_text_tells_addresses_apart(a: Seq<u8>, b: Seq<u8>)
    requires
        a.len() == 4,
        b.len() == 4,
        parser::ip_text(a[0], a[1], a[2], a[3]) == parser::ip_text(b[0], b[1], b[2], b[3]),
    ensures
        a == b,
{
    reveal_strlit(".");
    assert("."@ =~= seq!['.']);
    let x = Seq::new(4, |i: int| text::decimal(a[i] as nat));
    let y = Seq::new(4, |i: int| text::decimal(b[i] as nat));
    let dot = seq!['.'];
    let x2 = x[2] + dot + x[3];
    let y2 = y[2] + dot + y[3];
    let x1 = x[1] + dot + x2;
    let y1 = y[1] + dot + y2;
    assert(parser::ip_text(a[0], a[1], a[2], a[3]) =~= x[0] + dot + x1);
    assert(parser::ip_text(b[0], b[1], b[2], b[3]) =~= y[0] + dot + y1);
    assert forall|i: int| 0 <= i < 4 implies !(#[trigger] x[i]).contains('.') && !y[i].contains(
        '.',
    ) by {
        decimal_has_no_dot(a[i] as nat);
        decimal_has_no_dot(b[i] as nat);
    }
    first_dot_splits(x[0], x1, y[0], y1);
    first_dot_splits(x[1], x2, y[1], y2);
    first_dot_splits(x[2], x[3], y[2], y[3]);
    assert forall|i: int| 0 <= i < 4 implies a[i] == b[i] by {
        assert(x[i] == y[i]);
        text::numeral_reads_back(a[i] as nat, 10);
        text::numeral_reads_back(b[i] as nat, 10);
    }
    assert(a =~= b);
}

/// A packet that arrives while the capture runs is kept behind the earlier ones, which stay as
/// they are; one that arrives else changes nothing.
pub proof fn arrival_only_appends(m: SessionModel, packet: Seq<u8>)
    ensures
        m.state is Running ==> m.received(packet).packets == m.packets.push(packet),
        !(m.state is Running) ==> m.received(packet) == m,
{
}

/// A selection of the newest packet follows the capture, and any other stays where it is.
pub proof fn selection_follows_the_newest(m: SessionModel, packet: Seq<u8>)
    requires
        m.wf(),
        m.state is Running,
    ensures
        m.at_bottom() ==> m.received(packet).at_bottom(),
        !m.at_bottom() ==> m.received(packet).selected == m.selected,
{
}

/// The panels and the buttons over which a press or a drag was placed.
proof fn layout_of_pointing(
    m: SessionModel,
    mouse: Mouse,
    area: Area,
    after: SessionModel,
    action: Action,
) -> (placed: (Rows, Buttons))
    requires
        model::places_pointer(mouse),
        m.event_leads_to(Event::Mouse(mouse), Some(area), (after, action)),
    ensures
        layout::lays_out_rows(area, placed.0),
        (after, action) == m.dirty().moused(mouse, placed.0, placed.1),
{
    let d = m.dirty();
    choose|rows: Rows, buttons: Buttons|
        {
            &&& layout::lays_out_rows(area, rows)
            &&& model::addressable(rows, mouse) && d.asked(rows, mouse) is Bar
                ==> layout::lays_out_buttons(rows.bar, buttons)
            &&& (after, action) == #[trigger] d.moused(mouse, rows, buttons)
        }
}

/// No event of the terminal changes a packet that was kept. It keeps all of them or it clears
/// them all, and it clears none while the capture goes on running.
pub proof fn events_keep_the_packets(
    m: SessionModel,
    event: Event,
    area: Option<Area>,
    after: SessionModel,
    action: Action,
)
    requires
        m.event_leads_to(event, area, (after, action)),
    ensures
        after.packets == m.packets || (after.packets.len() == 0 && !(after.state is Running)),
        after.redraw,
{
    if event is Mouse && model::places_pointer(event->Mouse_0) && area is Some {
        let _ = layout_of_pointing(m, event->Mouse_0, area->0, after, action);
    }
}

/// Events keep the selection and the scroll position inside the list.
pub proof fn events_keep_the_selection_inside(
    m: SessionModel,
    event: Event,
    area: Option<Area>,
    after: SessionModel,
    action: Action,
)
    requires
        m.wf(),
        m.event_leads_to(event, area, (after, action)),
    ensures
        after.wf(),
{
    if event is Mouse && model::places_pointer(event->Mouse_0) && area is Some {
        let _ = layout_of_pointing(m, event->Mouse_0, area->0, after, action);
    }
}

/// One step of the running program.
pub enum Step {
    Tick,
    Arrival(Seq<u8>),
    Reported(Event, Option<Area>, Action),
    Jumped(int),
    Exported(Option<Seq<char>>),
    Drawn(int),
}

/// Whether a step leads from one state to another.
pub open spec fn leads_to(before: SessionModel, step: Step, after: SessionModel) -> bool {
    match step {
        Step::Tick => after == before.dirty(),
        Step::Arrival(packet) => after == before.received(packet),
        Step::Reported(event, area, action) => before.event_leads_to(event, area, (after, action)),
        Step::Jumped(target) => before.packets.len() > 0 && target >= 0 && after == before.jumped(
            target,
        ),
        Step::Exported(failure) => after == before.exported(failure),
        Step::Drawn(visible) => visible >= 0 && after == before.drawn(visible),
    }
}

/// Whether the steps lead through the states, from a program that has just been started.
pub open spec fn runs_through(steps: Seq<Step>, states: Seq<SessionModel>) -> bool {
    &&& states.len() == steps.len() + 1
    &&& states[0] == SessionModel::started()
    &&& forall|i: int|
        0 <= i < steps.len() ==> leads_to(states[i], #[trigger] steps[i], states[i + 1])
}

/// Whether a step took every packet out of a list that held some.
pub open spec fn clears(before: SessionModel, after: SessionModel) -> bool {
    before.packets.len() > 0 && after.packets.len() == 0
}

/// Whether step `k` is an arrival while the capture ran, with no later step that cleared the
/// list.
pub open spec fn is_kept(steps: Seq<Step>, states: Seq<SessionModel>, k: int) -> bool {
    &&& 0 <= k < steps.len()
    &&& steps[k] is Arrival
    &&& states[k].state is Running
    &&& forall|j: int| k < j < steps.len() ==> !clears(#[trigger] states[j], states[j + 1])
}

/// Whatever happens to a running program, its selection and its scroll position lie inside the
/// list, and the list holds exactly the packets that arrived while the capture ran since the
/// list was last cleared, unaltered, each once and in the order of their arrival. The answer
/// gives the step at which each packet of the list arrived.
pub proof fn every_run_is_sound(steps: Seq<Step>, states: Seq<SessionModel>) -> (at: Seq<int>)
    requires
        runs_through(steps, states),
    ensures
        states.last().wf(),
        at.len() == states.last().packets.len(),
        forall|i: int, j: int| 0 <= i < j < at.len() ==> #[trigger] at[i] < #[trigger] at[j],
        forall|i: int|
            0 <= i < at.len() ==> {
                &&& is_kept(steps, states, #[trigger] at[i])
                &&& steps[at[i]] == Step::Arrival(states.last().packets[i])
            },
        forall|k: int| is_kept(steps, states, k) ==> at.contains(k),
    decreases steps.len(),
{
    if steps.len() == 0 {
        Seq::empty()
    } else {
        let n = steps.len() - 1;
        let earlier = steps.drop_last();
        let before = states.drop_last();
        assert forall|i: int| 0 <= i < earlier.len() implies leads_to(
            before[i],
            #[trigger] earlier[i],
            before[i + 1],
        ) by {
            assert(earlier[i] == steps[i]);
        }
        let then = every_run_is_sound(earlier, before);
        let m = before.last();
        let after = states.last();
        let step = steps.last();
        assert(leads_to(m, step, after)) by {
            assert(leads_to(states[n], steps[n], states[n + 1]));
        }
        if let Step::Reported(event, area, action) = step {
            events_keep_the_selection_inside(m, event, area, after, action);
            events_keep_the_packets(m, event, area, after, action);
        }
        let arrives = step is Arrival && m.state is Running;
        let at = if clears(m, after) {
            Seq::empty()
        } else if arrives {
            then.push(n)
        } else {
            then
        };
        assert forall|k: int| 0 <= k < n implies is_kept(steps, states, k) == (is_kept(
            earlier,
            before,
            k,
        ) && !clears(m, after)) by {
            if is_kept(earlier, before, k) && !clears(m, after) {
                assert forall|j: int| k < j < steps.len() implies !clears(
                    #[trigger] states[j],
                    states[j + 1],
                ) by {
                    if j < n {
                        assert(before[j] == states[j] && before[j + 1] == states[j + 1]);
                    }
                }
            }
            if is_kept(steps, states, k) {
                assert(!clears(states[n], states[n + 1]));
                assert forall|j: int| k < j < earlier.len() implies !clears(
                    #[trigger] before[j],
                    before[j + 1],
                ) by {
                    assert(!clears(states[j], states[j + 1]));
                }
            }
        }
        assert(is_kept(steps, states, n) == arrives);
        assert forall|k: int| is_kept(steps, states, k) implies at.contains(k) by {
            if k < n {
                assert(then.contains(k));
                let i = choose|i: int| 0 <= i < then.len() && then[i] == k;
                assert(at[i] == k);
            } else {
                assert(at[then.len() as int] == n);
            }
        }
        at
    }
}

/// Whatever the reads give and however long somebody listens: what a capture hands on is the
/// packets that it has read, in their order, each once and unaltered. It has read past no
/// failure but timeouts. It has ended on the first other failure, or on the first packet that
/// nobody took, and it has made every read where there was neither.
pub proof fn capture_hands_on_what_it_has_read(
    reads: Seq<Result<Seq<u8>, FaultModel>>,
    taken: nat,
)
    ensures
        ({
            let done = capture::run(StepModel::Read, reads, taken);
            let n = done.reads as int;
            &&& n <= reads.len()
            &&& done.sent == capture::packets_of(reads.take(n))
            &&& done.sent.len() <= taken + 1
            &&& forall|i: int| 0 <= i < n - 1 ==> !capture::is_fatal(#[trigger] reads[i])
            &&& match done.last {
                StepModel::Read => {
                    &&& n == reads.len()
                    &&& done.sent.len() <= taken
                    &&& n > 0 ==> !capture::is_fatal(reads[n - 1])
                },
                StepModel::Fail(text) => {
                    &&& n > 0
                    &&& done.sent.len() <= taken
                    &&& capture::is_fatal(reads[n - 1])
                    &&& text == capture::failure_text(reads[n - 1]->Err_0)
                },
                StepModel::Stop => n > 0 && done.sent.len() == taken + 1 && reads[n - 1] is Ok,
                StepModel::Deliver(_) => false,
            }
        }),
    decreases reads.len(),
{
    reveal_with_fuel(capture::run, 3);
    let done = capture::run(StepModel::Read, reads, taken);
    let n = done.reads as int;
    if reads.len() == 0 {
        assert(reads.take(0).len() == 0);
    } else {
        let later = reads.drop_first();
        capture_hands_on_what_it_has_read(later, taken);
        if reads[0] is Ok && taken > 0 {
            capture_hands_on_what_it_has_read(later, (taken - 1) as nat);
        }
        assert(n > 0);
        assert(reads.take(n)[0] == reads[0]);
        assert(reads.take(n).drop_first() =~= later.take(n - 1));
        assert forall|i: int| 0 <= i < n - 1 implies !capture::is_fatal(#[trigger] reads[i]) by {
            if i > 0 {
                assert(reads[i] == later[i - 1]);
            }
        }
        if n == 1 {
            assert(capture::packets_of(later.take(0)).len() == 0);
        } else {
            assert(reads[n - 1] == later[n - 2]);
        }
        assert(done.sent =~= capture::packets_of(reads.take(n)));
    }
}

/// Where somebody listens as long as there is something to hand on, a capture hands on exactly
/// the packets that are read before the first failure other than a timeout, in their order, each
/// once and unaltered. A timeout hands on nothing and does not end the capture.
pub proof fn capture_hands_on_every_packet(
    reads: Seq<Result<Seq<u8>, FaultModel>>,
    end: int,
    taken: nat,
)
    requires
        0 <= end <= reads.len(),
        forall|i: int| 0 <= i < end ==> !capture::is_fatal(#[trigger] reads[i]),
        end < reads.len() ==> capture::is_fatal(reads[end]),
        capture::packets_of(reads.take(end)).len() <= taken,
    ensures
        ({
            let done = capture::run(StepModel::Read, reads, taken);
            &&& done.sent == capture::packets_of(reads.take(end))
            &&& done.reads == if end < reads.len() {
                end + 1
            } else {
                end
            }
            &&& done.last == if end < reads.len() {
                StepModel::Fail(capture::failure_text(reads[end]->Err_0))
            } else {
                StepModel::Read
            }
        }),
    decreases reads.len(),
{
    reveal_with_fuel(capture::run, 3);
    if end > 0 {
        let later = reads.drop_first();
        assert(reads.take(end)[0] == reads[0]);
        assert(reads.take(end).drop_first() =~= later.take(end - 1));
        assert forall|i: int| 0 <= i < end - 1 implies !capture::is_fatal(#[trigger] later[i]) by {
            assert(later[i] == reads[i + 1]);
        }
        let left: nat = if reads[0] is Ok {
            (taken - 1) as nat
        } else {
            taken
        };
        capture_hands_on_every_packet(later, end - 1, left);
    } else {
        assert(reads.take(0).len() == 0);
    }
}

/// Where nobody listens any more before the first failure other than a timeout, a capture tries
/// to hand on the first packet that nobody takes, and ends on it.
pub proof fn capture_ends_where_nobody_listens(
    reads: Seq<Result<Seq<u8>, FaultModel>>,
    end: int,
    taken: nat,
)
    requires
        0 <= end <= reads.len(),
        forall|i: int| 0 <= i < end ==> !capture::is_fatal(#[trigger] reads[i]),
        capture::packets_of(reads.take(end)).len() > taken,
    ensures
        ({
            let done = capture::run(StepModel::Read, reads, taken);
            &&& done.sent == capture::packets_of(reads.take(end)).take(taken as int + 1)
            &&& done.last is Stop
            &&& 0 < done.reads <= end
            &&& reads[done.reads - 1] is Ok
            &&& capture::packets_of(reads.take(done.reads as int)) == done.sent
        }),
    decreases reads.len(),
{
    reveal_with_fuel(capture::run, 3);
    if end == 0 {
        assert(reads.take(0).len() == 0);
    } else {
        let later = reads.drop_first();
        let packets = capture::packets_of(reads.take(end));
        let rest = capture::packets_of(later.take(end - 1));
        assert(reads.take(end)[0] == reads[0]);
        assert(reads.take(end).drop_first() =~= later.take(end - 1));
        assert forall|i: int| 0 <= i < end - 1 implies !capture::is_fatal(#[trigger] later[i]) by {
            assert(later[i] == reads[i + 1]);
        }
        match reads[0] {
            Ok(packet) => if taken > 0 {
                capture_ends_where_nobody_listens(later, end - 1, (taken - 1) as nat);
                assert(packets.take(taken as int + 1) =~= seq![packet] + rest.take(taken as int));
            } else {
                assert(packets.take(1) =~= seq![packet]);
            },
            Err(_) => capture_ends_where_nobody_listens(later, end - 1, taken),
        }
        capture_hands_on_what_it_has_read(reads, taken);
    }
}

/// After a packet that nobody took, or a failure other than a timeout, nothing more is read and
/// nothing more is handed on, whatever the device would still give and whoever would listen.
pub proof fn refusal_or_failure_ends_the_capture(
    event: EventModel,
    reads: Seq<Result<Seq<u8>, FaultModel>>,
    taken: nat,
)
    requires
        event is ChannelClosed || (event matches EventModel::Failed(fault)
            && !fault.timeout_expired),
    ensures
        capture::run(capture::step_after(event), reads, taken).reads == 0,
        capture::run(capture::step_after(event), reads, taken).sent.len() == 0,
        capture::run(capture::step_after(event), reads, taken).last == capture::step_after(event),
{
}

/// A capture that has ended, on a failure or because nobody listens, stays as it is: more that
/// could be read changes neither what it has read nor what it has handed on.
pub proof fn ended_capture_does_nothing_more(
    reads: Seq<Result<Seq<u8>, FaultModel>>,
    more: Seq<Result<Seq<u8>, FaultModel>>,
    taken: nat,
)
    requires
        !(capture::run(StepModel::Read, reads, taken).last is Read),
    ensures
        capture::run(StepModel::Read, reads + more, taken) == capture::run(
            StepModel::Read,
            reads,
            taken,
        ),
    decreases reads.len(),
{
    reveal_with_fuel(capture::run, 3);
    if reads.len() > 0 {
        let later = reads.drop_first();
        assert((reads + more)[0] == reads[0]);
        assert((reads + more).drop_first() =~= later + more);
        match reads[0] {
            Ok(_) => if taken > 0 {
                ended_capture_does_nothing_more(later, more, (taken - 1) as nat);
            },
            Err(fault) => if fault.timeout_expired {
                ended_capture_does_nothing_more(later, more, taken);
            },
        }
    }
}

/// A press or a drag can be placed on every screen that has a column and whose list does not
/// end on its very first line.
pub proof fn visible_screen_is_addressable(area: Area, rows: Rows, mouse: Mouse)
    requires
        layout::lays_out_rows(area, rows),
        1 <= area.x + area.width <= u16::MAX,
        rows.list.y + rows.list.height >= 1,
    ensures
        model::addressable(rows, mouse),
{
}

/// One packet down and one up again leads back, and so does the other way round, inside the
/// list.
pub proof fn up_undoes_down(m: SessionModel)
    requires
        m.wf(),
    ensures
        m.selected < m.packets.len() - 1 ==> m.down().up() == m,
        m.selected > 0 ==> m.up().down() == m,
{
}

/// Drawing shows the selected packet: the list scrolls so that the packet is in one of its
/// lines, and that line is the marked one.
pub proof fn drawing_shows_the_selection(m: SessionModel, visible: int)
    requires
        m.wf(),
        m.packets.len() > 0,
        visible > 0,
    ensures
        ({
            let d = m.drawn(visible);
            let line = d.selected - d.scroll;
            &&& d.selected == m.selected
            &&& 0 <= line < d.list_rows(visible).len() <= visible
            &&& d.highlighted() == Some(line)
            &&& d.list_rows(visible)[line] == display::numbered_row(
                (m.selected + 1) as nat,
                m.packets[m.selected],
            )
        }),
{
}

/// Drawing changes nothing but the scroll position, and drawing again changes nothing.
pub proof fn drawing_is_idempotent(m: SessionModel, visible: int)
    requires
        m.wf(),
        visible >= 0,
    ensures
        m.drawn(visible).wf(),
        m.drawn(visible).drawn(visible) == m.drawn(visible),
        m.drawn(visible) == (SessionModel {
            scroll: m.drawn(visible).scroll,
            redraw: false,
            ..m
        }),
{
}

/// A list that shows the selection already does not scroll.
pub proof fn shown_selection_does_not_scroll(m: SessionModel, visible: int)
    requires
        m.scroll <= m.selected < m.scroll + visible,
    ensures
        m.in_view(visible).scroll == m.scroll,
{
}

/// A press on a line of the list selects the packet that the line shows, and the list stays
/// where it is when it is drawn again.
pub proof fn click_selects_the_packet_in_its_line(m: SessionModel, rows: Rows, mouse: Mouse)
    requires
        m.wf(),
        mouse.kind is LeftDown,
        model::in_list(rows.list, mouse),
        mouse.row - rows.list.y - 1 < m.list_rows(model::visible_lines(rows.list.height)).len(),
    ensures
        ({
            let visible = model::visible_lines(rows.list.height);
            let line = mouse.row - rows.list.y - 1;
            let after = m.pointed(rows, mouse);
            &&& after == m.select(m.scroll + line)
            &&& m.list_rows(visible)[line] == display::numbered_row(
                (after.selected + 1) as nat,
                m.packets[after.selected],
            )
            &&& after.in_view(visible).scroll == m.scroll
        }),
{
}

/// A press below the last line that shows a packet selects nothing.
pub proof fn click_below_the_list_selects_nothing(m: SessionModel, rows: Rows, mouse: Mouse)
    requires
        m.wf(),
        mouse.kind is LeftDown,
        model::in_list(rows.list, mouse),
        mouse.row - rows.list.y - 1 >= m.list_rows(model::visible_lines(rows.list.height)).len(),
    ensures
        m.pointed(rows, mouse) == m,
{
}

/// Buttons act alone, however the bar was laid out: a press does what its button says and
/// nothing else, and a press beside all buttons does nothing.
pub proof fn buttons_act_alone(m: SessionModel, bar: Area, buttons: Buttons, column: u16)
    requires
        layout::lays_out_buttons(bar, buttons),
    ensures
        ({
            let after = m.pressed(buttons, column);
            let asked = m.demanded(buttons, column);
            let nothing = Pressed { export: false, quit: false };
            if model::hits(buttons.start, column) {
                after == m.start() && asked == nothing
            } else if model::hits(buttons.pause, column) {
                after == m.pause() && asked == nothing
            } else if model::hits(buttons.stop, column) {
                after == m.stop() && asked == nothing
            } else if model::hits(buttons.clear, column) {
                after == m.clear() && asked == nothing
            } else if model::hits(buttons.export, column) {
                after == m.export() && asked == (Pressed {
                    export: m.packets.len() > 0,
                    quit: false,
                })
            } else if model::hits(buttons.quit, column) {
                after == m && asked == (Pressed { export: false, quit: true })
            } else {
                after == m && asked == nothing
            }
        }),
{
}

/// Every character of a decimal numeral is a digit.
proof fn decimal_is_digits(n: nat)
    ensures
        text::decimal(n).len() > 0,
        forall|i: int|
            0 <= i < text::decimal(n).len() ==> prompt::is_digit(#[trigger] text::decimal(n)[i]),
    decreases n,
{
    if n >= 10 {
        decimal_is_digits(n / 10);
    }
}

/// The number that a device is offered under chooses that device, typed with the line end
/// behind it.
pub proof fn offered_number_chooses_its_device(index: nat, count: nat)
    requires
        index < count <= usize::MAX,
    ensures
        prompt::chosen(text::decimal(index).push('\n'), count as int) == index,
{
    let digits = text::decimal(index);
    let line = digits.push('\n');
    decimal_is_digits(index);
    text::numeral_reads_back(index, 10);
    assert(!prompt::is_white_space(digits[0])) by {
        assert(prompt::is_digit(digits[0]));
    }
    assert(line[0] == digits[0]);
    assert(prompt::is_white_space(line.last()));
    assert(line.drop_last() =~= digits);
    assert(!prompt::is_white_space(digits.last())) by {
        assert(prompt::is_digit(digits[digits.len() - 1]));
    }
    assert(prompt::trimmed_end(digits) == digits);
    assert(prompt::trimmed(line) == digits);
    assert(digits[0] != '+') by {
        assert(prompt::is_digit(digits[0]));
    }
}

/// Trimming takes white space away and nothing else: what is left has none at its ends, and
/// what was taken away is white space.
pub proof fn trimming_takes_only_white_space(s: Seq<char>) -> (bounds: (int, int))
    ensures
        0 <= bounds.0 <= bounds.1 <= s.len(),
        prompt::trimmed(s) == s.subrange(bounds.0, bounds.1),
        forall|i: int|
            0 <= i < bounds.0 || bounds.1 <= i < s.len() ==> prompt::is_white_space(
                #[trigger] s[i],
            ),
        prompt::trimmed(s).len() > 0 ==> !prompt::is_white_space(prompt::trimmed(s)[0])
            && !prompt::is_white_space(prompt::trimmed(s).last()),
    decreases s.len(),
{
    if s.len() > 0 && prompt::is_white_space(s[0]) {
        let rest = s.skip(1);
        let (a, b) = trimming_takes_only_white_space(rest);
        assert(rest.subrange(a, b) =~= s.subrange(a + 1, b + 1));
        assert forall|i: int|
            0 <= i < a + 1 || b + 1 <= i < s.len() implies prompt::is_white_space(
            #[trigger] s[i],
        ) by {
            if i > 0 {
                assert(rest[i - 1] == s[i]);
            }
        }
        (a + 1, b + 1)
    } else {
        let n = end_trimming_takes_only_white_space(s);
        assert(s.take(n) =~= s.subrange(0, n));
        (0, n)
    }
}

/// The same of the end alone.
proof fn end_trimming_takes_only_white_space(s: Seq<char>) -> (n: int)
    ensures
        0 <= n <= s.len(),
        prompt::trimmed_end(s) == s.take(n),
        forall|i: int| n <= i < s.len() ==> prompt::is_white_space(#[trigger] s[i]),
        n > 0 ==> !prompt::is_white_space(s[n - 1]),
    decreases s.len(),
{
    if s.len() > 0 && prompt::is_white_space(s.last()) {
        let n = end_trimming_takes_only_white_space(s.drop_last());
        assert(s.drop_last().take(n) =~= s.take(n));
        assert forall|i: int| n <= i < s.len() implies prompt::is_white_space(#[trigger] s[i]) by {
            if i < s.len() - 1 {
                assert(s.drop_last()[i] == s[i]);
            }
        }
        n
    } else {
        assert(s.take(s.len() as int) =~= s);
        s.len() as int
    }
}

} // verus!
