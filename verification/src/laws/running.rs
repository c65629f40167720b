//! What each event makes of the running program, and what its screen shows.

use crate::display;
use crate::display::{Color, ListRow};
use crate::layout;
use crate::layout::{Area, Buttons, Constraint, Direction, Rows};
use crate::model;
use crate::model::SessionModel;
use crate::session::{Action, CaptureState, Event, Key, Mouse, MouseKind, Panel, Pointed, Pressed};
use crate::text;
use vstd::prelude::*;

verus! {

/// A program starts with a running capture, an empty list, nothing to say and a screen to draw.
pub proof fn program_starts_empty_and_running()
    ensures
        SessionModel::started().packets.len() == 0,
        SessionModel::started().selected == 0,
        SessionModel::started().scroll == 0,
        SessionModel::started().state == CaptureState::Running,
        SessionModel::started().info.len() == 0,
        SessionModel::started().redraw,
{
}

/// Every state whose selection and scroll position are packets of the list is a sound one, and
/// so is one without packets whose selection and scroll position are zero; no other is.
pub proof fn sound_states(m: SessionModel)
    ensures
        m.packets.len() == 0 ==> (m.wf() <==> m.selected == 0 && m.scroll == 0),
        m.packets.len() > 0 ==> (m.wf() <==> 0 <= m.selected < m.packets.len() && 0 <= m.scroll
            < m.packets.len()),
{
}

/// A packet that arrives in a running capture becomes the last of the list, and nothing else
/// changes but the selection: it goes to the new packet where it stood on the last one, or where
/// there was none. A packet that arrives else changes nothing at all.
pub proof fn arrival_changes_the_list_and_the_selection(m: SessionModel, packet: Seq<u8>)
    requires
        m.wf(),
    ensures
        m.state != CaptureState::Running ==> m.received(packet) == m,
        m.state == CaptureState::Running ==> {
            let after = m.received(packet);
            &&& after.packets.len() == m.packets.len() + 1
            &&& after.packets.drop_last() == m.packets
            &&& after.packets.last() == packet
            &&& after.selected == if m.selected + 1 >= m.packets.len() {
                m.packets.len() as int
            } else {
                m.selected
            }
            &&& after.scroll == m.scroll
            &&& after.state == m.state
            &&& after.info == m.info
            &&& after.redraw == m.redraw
        },
{
    assert(m.packets.push(packet).drop_last() =~= m.packets);
}

/// A key moves the selection by one packet or not at all, never out of the list, and changes
/// nothing else but that the screen is to be drawn. Only the letter q ends the program, small or
/// capital.
pub proof fn keys_move_by_one(
    m: SessionModel,
    key: Key,
    after: SessionModel,
    action: Action,
    area: Option<Area>,
)
    requires
        m.wf(),
        m.event_leads_to(Event::Key(key), area, (after, action)),
    ensures
        action == if key == Key::Char('q') || key == Key::Char('Q') {
            Action::Quit
        } else {
            Action::Continue
        },
        model::quits(key) <==> key == Key::Char('q') || key == Key::Char('Q'),
        after == m.dirty().keyed(key),
        after == (SessionModel { selected: after.selected, redraw: true, ..m }),
        key == Key::Up && m.selected > 0 ==> after.selected == m.selected - 1,
        key == Key::Down && m.selected + 1 < m.packets.len() ==> after.selected == m.selected + 1,
        key == Key::Up && m.selected == 0 ==> after.selected == 0,
        key == Key::Down && m.selected + 1 >= m.packets.len() ==> after.selected == m.selected,
        key != Key::Up && key != Key::Down ==> after.selected == m.selected,
{
}

/// The wheel moves the selection as the arrow keys do, and whatever else a mouse does short of a
/// press or a drag only has the screen drawn.
pub proof fn wheel_moves_as_the_keys_do(
    m: SessionModel,
    mouse: Mouse,
    after: SessionModel,
    action: Action,
    area: Option<Area>,
)
    requires
        m.wf(),
        m.event_leads_to(Event::Mouse(mouse), area, (after, action)),
        mouse.kind != MouseKind::LeftDown,
        mouse.kind != MouseKind::LeftDrag,
    ensures
        action == Action::Continue,
        mouse.kind == MouseKind::ScrollUp ==> m.event_leads_to(
            Event::Key(Key::Up),
            area,
            (after, action),
        ),
        mouse.kind == MouseKind::ScrollDown ==> m.event_leads_to(
            Event::Key(Key::Down),
            area,
            (after, action),
        ),
        mouse.kind == MouseKind::Other ==> after == (SessionModel { redraw: true, ..m }),
{
}

/// A report that is neither a key nor a mouse, and a press on a screen of unknown size, have the
/// screen drawn and do nothing else.
pub proof fn other_reports_only_draw(
    m: SessionModel,
    event: Event,
    after: SessionModel,
    action: Action,
    area: Option<Area>,
)
    requires
        m.event_leads_to(event, area, (after, action)),
        event == Event::Other || (event is Mouse && area is None),
        event matches Event::Mouse(mouse) ==> mouse.kind == MouseKind::LeftDown || mouse.kind
            == MouseKind::LeftDrag,
    ensures
        after == (SessionModel { redraw: true, ..m }),
        action == Action::Continue,
{
}

/// A press or a drag on a screen of known size is placed over panels, and over buttons, that the
/// split of that very screen gives; what it does is what it does over those.
pub proof fn presses_are_placed_on_the_screen(
    m: SessionModel,
    mouse: Mouse,
    after: SessionModel,
    action: Action,
    area: Area,
) -> (placed: (Rows, Buttons))
    requires
        m.event_leads_to(Event::Mouse(mouse), Some(area), (after, action)),
        mouse.kind == MouseKind::LeftDown || mouse.kind == MouseKind::LeftDrag,
    ensures
        ({
            let d = SessionModel { redraw: true, ..m };
            let (rows, buttons) = placed;
            &&& layout::lays_out_rows(area, rows)
            &&& if !model::addressable(rows, mouse) {
                after == d && action == Action::Unaddressable
            } else {
                match d.asked(rows, mouse) {
                    Pointed::Done => after == d.pointed(rows, mouse) && action == Action::Continue,
                    Pointed::Jump { row, height } => after == d.pointed(rows, mouse) && action == (
                    Action::Jump { row, height }),
                    Pointed::Bar => {
                        &&& layout::lays_out_buttons(rows.bar, buttons)
                        &&& after == d.pressed(buttons, mouse.column)
                        &&& action == Action::Buttons(d.demanded(buttons, mouse.column))
                    },
                }
            }
        }),
{
    let d = m.dirty();
    choose|rows: Rows, buttons: Buttons|
        {
            &&& layout::lays_out_rows(area, rows)
            &&& model::addressable(rows, mouse) && d.asked(rows, mouse) is Bar
                ==> layout::lays_out_buttons(rows.bar, buttons)
            &&& (after, action) == #[trigger] d.moused(mouse, rows, buttons)
        }
}

/// The screen is split from top to bottom into the status, half for the list, a good third for
/// the details, and the bar; three lines each for the first and the last.
pub proof fn screen_is_split_from_top_to_bottom(area: Area, rows: Rows)
    requires
        layout::lays_out_rows(area, rows),
    ensures
        layout::possible_splits(
            Direction::Vertical,
            seq![
                Constraint::Length(3),
                Constraint::Percentage(50),
                Constraint::Percentage(35),
                Constraint::Length(3),
            ],
            area,
        ).contains(seq![rows.status, rows.list, rows.details, rows.bar]),
        area.y <= rows.status.y,
        rows.status.y + rows.status.height <= rows.list.y,
        rows.list.y + rows.list.height <= rows.details.y,
        rows.details.y + rows.details.height <= rows.bar.y,
        rows.bar.y + rows.bar.height <= area.y + area.height,
        rows.status.x == area.x && rows.status.width == area.width,
        rows.list.x == area.x && rows.list.width == area.width,
        rows.details.x == area.x && rows.details.width == area.width,
        rows.bar.x == area.x && rows.bar.width == area.width,
{
    let parts = seq![rows.status, rows.list, rows.details, rows.bar];
    assert(parts[0] == rows.status && parts[1] == rows.list && parts[2] == rows.details && parts[3]
        == rows.bar);
}

/// The bar is split from left to right into six buttons of 16 columns with one column between
/// each two, and the rest.
pub proof fn bar_is_split_from_left_to_right(bar: Area, buttons: Buttons) -> (gaps: Seq<Area>)
    requires
        layout::lays_out_buttons(bar, buttons),
    ensures
        gaps.len() == 5,
        layout::possible_splits(
            Direction::Horizontal,
            seq![
                Constraint::Length(16),
                Constraint::Length(1),
                Constraint::Length(16),
                Constraint::Length(1),
                Constraint::Length(16),
                Constraint::Length(1),
                Constraint::Length(16),
                Constraint::Length(1),
                Constraint::Length(16),
                Constraint::Length(1),
                Constraint::Length(16),
                Constraint::Min(0),
            ],
            bar,
        ).contains(
            seq![
                buttons.start,
                gaps[0],
                buttons.pause,
                gaps[1],
                buttons.stop,
                gaps[2],
                buttons.clear,
                gaps[3],
                buttons.export,
                gaps[4],
                buttons.quit,
                buttons.tip,
            ],
        ),
        bar.x <= buttons.start.x,
        buttons.start.x + buttons.start.width <= buttons.pause.x,
        buttons.pause.x + buttons.pause.width <= buttons.stop.x,
        buttons.stop.x + buttons.stop.width <= buttons.clear.x,
        buttons.clear.x + buttons.clear.width <= buttons.export.x,
        buttons.export.x + buttons.export.width <= buttons.quit.x,
        buttons.quit.x + buttons.quit.width <= buttons.tip.x,
        buttons.tip.x + buttons.tip.width <= bar.x + bar.width,
        buttons.start.y == bar.y && buttons.start.height == bar.height,
        buttons.pause.y == bar.y && buttons.pause.height == bar.height,
        buttons.stop.y == bar.y && buttons.stop.height == bar.height,
        buttons.clear.y == bar.y && buttons.clear.height == bar.height,
        buttons.export.y == bar.y && buttons.export.height == bar.height,
        buttons.quit.y == bar.y && buttons.quit.height == bar.height,
        buttons.tip.y == bar.y && buttons.tip.height == bar.height,
{
    let parts = choose|parts: Seq<Area>| #[trigger]
        layout::splits_bar(bar, parts) && buttons == layout::buttons_of(parts);
    let gaps = seq![parts[1], parts[3], parts[5], parts[7], parts[9]];
    assert(parts =~= seq![
        buttons.start,
        gaps[0],
        buttons.pause,
        gaps[1],
        buttons.stop,
        gaps[2],
        buttons.clear,
        gaps[3],
        buttons.export,
        gaps[4],
        buttons.quit,
        buttons.tip,
    ]);
    assert(layout::button_constraints() =~= seq![
        Constraint::Length(16),
        Constraint::Length(1),
        Constraint::Length(16),
        Constraint::Length(1),
        Constraint::Length(16),
        Constraint::Length(1),
        Constraint::Length(16),
        Constraint::Length(1),
        Constraint::Length(16),
        Constraint::Length(1),
        Constraint::Length(16),
        Constraint::Min(0),
    ]);
    gaps
}

/// A pointer can be compared with panels whose edges are 16-bit coordinates, and with a list that
/// has a column and does not end on the very first line; with a list of no column it cannot.
pub proof fn panels_that_can_be_pointed_at(rows: Rows, mouse: Mouse)
    ensures
        1 <= rows.list.x + rows.list.width <= u16::MAX && 1 <= rows.list.y + rows.list.height
            <= u16::MAX && rows.bar.y + rows.bar.height <= u16::MAX ==> model::addressable(
            rows,
            mouse,
        ),
        mouse.kind != MouseKind::LeftDown && mouse.kind != MouseKind::LeftDrag
            ==> model::addressable(rows, mouse),
        (mouse.kind == MouseKind::LeftDown || mouse.kind == MouseKind::LeftDrag) && (
        rows.list.x + rows.list.width == 0 || rows.list.x + rows.list.width > u16::MAX)
            ==> !model::addressable(rows, mouse),
        (mouse.kind == MouseKind::LeftDown || mouse.kind == MouseKind::LeftDrag) && mouse.row
            > rows.list.y && (rows.list.y + rows.list.height == 0 || rows.list.y
            + rows.list.height > u16::MAX) ==> !model::addressable(rows, mouse),
        rows.list.y >= mouse.row && 1 <= rows.list.x + rows.list.width <= u16::MAX && rows.list.y
            + rows.list.height <= u16::MAX && rows.bar.y + rows.bar.height <= u16::MAX
            ==> model::addressable(rows, mouse),
{
}

/// Buttons whose edges are 16-bit coordinates can be pressed at every column.
pub proof fn buttons_that_can_be_pressed(buttons: Buttons, column: u16)
    requires
        buttons.start.x + buttons.start.width <= u16::MAX,
        buttons.pause.x + buttons.pause.width <= u16::MAX,
        buttons.stop.x + buttons.stop.width <= u16::MAX,
        buttons.clear.x + buttons.clear.width <= u16::MAX,
        buttons.export.x + buttons.export.width <= u16::MAX,
        buttons.quit.x + buttons.quit.width <= u16::MAX,
    ensures
        model::bar_addressable(buttons, column),
{
}

/// What a press or a drag does follows from where it stands. On the right edge of the list is the
/// scroll bar: its first and its last cell move the selection by one packet, up and down, and the
/// cells between ask for a jump where there are packets and at least two such cells.
pub proof fn scroll_bar_is_the_right_edge_of_the_list(m: SessionModel, rows: Rows, mouse: Mouse)
    requires
        m.wf(),
        mouse.kind == MouseKind::LeftDown || mouse.kind == MouseKind::LeftDrag,
        mouse.column == rows.list.x + rows.list.width - 1,
        rows.list.y <= mouse.row < rows.list.y + rows.list.height,
    ensures
        ({
            let after = m.pointed(rows, mouse);
            let asked = m.asked(rows, mouse);
            let first = mouse.row == rows.list.y;
            let last = mouse.row == rows.list.y + rows.list.height - 1;
            &&& after == (SessionModel { selected: after.selected, ..m })
            &&& first && m.selected > 0 ==> after.selected == m.selected - 1
            &&& first && m.selected == 0 ==> after.selected == 0
            &&& !first && last && m.selected + 1 < m.packets.len() ==> after.selected
                == m.selected + 1
            &&& !first && last && m.selected + 1 >= m.packets.len() ==> after.selected
                == m.selected
            &&& !first && !last ==> after.selected == m.selected
            &&& if !first && !last && m.packets.len() > 0 && rows.list.height >= 4 {
                asked == (Pointed::Jump {
                    row: (mouse.row - rows.list.y - 1) as u16,
                    height: (rows.list.height - 2) as u16,
                })
            } else {
                asked == Pointed::Done
            }
        }),
{
}

/// Inside the frame of the list a press selects the packet whose line stands there: one line
/// below the upper edge stands the packet in the first line, and so on. Below the last packet it
/// selects nothing, and a drag does nothing.
pub proof fn press_selects_the_packet_under_the_pointer(m: SessionModel, rows: Rows, mouse: Mouse)
    requires
        m.wf(),
        mouse.kind == MouseKind::LeftDown || mouse.kind == MouseKind::LeftDrag,
        rows.list.y < mouse.row < rows.list.y + rows.list.height - 1,
        rows.list.x < mouse.column < rows.list.x + rows.list.width - 1,
    ensures
        ({
            let after = m.pointed(rows, mouse);
            let packet = m.scroll + mouse.row - rows.list.y - 1;
            &&& m.asked(rows, mouse) == Pointed::Done
            &&& after == (SessionModel { selected: after.selected, ..m })
            &&& after.selected == if mouse.kind == MouseKind::LeftDown && packet
                < m.packets.len() {
                packet
            } else {
                m.selected
            }
        }),
{
}

/// Beside the list nothing is done at once, and only a press in a line of the bar asks for
/// something: that the buttons are looked at.
pub proof fn bar_is_asked_for_by_a_press_in_its_lines(m: SessionModel, rows: Rows, mouse: Mouse)
    requires
        mouse.kind == MouseKind::LeftDown || mouse.kind == MouseKind::LeftDrag,
        !(mouse.column == rows.list.x + rows.list.width - 1 && rows.list.y <= mouse.row
            < rows.list.y + rows.list.height),
        !(rows.list.y < mouse.row < rows.list.y + rows.list.height - 1 && rows.list.x
            < mouse.column < rows.list.x + rows.list.width - 1),
    ensures
        m.pointed(rows, mouse) == m,
        m.asked(rows, mouse) == if mouse.kind == MouseKind::LeftDown && rows.bar.y <= mouse.row
            < rows.bar.y + rows.bar.height {
            Pointed::Bar
        } else {
            Pointed::Done
        },
{
}

/// A mouse that neither presses nor drags asks for nothing, and its wheel moves the selection.
pub proof fn wheel_asks_for_nothing(m: SessionModel, rows: Rows, mouse: Mouse)
    requires
        m.wf(),
        mouse.kind != MouseKind::LeftDown,
        mouse.kind != MouseKind::LeftDrag,
    ensures
        m.asked(rows, mouse) == Pointed::Done,
        m.pointed(rows, mouse) == match mouse.kind {
            MouseKind::ScrollUp => m.keyed(Key::Up),
            MouseKind::ScrollDown => m.keyed(Key::Down),
            _ => m,
        },
{
}

/// A jump selects the packet it names, or the last one where there are fewer, and changes
/// nothing else.
pub proof fn jump_selects_its_target(m: SessionModel, target: int)
    requires
        m.packets.len() > 0,
        target >= 0,
    ensures
        m.jumped(target) == (SessionModel { selected: m.jumped(target).selected, ..m }),
        target < m.packets.len() ==> m.jumped(target).selected == target,
        target >= m.packets.len() ==> m.jumped(target).selected == m.packets.len() - 1,
{
}

/// A press on the first button has the capture run, whatever it did before.
pub proof fn start_button_runs_the_capture(m: SessionModel, bar: Area, buttons: Buttons, column: u16)
    requires
        layout::lays_out_buttons(bar, buttons),
        buttons.start.x <= column < buttons.start.x + buttons.start.width,
    ensures
        m.pressed(buttons, column) == (SessionModel {
            state: CaptureState::Running,
            info: "监听引擎已唤醒，正在捕获最新流量..."@,
            ..m
        }),
        m.demanded(buttons, column) == (Pressed { export: false, quit: false }),
{
    super::buttons_act_alone(m, bar, buttons, column);
}

/// A press on the second button pauses a running capture, and does nothing to another.
pub proof fn pause_button_pauses_a_running_capture(
    m: SessionModel,
    bar: Area,
    buttons: Buttons,
    column: u16,
)
    requires
        layout::lays_out_buttons(bar, buttons),
        buttons.pause.x <= column < buttons.pause.x + buttons.pause.width,
    ensures
        m.state == CaptureState::Running ==> m.pressed(buttons, column) == (SessionModel {
            state: CaptureState::Paused,
            info: "抓包已暂停，你可以自由翻阅和导出当前数据。"@,
            ..m
        }),
        m.state != CaptureState::Running ==> m.pressed(buttons, column) == m,
        m.demanded(buttons, column) == (Pressed { export: false, quit: false }),
{
    super::buttons_act_alone(m, bar, buttons, column);
}

/// A press on the third button stops the capture, whatever it did before, and keeps the packets.
pub proof fn stop_button_stops_the_capture(m: SessionModel, bar: Area, buttons: Buttons, column: u16)
    requires
        layout::lays_out_buttons(bar, buttons),
        buttons.stop.x <= column < buttons.stop.x + buttons.stop.width,
    ensures
        m.pressed(buttons, column) == (SessionModel {
            state: CaptureState::Stopped,
            info: "抓包已彻底终止。"@,
            ..m
        }),
        m.demanded(buttons, column) == (Pressed { export: false, quit: false }),
{
    super::buttons_act_alone(m, bar, buttons, column);
}

/// A press on the fourth button empties the list and sets selection and scroll position to zero,
/// but not while the capture runs.
pub proof fn clear_button_empties_the_list(m: SessionModel, bar: Area, buttons: Buttons, column: u16)
    requires
        layout::lays_out_buttons(bar, buttons),
        buttons.clear.x <= column < buttons.clear.x + buttons.clear.width,
    ensures
        ({
            let after = m.pressed(buttons, column);
            if m.state == CaptureState::Running {
                after == (SessionModel {
                    info: "⚠️ 警告：请先暂停或停止抓包再清空数据！"@,
                    ..m
                })
            } else {
                &&& after.packets.len() == 0
                &&& after.selected == 0
                &&& after.scroll == 0
                &&& after.state == m.state
                &&& after.info == "缓冲区已清空，系统重置归零。"@
                &&& after.redraw == m.redraw
            }
        }),
        m.demanded(buttons, column) == (Pressed { export: false, quit: false }),
{
    super::buttons_act_alone(m, bar, buttons, column);
}

/// A press on the fifth button asks for an export exactly where there are packets, and says so
/// where there are none.
pub proof fn export_button_asks_where_there_are_packets(
    m: SessionModel,
    bar: Area,
    buttons: Buttons,
    column: u16,
)
    requires
        layout::lays_out_buttons(bar, buttons),
        buttons.export.x <= column < buttons.export.x + buttons.export.width,
    ensures
        m.packets.len() > 0 ==> m.pressed(buttons, column) == m,
        m.packets.len() == 0 ==> m.pressed(buttons, column) == (SessionModel {
            info: "❌ 导出失败：当前没有任何捕获到的包数据！"@,
            ..m
        }),
        m.demanded(buttons, column) == (Pressed { export: m.packets.len() > 0, quit: false }),
{
    super::buttons_act_alone(m, bar, buttons, column);
}

/// A press on the sixth button asks for the end, and a press beside all six for nothing.
pub proof fn quit_button_asks_for_the_end(m: SessionModel, bar: Area, buttons: Buttons, column: u16)
    requires
        layout::lays_out_buttons(bar, buttons),
        !(buttons.start.x <= column < buttons.start.x + buttons.start.width),
        !(buttons.pause.x <= column < buttons.pause.x + buttons.pause.width),
        !(buttons.stop.x <= column < buttons.stop.x + buttons.stop.width),
        !(buttons.clear.x <= column < buttons.clear.x + buttons.clear.width),
        !(buttons.export.x <= column < buttons.export.x + buttons.export.width),
    ensures
        m.pressed(buttons, column) == m,
        m.demanded(buttons, column) == (Pressed {
            export: false,
            quit: buttons.quit.x <= column < buttons.quit.x + buttons.quit.width,
        }),
{
    super::buttons_act_alone(m, bar, buttons, column);
}

/// The buttons, with all but some of them taken away.
pub open spec fn only(
    buttons: Buttons,
    start: bool,
    pause: bool,
    stop: bool,
    clear: bool,
    rest: bool,
) -> Buttons {
    let none = Area { x: 0, y: 0, width: 0, height: 0 };
    Buttons {
        start: if start { buttons.start } else { none },
        pause: if pause { buttons.pause } else { none },
        stop: if stop { buttons.stop } else { none },
        clear: if clear { buttons.clear } else { none },
        export: if rest { buttons.export } else { none },
        quit: if rest { buttons.quit } else { none },
        tip: buttons.tip,
    }
}

/// Where buttons overlap, a press is as good as one press on each of them, from left to right.
pub proof fn overlapping_buttons_act_one_after_the_other(
    m: SessionModel,
    buttons: Buttons,
    column: u16,
)
    ensures
        ({
            let a = m.pressed(only(buttons, true, false, false, false, false), column);
            let b = a.pressed(only(buttons, false, true, false, false, false), column);
            let c = b.pressed(only(buttons, false, false, true, false, false), column);
            let d = c.pressed(only(buttons, false, false, false, true, false), column);
            let last = only(buttons, false, false, false, false, true);
            &&& m.pressed(buttons, column) == d.pressed(last, column)
            &&& m.demanded(buttons, column) == d.demanded(last, column)
        }),
{
}

/// The end of an export is reported, with the failure where there was one, and nothing else
/// changes.
pub proof fn end_of_an_export_is_reported(m: SessionModel, failure: Seq<char>)
    ensures
        m.exported(None) == (SessionModel {
            info: "💾 成功导出标准文件: rusty_shark.pcap !"@,
            ..m
        }),
        m.exported(Some(failure)) == (SessionModel {
            info: "❌ 导出文件系统出错: "@ + failure,
            ..m
        }),
{
}

/// A list panel has two lines less for packets than it is high, or none.
pub proof fn frame_takes_two_lines(list_height: u16)
    ensures
        list_height >= 2 ==> model::visible_lines(list_height) == list_height - 2,
        list_height < 2 ==> model::visible_lines(list_height) == 0,
{
}

/// Drawing changes the scroll position and nothing else of what is kept. Where a line is visible,
/// the selection is then in view, and no scroll position with the selection in view is nearer to
/// the one before. Where none is visible, the list stands at the selection.
pub proof fn drawing_scrolls_as_little_as_possible(m: SessionModel, visible: int, other: int)
    requires
        m.wf(),
        visible >= 0,
    ensures
        ({
            let after = m.drawn(visible);
            let moved = after.scroll - m.scroll;
            let distance = if other < m.scroll {
                m.scroll - other
            } else {
                other - m.scroll
            };
            &&& after == (SessionModel { scroll: after.scroll, redraw: false, ..m })
            &&& visible == 0 ==> after.scroll == m.selected
            &&& visible > 0 ==> after.scroll <= m.selected < after.scroll + visible
            &&& visible > 0 && other <= m.selected < other + visible ==> -distance <= moved
                <= distance
        }),
{
}

/// A tick has the screen drawn and changes nothing else.
pub proof fn tick_only_draws(m: SessionModel)
    ensures
        m.dirty() == (SessionModel { redraw: true, ..m }),
{
}

/// The list shows the packets from the scroll position on, as many as there are and as fit, each
/// under its own number, counted from one.
pub proof fn list_shows_the_packets_from_the_scroll_position(
    m: SessionModel,
    device: Seq<char>,
    visible: int,
    i: int,
)
    requires
        m.wf(),
        visible >= 0,
    ensures
        ({
            let rows = m.panel(device, visible).rows;
            &&& rows.len() <= visible
            &&& m.scroll + rows.len() <= m.packets.len()
            &&& rows.len() == visible || m.scroll + rows.len() == m.packets.len()
            &&& 0 <= i < rows.len() ==> rows[i] == display::numbered_row(
                (m.scroll + i + 1) as nat,
                m.packets[m.scroll + i],
            )
        }),
{
}

/// What is marked, what the scroll bar stands at and what the details tell are one packet, the
/// selected one.
pub proof fn panels_agree_on_the_selected_packet(
    m: SessionModel,
    device: Seq<char>,
    visible: int,
)
    requires
        m.wf(),
        m.packets.len() > 0,
        visible > 0,
    ensures
        ({
            let panel = m.drawn(visible).panel(device, visible);
            &&& panel.highlighted matches Some(line) && {
                &&& 0 <= line < panel.rows.len()
                &&& m.drawn(visible).scroll + line == m.selected
                &&& panel.rows[line] == display::numbered_row(
                    (m.selected + 1) as nat,
                    m.packets[m.selected],
                )
            }
            &&& panel.details == display::packet_tree(m.packets[m.selected])
            &&& panel.position == m.selected
            &&& panel.total == m.packets.len()
        }),
{
}

/// The details tell of the selected packet and of nothing else: programs with the same selected
/// packet show the same details, whatever else is in their lists, wherever they are scrolled to
/// and whatever else they show.
pub proof fn details_depend_on_the_selected_packet_alone(
    m: SessionModel,
    other: SessionModel,
    device: Seq<char>,
    visible: int,
    other_device: Seq<char>,
    other_visible: int,
)
    requires
        m.wf(),
        other.wf(),
        m.packets.len() > 0,
        other.packets.len() > 0,
        m.packets[m.selected] == other.packets[other.selected],
    ensures
        m.panel(device, visible).details == other.panel(other_device, other_visible).details,
        m.panel(device, visible).details == display::packet_tree(m.packets[m.selected]),
{
}

/// Without packets nothing is marked, the list is empty, and the details say so.
pub proof fn empty_list_says_so(m: SessionModel, device: Seq<char>, visible: int)
    requires
        m.wf(),
        m.packets.len() == 0,
        visible >= 0,
    ensures
        m.panel(device, visible).highlighted is None,
        m.panel(device, visible).rows.len() == 0,
        m.panel(device, visible).total == 0,
        m.panel(device, visible).position == 0,
        m.panel(device, visible).details
            == " 📭 暂无数据，整个系统已归零。请点击下方 [开始/恢复] 重新触发流量..."@,
{
}

/// The marked line is the selected packet's, and the first one where the list begins behind it.
pub proof fn mark_is_counted_from_the_first_line(m: SessionModel, device: Seq<char>, visible: int)
    requires
        m.packets.len() > 0,
    ensures
        m.selected >= m.scroll ==> m.panel(device, visible).highlighted == Some(
            m.selected - m.scroll,
        ),
        m.selected < m.scroll ==> m.panel(device, visible).highlighted == Some(0int),
        m.panel(device, visible).position == m.selected,
        m.panel(device, visible).total == m.packets.len(),
{
}

/// The line on top names the device, what the capture does, and how many packets there are.
pub proof fn status_names_device_state_and_count(m: SessionModel, device: Seq<char>, visible: int)
    ensures
        m.state == CaptureState::Running ==> m.panel(device, visible).status == "  监听网卡: "@
            + device + "  |  当前状态: "@ + "🟢 运行中"@ + "  |   已捕获: "@ + text::decimal(
            m.packets.len(),
        ) + " 包"@,
        m.state == CaptureState::Paused ==> m.panel(device, visible).status == "  监听网卡: "@
            + device + "  |  当前状态: "@ + "🟡 已暂停"@ + "  |   已捕获: "@ + text::decimal(
            m.packets.len(),
        ) + " 包"@,
        m.state == CaptureState::Stopped ==> m.panel(device, visible).status == "  监听网卡: "@
            + device + "  |  当前状态: "@ + "🔴 已停止"@ + "  |   已捕获: "@ + text::decimal(
            m.packets.len(),
        ) + " 包"@,
{
}

/// The hint gives the last message, and a word on the mouse where there was none yet.
pub proof fn hint_gives_the_last_message(m: SessionModel, device: Seq<char>, visible: int)
    ensures
        m.info.len() > 0 ==> m.panel(device, visible).tip == "  ✨ 状态反馈: "@ + m.info,
        m.info.len() == 0 ==> m.panel(device, visible).tip
            == "  💡 提示：使用鼠标左键点击或按住拖拽右侧滚动条。"@,
{
}

/// Of the first three buttons the one stands out, bold and in its color, that says what the
/// capture does. The button to clear is lit where it would act on packets, the one to export
/// where there are packets; the one to quit always looks the same.
pub proof fn buttons_look_like_the_state(m: SessionModel, device: Seq<char>, visible: int)
    ensures
        ({
            let looks = m.panel(device, visible).looks;
            &&& looks.start.bold <==> m.state == CaptureState::Running
            &&& looks.start.color == if looks.start.bold {
                Color::Green
            } else {
                Color::White
            }
            &&& looks.pause.bold <==> m.state == CaptureState::Paused
            &&& looks.pause.color == if looks.pause.bold {
                Color::Yellow
            } else {
                Color::White
            }
            &&& looks.stop.bold <==> m.state == CaptureState::Stopped
            &&& looks.stop.color == if looks.stop.bold {
                Color::Red
            } else {
                Color::White
            }
            &&& !looks.clear.bold
            &&& looks.clear.color == if m.state != CaptureState::Running && m.packets.len() > 0 {
                Color::Cyan
            } else {
                Color::DarkGray
            }
            &&& looks.export.bold <==> m.packets.len() > 0
            &&& looks.export.color == if looks.export.bold {
                Color::LightMagenta
            } else {
                Color::DarkGray
            }
            &&& !looks.quit.bold
            &&& looks.quit.color == Color::LightRed
        }),
{
}

/// The mathematical content of what is shown holds every field under its own name.
pub proof fn contents_hold_what_is_shown(panel: Panel, row: ListRow, i: int)
    ensures
        row@.text == row.text@,
        row@.color == row.color,
        panel@.status == panel.status@,
        panel@.rows.len() == panel.rows@.len(),
        0 <= i < panel.rows@.len() ==> panel@.rows[i] == panel.rows@[i]@,
        panel@.highlighted is Some <==> panel.highlighted is Some,
        panel.highlighted matches Some(line) ==> panel@.highlighted == Some(line as int),
        panel@.total == panel.total,
        panel@.position == panel.position,
        panel@.details == panel.details@,
        panel@.looks == panel.looks,
        panel@.tip == panel.tip@,
{
}

} // verus!
