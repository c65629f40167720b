//! The running program as a state machine: what arrives, what is selected, what is shown.

use crate::display;
use crate::display::{brief, details, Color, ListRow};
use crate::export;
use crate::export::export_to_pcap;
use crate::layout;
use crate::layout::{bar_buttons, screen_rows, Area, Buttons, Rows};
use crate::model;
use crate::model::SessionModel;
use crate::text;
use vstd::prelude::*;
use vstd::string::*;

verus! {

/// Whether packets that arrive are kept.
#[derive(Debug, Clone, Copy, PartialEq, Eq, Structural)]
pub enum CaptureState {
    Running,
    Paused,
    Stopped,
}

/// A key of the keyboard.
#[derive(Debug, Clone, Copy, PartialEq, Eq, Structural)]
pub enum Key {
    Char(char),
    Up,
    Down,
    Other,
}

/// What a mouse did.
#[derive(Debug, Clone, Copy, PartialEq, Eq, Structural)]
pub enum MouseKind {
    LeftDown,
    LeftDrag,
    ScrollUp,
    ScrollDown,
    Other,
}

/// What a mouse did, and where.
#[derive(Debug, Clone, Copy, PartialEq, Eq, Structural)]
pub struct Mouse {
    pub kind: MouseKind,
    pub column: u16,
    pub row: u16,
}

/// What a terminal reports.
#[derive(Debug, Clone, Copy, PartialEq, Eq, Structural)]
pub enum Event {
    Key(Key),
    Mouse(Mouse),
    Other,
}

/// What a pointer that was put on the screen asks for beyond what was done at once.
#[derive(Debug, Clone, Copy, PartialEq, Eq, Structural)]
pub enum Pointed {
    /// Nothing.
    Done,
    /// The selection is to go where the pointer stands on the track of the scroll bar: in its
    /// `row`th cell, counted from zero, of `height`.
    Jump { row: u16, height: u16 },
    /// The pointer was pressed on the bar of buttons.
    Bar,
}

/// What a press on the bar of buttons asks for beyond what was done at once.
#[derive(Debug, Clone, Copy, PartialEq, Eq, Structural)]
pub struct Pressed {
    /// The packets are to be written to a file.
    pub export: bool,
    /// The program is to end, after the export where there is one.
    pub quit: bool,
}

/// What is to be done after an event.
#[derive(Debug, Clone, Copy, PartialEq, Eq, Structural)]
pub enum Action {
    /// Nothing.
    Continue,
    /// See [`Pointed::Jump`].
    Jump { row: u16, height: u16 },
    /// See [`Pressed`].
    Buttons(Pressed),
    /// The program is to end.
    Quit,
    /// The panels leave no room to tell where the pointer stands; nothing was done.
    Unaddressable,
}

/// How the frame of a button is drawn.
#[derive(Debug, Clone, Copy, PartialEq, Eq, Structural)]
pub struct Look {
    pub color: Color,
    pub bold: bool,
}

/// How the frames of all buttons are drawn.
#[derive(Debug, Clone, Copy, PartialEq, Eq, Structural)]
pub struct Looks {
    pub start: Look,
    pub pause: Look,
    pub stop: Look,
    pub clear: Look,
    pub export: Look,
    pub quit: Look,
}

/// All that the panels show.
#[derive(Debug)]
pub struct Panel {
    pub status: String,
    pub rows: Vec<ListRow>,
    /// The line of the list that is marked, counted from the first one shown.
    pub highlighted: Option<usize>,
    /// How many packets there are, for the scroll bar.
    pub total: usize,
    /// Which packet is selected, for the scroll bar.
    pub position: usize,
    pub details: String,
    pub looks: Looks,
    pub tip: String,
}

/// The mathematical content of a [`Panel`].
pub struct PanelModel {
    pub status: Seq<char>,
    pub rows: Seq<display::RowModel>,
    pub highlighted: Option<int>,
    pub total: int,
    pub position: int,
    pub details: Seq<char>,
    pub looks: Looks,
    pub tip: Seq<char>,
}

impl View for Panel {
    type V = PanelModel;

    open spec fn view(&self) -> PanelModel {
        PanelModel {
            status: self.status@,
            rows: Seq::new(self.rows@.len(), |i: int| self.rows@[i]@),
            highlighted: match self.highlighted {
                Some(i) => Some(i as int),
                None => None,
            },
            total: self.total as int,
            position: self.position as int,
            details: self.details@,
            looks: self.looks,
            tip: self.tip@,
        }
    }
}

/// A screen, ready to be drawn.
#[derive(Debug)]
pub struct Screen {
    pub rows: Rows,
    pub buttons: Buttons,
    pub panel: Panel,
}

/// The running program.
pub struct Session {
    packets: Vec<Vec<u8>>,
    selected: usize,
    scroll: usize,
    state: CaptureState,
    info: String,
    redraw: bool,
}

impl View for Session {
    type V = SessionModel;

    closed spec fn view(&self) -> SessionModel {
        SessionModel {
            packets: export::contents(self.packets@),
            selected: self.selected as int,
            scroll: self.scroll as int,
            state: self.state,
            info: self.info@,
            redraw: self.redraw,
        }
    }
}

impl Session {
    /// A program that has just been started: the capture runs, and nothing has arrived.
    pub fn new() -> (session: Session)
        ensures
            session@ == SessionModel::started(),
            session@.wf(),
    {
        let session = Session {
            packets: Vec::new(),
            selected: 0,
            scroll: 0,
            state: CaptureState::Running,
            info: String::new(),
            redraw: true,
        };
        assert(session@ =~= SessionModel::started());
        session
    }

    /// How many packets were kept.
    pub fn packet_count(&self) -> (n: usize)
        ensures
            n == self@.packets.len(),
    {
        self.packets.len()
    }

    /// The packet that is selected; zero where there is none.
    pub fn selected(&self) -> (i: usize)
        ensures
            i == self@.selected,
    {
        self.selected
    }

    /// The packet in the first line of the list.
    pub fn scroll_offset(&self) -> (i: usize)
        ensures
            i == self@.scroll,
    {
        self.scroll
    }

    /// Whether packets that arrive are kept.
    pub fn capture_state(&self) -> (state: CaptureState)
        ensures
            state == self@.state,
    {
        self.state
    }

    /// Whether the screen is out of date.
    pub fn needs_redraw(&self) -> (redraw: bool)
        ensures
            redraw == self@.redraw,
    {
        self.redraw
    }

    /// What the last action had to say.
    pub fn info_message(&self) -> (info: &str)
        ensures
            info@ == self@.info,
    {
        self.info.as_str()
    }

    /// The frame timer ticked.
    pub fn on_tick(&mut self)
        ensures
            final(self)@ == old(self)@.dirty(),
    {
        self.redraw = true;
    }

    /// A packet has arrived.
    pub fn on_packet(&mut self, raw_data: Vec<u8>)
        requires
            old(self)@.wf(),
        ensures
            final(self)@ == old(self)@.received(raw_data@),
            final(self)@.wf(),
    {
        match self.state {
            CaptureState::Running => {
                let old_len: usize = self.packets.len();
                let was_at_bottom: bool = self.selected == old_len.saturating_sub(1);
                self.packets.push(raw_data);
                if was_at_bottom {
                    self.selected = self.packets.len() - 1;
                }
                assert(self@.packets =~= old(self)@.packets.push(raw_data@));
            },
            _ => {},
        }
    }

    /// The selection goes one packet up.
    fn up(&mut self)
        requires
            old(self)@.wf(),
        ensures
            final(self)@ == old(self)@.up(),
            final(self)@.wf(),
    {
        if self.selected > 0 {
            self.selected = self.selected - 1;
        }
    }

    /// The selection goes one packet down.
    fn down(&mut self)
        requires
            old(self)@.wf(),
        ensures
            final(self)@ == old(self)@.down(),
            final(self)@.wf(),
    {
        if self.packets.len() > 0 && self.selected < self.packets.len() - 1 {
            self.selected = self.selected + 1;
        }
    }

    /// The selection goes to a packet, or to the last one where there is no such packet.
    pub fn jump_to(&mut self, target: usize)
        requires
            old(self)@.wf(),
            old(self)@.packets.len() > 0,
        ensures
            final(self)@ == old(self)@.jumped(target as int),
            final(self)@.wf(),
    {
        let last: usize = self.packets.len() - 1;
        self.selected = if target < last {
            target
        } else {
            last
        };
    }

    /// A key was pressed. The answer says whether the program is to end.
    pub fn on_key(&mut self, key: Key) -> (quit: bool)
        requires
            old(self)@.wf(),
        ensures
            final(self)@ == old(self)@.dirty().keyed(key),
            final(self)@.wf(),
            quit == model::quits(key),
    {
        self.redraw = true;
        match key {
            Key::Char(c) => {
                return c == 'q' || c == 'Q';
            },
            Key::Down => self.down(),
            Key::Up => self.up(),
            Key::Other => {},
        }
        false
    }

    /// The pointer was put on the scroll bar.
    fn point_scroll_bar(&mut self, list: Area, row: u16) -> (asked: Pointed)
        requires
            old(self)@.wf(),
            list.y <= row < list.y + list.height <= u16::MAX,
        ensures
            final(self)@ == old(self)@.scroll_bar_pointed(list, row),
            final(self)@.wf(),
            asked == (if old(self)@.packets.len() > 0 && row != list.y && row + 1 != list.y
                + list.height && model::visible_lines(list.height) > 1 {
                Pointed::Jump {
                    row: (row - list.y - 1) as u16,
                    height: model::visible_lines(list.height) as u16,
                }
            } else {
                Pointed::Done
            }),
    {
        if self.packets.len() == 0 {
            return Pointed::Done;
        }
        if row == list.y {
            self.up();
            Pointed::Done
        } else if row == list.y + list.height - 1 {
            self.down();
            Pointed::Done
        } else {
            let height: u16 = list.height.saturating_sub(2);
            if height > 1 {
                Pointed::Jump { row: row - list.y - 1, height }
            } else {
                Pointed::Done
            }
        }
    }

    /// The pointer was pressed on a line of the list.
    fn point_list(&mut self, list: Area, row: u16)
        requires
            old(self)@.wf(),
            list.y < row,
            row + 1 < list.y + list.height <= u16::MAX,
        ensures
            final(self)@ == old(self)@.list_pointed(list, row),
            final(self)@.wf(),
    {
        let line: usize = (row - list.y - 1) as usize;
        let visible: usize = (list.height as usize).saturating_sub(2);
        if line < visible && line < self.packets.len() - self.scroll {
            self.selected = self.scroll + line;
        }
    }

    /// A mouse did something, over panels that stand where `rows` says. The answer says what
    /// it asks for beyond what was done at once.
    pub fn point(&mut self, mouse: Mouse, rows: &Rows) -> (asked: Pointed)
        requires
            old(self)@.wf(),
            model::addressable(*rows, mouse),
        ensures
            final(self)@ == old(self)@.dirty().pointed(*rows, mouse),
            final(self)@.wf(),
            asked == old(self)@.asked(*rows, mouse),
    {
        self.redraw = true;
        match mouse.kind {
            MouseKind::ScrollUp => {
                self.up();
                return Pointed::Done;
            },
            MouseKind::ScrollDown => {
                self.down();
                return Pointed::Done;
            },
            MouseKind::Other => {
                return Pointed::Done;
            },
            _ => {},
        }
        let list = rows.list;
        let pressed: bool = match mouse.kind {
            MouseKind::LeftDown => true,
            _ => false,
        };
        if mouse.column == list.x + list.width - 1 && mouse.row >= list.y && mouse.row < list.y
            + list.height {
            self.point_scroll_bar(list, mouse.row)
        } else if mouse.row > list.y && mouse.row < list.y + list.height - 1 && mouse.column
            > list.x && mouse.column < list.x + list.width - 1 {
            if pressed {
                self.point_list(list, mouse.row);
            }
            Pointed::Done
        } else if pressed && mouse.row >= rows.bar.y && mouse.row < rows.bar.y + rows.bar.height {
            Pointed::Bar
        } else {
            Pointed::Done
        }
    }

    /// The button to start was pressed.
    fn start(&mut self)
        ensures
            final(self)@ == old(self)@.start(),
    {
        self.state = CaptureState::Running;
        self.info = String::from_str("监听引擎已唤醒，正在捕获最新流量...");
    }

    /// The button to pause was pressed.
    fn pause(&mut self)
        ensures
            final(self)@ == old(self)@.pause(),
    {
        match self.state {
            CaptureState::Running => {
                self.state = CaptureState::Paused;
                self.info = String::from_str("抓包已暂停，你可以自由翻阅和导出当前数据。");
            },
            _ => {},
        }
    }

    /// The button to stop was pressed.
    fn stop(&mut self)
        ensures
            final(self)@ == old(self)@.stop(),
    {
        self.state = CaptureState::Stopped;
        self.info = String::from_str("抓包已彻底终止。");
    }

    /// The button to clear was pressed.
    fn clear(&mut self)
        ensures
            final(self)@ == old(self)@.clear(),
    {
        match self.state {
            CaptureState::Running => {
                self.info = String::from_str("⚠️ 警告：请先暂停或停止抓包再清空数据！");
            },
            _ => {
                self.packets.clear();
                self.selected = 0;
                self.scroll = 0;
                self.info = String::from_str("缓冲区已清空，系统重置归零。");
                assert(self@.packets =~= Seq::empty());
            },
        }
    }

    /// The bar of buttons was pressed at a column, with its buttons where `buttons` says. The
    /// answer says what is asked for beyond what was done at once.
    pub fn press(&mut self, column: u16, buttons: &Buttons) -> (asked: Pressed)
        requires
            old(self)@.wf(),
            model::bar_addressable(*buttons, column),
        ensures
            final(self)@ == old(self)@.pressed(*buttons, column),
            final(self)@.wf(),
            asked == old(self)@.demanded(*buttons, column),
    {
        if column >= buttons.start.x && column < buttons.start.x + buttons.start.width {
            self.start();
        }
        if column >= buttons.pause.x && column < buttons.pause.x + buttons.pause.width {
            self.pause();
        }
        if column >= buttons.stop.x && column < buttons.stop.x + buttons.stop.width {
            self.stop();
        }
        if column >= buttons.clear.x && column < buttons.clear.x + buttons.clear.width {
            self.clear();
        }
        let mut export = false;
        if column >= buttons.export.x && column < buttons.export.x + buttons.export.width {
            if self.packets.len() == 0 {
                self.info = String::from_str("❌ 导出失败：当前没有任何捕获到的包数据！");
            } else {
                export = true;
            }
        }
        let quit: bool = column >= buttons.quit.x && column < buttons.quit.x + buttons.quit.width;
        Pressed { export, quit }
    }

    /// Whether a pointer can be compared with the panels.
    fn is_addressable(rows: &Rows, mouse: Mouse) -> (addressable: bool)
        ensures
            addressable == model::addressable(*rows, mouse),
    {
        let pressed: bool = match mouse.kind {
            MouseKind::LeftDown => true,
            MouseKind::LeftDrag => false,
            _ => {
                return true;
            },
        };
        let column: u32 = mouse.column as u32;
        let row: u32 = mouse.row as u32;
        let left: u32 = rows.list.x as u32;
        let top: u32 = rows.list.y as u32;
        let right: u32 = left + rows.list.width as u32;
        let bottom: u32 = top + rows.list.height as u32;
        let bar_top: u32 = rows.bar.y as u32;
        let bar_bottom: u32 = bar_top + rows.bar.height as u32;
        let limit: u32 = 65535;
        let on_scroll_bar: bool = column + 1 == right && top <= row && row < bottom;
        let in_list: bool = top < row && row + 1 < bottom && left < column && column + 1 < right;
        1 <= right && right <= limit && (row <= top || (1 <= bottom && bottom <= limit)) && (row
            != top || column + 1 != right || bottom <= limit) && (!pressed || on_scroll_bar
            || in_list || row < bar_top || bar_bottom <= limit)
    }

    /// A mouse did something on a screen.
    fn on_mouse(&mut self, mouse: Mouse, area: Area) -> (action: Action)
        requires
            old(self)@.wf(),
            old(self)@.redraw,
        ensures
            old(self)@.mouse_leads_to(mouse, area, (final(self)@, action)),
            final(self)@.wf(),
    {
        let rows = screen_rows(area);
        let ghost before = self@;
        if !Session::is_addressable(&rows, mouse) {
            proof {
                let buttons = arbitrary();
                assert(before.moused(mouse, rows, buttons) == (before, Action::Unaddressable));
            }
            return Action::Unaddressable;
        }
        assert(before.dirty() =~= before);
        match self.point(mouse, &rows) {
            Pointed::Done => {
                proof {
                    let buttons = arbitrary();
                    assert(before.moused(mouse, rows, buttons) == (self@, Action::Continue));
                }
                Action::Continue
            },
            Pointed::Jump { row, height } => {
                proof {
                    let buttons = arbitrary();
                    assert(before.moused(mouse, rows, buttons) == (
                        self@,
                        Action::Jump { row, height },
                    ));
                }
                Action::Jump { row, height }
            },
            Pointed::Bar => {
                let buttons = bar_buttons(rows.bar);
                assert(self@ == before);
                assert(model::bar_addressable(buttons, mouse.column)) by {
                    let parts = choose|parts: Seq<Area>| #[trigger]
                        layout::splits_bar(rows.bar, parts) && buttons == layout::buttons_of(parts);
                    assert(parts[0].x + parts[0].width <= u16::MAX);
                    assert(parts[2].x + parts[2].width <= u16::MAX);
                    assert(parts[4].x + parts[4].width <= u16::MAX);
                    assert(parts[6].x + parts[6].width <= u16::MAX);
                    assert(parts[8].x + parts[8].width <= u16::MAX);
                    assert(parts[10].x + parts[10].width <= u16::MAX);
                }
                let asked = self.press(mouse.column, &buttons);
                assert(before.moused(mouse, rows, buttons) == (self@, Action::Buttons(asked)));
                Action::Buttons(asked)
            },
        }
    }

    /// The terminal reported something. `area` is the screen, or `None` where its size could
    /// not be had. The answer says what is to be done then.
    pub fn on_event(&mut self, event: Event, area: Option<Area>) -> (action: Action)
        requires
            old(self)@.wf(),
        ensures
            old(self)@.event_leads_to(event, area, (final(self)@, action)),
            final(self)@.wf(),
    {
        match event {
            Event::Key(key) => if self.on_key(key) {
                Action::Quit
            } else {
                Action::Continue
            },
            Event::Mouse(mouse) => {
                self.redraw = true;
                match mouse.kind {
                    MouseKind::LeftDown | MouseKind::LeftDrag => match area {
                        Some(area) => self.on_mouse(mouse, area),
                        None => Action::Continue,
                    },
                    MouseKind::ScrollUp => {
                        self.up();
                        Action::Continue
                    },
                    MouseKind::ScrollDown => {
                        self.down();
                        Action::Continue
                    },
                    MouseKind::Other => Action::Continue,
                }
            },
            Event::Other => {
                self.redraw = true;
                Action::Continue
            },
        }
    }

    /// The packets as the bytes of a file, see [`export_to_pcap`].
    pub fn export_file(&self, secs: u64, micros: u32) -> (file: Vec<u8>)
        ensures
            file@ == export::file_bytes(self@.packets, export::low32(secs as int), micros),
    {
        export_to_pcap(self.packets.as_slice(), secs, micros)
    }

    /// The file has been written, or the writing failed as `failure` says.
    pub fn on_exported(&mut self, failure: Option<&str>)
        ensures
            final(self)@ == old(self)@.exported(
                match failure {
                    Some(failure) => Some(failure@),
                    None => None,
                },
            ),
    {
        match failure {
            None => {
                self.info = String::from_str("💾 成功导出标准文件: rusty_shark.pcap !");
            },
            Some(failure) => {
                let mut info = String::from_str("❌ 导出文件系统出错: ");
                info.append(failure);
                self.info = info;
            },
        }
    }

    /// Scrolls the list to the selection.
    fn scroll_into_view(&mut self, visible: usize)
        requires
            old(self)@.wf(),
        ensures
            final(self)@ == old(self)@.in_view(visible as int),
            final(self)@.wf(),
    {
        if visible == 0 || self.selected < self.scroll {
            self.scroll = self.selected;
        } else if self.selected - self.scroll >= visible {
            self.scroll = self.selected - visible + 1;
        }
    }

    /// The lines that the list shows.
    fn list_rows(&self, visible: usize) -> (rows: Vec<ListRow>)
        requires
            self@.wf(),
        ensures
            Seq::new(rows@.len(), |i: int| rows@[i]@) == self@.list_rows(visible as int),
    {
        let start: usize = self.scroll;
        let end: usize = if self.packets.len() - start <= visible {
            self.packets.len()
        } else {
            start + visible
        };
        let mut rows: Vec<ListRow> = Vec::new();
        let mut idx: usize = start;
        while idx < end
            invariant
                self@.wf(),
                start == self@.scroll,
                start <= idx <= end,
                end <= self.packets@.len(),
                rows@.len() == idx - start,
                forall|i: int|
                    0 <= i < rows@.len() ==> (#[trigger] rows@[i])@ == display::numbered_row(
                        (start + i + 1) as nat,
                        self@.packets[start + i],
                    ),
            decreases end - idx,
        {
            let row = brief(idx + 1, self.packets[idx].as_slice());
            rows.push(row);
            idx = idx + 1;
        }
        assert(Seq::new(rows@.len(), |i: int| rows@[i]@) =~= self@.list_rows(visible as int));
        rows
    }

    /// The line on top of the screen.
    fn status_line(&self, device_name: &str) -> (line: String)
        ensures
            line@ == self@.status_text(device_name@),
    {
        let mut line = String::from_str("  监听网卡: ");
        line.append(device_name);
        line.append("  |  当前状态: ");
        line.append(
            match self.state {
                CaptureState::Running => "🟢 运行中",
                CaptureState::Paused => "🟡 已暂停",
                CaptureState::Stopped => "🔴 已停止",
            },
        );
        line.append("  |   已捕获: ");
        text::push_decimal(&mut line, self.packets.len() as u64);
        line.append(" 包");
        assert(line@ =~= self@.status_text(device_name@));
        line
    }

    /// The tree of the selected packet.
    fn selected_details(&self) -> (tree: String)
        requires
            self@.wf(),
        ensures
            tree@ == self@.details_text(),
    {
        if self.packets.len() == 0 {
            String::from_str(
                " 📭 暂无数据，整个系统已归零。请点击下方 [开始/恢复] 重新触发流量...",
            )
        } else {
            details(self.packets[self.selected].as_slice())
        }
    }

    /// The hint behind the buttons.
    fn tip_line(&self) -> (line: String)
        ensures
            line@ == self@.tip_text(),
    {
        if self.info.as_str().is_empty() {
            String::from_str("  💡 提示：使用鼠标左键点击或按住拖拽右侧滚动条。")
        } else {
            let mut line = String::from_str("  ✨ 状态反馈: ");
            line.append(self.info.as_str());
            line
        }
    }

    /// How the buttons look.
    fn looks(&self) -> (looks: Looks)
        ensures
            looks == model::looks_of(self@.state, self@.packets.len() == 0),
    {
        let plain = Look { color: Color::White, bold: false };
        let faint = Look { color: Color::DarkGray, bold: false };
        let empty: bool = self.packets.len() == 0;
        let mut looks = Looks {
            start: plain,
            pause: plain,
            stop: plain,
            clear: faint,
            export: faint,
            quit: Look { color: Color::LightRed, bold: false },
        };
        match self.state {
            CaptureState::Running => {
                looks.start = Look { color: Color::Green, bold: true };
            },
            CaptureState::Paused => {
                looks.pause = Look { color: Color::Yellow, bold: true };
            },
            CaptureState::Stopped => {
                looks.stop = Look { color: Color::Red, bold: true };
            },
        }
        if !empty {
            looks.export = Look { color: Color::LightMagenta, bold: true };
            match self.state {
                CaptureState::Running => {},
                _ => {
                    looks.clear = Look { color: Color::Cyan, bold: false };
                },
            }
        }
        looks
    }

    /// Brings the screen up to date, with a list panel of `list_height` lines, frame and all.
    pub fn compose(&mut self, device_name: &str, list_height: u16) -> (panel: Panel)
        requires
            old(self)@.wf(),
        ensures
            final(self)@ == old(self)@.drawn(model::visible_lines(list_height)),
            final(self)@.wf(),
            panel@ == final(self)@.panel(device_name@, model::visible_lines(list_height)),
    {
        let visible: usize = (list_height as usize).saturating_sub(2);
        self.scroll_into_view(visible);
        self.redraw = false;
        let highlighted: Option<usize> = if self.packets.len() == 0 {
            None
        } else {
            Some(self.selected.saturating_sub(self.scroll))
        };
        let panel = Panel {
            status: self.status_line(device_name),
            rows: self.list_rows(visible),
            highlighted,
            total: self.packets.len(),
            position: self.selected,
            details: self.selected_details(),
            looks: self.looks(),
            tip: self.tip_line(),
        };
        assert(panel@ =~= self@.panel(device_name@, model::visible_lines(list_height)));
        panel
    }

    /// Lays out a screen and brings it up to date.
    pub fn draw(&mut self, device_name: &str, area: Area) -> (screen: Screen)
        requires
            old(self)@.wf(),
        ensures
            layout::lays_out_rows(area, screen.rows),
            layout::lays_out_buttons(screen.rows.bar, screen.buttons),
            final(self)@ == old(self)@.drawn(model::visible_lines(screen.rows.list.height)),
            final(self)@.wf(),
            screen.panel@ == final(self)@.panel(
                device_name@,
                model::visible_lines(screen.rows.list.height),
            ),
    {
        let rows = screen_rows(area);
        let panel = self.compose(device_name, rows.list.height);
        let buttons = bar_buttons(rows.bar);
        Screen { rows, buttons, panel }
    }
}

} // verus!
