//! The running program in mathematical terms: its state, and what each event makes of it.

use crate::display;
use crate::display::Color;
use crate::layout;
use crate::layout::{Area, Buttons, Rows};
use crate::session::{Action, CaptureState, Event, Key, Look, Looks, Mouse, MouseKind, PanelModel, Pointed, Pressed};
use crate::text;
use vstd::prelude::*;

verus! {

/// The mathematical content of a [`Session`].
#[verifier::ext_equal]
pub struct SessionModel {
    /// The packets that were kept, oldest first.
    pub packets: Seq<Seq<u8>>,
    /// The packet that is selected.
    pub selected: int,
    /// The packet in the first line of the list.
    pub scroll: int,
    pub state: CaptureState,
    /// What the last action had to say; empty before the first one.
    pub info: Seq<char>,
    /// Whether the screen is out of date.
    pub redraw: bool,
}

/// The lines of the list that fit into a panel with a frame around it.
pub open spec fn visible_lines(list_height: u16) -> int {
    if list_height < 2 {
        0
    } else {
        list_height - 2
    }
}

/// Whether a key ends the program.
pub open spec fn quits(key: Key) -> bool {
    key == Key::Char('q') || key == Key::Char('Q')
}

/// Whether a column lies on a button.
pub open spec fn hits(button: Area, column: u16) -> bool {
    button.x <= column < button.x + button.width
}

/// Whether a pointer stands on the right edge of the list, where the scroll bar is.
pub open spec fn on_scroll_bar(list: Area, mouse: Mouse) -> bool {
    &&& mouse.column + 1 == list.x + list.width
    &&& list.y <= mouse.row < list.y + list.height
}

/// Whether a pointer stands inside the frame of the list.
pub open spec fn in_list(list: Area, mouse: Mouse) -> bool {
    &&& list.y < mouse.row && mouse.row + 1 < list.y + list.height
    &&& list.x < mouse.column && mouse.column + 1 < list.x + list.width
}

/// Whether a pointer is put somewhere, at which the panels are asked what stands there.
pub open spec fn places_pointer(mouse: Mouse) -> bool {
    mouse.kind is LeftDown || mouse.kind is LeftDrag
}

/// Whether the edges of the panels that have to be compared with the pointer are 16-bit
/// coordinates.
pub open spec fn addressable(rows: Rows, mouse: Mouse) -> bool {
    places_pointer(mouse) ==> {
        &&& 1 <= rows.list.x + rows.list.width <= u16::MAX
        &&& mouse.row > rows.list.y ==> 1 <= rows.list.y + rows.list.height <= u16::MAX
        &&& mouse.row == rows.list.y && mouse.column + 1 == rows.list.x + rows.list.width
            ==> rows.list.y + rows.list.height <= u16::MAX
        &&& mouse.kind is LeftDown && !on_scroll_bar(rows.list, mouse) && !in_list(
            rows.list,
            mouse,
        ) && mouse.row >= rows.bar.y ==> rows.bar.y + rows.bar.height <= u16::MAX
    }
}

/// Whether the right edges of the buttons that begin at or before a column are 16-bit
/// coordinates.
pub open spec fn bar_addressable(buttons: Buttons, column: u16) -> bool {
    &&& column >= buttons.start.x ==> buttons.start.x + buttons.start.width <= u16::MAX
    &&& column >= buttons.pause.x ==> buttons.pause.x + buttons.pause.width <= u16::MAX
    &&& column >= buttons.stop.x ==> buttons.stop.x + buttons.stop.width <= u16::MAX
    &&& column >= buttons.clear.x ==> buttons.clear.x + buttons.clear.width <= u16::MAX
    &&& column >= buttons.export.x ==> buttons.export.x + buttons.export.width <= u16::MAX
    &&& column >= buttons.quit.x ==> buttons.quit.x + buttons.quit.width <= u16::MAX
}

/// Where a list scrolls to so that line `selected` is among the `visible` ones: as little as
/// possible, and to the line itself where none is visible.
pub open spec fn scrolled(scroll: int, selected: int, visible: int) -> int {
    if visible == 0 || selected < scroll {
        selected
    } else if selected >= scroll + visible {
        selected + 1 - visible
    } else {
        scroll
    }
}

/// The words for a capture state.
pub open spec fn state_text(state: CaptureState) -> Seq<char> {
    match state {
        CaptureState::Running => "🟢 运行中"@,
        CaptureState::Paused => "🟡 已暂停"@,
        CaptureState::Stopped => "🔴 已停止"@,
    }
}

/// How the buttons look in a capture state, with or without packets.
pub open spec fn looks_of(state: CaptureState, empty: bool) -> Looks {
    let plain = Look { color: Color::White, bold: false };
    let faint = Look { color: Color::DarkGray, bold: false };
    Looks {
        start: if state is Running {
            Look { color: Color::Green, bold: true }
        } else {
            plain
        },
        pause: if state is Paused {
            Look { color: Color::Yellow, bold: true }
        } else {
            plain
        },
        stop: if state is Stopped {
            Look { color: Color::Red, bold: true }
        } else {
            plain
        },
        clear: if !(state is Running) && !empty {
            Look { color: Color::Cyan, bold: false }
        } else {
            faint
        },
        export: if !empty {
            Look { color: Color::LightMagenta, bold: true }
        } else {
            faint
        },
        quit: Look { color: Color::LightRed, bold: false },
    }
}

impl SessionModel {
    /// The selection and the scroll position are packets of the list, or zero where there is
    /// none.
    pub open spec fn wf(self) -> bool {
        if self.packets.len() == 0 {
            self.selected == 0 && self.scroll == 0
        } else {
            0 <= self.selected < self.packets.len() && 0 <= self.scroll < self.packets.len()
        }
    }

    /// A program that has just been started.
    pub open spec fn started() -> SessionModel {
        SessionModel {
            packets: Seq::empty(),
            selected: 0,
            scroll: 0,
            state: CaptureState::Running,
            info: Seq::empty(),
            redraw: true,
        }
    }

    /// The program with another selection.
    pub open spec fn select(self, selected: int) -> SessionModel {
        SessionModel { selected, ..self }
    }

    /// The program with another message.
    pub open spec fn say(self, info: Seq<char>) -> SessionModel {
        SessionModel { info, ..self }
    }

    /// The screen is out of date.
    pub open spec fn dirty(self) -> SessionModel {
        SessionModel { redraw: true, ..self }
    }

    /// Whether the newest packet is selected, or none is there.
    pub open spec fn at_bottom(self) -> bool {
        self.packets.len() == 0 || self.selected == self.packets.len() - 1
    }

    /// A packet has arrived. It is kept while the capture runs, and a selection of the newest
    /// packet moves on to it.
    pub open spec fn received(self, packet: Seq<u8>) -> SessionModel {
        if self.state is Running {
            SessionModel {
                packets: self.packets.push(packet),
                selected: if self.at_bottom() {
                    self.packets.len() as int
                } else {
                    self.selected
                },
                ..self
            }
        } else {
            self
        }
    }

    /// The selection goes one packet up, where there is one.
    pub open spec fn up(self) -> SessionModel {
        if self.selected > 0 {
            self.select(self.selected - 1)
        } else {
            self
        }
    }

    /// The selection goes one packet down, where there is one.
    pub open spec fn down(self) -> SessionModel {
        if self.selected < self.packets.len() - 1 {
            self.select(self.selected + 1)
        } else {
            self
        }
    }

    /// The selection goes to a packet, or to the last one where it is beyond it.
    pub open spec fn jumped(self, target: int) -> SessionModel {
        self.select(
            if target < self.packets.len() {
                target
            } else {
                self.packets.len() - 1
            },
        )
    }

    /// A key was pressed.
    pub open spec fn keyed(self, key: Key) -> SessionModel {
        match key {
            Key::Down => self.down(),
            Key::Up => self.up(),
            _ => self,
        }
    }

    /// The mouse wheel was turned.
    pub open spec fn wheeled(self, kind: MouseKind) -> SessionModel {
        match kind {
            MouseKind::ScrollUp => self.up(),
            MouseKind::ScrollDown => self.down(),
            _ => self,
        }
    }

    /// The first packet behind those that `visible` lines of the list show.
    pub open spec fn list_end(self, visible: int) -> int {
        if self.scroll + visible < self.packets.len() {
            self.scroll + visible
        } else {
            self.packets.len() as int
        }
    }

    /// The pointer was put on the scroll bar. Its ends move the selection by one packet.
    pub open spec fn scroll_bar_pointed(self, list: Area, row: u16) -> SessionModel {
        if row == list.y {
            self.up()
        } else if row + 1 == list.y + list.height {
            self.down()
        } else {
            self
        }
    }

    /// The pointer was pressed on a line of the list. The packet in that line is selected.
    pub open spec fn list_pointed(self, list: Area, row: u16) -> SessionModel {
        let target = self.scroll + (row - list.y - 1);
        if target < self.list_end(visible_lines(list.height)) {
            self.select(target)
        } else {
            self
        }
    }

    /// What a mouse does at once, the bar of buttons apart.
    pub open spec fn pointed(self, rows: Rows, mouse: Mouse) -> SessionModel {
        if !places_pointer(mouse) {
            self.wheeled(mouse.kind)
        } else if on_scroll_bar(rows.list, mouse) {
            self.scroll_bar_pointed(rows.list, mouse.row)
        } else if in_list(rows.list, mouse) && mouse.kind is LeftDown {
            self.list_pointed(rows.list, mouse.row)
        } else {
            self
        }
    }

    /// What a mouse asks for beyond that.
    pub open spec fn asked(self, rows: Rows, mouse: Mouse) -> Pointed {
        if !places_pointer(mouse) {
            Pointed::Done
        } else if on_scroll_bar(rows.list, mouse) {
            if self.packets.len() > 0 && mouse.row != rows.list.y && mouse.row + 1 != rows.list.y
                + rows.list.height && visible_lines(rows.list.height) > 1 {
                Pointed::Jump {
                    row: (mouse.row - rows.list.y - 1) as u16,
                    height: visible_lines(rows.list.height) as u16,
                }
            } else {
                Pointed::Done
            }
        } else if !in_list(rows.list, mouse) && mouse.kind is LeftDown && rows.bar.y <= mouse.row
            < rows.bar.y + rows.bar.height {
            Pointed::Bar
        } else {
            Pointed::Done
        }
    }

    /// The button to start was pressed.
    pub open spec fn start(self) -> SessionModel {
        SessionModel { state: CaptureState::Running, ..self }.say(
            "监听引擎已唤醒，正在捕获最新流量..."@,
        )
    }

    /// The button to pause was pressed. Only a running capture can be paused.
    pub open spec fn pause(self) -> SessionModel {
        if self.state is Running {
            SessionModel { state: CaptureState::Paused, ..self }.say(
                "抓包已暂停，你可以自由翻阅和导出当前数据。"@,
            )
        } else {
            self
        }
    }

    /// The button to stop was pressed.
    pub open spec fn stop(self) -> SessionModel {
        SessionModel { state: CaptureState::Stopped, ..self }.say("抓包已彻底终止。"@)
    }

    /// The button to clear was pressed. A running capture is not cleared.
    pub open spec fn clear(self) -> SessionModel {
        if self.state is Running {
            self.say("⚠️ 警告：请先暂停或停止抓包再清空数据！"@)
        } else {
            SessionModel { packets: Seq::empty(), selected: 0, scroll: 0, ..self }.say(
                "缓冲区已清空，系统重置归零。"@,
            )
        }
    }

    /// The button to export was pressed. Without packets there is nothing to export.
    pub open spec fn export(self) -> SessionModel {
        if self.packets.len() == 0 {
            self.say("❌ 导出失败：当前没有任何捕获到的包数据！"@)
        } else {
            self
        }
    }

    /// The file has been written, or the writing failed.
    pub open spec fn exported(self, failure: Option<Seq<char>>) -> SessionModel {
        self.say(
            match failure {
                None => "💾 成功导出标准文件: rusty_shark.pcap !"@,
                Some(failure) => "❌ 导出文件系统出错: "@ + failure,
            },
        )
    }

    /// The bar was pressed at a column: the buttons there act from left to right, up to the
    /// one to clear.
    pub open spec fn pressed_before_export(self, buttons: Buttons, column: u16) -> SessionModel {
        let a = if hits(buttons.start, column) { self.start() } else { self };
        let b = if hits(buttons.pause, column) { a.pause() } else { a };
        let c = if hits(buttons.stop, column) { b.stop() } else { b };
        if hits(buttons.clear, column) {
            c.clear()
        } else {
            c
        }
    }

    /// The bar was pressed at a column.
    pub open spec fn pressed(self, buttons: Buttons, column: u16) -> SessionModel {
        let before = self.pressed_before_export(buttons, column);
        if hits(buttons.export, column) {
            before.export()
        } else {
            before
        }
    }

    /// What a press on the bar asks for beyond that.
    pub open spec fn demanded(self, buttons: Buttons, column: u16) -> Pressed {
        Pressed {
            export: hits(buttons.export, column) && self.pressed_before_export(
                buttons,
                column,
            ).packets.len() > 0,
            quit: hits(buttons.quit, column),
        }
    }

    /// What a mouse does to the program, and what is to be done then, over panels that stand
    /// where `rows` says and, where the bar was pressed, buttons that stand where `buttons`
    /// says.
    pub open spec fn moused(self, mouse: Mouse, rows: Rows, buttons: Buttons) -> (
        SessionModel,
        Action,
    ) {
        if !addressable(rows, mouse) {
            (self, Action::Unaddressable)
        } else {
            match self.asked(rows, mouse) {
                Pointed::Done => (self.pointed(rows, mouse), Action::Continue),
                Pointed::Jump { row, height } => (
                    self.pointed(rows, mouse),
                    Action::Jump { row, height },
                ),
                Pointed::Bar => (
                    self.pressed(buttons, mouse.column),
                    Action::Buttons(self.demanded(buttons, mouse.column)),
                ),
            }
        }
    }

    /// Whether some layout of the screen `area` makes `after` of a mouse.
    pub open spec fn mouse_leads_to(
        self,
        mouse: Mouse,
        area: Area,
        after: (SessionModel, Action),
    ) -> bool {
        exists|rows: Rows, buttons: Buttons|
            {
                &&& layout::lays_out_rows(area, rows)
                &&& addressable(rows, mouse) && self.asked(rows, mouse) is Bar
                    ==> layout::lays_out_buttons(rows.bar, buttons)
                &&& after == #[trigger] self.moused(mouse, rows, buttons)
            }
    }

    /// What an event does to the program, and what is to be done then. `area` is the screen,
    /// where its size is known.
    pub open spec fn event_leads_to(
        self,
        event: Event,
        area: Option<Area>,
        after: (SessionModel, Action),
    ) -> bool {
        match event {
            Event::Key(key) => after == (
                self.dirty().keyed(key),
                if quits(key) {
                    Action::Quit
                } else {
                    Action::Continue
                },
            ),
            Event::Mouse(mouse) => if !places_pointer(mouse) {
                after == (self.dirty().wheeled(mouse.kind), Action::Continue)
            } else if area is Some {
                self.dirty().mouse_leads_to(mouse, area->0, after)
            } else {
                after == (self.dirty(), Action::Continue)
            },
            Event::Other => after == (self.dirty(), Action::Continue),
        }
    }

    /// The list has been scrolled to the selection.
    pub open spec fn in_view(self, visible: int) -> SessionModel {
        SessionModel { scroll: scrolled(self.scroll, self.selected, visible), ..self }
    }

    /// The screen has been brought up to date.
    pub open spec fn drawn(self, visible: int) -> SessionModel {
        SessionModel { redraw: false, ..self.in_view(visible) }
    }

    /// The lines that the list shows.
    pub open spec fn list_rows(self, visible: int) -> Seq<display::RowModel> {
        Seq::new(
            (self.list_end(visible) - self.scroll) as nat,
            |i: int|
                display::numbered_row((self.scroll + i + 1) as nat, self.packets[self.scroll + i]),
        )
    }

    /// The line of the list that is marked.
    pub open spec fn highlighted(self) -> Option<int> {
        if self.packets.len() == 0 {
            None
        } else if self.selected < self.scroll {
            Some(0)
        } else {
            Some(self.selected - self.scroll)
        }
    }

    /// The line on top of the screen.
    pub open spec fn status_text(self, device: Seq<char>) -> Seq<char> {
        "  监听网卡: "@ + device + "  |  当前状态: "@ + state_text(self.state)
            + "  |   已捕获: "@ + text::decimal(self.packets.len()) + " 包"@
    }

    /// The tree of the selected packet.
    pub open spec fn details_text(self) -> Seq<char> {
        if self.packets.len() == 0 {
            " 📭 暂无数据，整个系统已归零。请点击下方 [开始/恢复] 重新触发流量..."@
        } else {
            display::packet_tree(self.packets[self.selected])
        }
    }

    /// The hint behind the buttons.
    pub open spec fn tip_text(self) -> Seq<char> {
        if self.info.len() == 0 {
            "  💡 提示：使用鼠标左键点击或按住拖拽右侧滚动条。"@
        } else {
            "  ✨ 状态反馈: "@ + self.info
        }
    }

    /// All that the panels show.
    pub open spec fn panel(self, device: Seq<char>, visible: int) -> PanelModel {
        PanelModel {
            status: self.status_text(device),
            rows: self.list_rows(visible),
            highlighted: self.highlighted(),
            total: self.packets.len() as int,
            position: self.selected,
            details: self.details_text(),
            looks: looks_of(self.state, self.packets.len() == 0),
            tip: self.tip_text(),
        }
    }
}

} // verus!
