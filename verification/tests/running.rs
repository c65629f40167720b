use rusty_shark::display::Color;
use rusty_shark::layout::{bar_buttons, screen_rows, Area, Buttons, Rows};
use rusty_shark::session::{
    Action, CaptureState, Event, Key, Look, Mouse, MouseKind, Pointed, Pressed, Session,
};

const SCREEN: Area = Area { x: 0, y: 0, width: 120, height: 40 };

fn session_with(n: usize) -> Session {
    let mut session = Session::new();
    for i in 0..n {
        session.on_packet(vec![i as u8]);
    }
    session
}

fn mouse(kind: MouseKind, column: u16, row: u16) -> Event {
    Event::Mouse(Mouse { kind, column, row })
}

fn press(session: &mut Session, column: u16) -> Action {
    session.on_event(mouse(MouseKind::LeftDown, column, 38), Some(SCREEN))
}

fn at(x: u16, width: u16) -> Area {
    Area { x, y: 37, width, height: 3 }
}

#[test]
fn screen_is_laid_out() {
    let rows = screen_rows(SCREEN);
    assert_eq!(
        rows,
        Rows {
            status: Area { x: 0, y: 0, width: 120, height: 3 },
            list: Area { x: 0, y: 3, width: 120, height: 20 },
            details: Area { x: 0, y: 23, width: 120, height: 14 },
            bar: Area { x: 0, y: 37, width: 120, height: 3 },
        }
    );
    assert_eq!(
        bar_buttons(rows.bar),
        Buttons {
            start: at(0, 16),
            pause: at(17, 16),
            stop: at(34, 16),
            clear: at(51, 16),
            export: at(68, 16),
            quit: at(85, 16),
            tip: at(101, 19),
        }
    );
}

#[test]
fn fresh_session_runs_and_wants_drawing() {
    let session = Session::new();
    assert_eq!(session.capture_state(), CaptureState::Running);
    assert_eq!((session.packet_count(), session.selected(), session.scroll_offset()), (0, 0, 0));
    assert!(session.needs_redraw());
    assert_eq!(session.info_message(), "");
}

#[test]
fn newest_selection_follows_the_capture() {
    let mut session = session_with(3);
    assert_eq!(session.selected(), 2);
    session.on_key(Key::Up);
    session.on_packet(vec![9]);
    assert_eq!(session.selected(), 1);
    session.on_key(Key::Down);
    session.on_key(Key::Down);
    session.on_packet(vec![9]);
    assert_eq!((session.selected(), session.packet_count()), (4, 5));
}

#[test]
fn keys_stop_at_the_ends() {
    let mut session = session_with(2);
    assert!(!session.on_key(Key::Down));
    assert_eq!(session.selected(), 1);
    session.on_key(Key::Up);
    session.on_key(Key::Up);
    assert_eq!(session.selected(), 0);
    session.on_key(Key::Down);
    assert_eq!(session.selected(), 1);
    let mut empty = Session::new();
    empty.on_key(Key::Down);
    empty.on_key(Key::Up);
    assert_eq!(empty.selected(), 0);
}

#[test]
fn q_quits() {
    let mut session = session_with(1);
    assert_eq!(session.on_event(Event::Key(Key::Char('q')), None), Action::Quit);
    assert_eq!(session.on_event(Event::Key(Key::Char('Q')), None), Action::Quit);
    assert_eq!(session.on_event(Event::Key(Key::Char('x')), None), Action::Continue);
    assert_eq!(session.on_event(Event::Key(Key::Other), None), Action::Continue);
}

#[test]
fn wheel_moves_the_selection() {
    let mut session = session_with(3);
    session.on_event(mouse(MouseKind::ScrollUp, 0, 0), None);
    assert_eq!(session.selected(), 1);
    session.on_event(mouse(MouseKind::ScrollDown, 0, 0), Some(SCREEN));
    assert_eq!(session.selected(), 2);
    session.on_event(mouse(MouseKind::Other, 5, 5), Some(SCREEN));
    assert_eq!(session.selected(), 2);
}

#[test]
fn redraw_follows_ticks_and_events_but_not_packets() {
    let mut session = session_with(1);
    session.compose("eth0", 20);
    assert!(!session.needs_redraw());
    session.on_packet(vec![1]);
    assert!(!session.needs_redraw());
    session.on_tick();
    assert!(session.needs_redraw());
    session.compose("eth0", 20);
    session.on_event(Event::Other, None);
    assert!(session.needs_redraw());
}

#[test]
fn list_scrolls_with_the_selection() {
    let mut session = session_with(10);
    let panel = session.compose("eth0", 6);
    assert_eq!((session.selected(), session.scroll_offset()), (9, 6));
    assert_eq!(panel.rows.len(), 4);
    assert_eq!(panel.rows[0].text, "[007] 损坏的数据包");
    assert_eq!(panel.highlighted, Some(3));
    assert_eq!((panel.total, panel.position), (10, 9));
    for _ in 0..5 {
        session.on_key(Key::Up);
    }
    let panel = session.compose("eth0", 6);
    assert_eq!((session.selected(), session.scroll_offset()), (4, 4));
    assert_eq!(panel.highlighted, Some(0));
    session.compose("eth0", 6);
    assert_eq!(session.scroll_offset(), 4);
}

#[test]
fn list_without_lines_shows_nothing() {
    for height in 0..3 {
        let mut session = session_with(5);
        let panel = session.compose("eth0", height);
        assert!(panel.rows.is_empty());
        assert_eq!(panel.highlighted, Some(0));
        assert_eq!(session.scroll_offset(), 4);
    }
    let mut session = session_with(5);
    assert_eq!(session.compose("eth0", 3).rows.len(), 1);
}

#[test]
fn empty_panel() {
    let mut session = Session::new();
    let panel = session.compose("eth0", 20);
    assert_eq!(panel.status, "  监听网卡: eth0  |  当前状态: 🟢 运行中  |   已捕获: 0 包");
    assert!(panel.rows.is_empty());
    assert_eq!(panel.highlighted, None);
    assert_eq!(
        panel.details,
        " 📭 暂无数据，整个系统已归零。请点击下方 [开始/恢复] 重新触发流量..."
    );
    assert_eq!(panel.tip, "  💡 提示：使用鼠标左键点击或按住拖拽右侧滚动条。");
    let look = |color, bold| Look { color, bold };
    assert_eq!(panel.looks.start, look(Color::Green, true));
    assert_eq!(panel.looks.pause, look(Color::White, false));
    assert_eq!(panel.looks.stop, look(Color::White, false));
    assert_eq!(panel.looks.clear, look(Color::DarkGray, false));
    assert_eq!(panel.looks.export, look(Color::DarkGray, false));
    assert_eq!(panel.looks.quit, look(Color::LightRed, false));
}

#[test]
fn paused_and_stopped_panels() {
    let mut session = session_with(2);
    press(&mut session, 17);
    let panel = session.compose("lo", 20);
    assert_eq!(panel.status, "  监听网卡: lo  |  当前状态: 🟡 已暂停  |   已捕获: 2 包");
    assert_eq!(panel.tip, "  ✨ 状态反馈: 抓包已暂停，你可以自由翻阅和导出当前数据。");
    assert_eq!(panel.looks.pause, Look { color: Color::Yellow, bold: true });
    assert_eq!(panel.looks.start, Look { color: Color::White, bold: false });
    assert_eq!(panel.looks.clear, Look { color: Color::Cyan, bold: false });
    assert_eq!(panel.looks.export, Look { color: Color::LightMagenta, bold: true });
    assert_eq!(panel.details, " 解析失败: InvalidLength");
    press(&mut session, 49);
    let panel = session.compose("lo", 20);
    assert_eq!(panel.status, "  监听网卡: lo  |  当前状态: 🔴 已停止  |   已捕获: 2 包");
    assert_eq!(panel.looks.stop, Look { color: Color::Red, bold: true });
}

#[test]
fn draw_lays_out_and_composes() {
    let mut session = session_with(30);
    let screen = session.draw("eth0", SCREEN);
    assert_eq!(screen.rows, screen_rows(SCREEN));
    assert_eq!(screen.buttons, bar_buttons(screen.rows.bar));
    assert_eq!(screen.panel.rows.len(), 18);
    assert_eq!(session.scroll_offset(), 12);
    assert!(!session.needs_redraw());
}

#[test]
fn packets_are_dropped_unless_running() {
    let mut session = session_with(1);
    press(&mut session, 20);
    assert_eq!(session.capture_state(), CaptureState::Paused);
    session.on_packet(vec![7]);
    assert_eq!(session.packet_count(), 1);
    press(&mut session, 40);
    assert_eq!(session.capture_state(), CaptureState::Stopped);
    assert_eq!(session.info_message(), "抓包已彻底终止。");
    session.on_packet(vec![7]);
    assert_eq!(session.packet_count(), 1);
    press(&mut session, 0);
    assert_eq!(session.capture_state(), CaptureState::Running);
    assert_eq!(session.info_message(), "监听引擎已唤醒，正在捕获最新流量...");
    session.on_packet(vec![7]);
    assert_eq!(session.packet_count(), 2);
}

#[test]
fn only_a_running_capture_is_paused() {
    let mut session = session_with(1);
    press(&mut session, 40);
    press(&mut session, 20);
    assert_eq!(session.capture_state(), CaptureState::Stopped);
    assert_eq!(session.info_message(), "抓包已彻底终止。");
}

#[test]
fn running_capture_is_not_cleared() {
    let mut session = session_with(3);
    press(&mut session, 51);
    assert_eq!(session.packet_count(), 3);
    assert_eq!(session.info_message(), "⚠️ 警告：请先暂停或停止抓包再清空数据！");
    press(&mut session, 17);
    session.compose("eth0", 4);
    press(&mut session, 66);
    assert_eq!((session.packet_count(), session.selected(), session.scroll_offset()), (0, 0, 0));
    assert_eq!(session.info_message(), "缓冲区已清空，系统重置归零。");
}

#[test]
fn export_is_asked_for_and_reported() {
    let mut session = Session::new();
    assert_eq!(
        press(&mut session, 70),
        Action::Buttons(Pressed { export: false, quit: false })
    );
    assert_eq!(session.info_message(), "❌ 导出失败：当前没有任何捕获到的包数据！");
    session.on_packet(vec![1]);
    assert_eq!(
        press(&mut session, 70),
        Action::Buttons(Pressed { export: true, quit: false })
    );
    session.on_exported(None);
    assert_eq!(session.info_message(), "💾 成功导出标准文件: rusty_shark.pcap !");
    session.on_exported(Some("Kind(PermissionDenied)"));
    assert_eq!(session.info_message(), "❌ 导出文件系统出错: Kind(PermissionDenied)");
}

#[test]
fn quit_button_and_gaps() {
    let mut session = session_with(1);
    assert_eq!(
        press(&mut session, 100),
        Action::Buttons(Pressed { export: false, quit: true })
    );
    for gap in [16, 33, 50, 67, 84, 101, 119] {
        assert_eq!(
            press(&mut session, gap),
            Action::Buttons(Pressed { export: false, quit: false })
        );
    }
    assert_eq!(session.info_message(), "");
}

#[test]
fn overlapping_buttons_act_from_left_to_right() {
    let mut session = session_with(2);
    let all = Buttons {
        start: at(0, 10),
        pause: at(0, 10),
        stop: at(5, 5),
        clear: at(5, 5),
        export: at(0, 10),
        quit: at(0, 10),
        tip: at(0, 0),
    };
    assert_eq!(session.press(2, &all), Pressed { export: true, quit: true });
    assert_eq!(session.capture_state(), CaptureState::Paused);
    assert_eq!(session.press(7, &all), Pressed { export: false, quit: true });
    assert_eq!(session.packet_count(), 0);
    assert_eq!(session.info_message(), "❌ 导出失败：当前没有任何捕获到的包数据！");
}

#[test]
fn dragging_over_the_bar_presses_nothing() {
    let mut session = session_with(1);
    assert_eq!(
        session.on_event(mouse(MouseKind::LeftDrag, 17, 38), Some(SCREEN)),
        Action::Continue
    );
    assert_eq!(session.capture_state(), CaptureState::Running);
}

#[test]
fn click_selects_the_line() {
    let mut session = session_with(30);
    session.draw("eth0", SCREEN);
    let action = session.on_event(mouse(MouseKind::LeftDown, 10, 4 + 5), Some(SCREEN));
    assert_eq!(action, Action::Continue);
    assert_eq!(session.selected(), 12 + 5);
    let panel = session.compose("eth0", 20);
    assert_eq!(panel.highlighted, Some(5));
    assert_eq!(session.scroll_offset(), 12);
    session.on_event(mouse(MouseKind::LeftDrag, 10, 4), Some(SCREEN));
    assert_eq!(session.selected(), 17);
}

#[test]
fn click_below_the_last_packet_selects_nothing() {
    let mut session = session_with(3);
    session.draw("eth0", SCREEN);
    session.on_event(mouse(MouseKind::LeftDown, 10, 4 + 3), Some(SCREEN));
    assert_eq!(session.selected(), 2);
    session.on_event(mouse(MouseKind::LeftDown, 10, 4), Some(SCREEN));
    assert_eq!(session.selected(), 0);
    session.on_event(mouse(MouseKind::LeftDown, 0, 4 + 1), Some(SCREEN));
    assert_eq!(session.selected(), 0);
}

#[test]
fn scroll_bar_ends_move_by_one() {
    let mut session = session_with(5);
    assert_eq!(
        session.on_event(mouse(MouseKind::LeftDown, 119, 3), Some(SCREEN)),
        Action::Continue
    );
    assert_eq!(session.selected(), 3);
    session.on_event(mouse(MouseKind::LeftDrag, 119, 22), Some(SCREEN));
    session.on_event(mouse(MouseKind::LeftDrag, 119, 22), Some(SCREEN));
    assert_eq!(session.selected(), 4);
}

#[test]
fn scroll_bar_track_asks_for_a_jump() {
    let mut session = session_with(5);
    assert_eq!(
        session.on_event(mouse(MouseKind::LeftDrag, 119, 13), Some(SCREEN)),
        Action::Jump { row: 9, height: 18 }
    );
    assert_eq!(session.selected(), 4);
    session.jump_to(1);
    assert_eq!(session.selected(), 1);
    session.jump_to(99);
    assert_eq!(session.selected(), 4);
    let mut empty = Session::new();
    assert_eq!(
        empty.on_event(mouse(MouseKind::LeftDown, 119, 13), Some(SCREEN)),
        Action::Continue
    );
}

#[test]
fn short_track_asks_for_nothing() {
    let mut session = session_with(5);
    let flat = Area { x: 0, y: 0, width: 10, height: 0 };
    let list = Area { x: 0, y: 0, width: 10, height: 3 };
    let rows = Rows { status: flat, list, details: flat, bar: flat };
    let middle = Mouse { kind: MouseKind::LeftDown, column: 9, row: 1 };
    assert_eq!(session.point(middle, &rows), Pointed::Done);
    assert_eq!(session.selected(), 4);
}

#[test]
fn unknown_screen_size_does_nothing() {
    let mut session = session_with(5);
    let action = session.on_event(mouse(MouseKind::LeftDown, 20, 38), None);
    assert_eq!(action, Action::Continue);
    assert_eq!(session.capture_state(), CaptureState::Running);
}

#[test]
fn screen_without_columns_is_not_addressable() {
    let mut session = session_with(5);
    let none = Area { x: 0, y: 0, width: 0, height: 40 };
    let action = session.on_event(mouse(MouseKind::LeftDown, 0, 38), Some(none));
    assert_eq!(action, Action::Unaddressable);
    assert_eq!(session.selected(), 4);
}

#[test]
fn long_run_keeps_the_selection_inside() {
    let mut session = Session::new();
    let mut seed: u32 = 12345;
    for i in 0..3000u32 {
        seed = seed.wrapping_mul(1664525).wrapping_add(1013904223);
        let column = (seed >> 8) as u16 % 120;
        let row = (seed >> 16) as u16 % 40;
        match seed >> 29 {
            0 | 1 => session.on_packet(vec![i as u8; 20]),
            2 => {
                session.on_event(mouse(MouseKind::LeftDrag, column, row), Some(SCREEN));
            }
            3 | 4 => {
                session.on_event(mouse(MouseKind::LeftDown, column, row), Some(SCREEN));
            }
            5 => {
                session.on_event(mouse(MouseKind::ScrollUp, column, row), Some(SCREEN));
            }
            6 => {
                session.compose("eth0", row);
            }
            _ => session.on_tick(),
        }
        let n = session.packet_count();
        assert!(session.selected() < n || (n == 0 && session.selected() == 0));
        assert!(session.scroll_offset() < n || (n == 0 && session.scroll_offset() == 0));
    }
}

#[test]
fn smallest_screens_are_addressable() {
    for (width, height) in [(1, 10), (1, 24), (40, 10), (200, 60)] {
        let area = Area { x: 0, y: 0, width, height };
        for row in 0..height {
            let mut session = session_with(4);
            let action = session.on_event(mouse(MouseKind::LeftDrag, 0, row), Some(area));
            assert_ne!(action, Action::Unaddressable);
        }
    }
}

#[test]
fn panels_lie_in_order_inside_the_screen() {
    for height in (0..=300).chain([30000, u16::MAX]) {
        for y in [0, 1, 65500] {
            let rows = screen_rows(Area { x: 3, y, width: 80, height });
            let mut end = y as u32;
            for panel in [rows.status, rows.list, rows.details, rows.bar] {
                assert_eq!((panel.x, panel.width), (3, 80));
                assert!(end <= panel.y as u32);
                end = panel.y as u32 + panel.height as u32;
            }
            assert!(end <= (y as u32 + height as u32).min(u16::MAX as u32));
        }
    }
}

#[test]
fn buttons_lie_in_order_and_act_alone() {
    for width in (0..=130).chain([u16::MAX]) {
        let bar = Area { x: 2, y: 5, width, height: 3 };
        let buttons = bar_buttons(bar);
        let all = [
            buttons.start,
            buttons.pause,
            buttons.stop,
            buttons.clear,
            buttons.export,
            buttons.quit,
            buttons.tip,
        ];
        let mut end = 2u32;
        for button in all {
            assert_eq!((button.y, button.height), (5, 3));
            assert!(end <= button.x as u32);
            end = button.x as u32 + button.width as u32;
        }
        assert!(end <= (2 + width as u32).min(u16::MAX as u32));
        if buttons.pause.width > 0 {
            let mut session = session_with(2);
            let asked = session.press(buttons.pause.x, &buttons);
            assert_eq!(asked, Pressed { export: false, quit: false });
            assert_eq!(session.capture_state(), CaptureState::Paused);
            assert_eq!(session.packet_count(), 2);
        }
    }
}

#[test]
fn list_holds_the_arrivals_since_it_was_cleared() {
    let mut session = Session::new();
    session.on_packet(vec![1]);
    press(&mut session, 20);
    press(&mut session, 51);
    assert_eq!(session.packet_count(), 0);
    session.on_packet(vec![2]);
    press(&mut session, 0);
    for byte in [3, 3, 5, 4] {
        session.on_packet(vec![byte]);
        session.on_tick();
        session.on_key(Key::Up);
    }
    press(&mut session, 40);
    session.on_packet(vec![6]);
    let file = session.export_file(0, 0);
    let bytes: Vec<u8> = file[24..].chunks(17).map(|record| record[16]).collect();
    assert_eq!(bytes, [3, 3, 5, 4]);
}
