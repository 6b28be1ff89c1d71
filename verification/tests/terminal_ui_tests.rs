use projectying::keys::{MouseProtocolEncoding, MouseProtocolMode};
use projectying::terminal::{TerminalMode, TerminalOwner};
use projectying::terminal_ui::{
    apply_mouse_wheel_to_terminal_view, apply_touch_drag_to_terminal_view, build_terminal_render_row, ScreenCell,
    ScreenFacts, TermColor, TerminalRenderStyle, TerminalUiState,
};

fn facts() -> ScreenFacts {
    ScreenFacts {
        cursor_row: 0,
        cursor_col: 4,
        hide_cursor: false,
        application_cursor: false,
        bracketed_paste: false,
        mouse_mode: MouseProtocolMode::Off,
        mouse_encoding: MouseProtocolEncoding::Default,
    }
}

fn tab(cols: u16, rows: u16) -> TerminalUiState {
    TerminalUiState::new(
        9,
        "测试".to_string(),
        "bash".to_string(),
        cols,
        rows,
        "/tmp/session_9.log".to_string(),
        "/tmp/session_9.status".to_string(),
        TerminalMode::Interactive,
        TerminalOwner::AiTool,
    )
}

#[test]
fn terminal_ui_state_rebuilds_styled_rows_from_vt100_screen() {
    let mut tab = tab(10, 3);
    let bytes = b"\x1b[31;44;1mA\x1b[mB";
    tab.process_output(bytes);
    tab.rebuild_cache();
    let row = tab.rendered_rows().first().expect("row");
    let first = row.first().expect("first run");
    assert_eq!(first.text, "A");
    assert_eq!(first.style.fg, TermColor::Idx(1));
    assert_eq!(first.style.bg, TermColor::Idx(4));
    assert!(first.style.bold);
    let second = row.get(1).expect("second run");
    assert!(second.text.starts_with('B'));
    assert_eq!(second.style.fg, TermColor::Default);
    assert!(!tab.needs_rebuild());
}

#[test]
fn rebuild_from_cells_draws_the_given_screen() {
    let mut t = tab(3, 1);
    let style = TerminalRenderStyle::default();
    let cell = |c: &str| Some(ScreenCell { contents: c.to_string(), wide_continuation: false, style: style.clone() });
    t.rebuild_from_cells(0, &vec![vec![cell("a"), cell("b"), cell(" ")]]);
    assert_eq!(t.rendered_rows()[0][0].text, "ab ");
    assert!(!t.dirty);
}

#[test]
fn cursor_query_is_answered_from_the_emulator() {
    let mut t = tab(10, 3);
    let replies = t.process_output(b"ab\r\ncd\x1b[6n");
    assert_eq!(replies, vec![b"\x1b[2;3R".to_vec()]);
    let f = t.facts();
    assert_eq!((f.cursor_row, f.cursor_col), (1, 2));
    assert!(!f.hide_cursor);
    let hidden = t.process_output(b"\x1b[?25l\x1b[?2004h");
    assert!(hidden.is_empty());
    let f = t.facts();
    assert!(f.hide_cursor);
    assert!(f.bracketed_paste);
}

#[test]
fn resizing_resizes_the_emulator() {
    let mut t = tab(10, 3);
    assert!(t.ensure_size(4, 2));
    assert!(!t.ensure_size(4, 2));
    t.process_output(b"abcdef");
    t.rebuild_cache();
    assert_eq!(t.rendered_rows().len(), 2);
    assert_eq!(t.rendered_rows()[0][0].text, "abcd");
}

#[test]
fn new_tab_shows_blank_rows() {
    let t = tab(4, 2);
    assert_eq!(t.rendered_rows().len(), 2);
    assert_eq!(t.rendered_rows()[0][0].text, "    ");
    assert!(t.dirty);
}

#[test]
fn queries_in_output_are_answered() {
    let mut t = tab(10, 3);
    let replies = t.record_output(b"x\x1b[5n\x1b[6n\x1b[0c", 2, 7);
    assert_eq!(replies, vec![b"\x1b[0n".to_vec(), b"\x1b[?1;0c".to_vec(), b"\x1b[3;8R".to_vec()]);
    let mut quiet = tab(10, 3);
    quiet.dirty = false;
    assert!(quiet.process_output(b"").is_empty());
    assert!(!quiet.dirty);
}

#[test]
fn row_runs_join_equal_styles_and_skip_wide_halves() {
    let plain = TerminalRenderStyle::default();
    let cell = |s: &str, wide: bool| Some(ScreenCell { contents: s.to_string(), wide_continuation: wide, style: plain });
    let runs = build_terminal_render_row(&vec![cell("中", false), cell("", true), cell("", false)], 5);
    assert_eq!(runs.len(), 1);
    assert_eq!(runs[0].text, "中   ");
    let empty = build_terminal_render_row(&vec![cell("", true)], 1);
    assert_eq!(empty[0].text, " ");
}

#[test]
fn scrolling_moves_only_the_active_tab() {
    let mut tabs = vec![tab(10, 3), tab(10, 3)];
    tabs[1].dirty = false;
    assert!(apply_mouse_wheel_to_terminal_view(&mut tabs, 7, true, 5));
    assert_eq!(tabs[1].scroll, 5);
    assert!(tabs[1].dirty);
    assert_eq!(tabs[0].scroll, 0);
    assert!(apply_touch_drag_to_terminal_view(&mut tabs, 1, -3, 9));
    assert_eq!(tabs[1].scroll, 0);
    assert!(apply_mouse_wheel_to_terminal_view(&mut tabs, 0, true, u16::MAX));
    assert_eq!(tabs[0].scroll, 20_000);
    let mut none: Vec<TerminalUiState> = vec![];
    assert!(!apply_mouse_wheel_to_terminal_view(&mut none, 0, true, 1));
}

#[test]
fn view_size_cursor_and_mouse() {
    let mut t = tab(10, 3);
    assert!(!t.ensure_size(10, 3));
    assert!(t.ensure_size(0, 5));
    assert_eq!((t.cols, t.rows), (1, 5));
    t.scroll = 2;
    assert_eq!(t.cursor_visible_position(&facts()), None);
    t.reset_view_to_live();
    assert_eq!(t.scroll, 0);
    assert_eq!(t.cursor_visible_position(&facts()), Some((0, 4)));
    assert!(!t.wants_mouse_input(&facts()));
    let mut f = facts();
    f.bracketed_paste = true;
    assert_eq!(t.wrap_paste_bytes(&f, "hi"), b"\x1b[200~hi\x1b[201~".to_vec());
}

#[test]
fn facts_follow_the_screen_modes() {
    let mut t = tab(20, 4);
    let f = t.facts();
    assert!(!f.hide_cursor && !f.application_cursor && !f.bracketed_paste);
    assert_eq!(f.mouse_mode, projectying::keys::MouseProtocolMode::Off);
    t.process_output(b"\x1b[?1h\x1b[?25l\x1b[?1000h\x1b[?1006h");
    let f = t.facts();
    assert!(f.hide_cursor && f.application_cursor);
    assert_eq!(f.mouse_mode, projectying::keys::MouseProtocolMode::PressRelease);
    assert_eq!(f.mouse_encoding, projectying::keys::MouseProtocolEncoding::Sgr);
}

#[test]
fn screen_cells_are_read_row_by_column() {
    let mut t = tab(3, 2);
    t.process_output(b"ab\r\ncd");
    let cells = t.screen_cells();
    assert_eq!(cells.len(), 2);
    assert_eq!(cells[0].len(), 3);
    assert_eq!(cells[0][1].as_ref().expect("cell").contents, "b");
    assert_eq!(cells[1][0].as_ref().expect("cell").contents, "c");
}

#[test]
fn rebuild_scrolls_back_only_as_far_as_the_history() {
    let mut t = tab(10, 2);
    t.scroll = 5;
    t.rebuild_cache();
    assert_eq!(t.scroll, 0);
    t.process_output(b"one\r\ntwo\r\nthree\r\nfour\r\n");
    t.scroll = 1;
    t.rebuild_cache();
    assert_eq!(t.scroll, 1);
    t.scroll = 50;
    t.rebuild_cache();
    assert_eq!(t.scroll, 3);
}
