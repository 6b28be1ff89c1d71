use projectying::keys::{
    encode_default_mouse, encode_mouse_event, encode_sgr_mouse, encode_utf8_mouse, key_to_terminal_bytes,
    key_to_terminal_bytes_with_mode, mouse_modifier_bits, wrap_paste_bytes, KeyCode, KeyModifiers, MouseButton, MouseEvent,
    MouseEventKind, MouseProtocolEncoding, MouseProtocolMode,
};
use projectying::terminal::{TerminalMode, TerminalOwner};
use projectying::terminal_ui::{build_mouse_input_for_active_terminal, TerminalUiState};

const NONE: KeyModifiers = KeyModifiers { shift: false, control: false, alt: false };
const CTRL: KeyModifiers = KeyModifiers { shift: false, control: true, alt: false };
const ALT: KeyModifiers = KeyModifiers { shift: false, control: false, alt: true };

fn event(kind: MouseEventKind, column: u16, row: u16, modifiers: KeyModifiers) -> MouseEvent {
    MouseEvent { kind, column, row, modifiers }
}

#[test]
fn keys_send_their_sequences() {
    assert_eq!(key_to_terminal_bytes(KeyCode::Enter, NONE), Some(vec![b'\r']));
    assert_eq!(key_to_terminal_bytes(KeyCode::Char('c'), CTRL), Some(vec![3]));
    assert_eq!(key_to_terminal_bytes(KeyCode::Char('['), CTRL), Some(vec![0x1b]));
    assert_eq!(key_to_terminal_bytes(KeyCode::Char('1'), CTRL), None);
    assert_eq!(key_to_terminal_bytes(KeyCode::Char('é'), CTRL), None);
    assert_eq!(key_to_terminal_bytes(KeyCode::Char('é'), NONE), Some("é".as_bytes().to_vec()));
    assert_eq!(key_to_terminal_bytes(KeyCode::Char('x'), ALT), Some(vec![0x1b, b'x']));
    assert_eq!(key_to_terminal_bytes(KeyCode::Esc, ALT), Some(vec![0x1b]));
    assert_eq!(key_to_terminal_bytes(KeyCode::Up, NONE), Some(b"\x1b[A".to_vec()));
    assert_eq!(key_to_terminal_bytes_with_mode(KeyCode::Up, NONE, true), Some(b"\x1bOA".to_vec()));
    assert_eq!(key_to_terminal_bytes(KeyCode::PageDown, NONE), Some(b"\x1b[6~".to_vec()));
    assert_eq!(key_to_terminal_bytes(KeyCode::Other, NONE), None);
    assert_eq!(key_to_terminal_bytes(KeyCode::Char('😀'), NONE), Some("😀".as_bytes().to_vec()));
}

fn tab(id: u64, cols: u16, rows: u16) -> TerminalUiState {
    TerminalUiState::new(
        id,
        "测试".to_string(),
        "bash".to_string(),
        cols,
        rows,
        format!("/tmp/session_{id}.log"),
        format!("/tmp/session_{id}.status"),
        TerminalMode::Interactive,
        TerminalOwner::AiTool,
    )
}

#[test]
fn terminal_ui_state_encodes_sgr_mouse_sequences() {
    let mut tab = tab(10, 80, 24);
    tab.process_output(b"\x1b[?1002h\x1b[?1006h");
    let f = tab.facts();
    assert!(tab.wants_mouse_input(&f));
    let down = tab.mouse_bytes(&f, 1, 2, event(MouseEventKind::Down(MouseButton::Left), 1, 2, NONE));
    assert_eq!(String::from_utf8(down.expect("mouse down")).expect("utf8"), "\u{1b}[<0;2;3M");
    let drag = tab.mouse_bytes(&f, 1, 2, event(MouseEventKind::Drag(MouseButton::Left), 1, 2, CTRL));
    assert_eq!(String::from_utf8(drag.expect("mouse drag")).expect("utf8"), "\u{1b}[<48;2;3M");
    let up = tab.mouse_bytes(&f, 1, 2, event(MouseEventKind::Up(MouseButton::Left), 1, 2, NONE));
    assert_eq!(String::from_utf8(up.expect("mouse up")).expect("utf8"), "\u{1b}[<0;2;3m");
}

#[test]
fn terminal_ui_state_encodes_default_mouse_release() {
    let mut tab = tab(11, 80, 24);
    tab.process_output(b"\x1b[?1000h");
    let f = tab.facts();
    let up = tab.mouse_bytes(&f, 0, 0, event(MouseEventKind::Up(MouseButton::Left), 0, 0, NONE));
    assert_eq!(up.expect("mouse up"), vec![0x1B, b'[', b'M', 35, 33, 33]);
}

#[test]
fn terminal_ui_state_encodes_utf8_mouse_coordinates() {
    let mut tab = tab(12, 200, 24);
    tab.process_output(b"\x1b[?1000h\x1b[?1005h");
    let f = tab.facts();
    let down = tab.mouse_bytes(&f, 95, 0, event(MouseEventKind::Down(MouseButton::Left), 95, 0, NONE));
    assert_eq!(down.expect("mouse utf8"), b"\x1b[M \xc2\x80!".to_vec());
}

#[test]
fn mouse_encodings_by_hand() {
    let down = encode_mouse_event(
        MouseProtocolMode::ButtonMotion,
        MouseProtocolEncoding::Sgr,
        1,
        2,
        event(MouseEventKind::Down(MouseButton::Left), 1, 2, NONE),
    );
    assert_eq!(String::from_utf8(down.expect("down")).expect("utf8"), "\u{1b}[<0;2;3M");
    let up = encode_mouse_event(
        MouseProtocolMode::PressRelease,
        MouseProtocolEncoding::Default,
        0,
        0,
        event(MouseEventKind::Up(MouseButton::Left), 0, 0, NONE),
    );
    assert_eq!(up.expect("up"), vec![0x1B, b'[', b'M', 35, 33, 33]);
}

#[test]
fn mouse_input_goes_to_the_active_tab() {
    let mut tabs = vec![tab(20, 80, 24), tab(21, 80, 24)];
    tabs[1].process_output(b"\x1b[?1000h\x1b[?1006h");
    let f = tabs[1].facts();
    let sent = build_mouse_input_for_active_terminal(
        &mut tabs,
        1,
        &f,
        3,
        4,
        event(MouseEventKind::Down(MouseButton::Left), 3, 4, NONE),
    );
    assert_eq!(sent, Some((21, b"\x1b[<0;4;5M".to_vec())));
    let off = tabs[0].facts();
    let none = build_mouse_input_for_active_terminal(
        &mut tabs,
        0,
        &off,
        3,
        4,
        event(MouseEventKind::Down(MouseButton::Left), 3, 4, NONE),
    );
    assert_eq!(none, None);
}

#[test]
fn modes_filter_events() {
    let e = event(MouseEventKind::Moved, 0, 0, NONE);
    assert_eq!(encode_mouse_event(MouseProtocolMode::Off, MouseProtocolEncoding::Sgr, 0, 0, e), None);
    assert_eq!(encode_mouse_event(MouseProtocolMode::ButtonMotion, MouseProtocolEncoding::Sgr, 0, 0, e), None);
    assert!(encode_mouse_event(MouseProtocolMode::AnyMotion, MouseProtocolEncoding::Sgr, 0, 0, e).is_some());
    let up = event(MouseEventKind::Up(MouseButton::Right), 0, 0, NONE);
    assert_eq!(encode_mouse_event(MouseProtocolMode::Press, MouseProtocolEncoding::Sgr, 0, 0, up), None);
    let wheel = event(MouseEventKind::ScrollDown, 4, 5, KeyModifiers { shift: true, control: false, alt: true });
    assert_eq!(
        encode_mouse_event(MouseProtocolMode::Press, MouseProtocolEncoding::Sgr, 4, 5, wheel).expect("wheel"),
        b"\x1b[<77;5;6M".to_vec()
    );
    assert_eq!(mouse_modifier_bits(KeyModifiers { shift: true, control: true, alt: true }), 28);
}

#[test]
fn encodings_at_their_limits() {
    assert_eq!(encode_default_mouse(0, 223, 1), Some(vec![0x1b, b'[', b'M', 32, 255, 33]));
    assert_eq!(encode_default_mouse(0, 224, 1), None);
    assert_eq!(encode_utf8_mouse(0, 0xD800 - 32, 1), None);
    assert_eq!(encode_utf8_mouse(0, 65535, 1).map(|v| v.len()), Some(3 + 1 + 3 + 1));
    assert_eq!(encode_sgr_mouse(3, 10, 200, true), b"\x1b[<3;10;200m".to_vec());
}

#[test]
fn key_to_terminal_bytes_supports_ctrl_c() {
    assert_eq!(key_to_terminal_bytes(KeyCode::Char('c'), CTRL), Some(vec![0x03]));
}

#[test]
fn terminal_ui_state_switches_to_application_cursor_keys() {
    // After `ESC [ ? 1 h` the screen is in application cursor mode.
    assert_eq!(key_to_terminal_bytes_with_mode(KeyCode::Up, NONE, true), Some(b"\x1bOA".to_vec()));
    assert_eq!(key_to_terminal_bytes(KeyCode::Up, NONE), Some(b"\x1b[A".to_vec()));
}

#[test]
fn terminal_ui_state_wraps_bracketed_paste_when_enabled() {
    // After `ESC [ ? 2004 h` the screen asks for bracketed paste.
    assert_eq!(
        String::from_utf8(wrap_paste_bytes("hello", true)).expect("utf8"),
        "\u{1b}[200~hello\u{1b}[201~"
    );
    assert_eq!(wrap_paste_bytes("héllo", false), "héllo".as_bytes().to_vec());
}
