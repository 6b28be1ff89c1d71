//! The bytes a terminal program receives for a key press or a mouse event,
//! in the encodings that programs ask for.
use vstd::prelude::*;
use vstd::utf8::{
    encode_scalar, encode_utf8, has_width_1_encoding, has_width_2_encoding, has_width_3_encoding, has_width_4_encoding,
    is_scalar,
};

use crate::text::{dec_chars, dec_spec};

verus! {

/// A key as the terminal input layer reports it.
#[derive(Debug, Clone, Copy, PartialEq, Eq, Structural)]
pub enum KeyCode {
    Enter,
    Tab,
    Backspace,
    Esc,
    Char(char),
    Up,
    Down,
    Right,
    Left,
    Home,
    End,
    Delete,
    Insert,
    PageUp,
    PageDown,
    /// Any other key (function keys, media keys, ...): it sends nothing.
    Other,
}

/// The modifier keys held during an event.
#[derive(Debug, Clone, Copy, PartialEq, Eq, Structural)]
pub struct KeyModifiers {
    pub shift: bool,
    pub control: bool,
    pub alt: bool,
}

/// The UTF-8 bytes of a Unicode scalar value.
pub fn encode_scalar_exec(v: u32) -> (r: Vec<u8>)
    requires
        is_scalar(v),
    ensures
        r@ == encode_scalar(v),
{
    let mut out: Vec<u8> = Vec::new();
    if v <= 0x7F {
        out.push((v & 0x7F) as u8);
    } else if v <= 0x7FF {
        out.push(0xC0 | ((v >> 6) & 0x1F) as u8);
        out.push(0x80 | (v & 0x3F) as u8);
    } else if v <= 0xFFFF {
        out.push(0xE0 | ((v >> 12) & 0x0F) as u8);
        out.push(0x80 | ((v >> 6) & 0x3F) as u8);
        out.push(0x80 | (v & 0x3F) as u8);
    } else {
        out.push(0xF0 | ((v >> 18) & 0x7) as u8);
        out.push(0x80 | ((v >> 12) & 0x3F) as u8);
        out.push(0x80 | ((v >> 6) & 0x3F) as u8);
        out.push(0x80 | (v & 0x3F) as u8);
    }
    proof {
        if has_width_1_encoding(v) {
            assert(out@ =~= encode_scalar(v));
        } else if has_width_2_encoding(v) {
            assert(out@ =~= encode_scalar(v));
        } else if has_width_3_encoding(v) {
            assert(out@ =~= encode_scalar(v));
        } else {
            assert(has_width_4_encoding(v));
            assert(out@ =~= encode_scalar(v));
        }
    }
    out
}

/// The cursor keys: `ESC O x` in application cursor mode, else `ESC [ x`.
pub open spec fn cursor_key(app: bool, x: u8) -> Seq<u8> {
    if app {
        seq![0x1bu8, 0x4fu8, x]
    } else {
        seq![0x1bu8, 0x5bu8, x]
    }
}

/// `ESC [ n ~`.
pub open spec fn tilde_key(n: u8) -> Seq<u8> {
    seq![0x1bu8, 0x5bu8, n, 0x7eu8]
}

/// The bytes of a key without the Alt prefix; `None` for keys that send
/// nothing (a control chord on a character outside `@`..`_`, or a key with
/// no encoding).
pub open spec fn key_body_spec(code: KeyCode, ctrl: bool, app: bool) -> Option<Seq<u8>> {
    match code {
        KeyCode::Enter => Some(seq![0x0du8]),
        KeyCode::Tab => Some(seq![0x09u8]),
        KeyCode::Backspace => Some(seq![0x7fu8]),
        KeyCode::Esc => Some(seq![0x1bu8]),
        KeyCode::Char(ch) => if ctrl {
            if (ch as u32) < 128 {
                let v: int = if 0x61 <= (ch as u32) <= 0x7a { (ch as u32) - 32 } else { ch as u32 as int };
                if 0x40 <= v <= 0x5f {
                    Some(seq![(v - 0x40) as u8])
                } else {
                    None
                }
            } else {
                None
            }
        } else {
            Some(encode_scalar(ch as u32))
        },
        KeyCode::Up => Some(cursor_key(app, 0x41)),
        KeyCode::Down => Some(cursor_key(app, 0x42)),
        KeyCode::Right => Some(cursor_key(app, 0x43)),
        KeyCode::Left => Some(cursor_key(app, 0x44)),
        KeyCode::Home => Some(cursor_key(app, 0x48)),
        KeyCode::End => Some(cursor_key(app, 0x46)),
        KeyCode::Delete => Some(tilde_key(0x33)),
        KeyCode::Insert => Some(tilde_key(0x32)),
        KeyCode::PageUp => Some(tilde_key(0x35)),
        KeyCode::PageDown => Some(tilde_key(0x36)),
        KeyCode::Other => None,
    }
}

/// Alt sends an `ESC` before the key, except before `Esc` itself.
pub open spec fn key_bytes_spec(code: KeyCode, m: KeyModifiers, app: bool) -> Option<Seq<u8>> {
    let prefix = if m.alt && code != KeyCode::Esc {
        seq![0x1bu8]
    } else {
        Seq::empty()
    };
    match key_body_spec(code, m.control, app) {
        Some(b) => Some(prefix + b),
        None => None,
    }
}

/// The bytes an arrow key sends: Alt's `ESC` when held, then `ESC`, `O` in
/// application cursor mode or `[` otherwise, then the arrow's letter.
pub open spec fn arrow_bytes(m: KeyModifiers, app: bool, letter: u8) -> Seq<u8> {
    (if m.alt {
        seq![0x1bu8]
    } else {
        Seq::empty()
    }) + seq![0x1bu8, if app { 0x4fu8 } else { 0x5bu8 }, letter]
}

/// Law: the arrow keys send `A` for up, `B` for down, `C` for right and
/// `D` for left, under any modifiers and in either cursor mode (Control
/// changes nothing); so the four arrows never send the same bytes.
pub proof fn lemma_arrow_keys(m: KeyModifiers, app: bool)
    ensures
        key_bytes_spec(KeyCode::Up, m, app) == Some(arrow_bytes(m, app, 0x41u8)),
        key_bytes_spec(KeyCode::Down, m, app) == Some(arrow_bytes(m, app, 0x42u8)),
        key_bytes_spec(KeyCode::Right, m, app) == Some(arrow_bytes(m, app, 0x43u8)),
        key_bytes_spec(KeyCode::Left, m, app) == Some(arrow_bytes(m, app, 0x44u8)),
        forall|a: KeyCode, b: KeyCode|
            #![trigger key_bytes_spec(a, m, app), key_bytes_spec(b, m, app)]
            is_arrow(a) && is_arrow(b) && a != b ==> key_bytes_spec(a, m, app) != key_bytes_spec(b, m, app),
{
    let n: int = if m.alt { 1 } else { 0 };
    assert forall|a: KeyCode, b: KeyCode|
        #![trigger key_bytes_spec(a, m, app), key_bytes_spec(b, m, app)]
        is_arrow(a) && is_arrow(b) && a != b implies key_bytes_spec(a, m, app) != key_bytes_spec(b, m, app) by {
        let ba = key_bytes_spec(a, m, app)->0;
        let bb = key_bytes_spec(b, m, app)->0;
        assert(ba[n + 2] != bb[n + 2]);
    }
}

/// The four arrow keys.
pub open spec fn is_arrow(k: KeyCode) -> bool {
    k == KeyCode::Up || k == KeyCode::Down || k == KeyCode::Right || k == KeyCode::Left
}

fn push_all(out: &mut Vec<u8>, bytes: &[u8])
    ensures
        final(out)@ == old(out)@ + bytes@,
{
    let ghost start = out@;
    let mut i: usize = 0;
    while i < bytes.len()
        invariant
            i <= bytes@.len(),
            out@ =~= start + bytes@.take(i as int),
        decreases bytes@.len() - i,
    {
        out.push(bytes[i]);
        i += 1;
    }
    assert(bytes@.take(bytes@.len() as int) =~= bytes@);
}

fn cursor_key_exec(out: &mut Vec<u8>, app: bool, x: u8)
    ensures
        final(out)@ == old(out)@ + cursor_key(app, x),
{
    let ghost start = out@;
    out.push(0x1b);
    out.push(if app {
        0x4f
    } else {
        0x5b
    });
    out.push(x);
    assert(out@ =~= start + cursor_key(app, x));
}

fn tilde_key_exec(out: &mut Vec<u8>, n: u8)
    ensures
        final(out)@ == old(out)@ + tilde_key(n),
{
    let ghost start = out@;
    out.push(0x1b);
    out.push(0x5b);
    out.push(n);
    out.push(0x7e);
    assert(out@ =~= start + tilde_key(n));
}

/// The bytes a key press sends to the program in the terminal.
pub fn key_to_terminal_bytes_with_mode(code: KeyCode, modifiers: KeyModifiers, application_cursor: bool) -> (r:
    Option<Vec<u8>>)
    ensures
        match key_bytes_spec(code, modifiers, application_cursor) {
            Some(b) => r matches Some(v) && v@ == b,
            None => r is None,
        },
{
    let ctrl = modifiers.control;
    let alt = modifiers.alt;
    let mut out: Vec<u8> = Vec::new();
    let is_esc = match code {
        KeyCode::Esc => true,
        _ => false,
    };
    if alt && !is_esc {
        out.push(0x1b);
    }
    let ghost prefix = out@;
    assert(prefix =~= (if modifiers.alt && code != KeyCode::Esc {
        seq![0x1bu8]
    } else {
        Seq::<u8>::empty()
    }));
    match code {
        KeyCode::Enter => out.push(0x0d),
        KeyCode::Tab => out.push(0x09),
        KeyCode::Backspace => out.push(0x7f),
        KeyCode::Esc => out.push(0x1b),
        KeyCode::Char(ch) => {
            let c = ch as u32;
            if ctrl {
                if c < 128 {
                    let v = if 0x61 <= c && c <= 0x7a {
                        c - 32
                    } else {
                        c
                    };
                    if 0x40 <= v && v <= 0x5f {
                        out.push((v - 0x40) as u8);
                    } else {
                        return None;
                    }
                } else {
                    return None;
                }
            } else {
                let enc = encode_scalar_exec(c);
                push_all(&mut out, &enc);
            }
        },
        KeyCode::Up => cursor_key_exec(&mut out, application_cursor, 0x41),
        KeyCode::Down => cursor_key_exec(&mut out, application_cursor, 0x42),
        KeyCode::Right => cursor_key_exec(&mut out, application_cursor, 0x43),
        KeyCode::Left => cursor_key_exec(&mut out, application_cursor, 0x44),
        KeyCode::Home => cursor_key_exec(&mut out, application_cursor, 0x48),
        KeyCode::End => cursor_key_exec(&mut out, application_cursor, 0x46),
        KeyCode::Delete => tilde_key_exec(&mut out, 0x33),
        KeyCode::Insert => tilde_key_exec(&mut out, 0x32),
        KeyCode::PageUp => tilde_key_exec(&mut out, 0x35),
        KeyCode::PageDown => tilde_key_exec(&mut out, 0x36),
        KeyCode::Other => return None,
    }
    assert(out@ =~= prefix + key_body_spec(code, ctrl, application_cursor)->0);
    Some(out)
}

/// The bytes of a key press with the normal cursor mode.
pub fn key_to_terminal_bytes(code: KeyCode, modifiers: KeyModifiers) -> (r: Option<Vec<u8>>)
    ensures
        match key_bytes_spec(code, modifiers, false) {
            Some(b) => r matches Some(v) && v@ == b,
            None => r is None,
        },
{
    key_to_terminal_bytes_with_mode(code, modifiers, false)
}

// ---------------------------------------------------------------------------
// Mouse
// ---------------------------------------------------------------------------

/// Which mouse events the program in the terminal asked for.
#[derive(Debug, Clone, Copy, PartialEq, Eq, Structural)]
pub enum MouseProtocolMode {
    /// Mouse reporting is off.
    Off,
    Press,
    PressRelease,
    ButtonMotion,
    AnyMotion,
}

/// How the program in the terminal wants mouse events written.
#[derive(Debug, Clone, Copy, PartialEq, Eq, Structural)]
pub enum MouseProtocolEncoding {
    Default,
    Utf8,
    Sgr,
}

#[derive(Debug, Clone, Copy, PartialEq, Eq, Structural)]
pub enum MouseButton {
    Left,
    Right,
    Middle,
}

#[derive(Debug, Clone, Copy, PartialEq, Eq, Structural)]
pub enum MouseEventKind {
    Down(MouseButton),
    Up(MouseButton),
    Drag(MouseButton),
    Moved,
    ScrollDown,
    ScrollUp,
    ScrollLeft,
    ScrollRight,
}

#[derive(Debug, Clone, Copy, PartialEq, Eq, Structural)]
pub struct MouseEvent {
    pub kind: MouseEventKind,
    pub column: u16,
    pub row: u16,
    pub modifiers: KeyModifiers,
}

pub open spec fn button_code_spec(b: MouseButton) -> u8 {
    match b {
        MouseButton::Left => 0,
        MouseButton::Middle => 1,
        MouseButton::Right => 2,
    }
}

pub fn mouse_button_code(button: MouseButton) -> (r: Option<u8>)
    ensures
        r == Some(button_code_spec(button)),
{
    match button {
        MouseButton::Left => Some(0),
        MouseButton::Middle => Some(1),
        MouseButton::Right => Some(2),
    }
}

/// Shift adds 4, Alt 8 and Control 16.
pub open spec fn modifier_bits_spec(m: KeyModifiers) -> u8 {
    ((if m.shift { 4u8 } else { 0u8 }) + (if m.alt { 8u8 } else { 0u8 }) + (if m.control { 16u8 } else { 0u8 })) as u8
}

pub fn mouse_modifier_bits(modifiers: KeyModifiers) -> (r: u8)
    ensures
        r == modifier_bits_spec(modifiers),
        r <= 28,
{
    let mut bits: u8 = 0;
    if modifiers.shift {
        bits = bits + 4;
    }
    if modifiers.alt {
        bits = bits + 8;
    }
    if modifiers.control {
        bits = bits + 16;
    }
    bits
}

/// The button byte of an event before its offset, and whether SGR reports it
/// as a release; `None` for events the mode does not report.
pub open spec fn mouse_cb_spec(
    mode: MouseProtocolMode,
    encoding: MouseProtocolEncoding,
    mouse: MouseEvent,
) -> Option<(u8, bool)> {
    let m = modifier_bits_spec(mouse.modifiers);
    match mouse.kind {
        MouseEventKind::Down(b) => Some(((m + button_code_spec(b)) as u8, false)),
        MouseEventKind::Up(b) => if mode == MouseProtocolMode::Press {
            None
        } else if encoding == MouseProtocolEncoding::Sgr {
            Some(((m + button_code_spec(b)) as u8, true))
        } else {
            Some(((m + 3) as u8, false))
        },
        MouseEventKind::Drag(b) => if mode == MouseProtocolMode::ButtonMotion || mode == MouseProtocolMode::AnyMotion {
            Some(((m + 32 + button_code_spec(b)) as u8, false))
        } else {
            None
        },
        MouseEventKind::Moved => if mode == MouseProtocolMode::AnyMotion {
            Some(((m + 35) as u8, false))
        } else {
            None
        },
        MouseEventKind::ScrollUp => Some(((m + 64) as u8, false)),
        MouseEventKind::ScrollDown => Some(((m + 65) as u8, false)),
        MouseEventKind::ScrollLeft => Some(((m + 66) as u8, false)),
        MouseEventKind::ScrollRight => Some(((m + 67) as u8, false)),
    }
}

pub open spec fn sat_u16(v: int) -> int {
    if v > 65535 {
        65535
    } else {
        v
    }
}

/// `ESC [ M` then the button and the coordinates, each plus 32, in one byte
/// each; `None` when one does not fit in a byte.
pub open spec fn default_mouse_spec(cb: u8, x: u16, y: u16) -> Option<Seq<u8>> {
    let c = cb + 32;
    let xx = sat_u16(x + 32);
    let yy = sat_u16(y + 32);
    if c > 255 || xx > 255 || yy > 255 {
        None
    } else {
        Some(seq![0x1bu8, 0x5bu8, 0x4du8, c as u8, xx as u8, yy as u8])
    }
}

pub fn encode_default_mouse(cb: u8, x: u16, y: u16) -> (r: Option<Vec<u8>>)
    ensures
        match default_mouse_spec(cb, x, y) {
            Some(b) => r matches Some(v) && v@ == b,
            None => r is None,
        },
{
    let c: u16 = cb as u16 + 32;
    let xx: u16 = x.saturating_add(32);
    let yy: u16 = y.saturating_add(32);
    if c > 255 || xx > 255 || yy > 255 {
        return None;
    }
    let mut out: Vec<u8> = Vec::new();
    out.push(0x1b);
    out.push(0x5b);
    out.push(0x4d);
    out.push(c as u8);
    out.push(xx as u8);
    out.push(yy as u8);
    assert(out@ =~= seq![0x1bu8, 0x5bu8, 0x4du8, c as u8, xx as u8, yy as u8]);
    Some(out)
}

/// One coordinate as the UTF-8 of the character with that value; `None`
/// for a surrogate.
pub open spec fn utf8_mouse_value(v: int) -> Option<Seq<u8>> {
    if is_scalar(v as u32) {
        Some(encode_scalar(v as u32))
    } else {
        None
    }
}

/// `ESC [ M` then the button and the coordinates, each plus 32, as UTF-8.
pub open spec fn utf8_mouse_spec(cb: u8, x: u16, y: u16) -> Option<Seq<u8>> {
    let c = utf8_mouse_value(cb + 32);
    let xx = utf8_mouse_value(sat_u16(x + 32));
    let yy = utf8_mouse_value(sat_u16(y + 32));
    if c is Some && xx is Some && yy is Some {
        Some(seq![0x1bu8, 0x5bu8, 0x4du8] + c->0 + xx->0 + yy->0)
    } else {
        None
    }
}

fn append_utf8_mouse_value(out: &mut Vec<u8>, value: u16) -> (ok: bool)
    ensures
        ok == (utf8_mouse_value(value as int) is Some),
        ok ==> final(out)@ == old(out)@ + utf8_mouse_value(value as int)->0,
{
    let v = value as u32;
    if 0xD800 <= v && v <= 0xDFFF {
        return false;
    }
    let enc = encode_scalar_exec(v);
    push_all(out, &enc);
    true
}

pub fn encode_utf8_mouse(cb: u8, x: u16, y: u16) -> (r: Option<Vec<u8>>)
    ensures
        match utf8_mouse_spec(cb, x, y) {
            Some(b) => r matches Some(v) && v@ == b,
            None => r is None,
        },
{
    let mut out: Vec<u8> = Vec::new();
    out.push(0x1b);
    out.push(0x5b);
    out.push(0x4d);
    let ghost head = out@;
    if !append_utf8_mouse_value(&mut out, cb as u16 + 32) {
        return None;
    }
    if !append_utf8_mouse_value(&mut out, x.saturating_add(32)) {
        return None;
    }
    if !append_utf8_mouse_value(&mut out, y.saturating_add(32)) {
        return None;
    }
    assert(head =~= seq![0x1bu8, 0x5bu8, 0x4du8]);
    Some(out)
}

/// The ASCII bytes of a decimal rendering.
pub open spec fn ascii_dec(n: nat) -> Seq<u8> {
    dec_spec(n).map_values(|c: char| c as u8)
}

/// `ESC [ < cb ; x ; y` then `M` for a press or `m` for a release.
pub open spec fn sgr_mouse_spec(cb: u8, x: u16, y: u16, release: bool) -> Seq<u8> {
    seq![0x1bu8, 0x5bu8, 0x3cu8] + ascii_dec(cb as nat) + seq![0x3bu8] + ascii_dec(x as nat) + seq![0x3bu8]
        + ascii_dec(y as nat) + seq![if release { 0x6du8 } else { 0x4du8 }]
}

pub(crate) fn push_ascii_dec(out: &mut Vec<u8>, n: u16)
    ensures
        final(out)@ == old(out)@ + ascii_dec(n as nat),
{
    let ghost start = out@;
    let d = dec_chars(n as u128);
    let mut i: usize = 0;
    while i < d.len()
        invariant
            i <= d@.len(),
            d@ == dec_spec(n as nat),
            out@ =~= start + ascii_dec(n as nat).take(i as int),
        decreases d@.len() - i,
    {
        out.push(d[i] as u8);
        i += 1;
    }
    assert(ascii_dec(n as nat).take(d@.len() as int) =~= ascii_dec(n as nat));
}

pub fn encode_sgr_mouse(cb: u8, x: u16, y: u16, release: bool) -> (r: Vec<u8>)
    ensures
        r@ == sgr_mouse_spec(cb, x, y, release),
{
    let mut out: Vec<u8> = Vec::new();
    out.push(0x1b);
    out.push(0x5b);
    out.push(0x3c);
    push_ascii_dec(&mut out, cb as u16);
    out.push(0x3b);
    push_ascii_dec(&mut out, x);
    out.push(0x3b);
    push_ascii_dec(&mut out, y);
    out.push(if release {
        0x6d
    } else {
        0x4d
    });
    assert(out@ =~= sgr_mouse_spec(cb, x, y, release));
    out
}

/// The bytes a mouse event sends in the mode and encoding the program asked
/// for, at zero-based `column` and `row`.
pub open spec fn mouse_event_spec(
    mode: MouseProtocolMode,
    encoding: MouseProtocolEncoding,
    column: u16,
    row: u16,
    mouse: MouseEvent,
) -> Option<Seq<u8>> {
    if mode == MouseProtocolMode::Off {
        None
    } else {
        match mouse_cb_spec(mode, encoding, mouse) {
            None => None,
            Some((cb, release)) => {
                let x = sat_u16(column + 1) as u16;
                let y = sat_u16(row + 1) as u16;
                match encoding {
                    MouseProtocolEncoding::Default => default_mouse_spec(cb, x, y),
                    MouseProtocolEncoding::Utf8 => utf8_mouse_spec(cb, x, y),
                    MouseProtocolEncoding::Sgr => Some(sgr_mouse_spec(cb, x, y, release)),
                }
            },
        }
    }
}

pub fn encode_mouse_event(
    mode: MouseProtocolMode,
    encoding: MouseProtocolEncoding,
    column: u16,
    row: u16,
    mouse: MouseEvent,
) -> (r: Option<Vec<u8>>)
    ensures
        match mouse_event_spec(mode, encoding, column, row, mouse) {
            Some(b) => r matches Some(v) && v@ == b,
            None => r is None,
        },
{
    if mode == MouseProtocolMode::Off {
        return None;
    }
    let m = mouse_modifier_bits(mouse.modifiers);
    let (cb, release): (u8, bool) = match mouse.kind {
        MouseEventKind::Down(b) => (m + button_code_of(b), false),
        MouseEventKind::Up(b) => {
            if mode == MouseProtocolMode::Press {
                return None;
            }
            if encoding == MouseProtocolEncoding::Sgr {
                (m + button_code_of(b), true)
            } else {
                (m + 3, false)
            }
        },
        MouseEventKind::Drag(b) => {
            if !(mode == MouseProtocolMode::ButtonMotion || mode == MouseProtocolMode::AnyMotion) {
                return None;
            }
            (m + 32 + button_code_of(b), false)
        },
        MouseEventKind::Moved => {
            if mode != MouseProtocolMode::AnyMotion {
                return None;
            }
            (m + 35, false)
        },
        MouseEventKind::ScrollUp => (m + 64, false),
        MouseEventKind::ScrollDown => (m + 65, false),
        MouseEventKind::ScrollLeft => (m + 66, false),
        MouseEventKind::ScrollRight => (m + 67, false),
    };
    let x = column.saturating_add(1);
    let y = row.saturating_add(1);
    match encoding {
        MouseProtocolEncoding::Default => encode_default_mouse(cb, x, y),
        MouseProtocolEncoding::Utf8 => encode_utf8_mouse(cb, x, y),
        MouseProtocolEncoding::Sgr => Some(encode_sgr_mouse(cb, x, y, release)),
    }
}

fn button_code_of(b: MouseButton) -> (r: u8)
    ensures
        r == button_code_spec(b),
        r <= 2,
{
    match b {
        MouseButton::Left => 0,
        MouseButton::Middle => 1,
        MouseButton::Right => 2,
    }
}

// ---------------------------------------------------------------------------
// Paste
// ---------------------------------------------------------------------------

/// `ESC [ 200 ~`, which opens a bracketed paste.
pub open spec fn paste_start() -> Seq<u8> {
    seq![0x1bu8, 0x5bu8, 0x32u8, 0x30u8, 0x30u8, 0x7eu8]
}

/// `ESC [ 201 ~`, which closes a bracketed paste.
pub open spec fn paste_end() -> Seq<u8> {
    seq![0x1bu8, 0x5bu8, 0x32u8, 0x30u8, 0x31u8, 0x7eu8]
}

/// What a paste sends: the text's bytes, between the bracketed-paste markers
/// when the program asked for them.
pub open spec fn paste_bytes_spec(text: Seq<u8>, bracketed: bool) -> Seq<u8> {
    if bracketed {
        paste_start() + text + paste_end()
    } else {
        text
    }
}

fn push_bytes(out: &mut Vec<u8>, b: &[u8])
    ensures
        final(out)@ == old(out)@ + b@,
{
    let ghost o = out@;
    let mut i: usize = 0;
    while i < b.len()
        invariant
            i <= b@.len(),
            out@ == o + b@.take(i as int),
        decreases b@.len() - i,
    {
        out.push(b[i]);
        proof {
            assert(b@.take(i + 1) =~= b@.take(i as int).push(b@[i as int]));
        }
        i += 1;
    }
    assert(b@.take(b@.len() as int) =~= b@);
}

/// The bytes a paste of `text` sends to the program.
pub fn wrap_paste_bytes(text: &str, bracketed_paste: bool) -> (r: Vec<u8>)
    ensures
        r@ == paste_bytes_spec(encode_utf8(text@), bracketed_paste),
{
    let mut out: Vec<u8> = Vec::new();
    if bracketed_paste {
        out.push(0x1b);
        out.push(0x5b);
        out.push(0x32);
        out.push(0x30);
        out.push(0x30);
        out.push(0x7e);
        assert(out@ =~= paste_start());
    } else {
        assert(out@ =~= Seq::<u8>::empty());
    }
    let ghost head = out@;
    push_bytes(&mut out, text.as_bytes());
    if bracketed_paste {
        let ghost mid = out@;
        out.push(0x1b);
        out.push(0x5b);
        out.push(0x32);
        out.push(0x30);
        out.push(0x31);
        out.push(0x7e);
        assert(out@ =~= mid + paste_end());
    } else {
        assert(out@ =~= encode_utf8(text@));
    }
    out
}

} // verus!
