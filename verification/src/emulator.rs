//! The vt100 emulator behind a terminal tab. The `vt100` crate's parser is
//! held in a private field and reached only through the functions here,
//! each a single call into the crate; what the contracts say of it is said
//! over the names below.
use vstd::prelude::*;

use std::num::NonZeroU16;

use crate::keys::{MouseProtocolEncoding, MouseProtocolMode};
use crate::terminal_ui::{ScreenCell, TermColor, TerminalRenderStyle};

verus! {

/// A `vt100::Parser` with no callbacks.
#[verifier::external_body]
pub struct Emulator {
    parser: vt100::Parser,
}

#[verifier::external_type_specification]
#[verifier::external_body]
pub struct ExVt100Color(vt100::Color);

/// The rows and columns the emulator was last sized to.
pub uninterp spec fn emulator_size(e: Emulator) -> (u16, u16);

/// Every byte the emulator has taken in since it was made.
pub uninterp spec fn emulator_fed(e: Emulator) -> Seq<u8>;

/// Where the emulator's cursor stands: row, then column, from zero.
pub uninterp spec fn emulator_cursor(e: Emulator) -> (u16, u16);

/// The cell the emulator shows at this row and column of its view (none
/// outside the screen), as the library's cell.
pub uninterp spec fn emulator_cell_at(e: Emulator, row: u16, col: u16) -> Option<ScreenCell>;

/// How far back into its history the emulator's view stands.
pub uninterp spec fn emulator_scrollback_of(e: Emulator) -> usize;

/// How many rows of history the emulator's active screen holds (none on
/// the alternate screen), as `vt100::Screen::scrollback_len` gives it.
pub uninterp spec fn emulator_history_len_of(e: Emulator) -> usize;

/// How many rows of history the emulator's active screen may keep, as
/// `vt100::Screen::scrollback_capacity` gives it.
pub uninterp spec fn emulator_scrollback_capacity_of(e: Emulator) -> usize;

/// Whether the program asked for the cursor to be hidden.
pub uninterp spec fn emulator_hide_cursor_of(e: Emulator) -> bool;

/// Whether the program asked for application cursor keys.
pub uninterp spec fn emulator_application_cursor_of(e: Emulator) -> bool;

/// Whether the program asked for bracketed paste.
pub uninterp spec fn emulator_bracketed_paste_of(e: Emulator) -> bool;

/// The mouse reporting the program asked for.
pub uninterp spec fn emulator_mouse_mode_of(e: Emulator) -> MouseProtocolMode;

/// The encoding of mouse reports the program asked for.
pub uninterp spec fn emulator_mouse_encoding_of(e: Emulator) -> MouseProtocolEncoding;

/// `vt100::Parser::new`: an emulator of this size that has taken in
/// nothing, keeping up to `scrollback` rows of history; it holds no history
/// yet and its view stands at the live screen.
#[verifier::external_body]
pub(crate) fn emulator_new(rows: u16, cols: u16, scrollback: usize) -> (r: Emulator)
    requires
        rows > 0,
        cols > 0,
    ensures
        emulator_size(r) == (rows, cols),
        emulator_fed(r) == Seq::<u8>::empty(),
        emulator_scrollback_capacity_of(r) == scrollback,
        emulator_history_len_of(r) == 0,
        emulator_scrollback_of(r) == 0,
{
    let rows = NonZeroU16::new(rows).unwrap_or(NonZeroU16::MIN);
    let cols = NonZeroU16::new(cols).unwrap_or(NonZeroU16::MIN);
    Emulator { parser: vt100::Parser::new(rows, cols, scrollback) }
}

/// `vt100::Parser::process`: the emulator takes in the bytes; its size
/// stays.
#[verifier::external_body]
pub(crate) fn emulator_process(e: &mut Emulator, bytes: &[u8])
    ensures
        emulator_fed(*final(e)) == emulator_fed(*old(e)) + bytes@,
        emulator_size(*final(e)) == emulator_size(*old(e)),
{
    e.parser.process(bytes);
}

/// `vt100::Screen::cursor_position`: the cursor as the emulator has it.
#[verifier::external_body]
pub(crate) fn emulator_cursor_position(e: &Emulator) -> (r: (u16, u16))
    ensures
        r == emulator_cursor(*e),
{
    e.parser.screen().cursor_position()
}

/// `vt100::Screen::set_size`: the emulator takes the new size; it takes in
/// no bytes.
#[verifier::external_body]
pub(crate) fn emulator_set_size(e: &mut Emulator, rows: u16, cols: u16)
    requires
        rows > 0,
        cols > 0,
    ensures
        emulator_size(*final(e)) == (rows, cols),
        emulator_fed(*final(e)) == emulator_fed(*old(e)),
{
    let rows = NonZeroU16::new(rows).unwrap_or(NonZeroU16::MIN);
    let cols = NonZeroU16::new(cols).unwrap_or(NonZeroU16::MIN);
    e.parser.screen_mut().set_size(rows, cols);
}

/// `vt100::Screen::set_scrollback`: the view moves `rows` back into the
/// history, or to its start when the history is shorter (the history is
/// empty on the alternate screen); the history, its capacity, the size and
/// the input stay.
#[verifier::external_body]
pub(crate) fn emulator_set_scrollback(e: &mut Emulator, rows: usize)
    ensures
        emulator_scrollback_of(*final(e)) == (if rows <= emulator_history_len_of(*old(e)) {
            rows
        } else {
            emulator_history_len_of(*old(e))
        }),
        emulator_history_len_of(*final(e)) == emulator_history_len_of(*old(e)),
        emulator_scrollback_capacity_of(*final(e)) == emulator_scrollback_capacity_of(*old(e)),
        emulator_size(*final(e)) == emulator_size(*old(e)),
        emulator_fed(*final(e)) == emulator_fed(*old(e)),
{
    e.parser.screen_mut().set_scrollback(rows);
}

/// `vt100::Screen::scrollback`: how far back the view stands.
#[verifier::external_body]
pub(crate) fn emulator_scrollback(e: &Emulator) -> (r: usize)
    ensures
        r == emulator_scrollback_of(*e),
{
    e.parser.screen().scrollback()
}

/// A `vt100::Color` as the library's colour, variant for variant.
#[verifier::external_body]
fn term_color(c: vt100::Color) -> TermColor {
    match c {
        vt100::Color::Default => TermColor::Default,
        vt100::Color::Idx(i) => TermColor::Idx(i),
        vt100::Color::Rgb(r, g, b) => TermColor::Rgb(r, g, b),
    }
}

/// `vt100::Screen::cell`: the cell shown at this place, as the library's
/// cell, or none outside the screen.
#[verifier::external_body]
pub(crate) fn emulator_cell(e: &Emulator, row: u16, col: u16) -> (r: Option<ScreenCell>)
    ensures
        r == emulator_cell_at(*e, row, col),
{
    e.parser.screen().cell(row, col).map(|c| ScreenCell {
        contents: c.contents().to_string(),
        wide_continuation: c.is_wide_continuation(),
        style: TerminalRenderStyle {
            fg: term_color(c.fgcolor()),
            bg: term_color(c.bgcolor()),
            bold: c.bold(),
            italic: c.italic(),
            underline: c.underline(),
            inverse: c.inverse(),
        },
    })
}

/// `vt100::Screen::hide_cursor`.
#[verifier::external_body]
pub(crate) fn emulator_hide_cursor(e: &Emulator) -> (r: bool)
    ensures
        r == emulator_hide_cursor_of(*e),
{
    e.parser.screen().hide_cursor()
}

/// `vt100::Screen::application_cursor`.
#[verifier::external_body]
pub(crate) fn emulator_application_cursor(e: &Emulator) -> (r: bool)
    ensures
        r == emulator_application_cursor_of(*e),
{
    e.parser.screen().application_cursor()
}

/// `vt100::Screen::bracketed_paste`.
#[verifier::external_body]
pub(crate) fn emulator_bracketed_paste(e: &Emulator) -> (r: bool)
    ensures
        r == emulator_bracketed_paste_of(*e),
{
    e.parser.screen().bracketed_paste()
}

/// `vt100::Screen::mouse_protocol_mode`, variant for variant.
#[verifier::external_body]
pub(crate) fn emulator_mouse_mode(e: &Emulator) -> (r: MouseProtocolMode)
    ensures
        r == emulator_mouse_mode_of(*e),
{
    match e.parser.screen().mouse_protocol_mode() {
        vt100::MouseProtocolMode::None => MouseProtocolMode::Off,
        vt100::MouseProtocolMode::Press => MouseProtocolMode::Press,
        vt100::MouseProtocolMode::PressRelease => MouseProtocolMode::PressRelease,
        vt100::MouseProtocolMode::ButtonMotion => MouseProtocolMode::ButtonMotion,
        vt100::MouseProtocolMode::AnyMotion => MouseProtocolMode::AnyMotion,
    }
}

/// `vt100::Screen::mouse_protocol_encoding`, variant for variant.
#[verifier::external_body]
pub(crate) fn emulator_mouse_encoding(e: &Emulator) -> (r: MouseProtocolEncoding)
    ensures
        r == emulator_mouse_encoding_of(*e),
{
    match e.parser.screen().mouse_protocol_encoding() {
        vt100::MouseProtocolEncoding::Default => MouseProtocolEncoding::Default,
        vt100::MouseProtocolEncoding::Utf8 => MouseProtocolEncoding::Utf8,
        vt100::MouseProtocolEncoding::Sgr => MouseProtocolEncoding::Sgr,
    }
}

} // verus!
