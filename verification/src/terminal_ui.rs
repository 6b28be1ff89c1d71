//! The chat's view of an interactive terminal: its rows as styled runs,
//! scrolling, the replies owed to the program's queries, and what keys,
//! pastes and mouse events send. The emulated screen is read as plain
//! facts (`ScreenFacts`, `ScreenCell`) by whoever runs the emulator.
use vstd::prelude::*;

use crate::keys::{
    ascii_dec, encode_mouse_event, key_bytes_spec, push_ascii_dec, key_to_terminal_bytes_with_mode, mouse_event_spec, paste_bytes_spec,
    wrap_paste_bytes, KeyCode, KeyModifiers, MouseEvent, MouseProtocolEncoding, MouseProtocolMode,
};
use crate::terminal::{TerminalMode, TerminalOwner, TERMINAL_SCROLLBACK_MAX};
use crate::text::{push_dec, push_str, str_chars};
use crate::emulator::{
    emulator_application_cursor, emulator_bracketed_paste, emulator_cell, emulator_cursor, emulator_cursor_position,
    emulator_fed, emulator_hide_cursor, emulator_mouse_encoding, emulator_mouse_mode, emulator_new, emulator_process,
    emulator_scrollback, emulator_set_scrollback, emulator_set_size, emulator_size, Emulator, emulator_cell_at,
    emulator_scrollback_of, emulator_history_len_of, emulator_scrollback_capacity_of, emulator_hide_cursor_of, emulator_application_cursor_of, emulator_bracketed_paste_of,
    emulator_mouse_mode_of, emulator_mouse_encoding_of,
};
use vstd::utf8::encode_utf8;

verus! {

/// A colour of a cell: the terminal's default, an indexed one, or RGB.
#[derive(Debug, Clone, Copy, PartialEq, Eq, Structural)]
pub enum TermColor {
    Default,
    Idx(u8),
    Rgb(u8, u8, u8),
}

#[derive(Debug, Clone, Copy, PartialEq, Eq, Structural)]
pub struct TerminalRenderStyle {
    pub fg: TermColor,
    pub bg: TermColor,
    pub bold: bool,
    pub italic: bool,
    pub underline: bool,
    pub inverse: bool,
}

pub open spec fn default_style() -> TerminalRenderStyle {
    TerminalRenderStyle {
        fg: TermColor::Default,
        bg: TermColor::Default,
        bold: false,
        italic: false,
        underline: false,
        inverse: false,
    }
}

impl Default for TerminalRenderStyle {
    fn default() -> (r: TerminalRenderStyle)
        ensures
            r == default_style(),
    {
        TerminalRenderStyle {
            fg: TermColor::Default,
            bg: TermColor::Default,
            bold: false,
            italic: false,
            underline: false,
            inverse: false,
        }
    }
}

/// Text drawn in one style.
#[derive(Debug, Clone, PartialEq, Eq)]
pub struct TerminalRenderRun {
    pub text: String,
    pub style: TerminalRenderStyle,
}

/// One cell of the emulated screen.
#[derive(Debug, Clone, PartialEq, Eq)]
pub struct ScreenCell {
    pub contents: String,
    pub wide_continuation: bool,
    pub style: TerminalRenderStyle,
}

/// What the emulator says of its screen's modes.
#[derive(Debug, Clone, Copy, PartialEq, Eq, Structural)]
pub struct ScreenFacts {
    pub cursor_row: u16,
    pub cursor_col: u16,
    pub hide_cursor: bool,
    pub application_cursor: bool,
    pub bracketed_paste: bool,
    pub mouse_mode: MouseProtocolMode,
    pub mouse_encoding: MouseProtocolEncoding,
}

// ---------------------------------------------------------------------------
// Rows as runs
// ---------------------------------------------------------------------------

pub open spec fn run_view(r: TerminalRenderRun) -> (Seq<char>, TerminalRenderStyle) {
    (r.text@, r.style)
}

pub open spec fn runs_view(v: Seq<TerminalRenderRun>) -> Seq<(Seq<char>, TerminalRenderStyle)> {
    v.map_values(|r: TerminalRenderRun| run_view(r))
}

/// What a cell draws: a missing cell a blank, the second half of a wide
/// character nothing, an empty cell a blank, else its contents.
pub open spec fn piece(c: Option<ScreenCell>) -> Option<(Seq<char>, TerminalRenderStyle)> {
    match c {
        None => Some((" "@, default_style())),
        Some(cell) => if cell.wide_continuation {
            None
        } else if cell.contents@.len() == 0 {
            Some((" "@, cell.style))
        } else {
            Some((cell.contents@, cell.style))
        },
    }
}

pub open spec fn cell_at(cells: Seq<Option<ScreenCell>>, i: int) -> Option<ScreenCell> {
    if 0 <= i < cells.len() {
        cells[i]
    } else {
        None
    }
}

/// What the first `n` columns draw, in order.
pub open spec fn pieces_upto(cells: Seq<Option<ScreenCell>>, n: nat) -> Seq<(Seq<char>, TerminalRenderStyle)>
    decreases n,
{
    if n == 0 {
        Seq::empty()
    } else {
        pieces_upto(cells, (n - 1) as nat) + match piece(cell_at(cells, n - 1)) {
            Some(p) => seq![p],
            None => Seq::empty(),
        }
    }
}

/// Neighbouring pieces of the same style joined into one run.
pub open spec fn group_runs(ps: Seq<(Seq<char>, TerminalRenderStyle)>) -> Seq<(Seq<char>, TerminalRenderStyle)>
    decreases ps.len(),
{
    if ps.len() == 0 {
        Seq::empty()
    } else {
        let g = group_runs(ps.drop_last());
        if g.len() > 0 && g.last().1 == ps.last().1 {
            g.update(g.len() - 1, (g.last().0 + ps.last().0, g.last().1))
        } else {
            g.push(ps.last())
        }
    }
}

pub open spec fn blanks(n: nat) -> Seq<char> {
    Seq::new(n, |i: int| ' ')
}

/// A row of `cols` columns as runs; a row that draws nothing is blank.
pub open spec fn row_runs_spec(cells: Seq<Option<ScreenCell>>, cols: u16) -> Seq<(Seq<char>, TerminalRenderStyle)> {
    let g = group_runs(pieces_upto(cells, cols as nat));
    if g.len() == 0 {
        seq![(blanks(if cols < 1 { 1 } else { cols as nat }), default_style())]
    } else {
        g
    }
}

fn blank_text(n: usize) -> (r: String)
    ensures
        r@ == blanks(n as nat),
{
    let mut out: Vec<char> = Vec::new();
    let mut i: usize = 0;
    while i < n
        invariant
            i <= n,
            out@ == blanks(i as nat),
        decreases n - i,
    {
        out.push(' ');
        proof {
            assert(out@ =~= blanks((i + 1) as nat));
        }
        i += 1;
    }
    crate::text::chars_to_string(&out)
}

/// One more piece: it joins the current run when the style is the same,
/// else the current run is closed and a new one begins.
fn push_terminal_render_run(
    runs: &mut Vec<TerminalRenderRun>,
    current_style: &mut Option<TerminalRenderStyle>,
    current_text: &mut Vec<char>,
    text: Vec<char>,
    style: TerminalRenderStyle,
)
    requires
        (*old(current_style)) is None ==> old(runs)@.len() == 0,
    ensures
        ({
            let before = runs_view(old(runs)@) + match *old(current_style) {
                Some(s) => seq![(old(current_text)@, s)],
                None => Seq::<(Seq<char>, TerminalRenderStyle)>::empty(),
            };
            let after = runs_view(final(runs)@) + match *final(current_style) {
                Some(s) => seq![(final(current_text)@, s)],
                None => Seq::<(Seq<char>, TerminalRenderStyle)>::empty(),
            };
            &&& (*final(current_style)) is Some
            &&& (before.len() > 0 && before.last().1 == style) ==> after == before.update(
                before.len() - 1,
                (before.last().0 + text@, style),
            )
            &&& !(before.len() > 0 && before.last().1 == style) ==> after == before.push((text@, style))
        }),
        (*old(current_style)) is None ==> runs_view(final(runs)@) == runs_view(old(runs)@),
{
    let ghost rv = runs_view(runs@);
    let ghost ct = current_text@;
    match *current_style {
        Some(active) => {
            if active == style {
                crate::text::push_chars(current_text, &text);
                assert(rv + seq![(current_text@, active)] =~= (rv + seq![(ct, active)]).update(
                    rv.len() as int,
                    (ct + text@, style),
                ));
            } else {
                let done = TerminalRenderRun { text: crate::text::chars_to_string(current_text), style: active };
                runs.push(done);
                *current_style = Some(style);
                *current_text = text;
                assert(runs_view(runs@) =~= rv.push((done.text@, active)));
                assert(runs_view(runs@) + seq![(current_text@, style)] =~= (rv + seq![(ct, active)]).push(
                    (text@, style),
                ));
            }
        },
        None => {
            *current_style = Some(style);
            *current_text = text;
            assert(rv =~= Seq::<(Seq<char>, TerminalRenderStyle)>::empty());
            assert(runs_view(runs@) + seq![(current_text@, style)] =~= (rv + Seq::<
                (Seq<char>, TerminalRenderStyle),
            >::empty()).push((text@, style)));
        },
    }
}

/// One row of the screen as runs; `cells` are the row's cells from the
/// first column on (a column past them has no cell).
pub fn build_terminal_render_row(cells: &Vec<Option<ScreenCell>>, cols: u16) -> (r: Vec<TerminalRenderRun>)
    ensures
        runs_view(r@) == row_runs_spec(cells@, cols),
{
    let mut runs: Vec<TerminalRenderRun> = Vec::new();
    let mut current_style: Option<TerminalRenderStyle> = None;
    let mut current_text: Vec<char> = Vec::new();
    let mut col: u16 = 0;
    while col < cols
        invariant
            col <= cols,
            ({
                let g = group_runs(pieces_upto(cells@, col as nat));
                &&& (current_style is None <==> g.len() == 0)
                &&& runs_view(runs@) + match current_style {
                    Some(s) => seq![(current_text@, s)],
                    None => Seq::<(Seq<char>, TerminalRenderStyle)>::empty(),
                } == g
            }),
        decreases cols - col,
    {
        let ghost ps = pieces_upto(cells@, col as nat);
        let ghost ps1 = pieces_upto(cells@, (col + 1) as nat);
        let c: Option<&ScreenCell> = if (col as usize) < cells.len() {
            match &cells[col as usize] {
                Some(cell) => Some(cell),
                None => None,
            }
        } else {
            None
        };
        let ghost cv = cell_at(cells@, col as int);
        assert(match c {
            Some(cell) => cv == Some(*cell),
            None => cv is None,
        });
        match c {
            None => {
                assert(ps1 =~= ps.push((" "@, default_style())));
                assert(ps1.drop_last() =~= ps);
                push_terminal_render_run(
                    &mut runs,
                    &mut current_style,
                    &mut current_text,
                    str_chars(" "),
                    TerminalRenderStyle::default(),
                );
            },
            Some(cell) => {
                if cell.wide_continuation {
                    assert(ps1 =~= ps);
                } else {
                    let contents = str_chars(cell.contents.as_str());
                    let text = if contents.len() == 0 {
                        str_chars(" ")
                    } else {
                        contents
                    };
                    assert(ps1 =~= ps.push((text@, cell.style)));
                    assert(ps1.drop_last() =~= ps);
                    push_terminal_render_run(&mut runs, &mut current_style, &mut current_text, text, cell.style);
                }
            },
        }
        col += 1;
    }
    match current_style {
        Some(style) => {
            let ghost before = runs_view(runs@);
            let last = TerminalRenderRun { text: crate::text::chars_to_string(&current_text), style };
            runs.push(last);
            assert(runs_view(runs@) =~= before.push((current_text@, style)));
        },
        None => {
            assert(runs_view(runs@) =~= runs_view(runs@) + Seq::<(Seq<char>, TerminalRenderStyle)>::empty());
        },
    }
    if runs.len() == 0 {
        let n: u16 = if cols < 1 {
            1
        } else {
            cols
        };
        runs.push(TerminalRenderRun { text: blank_text(n as usize), style: TerminalRenderStyle::default() });
        assert(runs_view(runs@) =~= seq![(blanks(n as nat), default_style())]);
    }
    runs
}

pub open spec fn row_cells(cells: Seq<Vec<Option<ScreenCell>>>, i: int) -> Seq<Option<ScreenCell>> {
    if 0 <= i < cells.len() {
        cells[i]@
    } else {
        Seq::empty()
    }
}

/// The first `rows` rows of the screen as runs.
pub fn build_terminal_render_rows(cells: &Vec<Vec<Option<ScreenCell>>>, rows: u16, cols: u16) -> (r: Vec<
    Vec<TerminalRenderRun>,
>)
    ensures
        r@.len() == rows,
        forall|i: int| 0 <= i < rows ==> runs_view(#[trigger] r@[i]@) == row_runs_spec(row_cells(cells@, i), cols),
{
    let mut out: Vec<Vec<TerminalRenderRun>> = Vec::new();
    let empty: Vec<Option<ScreenCell>> = Vec::new();
    let mut row: u16 = 0;
    while row < rows
        invariant
            row <= rows,
            out@.len() == row,
            empty@.len() == 0,
            forall|i: int| 0 <= i < row ==> runs_view(#[trigger] out@[i]@) == row_cells_runs(cells@, i, cols),
        decreases rows - row,
    {
        let line = if (row as usize) < cells.len() {
            build_terminal_render_row(&cells[row as usize], cols)
        } else {
            assert(row_cells(cells@, row as int) =~= empty@);
            build_terminal_render_row(&empty, cols)
        };
        out.push(line);
        row += 1;
    }
    out
}

pub open spec fn row_cells_runs(cells: Seq<Vec<Option<ScreenCell>>>, i: int, cols: u16) -> Seq<
    (Seq<char>, TerminalRenderStyle),
> {
    row_runs_spec(row_cells(cells, i), cols)
}

// ---------------------------------------------------------------------------
// Replies to the program's queries
// ---------------------------------------------------------------------------

/// `pat` occurs somewhere in `bytes`.
pub open spec fn has_window(bytes: Seq<u8>, pat: Seq<u8>) -> bool {
    exists|i: int| 0 <= i && i + pat.len() <= bytes.len() && #[trigger] bytes.subrange(i, i + pat.len()) == pat
}

fn find_window(bytes: &[u8], pat: &[u8]) -> (r: bool)
    ensures
        r == has_window(bytes@, pat@),
{
    let n = bytes.len();
    let m = pat.len();
    if m > n {
        return false;
    }
    if m == 0 {
        assert(bytes@.subrange(0, 0int + pat@.len()) =~= pat@);
        return true;
    }
    let mut i: usize = 0;
    while i <= n - m
        invariant
            1 <= m <= n,
            n == bytes@.len(),
            m == pat@.len(),
            forall|j: int| 0 <= j < i ==> #[trigger] bytes@.subrange(j, j + m) != pat@,
        decreases n - m + 1 - i,
    {
        let mut k: usize = 0;
        let mut same = true;
        while k < m
            invariant
                k <= m,
                i + m <= n,
                n == bytes@.len(),
                m == pat@.len(),
                same == (bytes@.subrange(i as int, i + k) =~= pat@.take(k as int)),
            decreases m - k,
        {
            proof {
                assert(bytes@.subrange(i as int, i + k + 1) =~= bytes@.subrange(i as int, i + k).push(
                    bytes@[i + k],
                ));
                assert(pat@.take(k + 1) =~= pat@.take(k as int).push(pat@[k as int]));
            }
            let ghost a = bytes@.subrange(i as int, i + k);
            let ghost b = pat@.take(k as int);
            proof {
                if a =~= b && bytes@[i + k] == pat@[k as int] {
                    assert(a.push(bytes@[i + k]) =~= b.push(pat@[k as int]));
                }
                if !(a =~= b) {
                    let j = choose|j: int| 0 <= j < a.len() && a[j] != b[j];
                    if a.len() == b.len() {
                        assert(a.push(bytes@[i + k])[j] != b.push(pat@[k as int])[j]);
                    }
                }
                if bytes@[i + k] != pat@[k as int] {
                    assert(a.push(bytes@[i + k])[k as int] != b.push(pat@[k as int])[k as int]);
                }
            }
            if bytes[i + k] != pat[k] {
                same = false;
            }
            k += 1;
        }
        assert(pat@.take(m as int) =~= pat@);
        if same {
            return true;
        }
        i += 1;
    }
    proof {
        assert forall|j: int| 0 <= j && j + pat@.len() <= bytes@.len() implies #[trigger] bytes@.subrange(
            j,
            j + pat@.len(),
        ) != pat@ by {}
    }
    false
}

pub open spec fn status_query() -> Seq<u8> {
    seq![0x1bu8, 0x5bu8, 0x35u8, 0x6eu8]
}

pub open spec fn attrs_query() -> Seq<u8> {
    seq![0x1bu8, 0x63u8]
}

pub open spec fn attrs_zero_query() -> Seq<u8> {
    seq![0x1bu8, 0x5bu8, 0x30u8, 0x63u8]
}

pub open spec fn cursor_query() -> Seq<u8> {
    seq![0x1bu8, 0x5bu8, 0x36u8, 0x6eu8]
}

/// `ESC [ 0 n`: the terminal is fine.
pub open spec fn status_reply() -> Seq<u8> {
    seq![0x1bu8, 0x5bu8, 0x30u8, 0x6eu8]
}

/// `ESC [ ? 1 ; 0 c`: a VT100 with no options.
pub open spec fn attrs_reply() -> Seq<u8> {
    seq![0x1bu8, 0x5bu8, 0x3fu8, 0x31u8, 0x3bu8, 0x30u8, 0x63u8]
}

pub open spec fn sat_inc(n: u16) -> u16 {
    if n == u16::MAX {
        n
    } else {
        (n + 1) as u16
    }
}

/// `ESC [ row ; col R`, one-based.
pub open spec fn cursor_reply(row: u16, col: u16) -> Seq<u8> {
    seq![0x1bu8, 0x5bu8] + ascii_dec(sat_inc(row) as nat) + seq![0x3bu8] + ascii_dec(sat_inc(col) as nat) + seq![
        0x52u8,
    ]
}

/// What the program's queries in this output are answered, in order: its
/// status, the terminal's attributes, the cursor position.
pub open spec fn replies_spec(bytes: Seq<u8>, cursor_row: u16, cursor_col: u16) -> Seq<Seq<u8>> {
    if bytes.len() == 0 {
        Seq::empty()
    } else {
        (if has_window(bytes, status_query()) {
            seq![status_reply()]
        } else {
            Seq::empty()
        }) + (if has_window(bytes, attrs_query()) || has_window(bytes, attrs_zero_query()) {
            seq![attrs_reply()]
        } else {
            Seq::empty()
        }) + (if has_window(bytes, cursor_query()) {
            seq![cursor_reply(cursor_row, cursor_col)]
        } else {
            Seq::empty()
        })
    }
}

pub open spec fn bytes_views(v: Seq<Vec<u8>>) -> Seq<Seq<u8>> {
    v.map_values(|b: Vec<u8>| b@)
}

fn push_reply(out: &mut Vec<Vec<u8>>, b: Vec<u8>)
    ensures
        bytes_views(final(out)@) == bytes_views(old(out)@).push(b@),
{
    let ghost before = bytes_views(out@);
    out.push(b);
    assert(bytes_views(out@) =~= before.push(b@));
}

// ---------------------------------------------------------------------------
// The terminal tab
// ---------------------------------------------------------------------------

/// A coordinate kept inside a screen of `size` cells.
pub open spec fn clamp_to(v: u16, size: u16) -> u16 {
    if size == 0 {
        0
    } else if v < size - 1 {
        v
    } else {
        (size - 1) as u16
    }
}

/// An interactive terminal as a chat tab shows it.
pub struct TerminalUiState {
    pub session_id: u64,
    pub brief: String,
    pub cmd: String,
    pub cols: u16,
    pub rows: u16,
    pub scroll: u16,
    pub scroll_applied: u16,
    pub started_at: std::time::Instant,
    pub pid: Option<i32>,
    pub pgrp: Option<i32>,
    pub saved_path: String,
    pub status_path: String,
    pub mode: TerminalMode,
    pub owner: TerminalOwner,
    pub screen_rows: Vec<Vec<TerminalRenderRun>>,
    pub dirty: bool,
    pub emulator: Emulator,
}

/// `Instant::now`: some instant; nothing is stated of which.
#[verifier::external_body]
fn now() -> std::time::Instant {
    std::time::Instant::now()
}

pub open spec fn at_least_one(n: u16) -> u16 {
    if n < 1 {
        1
    } else {
        n
    }
}

fn max1(n: u16) -> (r: u16)
    ensures
        r == at_least_one(n),
{
    if n < 1 {
        1
    } else {
        n
    }
}

/// A value capped at `u16::MAX`.
pub open spec fn u16_sat(v: usize) -> u16 {
    if v > u16::MAX as usize {
        u16::MAX
    } else {
        v as u16
    }
}

/// Row `i` of the emulator's view: `cols` cells (at least one).
pub open spec fn emulator_row(e: Emulator, i: int, cols: u16) -> Seq<Option<ScreenCell>> {
    Seq::new(at_least_one(cols) as nat, |j: int| emulator_cell_at(e, i as u16, j as u16))
}

/// What the emulator says of its cursor and modes.
pub open spec fn emulator_facts(e: Emulator) -> ScreenFacts {
    ScreenFacts {
        cursor_row: emulator_cursor(e).0,
        cursor_col: emulator_cursor(e).1,
        hide_cursor: emulator_hide_cursor_of(e),
        application_cursor: emulator_application_cursor_of(e),
        bracketed_paste: emulator_bracketed_paste_of(e),
        mouse_mode: emulator_mouse_mode_of(e),
        mouse_encoding: emulator_mouse_encoding_of(e),
    }
}

impl TerminalUiState {
    /// A new tab, started now, showing a blank screen until it is drawn.
    pub fn new(
        session_id: u64,
        brief: String,
        cmd: String,
        cols: u16,
        rows: u16,
        saved_path: String,
        status_path: String,
        mode: TerminalMode,
        owner: TerminalOwner,
    ) -> (r: TerminalUiState)
        ensures
            r.session_id == session_id && r.brief == brief && r.cmd == cmd && r.cols == cols && r.rows == rows,
            r.scroll == 0 && r.scroll_applied == 0 && r.pid is None && r.pgrp is None,
            r.saved_path == saved_path && r.status_path == status_path && r.mode == mode && r.owner == owner,
            r.dirty,
            emulator_size(r.emulator) == (at_least_one(rows), at_least_one(cols)),
            emulator_fed(r.emulator) == Seq::<u8>::empty(),
            emulator_scrollback_capacity_of(r.emulator) == TERMINAL_SCROLLBACK_MAX as usize,
            emulator_scrollback_of(r.emulator) == 0,
            r.screen_rows@.len() == at_least_one(rows),
            forall|i: int|
                0 <= i < r.screen_rows@.len() ==> runs_view(#[trigger] r.screen_rows@[i]@) == seq![
                    (blanks(at_least_one(cols) as nat), default_style()),
                ],
    {
        let n = max1(rows);
        let w = max1(cols);
        let mut screen_rows: Vec<Vec<TerminalRenderRun>> = Vec::new();
        let mut i: u16 = 0;
        while i < n
            invariant
                i <= n,
                screen_rows@.len() == i,
                forall|j: int|
                    0 <= j < i ==> runs_view(#[trigger] screen_rows@[j]@) == seq![
                        (blanks(w as nat), default_style()),
                    ],
            decreases n - i,
        {
            let mut row: Vec<TerminalRenderRun> = Vec::new();
            row.push(TerminalRenderRun { text: blank_text(w as usize), style: TerminalRenderStyle::default() });
            assert(runs_view(row@) =~= seq![(blanks(w as nat), default_style())]);
            screen_rows.push(row);
            i += 1;
        }
        TerminalUiState {
            session_id,
            brief,
            cmd,
            cols,
            rows,
            scroll: 0,
            scroll_applied: 0,
            started_at: now(),
            pid: None,
            pgrp: None,
            saved_path,
            status_path,
            mode,
            owner,
            screen_rows,
            dirty: true,
            emulator: emulator_new(n, w, TERMINAL_SCROLLBACK_MAX as usize),
        }
    }

    /// Takes in the program's output: the emulator takes the bytes, and the
    /// replies owed to the program's queries among them come back (the
    /// cursor's as the emulator then has it); the tab is to be redrawn. No
    /// output changes nothing.
    pub fn process_output(&mut self, bytes: &[u8]) -> (r: Vec<Vec<u8>>)
        ensures
            bytes_views(r@) == replies_spec(
                bytes@,
                emulator_cursor(final(self).emulator).0,
                emulator_cursor(final(self).emulator).1,
            ),
            emulator_fed(final(self).emulator) == emulator_fed(old(self).emulator) + bytes@,
            emulator_size(final(self).emulator) == emulator_size(old(self).emulator),
            *final(self) == (TerminalUiState {
                dirty: old(self).dirty || bytes@.len() > 0,
                emulator: final(self).emulator,
                ..*old(self)
            }),
    {
        if bytes.len() > 0 {
            emulator_process(&mut self.emulator, bytes);
        } else {
            assert(old(self).emulator == self.emulator);
            assert(emulator_fed(self.emulator) + bytes@ =~= emulator_fed(self.emulator));
        }
        let (row, col) = emulator_cursor_position(&self.emulator);
        self.record_output(bytes, row, col)
    }

    /// After the emulator took in `bytes`: the replies owed to the
    /// program's queries among them (the cursor's as the emulator now has
    /// it), and the tab is to be redrawn. No output changes nothing.
    pub fn record_output(&mut self, bytes: &[u8], cursor_row: u16, cursor_col: u16) -> (r: Vec<Vec<u8>>)
        ensures
            bytes_views(r@) == replies_spec(bytes@, cursor_row, cursor_col),
            *final(self) == (TerminalUiState { dirty: old(self).dirty || bytes@.len() > 0, ..*old(self) }),
    {
        let mut out: Vec<Vec<u8>> = Vec::new();
        if bytes.len() == 0 {
            assert(bytes_views(out@) =~= Seq::<Seq<u8>>::empty());
            return out;
        }
        let status: [u8; 4] = [0x1b, 0x5b, 0x35, 0x6e];
        let attrs: [u8; 2] = [0x1b, 0x63];
        let attrs_zero: [u8; 4] = [0x1b, 0x5b, 0x30, 0x63];
        let cursor: [u8; 4] = [0x1b, 0x5b, 0x36, 0x6e];
        assert(status@ =~= status_query());
        assert(attrs@ =~= attrs_query());
        assert(attrs_zero@ =~= attrs_zero_query());
        assert(cursor@ =~= cursor_query());
        let ghost head = bytes_views(out@);
        if find_window(bytes, &status) {
            push_reply(&mut out, vec![0x1b, 0x5b, 0x30, 0x6e]);
        }
        let ghost one = bytes_views(out@);
        if find_window(bytes, &attrs) || find_window(bytes, &attrs_zero) {
            push_reply(&mut out, vec![0x1b, 0x5b, 0x3f, 0x31, 0x3b, 0x30, 0x63]);
        }
        let ghost two = bytes_views(out@);
        if find_window(bytes, &cursor) {
            let row: u16 = if cursor_row == u16::MAX {
                cursor_row
            } else {
                cursor_row + 1
            };
            let col: u16 = if cursor_col == u16::MAX {
                cursor_col
            } else {
                cursor_col + 1
            };
            let mut reply: Vec<u8> = vec![0x1b, 0x5b];
            push_ascii_dec(&mut reply, row);
            reply.push(0x3b);
            push_ascii_dec(&mut reply, col);
            reply.push(0x52);
            assert(reply@ =~= cursor_reply(cursor_row, cursor_col));
            push_reply(&mut out, reply);
        }
        assert(bytes_views(out@) =~= replies_spec(bytes@, cursor_row, cursor_col));
        self.dirty = true;
        out
    }

    pub fn rendered_rows(&self) -> (r: &Vec<Vec<TerminalRenderRun>>)
        ensures
            r@ == self.screen_rows@,
    {
        &self.screen_rows
    }

    /// Where the cursor shows: nowhere while scrolled back or hidden.
    pub fn cursor_visible_position(&self, screen: &ScreenFacts) -> (r: Option<(u16, u16)>)
        ensures
            r == if self.scroll != 0 || screen.hide_cursor {
                None
            } else {
                Some((screen.cursor_row, screen.cursor_col))
            },
    {
        if self.scroll != 0 || screen.hide_cursor {
            return None;
        }
        Some((screen.cursor_row, screen.cursor_col))
    }

    /// The bytes a key press sends, in the cursor-key mode the program set.
    pub fn key_bytes(&self, screen: &ScreenFacts, code: KeyCode, modifiers: KeyModifiers) -> (r: Option<Vec<u8>>)
        ensures
            match key_bytes_spec(code, modifiers, screen.application_cursor) {
                Some(b) => r matches Some(v) && v@ == b,
                None => r is None,
            },
    {
        key_to_terminal_bytes_with_mode(code, modifiers, screen.application_cursor)
    }

    /// The bytes a paste sends, bracketed when the program asked for it.
    pub fn wrap_paste_bytes(&self, screen: &ScreenFacts, text: &str) -> (r: Vec<u8>)
        ensures
            r@ == paste_bytes_spec(encode_utf8(text@), screen.bracketed_paste),
    {
        wrap_paste_bytes(text, screen.bracketed_paste)
    }

    /// Whether the program asked for mouse events.
    pub fn wants_mouse_input(&self, screen: &ScreenFacts) -> (r: bool)
        ensures
            r == (screen.mouse_mode != MouseProtocolMode::Off),
    {
        screen.mouse_mode != MouseProtocolMode::Off
    }

    /// The bytes a mouse event at this cell sends, the cell kept inside the
    /// screen.
    pub fn mouse_bytes(&self, screen: &ScreenFacts, column: u16, row: u16, mouse: MouseEvent) -> (r: Option<Vec<u8>>)
        ensures
            match tab_mouse_spec(*self, *screen, column, row, mouse) {
                Some(b) => r matches Some(v) && v@ == b,
                None => r is None,
            },
    {
        let max_col = if self.cols == 0 {
            0
        } else {
            self.cols - 1
        };
        let max_row = if self.rows == 0 {
            0
        } else {
            self.rows - 1
        };
        let c = if column < max_col {
            column
        } else {
            max_col
        };
        let w = if row < max_row {
            row
        } else {
            max_row
        };
        encode_mouse_event(screen.mouse_mode, screen.mouse_encoding, c, w, mouse)
    }

    /// Back to the live screen.
    pub fn reset_view_to_live(&mut self)
        ensures
            *final(self) == (TerminalUiState {
                scroll: 0,
                dirty: old(self).dirty || old(self).scroll != 0,
                ..*old(self)
            }),
    {
        if self.scroll != 0 {
            self.scroll = 0;
            self.dirty = true;
        }
    }

    /// Fits the tab to a size of at least one cell each way; whether the
    /// size changed, and with it the program's terminal must be resized.
    pub fn ensure_size(&mut self, cols: u16, rows: u16) -> (r: bool)
        ensures
            r == !(old(self).cols == at_least_one(cols) && old(self).rows == at_least_one(rows)),
            r ==> *final(self) == (TerminalUiState {
                cols: at_least_one(cols),
                rows: at_least_one(rows),
                dirty: true,
                emulator: final(self).emulator,
                ..*old(self)
            }),
            r ==> emulator_size(final(self).emulator) == (at_least_one(rows), at_least_one(cols)),
            r ==> emulator_fed(final(self).emulator) == emulator_fed(old(self).emulator),
            !r ==> *final(self) == *old(self),
    {
        let cols = max1(cols);
        let rows = max1(rows);
        if self.cols == cols && self.rows == rows {
            return false;
        }
        self.cols = cols;
        self.rows = rows;
        emulator_set_size(&mut self.emulator, rows, cols);
        self.dirty = true;
        true
    }

    /// What the emulator shows of the screen's modes, and its cursor.
    pub fn facts(&self) -> (r: ScreenFacts)
        ensures
            r == emulator_facts(self.emulator),
    {
        let (cursor_row, cursor_col) = emulator_cursor_position(&self.emulator);
        ScreenFacts {
            cursor_row,
            cursor_col,
            hide_cursor: emulator_hide_cursor(&self.emulator),
            application_cursor: emulator_application_cursor(&self.emulator),
            bracketed_paste: emulator_bracketed_paste(&self.emulator),
            mouse_mode: emulator_mouse_mode(&self.emulator),
            mouse_encoding: emulator_mouse_encoding(&self.emulator),
        }
    }

    /// The cells the emulator shows, one row of `cols` cells for each of
    /// the `rows` rows (at least one each way).
    pub fn screen_cells(&self) -> (r: Vec<Vec<Option<ScreenCell>>>)
        ensures
            r@.len() == at_least_one(self.rows),
            forall|i: int| 0 <= i < r@.len() ==> (#[trigger] r@[i])@ == emulator_row(self.emulator, i, self.cols),
    {
        let n = max1(self.rows);
        let w = max1(self.cols);
        let mut out: Vec<Vec<Option<ScreenCell>>> = Vec::new();
        let mut row: u16 = 0;
        while row < n
            invariant
                row <= n,
                n == at_least_one(self.rows),
                w == at_least_one(self.cols),
                out@.len() == row,
                forall|i: int| 0 <= i < out@.len() ==> (#[trigger] out@[i])@ == emulator_row(self.emulator, i, self.cols),
            decreases n - row,
        {
            let mut line: Vec<Option<ScreenCell>> = Vec::new();
            let mut col: u16 = 0;
            while col < w
                invariant
                    col <= w,
                    line@.len() == col,
                    forall|j: int| 0 <= j < col ==> line@[j] == emulator_cell_at(self.emulator, row, j as u16),
                decreases w - col,
            {
                line.push(emulator_cell(&self.emulator, row, col));
                col += 1;
            }
            assert(line@ =~= emulator_row(self.emulator, row as int, self.cols));
            out.push(line);
            row += 1;
        }
        out
    }

    /// Draws the rows again from the emulator when they must be: the view
    /// moves to the scroll position asked for, and the rows are drawn from
    /// the cells shown there at the position the emulator took.
    pub fn rebuild_cache(&mut self)
        ensures
            !(old(self).dirty || old(self).scroll != old(self).scroll_applied) ==> *final(self) == *old(self),
            (old(self).dirty || old(self).scroll != old(self).scroll_applied) ==> {
                &&& *final(self) == (TerminalUiState {
                    scroll: final(self).scroll,
                    scroll_applied: final(self).scroll,
                    dirty: false,
                    screen_rows: final(self).screen_rows,
                    emulator: final(self).emulator,
                    ..*old(self)
                })
                &&& final(self).screen_rows@.len() == at_least_one(old(self).rows)
                &&& final(self).scroll == u16_sat(emulator_scrollback_of(final(self).emulator))
                &&& final(self).scroll as int == (if old(self).scroll as int <= emulator_history_len_of(old(self).emulator) {
                    old(self).scroll as int
                } else {
                    emulator_history_len_of(old(self).emulator) as int
                })
                &&& forall|i: int|
                    0 <= i < at_least_one(old(self).rows) ==> runs_view(#[trigger] final(self).screen_rows@[i]@)
                        == row_runs_spec(emulator_row(final(self).emulator, i, old(self).cols), at_least_one(old(self).cols))
                &&& emulator_size(final(self).emulator) == emulator_size(old(self).emulator)
                &&& emulator_fed(final(self).emulator) == emulator_fed(old(self).emulator)
            },
    {
        if !self.needs_rebuild() {
            return;
        }
        emulator_set_scrollback(&mut self.emulator, self.scroll as usize);
        let cells = self.screen_cells();
        let applied = emulator_scrollback(&self.emulator);
        let ghost cells_view = cells@;
        self.rebuild_from_cells(applied, &cells);
        proof {
            assert forall|i: int| 0 <= i < at_least_one(old(self).rows) implies row_cells(cells_view, i)
                == emulator_row(self.emulator, i, old(self).cols) by {}
        }
    }

    /// Whether the rows must be drawn again: the screen changed or the view
    /// scrolled.
    pub fn needs_rebuild(&self) -> (r: bool)
        ensures
            r == (self.dirty || self.scroll != self.scroll_applied),
    {
        self.dirty || self.scroll != self.scroll_applied
    }

    /// Draws the rows again from the screen as the emulator shows it at the
    /// scrollback position it took (`applied_scrollback`), when they must
    /// be; `cells` are the screen's rows of cells.
    pub fn rebuild_from_cells(&mut self, applied_scrollback: usize, cells: &Vec<Vec<Option<ScreenCell>>>)
        ensures
            !(old(self).dirty || old(self).scroll != old(self).scroll_applied) ==> *final(self) == *old(self),
            (old(self).dirty || old(self).scroll != old(self).scroll_applied) ==> {
                let applied = if applied_scrollback > u16::MAX as usize {
                    u16::MAX
                } else {
                    applied_scrollback as u16
                };
                &&& *final(self) == (TerminalUiState {
                    scroll: applied,
                    scroll_applied: applied,
                    dirty: false,
                    screen_rows: final(self).screen_rows,
                    ..*old(self)
                })
                &&& final(self).screen_rows@.len() == at_least_one(old(self).rows)
                &&& forall|i: int|
                    0 <= i < at_least_one(old(self).rows) ==> runs_view(#[trigger] final(self).screen_rows@[i]@)
                        == row_runs_spec(row_cells(cells@, i), at_least_one(old(self).cols))
            },
    {
        if !self.dirty && self.scroll == self.scroll_applied {
            return;
        }
        let applied: u16 = if applied_scrollback > 65535 {
            65535
        } else {
            applied_scrollback as u16
        };
        self.scroll = applied;
        self.scroll_applied = applied;
        self.screen_rows = build_terminal_render_rows(cells, max1(self.rows), max1(self.cols));
        self.dirty = false;
    }
}

/// The bytes a mouse event over a tab sends.
pub open spec fn tab_mouse_spec(t: TerminalUiState, f: ScreenFacts, column: u16, row: u16, mouse: MouseEvent) -> Option<
    Seq<u8>,
> {
    mouse_event_spec(f.mouse_mode, f.mouse_encoding, clamp_to(column, t.cols), clamp_to(row, t.rows), mouse)
}

// ---------------------------------------------------------------------------
// Scrolling the active tab
// ---------------------------------------------------------------------------

/// The tab a gesture acts on: the active one, or the last when the index
/// is past the end.
pub open spec fn active_index(len: nat, active_idx: usize) -> int {
    if active_idx < len - 1 {
        active_idx as int
    } else {
        len - 1
    }
}

/// Scrolling back by `delta` rows stops at the scrollback limit; scrolling
/// forward stops at the live screen.
pub open spec fn scrolled(scroll: u16, back: bool, delta: u16) -> u16 {
    if back {
        if scroll + delta > TERMINAL_SCROLLBACK_MAX {
            TERMINAL_SCROLLBACK_MAX
        } else {
            (scroll + delta) as u16
        }
    } else if scroll < delta {
        0
    } else {
        (scroll - delta) as u16
    }
}

pub open spec fn scroll_applied_to(old_tabs: Seq<TerminalUiState>, new_tabs: Seq<TerminalUiState>, k: int, back: bool, delta: u16) -> bool {
    &&& new_tabs.len() == old_tabs.len()
    &&& forall|i: int| 0 <= i < old_tabs.len() && i != k ==> #[trigger] new_tabs[i] == old_tabs[i]
    &&& new_tabs[k].scroll == scrolled(old_tabs[k].scroll, back, delta)
    &&& new_tabs[k].dirty
    &&& new_tabs[k] == (TerminalUiState { scroll: new_tabs[k].scroll, dirty: true, ..old_tabs[k] })
}

fn scroll_tab(tabs: &mut Vec<TerminalUiState>, active_idx: usize, back: bool, delta: u16) -> (r: bool)
    ensures
        r == (old(tabs)@.len() > 0),
        old(tabs)@.len() == 0 ==> final(tabs)@ == old(tabs)@,
        old(tabs)@.len() > 0 ==> scroll_applied_to(
            old(tabs)@,
            final(tabs)@,
            active_index(old(tabs)@.len(), active_idx),
            back,
            delta,
        ),
{
    if tabs.len() == 0 {
        return false;
    }
    let last = tabs.len() - 1;
    let k = if active_idx < last {
        active_idx
    } else {
        last
    };
    let ghost before = tabs@;
    let mut tab = tabs.remove(k);
    let s = tab.scroll;
    let next: u16 = if back {
        if s as u32 + delta as u32 > TERMINAL_SCROLLBACK_MAX as u32 {
            TERMINAL_SCROLLBACK_MAX
        } else {
            s + delta
        }
    } else if s < delta {
        0
    } else {
        s - delta
    };
    tab.scroll = next;
    tab.dirty = true;
    tabs.insert(k, tab);
    proof {
        assert forall|i: int| 0 <= i < before.len() && i != k implies #[trigger] tabs@[i] == before[i] by {
            if i < k {
            } else {
            }
        }
    }
    true
}

/// A mouse wheel over the terminal scrolls the active tab back (up) or
/// forward (down) by `delta` rows; false when there is no tab.
pub fn apply_mouse_wheel_to_terminal_view(
    tabs: &mut Vec<TerminalUiState>,
    active_idx: usize,
    scroll_up: bool,
    delta: u16,
) -> (r: bool)
    ensures
        r == (old(tabs)@.len() > 0),
        old(tabs)@.len() == 0 ==> final(tabs)@ == old(tabs)@,
        old(tabs)@.len() > 0 ==> scroll_applied_to(
            old(tabs)@,
            final(tabs)@,
            active_index(old(tabs)@.len(), active_idx),
            scroll_up,
            delta,
        ),
{
    scroll_tab(tabs, active_idx, scroll_up, delta)
}

/// A drag over the terminal scrolls the active tab back when it moves
/// down, else forward, by `delta` rows; false when there is no tab.
pub fn apply_touch_drag_to_terminal_view(tabs: &mut Vec<TerminalUiState>, active_idx: usize, dy: i32, delta: u16) -> (r:
    bool)
    ensures
        r == (old(tabs)@.len() > 0),
        old(tabs)@.len() == 0 ==> final(tabs)@ == old(tabs)@,
        old(tabs)@.len() > 0 ==> scroll_applied_to(
            old(tabs)@,
            final(tabs)@,
            active_index(old(tabs)@.len(), active_idx),
            dy > 0,
            delta,
        ),
{
    scroll_tab(tabs, active_idx, dy > 0, delta)
}

/// Scrolling back by some rows and forward by as many returns to where the
/// view was, when the scrollback limit was not reached on the way.
pub proof fn lemma_scroll_back_then_forward(scroll: u16, delta: u16)
    requires
        scroll + delta <= TERMINAL_SCROLLBACK_MAX,
    ensures
        scrolled(scrolled(scroll, true, delta), false, delta) == scroll,
{
}

/// Scrolling forward never passes the live screen: far enough forward, the
/// view is live.
pub proof fn lemma_scroll_forward_reaches_live(scroll: u16, delta: u16)
    requires
        delta >= scroll,
    ensures
        scrolled(scroll, false, delta) == 0,
{
}

/// A mouse event over the active tab (the last when the index is past the
/// end), whose screen is described by `screen`: the session it goes to and
/// its bytes, when the program asked for mouse events and the event has an
/// encoding; the tab then shows the live screen again.
pub fn build_mouse_input_for_active_terminal(
    tabs: &mut Vec<TerminalUiState>,
    active_idx: usize,
    screen: &ScreenFacts,
    column: u16,
    row: u16,
    mouse: MouseEvent,
) -> (r: Option<(u64, Vec<u8>)>)
    ensures
        old(tabs)@.len() == 0 || screen.mouse_mode == MouseProtocolMode::Off ==> r is None && final(tabs)@ == old(
            tabs,
        )@,
        old(tabs)@.len() > 0 && screen.mouse_mode != MouseProtocolMode::Off ==> {
            let k = active_index(old(tabs)@.len(), active_idx);
            let t = old(tabs)@[k];
            match tab_mouse_spec(t, *screen, column, row, mouse) {
                None => r is None && final(tabs)@ == old(tabs)@,
                Some(b) => {
                    &&& r matches Some(p) && p.0 == t.session_id && p.1@ == b
                    &&& final(tabs)@.len() == old(tabs)@.len()
                    &&& forall|i: int| 0 <= i < old(tabs)@.len() && i != k ==> #[trigger] final(tabs)@[i] == old(tabs)@[i]
                    &&& final(tabs)@[k] == (TerminalUiState {
                        scroll: 0,
                        dirty: t.dirty || t.scroll != 0,
                        ..t
                    })
                },
            }
        },
{
    if tabs.len() == 0 {
        return None;
    }
    if screen.mouse_mode == MouseProtocolMode::Off {
        return None;
    }
    let last = tabs.len() - 1;
    let k = if active_idx < last {
        active_idx
    } else {
        last
    };
    let bytes = match tabs[k].mouse_bytes(screen, column, row, mouse) {
        Some(b) => b,
        None => return None,
    };
    let ghost before = tabs@;
    let mut tab = tabs.remove(k);
    tab.reset_view_to_live();
    let id = tab.session_id;
    tabs.insert(k, tab);
    proof {
        assert forall|i: int| 0 <= i < before.len() && i != k implies #[trigger] tabs@[i] == before[i] by {}
    }
    Some((id, bytes))
}

} // verus!
