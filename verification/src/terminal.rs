//! The emulator state machine: grid, cursor, current style and scroll
//! region, driven by parser events.
//!
//! Every mutation is pinned to a transition function over the abstract
//! state `TermState`; the well-formedness predicate `st_wf` (grid length,
//! cursor bounds, scroll-region bounds) holds after every public operation.
//! Rows and columns are 0-based; the scroll region is the half-open row
//! band `[top, bottom)`.

use vstd::prelude::*;

use crate::backends::TermionBackend;
use crate::backends::goto_of;
use crate::backends::hide_of;
use crate::backends::show_of;
use crate::backends::spec_draw;
use crate::buffer::Buffer;
use crate::buffer::rect_wf;
use crate::buffer::spec_diff;
use crate::cell::Cell;
use crate::cell::default_cell;
use crate::layout::Rect;
use crate::style::Style;
use crate::style::default_style;
use crate::style::spec_apply_sgr;

verus! {

/// Bell.
pub const BEL: u8 = 0x07;
/// Backspace.
pub const BS: u8 = 0x08;
/// Horizontal tab.
pub const HT: u8 = 0x09;
/// Linefeed.
pub const LF: u8 = 0x0A;
/// Vertical tab.
pub const VT: u8 = 0x0B;
/// Form feed.
pub const FF: u8 = 0x0C;
/// Carriage return.
pub const CR: u8 = 0x0D;
/// Escape.
pub const ESC: u8 = 0x1B;

/// Which part of the current line a clear-line operation erases.
#[derive(Clone, Copy, Debug, PartialEq, Eq, Structural)]
pub enum LineClearMode {
    /// From the cursor to the end of the line.
    Right,
    /// From the start of the line through the cursor.
    Left,
    /// The whole line.
    All,
}

/// Which part of the screen a clear-screen operation erases.
#[derive(Clone, Copy, Debug, PartialEq, Eq, Structural)]
pub enum ClearMode {
    /// From the cursor to the end of the grid.
    Below,
    /// From the start of the grid through the cursor.
    Above,
    /// The whole grid.
    All,
    /// Saved lines; kept as a no-op here.
    Saved,
}

/// The abstract emulator state the contracts speak of.
#[verifier::ext_equal]
pub ghost struct TermState {
    /// The visible grid, row-major, of length `width * height`.
    pub grid: Seq<Cell>,
    /// Cursor row, `0 <= row < height`.
    pub row: int,
    /// Cursor column, `0 <= col < width`.
    pub col: int,
    /// First row of the scroll region.
    pub top: int,
    /// First row past the scroll region.
    pub bottom: int,
    /// The style stamped onto printed glyphs.
    pub style: Style,
    /// Grid width in columns.
    pub width: int,
    /// Grid height in rows.
    pub height: int,
}

/// Well-formedness: the invariants that hold after every public operation.
pub open spec fn st_wf(s: TermState) -> bool {
    &&& s.width >= 1
    &&& s.height >= 1
    &&& s.width * s.height <= usize::MAX
    &&& s.grid.len() == s.width * s.height
    &&& 0 <= s.row < s.height
    &&& 0 <= s.col < s.width
    &&& 0 <= s.top < s.bottom <= s.height
}

/// The grid after scrolling the rows of `[top, bottom)` up by one: each row
/// moves one row up, the top row is lost, the bottom row becomes blank.
pub open spec fn scroll_up_grid(g: Seq<Cell>, top: int, bottom: int, w: int) -> Seq<Cell> {
    Seq::new(
        g.len(),
        |i: int|
            if top * w <= i < (bottom - 1) * w {
                g[i + w]
            } else if (bottom - 1) * w <= i < bottom * w {
                default_cell()
            } else {
                g[i]
            },
    )
}

/// The grid after scrolling the rows of `[top, bottom)` down by one: each
/// row moves one row down, the bottom row is lost, the top row becomes
/// blank.
pub open spec fn scroll_down_grid(g: Seq<Cell>, top: int, bottom: int, w: int) -> Seq<Cell> {
    Seq::new(
        g.len(),
        |i: int|
            if top * w <= i < (top + 1) * w {
                default_cell()
            } else if (top + 1) * w <= i < bottom * w {
                g[i - w]
            } else {
                g[i]
            },
    )
}

/// The grid with the cells of `[start, end)` cleared to the default.
pub open spec fn reset_range_grid(g: Seq<Cell>, start: int, end: int) -> Seq<Cell> {
    Seq::new(
        g.len(),
        |i: int|
            if start <= i < end {
                default_cell()
            } else {
                g[i]
            },
    )
}

/// Linefeed: move down within the scroll region, or scroll the region up
/// when the cursor stands on its last row.
pub open spec fn spec_linefeed(s: TermState) -> TermState {
    if s.row < s.bottom - 1 {
        TermState { row: s.row + 1, ..s }
    } else {
        TermState { grid: scroll_up_grid(s.grid, s.top, s.bottom, s.width), ..s }
    }
}

/// Carriage return: column 0.
pub open spec fn spec_carriage_return(s: TermState) -> TermState {
    TermState { col: 0, ..s }
}

/// Backspace: one column left; at column 0 wrap to the last column and
/// scroll the region up.
pub open spec fn spec_backspace(s: TermState) -> TermState {
    if s.col > 0 {
        TermState { col: s.col - 1, ..s }
    } else {
        TermState {
            grid: scroll_up_grid(s.grid, s.top, s.bottom, s.width),
            col: s.width - 1,
            ..s
        }
    }
}

/// Horizontal tab: blank the cells from the cursor column up to the next
/// tab stop (every 4 columns), clamped to the line's end; the cursor stays.
pub open spec fn spec_tab(s: TermState) -> TermState {
    let stop = if (s.col / 4 + 1) * 4 < s.width {
        (s.col / 4 + 1) * 4
    } else {
        s.width
    };
    TermState {
        grid: reset_range_grid(s.grid, s.row * s.width + s.col, s.row * s.width + stop),
        ..s
    }
}

/// The C0 dispatch: BS, HT, LF/VT/FF and CR act; BEL and anything else
/// leave the state alone.
pub open spec fn spec_execute(s: TermState, byte: u8) -> TermState {
    if byte == BS {
        spec_backspace(s)
    } else if byte == HT {
        spec_tab(s)
    } else if byte == LF || byte == VT || byte == FF {
        spec_linefeed(s)
    } else if byte == CR {
        spec_carriage_return(s)
    } else {
        s
    }
}

/// Cursor advance after a glyph: right one column, or wrap to column 0 and
/// linefeed at the right margin.
pub open spec fn spec_advance(s: TermState) -> TermState {
    if s.col + 1 < s.width {
        TermState { col: s.col + 1, ..s }
    } else {
        spec_linefeed(TermState { col: 0, ..s })
    }
}

/// Print: stamp `{c, style}` into the cell under the cursor, then advance.
pub open spec fn spec_print(s: TermState, c: char) -> TermState {
    spec_advance(
        TermState {
            grid: s.grid.update(s.row * s.width + s.col, Cell { style: s.style, symbol: c }),
            ..s
        },
    )
}

/// Cursor up by `n`, clamped at row 0.
pub open spec fn spec_move_up(s: TermState, n: int) -> TermState {
    TermState { row: if s.row >= n { s.row - n } else { 0 }, ..s }
}

/// Cursor down by `n`, clamped at the last row.
pub open spec fn spec_move_down(s: TermState, n: int) -> TermState {
    TermState { row: if s.row + n < s.height { s.row + n } else { s.height - 1 }, ..s }
}

/// Cursor right by `n`, clamped at the last column.
pub open spec fn spec_move_forward(s: TermState, n: int) -> TermState {
    TermState { col: if s.col + n < s.width { s.col + n } else { s.width - 1 }, ..s }
}

/// Cursor left by `n`, clamped at column 0.
pub open spec fn spec_move_backward(s: TermState, n: int) -> TermState {
    TermState { col: if s.col >= n { s.col - n } else { 0 }, ..s }
}

/// Absolute cursor motion, both coordinates clamped into the grid.
pub open spec fn spec_cursor_goto(s: TermState, x: int, y: int) -> TermState {
    TermState {
        col: if x < s.width { x } else { s.width - 1 },
        row: if y < s.height { y } else { s.height - 1 },
        ..s
    }
}

/// Clear part of the cursor's line to default cells.
pub open spec fn spec_clear_line(s: TermState, mode: LineClearMode) -> TermState {
    let line = s.row * s.width;
    match mode {
        LineClearMode::Right => TermState {
            grid: reset_range_grid(s.grid, line + s.col, line + s.width),
            ..s
        },
        LineClearMode::Left => TermState {
            grid: reset_range_grid(s.grid, line, line + s.col + 1),
            ..s
        },
        LineClearMode::All => TermState {
            grid: reset_range_grid(s.grid, line, line + s.width),
            ..s
        },
    }
}

/// Clear part of the grid to default cells; the cursor stays where it is.
pub open spec fn spec_clear_screen(s: TermState, mode: ClearMode) -> TermState {
    let cur = s.row * s.width + s.col;
    match mode {
        ClearMode::Below => TermState {
            grid: reset_range_grid(s.grid, cur, s.grid.len() as int),
            ..s
        },
        ClearMode::Above => TermState { grid: reset_range_grid(s.grid, 0, cur + 1), ..s },
        ClearMode::All => TermState {
            grid: reset_range_grid(s.grid, 0, s.grid.len() as int),
            ..s
        },
        ClearMode::Saved => s,
    }
}

/// Insert `n` blank lines at the cursor row: the rows from the cursor to
/// the region's bottom move down, rows pushed past the bottom are lost.
/// Acts only with the cursor inside the scroll region; `n` is clamped to
/// the rows available.
pub open spec fn spec_insert_lines(s: TermState, n: int) -> TermState {
    if s.top <= s.row < s.bottom {
        let m = if n < s.bottom - s.row {
            n
        } else {
            s.bottom - s.row
        };
        let w = s.width;
        TermState {
            grid: Seq::new(
                s.grid.len(),
                |i: int|
                    if s.row * w <= i < (s.row + m) * w {
                        default_cell()
                    } else if (s.row + m) * w <= i < s.bottom * w {
                        s.grid[i - m * w]
                    } else {
                        s.grid[i]
                    },
            ),
            ..s
        }
    } else {
        s
    }
}

/// Delete `n` lines at the cursor row: the rows below move up, blank rows
/// enter at the region's bottom. Acts only with the cursor inside the
/// scroll region; `n` is clamped to the rows available.
pub open spec fn spec_delete_lines(s: TermState, n: int) -> TermState {
    if s.top <= s.row < s.bottom {
        let m = if n < s.bottom - s.row {
            n
        } else {
            s.bottom - s.row
        };
        let w = s.width;
        TermState {
            grid: Seq::new(
                s.grid.len(),
                |i: int|
                    if s.row * w <= i < (s.bottom - m) * w {
                        s.grid[i + m * w]
                    } else if (s.bottom - m) * w <= i < s.bottom * w {
                        default_cell()
                    } else {
                        s.grid[i]
                    },
            ),
            ..s
        }
    } else {
        s
    }
}

/// Delete `n` characters at the cursor: the cells from the cursor on, up
/// to `n` of them, become default.
pub open spec fn spec_delete_chars(s: TermState, n: int) -> TermState {
    let cur = s.row * s.width + s.col;
    let end = if cur + n < s.grid.len() {
        cur + n
    } else {
        s.grid.len() as int
    };
    TermState { grid: reset_range_grid(s.grid, cur, end), ..s }
}

/// Reverse index: one row up, or scroll the region down when the cursor
/// stands at or above the region's top row.
pub open spec fn spec_reverse_index(s: TermState) -> TermState {
    if s.row > s.top {
        TermState { row: s.row - 1, ..s }
    } else {
        TermState { grid: scroll_down_grid(s.grid, s.top, s.bottom, s.width), ..s }
    }
}

/// Set the scroll region to `[top, bottom)` when that range is valid for
/// the grid; a malformed range mutates nothing.
pub open spec fn spec_set_scroll_region(s: TermState, top: int, bottom: int) -> TermState {
    if 0 <= top < bottom <= s.height {
        TermState { top, bottom, ..s }
    } else {
        s
    }
}

/// The `i`-th parameter, with `default` standing in for a missing or zero
/// value.
pub open spec fn param_or(ps: Seq<u16>, i: int, default: int) -> int {
    if i < ps.len() && ps[i] != 0 {
        ps[i] as int
    } else {
        default
    }
}

/// The CSI dispatch over the final byte `action`, as the control-sequence
/// table says. A sequence with intermediates is not handled and leaves the
/// state alone, as do the mode toggles `h l q t` and anything unknown.
pub open spec fn spec_csi(s: TermState, ps: Seq<u16>, inter: Seq<u8>, action: char) -> TermState {
    if inter.len() > 0 {
        s
    } else if action == 'A' {
        spec_move_up(s, param_or(ps, 0, 1))
    } else if action == 'B' || action == 'e' {
        spec_move_down(s, param_or(ps, 0, 1))
    } else if action == 'C' || action == 'a' {
        spec_move_forward(s, param_or(ps, 0, 1))
    } else if action == 'D' {
        spec_move_backward(s, param_or(ps, 0, 1))
    } else if action == 'E' {
        spec_carriage_return(spec_move_down(s, param_or(ps, 0, 1)))
    } else if action == 'H' || action == 'f' {
        spec_cursor_goto(s, param_or(ps, 1, 1) - 1, param_or(ps, 0, 1) - 1)
    } else if action == 'J' {
        let m = param_or(ps, 0, 0);
        if m == 0 {
            spec_clear_screen(s, ClearMode::Below)
        } else if m == 1 {
            spec_clear_screen(s, ClearMode::Above)
        } else if m == 2 {
            spec_clear_screen(s, ClearMode::All)
        } else {
            s
        }
    } else if action == 'K' {
        let m = param_or(ps, 0, 0);
        if m == 0 {
            spec_clear_line(s, LineClearMode::Right)
        } else if m == 1 {
            spec_clear_line(s, LineClearMode::Left)
        } else if m == 2 {
            spec_clear_line(s, LineClearMode::All)
        } else {
            s
        }
    } else if action == 'L' {
        spec_insert_lines(s, param_or(ps, 0, 1))
    } else if action == 'M' {
        spec_delete_lines(s, param_or(ps, 0, 1))
    } else if action == 'P' {
        spec_delete_chars(s, param_or(ps, 0, 1))
    } else if action == 'r' {
        let b = if ps.len() >= 2 && ps[1] != 0 {
            ps[1] as int
        } else {
            s.height
        };
        spec_set_scroll_region(s, param_or(ps, 0, 1) - 1, b)
    } else if action == 'm' {
        TermState {
            style: if ps.len() == 0 {
                default_style()
            } else {
                spec_apply_sgr(s.style, ps)
            },
            ..s
        }
    } else {
        s
    }
}

/// The ESC dispatch: `D` is linefeed, `E` linefeed plus carriage return,
/// `M` reverse index; a sequence with intermediates or an unknown final
/// byte leaves the state alone.
pub open spec fn spec_esc(s: TermState, inter: Seq<u8>, byte: u8) -> TermState {
    if inter.len() > 0 {
        s
    } else if byte == 0x44 {
        spec_linefeed(s)
    } else if byte == 0x45 {
        spec_carriage_return(spec_linefeed(s))
    } else if byte == 0x4D {
        spec_reverse_index(s)
    } else {
        s
    }
}

/// `a * c <= b * c` for `a <= b`, `c >= 0`.
pub proof fn lemma_mul_mono(a: int, b: int, c: int)
    by (nonlinear_arith)
    requires
        a <= b,
        c >= 0,
    ensures
        a * c <= b * c,
{
}

/// A row-major index from in-range coordinates lies inside the grid.
pub proof fn lemma_grid_index(row: int, col: int, w: int, h: int)
    by (nonlinear_arith)
    requires
        0 <= row < h,
        0 <= col < w,
    ensures
        0 <= row * w + col,
        row * w + col < h * w,
        row * w + col <= h * w - 1,
{
}

/// The emulator: the grid, cursor, current style, scroll region and the
/// render backend it draws through.
pub struct Terminal {
    pub c_style: Style,
    pub buffer: Buffer,
    pub rect: Rect,
    pub c_row: usize,
    pub c_col: usize,
    pub backend: TermionBackend,
    pub scroll_top: usize,
    pub scroll_bottom: usize,
}

impl View for Terminal {
    type V = TermState;

    open spec fn view(&self) -> TermState {
        TermState {
            grid: self.buffer.current@,
            row: self.c_row as int,
            col: self.c_col as int,
            top: self.scroll_top as int,
            bottom: self.scroll_bottom as int,
            style: self.c_style,
            width: self.rect.width as int,
            height: self.rect.height as int,
        }
    }
}

/// What no parser event touches: the viewport rectangle, the renderer's
/// snapshot buffer, and the backend's pending bytes.
pub open spec fn eq_frame(a: Terminal, b: Terminal) -> bool {
    &&& a.rect == b.rect
    &&& a.buffer.rect == b.buffer.rect
    &&& a.buffer.previous@ == b.buffer.previous@
    &&& a.backend.buffer@ == b.backend.buffer@
}

impl Terminal {
    /// The whole emulator invariant.
    pub open spec fn wf(&self) -> bool {
        &&& self.buffer.wf()
        &&& self.rect == self.buffer.rect
        &&& st_wf(self@)
    }

    /// A fresh emulator over `rect`: blank grid, cursor at the origin,
    /// default style, scroll region spanning every row.
    pub fn new(rect: Rect, backend: TermionBackend) -> (r: Terminal)
        requires
            rect_wf(rect),
        ensures
            r.wf(),
            r.rect == rect,
            r.backend == backend,
            r@.row == 0,
            r@.col == 0,
            r@.top == 0,
            r@.bottom == rect.height as int,
            r@.style == default_style(),
            forall|i: int| 0 <= i < r@.grid.len() ==> r@.grid[i] == default_cell(),
            r.buffer.previous@ == r.buffer.current@,
    {
        let buffer = Buffer::new(rect);
        Terminal {
            scroll_top: 0,
            scroll_bottom: rect.height,
            buffer,
            rect,
            c_style: Style::new(),
            c_col: 0,
            c_row: 0,
            backend,
        }
    }

    /// Grid width in columns.
    pub fn width(&self) -> (r: usize)
        ensures
            r as int == self@.width,
    {
        self.rect.width
    }

    /// Grid height in rows.
    pub fn height(&self) -> (r: usize)
        ensures
            r as int == self@.height,
    {
        self.rect.height
    }

    /// Cursor row.
    pub fn row(&self) -> (r: usize)
        ensures
            r as int == self@.row,
    {
        self.c_row
    }

    /// Cursor column.
    pub fn col(&self) -> (r: usize)
        ensures
            r as int == self@.col,
    {
        self.c_col
    }

    /// The cell at 0-based grid coordinates `(x, y)`.
    pub fn cell_at(&self, x: usize, y: usize) -> (r: Cell)
        requires
            self.wf(),
            x < self@.width,
            y < self@.height,
        ensures
            r == self@.grid[y * self@.width + x],
    {
        proof {
            lemma_grid_index(y as int, x as int, self@.width, self@.height);
        }
        self.buffer.current[y * self.rect.width + x]
    }

    /// Cursor up by `n`, clamped at row 0.
    pub fn move_up(&mut self, n: usize)
        requires
            old(self).wf(),
        ensures
            final(self).wf(),
            final(self)@ == spec_move_up(old(self)@, n as int),
            eq_frame(*old(self), *final(self)),
    {
        if self.c_row >= n {
            self.c_row = self.c_row - n;
        } else {
            self.c_row = 0;
        }
    }

    /// Cursor down by `n`, clamped at the last row.
    pub fn move_down(&mut self, n: usize)
        requires
            old(self).wf(),
        ensures
            final(self).wf(),
            final(self)@ == spec_move_down(old(self)@, n as int),
            eq_frame(*old(self), *final(self)),
    {
        if n < self.rect.height - self.c_row {
            self.c_row = self.c_row + n;
        } else {
            self.c_row = self.rect.height - 1;
        }
    }

    /// Cursor right by `n`, clamped at the last column.
    pub fn move_forward(&mut self, n: usize)
        requires
            old(self).wf(),
        ensures
            final(self).wf(),
            final(self)@ == spec_move_forward(old(self)@, n as int),
            eq_frame(*old(self), *final(self)),
    {
        if n < self.rect.width - self.c_col {
            self.c_col = self.c_col + n;
        } else {
            self.c_col = self.rect.width - 1;
        }
    }

    /// Cursor left by `n`, clamped at column 0.
    pub fn move_backward(&mut self, n: usize)
        requires
            old(self).wf(),
        ensures
            final(self).wf(),
            final(self)@ == spec_move_backward(old(self)@, n as int),
            eq_frame(*old(self), *final(self)),
    {
        if self.c_col >= n {
            self.c_col = self.c_col - n;
        } else {
            self.c_col = 0;
        }
    }

    /// Cursor down by `n`, then carriage return.
    pub fn move_down_and_cr(&mut self, n: usize)
        requires
            old(self).wf(),
        ensures
            final(self).wf(),
            final(self)@ == spec_carriage_return(spec_move_down(old(self)@, n as int)),
            eq_frame(*old(self), *final(self)),
    {
        self.move_down(n);
        self.carriage_return();
    }

    /// Absolute cursor motion to `(x, y)`, clamped into the grid.
    pub fn cursor_goto(&mut self, x: usize, y: usize)
        requires
            old(self).wf(),
        ensures
            final(self).wf(),
            final(self)@ == spec_cursor_goto(old(self)@, x as int, y as int),
            eq_frame(*old(self), *final(self)),
    {
        if x < self.rect.width {
            self.c_col = x;
        } else {
            self.c_col = self.rect.width - 1;
        }
        if y < self.rect.height {
            self.c_row = y;
        } else {
            self.c_row = self.rect.height - 1;
        }
    }

    /// Carriage return: column 0.
    pub fn carriage_return(&mut self)
        requires
            old(self).wf(),
        ensures
            final(self).wf(),
            final(self)@ == spec_carriage_return(old(self)@),
            eq_frame(*old(self), *final(self)),
    {
        self.c_col = 0;
    }

    /// The bell: rings nothing here and, above all, corrupts nothing.
    pub fn bell(&mut self)
        requires
            old(self).wf(),
        ensures
            final(self).wf(),
            *final(self) == *old(self),
    {
    }
}

/// `(a + b) * w == a * w + b * w`.
pub proof fn lemma_mul_add(a: int, b: int, w: int)
    by (nonlinear_arith)
    ensures
        (a + b) * w == a * w + b * w,
        (a - b) * w == a * w - b * w,
{
}

/// An index below `w * h` divides by the row width `w` to a row below `h`.
pub proof fn lemma_div_bound(i: int, w: int, h: int)
    by (nonlinear_arith)
    requires
        0 <= i,
        i < w * h,
        1 <= w,
    ensures
        i / w < h,
{
}

/// Law: a printed character can be read back. Writing `c` with the
/// current style and reading the cell that stood under the cursor yields
/// `{c, style}` — for every position at which the trailing cursor advance
/// does not scroll the region (at the right margin of the region's last
/// row the wrap scrolls the freshly written row up).
pub proof fn lemma_print_read_back(s: TermState, c: char)
    requires
        st_wf(s),
        !(s.col + 1 == s.width && s.row >= s.bottom - 1),
    ensures
        spec_print(s, c).grid[s.row * s.width + s.col] == (Cell { style: s.style, symbol: c }),
{
    lemma_grid_index(s.row, s.col, s.width, s.height);
}

/// Law: carriage return is idempotent — a second CR changes nothing.
pub proof fn lemma_cr_idempotent(s: TermState)
    ensures
        spec_carriage_return(spec_carriage_return(s)) == spec_carriage_return(s),
{
    assert(spec_carriage_return(spec_carriage_return(s)) =~= spec_carriage_return(s));
}

/// Law: absolute cursor motion lands on the clamped coordinates — reading
/// the cursor after `goto(x, y)` yields `(clamp(x), clamp(y))`.
pub proof fn lemma_goto_clamps(s: TermState, x: int, y: int)
    requires
        st_wf(s),
        x >= 0,
        y >= 0,
    ensures
        spec_cursor_goto(s, x, y).col == if x < s.width {
            x
        } else {
            s.width - 1
        },
        spec_cursor_goto(s, x, y).row == if y < s.height {
            y
        } else {
            s.height - 1
        },
{
}

/// Law: scrolling the region up and then down restores the grid exactly
/// when the region's top row — the row the upward scroll discards — held
/// nothing but default cells.
pub proof fn lemma_scroll_round_trip(g: Seq<Cell>, top: int, bottom: int, w: int)
    requires
        0 <= top < bottom,
        w >= 1,
        bottom * w <= g.len(),
    ensures
        (scroll_down_grid(scroll_up_grid(g, top, bottom, w), top, bottom, w) == g) <==> (forall|
            i: int,
        |
            top * w <= i < (top + 1) * w ==> g[i] == default_cell()),
{
    let g1 = scroll_up_grid(g, top, bottom, w);
    let g2 = scroll_down_grid(g1, top, bottom, w);
    lemma_mul_add(top, 1, w);
    lemma_mul_add(bottom, 1, w);
    lemma_mul_mono(top + 1, bottom, w);
    lemma_mul_mono(top, bottom - 1, w);
    if forall|i: int| top * w <= i < (top + 1) * w ==> g[i] == default_cell() {
        assert forall|i: int| 0 <= i < g.len() implies g2[i] == g[i] by {
            if top * w <= i < (top + 1) * w {
                assert(g2[i] == default_cell());
            } else if (top + 1) * w <= i < bottom * w {
                assert(g2[i] == g1[i - w]);
                assert(g1[i - w] == g[i]);
            } else {
                assert(g2[i] == g1[i]);
                assert(g1[i] == g[i]);
            }
        }
        assert(g2 =~= g);
    }
    if g2 == g {
        assert forall|i: int| top * w <= i < (top + 1) * w implies g[i] == default_cell() by {
            assert(g2[i] == default_cell());
        }
    }
}

/// Clears the cells of `[start, end)` to the default.
fn reset_cells(v: &mut Vec<Cell>, start: usize, end: usize)
    requires
        start <= end,
        end <= old(v)@.len(),
    ensures
        final(v)@.len() == old(v)@.len(),
        forall|j: int| 0 <= j < old(v)@.len() && !(start <= j < end) ==> final(v)@[j] == old(v)@[j],
        forall|j: int| start <= j < end ==> final(v)@[j] == default_cell(),
{
    let mut i = start;
    while i < end
        invariant
            start <= i <= end,
            end <= v@.len(),
            v@.len() == old(v)@.len(),
            forall|j: int| 0 <= j < v@.len() && !(start <= j < i) ==> v@[j] == old(v)@[j],
            forall|j: int| start <= j < i ==> v@[j] == default_cell(),
        decreases end - i,
    {
        let c = Cell::default();
        v[i] = c;
        i = i + 1;
    }
}

/// Copies each cell of `[start, end)` from the cell `k` places after it,
/// front to back, so a band of rows moves towards the front.
fn shift_cells_up(v: &mut Vec<Cell>, start: usize, end: usize, k: usize)
    requires
        start <= end,
        end + k <= old(v)@.len(),
    ensures
        final(v)@.len() == old(v)@.len(),
        forall|j: int| start <= j < end ==> final(v)@[j] == old(v)@[j + k],
        forall|j: int| 0 <= j < old(v)@.len() && !(start <= j < end) ==> final(v)@[j] == old(v)@[j],
{
    let n = v.len();
    let mut i = start;
    while i < end
        invariant
            start <= i <= end,
            end + k <= n,
            n == v@.len(),
            v@.len() == old(v)@.len(),
            forall|j: int| start <= j < i ==> v@[j] == old(v)@[j + k],
            forall|j: int| 0 <= j < v@.len() && !(start <= j < i) ==> v@[j] == old(v)@[j],
        decreases end - i,
    {
        let c = v[i + k];
        v[i] = c;
        i = i + 1;
    }
}

/// Copies each cell of `[start + k, end)` from the cell `k` places before
/// it, back to front, so a band of rows moves towards the back.
fn shift_cells_down(v: &mut Vec<Cell>, start: usize, end: usize, k: usize)
    requires
        start + k <= end,
        end <= old(v)@.len(),
    ensures
        final(v)@.len() == old(v)@.len(),
        forall|j: int| start + k <= j < end ==> final(v)@[j] == old(v)@[j - k],
        forall|j: int|
            0 <= j < old(v)@.len() && !(start + k <= j < end) ==> final(v)@[j] == old(v)@[j],
{
    let mut i = end;
    while i > start + k
        invariant
            start + k <= i <= end,
            end <= v@.len(),
            v@.len() == old(v)@.len(),
            forall|j: int| i <= j < end ==> v@[j] == old(v)@[j - k],
            forall|j: int| 0 <= j < v@.len() && !(i <= j < end) ==> v@[j] == old(v)@[j],
        decreases i,
    {
        i = i - 1;
        let c = v[i - k];
        v[i] = c;
    }
}

/// The `i`-th parameter of a control sequence, with `default` standing in
/// for a missing or zero value.
fn get_param(params: &Vec<u16>, i: usize, default: usize) -> (r: usize)
    requires
        default <= u16::MAX,
    ensures
        r as int == param_or(params@, i as int, default as int),
        r <= u16::MAX,
{
    if i < params.len() && params[i] != 0 {
        params[i] as usize
    } else {
        default
    }
}

impl Terminal {
    /// Scrolls the scroll region up by one row: its top row is lost, a
    /// blank row enters at its bottom. The cursor stays.
    pub fn scroll_up(&mut self)
        requires
            old(self).wf(),
        ensures
            final(self).wf(),
            final(self)@ == (TermState {
                grid: scroll_up_grid(
                    old(self)@.grid,
                    old(self)@.top,
                    old(self)@.bottom,
                    old(self)@.width,
                ),
                ..old(self)@
            }),
            eq_frame(*old(self), *final(self)),
    {
        let w = self.rect.width;
        proof {
            lemma_mul_mono(self.scroll_bottom as int, self.rect.height as int, w as int);
            lemma_mul_mono(self.scroll_top as int, self.scroll_bottom as int - 1, w as int);
            lemma_mul_add(self.scroll_bottom as int, 1, w as int);
        }
        let start = self.scroll_top * w;
        let endsh = (self.scroll_bottom - 1) * w;
        let endall = self.scroll_bottom * w;
        shift_cells_up(&mut self.buffer.current, start, endsh, w);
        reset_cells(&mut self.buffer.current, endsh, endall);
        proof {
            assert(self.buffer.current@ =~= scroll_up_grid(
                old(self)@.grid,
                old(self)@.top,
                old(self)@.bottom,
                old(self)@.width,
            ));
        }
    }

    /// Scrolls the scroll region down by one row: its bottom row is lost, a
    /// blank row enters at its top. The cursor stays.
    pub fn scroll_down(&mut self)
        requires
            old(self).wf(),
        ensures
            final(self).wf(),
            final(self)@ == (TermState {
                grid: scroll_down_grid(
                    old(self)@.grid,
                    old(self)@.top,
                    old(self)@.bottom,
                    old(self)@.width,
                ),
                ..old(self)@
            }),
            eq_frame(*old(self), *final(self)),
    {
        let w = self.rect.width;
        proof {
            lemma_mul_mono(self.scroll_bottom as int, self.rect.height as int, w as int);
            lemma_mul_mono(self.scroll_top as int + 1, self.scroll_bottom as int, w as int);
            lemma_mul_add(self.scroll_top as int, 1, w as int);
        }
        let start = self.scroll_top * w;
        let endall = self.scroll_bottom * w;
        shift_cells_down(&mut self.buffer.current, start, endall, w);
        reset_cells(&mut self.buffer.current, start, (self.scroll_top + 1) * w);
        proof {
            assert(self.buffer.current@ =~= scroll_down_grid(
                old(self)@.grid,
                old(self)@.top,
                old(self)@.bottom,
                old(self)@.width,
            ));
        }
    }

    /// Linefeed: one row down within the scroll region, scrolling it up
    /// when the cursor already stands on its last row.
    pub fn inc_row(&mut self)
        requires
            old(self).wf(),
        ensures
            final(self).wf(),
            final(self)@ == spec_linefeed(old(self)@),
            eq_frame(*old(self), *final(self)),
    {
        if self.c_row + 1 < self.scroll_bottom {
            self.c_row = self.c_row + 1;
        } else {
            self.scroll_up();
        }
    }

    /// Linefeed, as `execute` sees LF, VT and FF.
    pub fn linefeed(&mut self)
        requires
            old(self).wf(),
        ensures
            final(self).wf(),
            final(self)@ == spec_linefeed(old(self)@),
            eq_frame(*old(self), *final(self)),
    {
        self.inc_row();
    }

    /// Reverse index: one row up, scrolling the region down when the
    /// cursor stands at or above its top row.
    pub fn dec_row(&mut self)
        requires
            old(self).wf(),
        ensures
            final(self).wf(),
            final(self)@ == spec_reverse_index(old(self)@),
            eq_frame(*old(self), *final(self)),
    {
        if self.c_row > self.scroll_top {
            self.c_row = self.c_row - 1;
        } else {
            self.scroll_down();
        }
    }

    /// Reverse index, as the ESC dispatch sees `M`.
    pub fn reverse_index(&mut self)
        requires
            old(self).wf(),
        ensures
            final(self).wf(),
            final(self)@ == spec_reverse_index(old(self)@),
            eq_frame(*old(self), *final(self)),
    {
        self.dec_row();
    }

    /// One column left; at column 0, wrap to the last column and scroll
    /// the region up.
    pub fn dec_col(&mut self)
        requires
            old(self).wf(),
        ensures
            final(self).wf(),
            final(self)@ == spec_backspace(old(self)@),
            eq_frame(*old(self), *final(self)),
    {
        if self.c_col == 0 {
            self.scroll_up();
            self.c_col = self.rect.width - 1;
        } else {
            self.c_col = self.c_col - 1;
        }
    }

    /// Backspace, as `execute` sees BS.
    pub fn backspace(&mut self)
        requires
            old(self).wf(),
        ensures
            final(self).wf(),
            final(self)@ == spec_backspace(old(self)@),
            eq_frame(*old(self), *final(self)),
    {
        self.dec_col();
    }

    /// Horizontal tab: blanks the cells from the cursor to the next tab
    /// stop (every 4 columns, clamped to the line's end); the cursor
    /// stays.
    pub fn put_tab(&mut self)
        requires
            old(self).wf(),
        ensures
            final(self).wf(),
            final(self)@ == spec_tab(old(self)@),
            eq_frame(*old(self), *final(self)),
    {
        let w = self.rect.width;
        let q = self.c_col / 4 + 1;
        let stop = if q <= w / 4 {
            q * 4
        } else {
            w
        };
        proof {
            lemma_grid_index(self.c_row as int, self.c_col as int, w as int,
                self.rect.height as int);
            lemma_mul_add(self.c_row as int, 1, w as int);
            lemma_mul_mono(self.c_row as int + 1, self.rect.height as int, w as int);
        }
        let line = self.c_row * w;
        reset_cells(&mut self.buffer.current, line + self.c_col, line + stop);
        proof {
            assert(self.buffer.current@ =~= spec_tab(old(self)@).grid);
        }
    }

    /// Clears part of the cursor's line to default cells.
    pub fn clear_line(&mut self, mode: LineClearMode)
        requires
            old(self).wf(),
        ensures
            final(self).wf(),
            final(self)@ == spec_clear_line(old(self)@, mode),
            eq_frame(*old(self), *final(self)),
    {
        let w = self.rect.width;
        proof {
            lemma_grid_index(self.c_row as int, self.c_col as int, w as int,
                self.rect.height as int);
            lemma_mul_add(self.c_row as int, 1, w as int);
            lemma_mul_mono(self.c_row as int + 1, self.rect.height as int, w as int);
        }
        let line = self.c_row * w;
        match mode {
            LineClearMode::Right => {
                reset_cells(&mut self.buffer.current, line + self.c_col, line + w);
            },
            LineClearMode::Left => {
                reset_cells(&mut self.buffer.current, line, line + self.c_col + 1);
            },
            LineClearMode::All => {
                reset_cells(&mut self.buffer.current, line, line + w);
            },
        }
        proof {
            assert(self.buffer.current@ =~= spec_clear_line(old(self)@, mode).grid);
        }
    }

    /// Clears part of the grid to default cells; the cursor stays.
    pub fn clear_screen(&mut self, mode: ClearMode)
        requires
            old(self).wf(),
        ensures
            final(self).wf(),
            final(self)@ == spec_clear_screen(old(self)@, mode),
            eq_frame(*old(self), *final(self)),
    {
        let w = self.rect.width;
        proof {
            lemma_grid_index(self.c_row as int, self.c_col as int, w as int,
                self.rect.height as int);
        }
        let cur = self.c_row * w + self.c_col;
        let len = self.buffer.current.len();
        match mode {
            ClearMode::Below => {
                reset_cells(&mut self.buffer.current, cur, len);
            },
            ClearMode::Above => {
                reset_cells(&mut self.buffer.current, 0, cur + 1);
            },
            ClearMode::All => {
                reset_cells(&mut self.buffer.current, 0, len);
            },
            ClearMode::Saved => {},
        }
        proof {
            assert(self.buffer.current@ =~= spec_clear_screen(old(self)@, mode).grid);
        }
    }

    /// Deletes `n` characters at the cursor: the cells from the cursor on,
    /// up to `n` of them, become default.
    pub fn delete_chars(&mut self, n: usize)
        requires
            old(self).wf(),
        ensures
            final(self).wf(),
            final(self)@ == spec_delete_chars(old(self)@, n as int),
            eq_frame(*old(self), *final(self)),
    {
        let w = self.rect.width;
        proof {
            lemma_grid_index(self.c_row as int, self.c_col as int, w as int,
                self.rect.height as int);
        }
        let cur = self.c_row * w + self.c_col;
        let len = self.buffer.current.len();
        let end = if n < len - cur {
            cur + n
        } else {
            len
        };
        reset_cells(&mut self.buffer.current, cur, end);
        proof {
            assert(self.buffer.current@ =~= spec_delete_chars(old(self)@, n as int).grid);
        }
    }

    /// Inserts `n` blank lines at the cursor row within the scroll region;
    /// rows pushed past the region's bottom are lost. Acts only with the
    /// cursor inside the region.
    pub fn insert_line(&mut self, n: usize)
        requires
            old(self).wf(),
        ensures
            final(self).wf(),
            final(self)@ == spec_insert_lines(old(self)@, n as int),
            eq_frame(*old(self), *final(self)),
    {
        if self.c_row >= self.scroll_top && self.c_row < self.scroll_bottom {
            let w = self.rect.width;
            let avail = self.scroll_bottom - self.c_row;
            let m = if n < avail {
                n
            } else {
                avail
            };
            proof {
                lemma_mul_mono(self.scroll_bottom as int, self.rect.height as int, w as int);
                lemma_mul_mono(self.c_row as int + m as int, self.scroll_bottom as int, w as int);
                lemma_mul_add(self.c_row as int, m as int, w as int);
            }
            let start = self.c_row * w;
            let endall = self.scroll_bottom * w;
            shift_cells_down(&mut self.buffer.current, start, endall, m * w);
            reset_cells(&mut self.buffer.current, start, start + m * w);
            proof {
                assert(self.buffer.current@ =~= spec_insert_lines(old(self)@, n as int).grid);
            }
        }
    }

    /// Deletes `n` lines at the cursor row within the scroll region; blank
    /// rows enter at the region's bottom. Acts only with the cursor inside
    /// the region.
    pub fn delete_lines(&mut self, num: usize)
        requires
            old(self).wf(),
        ensures
            final(self).wf(),
            final(self)@ == spec_delete_lines(old(self)@, num as int),
            eq_frame(*old(self), *final(self)),
    {
        if self.c_row >= self.scroll_top && self.c_row < self.scroll_bottom {
            let w = self.rect.width;
            let avail = self.scroll_bottom - self.c_row;
            let m = if num < avail {
                num
            } else {
                avail
            };
            proof {
                lemma_mul_mono(self.scroll_bottom as int, self.rect.height as int, w as int);
                lemma_mul_mono(self.c_row as int, self.scroll_bottom as int - m as int, w as int);
                lemma_mul_add(self.scroll_bottom as int, m as int, w as int);
            }
            let start = self.c_row * w;
            let endkeep = (self.scroll_bottom - m) * w;
            let endall = self.scroll_bottom * w;
            shift_cells_up(&mut self.buffer.current, start, endkeep, m * w);
            reset_cells(&mut self.buffer.current, endkeep, endall);
            proof {
                assert(self.buffer.current@ =~= spec_delete_lines(old(self)@, num as int).grid);
            }
        }
    }

    /// Sets the scroll region to `[start, bottom)`, with a missing bottom
    /// standing for the grid's height; a malformed range mutates nothing.
    pub fn set_scroll_range(&mut self, start: usize, end: Option<usize>)
        requires
            old(self).wf(),
        ensures
            final(self).wf(),
            final(self)@ == spec_set_scroll_region(
                old(self)@,
                start as int,
                match end {
                    Some(e) => e as int,
                    None => old(self)@.height,
                },
            ),
            eq_frame(*old(self), *final(self)),
    {
        let b = match end {
            Some(e) => e,
            None => self.rect.height,
        };
        if start < b && b <= self.rect.height {
            self.scroll_top = start;
            self.scroll_bottom = b;
        }
    }

    /// Writes `{c, current style}` into the cell under the cursor, then
    /// advances the cursor, wrapping at the right margin.
    pub fn put_char(&mut self, c: char)
        requires
            old(self).wf(),
        ensures
            final(self).wf(),
            final(self)@ == spec_print(old(self)@, c),
            eq_frame(*old(self), *final(self)),
    {
        proof {
            lemma_grid_index(self.c_row as int, self.c_col as int, self.rect.width as int,
                self.rect.height as int);
        }
        let idx = self.c_row * self.rect.width + self.c_col;
        let cell = Cell { style: self.c_style, symbol: c };
        self.buffer.current[idx] = cell;
        self.inc_col();
    }

    /// Cursor advance after a glyph: right one column, or wrap to column 0
    /// and linefeed at the right margin.
    pub fn inc_col(&mut self)
        requires
            old(self).wf(),
        ensures
            final(self).wf(),
            final(self)@ == spec_advance(old(self)@),
            eq_frame(*old(self), *final(self)),
    {
        if self.c_col + 1 < self.rect.width {
            self.c_col = self.c_col + 1;
        } else {
            self.c_col = 0;
            self.inc_row();
        }
    }

    /// The print event: draw one character at the cursor.
    pub fn print(&mut self, c: char)
        requires
            old(self).wf(),
        ensures
            final(self).wf(),
            final(self)@ == spec_print(old(self)@, c),
            eq_frame(*old(self), *final(self)),
    {
        self.put_char(c);
    }

    /// The C0 dispatch: BS, HT, LF, VT, FF and CR act; BEL and every other
    /// control byte leave the state alone.
    pub fn execute(&mut self, byte: u8)
        requires
            old(self).wf(),
        ensures
            final(self).wf(),
            final(self)@ == spec_execute(old(self)@, byte),
            eq_frame(*old(self), *final(self)),
    {
        if byte == HT {
            self.put_tab();
        } else if byte == BS {
            self.backspace();
        } else if byte == CR {
            self.carriage_return();
        } else if byte == LF || byte == VT || byte == FF {
            self.linefeed();
        } else if byte == BEL {
            self.bell();
        }
    }

    /// The CSI dispatch over the final byte `action`, as the
    /// control-sequence table says; sequences with intermediates, the mode
    /// toggles and unknown finals leave the state alone.
    pub fn csi_dispatch(&mut self, params: &Vec<u16>, intermediates: &Vec<u8>, action: char)
        requires
            old(self).wf(),
        ensures
            final(self).wf(),
            final(self)@ == spec_csi(old(self)@, params@, intermediates@, action),
            eq_frame(*old(self), *final(self)),
    {
        if intermediates.len() > 0 {
            return ;
        }
        if action == 'A' {
            let n = get_param(params, 0, 1);
            self.move_up(n);
        } else if action == 'B' || action == 'e' {
            let n = get_param(params, 0, 1);
            self.move_down(n);
        } else if action == 'C' || action == 'a' {
            let n = get_param(params, 0, 1);
            self.move_forward(n);
        } else if action == 'D' {
            let n = get_param(params, 0, 1);
            self.move_backward(n);
        } else if action == 'E' {
            let n = get_param(params, 0, 1);
            self.move_down_and_cr(n);
        } else if action == 'H' || action == 'f' {
            let y = get_param(params, 0, 1);
            let x = get_param(params, 1, 1);
            self.cursor_goto(x - 1, y - 1);
        } else if action == 'J' {
            let m = get_param(params, 0, 0);
            if m == 0 {
                self.clear_screen(ClearMode::Below);
            } else if m == 1 {
                self.clear_screen(ClearMode::Above);
            } else if m == 2 {
                self.clear_screen(ClearMode::All);
            }
        } else if action == 'K' {
            let m = get_param(params, 0, 0);
            if m == 0 {
                self.clear_line(LineClearMode::Right);
            } else if m == 1 {
                self.clear_line(LineClearMode::Left);
            } else if m == 2 {
                self.clear_line(LineClearMode::All);
            }
        } else if action == 'L' {
            let n = get_param(params, 0, 1);
            self.insert_line(n);
        } else if action == 'M' {
            let n = get_param(params, 0, 1);
            self.delete_lines(n);
        } else if action == 'P' {
            let n = get_param(params, 0, 1);
            self.delete_chars(n);
        } else if action == 'r' {
            let t = get_param(params, 0, 1);
            let b = if params.len() >= 2 && params[1] != 0 {
                Some(params[1] as usize)
            } else {
                None
            };
            self.set_scroll_range(t - 1, b);
        } else if action == 'm' {
            if params.len() == 0 {
                self.c_style.reset();
            } else {
                self.c_style.apply_sgr(params);
            }
        }
    }

    /// Renders one frame: hide the cursor, hand the differ's changed
    /// cells to the backend, reposition the backend cursor to the
    /// emulator cursor's host position, show the cursor. The changed
    /// cells come back for broadcasting; the caller writes the backend's
    /// accumulated bytes to the terminal and flushes.
    pub fn draw(&mut self) -> (r: Vec<(usize, usize, Cell)>)
        requires
            old(self).wf(),
        ensures
            final(self).wf(),
            final(self)@ == old(self)@,
            final(self).rect == old(self).rect,
            final(self).buffer.previous@ == old(self).buffer.current@,
            r@ == spec_diff(old(self).buffer.previous@, old(self).buffer.current@, old(self).rect),
            final(self).backend.buffer@ == old(self).backend.buffer@ + hide_of() + spec_draw(r@)
                + goto_of(
                old(self)@.col + old(self).rect.x as int,
                old(self)@.row + old(self).rect.y as int,
            ) + show_of(),
    {
        self.backend.hide_cursor();
        let ghost prev0 = self.buffer.previous@;
        let ghost cur0 = self.buffer.current@;
        let ghost rect0 = self.rect;
        let cells = self.buffer.diff();
        proof {
            let n = cur0.len() as int;
            crate::buffer::lemma_diff_entries(prev0, cur0, rect0, n);
            assert forall|kk: int|
                0 <= kk < cells@.len() implies (#[trigger] cells@[kk]).0 < usize::MAX
                && cells@[kk].1 < usize::MAX by {
                let ww = rect0.width as int;
                let e = crate::buffer::diff_upto(prev0, cur0, rect0, n)[kk];
                let i = crate::buffer::entry_index(e, rect0);
                lemma_div_bound(i, ww, rect0.height as int);
            }
        }
        self.backend.draw(&cells);
        self.backend.cursor_goto(self.c_col + self.rect.x, self.c_row + self.rect.y);
        self.backend.show_cursor();
        proof {
            assert(self@ =~= old(self)@);
        }
        cells
    }

    /// The ESC dispatch: `D` is linefeed, `E` linefeed plus carriage
    /// return, `M` reverse index; anything else leaves the state alone.
    pub fn esc_dispatch(&mut self, intermediates: &Vec<u8>, byte: u8)
        requires
            old(self).wf(),
        ensures
            final(self).wf(),
            final(self)@ == spec_esc(old(self)@, intermediates@, byte),
            eq_frame(*old(self), *final(self)),
    {
        if intermediates.len() > 0 {
            return ;
        }
        if byte == 0x44 {
            self.linefeed();
        } else if byte == 0x45 {
            self.linefeed();
            self.carriage_return();
        } else if byte == 0x4D {
            self.reverse_index();
        }
    }
}

} // verus!

