//! The render backend: turns changed-cell reports into ANSI/VT escape
//! bytes.
//!
//! The backend only composes bytes into an internal buffer; the caller owns
//! the writer, hands the accumulated bytes to it, and flushes. Every byte
//! sequence the backend produces is pinned down exactly by the spec
//! functions in this module. Cursor positions are 0-based at this interface
//! and are emitted 1-based, as the wire format expects.

use vstd::prelude::*;

use crate::cell::Cell;
use crate::style::Color;

verus! {

/// The decimal digits of `n`, most significant first, as ASCII bytes.
pub open spec fn dec_of(n: int) -> Seq<u8>
    decreases n,
{
    if n < 10 {
        seq![(48 + if 0 <= n { n } else { 0 }) as u8]
    } else {
        dec_of(n / 10).push((48 + n % 10) as u8)
    }
}

/// The cursor-position escape for 0-based `(x, y)`: `ESC [ y+1 ; x+1 H`.
pub open spec fn goto_of(x: int, y: int) -> Seq<u8> {
    seq![27u8, 91u8] + dec_of(y + 1) + seq![59u8] + dec_of(x + 1) + seq![72u8]
}

/// The UTF-8 encoding of one Unicode scalar.
pub open spec fn utf8_of(c: char) -> Seq<u8> {
    let u = c as int;
    if u < 0x80 {
        seq![u as u8]
    } else if u < 0x800 {
        seq![(0xC0 + u / 64) as u8, (0x80 + u % 64) as u8]
    } else if u < 0x10000 {
        seq![(0xE0 + u / 4096) as u8, (0x80 + (u / 64) % 64) as u8, (0x80 + u % 64) as u8]
    } else {
        seq![
            (0xF0 + u / 262144) as u8,
            (0x80 + (u / 4096) % 64) as u8,
            (0x80 + (u / 64) % 64) as u8,
            (0x80 + u % 64) as u8,
        ]
    }
}

/// The SGR parameter bytes selecting `c` as the foreground: the standard
/// ANSI codes for the named palette (`Gray` is ANSI white, `White` is ANSI
/// bright white, `DarkGray` is ANSI bright black), `38;5;n` for an indexed
/// color, `38;2;r;g;b` for a 24-bit color, and `39` for the default.
pub open spec fn fg_code_of(c: Color) -> Seq<u8> {
    match c {
        Color::Reset => dec_of(39),
        Color::Black => dec_of(30),
        Color::Red => dec_of(31),
        Color::Green => dec_of(32),
        Color::Yellow => dec_of(33),
        Color::Blue => dec_of(34),
        Color::Magenta => dec_of(35),
        Color::Cyan => dec_of(36),
        Color::Gray => dec_of(37),
        Color::DarkGray => dec_of(90),
        Color::LightRed => dec_of(91),
        Color::LightGreen => dec_of(92),
        Color::LightYellow => dec_of(93),
        Color::LightBlue => dec_of(94),
        Color::LightMagenta => dec_of(95),
        Color::LightCyan => dec_of(96),
        Color::White => dec_of(97),
        Color::Indexed(n) => dec_of(38) + seq![59u8] + dec_of(5) + seq![59u8] + dec_of(n as int),
        Color::Rgb(r, g, b) => dec_of(38) + seq![59u8] + dec_of(2) + seq![59u8] + dec_of(r as int)
            + seq![59u8] + dec_of(g as int) + seq![59u8] + dec_of(b as int),
    }
}

/// The SGR parameter bytes selecting `c` as the background: the foreground
/// codes moved to the background ranges.
pub open spec fn bg_code_of(c: Color) -> Seq<u8> {
    match c {
        Color::Reset => dec_of(49),
        Color::Black => dec_of(40),
        Color::Red => dec_of(41),
        Color::Green => dec_of(42),
        Color::Yellow => dec_of(43),
        Color::Blue => dec_of(44),
        Color::Magenta => dec_of(45),
        Color::Cyan => dec_of(46),
        Color::Gray => dec_of(47),
        Color::DarkGray => dec_of(100),
        Color::LightRed => dec_of(101),
        Color::LightGreen => dec_of(102),
        Color::LightYellow => dec_of(103),
        Color::LightBlue => dec_of(104),
        Color::LightMagenta => dec_of(105),
        Color::LightCyan => dec_of(106),
        Color::White => dec_of(107),
        Color::Indexed(n) => dec_of(48) + seq![59u8] + dec_of(5) + seq![59u8] + dec_of(n as int),
        Color::Rgb(r, g, b) => dec_of(48) + seq![59u8] + dec_of(2) + seq![59u8] + dec_of(r as int)
            + seq![59u8] + dec_of(g as int) + seq![59u8] + dec_of(b as int),
    }
}

/// A whole SGR escape: `ESC [ code m`.
pub open spec fn fg_of(c: Color) -> Seq<u8> {
    seq![27u8, 91u8] + fg_code_of(c) + seq![109u8]
}

/// A whole SGR escape: `ESC [ code m`.
pub open spec fn bg_of(c: Color) -> Seq<u8> {
    seq![27u8, 91u8] + bg_code_of(c) + seq![109u8]
}

/// Everything emitted for one changed cell, in order: position the cursor,
/// select background then foreground, the glyph in UTF-8, then reset both
/// colors so no style bleeds into what follows.
pub open spec fn cell_bytes(x: int, y: int, c: Cell) -> Seq<u8> {
    goto_of(x, y) + bg_of(c.style.bg) + fg_of(c.style.fg) + utf8_of(c.symbol) + bg_of(Color::Reset)
        + fg_of(Color::Reset)
}

/// The bytes for the first `n` entries of a changed-cell report.
pub open spec fn draw_upto(batch: Seq<(usize, usize, Cell)>, n: int) -> Seq<u8>
    decreases n,
{
    if n <= 0 {
        Seq::empty()
    } else {
        let e = batch[n - 1];
        draw_upto(batch, n - 1) + cell_bytes(e.0 as int, e.1 as int, e.2)
    }
}

/// The bytes for a whole changed-cell report.
pub open spec fn spec_draw(batch: Seq<(usize, usize, Cell)>) -> Seq<u8> {
    draw_upto(batch, batch.len() as int)
}

/// The clear-screen escape `ESC [ 2 J`.
pub open spec fn clear_of() -> Seq<u8> {
    seq![27u8, 91u8, 50u8, 74u8]
}

/// The hide-cursor escape `ESC [ ? 2 5 l`.
pub open spec fn hide_of() -> Seq<u8> {
    seq![27u8, 91u8, 63u8, 50u8, 53u8, 108u8]
}

/// The show-cursor escape `ESC [ ? 2 5 h`.
pub open spec fn show_of() -> Seq<u8> {
    seq![27u8, 91u8, 63u8, 50u8, 53u8, 104u8]
}

/// Appends the decimal digits of `n` to `buf`.
fn push_dec(buf: &mut Vec<u8>, n: usize)
    ensures
        final(buf)@ == old(buf)@ + dec_of(n as int),
    decreases n,
{
    if n < 10 {
        buf.push(48 + n as u8);
        proof {
            assert(buf@ =~= old(buf)@ + dec_of(n as int));
        }
    } else {
        push_dec(buf, n / 10);
        buf.push(48 + (n % 10) as u8);
        proof {
            assert(buf@ =~= old(buf)@ + dec_of(n as int));
        }
    }
}

/// The decimal digits of `n` as a fresh vector.
fn dec_vec(n: usize) -> (r: Vec<u8>)
    ensures
        r@ == dec_of(n as int),
{
    let mut r: Vec<u8> = Vec::new();
    push_dec(&mut r, n);
    proof {
        assert(r@ =~= dec_of(n as int));
    }
    r
}

/// The SGR parameter bytes for `c` as foreground.
fn fg_code(c: Color) -> (r: Vec<u8>)
    ensures
        r@ == fg_code_of(c),
{
    match c {
        Color::Reset => dec_vec(39),
        Color::Black => dec_vec(30),
        Color::Red => dec_vec(31),
        Color::Green => dec_vec(32),
        Color::Yellow => dec_vec(33),
        Color::Blue => dec_vec(34),
        Color::Magenta => dec_vec(35),
        Color::Cyan => dec_vec(36),
        Color::Gray => dec_vec(37),
        Color::DarkGray => dec_vec(90),
        Color::LightRed => dec_vec(91),
        Color::LightGreen => dec_vec(92),
        Color::LightYellow => dec_vec(93),
        Color::LightBlue => dec_vec(94),
        Color::LightMagenta => dec_vec(95),
        Color::LightCyan => dec_vec(96),
        Color::White => dec_vec(97),
        Color::Indexed(n) => {
            let mut r = dec_vec(38);
            r.push(59);
            let mut t = dec_vec(5);
            r.append(&mut t);
            r.push(59);
            let mut t2 = dec_vec(n as usize);
            r.append(&mut t2);
            proof {
                assert(r@ =~= fg_code_of(c));
            }
            r
        },
        Color::Rgb(cr, cg, cb) => {
            let mut r = dec_vec(38);
            r.push(59);
            let mut t = dec_vec(2);
            r.append(&mut t);
            r.push(59);
            let mut t2 = dec_vec(cr as usize);
            r.append(&mut t2);
            r.push(59);
            let mut t3 = dec_vec(cg as usize);
            r.append(&mut t3);
            r.push(59);
            let mut t4 = dec_vec(cb as usize);
            r.append(&mut t4);
            proof {
                assert(r@ =~= fg_code_of(c));
            }
            r
        },
    }
}

/// The SGR parameter bytes for `c` as background.
fn bg_code(c: Color) -> (r: Vec<u8>)
    ensures
        r@ == bg_code_of(c),
{
    match c {
        Color::Reset => dec_vec(49),
        Color::Black => dec_vec(40),
        Color::Red => dec_vec(41),
        Color::Green => dec_vec(42),
        Color::Yellow => dec_vec(43),
        Color::Blue => dec_vec(44),
        Color::Magenta => dec_vec(45),
        Color::Cyan => dec_vec(46),
        Color::Gray => dec_vec(47),
        Color::DarkGray => dec_vec(100),
        Color::LightRed => dec_vec(101),
        Color::LightGreen => dec_vec(102),
        Color::LightYellow => dec_vec(103),
        Color::LightBlue => dec_vec(104),
        Color::LightMagenta => dec_vec(105),
        Color::LightCyan => dec_vec(106),
        Color::White => dec_vec(107),
        Color::Indexed(n) => {
            let mut r = dec_vec(48);
            r.push(59);
            let mut t = dec_vec(5);
            r.append(&mut t);
            r.push(59);
            let mut t2 = dec_vec(n as usize);
            r.append(&mut t2);
            proof {
                assert(r@ =~= bg_code_of(c));
            }
            r
        },
        Color::Rgb(cr, cg, cb) => {
            let mut r = dec_vec(48);
            r.push(59);
            let mut t = dec_vec(2);
            r.append(&mut t);
            r.push(59);
            let mut t2 = dec_vec(cr as usize);
            r.append(&mut t2);
            r.push(59);
            let mut t3 = dec_vec(cg as usize);
            r.append(&mut t3);
            r.push(59);
            let mut t4 = dec_vec(cb as usize);
            r.append(&mut t4);
            proof {
                assert(r@ =~= bg_code_of(c));
            }
            r
        },
    }
}

/// Appends the whole foreground SGR escape for `c`.
fn push_fg(buf: &mut Vec<u8>, c: Color)
    ensures
        final(buf)@ == old(buf)@ + fg_of(c),
{
    buf.push(27);
    buf.push(91);
    let mut code = fg_code(c);
    buf.append(&mut code);
    buf.push(109);
    proof {
        assert(buf@ =~= old(buf)@ + fg_of(c));
    }
}

/// Appends the whole background SGR escape for `c`.
fn push_bg(buf: &mut Vec<u8>, c: Color)
    ensures
        final(buf)@ == old(buf)@ + bg_of(c),
{
    buf.push(27);
    buf.push(91);
    let mut code = bg_code(c);
    buf.append(&mut code);
    buf.push(109);
    proof {
        assert(buf@ =~= old(buf)@ + bg_of(c));
    }
}

/// Appends the UTF-8 encoding of `c`.
fn push_utf8(buf: &mut Vec<u8>, c: char)
    ensures
        final(buf)@ == old(buf)@ + utf8_of(c),
{
    let u = c as u32;
    if u < 0x80 {
        buf.push(u as u8);
    } else if u < 0x800 {
        buf.push(0xC0 + (u / 64) as u8);
        buf.push(0x80 + (u % 64) as u8);
    } else if u < 0x10000 {
        buf.push(0xE0 + (u / 4096) as u8);
        buf.push(0x80 + ((u / 64) % 64) as u8);
        buf.push(0x80 + (u % 64) as u8);
    } else {
        buf.push(0xF0 + (u / 262144) as u8);
        buf.push(0x80 + ((u / 4096) % 64) as u8);
        buf.push(0x80 + ((u / 64) % 64) as u8);
        buf.push(0x80 + (u % 64) as u8);
    }
    proof {
        assert(buf@ =~= old(buf)@ + utf8_of(c));
    }
}

/// Appends the cursor-position escape for 0-based `(x, y)`.
fn push_goto(buf: &mut Vec<u8>, x: usize, y: usize)
    requires
        x < usize::MAX,
        y < usize::MAX,
    ensures
        final(buf)@ == old(buf)@ + goto_of(x as int, y as int),
{
    buf.push(27);
    buf.push(91);
    push_dec(buf, y + 1);
    buf.push(59);
    push_dec(buf, x + 1);
    buf.push(72);
    proof {
        assert(buf@ =~= old(buf)@ + goto_of(x as int, y as int));
    }
}

/// The concrete ANSI/VT render backend. It accumulates escape bytes; the
/// caller takes them with `take_bytes`, writes them to the terminal in one
/// piece, and flushes.
pub struct TermionBackend {
    pub buffer: Vec<u8>,
}

impl TermionBackend {
    /// A backend with an empty byte buffer.
    pub fn new() -> (r: TermionBackend)
        ensures
            r.buffer@ == Seq::<u8>::empty(),
    {
        TermionBackend { buffer: Vec::new() }
    }

    /// Appends, for each changed cell in order, the cursor-position escape,
    /// the two color escapes, the glyph, and the color resets.
    pub fn draw(&mut self, content: &Vec<(usize, usize, Cell)>)
        requires
            forall|i: int|
                0 <= i < content@.len() ==> (#[trigger] content@[i]).0 < usize::MAX && content@[i].1
                    < usize::MAX,
        ensures
            final(self).buffer@ == old(self).buffer@ + spec_draw(content@),
    {
        let ghost start = self.buffer@;
        let mut i: usize = 0;
        while i < content.len()
            invariant
                i <= content@.len(),
                forall|k: int|
                    0 <= k < content@.len() ==> (#[trigger] content@[k]).0 < usize::MAX
                        && content@[k].1 < usize::MAX,
                self.buffer@ == start + draw_upto(content@, i as int),
            decreases content@.len() - i,
        {
            let (x, y, c) = content[i];
            push_goto(&mut self.buffer, x, y);
            push_bg(&mut self.buffer, c.style.bg);
            push_fg(&mut self.buffer, c.style.fg);
            push_utf8(&mut self.buffer, c.symbol);
            push_bg(&mut self.buffer, Color::Reset);
            push_fg(&mut self.buffer, Color::Reset);
            proof {
                assert(self.buffer@ =~= start + draw_upto(content@, i as int + 1));
            }
            i = i + 1;
        }
    }

    /// Appends the clear-screen escape.
    pub fn clear(&mut self)
        ensures
            final(self).buffer@ == old(self).buffer@ + clear_of(),
    {
        self.buffer.push(27);
        self.buffer.push(91);
        self.buffer.push(50);
        self.buffer.push(74);
        proof {
            assert(self.buffer@ =~= old(self).buffer@ + clear_of());
        }
    }

    /// Appends the hide-cursor escape.
    pub fn hide_cursor(&mut self)
        ensures
            final(self).buffer@ == old(self).buffer@ + hide_of(),
    {
        self.buffer.push(27);
        self.buffer.push(91);
        self.buffer.push(63);
        self.buffer.push(50);
        self.buffer.push(53);
        self.buffer.push(108);
        proof {
            assert(self.buffer@ =~= old(self).buffer@ + hide_of());
        }
    }

    /// Appends the show-cursor escape.
    pub fn show_cursor(&mut self)
        ensures
            final(self).buffer@ == old(self).buffer@ + show_of(),
    {
        self.buffer.push(27);
        self.buffer.push(91);
        self.buffer.push(63);
        self.buffer.push(50);
        self.buffer.push(53);
        self.buffer.push(104);
        proof {
            assert(self.buffer@ =~= old(self).buffer@ + show_of());
        }
    }

    /// Appends the cursor-position escape for 0-based `(cols, rows)`.
    pub fn cursor_goto(&mut self, cols: usize, rows: usize)
        requires
            cols < usize::MAX,
            rows < usize::MAX,
        ensures
            final(self).buffer@ == old(self).buffer@ + goto_of(cols as int, rows as int),
    {
        push_goto(&mut self.buffer, cols, rows);
    }

    /// Hands the accumulated bytes out and leaves the buffer empty; the
    /// caller writes them to the terminal in one piece and flushes.
    pub fn take_bytes(&mut self) -> (r: Vec<u8>)
        ensures
            r@ == old(self).buffer@,
            final(self).buffer@ == Seq::<u8>::empty(),
    {
        let mut r: Vec<u8> = Vec::new();
        core::mem::swap(&mut r, &mut self.buffer);
        r
    }
}

} // verus!
