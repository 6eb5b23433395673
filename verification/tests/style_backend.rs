use termcast::backends::TermionBackend;
use termcast::buffer::Buffer;
use termcast::cell::Cell;
use termcast::layout::Rect;
use termcast::style::BOLD;
use termcast::style::ITALIC;
use termcast::style::UNDERLINED;
use termcast::style::Color;
use termcast::style::Modifier;
use termcast::style::Style;

#[test]
fn default_style_is_all_reset() {
    let s = Style::new();
    assert_eq!(s.fg, Color::Reset);
    assert_eq!(s.bg, Color::Reset);
    assert_eq!(s.modifier, Modifier::empty());
    assert_eq!(s, Style::default());
}

#[test]
fn style_setters_and_reset() {
    let mut s = Style::new();
    s.fg(Color::Yellow);
    s.bg(Color::Blue);
    s.set_bold();
    assert_eq!(s.fg, Color::Yellow);
    assert_eq!(s.bg, Color::Blue);
    assert!(s.modifier.contains(BOLD));
    s.reset();
    assert_eq!(s, Style::new());
}

#[test]
fn modifier_bits_toggle() {
    let mut m = Modifier::empty();
    m.insert(ITALIC);
    m.insert(UNDERLINED);
    assert!(m.contains(ITALIC));
    assert!(m.contains(UNDERLINED));
    assert!(!m.contains(BOLD));
    m.remove(ITALIC);
    assert!(!m.contains(ITALIC));
    assert!(m.contains(UNDERLINED));
}

#[test]
fn style_attribute_set_and_unset() {
    let mut s = Style::new();
    s.set_italic();
    assert!(s.modifier.contains(ITALIC));
    s.unset_italic();
    assert!(!s.modifier.contains(ITALIC));
    s.set_underline();
    assert!(s.modifier.contains(UNDERLINED));
    s.unset_underline();
    assert!(!s.modifier.contains(UNDERLINED));
    s.set_bold();
    assert!(s.modifier.contains(BOLD));
    s.unset_bold();
    assert!(!s.modifier.contains(BOLD));
}

#[test]
fn three_bit_codes_cover_all_groups() {
    let mut s = Style::new();
    s.set_color_3bits(31);
    assert_eq!(s.fg, Color::Red);
    assert!(!s.modifier.contains(BOLD));
    s.set_color_3bits(44);
    assert_eq!(s.bg, Color::Blue);
    s.set_color_3bits(97);
    assert_eq!(s.fg, Color::White);
    assert!(s.modifier.contains(BOLD));
    let mut t = Style::new();
    t.set_color_3bits(102);
    assert_eq!(t.bg, Color::Green);
    assert!(t.modifier.contains(BOLD));
}

#[test]
fn sgr_indexed_and_rgb_colors() {
    let mut s = Style::new();
    s.apply_sgr(&vec![38, 5, 196]);
    assert_eq!(s.fg, Color::Indexed(196));
    s.apply_sgr(&vec![48, 2, 10, 20, 30]);
    assert_eq!(s.bg, Color::Rgb(10, 20, 30));
    s.apply_sgr(&vec![39, 49]);
    assert_eq!(s.fg, Color::Reset);
    assert_eq!(s.bg, Color::Reset);
}

#[test]
fn sgr_consumes_left_to_right() {
    let mut s = Style::new();
    s.apply_sgr(&vec![1, 31]);
    assert!(s.modifier.contains(BOLD));
    assert_eq!(s.fg, Color::Red);
    let mut t = Style::new();
    t.apply_sgr(&vec![31, 44, 4]);
    assert_eq!(t.fg, Color::Red);
    assert_eq!(t.bg, Color::Blue);
    assert!(t.modifier.contains(UNDERLINED));
}

#[test]
fn sgr_unknown_code_stops_consumption() {
    let mut s = Style::new();
    s.apply_sgr(&vec![31, 7, 44]);
    assert_eq!(s.fg, Color::Red);
    // 7 is not handled: the rest of the list is skipped.
    assert_eq!(s.bg, Color::Reset);
}

#[test]
fn sgr_malformed_extended_color_mutates_nothing() {
    let mut s = Style::new();
    s.apply_sgr(&vec![38, 9, 1]);
    assert_eq!(s, Style::new());
    s.apply_sgr(&vec![38, 5]);
    assert_eq!(s, Style::new());
}

#[test]
fn backend_clear_hide_show_escapes() {
    let mut b = TermionBackend::new();
    b.clear();
    assert_eq!(b.take_bytes(), b"\x1b[2J");
    b.hide_cursor();
    assert_eq!(b.take_bytes(), b"\x1b[?25l");
    b.show_cursor();
    assert_eq!(b.take_bytes(), b"\x1b[?25h");
    assert!(b.take_bytes().is_empty());
}

#[test]
fn backend_goto_is_one_based() {
    let mut b = TermionBackend::new();
    b.cursor_goto(0, 0);
    assert_eq!(b.take_bytes(), b"\x1b[1;1H");
    b.cursor_goto(79, 39);
    assert_eq!(b.take_bytes(), b"\x1b[40;80H");
}

#[test]
fn backend_draw_emits_position_colors_glyph_and_reset() {
    let mut b = TermionBackend::new();
    let cell = Cell { style: Style::new(), symbol: 'X' };
    b.draw(&vec![(0, 0, cell)]);
    assert_eq!(
        b.take_bytes(),
        b"\x1b[1;1H\x1b[49m\x1b[39mX\x1b[49m\x1b[39m"
    );
}

#[test]
fn backend_draw_named_and_indexed_colors() {
    let mut b = TermionBackend::new();
    let mut style = Style::new();
    style.fg(Color::Red);
    style.bg(Color::Indexed(17));
    let cell = Cell { style, symbol: 'q' };
    b.draw(&vec![(2, 1, cell)]);
    assert_eq!(
        b.take_bytes(),
        b"\x1b[2;3H\x1b[48;5;17m\x1b[31mq\x1b[49m\x1b[39m"
    );
}

#[test]
fn backend_draw_rgb_and_bright_colors() {
    let mut b = TermionBackend::new();
    let mut style = Style::new();
    style.fg(Color::Rgb(1, 2, 3));
    style.bg(Color::DarkGray);
    let cell = Cell { style, symbol: '!' };
    b.draw(&vec![(0, 0, cell)]);
    assert_eq!(
        b.take_bytes(),
        b"\x1b[1;1H\x1b[100m\x1b[38;2;1;2;3m!\x1b[49m\x1b[39m"
    );
}

#[test]
fn backend_draw_utf8_glyph() {
    let mut b = TermionBackend::new();
    let cell = Cell { style: Style::new(), symbol: 'é' };
    b.draw(&vec![(0, 0, cell)]);
    let bytes = b.take_bytes();
    let expected: Vec<u8> = b"\x1b[1;1H\x1b[49m\x1b[39m"
        .iter()
        .copied()
        .chain("é".bytes())
        .chain(b"\x1b[49m\x1b[39m".iter().copied())
        .collect();
    assert_eq!(bytes, expected);
}

#[test]
fn buffer_starts_blank_and_in_sync() {
    let mut buf = Buffer::new(Rect::new(0, 0, 4, 3));
    assert_eq!(buf.current.len(), 12);
    assert_eq!(buf.previous.len(), 12);
    assert!(buf.current.iter().all(|c| c.symbol == ' '));
    assert!(buf.diff().is_empty());
}

#[test]
fn buffer_diff_uses_screen_offsets() {
    let mut buf = Buffer::new(Rect::new(5, 7, 4, 3));
    buf.current[0].symbol = 'a';
    buf.current[6].symbol = 'b';
    let diff = buf.diff();
    assert_eq!(diff.len(), 2);
    assert_eq!((diff[0].0, diff[0].1), (5, 7));
    assert_eq!(diff[0].2.symbol, 'a');
    assert_eq!((diff[1].0, diff[1].1), (7, 8));
    assert_eq!(diff[1].2.symbol, 'b');
    assert_eq!(buf.previous, buf.current);
}

#[test]
fn cell_setters_and_reset() {
    let mut c = Cell::default();
    c.set_symbol('k');
    assert_eq!(c.symbol, 'k');
    let mut s = Style::new();
    s.fg(Color::Cyan);
    c.set_style(s);
    assert_eq!(c.style.fg, Color::Cyan);
    c.reset();
    assert_eq!(c, Cell::default());
}

#[test]
fn rect_edges() {
    let r = Rect::new(3, 4, 10, 6);
    assert_eq!(r.left(), 3);
    assert_eq!(r.top(), 4);
    assert_eq!(r.right(), 13);
    assert_eq!(r.bottom(), 10);
}
