use termcast::backends::TermionBackend;
use termcast::cell::Cell;
use termcast::layout::Rect;
use termcast::parser::Parser;
use termcast::style::Color;
use termcast::style::Style;
use termcast::terminal::Terminal;
use termcast::terminal::CR;
use termcast::terminal::HT;
use termcast::terminal::LF;

fn new_term(w: usize, h: usize) -> Terminal {
    Terminal::new(Rect::new(0, 0, w, h), TermionBackend::new())
}

fn feed(parser: &mut Parser, term: &mut Terminal, bytes: &[u8]) {
    for &b in bytes {
        parser.advance(term, b);
    }
}

fn row_string(term: &Terminal, y: usize) -> String {
    let mut s = String::new();
    let mut x = 0;
    while x < term.width() {
        s.push(term.cell_at(x, y).symbol);
        x += 1;
    }
    s
}

fn default_cell() -> Cell {
    Cell { style: Style::new(), symbol: ' ' }
}

fn fill(term: &mut Terminal, rows: &[&str]) {
    let w = term.width();
    for (y, r) in rows.iter().enumerate() {
        for (x, c) in r.chars().enumerate() {
            term.buffer.current[y * w + x] = Cell { style: Style::new(), symbol: c };
        }
    }
}

#[test]
fn hello_scenario() {
    let mut term = new_term(10, 3);
    let mut parser = Parser::new();
    feed(&mut parser, &mut term, b"Hello");
    let expected = ['H', 'e', 'l', 'l', 'o'];
    for (i, &c) in expected.iter().enumerate() {
        let cell = term.cell_at(i, 0);
        assert_eq!(cell.symbol, c);
        assert_eq!(cell.style, Style::new());
    }
    for x in 5..10 {
        assert_eq!(term.cell_at(x, 0), default_cell());
    }
    assert_eq!((term.col(), term.row()), (5, 0));
    let diff = term.buffer.diff();
    assert_eq!(diff.len(), 5);
    for (i, &c) in expected.iter().enumerate() {
        let (x, y, cell) = diff[i];
        assert_eq!((x, y), (i, 0));
        assert_eq!(cell.symbol, c);
    }
}

#[test]
fn wrap_scenario() {
    let mut term = new_term(5, 2);
    let mut parser = Parser::new();
    feed(&mut parser, &mut term, b"ABCDEFG");
    assert_eq!(row_string(&term, 0), "ABCDE");
    assert_eq!(row_string(&term, 1), "FG   ");
    assert_eq!((term.col(), term.row()), (2, 1));
}

#[test]
fn color_scenario() {
    let mut term = new_term(10, 3);
    let mut parser = Parser::new();
    feed(&mut parser, &mut term, b"\x1b[31mX\x1b[0mY");
    let x_cell = term.cell_at(0, 0);
    assert_eq!(x_cell.symbol, 'X');
    assert_eq!(x_cell.style.fg, Color::Red);
    let y_cell = term.cell_at(1, 0);
    assert_eq!(y_cell.symbol, 'Y');
    assert_eq!(y_cell.style.fg, Color::Reset);
}

#[test]
fn scroll_region_scenario() {
    let mut term = new_term(4, 4);
    let mut parser = Parser::new();
    // One distinct letter per row.
    fill(&mut term, &["aaaa", "bbbb", "cccc", "dddd"]);
    assert_eq!(row_string(&term, 0), "aaaa");
    assert_eq!(row_string(&term, 3), "dddd");
    // Scroll region rows 1..3, cursor to row 2, then linefeed.
    feed(&mut parser, &mut term, b"\x1b[2;3r");
    feed(&mut parser, &mut term, b"\x1b[3;1H");
    assert_eq!((term.col(), term.row()), (0, 2));
    feed(&mut parser, &mut term, &[LF]);
    assert_eq!(row_string(&term, 0), "aaaa");
    assert_eq!(row_string(&term, 1), "cccc");
    assert_eq!(row_string(&term, 2), "    ");
    assert_eq!(row_string(&term, 3), "dddd");
    assert_eq!(term.row(), 2);
    assert_eq!(term.col(), 0);
}

#[test]
fn clear_below_scenario() {
    let mut term = new_term(3, 3);
    let mut parser = Parser::new();
    fill(&mut term, &["AAA", "AAA", "AAA"]);
    feed(&mut parser, &mut term, b"\x1b[2;2H");
    assert_eq!((term.col(), term.row()), (1, 1));
    feed(&mut parser, &mut term, b"\x1b[0J");
    let cleared = [(1, 1), (2, 1), (0, 2), (1, 2), (2, 2)];
    for y in 0..3 {
        for x in 0..3 {
            let cell = term.cell_at(x, y);
            if cleared.contains(&(x, y)) {
                assert_eq!(cell, default_cell());
            } else {
                assert_eq!(cell.symbol, 'A');
            }
        }
    }
}

#[test]
fn insert_line_scenario() {
    let mut term = new_term(2, 3);
    let mut parser = Parser::new();
    fill(&mut term, &["AB", "CD", "EF"]);
    feed(&mut parser, &mut term, b"\x1b[2;1H");
    feed(&mut parser, &mut term, b"\x1b[1L");
    assert_eq!(row_string(&term, 0), "AB");
    assert_eq!(row_string(&term, 1), "  ");
    assert_eq!(row_string(&term, 2), "CD");
}

#[test]
fn second_diff_is_empty() {
    let mut term = new_term(6, 2);
    let mut parser = Parser::new();
    feed(&mut parser, &mut term, b"abc");
    let first = term.buffer.diff();
    assert_eq!(first.len(), 3);
    let second = term.buffer.diff();
    assert!(second.is_empty());
}

#[test]
fn diff_only_changed_cells() {
    let mut term = new_term(4, 2);
    let mut parser = Parser::new();
    feed(&mut parser, &mut term, b"ab");
    let _ = term.buffer.diff();
    feed(&mut parser, &mut term, b"\x1b[1;2Hz");
    let diff = term.buffer.diff();
    assert_eq!(diff.len(), 1);
    assert_eq!(diff[0].0, 1);
    assert_eq!(diff[0].1, 0);
    assert_eq!(diff[0].2.symbol, 'z');
}

#[test]
fn print_then_read_back() {
    let mut term = new_term(8, 3);
    term.cursor_goto(3, 1);
    let mut style = Style::new();
    style.fg(Color::Green);
    term.c_style = style;
    term.print('Q');
    let cell = term.cell_at(3, 1);
    assert_eq!(cell.symbol, 'Q');
    assert_eq!(cell.style, style);
}

#[test]
fn scroll_up_then_down_restores_blank_top_row() {
    let mut term = new_term(3, 3);
    // Top row stays default; fill rows 1 and 2.
    fill(&mut term, &["   ", "xyz", "uvw"]);
    let before: Vec<Cell> = (0..3).flat_map(|y| (0..3).map(move |x| (x, y)))
        .map(|(x, y)| term.cell_at(x, y)).collect();
    term.scroll_up();
    term.scroll_down();
    let after: Vec<Cell> = (0..3).flat_map(|y| (0..3).map(move |x| (x, y)))
        .map(|(x, y)| term.cell_at(x, y)).collect();
    assert_eq!(before, after);
}

#[test]
fn scroll_up_then_down_loses_filled_top_row() {
    let mut term = new_term(3, 3);
    fill(&mut term, &["top"]);
    term.scroll_up();
    term.scroll_down();
    assert_eq!(row_string(&term, 0), "   ");
}

#[test]
fn carriage_return_is_idempotent() {
    let mut term = new_term(7, 2);
    let mut parser = Parser::new();
    feed(&mut parser, &mut term, b"hi");
    term.execute(CR);
    let once = (term.col(), term.row());
    term.execute(CR);
    assert_eq!((term.col(), term.row()), once);
    assert_eq!(once, (0, 0));
}

#[test]
fn cursor_goto_clamps() {
    let mut term = new_term(10, 3);
    term.cursor_goto(100, 100);
    assert_eq!((term.col(), term.row()), (9, 2));
    term.cursor_goto(4, 1);
    assert_eq!((term.col(), term.row()), (4, 1));
}

#[test]
fn tab_blanks_to_next_stop_and_keeps_cursor() {
    let mut term = new_term(10, 2);
    let mut parser = Parser::new();
    feed(&mut parser, &mut term, b"abcdef");
    term.cursor_goto(2, 0);
    term.execute(HT);
    assert_eq!(row_string(&term, 0), "ab  ef    ");
    assert_eq!((term.col(), term.row()), (2, 0));
}

#[test]
fn backspace_moves_left() {
    let mut term = new_term(5, 2);
    let mut parser = Parser::new();
    feed(&mut parser, &mut term, b"ab\x08x");
    assert_eq!(row_string(&term, 0), "ax   ");
}

#[test]
fn delete_chars_resets_cells() {
    let mut term = new_term(7, 1);
    let mut parser = Parser::new();
    feed(&mut parser, &mut term, b"abcdef");
    feed(&mut parser, &mut term, b"\x1b[1;2H\x1b[2P");
    assert_eq!(row_string(&term, 0), "a  def ");
}

#[test]
fn delete_lines_pulls_rows_up() {
    let mut term = new_term(2, 3);
    let mut parser = Parser::new();
    fill(&mut term, &["AB", "CD", "EF"]);
    feed(&mut parser, &mut term, b"\x1b[1;1H\x1b[1M");
    assert_eq!(row_string(&term, 0), "CD");
    assert_eq!(row_string(&term, 1), "EF");
    assert_eq!(row_string(&term, 2), "  ");
}

#[test]
fn clear_line_modes() {
    let mut term = new_term(6, 1);
    let mut parser = Parser::new();
    feed(&mut parser, &mut term, b"abcde");
    feed(&mut parser, &mut term, b"\x1b[1;3H\x1b[0K");
    assert_eq!(row_string(&term, 0), "ab    ");
    feed(&mut parser, &mut term, b"\x1b[1;1Habcde");
    assert_eq!((term.col(), term.row()), (5, 0));
    feed(&mut parser, &mut term, b"\x1b[1;3H\x1b[1K");
    assert_eq!(row_string(&term, 0), "   de ");
    feed(&mut parser, &mut term, b"\x1b[1;1Habcde");
    feed(&mut parser, &mut term, b"\x1b[2K");
    assert_eq!(row_string(&term, 0), "      ");
}

#[test]
fn malformed_scroll_region_is_ignored() {
    let mut term = new_term(4, 4);
    let mut parser = Parser::new();
    feed(&mut parser, &mut term, b"\x1b[5;2r");
    // Region unchanged: a linefeed from the last row still scrolls the
    // whole grid.
    feed(&mut parser, &mut term, b"top\x1b[4;1Hbot");
    term.execute(LF);
    assert_eq!(row_string(&term, 2), "bot ");
    assert_eq!(row_string(&term, 3), "    ");
}

#[test]
fn reverse_index_scrolls_down_at_top() {
    let mut term = new_term(3, 2);
    let mut parser = Parser::new();
    feed(&mut parser, &mut term, b"one");
    feed(&mut parser, &mut term, b"\x1b[1;1H");
    feed(&mut parser, &mut term, b"\x1bM");
    assert_eq!(row_string(&term, 0), "   ");
    assert_eq!(row_string(&term, 1), "one");
    assert_eq!(term.row(), 0);
}

#[test]
fn osc_sequence_is_swallowed() {
    let mut term = new_term(8, 2);
    let mut parser = Parser::new();
    feed(&mut parser, &mut term, b"\x1b]0;window title\x07A");
    assert_eq!(term.cell_at(0, 0).symbol, 'A');
    assert_eq!(term.cell_at(1, 0), default_cell());
}

#[test]
fn dcs_sequence_is_swallowed() {
    let mut term = new_term(8, 2);
    let mut parser = Parser::new();
    feed(&mut parser, &mut term, b"\x1bPsome payload\x1b\\B");
    assert_eq!(term.cell_at(0, 0).symbol, 'B');
}

#[test]
fn private_mode_sequences_are_ignored() {
    let mut term = new_term(8, 2);
    let mut parser = Parser::new();
    feed(&mut parser, &mut term, b"\x1b[?25l\x1b[?1049hC");
    assert_eq!(term.cell_at(0, 0).symbol, 'C');
    assert_eq!((term.col(), term.row()), (1, 0));
}

#[test]
fn utf8_two_byte_character_prints() {
    let mut term = new_term(8, 2);
    let mut parser = Parser::new();
    feed(&mut parser, &mut term, "é".as_bytes());
    assert_eq!(term.cell_at(0, 0).symbol, 'é');
    assert_eq!(term.col(), 1);
}

#[test]
fn utf8_four_byte_character_prints() {
    let mut term = new_term(8, 2);
    let mut parser = Parser::new();
    feed(&mut parser, &mut term, "🙂".as_bytes());
    assert_eq!(term.cell_at(0, 0).symbol, '🙂');
}

#[test]
fn stray_continuation_bytes_are_ignored() {
    let mut term = new_term(8, 2);
    let mut parser = Parser::new();
    feed(&mut parser, &mut term, &[0x80, 0xBF, 0xFF, b'D']);
    assert_eq!(term.cell_at(0, 0).symbol, 'D');
}

#[test]
fn bright_sgr_code_sets_bold() {
    let mut term = new_term(4, 1);
    let mut parser = Parser::new();
    feed(&mut parser, &mut term, b"\x1b[91mZ");
    let cell = term.cell_at(0, 0);
    assert_eq!(cell.style.fg, Color::Red);
    assert!(cell.style.modifier.contains(termcast::style::BOLD));
}

#[test]
fn sgr_with_no_parameters_resets() {
    let mut term = new_term(4, 1);
    let mut parser = Parser::new();
    feed(&mut parser, &mut term, b"\x1b[31;44m");
    feed(&mut parser, &mut term, b"\x1b[ma");
    let cell = term.cell_at(0, 0);
    assert_eq!(cell.style, Style::new());
}

#[test]
fn linefeed_at_bottom_scrolls() {
    let mut term = new_term(3, 2);
    let mut parser = Parser::new();
    feed(&mut parser, &mut term, b"one\x1b[2;1Htw");
    term.execute(LF);
    assert_eq!(row_string(&term, 0), "tw ");
    assert_eq!(row_string(&term, 1), "   ");
    assert_eq!(term.row(), 1);
}

#[test]
fn draw_reports_batch_and_emits_escapes() {
    let mut term = new_term(4, 2);
    let mut parser = Parser::new();
    feed(&mut parser, &mut term, b"Hi");
    let batch = term.draw();
    assert_eq!(batch.len(), 2);
    assert_eq!(batch[0].2.symbol, 'H');
    assert_eq!(batch[1].2.symbol, 'i');
    let bytes = term.backend.take_bytes();
    // Starts by hiding the cursor, ends by showing it.
    assert!(bytes.starts_with(b"\x1b[?25l"));
    assert!(bytes.ends_with(b"\x1b[?25h"));
    // A second draw with no mutation reports nothing.
    let batch2 = term.draw();
    assert!(batch2.is_empty());
}

#[test]
fn adversarial_bytes_keep_invariants() {
    let mut term = new_term(8, 5);
    let mut parser = Parser::new();
    let mut x: u32 = 12345;
    for _ in 0..20000 {
        x = x.wrapping_mul(1103515245).wrapping_add(12345);
        let b = (x >> 16) as u8;
        parser.advance(&mut term, b);
        assert!(term.row() < term.height());
        assert!(term.col() < term.width());
    }
}

#[test]
fn scroll_region_with_default_bottom() {
    let mut term = new_term(3, 4);
    let mut parser = Parser::new();
    fill(&mut term, &["aaa", "bbb", "ccc", "ddd"]);
    // Region rows 1..height; a linefeed from the last row scrolls rows
    // 1..4 and leaves row 0 alone.
    feed(&mut parser, &mut term, b"\x1b[2r");
    feed(&mut parser, &mut term, b"\x1b[4;1H");
    term.execute(LF);
    assert_eq!(row_string(&term, 0), "aaa");
    assert_eq!(row_string(&term, 1), "ccc");
    assert_eq!(row_string(&term, 2), "ddd");
    assert_eq!(row_string(&term, 3), "   ");
}
