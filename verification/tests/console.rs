use core::fmt::Write;
use vga_console::{Buffer, VGAChar, VGAColor, VGAPalette, Writer, BUF_HEIGHT, BUF_WIDTH};
use volatile::Volatile;

const LAST: usize = BUF_HEIGHT - 1;

fn white_on_black() -> VGAPalette {
    VGAPalette::new(VGAColor::White, VGAColor::Black)
}

/// A grid in ordinary memory with `word` in every cell.
fn grid_of(word: u16) -> Buffer {
    core::array::from_fn(|_| core::array::from_fn(|_| Volatile::new(word)))
}

/// A grid whose row `r` shows the letter `'A' + r` in every cell, in a colour
/// that differs from the writer's.
fn lettered_grid() -> Buffer {
    core::array::from_fn(|row| {
        core::array::from_fn(|_| Volatile::new(0x1e00 | (b'A' as u16 + row as u16)))
    })
}

fn shown(writer: &Writer, row: usize, col: usize) -> VGAChar {
    writer.cell(row, col).unwrap()
}

fn row_text(writer: &Writer, row: usize) -> Vec<u8> {
    (0..BUF_WIDTH).map(|col| shown(writer, row, col).ascii).collect()
}

fn snapshot(writer: &Writer) -> Vec<Vec<VGAChar>> {
    (0..BUF_HEIGHT)
        .map(|row| (0..BUF_WIDTH).map(|col| shown(writer, row, col)).collect())
        .collect()
}

fn blank_row(color: VGAPalette) -> Vec<VGAChar> {
    vec![VGAChar { ascii: b' ', color }; BUF_WIDTH]
}

#[test]
fn grid_is_25_rows_of_80_cells() {
    assert_eq!(BUF_HEIGHT, 25);
    assert_eq!(BUF_WIDTH, 80);
    assert_eq!(core::mem::size_of::<Buffer>(), 25 * 80 * 2);
}

#[test]
fn new_writer_keeps_the_grid_and_starts_at_column_zero() {
    let mut grid = lettered_grid();
    let writer = Writer::new(white_on_black(), &mut grid);
    assert_eq!(writer.column(), 0);
    assert_eq!(writer.palette(), white_on_black());
    for row in 0..BUF_HEIGHT {
        for col in 0..BUF_WIDTH {
            let expected = VGAChar { ascii: b'A' + row as u8, color: VGAPalette(0x1e) };
            assert_eq!(writer.cell(row, col), Some(expected));
        }
    }
}

#[test]
fn cell_outside_the_grid_is_none() {
    let mut grid = grid_of(0x0f20);
    let writer = Writer::new(white_on_black(), &mut grid);
    assert_eq!(writer.cell(BUF_HEIGHT, 0), None);
    assert_eq!(writer.cell(0, BUF_WIDTH), None);
    assert_eq!(writer.cell(usize::MAX, usize::MAX), None);
    assert!(writer.cell(LAST, BUF_WIDTH - 1).is_some());
}

#[test]
fn cell_reads_the_word_in_memory() {
    let mut grid = grid_of(0x0720);
    grid[3][5] = Volatile::new(0x1f41);
    let writer = Writer::new(white_on_black(), &mut grid);
    assert_eq!(writer.cell(3, 5), Some(VGAChar { ascii: b'A', color: VGAPalette(0x1f) }));
    assert_eq!(writer.cell(3, 4), Some(VGAChar { ascii: b' ', color: VGAPalette(0x07) }));
}

#[test]
fn write_byte_stores_the_word_in_memory() {
    let mut grid = grid_of(0x0720);
    {
        let mut writer = Writer::new(white_on_black(), &mut grid);
        writer.write_byte(b'H');
        writer.write_byte(b'i');
    }
    assert_eq!(grid[LAST][0].read(), 0x0f48);
    assert_eq!(grid[LAST][1].read(), 0x0f69);
    assert_eq!(grid[LAST][2].read(), 0x0720);
    for row in 0..LAST {
        for col in 0..BUF_WIDTH {
            assert_eq!(grid[row][col].read(), 0x0720);
        }
    }
}

#[test]
fn write_byte_puts_the_glyph_at_the_cursor_and_advances() {
    let mut grid = lettered_grid();
    let mut writer = Writer::new(white_on_black(), &mut grid);
    let before = snapshot(&writer);
    writer.write_byte(b'x');
    assert_eq!(writer.column(), 1);
    writer.write_byte(b'y');
    assert_eq!(writer.column(), 2);
    let after = snapshot(&writer);
    assert_eq!(after[LAST][0], VGAChar { ascii: b'x', color: white_on_black() });
    assert_eq!(after[LAST][1], VGAChar { ascii: b'y', color: white_on_black() });
    assert_eq!(after[LAST][2..], before[LAST][2..]);
    assert_eq!(after[..LAST], before[..LAST]);
}

#[test]
fn write_byte_does_not_sanitize() {
    let mut grid = grid_of(0x0f20);
    let mut writer = Writer::new(white_on_black(), &mut grid);
    writer.write_byte(0x01);
    writer.write_byte(0xff);
    assert_eq!(shown(&writer, LAST, 0).ascii, 0x01);
    assert_eq!(shown(&writer, LAST, 1).ascii, 0xff);
    assert_eq!(writer.column(), 2);
}

#[test]
fn printable_bytes_are_shown_unchanged() {
    for byte in 0x20..=0x7eu8 {
        let mut grid = lettered_grid();
        let mut writer = Writer::new(white_on_black(), &mut grid);
        writer.write_string("ab");
        let before = snapshot(&writer);
        let text = [byte];
        writer.write_string(core::str::from_utf8(&text).unwrap());
        let after = snapshot(&writer);
        assert_eq!(after[LAST][2], VGAChar { ascii: byte, color: white_on_black() });
        assert_eq!(writer.column(), 3);
        assert_eq!(after[LAST][..2], before[LAST][..2]);
        assert_eq!(after[LAST][3..], before[LAST][3..]);
        assert_eq!(after[..LAST], before[..LAST]);
    }
}

#[test]
fn unprintable_ascii_bytes_are_shown_as_the_placeholder() {
    for byte in (0x00..0x20u8).chain([0x7f]) {
        if byte == b'\n' {
            continue;
        }
        let mut grid = lettered_grid();
        let mut writer = Writer::new(white_on_black(), &mut grid);
        let before = snapshot(&writer);
        let text = [byte];
        writer.write_string(core::str::from_utf8(&text).unwrap());
        let after = snapshot(&writer);
        assert_eq!(after[LAST][0], VGAChar { ascii: 0xfe, color: white_on_black() });
        assert_ne!(after[LAST][0].ascii, byte);
        assert_eq!(writer.column(), 1);
        assert_eq!(after[LAST][1..], before[LAST][1..]);
        assert_eq!(after[..LAST], before[..LAST]);
    }
}

#[test]
fn each_byte_of_a_character_beyond_ascii_is_a_placeholder() {
    let mut grid = grid_of(0x0f20);
    let mut writer = Writer::new(white_on_black(), &mut grid);
    writer.write_string("a\u{e9}b\u{20ac}c");
    assert_eq!(writer.column(), 8);
    assert_eq!(
        row_text(&writer, LAST)[..9],
        [b'a', 0xfe, 0xfe, b'b', 0xfe, 0xfe, 0xfe, b'c', b' ']
    );
}

#[test]
fn the_placeholder_character_itself_is_two_placeholders() {
    let mut grid = grid_of(0x0f20);
    let mut writer = Writer::new(white_on_black(), &mut grid);
    writer.write_string("\u{fe}");
    assert_eq!(writer.column(), 2);
    assert_eq!(row_text(&writer, LAST)[..3], [0xfe, 0xfe, b' ']);
}

#[test]
fn empty_string_changes_nothing() {
    let mut grid = lettered_grid();
    let mut writer = Writer::new(white_on_black(), &mut grid);
    writer.write_string("abc");
    let before = snapshot(&writer);
    writer.write_string("");
    assert_eq!(snapshot(&writer), before);
    assert_eq!(writer.column(), 3);
}

#[test]
fn a_full_row_of_bytes_does_not_scroll() {
    let mut grid = lettered_grid();
    let mut writer = Writer::new(white_on_black(), &mut grid);
    let before = snapshot(&writer);
    let text: String = (0..BUF_WIDTH).map(|i| (b'0' + (i % 10) as u8) as char).collect();
    writer.write_string(&text);
    let after = snapshot(&writer);
    assert_eq!(writer.column(), BUF_WIDTH);
    for col in 0..BUF_WIDTH {
        assert_eq!(
            after[LAST][col],
            VGAChar { ascii: b'0' + (col % 10) as u8, color: white_on_black() }
        );
    }
    assert_eq!(after[..LAST], before[..LAST]);
}

#[test]
fn one_byte_more_than_a_row_scrolls_once() {
    let mut grid = lettered_grid();
    let mut writer = Writer::new(white_on_black(), &mut grid);
    let before = snapshot(&writer);
    let mut text: String = (0..BUF_WIDTH).map(|i| (b'0' + (i % 10) as u8) as char).collect();
    text.push('!');
    writer.write_string(&text);
    let after = snapshot(&writer);
    assert_eq!(writer.column(), 1);
    assert_eq!(after[LAST][0], VGAChar { ascii: b'!', color: white_on_black() });
    assert_eq!(after[LAST][1..], blank_row(white_on_black())[1..]);
    for col in 0..BUF_WIDTH {
        assert_eq!(
            after[LAST - 1][col],
            VGAChar { ascii: b'0' + (col % 10) as u8, color: white_on_black() }
        );
    }
    assert_eq!(after[..LAST - 1], before[1..LAST]);
}

#[test]
fn line_feed_scrolls_once_from_any_column() {
    for column in [0, 1, 40, BUF_WIDTH - 1, BUF_WIDTH] {
        let mut grid = lettered_grid();
        let mut writer = Writer::new(white_on_black(), &mut grid);
        writer.write_string(&"z".repeat(column));
        assert_eq!(writer.column(), column);
        let before = snapshot(&writer);
        writer.write_byte(b'\n');
        let after = snapshot(&writer);
        assert_eq!(writer.column(), 0);
        assert_eq!(after[..LAST], before[1..]);
        assert_eq!(after[LAST], blank_row(white_on_black()));
    }
}

#[test]
fn line_feed_in_a_string_scrolls_once() {
    let mut grid = lettered_grid();
    let mut writer = Writer::new(white_on_black(), &mut grid);
    let before = snapshot(&writer);
    writer.write_string("\n");
    let after = snapshot(&writer);
    assert_eq!(writer.column(), 0);
    assert_eq!(after[..LAST], before[1..]);
    assert_eq!(after[LAST], blank_row(white_on_black()));
}

#[test]
fn scrolling_height_minus_one_times_leaves_only_the_last_row_on_top() {
    let mut grid = lettered_grid();
    let mut writer = Writer::new(white_on_black(), &mut grid);
    let before = snapshot(&writer);
    for _ in 0..BUF_HEIGHT - 1 {
        writer.write_byte(b'\n');
    }
    let after = snapshot(&writer);
    assert_eq!(after[0], before[LAST]);
    for row in 1..BUF_HEIGHT {
        assert_eq!(after[row], blank_row(white_on_black()));
    }
    for row in 0..BUF_HEIGHT {
        assert!(after[row].iter().all(|cell| cell.ascii != b'A'));
    }
    writer.write_byte(b'\n');
    for row in 0..BUF_HEIGHT {
        assert_eq!(snapshot(&writer)[row], blank_row(white_on_black()));
    }
}

#[test]
fn scrolling_a_grid_with_a_blank_last_row_blanks_everything() {
    let mut grid = lettered_grid();
    let mut writer = Writer::new(white_on_black(), &mut grid);
    writer.write_byte(b'\n');
    for _ in 0..BUF_HEIGHT - 1 {
        writer.write_byte(b'\n');
    }
    let after = snapshot(&writer);
    for row in 0..BUF_HEIGHT {
        assert_eq!(after[row], blank_row(white_on_black()));
    }
}

#[test]
fn content_written_while_scrolling_moves_up() {
    let mut grid = lettered_grid();
    let mut writer = Writer::new(white_on_black(), &mut grid);
    writer.write_string("\none\ntwo\n");
    assert_eq!(row_text(&writer, LAST - 2)[..4], *b"one ");
    assert_eq!(row_text(&writer, LAST - 1)[..4], *b"two ");
    assert_eq!(snapshot(&writer)[LAST], blank_row(white_on_black()));
    assert_eq!(row_text(&writer, 0), vec![b'D'; BUF_WIDTH]);
}

#[test]
fn hi_newline_scenario() {
    let mut grid = grid_of(0x0720);
    let mut writer = Writer::new(white_on_black(), &mut grid);
    writer.write_string("Hi\n");
    let after = snapshot(&writer);
    assert_eq!(after[LAST], blank_row(white_on_black()));
    assert_eq!(after[LAST - 1][0], VGAChar { ascii: b'H', color: white_on_black() });
    assert_eq!(after[LAST - 1][1], VGAChar { ascii: b'i', color: white_on_black() });
    for col in 2..BUF_WIDTH {
        assert_eq!(after[LAST - 1][col].ascii, b' ');
    }
    assert_eq!(writer.column(), 0);
}

#[test]
fn hi_newline_scenario_on_a_blank_white_on_black_grid() {
    let mut grid = grid_of(0x0f20);
    let mut writer = Writer::new(white_on_black(), &mut grid);
    writer.write_string("Hi\n");
    let after = snapshot(&writer);
    assert_eq!(after[LAST], blank_row(white_on_black()));
    let mut expected = blank_row(white_on_black());
    expected[0].ascii = b'H';
    expected[1].ascii = b'i';
    assert_eq!(after[LAST - 1], expected);
}

#[test]
fn control_byte_scenario() {
    let mut grid = grid_of(0x0f20);
    let mut writer = Writer::new(white_on_black(), &mut grid);
    writer.write_string("a\x01b");
    assert_eq!(shown(&writer, LAST, 0), VGAChar { ascii: b'a', color: white_on_black() });
    assert_eq!(shown(&writer, LAST, 1), VGAChar { ascii: 0xfe, color: white_on_black() });
    assert_eq!(shown(&writer, LAST, 2), VGAChar { ascii: b'b', color: white_on_black() });
    assert_eq!(writer.palette(), white_on_black());
    assert_eq!(writer.column(), 3);
}

#[test]
fn glyphs_take_the_writers_color() {
    let color = VGAPalette::new(VGAColor::Yellow, VGAColor::Blue);
    let mut grid = grid_of(0x0f20);
    let mut writer = Writer::new(color, &mut grid);
    writer.write_string("ok\n!");
    assert_eq!(shown(&writer, LAST - 1, 0), VGAChar { ascii: b'o', color });
    assert_eq!(shown(&writer, LAST - 1, 1), VGAChar { ascii: b'k', color });
    assert_eq!(shown(&writer, LAST - 1, 2), VGAChar { ascii: b' ', color: VGAPalette(0x0f) });
    assert_eq!(shown(&writer, LAST, 0), VGAChar { ascii: b'!', color });
    assert_eq!(shown(&writer, LAST, 1), VGAChar { ascii: b' ', color });
}

#[test]
fn string_output_leaves_only_displayable_glyphs() {
    let mut grid = grid_of(0x0f20);
    let mut writer = Writer::new(white_on_black(), &mut grid);
    let text: String = (0..=0x7fu8).map(|b| b as char).chain("\u{80}\u{7ff}\u{ffff}".chars()).collect();
    writer.write_string(&text);
    for row in 0..BUF_HEIGHT {
        for glyph in row_text(&writer, row) {
            assert!((0x20..=0x7e).contains(&glyph) || glyph == 0xfe);
        }
    }
}

#[test]
fn write_str_writes_as_write_string_and_succeeds() {
    let mut first = lettered_grid();
    let mut second = lettered_grid();
    let mut formatted = Writer::new(white_on_black(), &mut first);
    let mut plain = Writer::new(white_on_black(), &mut second);
    assert_eq!(formatted.write_str("tab\there\nnext"), Ok(()));
    plain.write_string("tab\there\nnext");
    assert_eq!(snapshot(&formatted), snapshot(&plain));
    assert_eq!(formatted.column(), plain.column());
    assert_eq!(formatted.column(), 4);
}

#[test]
fn write_char_goes_through_write_str() {
    let mut grid = grid_of(0x0f20);
    let mut writer = Writer::new(white_on_black(), &mut grid);
    assert_eq!(writer.write_char('Q'), Ok(()));
    assert_eq!(shown(&writer, LAST, 0).ascii, b'Q');
    assert_eq!(writer.column(), 1);
}
