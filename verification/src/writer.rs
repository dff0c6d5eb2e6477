//! The writer: byte and string output onto the last row of the grid.

use vstd::prelude::*;
use vstd::string::StringSliceAdditionalSpecFns;
use crate::buffer::{grid_view, read_cell, write_cell, Buffer, BUF_HEIGHT, BUF_WIDTH};
use crate::cell::{lemma_decode_encoded, VGAChar};
use crate::color::VGAPalette;
use crate::screen::{
    blank_row, lemma_write_byte_wf, lemma_write_string_wf, Screen, LINE_FEED, PLACEHOLDER,
};

verus! {

/// `core::fmt::Error`, the error of a formatting operation. It carries no
/// data, and the writer never makes one.
#[verifier::external_type_specification]
#[verifier::external_body]
pub struct ExFmtError(core::fmt::Error);

/// Writes ASCII bytes and strings to a character grid. Output goes to the
/// last row; lines wrap at the right edge, and a line feed scrolls the grid
/// up by one row.
pub struct Writer<'a> {
    column: usize,
    palette: VGAPalette,
    buffer: &'a mut Buffer,
}

impl<'a> View for Writer<'a> {
    type V = Screen;

    closed spec fn view(&self) -> Screen {
        Screen { column: self.column as int, color: self.palette, rows: grid_view(*self.buffer) }
    }
}

impl<'a> Writer<'a> {
    /// A writer over `buffer` that shows new glyphs with `palette`. The
    /// grid keeps what it holds, and the cursor stands at the start of the
    /// last row.
    pub fn new(palette: VGAPalette, buffer: &'a mut Buffer) -> (writer: Writer<'a>)
        ensures
            writer@ == (Screen { column: 0, color: palette, rows: grid_view(*old(buffer)) }),
            writer@.wf(),
    {
        Writer { column: 0, palette, buffer }
    }

    /// The column the next glyph goes to; `BUF_WIDTH` where the last row
    /// is full.
    pub fn column(&self) -> (column: usize)
        ensures
            column == self@.column,
    {
        self.column
    }

    /// The attribute that new glyphs and cleared cells get.
    pub fn palette(&self) -> (palette: VGAPalette)
        ensures
            palette == self@.color,
    {
        self.palette
    }

    /// The character shown at `row` and `col`, counted from the top left;
    /// `None` for a place outside the grid.
    pub fn cell(&self, row: usize, col: usize) -> (cell: Option<VGAChar>)
        ensures
            cell == if row < BUF_HEIGHT && col < BUF_WIDTH {
                Some(self@.rows[row as int][col as int])
            } else {
                None
            },
    {
        if row < BUF_HEIGHT && col < BUF_WIDTH {
            Some(self.load(row, col))
        } else {
            None
        }
    }

    /// The cell at `row` and `col`.
    fn load(&self, row: usize, col: usize) -> (cell: VGAChar)
        requires
            row < BUF_HEIGHT,
            col < BUF_WIDTH,
        ensures
            cell == self@.rows[row as int][col as int],
    {
        VGAChar::from_word(read_cell(&self.buffer[row][col]))
    }

    /// Overwrites the cell at `row` and `col`, and no other.
    fn store(&mut self, row: usize, col: usize, cell: VGAChar)
        requires
            row < BUF_HEIGHT,
            col < BUF_WIDTH,
        ensures
            final(self)@.column == old(self)@.column,
            final(self)@.color == old(self)@.color,
            final(self)@.rows == old(self)@.rows.update(
                row as int,
                old(self)@.rows[row as int].update(col as int, cell),
            ),
    {
        write_cell(&mut self.buffer[row][col], cell.to_word());
        proof {
            lemma_decode_encoded(cell);
            assert(self@.rows =~~= old(self)@.rows.update(
                row as int,
                old(self)@.rows[row as int].update(col as int, cell),
            ));
        }
    }

    /// Writes an ASCII byte to the buffer.
    ///
    /// Wraps lines at `BUF_WIDTH`. Supports the `\n` newline character.
    pub fn write_byte(&mut self, byte: u8)
        ensures
            final(self)@ == old(self)@.write_byte(byte),
            old(self)@.wf() ==> final(self)@.wf(),
    {
        proof {
            if self@.wf() {
                lemma_write_byte_wf(self@, byte);
            }
        }
        if byte == LINE_FEED {
            self.new_line();
        } else {
            if self.column >= BUF_WIDTH {
                self.new_line();
            }
            let row = BUF_HEIGHT - 1;
            let col = self.column;

            let color_code = self.palette;
            self.store(row, col, VGAChar { ascii: byte, color: color_code });
            self.column += 1;
        }
    }

    /// Writes the given string to the buffer, byte by byte.
    ///
    /// Wraps lines at `BUF_WIDTH`. Supports the `\n` newline character. A
    /// byte outside the printable ASCII range, such as each byte of a
    /// character beyond ASCII, is shown as the placeholder glyph.
    pub fn write_string(&mut self, s: &str)
        ensures
            final(self)@ == old(self)@.write_string(s.spec_bytes()),
            old(self)@.wf() ==> final(self)@.wf(),
    {
        proof {
            if self@.wf() {
                lemma_write_string_wf(self@, s.spec_bytes());
            }
        }
        let bytes = s.as_bytes();
        for i in 0..bytes.len()
            invariant
                bytes@ == s.spec_bytes(),
                self@ == old(self)@.write_string(bytes@.take(i as int)),
        {
            let byte = bytes[i];
            proof {
                assert(bytes@.take(i + 1).drop_last() =~= bytes@.take(i as int));
            }
            match byte {
                // printable ASCII byte or newline
                0x20..=0x7e | LINE_FEED => self.write_byte(byte),
                // not part of printable ASCII range
                _ => self.write_byte(PLACEHOLDER),
            }
        }
        proof {
            assert(bytes@.take(bytes@.len() as int) =~= bytes@);
        }
    }

    /// Shifts all lines one line up and clears the last row.
    fn new_line(&mut self)
        ensures
            final(self)@ == old(self)@.scroll(),
    {
        let ghost before = self@;
        for row in 1..BUF_HEIGHT
            invariant
                self@.color == before.color,
                forall|r: int, c: int|
                    0 <= r < row - 1 && 0 <= c < BUF_WIDTH ==> #[trigger] self@.rows[r][c]
                        == before.rows[r + 1][c],
                forall|r: int, c: int|
                    row - 1 <= r < BUF_HEIGHT && 0 <= c < BUF_WIDTH ==> #[trigger] self@.rows[r][c]
                        == before.rows[r][c],
        {
            for col in 0..BUF_WIDTH
                invariant
                    1 <= row < BUF_HEIGHT,
                    self@.color == before.color,
                    forall|r: int, c: int|
                        0 <= r < row - 1 && 0 <= c < BUF_WIDTH ==> #[trigger] self@.rows[r][c]
                            == before.rows[r + 1][c],
                    forall|c: int|
                        0 <= c < col ==> #[trigger] self@.rows[row - 1][c] == before.rows[row as int][c],
                    forall|c: int|
                        col <= c < BUF_WIDTH ==> #[trigger] self@.rows[row - 1][c]
                            == before.rows[row - 1][c],
                    forall|r: int, c: int|
                        row <= r < BUF_HEIGHT && 0 <= c < BUF_WIDTH ==> #[trigger] self@.rows[r][c]
                            == before.rows[r][c],
            {
                let character = self.load(row, col);
                self.store(row - 1, col, character);
            }
        }
        self.clear_row(BUF_HEIGHT - 1);
        self.column = 0;
        proof {
            assert(self@.rows =~~= before.scroll().rows);
        }
    }

    /// Clears a row by overwriting it with blank characters.
    fn clear_row(&mut self, row: usize)
        requires
            row < BUF_HEIGHT,
        ensures
            final(self)@.column == old(self)@.column,
            final(self)@.color == old(self)@.color,
            final(self)@.rows == old(self)@.rows.update(row as int, blank_row(old(self)@.color)),
    {
        let ghost before = self@;
        let blank = VGAChar::blank(self.palette);
        for col in 0..BUF_WIDTH
            invariant
                row < BUF_HEIGHT,
                blank == VGAChar::spec_blank(before.color),
                self@.column == before.column,
                self@.color == before.color,
                forall|r: int, c: int|
                    0 <= r < BUF_HEIGHT && 0 <= c < BUF_WIDTH && r != row ==> #[trigger] self@.rows[r][c]
                        == before.rows[r][c],
                forall|c: int| 0 <= c < col ==> #[trigger] self@.rows[row as int][c] == blank,
        {
            self.store(row, col, blank);
        }
        proof {
            assert(self@.rows =~~= before.rows.update(row as int, blank_row(before.color)));
        }
    }
}

impl<'a> core::fmt::Write for Writer<'a> {
    /// Writes `s` as `write_string` does. It never fails.
    fn write_str(&mut self, s: &str) -> (result: core::fmt::Result)
        ensures
            result is Ok,
            final(self)@ == old(self)@.write_string(s.spec_bytes()),
            old(self)@.wf() ==> final(self)@.wf(),
    {
        self.write_string(s);
        Ok(())
    }
}

} // verus!
