//! What the console shows, as a mathematical value, and what each operation
//! of the writer makes of it.

use vstd::prelude::*;
use crate::buffer::{BUF_HEIGHT, BUF_WIDTH};
use crate::cell::VGAChar;
use crate::color::VGAPalette;

verus! {

/// The line-feed control byte.
pub const LINE_FEED: u8 = 0x0a;

/// The glyph shown in place of a byte that has no printable form.
pub const PLACEHOLDER: u8 = 0xfe;

/// Whether `byte` is a printable ASCII character, from space to tilde.
pub open spec fn is_printable(byte: u8) -> bool {
    0x20 <= byte <= 0x7e
}

/// The byte that is handed on for a byte of a string: line feed and the
/// printable characters stand for themselves, every other byte for the
/// placeholder.
pub open spec fn glyph_for(byte: u8) -> u8 {
    if is_printable(byte) || byte == LINE_FEED {
        byte
    } else {
        PLACEHOLDER
    }
}

/// A row of spaces shown with `color`.
pub open spec fn blank_row(color: VGAPalette) -> Seq<VGAChar> {
    Seq::new(BUF_WIDTH as nat, |col: int| VGAChar::spec_blank(color))
}

/// The state of the console: the column the next glyph goes to, the
/// attribute new cells get, and the contents of the grid, row by row from
/// the top.
pub struct Screen {
    pub column: int,
    pub color: VGAPalette,
    pub rows: Seq<Seq<VGAChar>>,
}

impl Screen {
    /// The grid has its 25 rows of 80 cells, and the cursor stands on a
    /// column of the last row or right behind its end.
    pub open spec fn wf(self) -> bool {
        &&& 0 <= self.column <= BUF_WIDTH
        &&& self.rows.len() == BUF_HEIGHT
        &&& forall|row: int| 0 <= row < BUF_HEIGHT ==> (#[trigger] self.rows[row]).len() == BUF_WIDTH
    }

    /// The last row, the only one that glyphs are put on.
    pub open spec fn last_row(self) -> Seq<VGAChar> {
        self.rows[BUF_HEIGHT - 1]
    }

    /// Every row moves up by one, the top row is lost, the last row is
    /// blank in the current colour, and the cursor stands at its start.
    pub open spec fn scroll(self) -> Screen {
        Screen {
            column: 0,
            color: self.color,
            rows: self.rows.drop_first().push(blank_row(self.color)),
        }
    }

    /// `glyph` goes to the cursor's cell in the current colour, and the
    /// cursor moves one column to the right.
    pub open spec fn put(self, glyph: u8) -> Screen {
        Screen {
            column: self.column + 1,
            color: self.color,
            rows: self.rows.update(
                BUF_HEIGHT - 1,
                self.last_row().update(self.column, VGAChar { ascii: glyph, color: self.color }),
            ),
        }
    }

    /// One byte written: a line feed scrolls; any other byte is put at the
    /// cursor, after a scroll if the last row is full.
    pub open spec fn write_byte(self, byte: u8) -> Screen {
        if byte == LINE_FEED {
            self.scroll()
        } else if self.column >= BUF_WIDTH {
            self.scroll().put(byte)
        } else {
            self.put(byte)
        }
    }

    /// The bytes of a string written from first to last, each as the glyph
    /// that stands for it.
    pub open spec fn write_string(self, bytes: Seq<u8>) -> Screen
        decreases bytes.len(),
    {
        if bytes.len() == 0 {
            self
        } else {
            self.write_string(bytes.drop_last()).write_byte(glyph_for(bytes.last()))
        }
    }

    /// Scrolled `n` times in a row.
    pub open spec fn scrolls(self, n: nat) -> Screen
        decreases n,
    {
        if n == 0 {
            self
        } else {
            self.scrolls((n - 1) as nat).scroll()
        }
    }

    /// The column of the cell that the next glyph goes to: the cursor's,
    /// or the first where the cursor stands behind the end of the row.
    pub open spec fn target_column(self) -> int {
        if self.column >= BUF_WIDTH {
            0
        } else {
            self.column
        }
    }

    /// Every cell of the grid shows a printable character or the
    /// placeholder.
    pub open spec fn all_displayable(self) -> bool {
        forall|row: int, col: int|
            0 <= row < BUF_HEIGHT && 0 <= col < BUF_WIDTH ==> is_displayable(
                (#[trigger] self.rows[row][col]).ascii,
            )
    }
}

/// Whether `glyph` is one that string output may leave in a cell: a
/// printable character or the placeholder.
pub open spec fn is_displayable(glyph: u8) -> bool {
    is_printable(glyph) || glyph == PLACEHOLDER
}

/// Whether every byte of `bytes` is a printable character.
pub open spec fn all_printable(bytes: Seq<u8>) -> bool {
    forall|i: int| 0 <= i < bytes.len() ==> is_printable(#[trigger] bytes[i])
}

/// `bytes` shown with `color`, cell by cell.
pub open spec fn cells_of(bytes: Seq<u8>, color: VGAPalette) -> Seq<VGAChar> {
    Seq::new(bytes.len(), |i: int| VGAChar { ascii: bytes[i], color })
}

/// Scrolling keeps the screen well formed and the colour, and leaves the
/// cursor at column 0: the rows but the last are the old rows from the
/// second on, and the last is blank.
pub proof fn lemma_scroll(s: Screen)
    requires
        s.wf(),
    ensures
        s.scroll().wf(),
        s.scroll().column == 0,
        s.scroll().color == s.color,
        s.scroll().last_row() == blank_row(s.color),
        forall|row: int| 0 <= row < BUF_HEIGHT - 1 ==> #[trigger] s.scroll().rows[row] == s.rows[row + 1],
{
}

/// Writing a byte keeps the screen well formed and the colour.
pub proof fn lemma_write_byte_wf(s: Screen, byte: u8)
    requires
        s.wf(),
    ensures
        s.write_byte(byte).wf(),
        s.write_byte(byte).color == s.color,
{
    lemma_scroll(s);
}

/// Writing a string keeps the screen well formed and the colour.
pub proof fn lemma_write_string_wf(s: Screen, bytes: Seq<u8>)
    requires
        s.wf(),
    ensures
        s.write_string(bytes).wf(),
        s.write_string(bytes).color == s.color,
    decreases bytes.len(),
{
    if bytes.len() > 0 {
        lemma_write_string_wf(s, bytes.drop_last());
        lemma_write_byte_wf(s.write_string(bytes.drop_last()), glyph_for(bytes.last()));
    }
}

/// A string of one byte is that byte's glyph written once.
pub proof fn lemma_write_string_single(s: Screen, byte: u8)
    ensures
        s.write_string(seq![byte]) == s.write_byte(glyph_for(byte)),
{
    let bytes = seq![byte];
    assert(bytes.drop_last().len() == 0);
    assert(s.write_string(bytes.drop_last()) == s);
}

/// Writing two strings one after the other is writing them joined.
pub proof fn lemma_write_string_concat(s: Screen, first: Seq<u8>, second: Seq<u8>)
    ensures
        s.write_string(first + second) == s.write_string(first).write_string(second),
    decreases second.len(),
{
    if second.len() == 0 {
        assert(first + second =~= first);
    } else {
        lemma_write_string_concat(s, first, second.drop_last());
        assert((first + second).drop_last() =~= first + second.drop_last());
        assert((first + second).last() == second.last());
    }
}

/// A printable byte written as a string is shown unchanged, in the current
/// colour, in the cell the cursor points to, and the cursor then stands
/// one column behind that cell. Where the row was full the screen scrolls
/// first; otherwise no other cell changes.
pub proof fn lemma_printable_byte_shown(s: Screen, byte: u8)
    requires
        s.wf(),
        is_printable(byte),
    ensures
        s.write_string(seq![byte]) == s.write_byte(byte),
        s.write_string(seq![byte]).last_row()[s.target_column()] == (VGAChar {
            ascii: byte,
            color: s.color,
        }),
        s.write_string(seq![byte]).column == s.target_column() + 1,
        s.column < BUF_WIDTH ==> s.write_string(seq![byte]) == s.put(byte),
        s.column == BUF_WIDTH ==> s.write_string(seq![byte]) == s.scroll().put(byte),
{
    lemma_write_string_single(s, byte);
    lemma_scroll(s);
}

/// A byte that is neither printable nor a line feed, written as a string,
/// is shown as the placeholder in the cell the cursor points to: the screen
/// is the one that writing the placeholder itself gives. The byte's own
/// code is not put into the cell, unless it is the placeholder's.
pub proof fn lemma_unprintable_byte_replaced(s: Screen, byte: u8)
    requires
        s.wf(),
        !is_printable(byte),
        byte != LINE_FEED,
    ensures
        s.write_string(seq![byte]) == s.write_byte(PLACEHOLDER),
        s.write_string(seq![byte]).last_row()[s.target_column()] == (VGAChar {
            ascii: PLACEHOLDER,
            color: s.color,
        }),
        s.write_string(seq![byte]).column == s.target_column() + 1,
        byte != PLACEHOLDER ==> s.write_string(seq![byte]).last_row()[s.target_column()].ascii != byte,
{
    lemma_write_string_single(s, byte);
    lemma_scroll(s);
}

/// Printable bytes that fit into the rest of the last row are put there
/// from left to right without a scroll: they follow the cursor's column
/// one by one, the cursor ends behind the last of them, and no other cell
/// changes.
pub proof fn lemma_write_within_row(s: Screen, bytes: Seq<u8>)
    requires
        s.wf(),
        all_printable(bytes),
        s.column + bytes.len() <= BUF_WIDTH,
    ensures
        s.write_string(bytes) == (Screen {
            column: s.column + bytes.len(),
            color: s.color,
            rows: s.rows.update(
                BUF_HEIGHT - 1,
                s.last_row().subrange(0, s.column) + cells_of(bytes, s.color) + s.last_row().subrange(
                    s.column + bytes.len(),
                    BUF_WIDTH as int,
                ),
            ),
        }),
    decreases bytes.len(),
{
    let after = Screen {
        column: s.column + bytes.len(),
        color: s.color,
        rows: s.rows.update(
            BUF_HEIGHT - 1,
            s.last_row().subrange(0, s.column) + cells_of(bytes, s.color) + s.last_row().subrange(
                s.column + bytes.len(),
                BUF_WIDTH as int,
            ),
        ),
    };
    if bytes.len() == 0 {
        assert(after.rows =~~= s.rows);
    } else {
        let front = bytes.drop_last();
        lemma_write_within_row(s, front);
        let mid = s.write_string(front);
        assert(is_printable(bytes.last()));
        assert(s.write_string(bytes) == mid.put(bytes.last()));
        assert(mid.put(bytes.last()).rows =~~= after.rows);
    }
}

/// Exactly as many printable bytes as a row has cells, written from the
/// start of the row, fill the last row from left to right and scroll
/// nothing: every other row is as before, and the cursor stands behind the
/// end of the row.
pub proof fn lemma_full_row(s: Screen, bytes: Seq<u8>)
    requires
        s.wf(),
        s.column == 0,
        bytes.len() == BUF_WIDTH,
        all_printable(bytes),
    ensures
        s.write_string(bytes) == (Screen {
            column: BUF_WIDTH as int,
            color: s.color,
            rows: s.rows.update(BUF_HEIGHT - 1, cells_of(bytes, s.color)),
        }),
{
    lemma_write_within_row(s, bytes);
    let row = s.last_row().subrange(0, 0) + cells_of(bytes, s.color) + s.last_row().subrange(
        BUF_WIDTH as int,
        BUF_WIDTH as int,
    );
    assert(row =~= cells_of(bytes, s.color));
}

/// One printable byte more than a row has cells: the first 80 fill the
/// last row, then the screen scrolls exactly once and the extra byte is put
/// at column 0 of the new last row. The filled row is now the row above
/// the last, and the cursor stands at column 1.
pub proof fn lemma_wrap_after_full_row(s: Screen, bytes: Seq<u8>, extra: u8)
    requires
        s.wf(),
        s.column == 0,
        bytes.len() == BUF_WIDTH,
        all_printable(bytes),
        is_printable(extra),
    ensures
        s.write_string(bytes.push(extra)) == s.write_string(bytes).scroll().put(extra),
        s.write_string(bytes.push(extra)).column == 1,
        s.write_string(bytes.push(extra)).rows[BUF_HEIGHT - 2] == cells_of(bytes, s.color),
        s.write_string(bytes.push(extra)).last_row() == blank_row(s.color).update(
            0,
            VGAChar { ascii: extra, color: s.color },
        ),
        forall|row: int|
            0 <= row < BUF_HEIGHT - 2 ==> #[trigger] s.write_string(bytes.push(extra)).rows[row]
                == s.rows[row + 1],
{
    lemma_full_row(s, bytes);
    let all = bytes.push(extra);
    assert(all.drop_last() =~= bytes);
    assert(all.last() == extra);
    let full = s.write_string(bytes);
    lemma_scroll(full);
    assert(s.write_string(all) == full.write_byte(extra));
}

/// A line feed, wherever the cursor stands, scrolls the screen exactly
/// once and puts no glyph: the cursor is then at column 0.
pub proof fn lemma_line_feed(s: Screen)
    ensures
        s.write_byte(LINE_FEED) == s.scroll(),
        s.write_string(seq![LINE_FEED]) == s.scroll(),
        s.write_string(seq![LINE_FEED]).column == 0,
{
    lemma_write_string_single(s, LINE_FEED);
}

/// `n` line feeds scroll the screen `n` times.
pub proof fn lemma_line_feeds(s: Screen, n: nat)
    ensures
        s.write_string(Seq::new(n, |i: int| LINE_FEED)) == s.scrolls(n),
    decreases n,
{
    let feeds = Seq::new(n, |i: int| LINE_FEED);
    if n > 0 {
        lemma_line_feeds(s, (n - 1) as nat);
        assert(feeds.drop_last() =~= Seq::new((n - 1) as nat, |i: int| LINE_FEED));
    }
}

/// After `n` scrolls every row shows what stood `n` rows below it, and the
/// rows that had nothing below them are blank. What the top `n` rows
/// showed is nowhere on the screen any more.
pub proof fn lemma_scrolls(s: Screen, n: nat)
    requires
        s.wf(),
    ensures
        s.scrolls(n).wf(),
        s.scrolls(n).color == s.color,
        n > 0 ==> s.scrolls(n).column == 0,
        forall|row: int|
            0 <= row < BUF_HEIGHT ==> #[trigger] s.scrolls(n).rows[row] == if row + n < BUF_HEIGHT {
                s.rows[row + n]
            } else {
                blank_row(s.color)
            },
    decreases n,
{
    if n > 0 {
        lemma_scrolls(s, (n - 1) as nat);
        let before = s.scrolls((n - 1) as nat);
        lemma_scroll(before);
        assert forall|row: int| 0 <= row < BUF_HEIGHT implies #[trigger] s.scrolls(n).rows[row] == if row
            + n < BUF_HEIGHT {
            s.rows[row + n]
        } else {
            blank_row(s.color)
        } by {
            if row < BUF_HEIGHT - 1 {
                assert(s.scrolls(n).rows[row] == before.rows[row + 1]);
            }
        }
    }
}

/// Scrolling one time less than the grid has rows brings the last row to
/// the top and leaves every row below it blank: nothing of the rows above
/// the last, the first among them, is left.
pub proof fn lemma_scrolled_to_top(s: Screen)
    requires
        s.wf(),
    ensures
        s.scrolls((BUF_HEIGHT - 1) as nat).rows[0] == s.last_row(),
        forall|row: int|
            1 <= row < BUF_HEIGHT ==> #[trigger] s.scrolls((BUF_HEIGHT - 1) as nat).rows[row]
                == blank_row(s.color),
{
    lemma_scrolls(s, (BUF_HEIGHT - 1) as nat);
}

/// Where the last row was blank, scrolling one time less than the grid has
/// rows leaves the whole grid blank.
pub proof fn lemma_scrolled_blank(s: Screen)
    requires
        s.wf(),
        s.last_row() == blank_row(s.color),
    ensures
        forall|row: int|
            0 <= row < BUF_HEIGHT ==> #[trigger] s.scrolls((BUF_HEIGHT - 1) as nat).rows[row]
                == blank_row(s.color),
{
    lemma_scrolls(s, (BUF_HEIGHT - 1) as nat);
}

/// String output never leaves a raw unprintable byte on the screen: where
/// every cell showed a printable character or the placeholder, every cell
/// still does after any string is written.
pub proof fn lemma_write_string_displayable(s: Screen, bytes: Seq<u8>)
    requires
        s.wf(),
        s.all_displayable(),
    ensures
        s.write_string(bytes).all_displayable(),
    decreases bytes.len(),
{
    if bytes.len() > 0 {
        let front = s.write_string(bytes.drop_last());
        lemma_write_string_displayable(s, bytes.drop_last());
        lemma_write_string_wf(s, bytes.drop_last());
        lemma_scroll(front);
        let glyph = glyph_for(bytes.last());
        let after = front.write_byte(glyph);
        assert forall|row: int, col: int| 0 <= row < BUF_HEIGHT && 0 <= col < BUF_WIDTH implies is_displayable(
            (#[trigger] after.rows[row][col]).ascii,
        ) by {
            let scrolled = front.scroll();
            if row < BUF_HEIGHT - 1 {
                assert(is_displayable(front.rows[row + 1][col].ascii));
                assert(is_displayable(front.rows[row][col].ascii));
            } else {
                assert(is_displayable(front.rows[row][col].ascii));
                assert(scrolled.rows[row][col].ascii == 0x20);
            }
        }
    }
}

} // verus!
