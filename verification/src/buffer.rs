//! The character grid of the display adapter: 25 rows of 80 cells, each a
//! 16-bit word behind a volatile wrapper, so that no access to the
//! adapter's memory is dropped or reordered by the compiler.

use vstd::prelude::*;
use volatile::Volatile;
use crate::cell::VGAChar;

verus! {

/// The number of rows of the grid.
pub const BUF_HEIGHT: usize = 25;

/// The number of cells in a row.
pub const BUF_WIDTH: usize = 80;

/// `volatile::Volatile`, a wrapper that holds one value and reaches it by
/// volatile loads and stores only. Nothing inside it is visible to
/// verified code.
#[verifier::external_type_specification]
#[verifier::external_body]
#[verifier::reject_recursive_types(T)]
pub struct ExVolatile<T: Copy>(Volatile<T>);

/// The grid as it lies in memory, row after row, 4000 bytes in all. On the
/// little-endian machines that have this adapter the low byte of a cell's
/// word, the glyph, comes first and the attribute follows it.
pub type Buffer = [[Volatile<u16>; BUF_WIDTH]; BUF_HEIGHT];

/// The word that a volatile cell holds: what `Volatile::read` returns for
/// it. A cell is taken to keep the word last stored in it, as the
/// adapter's text memory does while nothing but the writer reaches it.
pub uninterp spec fn cell_word(cell: Volatile<u16>) -> u16;

/// `Volatile::read`: a volatile load of the wrapped value. Trusted, not
/// proved: the result is the word the cell holds. The call never panics.
#[verifier::external_body]
pub(crate) fn read_cell(cell: &Volatile<u16>) -> (word: u16)
    ensures
        word == cell_word(*cell),
{
    cell.read()
}

/// `Volatile::write`: a volatile store into the wrapped value. Trusted,
/// not proved: afterwards the cell holds `word`. The call never panics.
#[verifier::external_body]
pub(crate) fn write_cell(cell: &mut Volatile<u16>, word: u16)
    ensures
        cell_word(*final(cell)) == word,
{
    cell.write(word)
}

/// The cells of a grid, decoded: `grid_view(buffer)[row][col]` is the
/// character at that place.
pub open spec fn grid_view(buffer: Buffer) -> Seq<Seq<VGAChar>> {
    Seq::new(
        BUF_HEIGHT as nat,
        |row: int| Seq::new(
            BUF_WIDTH as nat,
            |col: int| VGAChar::spec_from_word(cell_word(buffer[row][col])),
        ),
    )
}

} // verus!
