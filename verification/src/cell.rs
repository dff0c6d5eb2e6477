//! One character cell, and the 16-bit word the display adapter keeps for it.

use vstd::prelude::*;
use crate::color::VGAPalette;

verus! {

/// The glyph that fills a cleared cell: the space character.
pub const BLANK_GLYPH: u8 = 0x20;

/// A character cell: the code of a glyph and the attribute it is shown
/// with.
#[derive(Debug, Clone, Copy, PartialEq, Eq, Structural)]
pub struct VGAChar {
    pub ascii: u8,
    pub color: VGAPalette,
}

impl VGAChar {
    /// The cell written as one word: the glyph in the low byte, the
    /// attribute in the high byte.
    pub open spec fn spec_to_word(self) -> u16 {
        ((self.color.0 as u16) << 8) | (self.ascii as u16)
    }

    /// The cell that a word stands for.
    pub open spec fn spec_from_word(word: u16) -> VGAChar {
        VGAChar { ascii: (word & 0xff) as u8, color: VGAPalette((word >> 8) as u8) }
    }

    /// A space shown with `color`.
    pub open spec fn spec_blank(color: VGAPalette) -> VGAChar {
        VGAChar { ascii: BLANK_GLYPH, color }
    }

    /// Encodes the cell as the adapter stores it. Stored little-endian, the
    /// glyph lies at the lower address and the attribute right after it.
    #[verifier::when_used_as_spec(spec_to_word)]
    pub fn to_word(self) -> (word: u16)
        ensures
            word == self.spec_to_word(),
            word == 256 * self.color.0 + self.ascii,
            Self::spec_from_word(word) == self,
    {
        proof {
            lemma_decode_encoded(self);
        }
        ((self.color.0 as u16) << 8) | (self.ascii as u16)
    }

    /// Decodes a word of the adapter's memory.
    #[verifier::when_used_as_spec(spec_from_word)]
    pub fn from_word(word: u16) -> (cell: VGAChar)
        ensures
            cell == Self::spec_from_word(word),
            cell.spec_to_word() == word,
    {
        proof {
            lemma_encode_decoded(word);
        }
        VGAChar { ascii: (word & 0xff) as u8, color: VGAPalette((word >> 8) as u8) }
    }

    /// A space shown with `color`.
    #[verifier::when_used_as_spec(spec_blank)]
    pub fn blank(color: VGAPalette) -> (cell: VGAChar)
        ensures
            cell == Self::spec_blank(color),
    {
        VGAChar { ascii: BLANK_GLYPH, color }
    }
}

/// Decoding the word of a cell gives the cell back.
pub proof fn lemma_decode_encoded(cell: VGAChar)
    ensures
        VGAChar::spec_from_word(cell.spec_to_word()) == cell,
        cell.spec_to_word() == 256 * cell.color.0 + cell.ascii,
{
    let glyph = cell.ascii;
    let attribute = cell.color.0;
    let word = ((attribute as u16) << 8) | (glyph as u16);
    assert((word & 0xff) as u8 == glyph && (word >> 8) as u8 == attribute && word == 256 * attribute
        + glyph) by (bit_vector)
        requires
            word == ((attribute as u16) << 8) | (glyph as u16),
    ;
}

/// Encoding the cell of a word gives the word back, so cells and words
/// correspond one to one.
pub proof fn lemma_encode_decoded(word: u16)
    ensures
        VGAChar::spec_from_word(word).spec_to_word() == word,
{
    let glyph = (word & 0xff) as u8;
    let attribute = (word >> 8) as u8;
    assert(((attribute as u16) << 8) | (glyph as u16) == word) by (bit_vector)
        requires
            glyph == (word & 0xff) as u8,
            attribute == (word >> 8) as u8,
    ;
}

} // verus!
