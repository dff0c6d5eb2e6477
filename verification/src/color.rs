//! The sixteen colours of text mode and the attribute byte that packs two
//! of them.

use vstd::prelude::*;

verus! {

/// The colours of the text-mode palette, in the order of their hardware
/// indices 0 to 15.
#[derive(Debug, Clone, Copy, PartialEq, Eq, Structural)]
pub enum VGAColor {
    Black,
    Blue,
    Green,
    Cyan,
    Red,
    Magenta,
    Brown,
    LightGray,
    DarkGray,
    LightBlue,
    LightGreen,
    LightCyan,
    LightRed,
    Pink,
    Yellow,
    White,
}

impl VGAColor {
    /// The hardware index of the colour.
    pub open spec fn spec_index(self) -> u8 {
        match self {
            VGAColor::Black => 0,
            VGAColor::Blue => 1,
            VGAColor::Green => 2,
            VGAColor::Cyan => 3,
            VGAColor::Red => 4,
            VGAColor::Magenta => 5,
            VGAColor::Brown => 6,
            VGAColor::LightGray => 7,
            VGAColor::DarkGray => 8,
            VGAColor::LightBlue => 9,
            VGAColor::LightGreen => 10,
            VGAColor::LightCyan => 11,
            VGAColor::LightRed => 12,
            VGAColor::Pink => 13,
            VGAColor::Yellow => 14,
            VGAColor::White => 15,
        }
    }

    /// The colour with hardware index `index`, if there is one.
    pub open spec fn spec_from_index(index: u8) -> Option<VGAColor> {
        if index == 0 {
            Some(VGAColor::Black)
        } else if index == 1 {
            Some(VGAColor::Blue)
        } else if index == 2 {
            Some(VGAColor::Green)
        } else if index == 3 {
            Some(VGAColor::Cyan)
        } else if index == 4 {
            Some(VGAColor::Red)
        } else if index == 5 {
            Some(VGAColor::Magenta)
        } else if index == 6 {
            Some(VGAColor::Brown)
        } else if index == 7 {
            Some(VGAColor::LightGray)
        } else if index == 8 {
            Some(VGAColor::DarkGray)
        } else if index == 9 {
            Some(VGAColor::LightBlue)
        } else if index == 10 {
            Some(VGAColor::LightGreen)
        } else if index == 11 {
            Some(VGAColor::LightCyan)
        } else if index == 12 {
            Some(VGAColor::LightRed)
        } else if index == 13 {
            Some(VGAColor::Pink)
        } else if index == 14 {
            Some(VGAColor::Yellow)
        } else if index == 15 {
            Some(VGAColor::White)
        } else {
            None
        }
    }

    /// The hardware index of the colour, a number from 0 to 15.
    #[verifier::when_used_as_spec(spec_index)]
    pub fn index(self) -> (index: u8)
        ensures
            index == self.spec_index(),
            index <= 15,
    {
        match self {
            VGAColor::Black => 0,
            VGAColor::Blue => 1,
            VGAColor::Green => 2,
            VGAColor::Cyan => 3,
            VGAColor::Red => 4,
            VGAColor::Magenta => 5,
            VGAColor::Brown => 6,
            VGAColor::LightGray => 7,
            VGAColor::DarkGray => 8,
            VGAColor::LightBlue => 9,
            VGAColor::LightGreen => 10,
            VGAColor::LightCyan => 11,
            VGAColor::LightRed => 12,
            VGAColor::Pink => 13,
            VGAColor::Yellow => 14,
            VGAColor::White => 15,
        }
    }

    /// The colour with hardware index `index`; `None` for an index above 15.
    #[verifier::when_used_as_spec(spec_from_index)]
    pub fn from_index(index: u8) -> (color: Option<VGAColor>)
        ensures
            color == Self::spec_from_index(index),
            color is Some <==> index <= 15,
            color matches Some(c) ==> c.spec_index() == index,
    {
        match index {
            0 => Some(VGAColor::Black),
            1 => Some(VGAColor::Blue),
            2 => Some(VGAColor::Green),
            3 => Some(VGAColor::Cyan),
            4 => Some(VGAColor::Red),
            5 => Some(VGAColor::Magenta),
            6 => Some(VGAColor::Brown),
            7 => Some(VGAColor::LightGray),
            8 => Some(VGAColor::DarkGray),
            9 => Some(VGAColor::LightBlue),
            10 => Some(VGAColor::LightGreen),
            11 => Some(VGAColor::LightCyan),
            12 => Some(VGAColor::LightRed),
            13 => Some(VGAColor::Pink),
            14 => Some(VGAColor::Yellow),
            15 => Some(VGAColor::White),
            _ => None,
        }
    }
}

/// An attribute byte: the background colour in the high four bits, the
/// foreground colour in the low four.
#[derive(Debug, Clone, Copy, PartialEq, Eq, Structural)]
pub struct VGAPalette(pub u8);

impl VGAPalette {
    /// The attribute that shows `fg` on `bg`.
    pub open spec fn spec_new(fg: VGAColor, bg: VGAColor) -> VGAPalette {
        VGAPalette((bg.spec_index() << 4) | fg.spec_index())
    }

    /// The colour named by the low four bits.
    pub open spec fn spec_foreground(self) -> VGAColor {
        VGAColor::spec_from_index(self.0 & 0x0f).unwrap()
    }

    /// The colour named by the high four bits.
    pub open spec fn spec_background(self) -> VGAColor {
        VGAColor::spec_from_index(self.0 >> 4).unwrap()
    }

    /// Packs a foreground and a background colour into one attribute byte.
    #[verifier::when_used_as_spec(spec_new)]
    pub fn new(fg: VGAColor, bg: VGAColor) -> (palette: Self)
        ensures
            palette == Self::spec_new(fg, bg),
            palette.0 == (bg.spec_index() << 4) | fg.spec_index(),
            palette.0 == 16 * bg.spec_index() + fg.spec_index(),
            palette.spec_foreground() == fg,
            palette.spec_background() == bg,
    {
        proof {
            lemma_unpack_packed(fg, bg);
        }
        VGAPalette((bg.index() << 4) | fg.index())
    }

    /// The foreground colour of the attribute.
    #[verifier::when_used_as_spec(spec_foreground)]
    pub fn foreground(self) -> (fg: VGAColor)
        ensures
            fg == self.spec_foreground(),
            fg.spec_index() == self.0 & 0x0f,
    {
        let byte: u8 = self.0;
        let low: u8 = byte & 0x0f;
        assert(low <= 15) by (bit_vector)
            requires
                low == byte & 0x0f,
        ;
        match VGAColor::from_index(low) {
            Some(color) => color,
            None => VGAColor::White,
        }
    }

    /// The background colour of the attribute.
    #[verifier::when_used_as_spec(spec_background)]
    pub fn background(self) -> (bg: VGAColor)
        ensures
            bg == self.spec_background(),
            bg.spec_index() == self.0 >> 4,
    {
        let byte: u8 = self.0;
        let high: u8 = byte >> 4;
        assert(high <= 15) by (bit_vector)
            requires
                high == byte >> 4,
        ;
        match VGAColor::from_index(high) {
            Some(color) => color,
            None => VGAColor::White,
        }
    }
}

/// Looking a colour up by its own index gives the colour back.
pub proof fn lemma_index_round_trip(color: VGAColor)
    ensures
        color.spec_index() <= 15,
        VGAColor::spec_from_index(color.spec_index()) == Some(color),
{
}

/// Unpacking a packed pair gives the pair back: whatever the two colours,
/// the attribute made of them has the first as its foreground and the
/// second as its background.
pub proof fn lemma_unpack_packed(fg: VGAColor, bg: VGAColor)
    ensures
        VGAPalette::spec_new(fg, bg).0 == (bg.spec_index() << 4) | fg.spec_index(),
        VGAPalette::spec_new(fg, bg).0 == 16 * bg.spec_index() + fg.spec_index(),
        VGAPalette::spec_new(fg, bg).spec_foreground() == fg,
        VGAPalette::spec_new(fg, bg).spec_background() == bg,
{
    let f = fg.spec_index();
    let b = bg.spec_index();
    lemma_index_round_trip(fg);
    lemma_index_round_trip(bg);
    assert(((b << 4) | f) & 0x0f == f && ((b << 4) | f) >> 4 == b && (b << 4) | f == 16 * b + f)
        by (bit_vector)
        requires
            f <= 15,
            b <= 15,
    ;
}

/// Packing the two colours of an attribute gives the attribute back: every
/// byte is the attribute of exactly one pair of colours.
pub proof fn lemma_pack_unpacked(palette: VGAPalette)
    ensures
        VGAPalette::spec_new(palette.spec_foreground(), palette.spec_background()) == palette,
{
    let p = palette.0;
    let low = p & 0x0f;
    let high = p >> 4;
    assert(low <= 15 && high <= 15 && (high << 4) | low == p) by (bit_vector)
        requires
            low == p & 0x0f,
            high == p >> 4,
    ;
}

} // verus!
