use vstd::prelude::*;

verus! {

/// The sixteen-entry VGA text-mode palette (index 4 is not used).
#[derive(Clone, Copy, Debug, PartialEq, Eq, Structural)]
pub enum VgaColor {
    Black,
    Blue,
    Green,
    Red,
    Magenta,
    Brown,
    LightGREY,
    DarkGREY,
    LightBLUE,
    LightGREEN,
    LightCYAN,
    LightRED,
    LightMAGENTA,
    LightBROWN,
    White,
}

/// The palette index of a colour.
pub open spec fn color_index(c: VgaColor) -> u8 {
    match c {
        VgaColor::Black => 0,
        VgaColor::Blue => 1,
        VgaColor::Green => 2,
        VgaColor::Red => 3,
        VgaColor::Magenta => 5,
        VgaColor::Brown => 6,
        VgaColor::LightGREY => 7,
        VgaColor::DarkGREY => 8,
        VgaColor::LightBLUE => 9,
        VgaColor::LightGREEN => 10,
        VgaColor::LightCYAN => 11,
        VgaColor::LightRED => 12,
        VgaColor::LightMAGENTA => 13,
        VgaColor::LightBROWN => 14,
        VgaColor::White => 15,
    }
}

impl VgaColor {
    /// The palette index of this colour, as the hardware reads it.
    pub fn index(&self) -> (r: u8)
        ensures
            r == color_index(*self),
            r < 16,
    {
        match self {
            VgaColor::Black => 0,
            VgaColor::Blue => 1,
            VgaColor::Green => 2,
            VgaColor::Red => 3,
            VgaColor::Magenta => 5,
            VgaColor::Brown => 6,
            VgaColor::LightGREY => 7,
            VgaColor::DarkGREY => 8,
            VgaColor::LightBLUE => 9,
            VgaColor::LightGREEN => 10,
            VgaColor::LightCYAN => 11,
            VgaColor::LightRED => 12,
            VgaColor::LightMAGENTA => 13,
            VgaColor::LightBROWN => 14,
            VgaColor::White => 15,
        }
    }
}

/// The attribute byte for a foreground and a background colour: the
/// background in the high nibble, the foreground in the low one.
pub open spec fn attribute(fg: VgaColor, bg: VgaColor) -> u8 {
    (color_index(bg) * 16 + color_index(fg)) as u8
}

/// Packs a foreground and a background colour into a VGA attribute byte.
pub fn make_color(fg: VgaColor, bg: VgaColor) -> (r: u8)
    ensures
        r == attribute(fg, bg),
        r % 16 == color_index(fg),
        r / 16 == color_index(bg),
{
    let f = fg.index();
    let b = bg.index();
    let r = (b << 4) | f;
    assert(r == b * 16 + f) by (bit_vector)
        requires
            f < 16,
            b < 16,
            r == (b << 4) | f,
    ;
    r
}

/// The palette numbers are those of the VGA hardware: distinct colours
/// have distinct numbers, all below 16, and number 4 is not used; each
/// colour has its number.
pub proof fn lemma_palette_numbers()
    ensures
        forall|a: VgaColor, b: VgaColor| color_index(a) == color_index(b) ==> a == b,
        forall|a: VgaColor| color_index(a) < 16 && color_index(a) != 4,
        color_index(VgaColor::Black) == 0 && color_index(VgaColor::Blue) == 1,
        color_index(VgaColor::Green) == 2 && color_index(VgaColor::Red) == 3,
        color_index(VgaColor::Magenta) == 5 && color_index(VgaColor::Brown) == 6,
        color_index(VgaColor::LightGREY) == 7 && color_index(VgaColor::DarkGREY) == 8,
        color_index(VgaColor::LightBLUE) == 9 && color_index(VgaColor::LightGREEN) == 10,
        color_index(VgaColor::LightCYAN) == 11 && color_index(VgaColor::LightRED) == 12,
        color_index(VgaColor::LightMAGENTA) == 13 && color_index(VgaColor::LightBROWN) == 14,
        color_index(VgaColor::White) == 15,
{
}

/// The attribute byte keeps both colours apart: two attribute bytes are
/// equal only for the same foreground and the same background.
pub proof fn lemma_attribute_distinguishes_colors(f1: VgaColor, b1: VgaColor, f2: VgaColor, b2: VgaColor)
    ensures
        attribute(f1, b1) == attribute(f2, b2) ==> f1 == f2 && b1 == b2,
        attribute(f1, b1) as int == color_index(b1) as int * 16 + color_index(f1) as int,
{
    lemma_palette_numbers();
}

} // verus!
