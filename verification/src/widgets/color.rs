//! Colors and their inverses.

use vstd::prelude::*;

verus! {

/// A terminal color: a named one, one of the 256 indexed ones, or a mix of
/// red, green and blue.
#[derive(Clone, Copy, Debug, PartialEq, Eq, Structural)]
pub enum Color {
    Reset,
    Black,
    Red,
    Green,
    Yellow,
    Blue,
    Magenta,
    Cyan,
    Gray,
    DarkGray,
    LightRed,
    LightGreen,
    LightYellow,
    LightBlue,
    LightMagenta,
    LightCyan,
    White,
    Rgb(u8, u8, u8),
    Indexed(u8),
}

/// The inverse of an indexed color.
///
/// The sixteen standard colors mirror within their block, the 6x6x6 cube
/// mirrors each of its three coordinates (which mirrors the block), and the
/// gray ramp mirrors around its middle.
pub open spec fn indexed_inverse(i: u8) -> u8 {
    if i <= 15 {
        (15 - i) as u8
    } else if i <= 231 {
        (247 - i) as u8
    } else {
        (487 - i) as u8
    }
}

/// The inverse of a color that is no mix of red, green and blue. `Reset` is
/// its own inverse.
pub open spec fn named_inverse(color: Color) -> Color {
    match color {
        Color::Reset => Color::Reset,
        Color::Black => Color::White,
        Color::Red => Color::Cyan,
        Color::Green => Color::Magenta,
        Color::Yellow => Color::Blue,
        Color::Blue => Color::Yellow,
        Color::Magenta => Color::Green,
        Color::Cyan => Color::Red,
        Color::Gray => Color::DarkGray,
        Color::DarkGray => Color::Gray,
        Color::LightRed => Color::LightCyan,
        Color::LightGreen => Color::LightMagenta,
        Color::LightYellow => Color::LightBlue,
        Color::LightBlue => Color::LightYellow,
        Color::LightMagenta => Color::LightGreen,
        Color::LightCyan => Color::LightRed,
        Color::White => Color::Black,
        Color::Indexed(i) => Color::Indexed(indexed_inverse(i)),
        Color::Rgb(r, g, b) => color,
    }
}

/// The inverse of the indexed color `i`, as an indexed color.
pub fn get_indexed_inverse(i: u8) -> (inverse: Color)
    ensures
        inverse == Color::Indexed(indexed_inverse(i)),
{
    if i <= 15 {
        Color::Indexed(15 - i)
    } else if i <= 231 {
        let c: u8 = i - 16;
        let r: u8 = c / 36;
        let g: u8 = (c % 36) / 6;
        let b: u8 = c % 6;
        let r_inv: u8 = 5 - r;
        let g_inv: u8 = 5 - g;
        let b_inv: u8 = 5 - b;
        assert(c == r * 36 + g * 6 + b);
        Color::Indexed(16 + (r_inv * 36) + (g_inv * 6) + b_inv)
    } else {
        let inv: u16 = 487u16 - i as u16;
        Color::Indexed(inv as u8)
    }
}

/// The inverse of `color`, for every color but a mix of red, green and blue:
/// such a mix is inverted in a color space that this function does not
/// enter, and gives `None`.
pub fn get_inverse(color: Color) -> (inverse: Option<Color>)
    ensures
        color is Rgb <==> inverse is None,
        !(color is Rgb) ==> inverse == Some(named_inverse(color)),
{
    match color {
        Color::Reset => Some(color),
        Color::Black => Some(Color::White),
        Color::Red => Some(Color::Cyan),
        Color::Green => Some(Color::Magenta),
        Color::Yellow => Some(Color::Blue),
        Color::Blue => Some(Color::Yellow),
        Color::Magenta => Some(Color::Green),
        Color::Cyan => Some(Color::Red),
        Color::Gray => Some(Color::DarkGray),
        Color::DarkGray => Some(Color::Gray),
        Color::LightRed => Some(Color::LightCyan),
        Color::LightGreen => Some(Color::LightMagenta),
        Color::LightYellow => Some(Color::LightBlue),
        Color::LightBlue => Some(Color::LightYellow),
        Color::LightMagenta => Some(Color::LightGreen),
        Color::LightCyan => Some(Color::LightRed),
        Color::White => Some(Color::Black),
        Color::Rgb(_, _, _) => None,
        Color::Indexed(i) => Some(get_indexed_inverse(i)),
    }
}

/// Inverting twice gives the color back, and an inverse stays in the block
/// of the 256 indexed colors that the color came from.
pub proof fn lemma_inverse_is_involution(color: Color)
    ensures
        named_inverse(named_inverse(color)) == color,
        color matches Color::Indexed(i) ==> (indexed_inverse(indexed_inverse(i)) == i && (i <= 15
            <==> indexed_inverse(i) <= 15) && (i >= 232 <==> indexed_inverse(i) >= 232)),
{
}

} // verus!
