//! The attribute codec: a logical color (8 values) and style (4 values)
//! packed into one 16-bit attribute word. Color codes occupy the low three
//! bits and style codes the two bits at 0x30, so a foreground word is the
//! bitwise OR of the two codes and either code can be recovered by masking.

use vstd::prelude::*;

verus! {

/// The eight colors of the 3-bit indexed terminal palette.
#[derive(Clone, Copy, Debug, PartialEq, Eq, Structural)]
pub enum color {
    black,
    red,
    green,
    yellow,
    blue,
    magenta,
    cyan,
    white,
}

/// The four text styles carried by a foreground attribute word.
#[derive(Clone, Copy, Debug, PartialEq, Eq, Structural)]
pub enum style {
    normal,
    bold,
    underline,
    bold_underline,
}

/// The fixed 3-bit code of each color, as the terminal protocol defines it.
pub open spec fn color_code(c: color) -> u16 {
    match c {
        color::black => 0x00,
        color::red => 0x01,
        color::green => 0x02,
        color::yellow => 0x03,
        color::blue => 0x04,
        color::magenta => 0x05,
        color::cyan => 0x06,
        color::white => 0x07,
    }
}

/// The fixed code of each style; all style codes sit inside the 0x30 mask,
/// disjoint from the color bits.
pub open spec fn style_code(s: style) -> u16 {
    match s {
        style::normal => 0x00,
        style::bold => 0x10,
        style::underline => 0x20,
        style::bold_underline => 0x30,
    }
}

/// The packed foreground attribute word: color bits OR style bits.
pub open spec fn foreground_attr(sty: style, fg: color) -> u16 {
    color_code(fg) | style_code(sty)
}

/// The packed background attribute word: a background carries color only,
/// never a style.
pub open spec fn background_attr(bg: color) -> u16 {
    color_code(bg)
}

/// Convert a color to its fixed 3-bit code.
pub fn convert_color(c: color) -> (r: u16)
    ensures
        r == color_code(c),
{
    match c {
        color::black => 0x00,
        color::red => 0x01,
        color::green => 0x02,
        color::yellow => 0x03,
        color::blue => 0x04,
        color::magenta => 0x05,
        color::cyan => 0x06,
        color::white => 0x07,
    }
}

/// Convert a style to its fixed code.
pub fn convert_style(sty: style) -> (r: u16)
    ensures
        r == style_code(sty),
{
    match sty {
        style::normal => 0x00,
        style::bold => 0x10,
        style::underline => 0x20,
        style::bold_underline => 0x30,
    }
}

/// The attribute word written for a foreground: its color combined with its
/// style by a bitwise OR, which loses nothing since the bit ranges are
/// disjoint (see [`lemma_attr_word_recoverable`]).
pub fn convert_foreground(sty: style, fg: color) -> (r: u16)
    ensures
        r == foreground_attr(sty, fg),
{
    convert_color(fg) | convert_style(sty)
}

/// The attribute word written for a background: its color code alone.
pub fn convert_background(bg: color) -> (r: u16)
    ensures
        r == background_attr(bg),
{
    convert_color(bg)
}

/// Every color has a code in `[0x00, 0x07]`, and no two colors share one:
/// the mapping into the 3-bit palette is total and injective.
pub proof fn lemma_color_codes_unique(c1: color, c2: color)
    ensures
        color_code(c1) <= 0x07,
        color_code(c1) == color_code(c2) ==> c1 == c2,
{
}

/// Every style has a code in `{0x00, 0x10, 0x20, 0x30}`, and no two styles
/// share one.
pub proof fn lemma_style_codes_unique(s1: style, s2: style)
    ensures
        style_code(s1) == 0x00 || style_code(s1) == 0x10 || style_code(s1) == 0x20
            || style_code(s1) == 0x30,
        style_code(s1) == style_code(s2) ==> s1 == s2,
{
}

/// Bitwise facts behind the codec: OR-ing a 3-bit value with a value inside
/// the 0x30 mask collides on no bit, so each operand masks back out intact.
proof fn lemma_disjoint_or_masks(a: u16, b: u16)
    by (bit_vector)
    requires
        a <= 0x07,
        b & 0x30 == b,
    ensures
        (a | b) & 0x0F == a,
        (a | b) & 0x30 == b,
{
}

/// Packing loses no information: for every color and style, masking the
/// packed foreground word with 0x0F recovers the color code and masking
/// with 0x30 recovers the style code.
pub proof fn lemma_attr_word_recoverable(c: color, s: style)
    ensures
        foreground_attr(s, c) & 0x0F == color_code(c),
        foreground_attr(s, c) & 0x30 == style_code(s),
{
    let a = color_code(c);
    let b = style_code(s);
    assert(b & 0x30 == b) by (bit_vector)
        requires
            b == 0x00 || b == 0x10 || b == 0x20 || b == 0x30,
    ;
    lemma_disjoint_or_masks(a, b);
}

} // verus!
