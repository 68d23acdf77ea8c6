//! The cell writer: turns a string (or a single character) with a position,
//! style and colors into the exact sequence of cell writes the off-screen
//! buffer receives. Code point `i` of the string lands in column `x + i`:
//! one code point per cell, with no double-width or combining-character
//! handling. This layer does no bounds checking; an out-of-range write is
//! the buffer primitive's own business.

use vstd::prelude::*;

use crate::attr::{color, style, foreground_attr, background_attr, convert_foreground,
    convert_background};

verus! {

/// One write into the off-screen buffer: the cell at `(x, y)` receives code
/// point `ch` with the packed foreground and background attribute words.
#[derive(Clone, Copy, Debug, PartialEq, Eq, Structural)]
pub struct cell_write {
    pub x: usize,
    pub y: usize,
    pub ch: u32,
    pub fg: u16,
    pub bg: u16,
}

/// The cell write that printing character `c` at `(x, y)` issues.
pub open spec fn cell_write_of(x: int, y: int, sty: style, fg: color, bg: color, c: char)
    -> cell_write {
    cell_write {
        x: x as usize,
        y: y as usize,
        ch: c as u32,
        fg: foreground_attr(sty, fg),
        bg: background_attr(bg),
    }
}

/// The cell writes that print a string with its leftmost character at
/// `(x, y)`: one write per code point, at consecutive columns, all carrying
/// the same packed attributes.
pub fn print_cells(x: usize, y: usize, sty: style, fg: color, bg: color, s: &str)
    -> (r: Vec<cell_write>)
    requires
        x + s@.len() <= usize::MAX,
    ensures
        r@.len() == s@.len(),
        forall|i: int|
            0 <= i < s@.len() ==> r@[i] == cell_write_of(x + i, y as int, sty, fg, bg, s@[i]),
{
    let fg_word = convert_foreground(sty, fg);
    let bg_word = convert_background(bg);
    let n = s.unicode_len();
    let mut r: Vec<cell_write> = Vec::new();
    let mut i: usize = 0;
    while i < n
        invariant
            i <= n,
            n == s@.len(),
            x + n <= usize::MAX,
            fg_word == foreground_attr(sty, fg),
            bg_word == background_attr(bg),
            r@.len() == i,
            forall|j: int|
                0 <= j < i ==> r@[j] == cell_write_of(x + j, y as int, sty, fg, bg, s@[j]),
        decreases n - i,
    {
        let c = s.get_char(i);
        r.push(cell_write { x: x + i, y, ch: c as u32, fg: fg_word, bg: bg_word });
        i = i + 1;
    }
    r
}

/// The single cell write that prints one character at `(x, y)`.
pub fn print_ch_cell(x: usize, y: usize, sty: style, fg: color, bg: color, ch: char)
    -> (r: cell_write)
    ensures
        r == cell_write_of(x as int, y as int, sty, fg, bg, ch),
{
    cell_write { x, y, ch: ch as u32, fg: convert_foreground(sty, fg), bg: convert_background(bg) }
}

} // verus!
