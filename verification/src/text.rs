//! The mathematical model of the text renderer: what rendering a byte
//! string of character codes emits, glyph cell by glyph cell, and the
//! cursor bounds under which the renderer's arithmetic stays in range.
//!
//! A glyph is an 8-row bitmap, one byte per row, most significant bit
//! leftmost, looked up in an externally supplied font table by character
//! code. Character code `0x0A` is a newline: it renders nothing and moves
//! the cursor to the left margin of the next text row.

use crate::display::{solid_rect_ops, DisplayView};
use crate::link::LinkOpView;
use vstd::prelude::*;

verus! {

/// The image of a font table: one 8-byte row sequence per character code.
pub open spec fn font_view(font: Seq<[u8; 8]>) -> Seq<Seq<u8>> {
    font.map_values(|glyph: [u8; 8]| glyph@)
}

/// What one glyph cell emits, drawn at `(cx, ry)`: a scaled foreground
/// block when bit `7 - col` of the row is set, a background block when a
/// background color is configured, nothing when the background is
/// transparent.
pub open spec fn glyph_cell_ops(
    d: DisplayView,
    cx: int,
    ry: int,
    row_bits: u8,
    col: int,
) -> Seq<LinkOpView> {
    if row_bits & (1u8 << ((7 - col) as u8)) != 0 {
        solid_rect_ops(
            d.bpp,
            d.width,
            d.height,
            cx as u16,
            ry as u16,
            d.pixel_width,
            d.pixel_height,
            d.foreground_color,
        )
    } else if d.background_color is Some {
        solid_rect_ops(
            d.bpp,
            d.width,
            d.height,
            cx as u16,
            ry as u16,
            d.pixel_width,
            d.pixel_height,
            d.background_color.unwrap(),
        )
    } else {
        seq![]
    }
}

/// What the cells `col..8` of one glyph row emit, left to right, the row
/// starting at `(rx, ry)`.
pub open spec fn glyph_row_ops(
    d: DisplayView,
    rx: int,
    ry: int,
    row_bits: u8,
    col: int,
) -> Seq<LinkOpView>
    decreases 8 - col,
{
    if col < 0 || col >= 8 {
        seq![]
    } else {
        glyph_cell_ops(d, rx + col * d.pixel_width, ry, row_bits, col) + glyph_row_ops(
            d,
            rx,
            ry,
            row_bits,
            col + 1,
        )
    }
}

/// What the rows `row..8` of one glyph emit, top to bottom, the glyph's
/// top-left corner at `(rx, ry)`.
pub open spec fn glyph_ops(
    d: DisplayView,
    rx: int,
    ry: int,
    glyph: Seq<u8>,
    row: int,
) -> Seq<LinkOpView>
    decreases 8 - row,
{
    if row < 0 || row >= 8 {
        seq![]
    } else {
        glyph_row_ops(d, rx, ry + row * d.pixel_height, glyph[row], 0) + glyph_ops(
            d,
            rx,
            ry,
            glyph,
            row + 1,
        )
    }
}

/// What rendering `text` emits with the cursor at `(rx, ry)` and the left
/// margin at `x`: nothing for a newline, which returns the cursor to the
/// margin and advances it one text row; a glyph for every other code, the
/// cursor advancing one glyph cell width.
pub open spec fn text_ops(
    d: DisplayView,
    x: u16,
    rx: int,
    ry: int,
    text: Seq<u8>,
    font: Seq<Seq<u8>>,
) -> Seq<LinkOpView>
    decreases text.len(),
{
    if text.len() == 0 {
        seq![]
    } else if text[0] == 0x0A {
        text_ops(d, x, x as int, ry + 8 * d.pixel_height, text.skip(1), font)
    } else {
        glyph_ops(d, rx, ry, font[text[0] as int], 0) + text_ops(
            d,
            x,
            rx + 8 * d.pixel_width,
            ry,
            text.skip(1),
            font,
        )
    }
}

/// The renderer's cursor arithmetic stays within `u16` while rendering
/// `text` from `(rx, ry)` with left margin `x` and pixel scales
/// `(pw, ph)`: each newline's vertical advance and each glyph's full cell
/// extent fit.
pub open spec fn text_fits(rx: int, ry: int, x: u16, pw: u16, ph: u16, text: Seq<u8>) -> bool
    decreases text.len(),
{
    if text.len() == 0 {
        true
    } else if text[0] == 0x0A {
        ry + 8 * ph <= u16::MAX && text_fits(x as int, ry + 8 * ph, x, pw, ph, text.skip(1))
    } else {
        rx + 8 * pw <= u16::MAX && ry + 8 * ph <= u16::MAX && text_fits(
            rx + 8 * pw,
            ry,
            x,
            pw,
            ph,
            text.skip(1),
        )
    }
}

/// A newline reaches no rasterizer call: rendering it emits nothing, the
/// horizontal cursor returns to the left margin and the vertical cursor
/// advances by exactly eight vertical pixel-scale units.
pub proof fn lemma_newline_emits_nothing(
    d: DisplayView,
    x: u16,
    rx: int,
    ry: int,
    rest: Seq<u8>,
    font: Seq<Seq<u8>>,
)
    ensures
        text_ops(d, x, rx, ry, seq![0x0Au8] + rest, font) == text_ops(
            d,
            x,
            x as int,
            ry + 8 * d.pixel_height,
            rest,
            font,
        ),
{
    let t = seq![0x0Au8] + rest;
    assert(t[0] == 0x0Au8);
    assert(t.skip(1) =~= rest);
}

} // verus!
