use vstd::prelude::*;

use crate::shape::{Position, Shape};
use crate::state::State;
use ratatui::buffer::Buffer;

verus! {

#[verifier::external_type_specification]
#[verifier::external_body]
pub struct ExBuffer(Buffer);

/// The symbol of every cell of a buffer's area, keyed by (column, row): the
/// domain is exactly the positions that ratatui's `Rect::contains` accepts
/// for the buffer's `area`.
pub uninterp spec fn glyphs(b: Buffer) -> Map<(u16, u16), Seq<char>>;

/// The glyph of horizontal border segments.
pub const HORIZONTAL: char = '━';

/// The glyph of vertical border segments.
pub const VERTICAL: char = '┃';

/// One glyph written at one cell.
#[derive(Clone, Copy, Debug, PartialEq, Eq, Structural)]
pub struct Stamp {
    pub x: u16,
    pub y: u16,
    pub glyph: char,
}

/// Writing `glyph` at (`x`, `y`): cells outside the area are left alone.
pub open spec fn stamp_cell(m: Map<(u16, u16), Seq<char>>, x: u16, y: u16, glyph: char) -> Map<
    (u16, u16),
    Seq<char>,
> {
    if m.dom().contains((x, y)) {
        m.insert((x, y), seq![glyph])
    } else {
        m
    }
}

/// The cells after writing the stamps of `s` in order.
pub open spec fn paint(m: Map<(u16, u16), Seq<char>>, s: Seq<Stamp>) -> Map<(u16, u16), Seq<char>>
    decreases s.len(),
{
    if s.len() == 0 {
        m
    } else {
        let t = s.last();
        stamp_cell(paint(m, s.drop_last()), t.x, t.y, t.glyph)
    }
}

/// The coordinates strictly between `a` and `b`, lowest first.
pub open spec fn strictly_between(a: u16, b: u16) -> Seq<u16> {
    let lo: int = if a < b {
        a as int
    } else {
        b as int
    };
    let hi: int = if a < b {
        b as int
    } else {
        a as int
    };
    if hi - lo < 2 {
        Seq::empty()
    } else {
        Seq::new((hi - lo - 1) as nat, |i: int| (lo + 1 + i) as u16)
    }
}

/// The segment along row `start.y` between the columns of `start` and `end`,
/// both ends excluded.
pub open spec fn horizontal_stamps(start: Position, end: Position) -> Seq<Stamp> {
    strictly_between(start.x, end.x).map_values(|c: u16| Stamp { x: c, y: start.y, glyph: HORIZONTAL })
}

/// The segment along column `start.x` between the rows of `start` and `end`,
/// both ends excluded.
pub open spec fn vertical_stamps(start: Position, end: Position) -> Seq<Stamp> {
    strictly_between(start.y, end.y).map_values(|r: u16| Stamp { x: start.x, y: r, glyph: VERTICAL })
}

/// The stamps of one shape: top, bottom, right and left border of a
/// rectangle; none for a line.
pub open spec fn shape_stamps(s: Shape) -> Seq<Stamp> {
    match s {
        Shape::Rectangle { p1, p2, p3, p4 } => horizontal_stamps(p1, p2) + horizontal_stamps(p4, p3)
            + vertical_stamps(p2, p3) + vertical_stamps(p1, p4),
        Shape::Line { .. } => Seq::empty(),
    }
}

/// The stamps of a sequence of shapes, in sequence order.
pub open spec fn shapes_stamps(shapes: Seq<Shape>) -> Seq<Stamp>
    decreases shapes.len(),
{
    if shapes.len() == 0 {
        Seq::empty()
    } else {
        shapes_stamps(shapes.drop_last()) + shape_stamps(shapes.last())
    }
}

/// What one frame paints: the live shape first, then every committed shape
/// in commit order.
pub open spec fn frame_stamps(current: Option<Shape>, shapes: Seq<Shape>) -> Seq<Stamp> {
    match current {
        Some(c) => shape_stamps(c) + shapes_stamps(shapes),
        None => shapes_stamps(shapes),
    }
}

/// Relies on ratatui's `Buffer::cell_mut`, which gives the cell at a position
/// exactly when `area.contains` accepts it (with `content` holding one cell
/// per position of the area, as `Buffer` documents) and touches no other cell,
/// and on `Cell::set_char`, which makes the character that cell's whole symbol.
#[verifier::external_body]
pub(crate) fn set_glyph(buf: &mut Buffer, x: u16, y: u16, glyph: char)
    ensures
        glyphs(*final(buf)) == stamp_cell(glyphs(*old(buf)), x, y, glyph),
{
    if let Some(cell) = buf.cell_mut((x, y)) {
        cell.set_char(glyph);
    }
}

/// Painting `a` then `b` is painting `a + b`.
pub proof fn lemma_paint_append(m: Map<(u16, u16), Seq<char>>, a: Seq<Stamp>, b: Seq<Stamp>)
    ensures
        paint(m, a + b) == paint(paint(m, a), b),
    decreases b.len(),
{
    if b.len() == 0 {
        assert(a + b =~= a);
    } else {
        assert((a + b).drop_last() =~= a + b.drop_last());
        lemma_paint_append(m, a, b.drop_last());
    }
}

} // verus!
