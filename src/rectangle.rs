use vstd::prelude::*;

use crate::paint::{
    glyphs, horizontal_stamps, lemma_paint_append, paint, set_glyph, shape_stamps,
    vertical_stamps, Stamp, HORIZONTAL, VERTICAL,
};
use crate::shape::{Position, Shape};
use ratatui::buffer::Buffer;

verus! {

/// The axis along which a border segment runs.
#[derive(Clone, Copy, Debug, PartialEq, Eq, Structural)]
pub enum Direction {
    Horizontal,
    Vertical,
}

/// The stamps of a border segment from `start` to `end` along `direction`.
pub open spec fn line_stamps(start: Position, end: Position, direction: Direction) -> Seq<Stamp> {
    match direction {
        Direction::Horizontal => horizontal_stamps(start, end),
        Direction::Vertical => vertical_stamps(start, end),
    }
}

/// Stamps a border glyph at every cell strictly between `start` and `end`,
/// along `direction`, from the lower coordinate to the higher.
pub fn draw_line(buf: &mut Buffer, start: &Position, end: &Position, direction: Direction)
    ensures
        glyphs(*final(buf)) == paint(glyphs(*old(buf)), line_stamps(*start, *end, direction)),
{
    let horizontal = direction == Direction::Horizontal;
    let (a, b) = if horizontal {
        (start.x, end.x)
    } else {
        (start.y, end.y)
    };
    let (lo, hi) = if a < b {
        (a, b)
    } else {
        (b, a)
    };
    let ghost full = line_stamps(*start, *end, direction);
    if hi - lo < 2 {
        assert(full =~= Seq::<Stamp>::empty());
        return;
    }
    assert(full.len() == hi - lo - 1);
    let mut p: u16 = lo + 1;
    while p < hi
        invariant
            lo + 1 <= p <= hi,
            hi - lo >= 2,
            full.len() == hi - lo - 1,
            full == line_stamps(*start, *end, direction),
            horizontal == (direction == Direction::Horizontal),
            lo == (if horizontal { if start.x < end.x { start.x } else { end.x } } else {
                if start.y < end.y { start.y } else { end.y } }),
            glyphs(*buf) == paint(glyphs(*old(buf)), full.take(p - lo - 1)),
        decreases hi - p,
    {
        let ghost before = glyphs(*buf);
        if horizontal {
            set_glyph(buf, p, start.y, HORIZONTAL);
        } else {
            set_glyph(buf, start.x, p, VERTICAL);
        }
        proof {
            let k = p - lo - 1;
            assert(full.take(k + 1).drop_last() =~= full.take(k));
            assert(full[k] == (if horizontal {
                Stamp { x: p, y: start.y, glyph: HORIZONTAL }
            } else {
                Stamp { x: start.x, y: p, glyph: VERTICAL }
            }));
        }
        p = p + 1;
    }
    assert(full.take(p - lo - 1) =~= full);
}

/// Paints one shape: the four borders of a rectangle, corners left as they
/// were; a line paints nothing.
pub fn render(shape: &Shape, buf: &mut Buffer)
    ensures
        glyphs(*final(buf)) == paint(glyphs(*old(buf)), shape_stamps(*shape)),
{
    match shape {
        Shape::Rectangle { p1, p2, p3, p4 } => {
            let ghost m0 = glyphs(*buf);
            draw_line(buf, p1, p2, Direction::Horizontal);
            draw_line(buf, p4, p3, Direction::Horizontal);
            draw_line(buf, p2, p3, Direction::Vertical);
            draw_line(buf, p1, p4, Direction::Vertical);
            proof {
                let t = horizontal_stamps(*p1, *p2);
                let b = horizontal_stamps(*p4, *p3);
                let r = vertical_stamps(*p2, *p3);
                let l = vertical_stamps(*p1, *p4);
                lemma_paint_append(m0, t, b);
                lemma_paint_append(m0, t + b, r);
                lemma_paint_append(m0, t + b + r, l);
            }
        },
        Shape::Line { .. } => {
            assert(shape_stamps(*shape) =~= Seq::<Stamp>::empty());
        },
    }
}

} // verus!
