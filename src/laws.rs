use vstd::prelude::*;

use crate::event::{KeyInput, MouseButton, MouseInput, MouseKind, TrawEvent};
use crate::paint::{
    frame_stamps, horizontal_stamps, paint, shape_stamps, shapes_stamps, stamp_cell,
    strictly_between, vertical_stamps, Stamp,
};
use crate::shape::{corners, drag_rectangle, is_axis_aligned, Position, Shape};
use crate::state::{drag_step, model_wf, mouse_step, release_step, StateModel};
use crate::traw::{handle_step, is_exit_key, run_loop, Command, TrawModel};

verus! {

/// The state after the drag updates `drags`, in order.
pub open spec fn drag_all(s: StateModel, drags: Seq<Position>) -> StateModel
    decreases drags.len(),
{
    if drags.len() == 0 {
        s
    } else {
        drag_step(drag_all(s, drags.drop_last()), drags.last())
    }
}

/// The glyph of the last stamp of `s` at cell `c`, if any stamp lands there.
pub open spec fn last_glyph_at(s: Seq<Stamp>, c: (u16, u16)) -> Option<char>
    decreases s.len(),
{
    if s.len() == 0 {
        None
    } else if (s.last().x, s.last().y) == c {
        Some(s.last().glyph)
    } else {
        last_glyph_at(s.drop_last(), c)
    }
}

proof fn lemma_contains_concat(a: Seq<Stamp>, b: Seq<Stamp>, x: Stamp)
    ensures
        (a + b).contains(x) <==> (a.contains(x) || b.contains(x)),
{
    if a.contains(x) {
        let i = choose|i: int| 0 <= i < a.len() && a[i] == x;
        assert((a + b)[i] == x);
    }
    if b.contains(x) {
        let i = choose|i: int| 0 <= i < b.len() && b[i] == x;
        assert((a + b)[a.len() + i] == x);
    }
    if (a + b).contains(x) {
        let i = choose|i: int| 0 <= i < (a + b).len() && (a + b)[i] == x;
        if i < a.len() {
            assert(a[i] == x);
        } else {
            assert(b[i - a.len()] == x);
        }
    }
}

proof fn lemma_between_symmetric(a: u16, b: u16)
    ensures
        strictly_between(a, b) == strictly_between(b, a),
{
    assert(strictly_between(a, b) =~= strictly_between(b, a));
}

/// The drag rectangle is axis-aligned with its corners in order, and a drag
/// reversed (start and current swapped) has the same corners and paints the
/// same cells with the same glyphs.
pub proof fn law_drag_rectangle_symmetric(a: Position, b: Position)
    ensures
        is_axis_aligned(drag_rectangle(a, b)),
        corners(drag_rectangle(a, b)) == corners(drag_rectangle(b, a)),
        forall|x: Stamp|
            shape_stamps(drag_rectangle(a, b)).contains(x) <==> shape_stamps(
                drag_rectangle(b, a),
            ).contains(x),
{
    let p2 = Position { x: b.x, y: a.y };
    let p4 = Position { x: a.x, y: b.y };
    assert(corners(drag_rectangle(a, b)) =~= corners(drag_rectangle(b, a)));
    lemma_between_symmetric(a.x, b.x);
    lemma_between_symmetric(a.y, b.y);
    let t = horizontal_stamps(a, p2);
    let bo = horizontal_stamps(p4, b);
    let r = vertical_stamps(p2, b);
    let l = vertical_stamps(a, p4);
    assert(horizontal_stamps(b, p4) == bo);
    assert(horizontal_stamps(p2, a) == t);
    assert(vertical_stamps(p4, a) == l);
    assert(vertical_stamps(b, p2) == r);
    assert forall|x: Stamp|
        shape_stamps(drag_rectangle(a, b)).contains(x) <==> shape_stamps(
            drag_rectangle(b, a),
        ).contains(x) by {
        lemma_contains_concat(t, bo, x);
        lemma_contains_concat(t + bo, r, x);
        lemma_contains_concat(t + bo + r, l, x);
        lemma_contains_concat(bo, t, x);
        lemma_contains_concat(bo + t, l, x);
        lemma_contains_concat(bo + t + l, r, x);
    }
}

proof fn lemma_drag_all(s: StateModel, drags: Seq<Position>)
    requires
        model_wf(s),
        !s.dragging,
        drags.len() >= 1,
    ensures
        drag_all(s, drags) == (StateModel {
            dragging: true,
            start_drag: Some(drags[0]),
            current_drag: Some(drags.last()),
            current_shape: Some(drag_rectangle(drags[0], drags.last())),
            shapes: s.shapes,
        }),
    decreases drags.len(),
{
    if drags.len() > 1 {
        lemma_drag_all(s, drags.drop_last());
        assert(drags.drop_last()[0] == drags[0]);
    } else {
        assert(drag_all(s, drags.drop_last()) == s);
        assert(drags.last() == drags[0]);
    }
}

/// A completed drag (press, one or more drag updates, release) commits
/// exactly one shape: the rectangle from the first to the last update,
/// however many updates there were, and leaves the state idle.
pub proof fn law_one_commit_per_drag(
    s: StateModel,
    down: MouseInput,
    drags: Seq<Position>,
    up: MouseInput,
)
    requires
        model_wf(s),
        !s.dragging,
        down.kind == MouseKind::Down(MouseButton::Left),
        drags.len() >= 1,
        up.kind == MouseKind::Up(MouseButton::Left),
    ensures
        mouse_step(drag_all(mouse_step(s, down), drags), up).shapes == s.shapes.push(
            drag_rectangle(drags[0], drags.last()),
        ),
        model_wf(mouse_step(drag_all(mouse_step(s, down), drags), up)),
        !mouse_step(drag_all(mouse_step(s, down), drags), up).dragging,
{
    lemma_drag_all(s, drags);
}

/// A release without a drag before it commits nothing.
pub proof fn law_release_without_drag(s: StateModel, down: MouseInput, up: MouseInput)
    requires
        model_wf(s),
        !s.dragging,
        down.kind == MouseKind::Down(MouseButton::Left),
        up.kind == MouseKind::Up(MouseButton::Left),
    ensures
        mouse_step(s, up).shapes == s.shapes,
        mouse_step(mouse_step(s, down), up).shapes == s.shapes,
{
}

/// Two completed drags commit their rectangles in the order of release.
pub proof fn law_commit_order(
    s: StateModel,
    first: Seq<Position>,
    second: Seq<Position>,
)
    requires
        model_wf(s),
        !s.dragging,
        first.len() >= 1,
        second.len() >= 1,
    ensures
        release_step(drag_all(release_step(drag_all(s, first)), second)).shapes == s.shapes.push(
            drag_rectangle(first[0], first.last()),
        ).push(drag_rectangle(second[0], second.last())),
{
    lemma_drag_all(s, first);
    lemma_drag_all(release_step(drag_all(s, first)), second);
}

proof fn lemma_last_glyph_append(a: Seq<Stamp>, b: Seq<Stamp>, c: (u16, u16))
    ensures
        last_glyph_at(a + b, c) == (if last_glyph_at(b, c).is_some() {
            last_glyph_at(b, c)
        } else {
            last_glyph_at(a, c)
        }),
    decreases b.len(),
{
    if b.len() == 0 {
        assert(a + b =~= a);
    } else {
        assert((a + b).drop_last() =~= a + b.drop_last());
        lemma_last_glyph_append(a, b.drop_last(), c);
    }
}

proof fn lemma_paint_at(m: Map<(u16, u16), Seq<char>>, s: Seq<Stamp>, c: (u16, u16))
    requires
        m.dom().contains(c),
    ensures
        paint(m, s).dom() == m.dom(),
        paint(m, s)[c] == (match last_glyph_at(s, c) {
            Some(g) => seq![g],
            None => m[c],
        }),
    decreases s.len(),
{
    if s.len() > 0 {
        lemma_paint_at(m, s.drop_last(), c);
        let p = paint(m, s.drop_last());
        let t = s.last();
        if p.dom().contains((t.x, t.y)) {
            assert(stamp_cell(p, t.x, t.y, t.glyph).dom() =~= p.dom());
        }
    }
}

/// Painting is in commit order: at any cell of the buffer that the last
/// committed shape stamps, the frame shows that shape's glyph, whatever the
/// live shape and the earlier shapes painted there.
pub proof fn law_later_shape_shows(
    m: Map<(u16, u16), Seq<char>>,
    current: Option<Shape>,
    shapes: Seq<Shape>,
    last: Shape,
    c: (u16, u16),
)
    requires
        m.dom().contains(c),
        last_glyph_at(shape_stamps(last), c).is_some(),
    ensures
        paint(m, frame_stamps(current, shapes.push(last)))[c] == seq![
            last_glyph_at(shape_stamps(last), c)->Some_0,
        ],
{
    assert(shapes.push(last).drop_last() =~= shapes);
    let f = frame_stamps(current, shapes.push(last));
    match current {
        Some(cur) => {
            assert(f =~= (shape_stamps(cur) + shapes_stamps(shapes)) + shape_stamps(last));
            lemma_last_glyph_append(shape_stamps(cur) + shapes_stamps(shapes), shape_stamps(last), c);
        },
        None => {
            lemma_last_glyph_append(shapes_stamps(shapes), shape_stamps(last), c);
        },
    }
    lemma_paint_at(m, f, c);
}

/// A frame with no live shape and no committed shape changes no cell.
pub proof fn law_empty_frame_paints_nothing(m: Map<(u16, u16), Seq<char>>)
    ensures
        paint(m, frame_stamps(None, Seq::empty())) == m,
{
}

/// The exit key terminates a running controller at once: the loop takes that
/// one event and no event queued after it.
pub proof fn law_exit_stops_loop(t: TrawModel, key: KeyInput, rest: Seq<TrawEvent>)
    requires
        !t.exit,
        is_exit_key(key),
    ensures
        handle_step(t, TrawEvent::Keypress(key)) == (
            TrawModel { state: t.state, exit: true },
            Command::Restore,
        ),
        run_loop(t, seq![TrawEvent::Keypress(key)] + rest) == (
            TrawModel { state: t.state, exit: true },
            1nat,
        ),
{
    let evs = seq![TrawEvent::Keypress(key)] + rest;
    assert(evs[0] == TrawEvent::Keypress(key));
    let next = handle_step(t, evs[0]).0;
    assert(next.exit);
    assert(run_loop(next, evs.subrange(1, evs.len() as int)) == (next, 0nat));
}

} // verus!
