use vstd::prelude::*;

use crate::event::MouseInput;
use crate::paint::{frame_stamps, glyphs, lemma_paint_append, paint, shape_stamps, shapes_stamps};
use crate::rectangle;
use crate::shape::{Position, Shape};
use crate::state::{drag_step, model_wf, release_step, State, StateModel};
use ratatui::buffer::Buffer;

verus! {

/// Paints the live shape, if any, then `shapes` in order.
fn paint_frame(buf: &mut Buffer, current: &Option<Shape>, shapes: &Vec<Shape>)
    ensures
        glyphs(*final(buf)) == paint(glyphs(*old(buf)), frame_stamps(*current, shapes@)),
{
    let ghost m0 = glyphs(*buf);
    if let Some(shape) = current {
        rectangle::render(shape, buf);
    }
    let ghost m1 = glyphs(*buf);
    let mut i: usize = 0;
    while i < shapes.len()
        invariant
            i <= shapes@.len(),
            glyphs(*buf) == paint(m1, shapes_stamps(shapes@.take(i as int))),
        decreases shapes@.len() - i,
    {
        rectangle::render(&shapes[i], buf);
        proof {
            let pre = shapes@.take(i as int);
            assert(shapes@.take(i + 1).drop_last() =~= pre);
            lemma_paint_append(m1, shapes_stamps(pre), shape_stamps(shapes@[i as int]));
        }
        i = i + 1;
    }
    proof {
        assert(shapes@.take(i as int) =~= shapes@);
        match *current {
            Some(c) => lemma_paint_append(m0, shape_stamps(c), shapes_stamps(shapes@)),
            None => {},
        }
    }
}

/// Paints one frame: the live shape, if any, then every committed shape in
/// commit order, so later shapes show over earlier ones.
pub fn render(buf: &mut Buffer, state: &State)
    ensures
        glyphs(*final(buf)) == paint(
            glyphs(*old(buf)),
            frame_stamps(state.current_shape, state.shapes@),
        ),
{
    paint_frame(buf, &state.current_shape, &state.shapes);
}

/// A drag tracker that keeps the drag apart from the committed shapes, which
/// stay in a `State`.
#[derive(Debug)]
pub struct Ui {
    /// Whether the user is currently dragging.
    pub dragging: bool,
    /// Where the drag started.
    pub start_drag: Option<Position>,
    /// Where the drag is now.
    pub current_drag: Option<Position>,
    /// The live preview of the drag.
    pub current_shape: Option<Shape>,
}

impl Ui {
    /// The session made of this drag and the committed `shapes`.
    pub open spec fn session(&self, shapes: Seq<Shape>) -> StateModel {
        StateModel {
            dragging: self.dragging,
            start_drag: self.start_drag,
            current_drag: self.current_drag,
            current_shape: self.current_shape,
            shapes,
        }
    }

    pub open spec fn wf(&self) -> bool {
        model_wf(self.session(Seq::empty()))
    }

    /// An idle tracker.
    pub fn new() -> (r: Ui)
        ensures
            r.wf(),
            !r.dragging,
    {
        Ui { dragging: false, start_drag: None, current_drag: None, current_shape: None }
    }

    /// Paints the live shape, then the committed shapes of `state` in order.
    pub fn draw(&self, buf: &mut Buffer, state: &State)
        ensures
            glyphs(*final(buf)) == paint(
                glyphs(*old(buf)),
                frame_stamps(self.current_shape, state.shapes@),
            ),
    {
        paint_frame(buf, &self.current_shape, &state.shapes);
    }

    /// A press does not start a drag: its first update does.
    pub fn mouse_click(&mut self, _mouse: MouseInput)
        ensures
            *final(self) == *old(self),
    {
    }

    /// A drag update to the mouse's cell.
    pub fn mouse_drag(&mut self, mouse: MouseInput)
        requires
            old(self).wf(),
        ensures
            final(self).wf(),
            final(self).session(Seq::empty()) == drag_step(
                old(self).session(Seq::empty()),
                Position { x: mouse.column, y: mouse.row },
            ),
    {
        if !self.dragging && self.start_drag.is_none() {
            self.dragging = true;
            self.start_drag = Some(Position::new(mouse.column, mouse.row));
        }
        if self.dragging {
            let current = Position::new(mouse.column, mouse.row);
            self.current_drag = Some(current);
            if let Some(start) = self.start_drag {
                self.current_shape = Some(Shape::from_drag(start, current));
            }
        }
    }

    /// A release: commits the live shape to `state` and resets the drag.
    pub fn mouse_release(&mut self, _mouse: MouseInput, state: &mut State)
        ensures
            final(self).wf(),
            final(self).session(final(state).shapes@) == release_step(
                old(self).session(old(state).shapes@),
            ),
            final(state).dragging == old(state).dragging,
            final(state).start_drag == old(state).start_drag,
            final(state).current_drag == old(state).current_drag,
            final(state).current_shape == old(state).current_shape,
    {
        self.dragging = false;
        self.start_drag = None;
        self.current_drag = None;
        let live = self.current_shape.take();
        if let Some(shape) = live {
            state.shapes.push(shape);
        }
    }
}

} // verus!
