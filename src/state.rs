use vstd::prelude::*;

use crate::event::{MouseButton, MouseInput, MouseKind};
use crate::shape::{drag_rectangle, Position, Shape};

verus! {

/// The session state: the drag in progress, its live shape, and the
/// committed shapes in commit order.
#[derive(Debug)]
pub struct State {
    /// Whether the user is currently dragging.
    pub dragging: bool,
    /// Where the drag started.
    pub start_drag: Option<Position>,
    /// Where the drag is now.
    pub current_drag: Option<Position>,
    /// The live preview of the drag.
    pub current_shape: Option<Shape>,
    /// The committed shapes, oldest first.
    pub shapes: Vec<Shape>,
}

/// The mathematical value of a `State`.
pub struct StateModel {
    pub dragging: bool,
    pub start_drag: Option<Position>,
    pub current_drag: Option<Position>,
    pub current_shape: Option<Shape>,
    pub shapes: Seq<Shape>,
}

impl View for State {
    type V = StateModel;

    open spec fn view(&self) -> StateModel {
        StateModel {
            dragging: self.dragging,
            start_drag: self.start_drag,
            current_drag: self.current_drag,
            current_shape: self.current_shape,
            shapes: self.shapes@,
        }
    }
}

/// Idle: nothing held. Dragging: both ends held and the preview is the
/// rectangle between them.
pub open spec fn model_wf(s: StateModel) -> bool {
    if s.dragging {
        s.start_drag.is_some() && s.current_drag.is_some() && s.current_shape == Some(
            drag_rectangle(s.start_drag->Some_0, s.current_drag->Some_0),
        )
    } else {
        s.start_drag.is_none() && s.current_drag.is_none() && s.current_shape.is_none()
    }
}

/// A drag update to `pos`: the first one fixes the start of the drag.
pub open spec fn drag_step(s: StateModel, pos: Position) -> StateModel {
    let start = if s.dragging {
        s.start_drag->Some_0
    } else {
        pos
    };
    StateModel {
        dragging: true,
        start_drag: Some(start),
        current_drag: Some(pos),
        current_shape: Some(drag_rectangle(start, pos)),
        shapes: s.shapes,
    }
}

/// A release: the live shape, if any, is committed, and the drag is reset.
pub open spec fn release_step(s: StateModel) -> StateModel {
    StateModel {
        dragging: false,
        start_drag: None,
        current_drag: None,
        current_shape: None,
        shapes: match s.current_shape {
            Some(sh) => s.shapes.push(sh),
            None => s.shapes,
        },
    }
}

/// A mouse event: only the left button's drag and release change anything.
pub open spec fn mouse_step(s: StateModel, m: MouseInput) -> StateModel {
    match m.kind {
        MouseKind::Drag(MouseButton::Left) => drag_step(s, Position { x: m.column, y: m.row }),
        MouseKind::Up(MouseButton::Left) => release_step(s),
        _ => s,
    }
}

impl State {
    pub open spec fn wf(&self) -> bool {
        model_wf(self@)
    }

    /// Creates an idle state with no shapes.
    pub fn new() -> (r: State)
        ensures
            r.wf(),
            !r.dragging,
            r.shapes@.len() == 0,
    {
        State {
            dragging: false,
            start_drag: None,
            current_drag: None,
            current_shape: None,
            shapes: Vec::new(),
        }
    }

    /// Handles a left-button press: a drag starts only with its first update.
    pub fn mouse_click(&mut self, _mouse: MouseInput)
        ensures
            final(self)@ == old(self)@,
    {
    }

    /// Handles a left-button drag to (`column`, `row`).
    pub fn mouse_drag(&mut self, column: u16, row: u16)
        requires
            old(self).wf(),
        ensures
            final(self).wf(),
            final(self)@ == drag_step(old(self)@, Position { x: column, y: row }),
    {
        if !self.dragging && self.start_drag.is_none() {
            self.dragging = true;
            self.start_drag = Some(Position::new(column, row));
        }
        if self.dragging {
            let current = Position::new(column, row);
            self.current_drag = Some(current);
            if let Some(start) = self.start_drag {
                self.current_shape = Some(Shape::from_drag(start, current));
            }
        }
    }

    /// Handles a left-button release: commits the live shape and resets the drag.
    pub fn mouse_release(&mut self)
        ensures
            final(self).wf(),
            final(self)@ == release_step(old(self)@),
    {
        self.dragging = false;
        self.start_drag = None;
        self.current_drag = None;
        let live = self.current_shape.take();
        if let Some(shape) = live {
            self.shapes.push(shape);
        }
    }

    /// Routes a mouse event to the press, drag or release handler.
    pub fn mouse(&mut self, mouse: MouseInput)
        requires
            old(self).wf(),
        ensures
            final(self).wf(),
            final(self)@ == mouse_step(old(self)@, mouse),
    {
        match mouse.kind {
            MouseKind::Down(MouseButton::Left) => self.mouse_click(mouse),
            MouseKind::Drag(MouseButton::Left) => self.mouse_drag(mouse.column, mouse.row),
            MouseKind::Up(MouseButton::Left) => self.mouse_release(),
            _ => {},
        }
    }
}

} // verus!
