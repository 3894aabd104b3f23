use vstd::prelude::*;

use crate::event::{KeyCode, KeyInput, MouseInput, TrawEvent};
use crate::state::{mouse_step, State, StateModel};

verus! {

/// The side effect the caller performs after an event is handled.
#[derive(Clone, Copy, Debug, PartialEq, Eq, Structural)]
pub enum Command {
    /// Paint a frame from the current state.
    Render,
    /// Restore the terminal; the controller has terminated.
    Restore,
    Nothing,
}

/// The application controller: the session state and whether the
/// controller has terminated.
#[derive(Debug)]
pub struct Traw {
    pub state: State,
    /// `true` once terminated.
    pub exit: bool,
}

/// The mathematical value of a `Traw`.
pub struct TrawModel {
    pub state: StateModel,
    pub exit: bool,
}

impl View for Traw {
    type V = TrawModel;

    open spec fn view(&self) -> TrawModel {
        TrawModel { state: self.state@, exit: self.exit }
    }
}

/// Escape is the one exit key.
pub open spec fn is_exit_key(k: KeyInput) -> bool {
    k.code == KeyCode::Esc
}

/// One dispatch step. A terminated controller handles nothing more.
pub open spec fn handle_step(t: TrawModel, e: TrawEvent) -> (TrawModel, Command) {
    if t.exit {
        (t, Command::Nothing)
    } else {
        match e {
            TrawEvent::Tick => (t, Command::Render),
            TrawEvent::Keypress(k) => if is_exit_key(k) {
                (TrawModel { state: t.state, exit: true }, Command::Restore)
            } else {
                (t, Command::Nothing)
            },
            TrawEvent::Mouse(m) => (TrawModel { state: mouse_step(t.state, m), exit: false }, Command::Nothing),
            TrawEvent::Resize(_, _) => (t, Command::Nothing),
        }
    }
}

/// The main loop over the queued `events`: while running, take the next event
/// and dispatch it. Gives the final controller and how many events were taken.
pub open spec fn run_loop(t: TrawModel, events: Seq<TrawEvent>) -> (TrawModel, nat)
    decreases events.len(),
{
    if t.exit || events.len() == 0 {
        (t, 0)
    } else {
        let r = run_loop(handle_step(t, events[0]).0, events.subrange(1, events.len() as int));
        (r.0, r.1 + 1)
    }
}

impl Traw {
    pub open spec fn wf(&self) -> bool {
        self.state.wf()
    }

    /// A running controller with a fresh session.
    pub fn new() -> (r: Traw)
        ensures
            r.wf(),
            !r.exit,
            !r.state.dragging,
            r.state.shapes@.len() == 0,
    {
        Traw { state: State::new(), exit: false }
    }

    /// Terminates the controller.
    pub fn exit(&mut self)
        ensures
            final(self).exit,
            final(self).state@ == old(self).state@,
    {
        self.exit = true;
    }

    /// A tick asks for a redraw.
    fn tick(&self) -> (r: Command)
        ensures
            r == Command::Render,
    {
        Command::Render
    }

    /// The exit key terminates; other keys do nothing.
    fn keypress(&mut self, key: KeyInput) -> (r: Command)
        ensures
            is_exit_key(key) ==> final(self).exit && r == Command::Restore,
            !is_exit_key(key) ==> final(self).exit == old(self).exit && r == Command::Nothing,
            final(self).state@ == old(self).state@,
    {
        match key.code {
            KeyCode::Esc => {
                self.exit();
                Command::Restore
            },
            _ => Command::Nothing,
        }
    }

    fn mouse(&mut self, mouse: MouseInput)
        requires
            old(self).wf(),
        ensures
            final(self).wf(),
            final(self)@ == (TrawModel { state: mouse_step(old(self).state@, mouse), exit: old(self).exit }),
    {
        self.state.mouse(mouse);
    }

    /// Resizes are accepted and change nothing.
    fn resize(&mut self, _width: u16, _height: u16)
        ensures
            final(self)@ == old(self)@,
    {
    }

    /// Dispatches one event and says what the caller must do next.
    pub fn handle(&mut self, event: TrawEvent) -> (r: Command)
        requires
            old(self).wf(),
        ensures
            final(self).wf(),
            (final(self)@, r) == handle_step(old(self)@, event),
    {
        if self.exit {
            return Command::Nothing;
        }
        match event {
            TrawEvent::Tick => self.tick(),
            TrawEvent::Keypress(key) => self.keypress(key),
            TrawEvent::Mouse(mouse) => {
                self.mouse(mouse);
                Command::Nothing
            },
            TrawEvent::Resize(width, height) => {
                self.resize(width, height);
                Command::Nothing
            },
        }
    }
}

} // verus!
