use vstd::prelude::*;

verus! {

/// A mouse button.
#[derive(Clone, Copy, Debug, PartialEq, Eq, Structural)]
pub enum MouseButton {
    Left,
    Right,
    Middle,
}

/// What a mouse event reports.
#[derive(Clone, Copy, Debug, PartialEq, Eq, Structural)]
pub enum MouseKind {
    Down(MouseButton),
    Up(MouseButton),
    Drag(MouseButton),
    Moved,
    ScrollDown,
    ScrollUp,
    ScrollLeft,
    ScrollRight,
}

/// A mouse event at cell (`column`, `row`).
#[derive(Clone, Copy, Debug, PartialEq, Eq, Structural)]
pub struct MouseInput {
    pub kind: MouseKind,
    pub column: u16,
    pub row: u16,
}

/// The key of a keyboard event, as far as this program tells keys apart.
#[derive(Clone, Copy, Debug, PartialEq, Eq, Structural)]
pub enum KeyCode {
    Esc,
    Char(char),
    Other,
}

/// Whether a keyboard event is a press, a repeat or a release.
#[derive(Clone, Copy, Debug, PartialEq, Eq, Structural)]
pub enum KeyKind {
    Press,
    Repeat,
    Release,
}

/// A keyboard event; `modifiers` holds the modifier bits (shift, control, ...).
#[derive(Clone, Copy, Debug, PartialEq, Eq, Structural)]
pub struct KeyInput {
    pub code: KeyCode,
    pub modifiers: u8,
    pub kind: KeyKind,
}

/// A raw event of the terminal's input stream.
#[derive(Clone, Copy, Debug, PartialEq, Eq, Structural)]
pub enum InputEvent {
    Key(KeyInput),
    Mouse(MouseInput),
    Resize(u16, u16),
    /// Focus changes, pastes and anything else the program does not use.
    Other,
}

/// The events the controller consumes.
#[derive(Clone, Copy, Debug, PartialEq, Eq, Structural)]
pub enum TrawEvent {
    /// Time to redraw.
    Tick,
    /// A key went down.
    Keypress(KeyInput),
    Mouse(MouseInput),
    /// The terminal's new width and height.
    Resize(u16, u16),
}

/// What the producer observed first in one round of its race.
#[derive(Clone, Copy, Debug, PartialEq, Eq, Structural)]
pub enum Signal {
    /// The consumer side of the queue was closed.
    Closed,
    /// The tick interval elapsed.
    TickElapsed,
    /// The input stream yielded an event.
    Input(InputEvent),
    /// The input stream yielded an error, or nothing.
    InputFailed,
}

/// What the producer does with a signal.
#[derive(Clone, Copy, Debug, PartialEq, Eq, Structural)]
pub enum ProducerAction {
    /// End the producer.
    Stop,
    /// Queue the event and race again.
    Emit(TrawEvent),
    /// Race again.
    Skip,
}

/// Errors of the event loop.
#[derive(Clone, Copy, Debug, PartialEq, Eq, Structural)]
pub enum TrawError {
    /// The queue is closed and empty: no event will ever come.
    SourceClosed,
    /// Writing a frame to the terminal failed.
    RenderIo,
}

/// Key presses, every mouse event and resizes pass; key repeats and
/// releases and every other input are dropped.
pub open spec fn classify_spec(input: InputEvent) -> Option<TrawEvent> {
    match input {
        InputEvent::Key(k) => if k.kind == KeyKind::Press {
            Some(TrawEvent::Keypress(k))
        } else {
            None
        },
        InputEvent::Mouse(m) => Some(TrawEvent::Mouse(m)),
        InputEvent::Resize(w, h) => Some(TrawEvent::Resize(w, h)),
        InputEvent::Other => None,
    }
}

/// Turns a raw input event into the event to queue, if any.
pub fn classify(input: InputEvent) -> (r: Option<TrawEvent>)
    ensures
        r == classify_spec(input),
{
    match input {
        InputEvent::Key(k) => {
            if k.kind == KeyKind::Press {
                Some(TrawEvent::Keypress(k))
            } else {
                None
            }
        },
        InputEvent::Mouse(m) => Some(TrawEvent::Mouse(m)),
        InputEvent::Resize(w, h) => Some(TrawEvent::Resize(w, h)),
        InputEvent::Other => None,
    }
}

/// One round of the producer: stop when the consumer is gone, emit a tick
/// when the interval elapsed, emit the classified input when there is one,
/// and skip failed polls and dropped inputs.
pub fn producer_step(signal: Signal) -> (r: ProducerAction)
    ensures
        r == (match signal {
            Signal::Closed => ProducerAction::Stop,
            Signal::TickElapsed => ProducerAction::Emit(TrawEvent::Tick),
            Signal::Input(i) => match classify_spec(i) {
                Some(e) => ProducerAction::Emit(e),
                None => ProducerAction::Skip,
            },
            Signal::InputFailed => ProducerAction::Skip,
        }),
{
    match signal {
        Signal::Closed => ProducerAction::Stop,
        Signal::TickElapsed => ProducerAction::Emit(TrawEvent::Tick),
        Signal::Input(i) => match classify(i) {
            Some(e) => ProducerAction::Emit(e),
            None => ProducerAction::Skip,
        },
        Signal::InputFailed => ProducerAction::Skip,
    }
}

/// The tick interval in milliseconds for a rate of `events_per_second`.
pub fn tick_interval_ms(events_per_second: u64) -> (r: u64)
    requires
        events_per_second > 0,
    ensures
        r == 1000u64 / events_per_second,
{
    1000 / events_per_second
}

/// The outcome of waiting on the queue: its event, or `SourceClosed` when the
/// queue was closed with nothing pending.
pub fn received(event: Option<TrawEvent>) -> (r: Result<TrawEvent, TrawError>)
    ensures
        r == (match event {
            Some(e) => Ok::<TrawEvent, TrawError>(e),
            None => Err(TrawError::SourceClosed),
        }),
{
    match event {
        Some(e) => Ok(e),
        None => Err(TrawError::SourceClosed),
    }
}

} // verus!
