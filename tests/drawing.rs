use ratatui::buffer::Buffer;
use ratatui::layout::Rect;
use traw::event::{
    classify, producer_step, received, tick_interval_ms, InputEvent, KeyCode, KeyInput, KeyKind,
    MouseButton, MouseInput, MouseKind, ProducerAction, Signal, TrawError, TrawEvent,
};
use traw::rectangle::{draw_line, render as render_shape, Direction};
use traw::shape::{Position, Shape};
use traw::state::State;
use traw::traw::{Command, Traw};
use traw::ui::render;

fn mouse(kind: MouseKind, column: u16, row: u16) -> MouseInput {
    MouseInput { kind, column, row }
}

fn drag(state: &mut State, column: u16, row: u16) {
    state.mouse(mouse(MouseKind::Drag(MouseButton::Left), column, row));
}

fn release(state: &mut State, column: u16, row: u16) {
    state.mouse(mouse(MouseKind::Up(MouseButton::Left), column, row));
}

fn press(state: &mut State, column: u16, row: u16) {
    state.mouse(mouse(MouseKind::Down(MouseButton::Left), column, row));
}

fn key(code: KeyCode, kind: KeyKind) -> KeyInput {
    KeyInput { code, modifiers: 0, kind }
}

fn blank() -> Buffer {
    Buffer::empty(Rect::new(0, 0, 20, 10))
}

fn symbol(buf: &Buffer, x: u16, y: u16) -> String {
    buf[(x, y)].symbol().to_string()
}

fn rect(p1: (u16, u16), p2: (u16, u16), p3: (u16, u16), p4: (u16, u16)) -> Shape {
    Shape::Rectangle {
        p1: Position::new(p1.0, p1.1),
        p2: Position::new(p2.0, p2.1),
        p3: Position::new(p3.0, p3.1),
        p4: Position::new(p4.0, p4.1),
    }
}

#[test]
fn live_rectangle_corners() {
    let mut state = State::new();
    drag(&mut state, 2, 2);
    drag(&mut state, 10, 5);
    assert_eq!(state.current_shape, Some(rect((2, 2), (10, 2), (10, 5), (2, 5))));
    assert!(state.dragging);
    assert_eq!(state.start_drag, Some(Position::new(2, 2)));
    assert_eq!(state.current_drag, Some(Position::new(10, 5)));
}

#[test]
fn live_rectangle_corners_reversed_drag() {
    let mut state = State::new();
    drag(&mut state, 10, 5);
    drag(&mut state, 2, 2);
    assert_eq!(state.current_shape, Some(rect((10, 5), (2, 5), (2, 2), (10, 2))));
}

#[test]
fn reversed_drag_paints_same_cells() {
    let mut a = blank();
    let mut b = blank();
    render_shape(&Shape::from_drag(Position::new(2, 2), Position::new(10, 5)), &mut a);
    render_shape(&Shape::from_drag(Position::new(10, 5), Position::new(2, 2)), &mut b);
    assert_eq!(a, b);
}

#[test]
fn one_commit_for_one_update() {
    let mut state = State::new();
    press(&mut state, 1, 1);
    drag(&mut state, 1, 1);
    release(&mut state, 1, 1);
    assert_eq!(state.shapes.len(), 1);
}

#[test]
fn one_commit_for_fifty_updates() {
    let mut state = State::new();
    press(&mut state, 3, 3);
    for i in 0..50u16 {
        drag(&mut state, 3 + i, 4 + i / 2);
    }
    release(&mut state, 52, 28);
    assert_eq!(state.shapes.len(), 1);
    // The drag starts at its first update, not at the press.
    assert_eq!(state.shapes[0], rect((3, 4), (52, 4), (52, 28), (3, 28)));
}

#[test]
fn release_without_drag_commits_nothing() {
    let mut state = State::new();
    press(&mut state, 4, 4);
    release(&mut state, 4, 4);
    assert_eq!(state.shapes.len(), 0);
    drag(&mut state, 1, 1);
    drag(&mut state, 5, 5);
    release(&mut state, 5, 5);
    release(&mut state, 5, 5);
    assert_eq!(state.shapes.len(), 1);
}

#[test]
fn commit_resets_state() {
    let mut state = State::new();
    drag(&mut state, 1, 2);
    drag(&mut state, 6, 7);
    release(&mut state, 6, 7);
    assert!(!state.dragging);
    assert_eq!(state.start_drag, None);
    assert_eq!(state.current_drag, None);
    assert_eq!(state.current_shape, None);
}

#[test]
fn other_buttons_change_nothing() {
    let mut state = State::new();
    state.mouse(mouse(MouseKind::Drag(MouseButton::Right), 3, 3));
    state.mouse(mouse(MouseKind::Moved, 4, 4));
    state.mouse(mouse(MouseKind::Up(MouseButton::Middle), 4, 4));
    assert!(!state.dragging);
    assert_eq!(state.current_shape, None);
    assert_eq!(state.shapes.len(), 0);
}

#[test]
fn shapes_in_release_order_and_later_wins() {
    let mut state = State::new();
    drag(&mut state, 2, 2);
    drag(&mut state, 8, 6);
    release(&mut state, 8, 6);
    drag(&mut state, 5, 0);
    drag(&mut state, 12, 4);
    release(&mut state, 12, 4);
    assert_eq!(state.shapes, vec![
        rect((2, 2), (8, 2), (8, 6), (2, 6)),
        rect((5, 0), (12, 0), (12, 4), (5, 4)),
    ]);
    let mut buf = blank();
    render(&mut buf, &state);
    // (5, 2) is on A's top border and B's left border: B shows.
    assert_eq!(symbol(&buf, 5, 2), "┃");
    // (8, 4) is on A's right border and B's bottom border: B shows.
    assert_eq!(symbol(&buf, 8, 4), "━");
    // A's own cells keep A's glyphs.
    assert_eq!(symbol(&buf, 3, 2), "━");
    assert_eq!(symbol(&buf, 2, 4), "┃");
}

#[test]
fn committed_shape_shows_over_live_shape() {
    let mut state = State::new();
    drag(&mut state, 0, 3);
    drag(&mut state, 10, 9);
    release(&mut state, 10, 9);
    drag(&mut state, 4, 0);
    drag(&mut state, 6, 8);
    let mut buf = blank();
    render(&mut buf, &state);
    // (4, 3) is on the live shape's left border and the committed top border.
    assert_eq!(symbol(&buf, 4, 3), "━");
    assert_eq!(symbol(&buf, 4, 1), "┃");
}

#[test]
fn empty_state_paints_nothing() {
    let state = State::new();
    let mut buf = blank();
    render(&mut buf, &state);
    assert_eq!(buf, blank());
}

#[test]
fn rectangle_borders_and_corners() {
    let mut buf = blank();
    render_shape(&rect((2, 2), (10, 2), (10, 5), (2, 5)), &mut buf);
    for x in 3..10u16 {
        assert_eq!(symbol(&buf, x, 2), "━");
        assert_eq!(symbol(&buf, x, 5), "━");
    }
    for y in 3..5u16 {
        assert_eq!(symbol(&buf, 2, y), "┃");
        assert_eq!(symbol(&buf, 10, y), "┃");
    }
    for (x, y) in [(2, 2), (10, 2), (10, 5), (2, 5), (1, 2), (11, 2), (5, 3), (2, 6)] {
        assert_eq!(symbol(&buf, x, y), " ");
    }
}

#[test]
fn line_draws_between_ends_either_way() {
    let mut a = blank();
    let mut b = blank();
    draw_line(&mut a, &Position::new(7, 1), &Position::new(3, 1), Direction::Horizontal);
    draw_line(&mut b, &Position::new(3, 1), &Position::new(7, 1), Direction::Horizontal);
    assert_eq!(a, b);
    assert_eq!(symbol(&a, 4, 1), "━");
    assert_eq!(symbol(&a, 6, 1), "━");
    assert_eq!(symbol(&a, 3, 1), " ");
    assert_eq!(symbol(&a, 7, 1), " ");
}

#[test]
fn short_and_zero_lines_paint_nothing() {
    let mut buf = blank();
    draw_line(&mut buf, &Position::new(0, 0), &Position::new(0, 0), Direction::Horizontal);
    draw_line(&mut buf, &Position::new(0, 0), &Position::new(0, 0), Direction::Vertical);
    draw_line(&mut buf, &Position::new(4, 4), &Position::new(5, 4), Direction::Horizontal);
    draw_line(&mut buf, &Position::new(4, 5), &Position::new(4, 4), Direction::Vertical);
    assert_eq!(buf, blank());
}

#[test]
fn stamps_outside_the_buffer_are_skipped() {
    let mut buf = blank();
    render_shape(&rect((15, 8), (30, 8), (30, 12), (15, 12)), &mut buf);
    assert_eq!(symbol(&buf, 16, 8), "━");
    assert_eq!(symbol(&buf, 19, 8), "━");
    assert_eq!(symbol(&buf, 15, 9), "┃");
}

#[test]
fn far_corner_lines_do_not_overflow() {
    let mut buf = blank();
    draw_line(&mut buf, &Position::new(u16::MAX, 3), &Position::new(u16::MAX - 3, 3), Direction::Horizontal);
    assert_eq!(buf, blank());
}

#[test]
fn line_shape_paints_nothing() {
    let mut buf = blank();
    let line = Shape::Line { p1: Position::new(1, 1), p2: Position::new(4, 4), p3: Position::new(8, 1) };
    render_shape(&line, &mut buf);
    assert_eq!(buf, blank());
}

#[test]
fn classify_events() {
    let esc = key(KeyCode::Esc, KeyKind::Press);
    assert_eq!(classify(InputEvent::Key(esc)), Some(TrawEvent::Keypress(esc)));
    assert_eq!(classify(InputEvent::Key(key(KeyCode::Char('a'), KeyKind::Repeat))), None);
    assert_eq!(classify(InputEvent::Key(key(KeyCode::Esc, KeyKind::Release))), None);
    let m = mouse(MouseKind::ScrollUp, 1, 2);
    assert_eq!(classify(InputEvent::Mouse(m)), Some(TrawEvent::Mouse(m)));
    assert_eq!(classify(InputEvent::Resize(80, 24)), Some(TrawEvent::Resize(80, 24)));
    assert_eq!(classify(InputEvent::Other), None);
}

#[test]
fn producer_rounds() {
    assert_eq!(producer_step(Signal::Closed), ProducerAction::Stop);
    assert_eq!(producer_step(Signal::TickElapsed), ProducerAction::Emit(TrawEvent::Tick));
    assert_eq!(producer_step(Signal::InputFailed), ProducerAction::Skip);
    assert_eq!(producer_step(Signal::Input(InputEvent::Other)), ProducerAction::Skip);
    assert_eq!(
        producer_step(Signal::Input(InputEvent::Resize(10, 20))),
        ProducerAction::Emit(TrawEvent::Resize(10, 20))
    );
}

#[test]
fn tick_interval() {
    assert_eq!(tick_interval_ms(60), 16);
    assert_eq!(tick_interval_ms(1), 1000);
    assert_eq!(tick_interval_ms(2000), 0);
}

#[test]
fn receiving() {
    assert_eq!(received(Some(TrawEvent::Tick)), Ok(TrawEvent::Tick));
    assert_eq!(received(None), Err(TrawError::SourceClosed));
}

#[test]
fn exit_key_terminates_and_later_events_are_ignored() {
    let mut app = Traw::new();
    let queued = vec![
        TrawEvent::Keypress(key(KeyCode::Esc, KeyKind::Press)),
        TrawEvent::Mouse(mouse(MouseKind::Drag(MouseButton::Left), 1, 1)),
        TrawEvent::Tick,
    ];
    let mut taken = 0;
    let mut commands = Vec::new();
    for e in queued {
        if app.exit {
            break;
        }
        commands.push(app.handle(e));
        taken += 1;
    }
    assert_eq!(taken, 1);
    assert_eq!(commands, vec![Command::Restore]);
    assert!(app.exit);
    assert_eq!(app.handle(TrawEvent::Mouse(mouse(MouseKind::Drag(MouseButton::Left), 1, 1))), Command::Nothing);
    assert_eq!(app.handle(TrawEvent::Tick), Command::Nothing);
    assert!(!app.state.dragging);
}

#[test]
fn controller_dispatch() {
    let mut app = Traw::new();
    assert_eq!(app.handle(TrawEvent::Tick), Command::Render);
    assert_eq!(app.handle(TrawEvent::Keypress(key(KeyCode::Char('q'), KeyKind::Press))), Command::Nothing);
    assert_eq!(app.handle(TrawEvent::Resize(100, 40)), Command::Nothing);
    assert_eq!(app.handle(TrawEvent::Mouse(mouse(MouseKind::Drag(MouseButton::Left), 1, 1))), Command::Nothing);
    assert_eq!(app.handle(TrawEvent::Mouse(mouse(MouseKind::Drag(MouseButton::Left), 4, 3))), Command::Nothing);
    assert_eq!(app.handle(TrawEvent::Mouse(mouse(MouseKind::Up(MouseButton::Left), 4, 3))), Command::Nothing);
    assert!(!app.exit);
    assert_eq!(app.state.shapes, vec![rect((1, 1), (4, 1), (4, 3), (1, 3))]);
    app.exit();
    assert!(app.exit);
}
