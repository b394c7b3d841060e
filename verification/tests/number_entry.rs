use bloom::widgets::number_entry::{Appearance, Input, Interaction, Reaction, State};

type Origin = (f32, f32);

fn press(state: State<Origin>, x: f32, value: f32) -> (State<Origin>, Reaction) {
    state.update(Input::Press { over: true, origin: Some((x, value)) })
}

fn release(state: State<Origin>, display: &str) -> (State<Origin>, Reaction) {
    state.update(Input::Release { display: display.to_string() })
}

fn editing(buffer: &str, needs_focus: bool) -> State<Origin> {
    State::Editing { buffer: buffer.to_string(), needs_focus }
}

#[test]
fn the_default_state_is_idle() {
    let state: State<Origin> = State::default();
    assert!(matches!(state, State::Idle));
}

#[test]
fn a_press_over_the_field_becomes_pending() {
    let (state, reaction) = press(State::Idle, 10.0, 5.0);
    assert_eq!(reaction, Reaction::Capture);
    assert!(matches!(state, State::Pending { origin: (x, v) } if x == 10.0 && v == 5.0));
}

#[test]
fn a_press_off_the_field_is_ignored() {
    let (state, reaction) = State::<Origin>::Idle.update(Input::Press { over: false, origin: Some((1.0, 2.0)) });
    assert_eq!(reaction, Reaction::Ignored);
    assert!(matches!(state, State::Idle));
    let (state, reaction) = State::<Origin>::Idle.update(Input::Press { over: true, origin: None });
    assert_eq!(reaction, Reaction::Ignored);
    assert!(matches!(state, State::Idle));
}

#[test]
fn a_click_opens_the_editor_on_the_shown_value() {
    let (state, _) = press(State::Idle, 10.0, 5.0);
    let (state, reaction) = release(state, "5");
    assert_eq!(reaction, Reaction::OpenEditor);
    assert!(matches!(state, State::Editing { ref buffer, needs_focus: true } if buffer == "5"));
    assert_eq!(state.buffer(), "5");
}

#[test]
fn a_far_move_starts_a_drag_and_publishes() {
    let (state, _) = press(State::Idle, 10.0, 5.0);
    let (state, reaction) = state.update(Input::Move { far: true });
    assert_eq!(reaction, Reaction::PublishDrag);
    assert!(matches!(state, State::Dragging { origin: (x, v) } if x == 10.0 && v == 5.0));
    assert!(state.is_dragging());
    let (state, reaction) = state.update(Input::Move { far: false });
    assert_eq!(reaction, Reaction::PublishDrag);
    assert!(state.is_dragging());
    let (state, reaction) = release(state, "7");
    assert_eq!(reaction, Reaction::Capture);
    assert!(matches!(state, State::Idle));
}

#[test]
fn a_small_move_keeps_the_click() {
    let (state, _) = press(State::Idle, 10.0, 5.0);
    let (state, reaction) = state.update(Input::Move { far: false });
    assert_eq!(reaction, Reaction::Ignored);
    assert!(matches!(state, State::Pending { .. }));
    let (state, reaction) = release(state, "5");
    assert_eq!(reaction, Reaction::OpenEditor);
    assert!(state.is_editing());
}

#[test]
fn moves_and_releases_while_idle_are_ignored() {
    let (state, reaction) = State::<Origin>::Idle.update(Input::Move { far: true });
    assert_eq!(reaction, Reaction::Ignored);
    assert!(matches!(state, State::Idle));
    let (state, reaction) = release(state, "1");
    assert_eq!(reaction, Reaction::Ignored);
    assert!(matches!(state, State::Idle));
}

#[test]
fn the_wheel_steps_only_over_the_field() {
    let (state, reaction) = State::<Origin>::Idle.update(Input::Wheel { over: true });
    assert_eq!(reaction, Reaction::PublishWheel);
    assert!(matches!(state, State::Idle));
    let (state, reaction) = state.update(Input::Wheel { over: false });
    assert_eq!(reaction, Reaction::Ignored);
    assert!(matches!(state, State::Idle));
}

#[test]
fn a_second_press_restarts_from_the_new_origin() {
    let (state, _) = press(State::Idle, 10.0, 5.0);
    let (state, _) = state.update(Input::Move { far: true });
    let (state, reaction) = press(state, 30.0, 8.0);
    assert_eq!(reaction, Reaction::Capture);
    assert!(matches!(state, State::Pending { origin: (x, v) } if x == 30.0 && v == 8.0));
}

#[test]
fn editing_forwards_every_event() {
    let inputs: Vec<Input<Origin>> = vec![
        Input::Press { over: true, origin: Some((1.0, 1.0)) },
        Input::Release { display: "9".to_string() },
        Input::Move { far: true },
        Input::Wheel { over: true },
        Input::Other,
    ];
    for input in inputs {
        let (state, reaction) = editing("12", false).update(input);
        assert_eq!(reaction, Reaction::Forward);
        assert!(matches!(state, State::Editing { ref buffer, needs_focus: false } if buffer == "12"));
    }
}

#[test]
fn other_events_are_ignored() {
    let (state, reaction) = State::<Origin>::Dragging { origin: (0.0, 0.0) }.update(Input::Other);
    assert_eq!(reaction, Reaction::Ignored);
    assert!(state.is_dragging());
}

#[test]
fn the_buffer_is_empty_unless_editing() {
    assert_eq!(State::<Origin>::Idle.buffer(), "");
    assert_eq!(State::<Origin>::Pending { origin: (0.0, 0.0) }.buffer(), "");
    assert_eq!(editing("3.5", true).buffer(), "3.5");
}

#[test]
fn the_drag_origin_is_visible_while_pending_or_dragging() {
    assert_eq!(State::<Origin>::Pending { origin: (1.0, 2.0) }.drag_origin(), Some(&(1.0, 2.0)));
    assert_eq!(State::<Origin>::Dragging { origin: (3.0, 4.0) }.drag_origin(), Some(&(3.0, 4.0)));
    assert_eq!(State::<Origin>::Idle.drag_origin(), None);
    assert_eq!(editing("1", true).drag_origin(), None);
}

#[test]
fn focus_is_requested_once() {
    let mut state = editing("42", true);
    assert_eq!(state.take_focus_request(), Some("42".to_string()));
    assert!(matches!(state, State::Editing { ref buffer, needs_focus: false } if buffer == "42"));
    assert_eq!(state.take_focus_request(), None);
    let mut idle = State::<Origin>::Idle;
    assert_eq!(idle.take_focus_request(), None);
    assert!(matches!(idle, State::Idle));
}

#[test]
fn set_buffer_changes_only_an_editor() {
    let mut state = editing("1", true);
    state.set_buffer("12".to_string());
    assert!(matches!(state, State::Editing { ref buffer, needs_focus: true } if buffer == "12"));
    let mut pending = State::<Origin>::Pending { origin: (0.0, 0.0) };
    pending.set_buffer("12".to_string());
    assert!(matches!(pending, State::Pending { .. }));
}

#[test]
fn commit_hands_out_the_text_and_goes_idle() {
    let mut state = editing("2.5", false);
    assert_eq!(state.commit(), "2.5");
    assert!(matches!(state, State::Idle));
    let mut dragging = State::<Origin>::Dragging { origin: (0.0, 0.0) };
    assert_eq!(dragging.commit(), "");
    assert!(matches!(dragging, State::Idle));
}

#[test]
fn set_idle_leaves_anything() {
    let mut state = editing("2.5", true);
    state.set_idle();
    assert!(matches!(state, State::Idle));
}

#[test]
fn the_cursor_follows_the_state() {
    let dragging = State::<Origin>::Dragging { origin: (0.0, 0.0) };
    assert_eq!(dragging.mouse_interaction(false), Interaction::ResizingHorizontally);
    assert_eq!(dragging.mouse_interaction(true), Interaction::ResizingHorizontally);
    assert_eq!(editing("1", false).mouse_interaction(false), Interaction::Text);
    assert_eq!(State::<Origin>::Idle.mouse_interaction(true), Interaction::Text);
    assert_eq!(State::<Origin>::Idle.mouse_interaction(false), Interaction::Idle);
    assert_eq!(State::<Origin>::Pending { origin: (0.0, 0.0) }.mouse_interaction(false), Interaction::Idle);
}

#[test]
fn the_appearance_follows_the_state() {
    assert_eq!(
        State::<Origin>::Idle.appearance(false),
        Appearance { filled: false, accent_border: false, editor: false }
    );
    assert_eq!(
        State::<Origin>::Idle.appearance(true),
        Appearance { filled: true, accent_border: false, editor: false }
    );
    assert_eq!(
        State::<Origin>::Pending { origin: (0.0, 0.0) }.appearance(false),
        Appearance { filled: true, accent_border: false, editor: false }
    );
    assert_eq!(
        editing("1", false).appearance(false),
        Appearance { filled: true, accent_border: true, editor: true }
    );
}
