use imperium::input::{
    ElementState, Event, InputError, MouseButton, MovementState, MovementStateHandler, Trigger,
    TriggerType,
};

fn key_down(code: u32) -> Event {
    Event::KeyboardInput { virtual_keycode: Some(code), state: ElementState::Pressed }
}

fn key_up(code: u32) -> Event {
    Event::KeyboardInput { virtual_keycode: Some(code), state: ElementState::Released }
}

#[test]
fn movement_state_starts_inactive() {
    let state = MovementState::new(
        "jump".to_string(),
        Trigger::KeyTrigger(32, ElementState::Pressed),
        TriggerType::Once,
    );
    assert!(!state.triggered());
}

#[test]
fn set_active_raises_both_flags_and_tick_consumes_activation() {
    let mut state = MovementState::new(
        "jump".to_string(),
        Trigger::KeyTrigger(32, ElementState::Pressed),
        TriggerType::Once,
    );
    state.set_active(true);
    assert!(state.triggered());
    // Still activated this frame: the trigger survives the tick.
    state.tick();
    assert!(state.triggered());
    // Not activated next frame: a Once trigger drops.
    state.tick();
    assert!(!state.triggered());
}

#[test]
fn toggle_triggers_keep_their_value_across_ticks() {
    let mut state = MovementState::new(
        "walk".to_string(),
        Trigger::KeyTrigger(17, ElementState::Pressed),
        TriggerType::Toggle,
    );
    state.set_active(true);
    state.tick();
    state.tick();
    assert!(state.triggered());
}

#[test]
fn handler_feeds_key_events_to_matching_states() {
    let mut handler = MovementStateHandler::new();
    handler.add_state(MovementState::new(
        "jump".to_string(),
        Trigger::KeyTrigger(32, ElementState::Pressed),
        TriggerType::Toggle,
    ));
    handler.add_state(MovementState::new(
        "fire".to_string(),
        Trigger::MouseButtonTrigger(MouseButton::Left, ElementState::Pressed),
        TriggerType::Toggle,
    ));

    handler.handle_events(&vec![key_down(32)]);
    assert_eq!(handler.is_triggered("jump".to_string()), Ok(true));
    assert_eq!(handler.is_triggered("fire".to_string()), Ok(false));

    // Releasing the key deactivates the matching state.
    handler.handle_events(&vec![key_up(32)]);
    assert_eq!(handler.is_triggered("jump".to_string()), Ok(false));

    // A mouse press reaches the mouse-triggered state.
    handler.handle_events(&vec![Event::MouseInput {
        button: MouseButton::Left,
        state: ElementState::Pressed,
    }]);
    assert_eq!(handler.is_triggered("fire".to_string()), Ok(true));
}

#[test]
fn once_trigger_drops_after_a_frame_without_its_key() {
    let mut handler = MovementStateHandler::new();
    handler.add_state(MovementState::new(
        "jump".to_string(),
        Trigger::KeyTrigger(32, ElementState::Pressed),
        TriggerType::Once,
    ));
    handler.handle_events(&vec![key_down(32)]);
    assert_eq!(handler.is_triggered("jump".to_string()), Ok(true));
    // Next frame brings no key events: the Once trigger drops.
    handler.handle_events(&vec![]);
    assert_eq!(handler.is_triggered("jump".to_string()), Ok(false));
}

#[test]
fn cursor_moves_update_the_position_last_wins() {
    let mut handler = MovementStateHandler::new();
    handler.handle_events(&vec![
        Event::CursorMoved { x: 10, y: 20 },
        Event::CursorMoved { x: 30, y: 40 },
    ]);
    assert_eq!(handler.cursor_pos.x, 30);
    assert_eq!(handler.cursor_pos.y, 40);
}

#[test]
fn unknown_state_ids_are_reported() {
    let handler = MovementStateHandler::new();
    let err = handler.is_triggered("missing".to_string()).unwrap_err();
    assert_eq!(err, InputError::StateNotFound);
    assert_eq!(err.message(), "Failed to find state with the specified id.");
}
