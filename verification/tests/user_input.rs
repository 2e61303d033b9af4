use game_of_life::user_input::{
    slice_contains, CodeList, ElementState, InputEvent, KeyboardInput, MouseButton, MouseInput,
    UserInput,
};

#[test]
fn new_list_is_empty() {
    let list = CodeList::new();
    assert_eq!(list.len(), 0);
    assert_eq!(list.to_vec(), Vec::<u32>::new());
    assert_eq!(list.position(7), None);
    assert!(!list.contains(7));
}

#[test]
fn pressed_key_is_pressed_and_held() {
    let mut input = UserInput::new();
    input.record_input(ElementState::Pressed, 30, &[]);
    input.record_input(ElementState::Pressed, 31, &[]);
    assert_eq!(input.kb_input.pressed_keys.to_vec(), vec![30, 31]);
    assert_eq!(input.kb_input.held_keys.to_vec(), vec![30, 31]);
    assert_eq!(input.kb_input.pressed_keys.len(), 2);
    assert_eq!(input.kb_input.held_keys.position(31), Some(1));
    assert!(input.kb_input.is_pressed(30));
    assert!(input.kb_input.is_held(31));
    assert!(!input.kb_input.is_released(30));
    assert!(!input.kb_input.is_pressed(32));
}

#[test]
fn held_key_is_not_pressed_again() {
    let mut input = UserInput::new();
    input.record_input(ElementState::Pressed, 30, &[]);
    input.record_input(ElementState::Pressed, 30, &[]);
    assert_eq!(input.kb_input.pressed_keys.to_vec(), vec![30]);
    assert_eq!(input.kb_input.held_keys.to_vec(), vec![30]);
}

#[test]
fn key_pressed_last_frame_is_not_pressed_again() {
    let mut input = UserInput::new();
    input.record_input(ElementState::Pressed, 30, &[30, 12]);
    assert_eq!(input.kb_input.pressed_keys.to_vec(), Vec::<u32>::new());
    assert_eq!(input.kb_input.held_keys.to_vec(), Vec::<u32>::new());
}

#[test]
fn released_key_leaves_the_held_keys() {
    let mut input = UserInput::new();
    input.record_input(ElementState::Pressed, 30, &[]);
    input.record_input(ElementState::Pressed, 31, &[]);
    input.record_input(ElementState::Pressed, 32, &[]);
    input.record_input(ElementState::Released, 31, &[]);
    assert_eq!(input.kb_input.held_keys.to_vec(), vec![30, 32]);
    assert_eq!(input.kb_input.released_keys.to_vec(), vec![31]);
    assert_eq!(input.kb_input.pressed_keys.to_vec(), vec![30, 31, 32]);
    assert!(input.kb_input.is_released(31));
    assert!(!input.kb_input.is_held(31));
    input.record_input(ElementState::Released, 99, &[]);
    assert_eq!(input.kb_input.held_keys.to_vec(), vec![30, 32]);
    assert_eq!(input.kb_input.released_keys.to_vec(), vec![31]);
}

#[test]
fn begin_frame_remembers_and_clears() {
    let mut input = UserInput::new();
    input.handle_event(InputEvent::CloseRequested, &UserInput::new().begin_frame());
    assert!(input.end_requested);
    input.record_input(ElementState::Pressed, 30, &[]);
    input.record_input(ElementState::Pressed, 31, &[]);
    input.record_input(ElementState::Released, 30, &[]);
    input.receive_character('x');
    input.mouse_input.press(MouseButton::Left, &[false; 5]);
    let memory = input.begin_frame();
    assert_eq!(memory.keys_pressed_last_frame, vec![30, 31]);
    assert_eq!(memory.mouse_pressed_last_frame, [true, false, false, false, false]);
    assert!(!input.end_requested);
    assert_eq!(input.kb_input.pressed_keys.to_vec(), Vec::<u32>::new());
    assert_eq!(input.kb_input.released_keys.to_vec(), Vec::<u32>::new());
    assert_eq!(input.kb_input.received_char.to_vec(), Vec::<u32>::new());
    assert_eq!(input.kb_input.held_keys.to_vec(), vec![31]);
    assert_eq!(input.mouse_input.mouse_pressed, [false; 5]);
    assert_eq!(input.mouse_input.mouse_held, [true, false, false, false, false]);
}

#[test]
fn typed_characters_skip_delete_and_backspace() {
    let mut input = UserInput::new();
    input.receive_character('a');
    input.receive_character('\u{7f}');
    input.receive_character('\u{8}');
    input.receive_character('é');
    assert_eq!(input.kb_input.received_char.to_vec(), vec!['a' as u32, 'é' as u32]);
}

#[test]
fn mouse_press_marks_pressed_and_held() {
    let mut mouse = MouseInput::new();
    mouse.press(MouseButton::Right, &[false; 5]);
    assert_eq!(mouse.mouse_pressed, [false, true, false, false, false]);
    assert_eq!(mouse.mouse_held, [false, true, false, false, false]);
    assert!(mouse.is_pressed(MouseButton::Right));
    assert!(mouse.is_held(MouseButton::Right));
    assert!(!mouse.is_released(MouseButton::Right));
    assert!(!mouse.is_pressed(MouseButton::Left));
    mouse.press(MouseButton::Generic(4), &[false, false, false, false, true]);
    assert_eq!(mouse.mouse_pressed, [false, true, false, false, false]);
}

#[test]
fn mouse_release_marks_released_once() {
    let mut mouse = MouseInput::new();
    mouse.release(MouseButton::Middle);
    assert_eq!(mouse.mouse_released, [false; 5]);
    mouse.press(MouseButton::Middle, &[false; 5]);
    mouse.release(MouseButton::Middle);
    assert_eq!(mouse.mouse_pressed, [false; 5]);
    assert_eq!(mouse.mouse_held, [false; 5]);
    assert_eq!(mouse.mouse_released, [false, false, true, false, false]);
    assert!(mouse.is_released(MouseButton::Middle));
    mouse.clear();
    assert_eq!(mouse.mouse_released, [false; 5]);
}

#[test]
fn taken_mouse_hides_presses_and_counts_as_released() {
    let mut mouse = MouseInput::new();
    mouse.press(MouseButton::Left, &[false; 5]);
    mouse.mouse_input_taken = true;
    assert!(!mouse.is_pressed(MouseButton::Left));
    assert!(!mouse.is_held(MouseButton::Left));
    assert!(mouse.is_released(MouseButton::Left));
    mouse.clear();
    assert!(!mouse.mouse_input_taken);
    assert!(mouse.is_held(MouseButton::Left));
}

#[test]
fn mouse_button_index() {
    assert_eq!(usize::from(MouseButton::Left), 0);
    assert_eq!(usize::from(MouseButton::Right), 1);
    assert_eq!(usize::from(MouseButton::Middle), 2);
    assert_eq!(usize::from(MouseButton::Generic(4)), 4);
}

#[test]
fn handle_event_routes_every_kind() {
    let mut input = UserInput::new();
    let memory = input.begin_frame();
    input.handle_event(InputEvent::Key { state: ElementState::Pressed, code: 5 }, &memory);
    input.handle_event(
        InputEvent::Button { state: ElementState::Pressed, button: MouseButton::Left },
        &memory,
    );
    input.handle_event(InputEvent::ReceivedCharacter('q'), &memory);
    input.handle_event(InputEvent::CloseRequested, &memory);
    assert!(input.end_requested);
    assert_eq!(input.kb_input.held_keys.to_vec(), vec![5]);
    assert_eq!(input.kb_input.received_char.to_vec(), vec!['q' as u32]);
    assert!(input.mouse_input.is_held(MouseButton::Left));
    let next = input.begin_frame();
    input.handle_event(InputEvent::Key { state: ElementState::Released, code: 5 }, &next);
    input.handle_event(
        InputEvent::Button { state: ElementState::Released, button: MouseButton::Left },
        &next,
    );
    assert_eq!(input.kb_input.held_keys.to_vec(), Vec::<u32>::new());
    assert_eq!(input.kb_input.released_keys.to_vec(), vec![5]);
    assert!(input.mouse_input.is_released(MouseButton::Left));
    assert!(!input.mouse_input.is_held(MouseButton::Left));
}

#[test]
fn button_pressed_last_frame_is_not_pressed_again() {
    let mut input = UserInput::new();
    let first = input.begin_frame();
    input.handle_event(
        InputEvent::Button { state: ElementState::Pressed, button: MouseButton::Left },
        &first,
    );
    let second = input.begin_frame();
    input.handle_event(
        InputEvent::Button { state: ElementState::Pressed, button: MouseButton::Left },
        &second,
    );
    assert!(!input.mouse_input.is_pressed(MouseButton::Left));
    assert!(input.mouse_input.is_held(MouseButton::Left));
}

#[test]
fn lists_hold_ten_codes() {
    let mut input = UserInput::new();
    for code in 0..10 {
        input.record_input(ElementState::Pressed, code, &[]);
    }
    assert_eq!(input.kb_input.held_keys.len(), 10);
    assert_eq!(input.kb_input.held_keys.to_vec(), (0..10).collect::<Vec<u32>>());
    input.record_input(ElementState::Released, 0, &[]);
    assert_eq!(input.kb_input.held_keys.to_vec(), (1..10).collect::<Vec<u32>>());
}

#[test]
fn keyboard_clear_keeps_held_keys() {
    let mut input = UserInput::new();
    input.record_input(ElementState::Pressed, 3, &[]);
    let mut keys: KeyboardInput = input.kb_input;
    keys.clear();
    assert_eq!(keys.pressed_keys.to_vec(), Vec::<u32>::new());
    assert_eq!(keys.held_keys.to_vec(), vec![3]);
}

#[test]
fn slice_contains_finds_codes() {
    assert!(slice_contains(&[4, 8, 15], 15));
    assert!(!slice_contains(&[4, 8, 15], 16));
    assert!(!slice_contains(&[], 0));
}

#[test]
fn events_are_accepted_while_the_lists_have_room() {
    let mut input = UserInput::new();
    let memory = input.begin_frame();
    for code in 0..10 {
        let event = InputEvent::Key { state: ElementState::Pressed, code };
        assert!(input.can_take(event, &memory));
        input.handle_event(event, &memory);
    }
    // The lists are full: a new key has no room, a held one changes nothing.
    assert!(!input.can_take(InputEvent::Key { state: ElementState::Pressed, code: 10 }, &memory));
    assert!(input.can_take(InputEvent::Key { state: ElementState::Pressed, code: 3 }, &memory));
    assert!(!input.can_record(ElementState::Pressed, 10, &[]));
    assert!(input.can_record(ElementState::Pressed, 10, &[10]));
    assert!(input.can_record(ElementState::Released, 3, &[]));
    assert!(input.can_take(InputEvent::CloseRequested, &memory));
}

#[test]
fn released_keys_need_room_only_when_held() {
    let mut input = UserInput::new();
    for code in 0..10 {
        input.record_input(ElementState::Pressed, code, &[]);
        input.record_input(ElementState::Released, code, &[]);
    }
    assert_eq!(input.kb_input.released_keys.len(), 10);
    input.kb_input.pressed_keys = CodeList::new();
    input.record_input(ElementState::Pressed, 42, &[]);
    assert!(!input.can_record(ElementState::Released, 42, &[]));
    assert!(input.can_record(ElementState::Released, 43, &[]));
}

#[test]
fn characters_are_accepted_while_there_is_room() {
    let mut input = UserInput::new();
    for _ in 0..10 {
        assert!(input.can_receive('a'));
        input.receive_character('a');
    }
    assert!(!input.can_receive('a'));
    assert!(input.can_receive('\u{8}'));
    assert!(input.can_receive('\u{7f}'));
    let memory = input.begin_frame();
    assert!(input.can_take(InputEvent::ReceivedCharacter('a'), &memory));
}

#[test]
fn buttons_outside_the_tables_are_not_accepted() {
    let mut input = UserInput::new();
    let memory = input.begin_frame();
    for state in [ElementState::Pressed, ElementState::Released] {
        assert!(input.can_take(InputEvent::Button { state, button: MouseButton::Middle }, &memory));
        assert!(input.can_take(InputEvent::Button { state, button: MouseButton::Generic(4) }, &memory));
        assert!(!input.can_take(InputEvent::Button { state, button: MouseButton::Generic(5) }, &memory));
    }
}
