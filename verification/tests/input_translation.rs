use bevy_doryen::input::{DoryenInput, InputSnapshot};

fn snapshot() -> InputSnapshot {
    InputSnapshot {
        keys_down: vec!["Enter".to_owned(), "ShiftLeft".to_owned()],
        keys_pressed: vec!["Enter".to_owned()],
        keys_released: vec!["Escape".to_owned()],
        mouse_buttons_down: vec![1, 2],
        mouse_position: (17, 9),
        close_requested: true,
        fps: 60,
        average_fps: 59,
    }
}

#[test]
fn unlistened_buttons_never_appear_pressed() {
    let mut input = DoryenInput::default();
    let listeners: Vec<usize> = vec![0, 2];
    input.handle_input(&listeners, snapshot());
    // button 1 is down in the snapshot but not listened for
    assert!(!input.mouse_button(1));
    // button 0 is listened for but not down
    assert!(!input.mouse_button(0));
    // button 2 is both
    assert!(input.mouse_button(2));
    assert_eq!(input.mouse_buttons_pressed, vec![2]);
}

#[test]
fn snapshot_is_taken_over_verbatim() {
    let mut input = DoryenInput::default();
    let listeners: Vec<usize> = vec![0, 1, 2];
    input.handle_input(&listeners, snapshot());
    assert!(input.key(&"Enter".to_owned()));
    assert!(input.key(&"ShiftLeft".to_owned()));
    assert!(!input.key(&"Escape".to_owned()));
    assert!(input.key_pressed(&"Enter".to_owned()));
    assert!(input.key_released(&"Escape".to_owned()));
    assert!(!input.key_pressed(&"ShiftLeft".to_owned()));
    assert_eq!(input.mouse_position(), (17, 9));
    assert!(input.close_requested());
}

#[test]
fn input_is_overwritten_not_merged() {
    let mut input = DoryenInput::default();
    let listeners: Vec<usize> = vec![0, 1, 2];
    input.handle_input(&listeners, snapshot());
    let empty = InputSnapshot {
        keys_down: Vec::new(),
        keys_pressed: Vec::new(),
        keys_released: Vec::new(),
        mouse_buttons_down: Vec::new(),
        mouse_position: (3, 3),
        close_requested: false,
        fps: 60,
        average_fps: 59,
    };
    input.handle_input(&listeners, empty);
    assert!(!input.key(&"Enter".to_owned()));
    assert!(!input.mouse_button(2));
    assert_eq!(input.mouse_position(), (3, 3));
    assert!(!input.close_requested());
}
