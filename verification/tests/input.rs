use slimeu::input::{Button, ButtonsState};

fn sample(down: &[Button]) -> [bool; 6] {
    let mut bits = [false; 6];
    for button in down {
        bits[button.index()] = true;
    }
    bits
}

#[test]
fn buttons_are_numbered_in_declaration_order() {
    assert_eq!(Button::Left.index(), 0);
    assert_eq!(Button::Right.index(), 1);
    assert_eq!(Button::Up.index(), 2);
    assert_eq!(Button::Down.index(), 3);
    assert_eq!(Button::Jump.index(), 4);
    assert_eq!(Button::Attack.index(), 5);
}

#[test]
fn fresh_state_has_nothing_pressed() {
    let state = ButtonsState::new();
    assert!(!state.is_pressed(Button::Jump));
    assert!(!state.pressed(Button::Jump));
    assert!(!state.released(Button::Jump));
}

#[test]
fn button_down_is_pressed_once_and_held_after() {
    let mut state = ButtonsState::new();
    state.update(&sample(&[Button::Jump]));
    assert!(state.is_pressed(Button::Jump));
    assert!(state.pressed(Button::Jump));
    assert!(!state.released(Button::Jump));
    state.update(&sample(&[Button::Jump]));
    assert!(state.is_pressed(Button::Jump));
    assert!(!state.pressed(Button::Jump));
    assert!(!state.released(Button::Jump));
}

#[test]
fn button_up_is_released_once() {
    let mut state = ButtonsState::new();
    state.update(&sample(&[Button::Attack]));
    state.update(&sample(&[]));
    assert!(!state.is_pressed(Button::Attack));
    assert!(state.released(Button::Attack));
    state.update(&sample(&[]));
    assert!(!state.released(Button::Attack));
}

#[test]
fn buttons_do_not_disturb_each_other() {
    let mut state = ButtonsState::new();
    state.update(&sample(&[Button::Left, Button::Attack]));
    assert!(state.is_pressed(Button::Left));
    assert!(state.is_pressed(Button::Attack));
    assert!(!state.is_pressed(Button::Right));
    assert!(!state.is_pressed(Button::Up));
    assert!(!state.is_pressed(Button::Down));
    assert!(!state.is_pressed(Button::Jump));
}

#[test]
fn history_older_than_eight_samples_is_forgotten() {
    let mut state = ButtonsState::new();
    state.update(&sample(&[Button::Up]));
    for _ in 0..8 {
        state.update(&sample(&[]));
    }
    assert!(!state.is_pressed(Button::Up));
    state.update(&sample(&[Button::Up]));
    assert!(state.pressed(Button::Up));
}
