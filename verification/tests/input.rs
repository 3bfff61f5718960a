use piston2d::input::{Button, ControllerButton, ControllerHat, HatState};

fn one_of_each() -> [Button; 4] {
    [
        Button::Keyboard(0x61),
        Button::Mouse(1),
        Button::Controller(ControllerButton { id: 2, button: 3 }),
        Button::Hat(ControllerHat { id: 2, state: HatState::LeftUp, which: 1 }),
    ]
}

#[test]
fn is_key_holds_of_keys_only() {
    let answers: Vec<bool> = one_of_each().iter().map(|b| b.is_key()).collect();
    assert_eq!(answers, vec![true, false, false, false]);
}

#[test]
fn is_mouse_holds_of_mouse_buttons_only() {
    let answers: Vec<bool> = one_of_each().iter().map(|b| b.is_mouse()).collect();
    assert_eq!(answers, vec![false, true, false, false]);
}

#[test]
fn is_controller_holds_of_controller_buttons_only() {
    let answers: Vec<bool> = one_of_each().iter().map(|b| b.is_controller()).collect();
    assert_eq!(answers, vec![false, false, true, false]);
}

#[test]
fn is_hat_holds_of_hats_only() {
    let answers: Vec<bool> = one_of_each().iter().map(|b| b.is_hat()).collect();
    assert_eq!(answers, vec![false, false, false, true]);
}

#[test]
fn every_button_is_of_exactly_one_kind() {
    for b in one_of_each().iter() {
        let kinds = [b.is_key(), b.is_mouse(), b.is_controller(), b.is_hat()];
        assert_eq!(kinds.iter().filter(|k| **k).count(), 1);
    }
}

#[test]
fn value_is_the_number_of_a_key_or_mouse_button() {
    assert_eq!(Button::Keyboard(0x61).value(), Some(0x61));
    assert_eq!(Button::Keyboard(0x4000_011A).value(), Some(0x4000_011A));
    assert_eq!(Button::Mouse(1).value(), Some(1));
    assert_eq!(Button::Mouse(0).value(), Some(0));
}

#[test]
fn value_of_a_controller_button_or_hat_is_none() {
    assert_eq!(Button::Controller(ControllerButton { id: 0, button: 3 }).value(), None);
    assert_eq!(
        Button::Hat(ControllerHat { id: 0, state: HatState::Up, which: 1 }).value(),
        None
    );
}

#[test]
fn a_key_and_a_mouse_button_may_share_a_value() {
    assert_eq!(Button::Keyboard(8).value(), Button::Mouse(8).value());
    assert_ne!(Button::Keyboard(8), Button::Mouse(8));
}
