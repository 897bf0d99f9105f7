use character_controller::input::{input_actions, keyboard_direction, keyboard_input};
use character_controller::movement::MovementAction;

#[test]
fn keyboard_direction_values() {
    assert_eq!(keyboard_direction(false, false), 0);
    assert_eq!(keyboard_direction(true, false), -1);
    assert_eq!(keyboard_direction(false, true), 1);
    assert_eq!(keyboard_direction(true, true), 0);
}

#[test]
fn keys_that_cancel_give_no_move() {
    assert_eq!(keyboard_input(true, true, false), vec![]);
    assert_eq!(keyboard_input(true, true, true), vec![MovementAction::Jump]);
}

#[test]
fn move_comes_before_jump() {
    assert_eq!(keyboard_input(false, true, true), vec![MovementAction::Move, MovementAction::Jump]);
    assert_eq!(input_actions(true, true), vec![MovementAction::Move, MovementAction::Jump]);
    assert_eq!(input_actions(true, false), vec![MovementAction::Move]);
    assert_eq!(input_actions(false, false), vec![]);
}
