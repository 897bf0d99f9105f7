use vstd::prelude::*;

use crate::movement::MovementAction;

verus! {

/// Net horizontal keyboard input: one step right, one step left, or none.
pub open spec fn direction_spec(left: bool, right: bool) -> int {
    (if right { 1int } else { 0int }) - (if left { 1int } else { 0int })
}

/// The actions of one input source in one tick: a `Move` when it gives
/// horizontal input, then a `Jump` when its jump button went down this tick.
pub open spec fn actions_spec(moved: bool, jump_just_pressed: bool) -> Seq<MovementAction> {
    (if moved {
        seq![MovementAction::Move]
    } else {
        Seq::empty()
    }) + (if jump_just_pressed {
        seq![MovementAction::Jump]
    } else {
        Seq::empty()
    })
}

/// The net horizontal direction of the left and right keys.
pub fn keyboard_direction(left: bool, right: bool) -> (r: i8)
    ensures
        r as int == direction_spec(left, right),
{
    let l: i8 = if left { 1 } else { 0 };
    let r: i8 = if right { 1 } else { 0 };
    r - l
}

/// The actions of one input source in one tick.
pub fn input_actions(moved: bool, jump_just_pressed: bool) -> (r: Vec<MovementAction>)
    ensures
        r@ == actions_spec(moved, jump_just_pressed),
{
    let mut r: Vec<MovementAction> = Vec::new();
    if moved {
        r.push(MovementAction::Move);
    }
    if jump_just_pressed {
        r.push(MovementAction::Jump);
    }
    proof {
        assert(r@ =~= actions_spec(moved, jump_just_pressed));
    }
    r
}

/// The keyboard's actions in one tick: a `Move` unless the left and right
/// keys cancel out, then a `Jump` when the jump key went down this tick. The
/// `Move`'s amount is `keyboard_direction(left, right)`.
pub fn keyboard_input(left: bool, right: bool, jump_just_pressed: bool) -> (r: Vec<MovementAction>)
    ensures
        r@ == actions_spec(direction_spec(left, right) != 0, jump_just_pressed),
{
    let direction = keyboard_direction(left, right);
    input_actions(direction != 0, jump_just_pressed)
}

} // verus!
