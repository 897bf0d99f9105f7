use character_controller::contact::Grounded;
use character_controller::movement::{
    kick_from, movement, CharacterController, Kick, MovementAction, VelocityUpdate,
};

#[test]
fn new_controller_has_no_history() {
    let c = CharacterController::new();
    assert_eq!(c.wall_jumps, 0);
    assert_eq!(c.last_wall, None);
}

#[test]
fn jump_in_the_air_changes_nothing() {
    let mut c = CharacterController { wall_jumps: 2, last_wall: Some(Grounded::LeftWall) };
    assert_eq!(c.jump(Grounded::Airborne), VelocityUpdate::Unchanged);
    assert_eq!(c, CharacterController { wall_jumps: 2, last_wall: Some(Grounded::LeftWall) });
}

#[test]
fn ground_jump_resets_history() {
    let mut c = CharacterController { wall_jumps: 3, last_wall: Some(Grounded::RightWall) };
    assert_eq!(c.jump(Grounded::Ground), VelocityUpdate::Jump);
    assert_eq!(c.wall_jumps, 0);
    assert_eq!(c.last_wall, None);
}

#[test]
fn second_jump_off_same_right_wall_is_dropped() {
    let mut c = CharacterController::new();
    assert_eq!(c.jump(Grounded::RightWall), VelocityUpdate::WallJump(Kick::Left));
    assert_eq!(c.wall_jumps, 1);
    assert_eq!(c.last_wall, Some(Grounded::RightWall));
    assert_eq!(c.jump(Grounded::RightWall), VelocityUpdate::Unchanged);
    assert_eq!(c.wall_jumps, 1);
}

#[test]
fn ping_pong_between_walls() {
    let mut c = CharacterController::new();
    assert_eq!(c.jump(Grounded::LeftWall), VelocityUpdate::WallJump(Kick::Right));
    assert_eq!(c.respond(Grounded::Airborne, MovementAction::Move), VelocityUpdate::Accelerate);
    assert_eq!(c.jump(Grounded::RightWall), VelocityUpdate::WallJump(Kick::Left));
    assert_eq!(c.jump(Grounded::LeftWall), VelocityUpdate::WallJump(Kick::Right));
    assert_eq!(c.wall_jumps, 3);
    assert_eq!(c.last_wall, Some(Grounded::LeftWall));
}

#[test]
fn wall_jump_count_saturates() {
    let mut c = CharacterController { wall_jumps: u32::MAX, last_wall: Some(Grounded::LeftWall) };
    assert_eq!(c.jump(Grounded::RightWall), VelocityUpdate::WallJump(Kick::Left));
    assert_eq!(c.wall_jumps, u32::MAX);
    assert_eq!(c.last_wall, Some(Grounded::RightWall));
}

#[test]
fn move_accelerates_in_any_contact() {
    for contact in [Grounded::Airborne, Grounded::Ground, Grounded::LeftWall, Grounded::RightWall] {
        let mut c = CharacterController::new();
        assert_eq!(c.respond(contact, MovementAction::Move), VelocityUpdate::Accelerate);
        assert_eq!(c, CharacterController::new());
    }
}

#[test]
fn kicks_point_away_from_the_wall() {
    assert_eq!(kick_from(Grounded::LeftWall), Kick::Right);
    assert_eq!(kick_from(Grounded::RightWall), Kick::Left);
}

#[test]
fn movement_applies_every_event_to_every_controller() {
    let mut controllers = vec![CharacterController::new(), CharacterController::new()];
    let contacts = vec![Grounded::RightWall, Grounded::Ground];
    let events = vec![MovementAction::Jump, MovementAction::Move, MovementAction::Jump];
    let r = movement(&mut controllers, &contacts, &events);
    assert_eq!(
        r,
        vec![
            vec![VelocityUpdate::WallJump(Kick::Left), VelocityUpdate::Jump],
            vec![VelocityUpdate::Accelerate, VelocityUpdate::Accelerate],
            vec![VelocityUpdate::Unchanged, VelocityUpdate::Jump],
        ]
    );
    assert_eq!(controllers[0], CharacterController { wall_jumps: 1, last_wall: Some(Grounded::RightWall) });
    assert_eq!(controllers[1], CharacterController::new());
}

#[test]
fn movement_with_no_events() {
    let mut controllers = vec![CharacterController { wall_jumps: 1, last_wall: Some(Grounded::LeftWall) }];
    let r = movement(&mut controllers, &vec![Grounded::LeftWall], &vec![]);
    assert!(r.is_empty());
    assert_eq!(controllers[0], CharacterController { wall_jumps: 1, last_wall: Some(Grounded::LeftWall) });
}
