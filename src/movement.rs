use vstd::prelude::*;

use crate::contact::Grounded;

verus! {

/// A movement input for one tick. The horizontal amount of a `Move` takes no
/// part in any decision here, so it is carried by the caller.
#[derive(Clone, Copy, Debug, PartialEq, Eq, Structural)]
pub enum MovementAction {
    Move,
    Jump,
}

/// The horizontal direction of the kick that a wall jump gives.
#[derive(Clone, Copy, Debug, PartialEq, Eq, Structural)]
pub enum Kick {
    /// Towards negative x, away from a right wall.
    Left,
    /// Towards positive x, away from a left wall.
    Right,
}

/// How a controlled body's linear velocity changes in answer to one action.
#[derive(Clone, Copy, Debug, PartialEq, Eq, Structural)]
pub enum VelocityUpdate {
    /// The velocity stays as it is.
    Unchanged,
    /// The horizontal velocity grows by direction times acceleration times
    /// the tick's length.
    Accelerate,
    /// The vertical velocity is set to the jump impulse.
    Jump,
    /// The vertical velocity is set to the jump impulse and the horizontal
    /// velocity to half of it, in the kick's direction.
    WallJump(Kick),
}

/// The kick away from a wall.
pub open spec fn kick_from_spec(wall: Grounded) -> Kick {
    if wall == Grounded::LeftWall {
        Kick::Right
    } else {
        Kick::Left
    }
}

pub fn kick_from(wall: Grounded) -> (r: Kick)
    ensures
        r == kick_from_spec(wall),
{
    match wall {
        Grounded::LeftWall => Kick::Right,
        _ => Kick::Left,
    }
}

/// The wall-jump state of one controlled body.
#[derive(Clone, Copy, Debug, PartialEq, Eq, Structural)]
pub struct CharacterController {
    /// Wall jumps made since the last jump from the ground.
    pub wall_jumps: u32,
    /// The wall of the latest wall jump, if one was made since the last jump
    /// from the ground.
    pub last_wall: Option<Grounded>,
}

/// One more wall jump, held at the largest count a `u32` takes.
pub open spec fn count_one_more(n: u32) -> u32 {
    if n == u32::MAX {
        n
    } else {
        (n + 1) as u32
    }
}

impl CharacterController {
    /// The remembered wall is one of the two walls, and it is remembered
    /// exactly when a wall jump has happened since the last ground jump.
    pub open spec fn wf(self) -> bool {
        &&& (self.wall_jumps == 0) == self.last_wall.is_none()
        &&& match self.last_wall {
            Some(w) => w.is_wall_spec(),
            None => true,
        }
    }

    /// A jump off `wall` is allowed unless the last wall jump was off the
    /// same wall.
    pub open spec fn may_wall_jump(self, wall: Grounded) -> bool {
        self.wall_jumps == 0 || self.last_wall != Some(wall)
    }

    /// The state after a jump event while in contact `contact`.
    pub open spec fn after_jump(self, contact: Grounded) -> CharacterController {
        match contact {
            Grounded::Ground => CharacterController { wall_jumps: 0, last_wall: None },
            Grounded::LeftWall | Grounded::RightWall => if self.may_wall_jump(contact) {
                CharacterController {
                    wall_jumps: count_one_more(self.wall_jumps),
                    last_wall: Some(contact),
                }
            } else {
                self
            },
            Grounded::Airborne => self,
        }
    }

    /// The velocity change of a jump event while in contact `contact`.
    pub open spec fn jump_update(self, contact: Grounded) -> VelocityUpdate {
        match contact {
            Grounded::Ground => VelocityUpdate::Jump,
            Grounded::LeftWall | Grounded::RightWall => if self.may_wall_jump(contact) {
                VelocityUpdate::WallJump(kick_from_spec(contact))
            } else {
                VelocityUpdate::Unchanged
            },
            Grounded::Airborne => VelocityUpdate::Unchanged,
        }
    }

    /// The state after `action` while in contact `contact`.
    pub open spec fn after_action(self, contact: Grounded, action: MovementAction) -> CharacterController {
        match action {
            MovementAction::Move => self,
            MovementAction::Jump => self.after_jump(contact),
        }
    }

    /// The velocity change of `action` while in contact `contact`.
    pub open spec fn action_update(self, contact: Grounded, action: MovementAction) -> VelocityUpdate {
        match action {
            MovementAction::Move => VelocityUpdate::Accelerate,
            MovementAction::Jump => self.jump_update(contact),
        }
    }

    /// A controller that has made no wall jump.
    pub fn new() -> (r: CharacterController)
        ensures
            r.wall_jumps == 0,
            r.last_wall == None::<Grounded>,
            r.wf(),
    {
        CharacterController { wall_jumps: 0, last_wall: None }
    }

    /// Answers a jump event while in contact `contact`. From the ground the
    /// body jumps and the wall-jump history is cleared; from a wall it jumps
    /// with a kick away from the wall unless its last wall jump was off the
    /// same wall; in the air nothing happens.
    pub fn jump(&mut self, contact: Grounded) -> (r: VelocityUpdate)
        ensures
            *final(self) == old(self).after_jump(contact),
            r == old(self).jump_update(contact),
            old(self).wf() ==> final(self).wf(),
    {
        match contact {
            Grounded::Ground => {
                self.wall_jumps = 0;
                self.last_wall = None;
                VelocityUpdate::Jump
            },
            Grounded::LeftWall | Grounded::RightWall => {
                if self.wall_jumps == 0 || self.last_wall != Some(contact) {
                    self.wall_jumps = self.wall_jumps.saturating_add(1);
                    self.last_wall = Some(contact);
                    VelocityUpdate::WallJump(kick_from(contact))
                } else {
                    VelocityUpdate::Unchanged
                }
            },
            Grounded::Airborne => VelocityUpdate::Unchanged,
        }
    }

    /// Answers one movement action while in contact `contact`.
    pub fn respond(&mut self, contact: Grounded, action: MovementAction) -> (r: VelocityUpdate)
        ensures
            *final(self) == old(self).after_action(contact, action),
            r == old(self).action_update(contact, action),
            old(self).wf() ==> final(self).wf(),
    {
        match action {
            MovementAction::Move => VelocityUpdate::Accelerate,
            MovementAction::Jump => self.jump(contact),
        }
    }
}

} // verus!

verus! {

/// The state of a controller in contact `contact` after the first `n` of
/// `events`.
pub open spec fn state_after(
    c: CharacterController,
    contact: Grounded,
    events: Seq<MovementAction>,
    n: nat,
) -> CharacterController
    decreases n,
{
    if n == 0 {
        c
    } else {
        state_after(c, contact, events, (n - 1) as nat).after_action(contact, events[n - 1])
    }
}

/// Drains one tick's events in order, applying each to every controller.
/// `contacts[i]` is the contact of `controllers[i]`, fixed for the tick.
/// Returns, for each event `e` and controller `i`, the velocity change
/// `r[e][i]` that the event makes to that controller's body.
pub fn movement(
    controllers: &mut Vec<CharacterController>,
    contacts: &Vec<Grounded>,
    events: &Vec<MovementAction>,
) -> (r: Vec<Vec<VelocityUpdate>>)
    requires
        old(controllers).len() == contacts.len(),
    ensures
        final(controllers).len() == old(controllers).len(),
        forall|i: int|
            0 <= i < contacts.len() ==> #[trigger] final(controllers)[i] == state_after(
                old(controllers)[i],
                contacts[i],
                events@,
                events.len() as nat,
            ),
        r.len() == events.len(),
        forall|e: int| 0 <= e < events.len() ==> (#[trigger] r[e]).len() == contacts.len(),
        forall|e: int, i: int|
            0 <= e < events.len() && 0 <= i < contacts.len() ==> #[trigger] r[e][i]
                == state_after(old(controllers)[i], contacts[i], events@, e as nat).action_update(
                contacts[i],
                events[e],
            ),
{
    let ghost start = controllers@;
    let mut r: Vec<Vec<VelocityUpdate>> = Vec::new();
    let mut e: usize = 0;
    while e < events.len()
        invariant
            0 <= e <= events.len(),
            controllers.len() == contacts.len(),
            start.len() == contacts.len(),
            r.len() == e,
            forall|i: int|
                0 <= i < contacts.len() ==> #[trigger] controllers[i] == state_after(
                    start[i],
                    contacts[i],
                    events@,
                    e as nat,
                ),
            forall|k: int| 0 <= k < e ==> (#[trigger] r[k]).len() == contacts.len(),
            forall|k: int, i: int|
                0 <= k < e && 0 <= i < contacts.len() ==> #[trigger] r[k][i] == state_after(
                    start[i],
                    contacts[i],
                    events@,
                    k as nat,
                ).action_update(contacts[i], events[k]),
        decreases events.len() - e,
    {
        let action = events[e];
        let mut row: Vec<VelocityUpdate> = Vec::new();
        let mut i: usize = 0;
        while i < controllers.len()
            invariant
                0 <= e < events.len(),
                action == events[e as int],
                0 <= i <= controllers.len(),
                controllers.len() == contacts.len(),
                start.len() == contacts.len(),
                row.len() == i,
                forall|j: int|
                    0 <= j < i ==> #[trigger] controllers[j] == state_after(
                        start[j],
                        contacts[j],
                        events@,
                        (e + 1) as nat,
                    ),
                forall|j: int|
                    i <= j < contacts.len() ==> #[trigger] controllers[j] == state_after(
                        start[j],
                        contacts[j],
                        events@,
                        e as nat,
                    ),
                forall|j: int|
                    0 <= j < i ==> #[trigger] row[j] == state_after(
                        start[j],
                        contacts[j],
                        events@,
                        e as nat,
                    ).action_update(contacts[j], events[e as int]),
            decreases controllers.len() - i,
        {
            let mut c = controllers[i];
            let update = c.respond(contacts[i], action);
            controllers.set(i, c);
            row.push(update);
            i = i + 1;
        }
        r.push(row);
        e = e + 1;
    }
    r
}

} // verus!

verus! {

/// A jump event in the air changes nothing: neither the velocity nor the
/// controller's state.
pub proof fn lemma_no_air_jump(c: CharacterController)
    ensures
        c.action_update(Grounded::Airborne, MovementAction::Jump) == VelocityUpdate::Unchanged,
        c.after_action(Grounded::Airborne, MovementAction::Jump) == c,
{
}

/// A jump event on the ground always sets the vertical velocity to the jump
/// impulse and clears the wall-jump history, whatever that history was.
pub proof fn lemma_ground_jump_resets(c: CharacterController)
    ensures
        c.action_update(Grounded::Ground, MovementAction::Jump) == VelocityUpdate::Jump,
        c.after_action(Grounded::Ground, MovementAction::Jump).wall_jumps == 0,
        c.after_action(Grounded::Ground, MovementAction::Jump).last_wall == None::<Grounded>,
{
}

/// Two jump events in a row against the same right wall: the first, when
/// allowed, jumps with a kick to the left; the second does nothing.
pub proof fn lemma_no_repeat_wall_jump(c: CharacterController)
    requires
        c.may_wall_jump(Grounded::RightWall),
    ensures
        c.action_update(Grounded::RightWall, MovementAction::Jump) == VelocityUpdate::WallJump(
            Kick::Left,
        ),
        c.after_action(Grounded::RightWall, MovementAction::Jump).action_update(
            Grounded::RightWall,
            MovementAction::Jump,
        ) == VelocityUpdate::Unchanged,
        c.after_action(Grounded::RightWall, MovementAction::Jump).after_action(
            Grounded::RightWall,
            MovementAction::Jump,
        ) == c.after_action(Grounded::RightWall, MovementAction::Jump),
{
}

/// A jump off a left wall followed by a jump while on a right wall, with no
/// ground between: both jump, each with a kick away from its wall.
pub proof fn lemma_wall_jump_ping_pong(c: CharacterController)
    requires
        c.may_wall_jump(Grounded::LeftWall),
    ensures
        c.action_update(Grounded::LeftWall, MovementAction::Jump) == VelocityUpdate::WallJump(
            Kick::Right,
        ),
        c.after_action(Grounded::LeftWall, MovementAction::Jump).action_update(
            Grounded::RightWall,
            MovementAction::Jump,
        ) == VelocityUpdate::WallJump(Kick::Left),
{
}

} // verus!

verus! {

/// `Move` events leave the controller's state as it is.
pub proof fn lemma_moves_keep_state(
    c: CharacterController,
    contact: Grounded,
    events: Seq<MovementAction>,
    n: nat,
)
    requires
        n <= events.len(),
        forall|k: int| 0 <= k < n ==> #[trigger] events[k] == MovementAction::Move,
    ensures
        state_after(c, contact, events, n) == c,
    decreases n,
{
    if n > 0 {
        lemma_moves_keep_state(c, contact, events, (n - 1) as nat);
    }
}

/// Against the same right wall, a jump event, any number of `Move` events,
/// and a second jump event: the first jumps when allowed and the last does
/// nothing.
pub proof fn lemma_no_repeat_wall_jump_across_ticks(c: CharacterController, events: Seq<MovementAction>)
    requires
        c.may_wall_jump(Grounded::RightWall),
        events.len() >= 2,
        events[0] == MovementAction::Jump,
        events.last() == MovementAction::Jump,
        forall|k: int| 0 < k < events.len() - 1 ==> #[trigger] events[k] == MovementAction::Move,
    ensures
        c.action_update(Grounded::RightWall, events[0]) == VelocityUpdate::WallJump(Kick::Left),
        state_after(c, Grounded::RightWall, events, (events.len() - 1) as nat).action_update(
            Grounded::RightWall,
            events.last(),
        ) == VelocityUpdate::Unchanged,
{
    let after = c.after_action(Grounded::RightWall, MovementAction::Jump);
    let rest = events.subrange(1, events.len() as int);
    lemma_moves_keep_state(after, Grounded::RightWall, rest, (rest.len() - 1) as nat);
    lemma_state_after_first(c, Grounded::RightWall, events, (events.len() - 1) as nat);
}

/// Running events from the second on, from the state after the first, is
/// running them all.
pub proof fn lemma_state_after_first(
    c: CharacterController,
    contact: Grounded,
    events: Seq<MovementAction>,
    n: nat,
)
    requires
        1 <= n <= events.len(),
    ensures
        state_after(c, contact, events, n) == state_after(
            c.after_action(contact, events[0]),
            contact,
            events.subrange(1, events.len() as int),
            (n - 1) as nat,
        ),
    decreases n,
{
    if n > 1 {
        lemma_state_after_first(c, contact, events, (n - 1) as nat);
    } else {
        reveal_with_fuel(state_after, 2);
    }
}

} // verus!

verus! {

/// A jump off a left wall, then any number of `Move` events in whatever
/// contact, then a jump event while on a right wall: both jump.
pub proof fn lemma_wall_jump_ping_pong_across_ticks(
    c: CharacterController,
    between: Grounded,
    moves: Seq<MovementAction>,
)
    requires
        c.may_wall_jump(Grounded::LeftWall),
        forall|k: int| 0 <= k < moves.len() ==> #[trigger] moves[k] == MovementAction::Move,
    ensures
        c.action_update(Grounded::LeftWall, MovementAction::Jump) == VelocityUpdate::WallJump(
            Kick::Right,
        ),
        state_after(
            c.after_action(Grounded::LeftWall, MovementAction::Jump),
            between,
            moves,
            moves.len(),
        ).action_update(Grounded::RightWall, MovementAction::Jump) == VelocityUpdate::WallJump(
            Kick::Left,
        ),
{
    lemma_moves_keep_state(
        c.after_action(Grounded::LeftWall, MovementAction::Jump),
        between,
        moves,
        moves.len(),
    );
}

} // verus!
