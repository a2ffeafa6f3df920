//! From held keys and buttons to what the character and the aim are asked
//! to do in a frame.

use vstd::prelude::*;

verus! {

/// Horizontal speed the character is asked to walk at.
pub const WALK_SPEED: i32 = 100;

/// Height above ground at which the character controller floats the body.
pub const FLOAT_HEIGHT: u32 = 1;

/// Height of a jump.
pub const JUMP_HEIGHT: u32 = 4;

/// The longest aim vector.
pub const AIM_LIMIT: u32 = 200;

/// Either component of the aim vector before the first update.
pub const INITIAL_AIM: i32 = 20;

/// The keys that move the character, each `true` while held.
#[derive(Clone, Copy, Debug, PartialEq, Eq, Structural)]
pub struct Keys {
    pub left: bool,
    pub right: bool,
    pub jump: bool,
}

/// What the character controller is fed in a frame.
#[derive(Clone, Copy, Debug, PartialEq, Eq, Structural)]
pub struct Controls {
    /// Desired velocity along the horizontal axis; positive is right.
    pub desired_velocity: i32,
    pub float_height: u32,
    /// The height of the jump to feed, while the jump key is held.
    pub jump: Option<u32>,
}

/// The horizontal direction two keys ask for: one step right for the right
/// key, one step left for the left key, summed.
pub open spec fn intent(left: bool, right: bool) -> int {
    (if right { 1int } else { 0 }) - (if left { 1int } else { 0 })
}

/// What is fed to the character controller for the held keys, if the
/// character has one.
pub open spec fn controls_for(controller_present: bool, keys: Keys) -> Option<Controls> {
    if controller_present {
        Some(
            Controls {
                desired_velocity: (intent(keys.left, keys.right) * WALK_SPEED) as i32,
                float_height: FLOAT_HEIGHT,
                jump: if keys.jump {
                    Some(JUMP_HEIGHT)
                } else {
                    None
                },
            },
        )
    } else {
        None
    }
}

/// The horizontal direction the held keys ask for: -1, 0 or 1.
pub fn horizontal_intent(left: bool, right: bool) -> (direction: i32)
    ensures
        direction == intent(left, right),
{
    let mut direction: i32 = 0;
    if left {
        direction -= 1;
    }
    if right {
        direction += 1;
    }
    direction
}

/// The movement controls of one frame.
///
/// With no character controller there is nothing to feed. With one, the
/// walk is fed in every frame, at full speed in the direction the keys ask
/// for or at rest, and a jump is fed while the jump key is held.
pub fn movement_controls(controller_present: bool, keys: Keys) -> (controls: Option<Controls>)
    ensures
        controls == controls_for(controller_present, keys),
{
    if !controller_present {
        return None;
    }
    let direction = horizontal_intent(keys.left, keys.right);
    let jump = if keys.jump {
        Some(JUMP_HEIGHT)
    } else {
        None
    };
    Some(Controls { desired_velocity: direction * WALK_SPEED, float_height: FLOAT_HEIGHT, jump })
}

/// The aim of the next frame.
///
/// `target` is the vector from the player to the cursor, cut to
/// [`AIM_LIMIT`], when the cursor could be placed in the world. The aim
/// follows it while the fire button is held and stays as it is otherwise.
pub fn next_aim<V>(current: V, held: bool, target: Option<V>) -> (aim: V)
    ensures
        aim == if held && target is Some {
            target->0
        } else {
            current
        },
{
    if held {
        match target {
            Some(vector) => vector,
            None => current,
        }
    } else {
        current
    }
}

/// The walk depends on the left and right keys alone, and is at rest
/// exactly when both or neither of them is held.
pub proof fn lemma_walk_follows_left_and_right(keys: Keys, other: Keys)
    ensures
        intent(keys.left, keys.right) == 0 <==> keys.left == keys.right,
        keys.right && !keys.left ==> controls_for(true, keys)->0.desired_velocity == WALK_SPEED,
        keys.left && !keys.right ==> controls_for(true, keys)->0.desired_velocity == -WALK_SPEED,
        keys.left == keys.right ==> controls_for(true, keys)->0.desired_velocity == 0,
        keys.left == other.left && keys.right == other.right ==> controls_for(
            true,
            keys,
        )->0.desired_velocity == controls_for(true, other)->0.desired_velocity,
{
}

} // verus!
