//! The row of platforms: where they stand, how the ball is steered and jumps
//! among them, and on which of them it lands.

use crate::controls::{axis, heading_of, Heading, Keys};
use crate::player::PlayerJumpState;
use vstd::prelude::*;

verus! {

/// Distance from one platform to the next, in pixels.
pub const PLATFORM_WIDTH: i32 = 1640;

/// Number of platforms in the row.
pub const NUM_PLATFORMS: i32 = 100;

/// Horizontal position of the first platform, in pixels.
pub const FIRST_PLATFORM_X: i32 = 650;

/// Height at which every platform stands, in pixels.
pub const PLATFORM_Y: i32 = 100;

/// Horizontal position of the platform with the given number, counted from 0.
pub open spec fn platform_x(number: int) -> int {
    FIRST_PLATFORM_X + PLATFORM_WIDTH * number
}

/// Lays out the row: the horizontal positions of all platforms, from the first
/// on, each one `PLATFORM_WIDTH` further right than the one before.
pub fn spawn_platforms() -> (row: Vec<i32>)
    ensures
        row@.len() == NUM_PLATFORMS,
        forall|i: int| 0 <= i < row@.len() ==> row@[i] == platform_x(i),
{
    let mut row: Vec<i32> = Vec::new();
    let mut i: i32 = 0;
    while i < NUM_PLATFORMS
        invariant
            0 <= i <= NUM_PLATFORMS,
            row@.len() == i,
            forall|k: int| 0 <= k < row@.len() ==> row@[k] == platform_x(k),
        decreases NUM_PLATFORMS - i,
    {
        row.push(FIRST_PLATFORM_X + PLATFORM_WIDTH * i);
        i = i + 1;
    }
    row
}

/// The direction the keys ask for: arrows or A, D and S, with the space bar as
/// a second key for up, opposite keys cancelling each other.
pub fn player_movement(keys: &Keys) -> (heading: Heading)
    ensures
        heading.x == axis(keys.steers_left(), keys.steers_right()),
        heading.y == axis(keys.steers_down(), keys.up || keys.space),
{
    heading_of(
        keys.left || keys.a,
        keys.right || keys.d,
        keys.down || keys.s,
        keys.up || keys.space,
    )
}

/// Starts a jump where one is on offer, space went down in this frame and the
/// engine found a ball to throw up. A jump that starts takes the offer away;
/// the result says whether the jump force is to be added to the ball's upward
/// velocity.
pub fn player_jump_system(
    keys: &Keys,
    player_found: bool,
    jump_state: &mut PlayerJumpState,
) -> (jump: bool)
    ensures
        jump == (old(jump_state).can_jump && keys.space_just_pressed && player_found),
        final(jump_state).can_jump == (old(jump_state).can_jump && !jump),
        final(jump_state).jump_force == old(jump_state).jump_force,
{
    if jump_state.can_jump && keys.space_just_pressed {
        if player_found {
            jump_state.can_jump = false;
            return true;
        }
    }
    false
}

/// Lands a falling ball. `falling` says whether the ball moves down as the
/// frame begins; `reached` holds one flag per platform, in the order in which
/// the engine lists them: whether the ball is at or below the platform's top.
/// Landing stops the fall, so the first platform reached is the only one the
/// ball lands on; the result names it. Landing puts a jump on offer again.
pub fn player_landing_system(
    falling: bool,
    reached: &Vec<bool>,
    jump_state: &mut PlayerJumpState,
) -> (platform: Option<usize>)
    ensures
        match platform {
            Some(i) => falling && i < reached@.len() && reached@[i as int] && forall|j: int|
                0 <= j < i ==> !reached@[j],
            None => !falling || forall|j: int| 0 <= j < reached@.len() ==> !reached@[j],
        },
        final(jump_state).can_jump == (old(jump_state).can_jump || platform is Some),
        final(jump_state).jump_force == old(jump_state).jump_force,
{
    let mut i: usize = 0;
    while i < reached.len()
        invariant
            i <= reached@.len(),
            forall|j: int| 0 <= j < i ==> !falling || !reached@[j],
            *jump_state == *old(jump_state),
        decreases reached@.len() - i,
    {
        if falling && reached[i] {
            jump_state.can_jump = true;
            return Some(i);
        }
        i = i + 1;
    }
    None
}

} // verus!
