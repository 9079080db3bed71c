//! The animated runner: what the keys make of it in one frame, how it comes
//! down on a platform, and which picture of its sprite sheet is shown next.

use crate::config::{JUMP_FORCE, PLAYER_RUN_SPEED, PLAYER_SPEED};
use crate::controls::{axis, heading_of, Heading, Keys};
use vstd::prelude::*;

verus! {

/// What the runner is doing, as far as the animation cares.
#[derive(Clone, Copy, Debug, PartialEq, Eq, Structural)]
pub enum PlayerActionState {
    Idle,
    Moving,
    Jumping,
    Running,
    RunningAndJumping,
}

impl PlayerActionState {
    /// In the air after a jump.
    pub open spec fn airborne(self) -> bool {
        self is Jumping || self is RunningAndJumping
    }
}

impl Default for PlayerActionState {
    /// A runner starts out standing still.
    fn default() -> (state: PlayerActionState)
        ensures
            state is Idle,
    {
        PlayerActionState::Idle
    }
}

/// The action state that the runner carries from frame to frame.
#[derive(Clone, Copy, Debug, PartialEq, Eq, Structural)]
pub struct PlayerState {
    pub action_state: PlayerActionState,
}

/// Whether a jump is on offer, and how strong it is in pixels per second.
#[derive(Clone, Copy, Debug, PartialEq, Eq, Structural)]
pub struct PlayerJumpState {
    pub can_jump: bool,
    pub jump_force: u32,
}

impl Default for PlayerJumpState {
    /// A runner on the ground may jump.
    fn default() -> (jump_state: PlayerJumpState)
        ensures
            jump_state.can_jump,
            jump_state.jump_force == JUMP_FORCE,
    {
        PlayerJumpState { can_jump: true, jump_force: JUMP_FORCE }
    }
}

/// Side to which the sprite is turned.
#[derive(Clone, Copy, Debug, PartialEq, Eq, Structural)]
pub enum Facing {
    Left,
    Right,
}

/// What one frame of input asks the engine to do with the runner.
#[derive(Clone, Copy, Debug, PartialEq, Eq, Structural)]
pub struct Movement {
    /// Side to turn the sprite to, where it has to be turned at all.
    pub turn: Option<Facing>,
    /// Direction of travel, before scaling to unit length.
    pub heading: Heading,
    /// Speed of travel, in pixels per second.
    pub speed: u32,
    /// Speed of the animation, in tenths of its normal speed.
    pub playback_tenths: u32,
    /// Whether the jump force is added to the upward velocity.
    pub jump: bool,
}

/// The turn that the steering keys ask of a sprite. Left is looked at first and
/// right after it, so with both held the sprite ends up turned right. A sprite
/// that already faces the way it is steered is left alone.
pub open spec fn turn_of(keys: Keys, facing_right: bool) -> Option<Facing> {
    if keys.steers_right() && (keys.steers_left() || !facing_right) {
        Some(Facing::Right)
    } else if keys.steers_left() && facing_right {
        Some(Facing::Left)
    } else {
        None
    }
}

/// Animation speed in tenths, chosen by the shift keys and by what the runner
/// was doing when the frame began.
pub open spec fn playback_of(running: bool, action_state: PlayerActionState) -> int {
    if action_state is Jumping {
        2
    } else if running && action_state is Running {
        14
    } else if running && action_state is RunningAndJumping {
        6
    } else {
        8
    }
}

/// Whether this frame starts a jump: space went down and a jump was on offer.
pub open spec fn jumps(keys: Keys, jump_state: PlayerJumpState) -> bool {
    keys.space_just_pressed && jump_state.can_jump
}

/// Whether a steering key is held. The up keys do not steer the runner.
pub open spec fn moves(keys: Keys) -> bool {
    keys.steers_left() || keys.steers_right() || keys.steers_down()
}

/// The action state after a frame of input. A jump that starts now decides it;
/// a runner already in the air keeps its state until it lands; on the ground
/// the keys decide.
pub open spec fn next_action_state(
    keys: Keys,
    action_state: PlayerActionState,
    jump_state: PlayerJumpState,
) -> PlayerActionState {
    if jumps(keys, jump_state) {
        if keys.runs() {
            PlayerActionState::RunningAndJumping
        } else {
            PlayerActionState::Jumping
        }
    } else if action_state.airborne() {
        action_state
    } else if !moves(keys) {
        PlayerActionState::Idle
    } else if keys.runs() {
        PlayerActionState::Running
    } else {
        PlayerActionState::Moving
    }
}

/// A jump that has started cannot start again in a later frame, whatever the
/// keys do, until a landing puts it on offer again.
pub proof fn no_second_jump_in_the_air(first: Keys, later: Keys, jump_state: PlayerJumpState)
    requires
        jumps(first, jump_state),
    ensures
        !jumps(
            later,
            PlayerJumpState {
                can_jump: jump_state.can_jump && !first.space_just_pressed,
                jump_force: jump_state.jump_force,
            },
        ),
{
}

/// On the ground the keys alone decide the action state, and they never put
/// the runner in the air without a jump.
pub proof fn grounded_state_goes_by_keys(
    keys: Keys,
    action_state: PlayerActionState,
    jump_state: PlayerJumpState,
)
    requires
        !action_state.airborne(),
    ensures
        next_action_state(keys, action_state, jump_state).airborne() <==> jumps(keys, jump_state),
        next_action_state(keys, action_state, jump_state) == next_action_state(
            keys,
            PlayerActionState::Idle,
            jump_state,
        ),
{
}

/// Reads one frame of input for the runner. `facing_right` says whether the
/// sprite is turned right as the frame begins. The result tells the engine how
/// to turn and move the sprite and whether to add the jump force; the two
/// states are brought up to date in place.
pub fn player_movement(
    keys: &Keys,
    facing_right: bool,
    player_state: &mut PlayerState,
    jump_state: &mut PlayerJumpState,
) -> (movement: Movement)
    ensures
        movement.turn == turn_of(*keys, facing_right),
        movement.heading.x == axis(keys.steers_left(), keys.steers_right()),
        movement.heading.y == axis(keys.steers_down(), false),
        movement.speed == if keys.runs() {
            PLAYER_RUN_SPEED
        } else {
            PLAYER_SPEED
        },
        movement.playback_tenths == playback_of(keys.runs(), old(player_state).action_state),
        movement.jump == jumps(*keys, *old(jump_state)),
        final(jump_state).can_jump == (old(jump_state).can_jump && !keys.space_just_pressed),
        final(jump_state).jump_force == old(jump_state).jump_force,
        final(player_state).action_state == next_action_state(
            *keys,
            old(player_state).action_state,
            *old(jump_state),
        ),
{
    let leftward = keys.left || keys.a;
    let rightward = keys.right || keys.d;
    let downward = keys.down || keys.s;
    let is_moving = leftward || rightward || downward;

    let mut facing_right = facing_right;
    let mut turn: Option<Facing> = None;
    if leftward && facing_right {
        turn = Some(Facing::Left);
        facing_right = false;
    }
    if rightward && !facing_right {
        turn = Some(Facing::Right);
    }

    let heading = heading_of(leftward, rightward, downward, false);

    let is_running = keys.shift_left || keys.shift_right;
    let speed: u32 = if is_running {
        PLAYER_RUN_SPEED
    } else {
        PLAYER_SPEED
    };
    let playback_tenths: u32 = match (is_running, player_state.action_state) {
        (true, PlayerActionState::Jumping) => 2,
        (true, PlayerActionState::Running) => 14,
        (true, PlayerActionState::RunningAndJumping) => 6,
        (false, PlayerActionState::Jumping) => 2,
        _ => 8,
    };

    let mut jump = false;
    if keys.space_just_pressed && jump_state.can_jump {
        jump = true;
        jump_state.can_jump = false;
        if is_running {
            player_state.action_state = PlayerActionState::RunningAndJumping;
        } else {
            player_state.action_state = PlayerActionState::Jumping;
        }
    }

    match player_state.action_state {
        PlayerActionState::Jumping | PlayerActionState::RunningAndJumping => {},
        _ => {
            if is_moving {
                if is_running {
                    player_state.action_state = PlayerActionState::Running;
                } else {
                    player_state.action_state = PlayerActionState::Moving;
                }
            } else {
                player_state.action_state = PlayerActionState::Idle;
            }
        },
    }

    Movement { turn, heading, speed, playback_tenths, jump }
}

/// The picture shown and the length of the strip it belongs to.
#[derive(Clone, Copy, Debug, PartialEq, Eq, Structural)]
pub struct Frame {
    pub index: usize,
    pub frame_count: usize,
}

/// Number of pictures in the strip that an action state plays.
pub open spec fn strip_len(action_state: PlayerActionState) -> int {
    match action_state {
        PlayerActionState::Idle => 3,
        PlayerActionState::Moving | PlayerActionState::Running => 6,
        PlayerActionState::Jumping | PlayerActionState::RunningAndJumping => 4,
    }
}

/// First picture of the strip that an action state plays.
pub open spec fn strip_start(action_state: PlayerActionState) -> int {
    match action_state {
        PlayerActionState::Idle => 0,
        PlayerActionState::Moving | PlayerActionState::Running => 3,
        PlayerActionState::Jumping | PlayerActionState::RunningAndJumping => 5,
    }
}

/// Whether a picture can be stepped on in an action state: it must not lie
/// before the state's strip, and counting on from it must not leave the index
/// type.
pub open spec fn steppable(action_state: PlayerActionState, index: int) -> bool {
    match action_state {
        PlayerActionState::Idle => index < usize::MAX,
        _ => strip_start(action_state) <= index,
    }
}

/// The picture after `index`: one step on, wrapped to the state's strip.
pub open spec fn next_index(action_state: PlayerActionState, index: int) -> int {
    strip_start(action_state) + (index - strip_start(action_state) + 1) % strip_len(
        action_state,
    )
}

/// Whether a picture can be stepped on in an action state.
pub fn can_step(action_state: PlayerActionState, index: usize) -> (ok: bool)
    ensures
        ok == steppable(action_state, index as int),
{
    match action_state {
        PlayerActionState::Idle => index < usize::MAX,
        PlayerActionState::Moving | PlayerActionState::Running => index >= 3,
        PlayerActionState::Jumping | PlayerActionState::RunningAndJumping => index >= 5,
    }
}

/// Steps the animation on by one picture, once the time for the current
/// picture is up. The strip goes by what the runner is doing now, so a picture
/// left over from another strip is taken as it is, as long as it does not lie
/// before the new strip.
pub fn player_animation_system(action_state: PlayerActionState, index: usize) -> (frame: Frame)
    requires
        steppable(action_state, index as int),
    ensures
        frame.frame_count == strip_len(action_state),
        frame.index == next_index(action_state, index as int),
        strip_start(action_state) <= frame.index < strip_start(action_state) + strip_len(
            action_state,
        ),
{
    match action_state {
        PlayerActionState::Idle => Frame { index: (index + 1) % 3, frame_count: 3 },
        PlayerActionState::Moving | PlayerActionState::Running => Frame {
            index: 3 + (index - 3 + 1) % 6,
            frame_count: 6,
        },
        PlayerActionState::Jumping | PlayerActionState::RunningAndJumping => Frame {
            index: 5 + (index - 5 + 1) % 4,
            frame_count: 4,
        },
    }
}

/// Stepping through a strip from one of its own pictures comes back to that
/// picture after as many steps as the strip is long, and not before.
pub proof fn strip_is_a_cycle(action_state: PlayerActionState, index: int, steps: nat)
    requires
        strip_start(action_state) <= index < strip_start(action_state) + strip_len(action_state),
        0 < steps <= strip_len(action_state),
    ensures
        (after_steps(action_state, index, steps) == index) <==> steps == strip_len(action_state),
        strip_start(action_state) <= after_steps(action_state, index, steps) < strip_start(
            action_state,
        ) + strip_len(action_state),
{
    let len = strip_len(action_state);
    let start = strip_start(action_state);
    assert forall|k: nat| k <= steps implies #[trigger] after_steps(action_state, index, k)
        == start + (index - start + k) % len by {
        steps_add_up(action_state, index, k);
    }
    let off = index - start;
    assert((off + steps) % len == off <==> steps == len) by {
        if steps == len {
            assert((off + len) % len == off) by (nonlinear_arith)
                requires
                    0 <= off < len,
            ;
        } else {
            if off + steps < len {
                assert((off + steps) % len == off + steps) by (nonlinear_arith)
                    requires
                        0 <= off + steps < len,
                ;
            } else {
                assert((off + steps) % len == off + steps - len) by (nonlinear_arith)
                    requires
                        len <= off + steps < 2 * len,
                ;
            }
        }
    }
}

/// The picture reached from `index` by a number of steps.
pub open spec fn after_steps(action_state: PlayerActionState, index: int, steps: nat) -> int
    decreases steps,
{
    if steps == 0 {
        index
    } else {
        next_index(action_state, after_steps(action_state, index, (steps - 1) as nat))
    }
}

/// Steps taken inside a strip add up: the offset into the strip grows by one
/// per step and wraps at the strip's length.
pub proof fn steps_add_up(action_state: PlayerActionState, index: int, steps: nat)
    requires
        strip_start(action_state) <= index < strip_start(action_state) + strip_len(action_state),
    ensures
        after_steps(action_state, index, steps) == strip_start(action_state) + (index
            - strip_start(action_state) + steps) % strip_len(action_state),
    decreases steps,
{
    let len = strip_len(action_state);
    let start = strip_start(action_state);
    let off = index - start;
    if steps == 0 {
        assert(off % len == off) by (nonlinear_arith)
            requires
                0 <= off < len,
        ;
    } else {
        let before = (steps - 1) as nat;
        steps_add_up(action_state, index, before);
        let mid = (off + before) % len;
        assert((mid + 1) % len == (off + before + 1) % len) by (nonlinear_arith)
            requires
                mid == (off + before) % len,
                0 < len,
                0 <= off + before,
        ;
    }
}

/// Brings the runner down on the platforms it touches. `contacts` holds one
/// flag per platform, in the order in which the engine lists them: whether the
/// runner, as the frame began, overlapped the platform from above while not
/// rising. The result is the platform on whose top the runner comes to rest,
/// which is the last one touched. Touching any platform puts a jump on offer
/// again and ends a plain jump; a running jump is not ended by landing.
pub fn player_landing_system(
    contacts: &Vec<bool>,
    player_state: &mut PlayerState,
    jump_state: &mut PlayerJumpState,
) -> (platform: Option<usize>)
    ensures
        match platform {
            Some(i) => i < contacts.len() && contacts[i as int] && forall|j: int|
                i < j < contacts.len() ==> !contacts[j],
            None => forall|j: int| 0 <= j < contacts.len() ==> !contacts[j],
        },
        final(jump_state).can_jump == (old(jump_state).can_jump || platform is Some),
        final(jump_state).jump_force == old(jump_state).jump_force,
        final(player_state).action_state == if platform is Some && old(
            player_state,
        ).action_state is Jumping {
            PlayerActionState::Idle
        } else {
            old(player_state).action_state
        },
{
    let mut platform: Option<usize> = None;
    let mut i: usize = 0;
    while i < contacts.len()
        invariant
            i <= contacts.len(),
            match platform {
                Some(k) => k < i && contacts[k as int] && forall|j: int|
                    k < j < i ==> !contacts[j],
                None => forall|j: int| 0 <= j < i ==> !contacts[j],
            },
            jump_state.can_jump == (old(jump_state).can_jump || platform is Some),
            jump_state.jump_force == old(jump_state).jump_force,
            player_state.action_state == if platform is Some && old(
                player_state,
            ).action_state is Jumping {
                PlayerActionState::Idle
            } else {
                old(player_state).action_state
            },
        decreases contacts.len() - i,
    {
        if contacts[i] {
            platform = Some(i);
            jump_state.can_jump = true;
            match player_state.action_state {
                PlayerActionState::Jumping => {
                    player_state.action_state = PlayerActionState::Idle;
                },
                _ => {},
            }
        }
        i = i + 1;
    }
    platform
}

} // verus!
