//! The decisions of the player's per-frame systems: each takes the values
//! the engine hands it and returns, or updates in place, what it changes.
use vstd::prelude::*;
use crate::animation::{Blinking, Indices, State, Timer};
use crate::heading::{Direction, Heading};
use crate::player::{GridLayout, Player};
use crate::resources::AnimationIndices;

verus! {

/// Timer period while blinking: 80 ms.
pub const BLINK_NANOS: u64 = 80_000_000;

/// Timer period while walking: 30 ms.
pub const ACTIVE_NANOS: u64 = 30_000_000;

/// Shortest timer period while idle and not blinking: one second.
pub const IDLE_NANOS: u64 = 1_000_000_000;

/// Most that the jitter adds to the idle period: 3.9 ms.
pub const IDLE_JITTER_NANOS: u64 = 3_900_000;

/// Timer period that the player starts with: 50 ms.
pub const SPAWN_NANOS: u64 = 50_000_000;

/// Which of the movement keys are held.
#[derive(Clone, Copy, Debug, PartialEq, Eq, Structural)]
pub struct Keys {
    pub up: bool,
    pub down: bool,
    pub left: bool,
    pub right: bool,
}

impl Keys {
    /// Whether any movement key is held.
    pub open spec fn any(self) -> bool {
        self.up || self.down || self.left || self.right
    }
}

/// The vector the held keys point to. Up wins over down and left over
/// right, so that the vector is never zero while a key is held.
pub open spec fn movement(keys: Keys) -> Direction {
    Direction {
        x: if keys.left {
            -1i32
        } else if keys.right {
            1i32
        } else {
            0i32
        },
        y: if keys.up {
            1i32
        } else if keys.down {
            -1i32
        } else {
            0i32
        },
    }
}

/// Reads the movement keys. While any is held the player is active and
/// faces the way the keys point, and the vector to move along is returned;
/// otherwise the player is idle, keeps its heading, and does not move.
pub fn input_handler(keys: Keys, heading: &mut Heading, state: &mut State) -> (r: Option<
    Direction,
>)
    ensures
        keys.any() ==> r == Some(movement(keys)) && *final(state) == State::Active
            && *final(heading) == movement(keys).heading(),
        !keys.any() ==> r is None && *final(state) == State::Idle && *final(heading) == *old(
            heading,
        ),
        r matches Some(d) ==> d.x != 0 || d.y != 0,
{
    if keys.up || keys.down || keys.left || keys.right {
        *state = State::Active;
        let mut v = Direction { x: 0, y: 0 };
        if keys.up {
            v.y = 1;
        } else if keys.down {
            v.y = -1;
        }
        if keys.left {
            v.x = -1;
        } else if keys.right {
            v.x = 1;
        }
        *heading = Heading::from(v);
        Some(v)
    } else {
        *state = State::Idle;
        None
    }
}

/// Whether the frame index must start over before the timer is ticked: it
/// is at or past the last frame, or before the first.
pub open spec fn out_of_range(index: usize, indices: Indices) -> bool {
    index >= indices.last || index < indices.first
}

/// The frame shown before the timer is ticked: an index that is out of
/// range starts over at the first frame.
pub open spec fn wrapped_frame(index: usize, indices: Indices) -> usize {
    if out_of_range(index, indices) {
        indices.first
    } else {
        index
    }
}

/// The frame after `index`, starting over after the last one.
pub open spec fn next_frame(index: usize, indices: Indices) -> usize {
    if index >= indices.last {
        indices.first
    } else {
        (index + 1) as usize
    }
}

/// The frame shown after a tick that did, or did not, complete a period.
pub open spec fn frame_after(index: usize, indices: Indices, finished: bool) -> usize {
    let shown = wrapped_frame(index, indices);
    if finished {
        next_frame(shown, indices)
    } else {
        shown
    }
}

/// Moves the frame index on: it is first brought back into range, then
/// steps to the next frame when the timer has just finished a period. The
/// result always lies within the range.
pub fn advance_frame(index: usize, indices: Indices, finished: bool) -> (r: usize)
    ensures
        r == frame_after(index, indices, finished),
        indices.first <= indices.last ==> indices.first <= r <= indices.last,
{
    let shown = if index >= indices.last || index < indices.first {
        indices.first
    } else {
        index
    };
    if finished {
        if shown >= indices.last {
            indices.first
        } else {
            shown + 1
        }
    } else {
        shown
    }
}

/// Advances the animation by `delta_nanos`: the timer is ticked, and the
/// frame index moves on as `advance_frame` says, on whether that completed
/// a period. Returns whether the index was written: it was out of range,
/// or a period completed.
pub fn animate_sprite(
    indices: &AnimationIndices,
    delta_nanos: u64,
    timer: &mut Timer,
    index: &mut usize,
) -> (written: bool)
    requires
        old(timer).wf(),
    ensures
        *final(index) == frame_after(
            *old(index),
            indices.0,
            old(timer).completes_period(delta_nanos as nat),
        ),
        written == (out_of_range(*old(index), indices.0) || old(timer).completes_period(
            delta_nanos as nat,
        )),
        final(timer).wf(),
        final(timer).nanos() == old(timer).nanos(),
        final(timer).elapsed() == (old(timer).elapsed() + delta_nanos as nat) % old(timer).nanos(),
{
    let wrap = *index >= indices.0.last || *index < indices.0.first;
    let finished = timer.tick(delta_nanos);
    *index = advance_frame(*index, indices.0, finished);
    wrap || finished
}

/// Timer period in nanoseconds: short while blinking, shorter while
/// walking, and otherwise one second stretched by `jitter` 255ths of
/// `IDLE_JITTER_NANOS`, so that idle characters do not animate in step.
pub open spec fn timer_period(state: State, blinking: Blinking, jitter: u8) -> nat {
    if blinking.0 {
        BLINK_NANOS as nat
    } else if state == State::Active {
        ACTIVE_NANOS as nat
    } else {
        (IDLE_NANOS as int + (jitter as int * IDLE_JITTER_NANOS as int) / 255int) as nat
    }
}

/// The timer period for `state` and `blinking`, as `timer_period` gives it.
pub fn timer_period_nanos(state: State, blinking: Blinking, jitter: u8) -> (r: u64)
    ensures
        r == timer_period(state, blinking, jitter),
        IDLE_NANOS + IDLE_JITTER_NANOS >= r,
{
    if blinking.0 {
        BLINK_NANOS
    } else if state == State::Active {
        ACTIVE_NANOS
    } else {
        let j = jitter as u64;
        assert(j * IDLE_JITTER_NANOS <= 255 * IDLE_JITTER_NANOS) by (nonlinear_arith)
            requires
                j <= 255,
        ;
        proof {
            vstd::arithmetic::div_mod::lemma_div_is_ordered(
                (j * IDLE_JITTER_NANOS) as int,
                255 * IDLE_JITTER_NANOS as int,
                255int,
            );
        }
        IDLE_NANOS + (j * IDLE_JITTER_NANOS) / 255
    }
}

/// Sets the timer's period for the current state and blink flag; elapsed
/// time, mode and pause stay as they were.
pub fn animation_timer(timer: &mut Timer, state: State, blinking: Blinking, jitter: u8)
    ensures
        final(timer).nanos() == timer_period(state, blinking, jitter),
        final(timer).elapsed() == old(timer).elapsed(),
        final(timer).repeats() == old(timer).repeats(),
        final(timer).paused() == old(timer).paused(),
        old(timer).wf() ==> final(timer).wf(),
{
    let nanos = timer_period_nanos(state, blinking, jitter);
    timer.set_nanos(nanos);
}

/// Whether the character blinks after its frame changed to `index`: an idle
/// character facing away from north blinks on every frame but the first;
/// one facing north blinks whenever idle; a walking one never does.
pub open spec fn blinks(index: usize, state: State, heading: Heading) -> bool {
    state == State::Idle && (heading == Heading::North || index != 0)
}

/// Updates the blink flag after the frame changed to `index`.
pub fn animation_state(blinking: &mut Blinking, index: usize, state: State, heading: Heading)
    ensures
        *final(blinking) == Blinking(blinks(index, state, heading)),
{
    if heading != Heading::North && state == State::Idle {
        *blinking = Blinking(index != 0);
    } else {
        *blinking = Blinking(state != State::Active);
    }
}

/// Frame range for each heading and state: a single frame when idle facing
/// north, the three-frame range from 0 to 2 when idle otherwise, and the
/// walking range from 0 to 9.
pub open spec fn indices_for(heading: Heading, state: State) -> Indices {
    match (heading, state) {
        (Heading::North, State::Idle) => Indices { first: 0, last: 0 },
        (_, State::Idle) => Indices { first: 0, last: 2 },
        (_, State::Active) => Indices { first: 0, last: 9 },
    }
}

/// Sets the frame range for the current heading and state.
pub fn animation_indices(animation_indices: &mut AnimationIndices, heading: Heading, state: State)
    ensures
        final(animation_indices).0 == indices_for(heading, state),
{
    match (heading, state) {
        (Heading::North, State::Idle) => {
            animation_indices.0 = Indices::from(0usize);
        },
        (_, State::Idle) => {
            animation_indices.0 = Indices::from(0..2);
        },
        (_, State::Active) => {
            animation_indices.0 = Indices::from(0..9);
        },
    }
}

/// What the player starts with: the default frame range and its first
/// frame, idle and not blinking, facing south, with a 50 ms repeating timer
/// with no time elapsed, on the whole sheet.
pub struct PlayerSpawn {
    pub player: Player,
    pub indices: AnimationIndices,
    pub index: usize,
    pub state: State,
    pub blinking: Blinking,
    pub heading: Heading,
    pub timer: Timer,
    pub sheet: GridLayout,
}

/// The player's starting values.
pub fn spawn() -> (r: PlayerSpawn)
    ensures
        r.indices == AnimationIndices(Indices { first: 0, last: 2 }),
        r.index == r.indices.0.first,
        r.state == State::Idle,
        r.blinking == Blinking(false),
        r.heading == Heading::South,
        r.timer.nanos() == SPAWN_NANOS,
        r.timer.elapsed() == 0,
        r.timer.wf(),
        r.sheet == Player::sheet_spec(),
{
    let indices = AnimationIndices::default();
    let index = indices.0.first;
    PlayerSpawn {
        player: Player,
        indices,
        index,
        state: State::Idle,
        blinking: Blinking(false),
        heading: Heading::South,
        timer: Timer::repeating(SPAWN_NANOS),
        sheet: Player::sheet(),
    }
}

} // verus!
