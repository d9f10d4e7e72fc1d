//! The fall after a failed jump: straight down, or tipping over an edge
//! first.
use vstd::prelude::*;

use crate::geometry::Pos;
use crate::jump::JumpState;
use crate::player::{Player, REST_HEIGHT};

verus! {

/// Descent per microsecond of a falling player: 0.7 units per second.
pub const FALL_SPEED: i64 = 700;

/// A straight fall ends below this height (0.5 units).
pub const STRAIGHT_FALL_FLOOR: i64 = 500_000_000;

/// The descent after a tilt ends below this height (0.2 units).
pub const TILT_FALL_FLOOR: i64 = 200_000_000;

/// The tilt pivot lies this far below the rest height (0.5 units).
pub const PIVOT_DROP: i64 = 500_000_000;

/// Time for the tilt to turn a quarter turn at a quarter turn per second.
pub const TILT_DURATION: u64 = 1_000_000;

/// A unit axis of the tilt rotation.
#[derive(Clone, Copy, Debug, PartialEq, Eq, Structural)]
pub enum TiltDirection {
    PosX,
    NegX,
    PosZ,
    NegZ,
}

/// How a failed jump falls.
#[derive(Clone, Copy, Debug, PartialEq, Eq, Structural)]
pub enum FallType {
    /// Straight down.
    Straight,
    /// Tipping over about the given axis, then straight down.
    Tilt(TiltDirection),
}

/// The fall after a failed jump. `completed` is the idle state.
#[derive(Clone, Copy, Debug, PartialEq, Eq, Structural)]
pub struct FallState {
    /// Where the fall starts.
    pub pos: Pos,
    pub fall_type: FallType,
    pub tilt_completed: bool,
    pub completed: bool,
    pub played_sound: bool,
    /// Microseconds of tilting so far.
    pub tilt_elapsed: u64,
}

/// `fall` after starting a tilt fall at `pos` about `direction`.
pub open spec fn tilt_fall_started(fall: FallState, pos: Pos, direction: TiltDirection) -> FallState {
    FallState {
        pos,
        fall_type: FallType::Tilt(direction),
        tilt_completed: false,
        completed: false,
        played_sound: false,
        tilt_elapsed: 0,
    }
}

/// `fall` after starting a straight fall at `pos`.
pub open spec fn straight_fall_started(fall: FallState, pos: Pos) -> FallState {
    FallState { pos, fall_type: FallType::Straight, completed: false, played_sound: false, ..fall }
}

impl FallState {
    /// Idle, with nothing falling.
    pub fn new() -> (r: FallState)
        ensures
            r.pos == (Pos { x: 0, y: 0, z: 0 }),
            r.completed,
            r.tilt_completed,
            r.played_sound,
            r.fall_type == FallType::Straight,
            r.tilt_elapsed == 0,
    {
        FallState {
            pos: Pos { x: 0, y: 0, z: 0 },
            fall_type: FallType::Straight,
            tilt_completed: true,
            completed: true,
            played_sound: true,
            tilt_elapsed: 0,
        }
    }

    /// Starts a straight fall at `pos`; only an idle state can start one.
    pub fn animate_straight_fall(&mut self, pos: Pos)
        requires
            old(self).completed,
        ensures
            *final(self) == straight_fall_started(*old(self), pos),
    {
        self.pos = pos;
        self.fall_type = FallType::Straight;
        self.completed = false;
        self.played_sound = false;
    }

    /// Starts a tilt fall at `pos` about `direction`; only an idle state can
    /// start one.
    pub fn animate_tilt_fall(&mut self, pos: Pos, direction: TiltDirection)
        requires
            old(self).completed,
        ensures
            *final(self) == tilt_fall_started(*old(self), pos, direction),
    {
        self.pos = pos;
        self.fall_type = FallType::Tilt(direction);
        self.tilt_completed = false;
        self.completed = false;
        self.played_sound = false;
        self.tilt_elapsed = 0;
    }

    /// The point the tilt turns about: below the fall's start, at the
    /// rest height less 0.5 units.
    pub fn pivot(&self) -> (r: Pos)
        ensures
            r == (Pos { x: self.pos.x, y: (REST_HEIGHT - PIVOT_DROP) as i64, z: self.pos.z }),
    {
        Pos { x: self.pos.x, y: REST_HEIGHT - PIVOT_DROP, z: self.pos.z }
    }
}

impl Default for FallState {
    fn default() -> (r: FallState)
        ensures
            r.pos == (Pos { x: 0, y: 0, z: 0 }),
            r.completed,
            r.tilt_completed,
            r.played_sound,
            r.fall_type == FallType::Straight,
            r.tilt_elapsed == 0,
    {
        FallState::new()
    }
}

/// What one frame of a fall did to the player.
#[derive(Clone, Copy, Debug, PartialEq, Eq, Structural)]
pub enum FallMotion {
    /// No fall under way.
    Idle,
    /// Tipping on: turn the player about the pivot by this frame's share of
    /// a quarter turn per second.
    Tilt,
    /// The player has tipped past the pivot's height and now rests at it.
    TiltDone,
    /// The player went down to its new height.
    Descend,
    /// The fall is over; the run ends.
    GameOver,
}

/// One frame of a fall, and whether the impact sound starts on it.
#[derive(Clone, Copy, Debug, PartialEq, Eq, Structural)]
pub struct FallFrame {
    pub play_fall_sound: bool,
    pub motion: FallMotion,
}

/// The player `dt` microseconds further down at 0.7 units per second, or the
/// end of the fall when it is already below `floor`.
pub open spec fn descend_step(fall: FallState, player: Player, dt: int, floor: int) -> (FallState, Player, FallMotion) {
    if player.pos.y < floor {
        (FallState { completed: true, ..fall }, player, FallMotion::GameOver)
    } else {
        (
            fall,
            Player { pos: Pos { y: (player.pos.y - FALL_SPEED * dt) as i64, ..player.pos }, ..player },
            FallMotion::Descend,
        )
    }
}

/// One frame of a fall under way, after the impact sound was handled.
pub open spec fn fall_step(fall: FallState, player: Player, dt: int) -> (FallState, Player, FallMotion) {
    match fall.fall_type {
        FallType::Straight => descend_step(fall, player, dt, STRAIGHT_FALL_FLOOR as int),
        FallType::Tilt(_) => if fall.tilt_completed {
            descend_step(fall, player, dt, TILT_FALL_FLOOR as int)
        } else if fall.tilt_elapsed > TILT_DURATION {
            (
                FallState { tilt_completed: true, ..fall },
                Player { pos: Pos { y: (REST_HEIGHT - PIVOT_DROP) as i64, ..player.pos }, ..player },
                FallMotion::TiltDone,
            )
        } else {
            (FallState { tilt_elapsed: (fall.tilt_elapsed + dt) as u64, ..fall }, player, FallMotion::Tilt)
        },
    }
}

/// One frame of `dt` microseconds of a fall; it waits for the arc flight to
/// finish. The impact sound starts on the first frame. A straight fall goes
/// down until below 0.5 units. A tilt turns about the pivot until the player
/// tips below the pivot's height, which at a quarter turn per second takes
/// one second, then goes down until below 0.2 units.
pub fn animate_fall(fall_state: &mut FallState, jump_state: &JumpState, player: &mut Player, dt: u32) -> (r: FallFrame)
    ensures
        old(fall_state).completed || !jump_state.completed ==> {
            &&& r == (FallFrame { play_fall_sound: false, motion: FallMotion::Idle })
            &&& *final(fall_state) == *old(fall_state)
            &&& *final(player) == *old(player)
        },
        !old(fall_state).completed && jump_state.completed ==> {
            let step = fall_step(FallState { played_sound: true, ..*old(fall_state) }, *old(player), dt as int);
            &&& r == (FallFrame { play_fall_sound: !old(fall_state).played_sound, motion: step.2 })
            &&& *final(fall_state) == step.0
            &&& *final(player) == step.1
        },
{
    if fall_state.completed || !jump_state.completed {
        return FallFrame { play_fall_sound: false, motion: FallMotion::Idle };
    }
    let play_fall_sound = !fall_state.played_sound;
    fall_state.played_sound = true;
    let motion = match fall_state.fall_type {
        FallType::Straight => descend(fall_state, player, dt, STRAIGHT_FALL_FLOOR),
        FallType::Tilt(_) => {
            if fall_state.tilt_completed {
                descend(fall_state, player, dt, TILT_FALL_FLOOR)
            } else if fall_state.tilt_elapsed > TILT_DURATION {
                fall_state.tilt_completed = true;
                player.pos.y = REST_HEIGHT - PIVOT_DROP;
                FallMotion::TiltDone
            } else {
                fall_state.tilt_elapsed = fall_state.tilt_elapsed + dt as u64;
                FallMotion::Tilt
            }
        },
    };
    FallFrame { play_fall_sound, motion }
}

fn descend(fall_state: &mut FallState, player: &mut Player, dt: u32, floor: i64) -> (r: FallMotion)
    requires
        floor >= 0,
    ensures
        (*final(fall_state), *final(player), r) == descend_step(*old(fall_state), *old(player), dt as int, floor as int),
{
    if player.pos.y < floor {
        fall_state.completed = true;
        FallMotion::GameOver
    } else {
        player.pos.y = player.pos.y - FALL_SPEED * dt as i64;
        FallMotion::Descend
    }
}

} // verus!
