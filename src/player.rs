//! The player's place and squash, the charge in progress, and the delay
//! before input counts at the start of a run.
use vstd::prelude::*;

use crate::geometry::Pos;

verus! {

/// Height of the player at rest on a platform (1.5 units).
pub const REST_HEIGHT: i64 = 1_500_000_000;

/// Where the player starts a run: (0, 1.5, 0).
pub open spec fn initial_player_pos() -> Pos {
    Pos { x: 0, y: REST_HEIGHT, z: 0 }
}

/// Scale of 1.0, in billionths.
pub const SCALE_ONE: i64 = 1_000_000_000;

/// Widest the player gets while charging (1.3).
pub const SQUASH_MAX_WIDTH: i64 = 1_300_000_000;

/// Flattest the player and the platform get while charging (0.6).
pub const SQUASH_MIN_HEIGHT: i64 = 600_000_000;

/// Growth of the player's width per microsecond of charging (0.12 per second).
pub const SQUASH_WIDEN_RATE: i64 = 120;

/// Shrinking of the height per microsecond of charging (0.15 per second).
pub const SQUASH_FLATTEN_RATE: i64 = 150;

/// Time after the start of a run during which input is ignored (0.2 s).
pub const PREPARE_DELAY: u64 = 200_000;

/// A scale along three axes, in billionths.
#[derive(Clone, Copy, Debug, PartialEq, Eq, Structural)]
pub struct Scale {
    pub x: i64,
    pub y: i64,
    pub z: i64,
}

/// The player's place and its squash.
#[derive(Clone, Copy, Debug, PartialEq, Eq, Structural)]
pub struct Player {
    pub pos: Pos,
    pub scale: Scale,
}

impl Player {
    /// The player at the start of a run, unsquashed.
    pub fn new() -> (r: Player)
        ensures
            r.pos == initial_player_pos(),
            r.scale == (Scale { x: SCALE_ONE, y: SCALE_ONE, z: SCALE_ONE }),
    {
        Player {
            pos: Pos { x: 0, y: REST_HEIGHT, z: 0 },
            scale: Scale { x: SCALE_ONE, y: SCALE_ONE, z: SCALE_ONE },
        }
    }
}

/// When the current charge started, in microseconds; none while not charging.
#[derive(Clone, Copy, Debug, PartialEq, Eq, Structural)]
pub struct Accumulator(pub Option<u64>);

/// Time elapsed since the run started, up to `PREPARE_DELAY`.
#[derive(Clone, Copy, Debug, PartialEq, Eq, Structural)]
pub struct PrepareJumpTimer {
    pub elapsed: u64,
}

impl PrepareJumpTimer {
    pub open spec fn finished_spec(self) -> bool {
        self.elapsed >= PREPARE_DELAY
    }

    pub fn new() -> (r: PrepareJumpTimer)
        ensures
            r.elapsed == 0,
    {
        PrepareJumpTimer { elapsed: 0 }
    }

    /// Whether the delay is over and input counts.
    pub fn finished(&self) -> (r: bool)
        ensures
            r == self.finished_spec(),
    {
        self.elapsed >= PREPARE_DELAY
    }
}

/// Advances the start-of-run delay by `dt` microseconds; it stops at its end.
pub fn prepare_jump(prepare_timer: &mut PrepareJumpTimer, dt: u32)
    ensures
        final(prepare_timer).elapsed == (if old(prepare_timer).elapsed + dt >= PREPARE_DELAY {
            PREPARE_DELAY as int
        } else {
            old(prepare_timer).elapsed + dt
        }),
{
    if prepare_timer.elapsed >= PREPARE_DELAY || PREPARE_DELAY - prepare_timer.elapsed <= dt as u64 {
        prepare_timer.elapsed = PREPARE_DELAY;
    } else {
        prepare_timer.elapsed = prepare_timer.elapsed + dt as u64;
    }
}

/// Starts the delay over.
pub fn reset_prepare_jump_timer(prepare_timer: &mut PrepareJumpTimer)
    ensures
        final(prepare_timer).elapsed == 0,
{
    prepare_timer.elapsed = 0;
}

/// `min(v + delta, cap)`.
pub open spec fn capped_sum(v: int, delta: int, cap: int) -> int {
    if v + delta < cap { v + delta } else { cap }
}

/// `max(v - delta, floor)`.
pub open spec fn floored_diff(v: int, delta: int, floor: int) -> int {
    if v - delta > floor { v - delta } else { floor }
}

fn widen(v: i64, dt: u32) -> (r: i64)
    ensures
        r == capped_sum(v as int, SQUASH_WIDEN_RATE * dt, SQUASH_MAX_WIDTH as int),
{
    let delta = SQUASH_WIDEN_RATE * dt as i64;
    if v < SQUASH_MAX_WIDTH - delta {
        v + delta
    } else {
        SQUASH_MAX_WIDTH
    }
}

fn flatten(v: i64, dt: u32) -> (r: i64)
    ensures
        r == floored_diff(v as int, SQUASH_FLATTEN_RATE * dt, SQUASH_MIN_HEIGHT as int),
{
    let delta = SQUASH_FLATTEN_RATE * dt as i64;
    if v > SQUASH_MIN_HEIGHT + delta {
        v - delta
    } else {
        SQUASH_MIN_HEIGHT
    }
}

/// The player's squash for one frame: while charging it widens by 0.12 and
/// flattens by 0.15 per second, up to 1.3 wide and down to 0.6 high; when not
/// charging it is back to 1.
pub fn animate_player_accumulation(accumulator: &Accumulator, player: &mut Player, dt: u32)
    ensures
        final(player).pos == old(player).pos,
        accumulator.0.is_none() ==> final(player).scale == (Scale { x: SCALE_ONE, y: SCALE_ONE, z: SCALE_ONE }),
        accumulator.0.is_some() ==> final(player).scale == (Scale {
            x: capped_sum(old(player).scale.x as int, SQUASH_WIDEN_RATE * dt, SQUASH_MAX_WIDTH as int) as i64,
            y: floored_diff(old(player).scale.y as int, SQUASH_FLATTEN_RATE * dt, SQUASH_MIN_HEIGHT as int) as i64,
            z: capped_sum(old(player).scale.z as int, SQUASH_WIDEN_RATE * dt, SQUASH_MAX_WIDTH as int) as i64,
        }),
{
    match accumulator.0 {
        Some(_) => {
            player.scale.x = widen(player.scale.x, dt);
            player.scale.y = flatten(player.scale.y, dt);
            player.scale.z = widen(player.scale.z, dt);
        },
        None => {
            player.scale = Scale { x: SCALE_ONE, y: SCALE_ONE, z: SCALE_ONE };
        },
    }
}

/// The current platform's squash for one frame: while charging it flattens
/// by 0.15 per second down to 0.6; when not charging it is back to 1.
pub fn animate_platform_accumulation(accumulator: &Accumulator, scale: &mut Scale, dt: u32)
    ensures
        accumulator.0.is_none() ==> *final(scale) == (Scale { x: SCALE_ONE, y: SCALE_ONE, z: SCALE_ONE }),
        accumulator.0.is_some() ==> *final(scale) == (Scale {
            y: floored_diff(old(scale).y as int, SQUASH_FLATTEN_RATE * dt, SQUASH_MIN_HEIGHT as int) as i64,
            ..*old(scale)
        }),
{
    match accumulator.0 {
        Some(_) => {
            scale.y = flatten(scale.y, dt);
        },
        None => {
            *scale = Scale { x: SCALE_ONE, y: SCALE_ONE, z: SCALE_ONE };
        },
    }
}

} // verus!
