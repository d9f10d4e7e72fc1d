//! The camera that follows the player between jumps.
use vstd::prelude::*;

use crate::geometry::Pos;
use crate::fall::FallState;
use crate::jump::JumpState;
use crate::player::{initial_player_pos, REST_HEIGHT};

verus! {

/// The camera's offset from the player, and its position at the start: (-5, 8, 5).
pub const CAMERA_OFFSET_X: i64 = -5_000_000_000;
pub const CAMERA_OFFSET_Y: i64 = 8_000_000_000;
pub const CAMERA_OFFSET_Z: i64 = 5_000_000_000;

/// The player must move further than this (0.1 units) before the camera
/// takes a new step towards it.
pub const MOVE_THRESHOLD: i64 = 100_000_000;

/// A step is this fraction of the way to the target: one twentieth (5%).
pub const STEP_DIVISOR: i64 = 20;

/// Player coordinates stay within this bound (10^9 units), so that squared
/// distances fit the integer range.
pub const COORD_LIMIT: i64 = 1_000_000_000_000_000_000;

/// Every coordinate of `p` lies within `[-bound, bound]`.
pub open spec fn bounded(p: Pos, bound: int) -> bool {
    -bound <= p.x <= bound && -bound <= p.y <= bound && -bound <= p.z <= bound
}

pub open spec fn sq(v: int) -> int {
    v * v
}

/// Squared euclidean distance.
pub open spec fn dist2(a: Pos, b: Pos) -> int {
    sq(a.x - b.x) + sq(a.y - b.y) + sq(a.z - b.z)
}

/// Squared length.
pub open spec fn norm2(v: Pos) -> int {
    sq(v.x as int) + sq(v.y as int) + sq(v.z as int)
}

/// Where the camera heads for: the start offset added to the player's position.
pub open spec fn camera_target(player: Pos) -> Pos {
    Pos {
        x: (player.x + CAMERA_OFFSET_X) as i64,
        y: (player.y + CAMERA_OFFSET_Y) as i64,
        z: (player.z + CAMERA_OFFSET_Z) as i64,
    }
}

/// `v / 20`, rounded toward zero.
pub open spec fn twentieth(v: int) -> int {
    if v >= 0 {
        v / STEP_DIVISOR as int
    } else {
        -((-v) / STEP_DIVISOR as int)
    }
}

/// One twentieth of the way from `from` to `to`, each coordinate rounded
/// toward zero.
pub open spec fn step_toward(from: Pos, to: Pos) -> Pos {
    Pos {
        x: twentieth(to.x - from.x) as i64,
        y: twentieth(to.y - from.y) as i64,
        z: twentieth(to.z - from.z) as i64,
    }
}

/// `p` moved `k` times by `step`.
pub open spec fn advanced(p: Pos, step: Pos, k: int) -> Pos {
    Pos {
        x: (p.x + k * step.x) as i64,
        y: (p.y + k * step.y) as i64,
        z: (p.z + k * step.z) as i64,
    }
}

/// How the camera follows the player: the step it takes each frame, the
/// player position it was computed for, and how many times it has been
/// taken. Twenty steps cover the distance (each is a twentieth, rounded
/// toward zero), so no more are taken and rounding never carries the camera
/// past its target.
#[derive(Clone, Copy, Debug, PartialEq, Eq, Structural)]
pub struct CameraMoveState {
    pub step: Pos,
    pub player_pos: Pos,
    pub steps_taken: u32,
}

impl CameraMoveState {
    /// No step yet, with the player at its start position.
    pub fn new() -> (r: CameraMoveState)
        ensures
            r.step == (Pos { x: 0, y: 0, z: 0 }),
            r.player_pos == initial_player_pos(),
            r.steps_taken == 0,
    {
        CameraMoveState {
            step: Pos { x: 0, y: 0, z: 0 },
            player_pos: Pos { x: 0, y: REST_HEIGHT, z: 0 },
            steps_taken: 0,
        }
    }
}

impl Default for CameraMoveState {
    fn default() -> (r: CameraMoveState)
        ensures
            r.step == (Pos { x: 0, y: 0, z: 0 }),
            r.player_pos == initial_player_pos(),
            r.steps_taken == 0,
    {
        CameraMoveState::new()
    }
}

/// One frame of camera following, between jumps: when the player has moved
/// more than 0.1 units since the step was computed, a new step of one
/// twentieth of the way to the target is computed; then, while the camera is
/// further from the target than one step and fewer than twenty steps have
/// been taken, it takes the step.
pub open spec fn camera_frame(state: CameraMoveState, camera: Pos, player: Pos) -> (CameraMoveState, Pos) {
    let dest = camera_target(player);
    let s = if dist2(state.player_pos, player) > sq(MOVE_THRESHOLD as int) {
        CameraMoveState { step: step_toward(camera, dest), player_pos: player, steps_taken: 0 }
    } else {
        state
    };
    if dist2(camera, dest) > norm2(s.step) && s.steps_taken < STEP_DIVISOR {
        (CameraMoveState { steps_taken: (s.steps_taken + 1) as u32, ..s }, advanced(camera, s.step, 1))
    } else {
        (s, camera)
    }
}

/// The limits within which `move_camera` computes without overflow.
pub open spec fn camera_in_range(state: CameraMoveState, camera: Pos, player: Pos) -> bool {
    &&& bounded(player, COORD_LIMIT as int)
    &&& bounded(state.player_pos, COORD_LIMIT as int)
    &&& bounded(state.step, COORD_LIMIT as int)
    &&& bounded(camera, 2 * COORD_LIMIT)
}

const BIG: i128 = 2_500_000_000_000_000_000;

fn dist2_exec(a: Pos, b: Pos) -> (r: i128)
    requires
        bounded(a, BIG as int),
        bounded(b, BIG as int),
    ensures
        r == dist2(a, b),
{
    let dx = a.x as i128 - b.x as i128;
    let dy = a.y as i128 - b.y as i128;
    let dz = a.z as i128 - b.z as i128;
    proof {
        lemma_square_bound(dx as int);
        lemma_square_bound(dy as int);
        lemma_square_bound(dz as int);
    }
    dx * dx + dy * dy + dz * dz
}

proof fn lemma_square_bound(v: int)
    requires
        -2 * BIG <= v <= 2 * BIG,
    ensures
        0 <= v * v <= 4 * BIG * BIG,
{
    assert(0 <= v * v <= 4 * BIG * BIG) by (nonlinear_arith)
        requires
            -2 * BIG <= v <= 2 * BIG,
    ;
}

fn twentieth_exec(v: i64) -> (r: i64)
    requires
        v > i64::MIN,
    ensures
        r == twentieth(v as int),
{
    if v >= 0 {
        v / STEP_DIVISOR
    } else {
        -((-v) / STEP_DIVISOR)
    }
}

/// One frame of camera following: does nothing while a jump or a fall is
/// under way, and otherwise moves as `camera_frame` says.
pub fn move_camera(
    camera_move_state: &mut CameraMoveState,
    camera: &mut Pos,
    player: Pos,
    jump_state: &JumpState,
    fall_state: &FallState,
)
    requires
        camera_in_range(*old(camera_move_state), *old(camera), player),
    ensures
        jump_state.completed && fall_state.completed ==> (*final(camera_move_state), *final(camera))
            == camera_frame(*old(camera_move_state), *old(camera), player),
        !(jump_state.completed && fall_state.completed) ==> *final(camera_move_state)
            == *old(camera_move_state) && *final(camera) == *old(camera),
{
    if !(jump_state.completed && fall_state.completed) {
        return;
    }
    let dest = Pos {
        x: player.x + CAMERA_OFFSET_X,
        y: player.y + CAMERA_OFFSET_Y,
        z: player.z + CAMERA_OFFSET_Z,
    };
    let threshold = MOVE_THRESHOLD as i128;
    if dist2_exec(camera_move_state.player_pos, player) > threshold * threshold {
        camera_move_state.step = Pos {
            x: twentieth_exec(dest.x - camera.x),
            y: twentieth_exec(dest.y - camera.y),
            z: twentieth_exec(dest.z - camera.z),
        };
        camera_move_state.player_pos = player;
        camera_move_state.steps_taken = 0;
    }
    let step = camera_move_state.step;
    assert(bounded(step, COORD_LIMIT as int));
    if dist2_exec(*camera, dest) > dist2_exec(step, Pos { x: 0, y: 0, z: 0 })
        && camera_move_state.steps_taken < STEP_DIVISOR as u32 {
        camera_move_state.steps_taken = camera_move_state.steps_taken + 1;
        *camera = Pos { x: camera.x + step.x, y: camera.y + step.y, z: camera.z + step.z };
    }
}

/// Along one coordinate, with `d` the offset to the target when the step was
/// computed: before the twentieth step, taking one more brings the camera no
/// further away, and strictly closer unless the step is zero there.
proof fn lemma_coordinate_closer(d: int, k: int)
    requires
        0 <= k < STEP_DIVISOR,
    ensures
        sq(d - (k + 1) * twentieth(d)) <= sq(d - k * twentieth(d)),
        twentieth(d) != 0 ==> sq(d - (k + 1) * twentieth(d)) < sq(d - k * twentieth(d)),
{
    let s = twentieth(d);
    if d >= 0 {
        assert(0 <= s && 20 * s <= d);
        assert(0 <= (k + 1) * s <= 20 * s) by (nonlinear_arith)
            requires
                0 <= k < 20,
                0 <= s,
        ;
    } else {
        assert(s <= 0 && 20 * s >= d);
        assert(20 * s <= (k + 1) * s <= 0) by (nonlinear_arith)
            requires
                0 <= k < 20,
                s <= 0,
        ;
    }
    let r0 = d - k * s;
    let r1 = d - (k + 1) * s;
    assert(r0 == r1 + s) by (nonlinear_arith)
        requires
            r0 == d - k * s,
            r1 == d - (k + 1) * s,
    ;
    assert(sq(r1) <= sq(r0) && (s != 0 ==> sq(r1) < sq(r0))) by (nonlinear_arith)
        requires
            r0 == r1 + s,
            (s >= 0 && r1 >= 0) || (s <= 0 && r1 <= 0),
    ;
}

/// With the player standing still, a camera that has taken `k` of its steps
/// towards the target never gets further from it on the next frame, gets
/// strictly closer whenever it moves, and once it stops taking steps (within
/// one step of the target, or after twenty steps) it stays where it is on
/// every later frame. A frame that takes a step leaves it with `k + 1` steps
/// taken, so the statement applies again on the next frame.
pub proof fn lemma_camera_converges(origin: Pos, player: Pos, k: u32)
    requires
        bounded(origin, 2 * COORD_LIMIT),
        bounded(player, COORD_LIMIT as int),
        k <= STEP_DIVISOR,
    ensures
        ({
            let dest = camera_target(player);
            let step = step_toward(origin, dest);
            let state = CameraMoveState { step, player_pos: player, steps_taken: k };
            let camera = advanced(origin, step, k as int);
            let next = camera_frame(state, camera, player);
            &&& dist2(next.1, dest) <= dist2(camera, dest)
            &&& next.1 != camera ==> dist2(next.1, dest) < dist2(camera, dest)
            &&& next.0 != state ==> next.0 == (CameraMoveState { steps_taken: (k + 1) as u32, ..state })
                && next.1 == advanced(origin, step, k + 1)
            &&& next.0 == state ==> next.1 == camera && camera_frame(next.0, next.1, player) == next
        }),
{
    let dest = camera_target(player);
    let step = step_toward(origin, dest);
    let state = CameraMoveState { step, player_pos: player, steps_taken: k };
    let camera = advanced(origin, step, k as int);
    assert(dist2(player, player) == 0);
    if dist2(camera, dest) > norm2(step) && k < STEP_DIVISOR {
        lemma_coordinate_closer(dest.x - origin.x, k as int);
        lemma_coordinate_closer(dest.y - origin.y, k as int);
        lemma_coordinate_closer(dest.z - origin.z, k as int);
        lemma_advanced_exact(origin.x as int, dest.x as int, k as int);
        lemma_advanced_exact(origin.y as int, dest.y as int, k as int);
        lemma_advanced_exact(origin.z as int, dest.z as int, k as int);
        lemma_advanced_exact(origin.x as int, dest.x as int, k + 1);
        lemma_advanced_exact(origin.y as int, dest.y as int, k + 1);
        lemma_advanced_exact(origin.z as int, dest.z as int, k + 1);
        lemma_twentieth_small(dest.x - origin.x);
        lemma_twentieth_small(dest.y - origin.y);
        lemma_twentieth_small(dest.z - origin.z);
        assert(step.x == twentieth(dest.x - origin.x));
        assert(step.y == twentieth(dest.y - origin.y));
        assert(step.z == twentieth(dest.z - origin.z));
        assert(camera.x == origin.x + k * step.x);
        assert(camera.y == origin.y + k * step.y);
        assert(camera.z == origin.z + k * step.z);
        lemma_one_more(k as int, step.x as int);
        lemma_one_more(k as int, step.y as int);
        lemma_one_more(k as int, step.z as int);
        let next = advanced(camera, step, 1);
        assert(next == advanced(origin, step, k + 1));
        lemma_sq_flip(dest.x - origin.x, k as int, step.x as int);
        lemma_sq_flip(dest.y - origin.y, k as int, step.y as int);
        lemma_sq_flip(dest.z - origin.z, k as int, step.z as int);
        lemma_sq_flip(dest.x - origin.x, k + 1, step.x as int);
        lemma_sq_flip(dest.y - origin.y, k + 1, step.y as int);
        lemma_sq_flip(dest.z - origin.z, k + 1, step.z as int);
        assert(dist2(camera, dest) == sq((dest.x - origin.x) - k * step.x) + sq((dest.y - origin.y) - k
            * step.y) + sq((dest.z - origin.z) - k * step.z));
        assert(dist2(next, dest) == sq((dest.x - origin.x) - (k + 1) * step.x) + sq((dest.y - origin.y)
            - (k + 1) * step.y) + sq((dest.z - origin.z) - (k + 1) * step.z));
    }
}

proof fn lemma_sq_flip(d: int, k: int, s: int)
    ensures
        sq((d - k * s) * -1) == sq(d - k * s),
        sq(-(d - k * s)) == sq(d - k * s),
{
    assert(sq(-(d - k * s)) == sq(d - k * s)) by (nonlinear_arith);
    assert(sq((d - k * s) * -1) == sq(d - k * s)) by (nonlinear_arith);
}

proof fn lemma_one_more(k: int, s: int)
    ensures
        k * s + s == (k + 1) * s,
        1 * s == s,
{
    assert(k * s + s == (k + 1) * s) by (nonlinear_arith);
}

proof fn lemma_twentieth_small(d: int)
    ensures
        d >= 0 ==> 0 <= twentieth(d) <= d,
        d < 0 ==> d <= twentieth(d) <= 0,
{
}

/// A coordinate that has moved `k <= 20` twentieths of `dest - origin` lies
/// between the two, so it fits the integer range unchanged.
proof fn lemma_advanced_exact(origin: int, dest: int, k: int)
    requires
        -2 * COORD_LIMIT <= origin <= 2 * COORD_LIMIT,
        -2 * COORD_LIMIT <= dest <= 2 * COORD_LIMIT,
        0 <= k <= STEP_DIVISOR,
    ensures
        origin <= dest ==> origin <= origin + k * twentieth(dest - origin) <= dest,
        dest < origin ==> dest <= origin + k * twentieth(dest - origin) <= origin,
{
    let d = dest - origin;
    let s = twentieth(d);
    if d >= 0 {
        assert(0 <= s && 20 * s <= d);
        assert(0 <= k * s <= 20 * s) by (nonlinear_arith)
            requires
                0 <= k <= 20,
                0 <= s,
        ;
    } else {
        assert(s <= 0 && 20 * s >= d);
        assert(20 * s <= k * s <= 0) by (nonlinear_arith)
            requires
                0 <= k <= 20,
                s <= 0,
        ;
    }
}

/// `s` points from 0 towards `d` and is no longer than `d`, as a step that
/// is a fraction in (0, 1] of the offset `d` is.
pub open spec fn within_offset(s: int, d: int) -> bool {
    (0 <= s <= d) || (d <= s <= 0)
}

/// Any step that goes part of the way towards the target along every
/// coordinate, such as a fixed fraction of the offset, brings the camera no
/// further from the target, and strictly closer unless it is zero.
pub proof fn lemma_partial_step_approaches(camera: Pos, dest: Pos, step: Pos)
    requires
        within_offset(step.x as int, dest.x - camera.x),
        within_offset(step.y as int, dest.y - camera.y),
        within_offset(step.z as int, dest.z - camera.z),
    ensures
        dist2(advanced(camera, step, 1), dest) <= dist2(camera, dest),
        step != (Pos { x: 0, y: 0, z: 0 }) ==> dist2(advanced(camera, step, 1), dest) < dist2(camera, dest),
{
    lemma_partial_coordinate(step.x as int, dest.x - camera.x);
    lemma_partial_coordinate(step.y as int, dest.y - camera.y);
    lemma_partial_coordinate(step.z as int, dest.z - camera.z);
    let moved = advanced(camera, step, 1);
    assert(moved.x == camera.x + step.x && moved.y == camera.y + step.y && moved.z == camera.z + step.z);
}

proof fn lemma_partial_coordinate(s: int, d: int)
    requires
        within_offset(s, d),
    ensures
        sq(s - d) <= sq(-d),
        s != 0 ==> sq(s - d) < sq(-d),
{
    assert(sq(s - d) <= sq(-d) && (s != 0 ==> sq(s - d) < sq(-d))) by (nonlinear_arith)
        requires
            (0 <= s <= d) || (d <= s <= 0),
    ;
}

} // verus!
