//! Charging and launching a jump, resolving where it lands, and its arc
//! flight.
use vstd::prelude::*;

use crate::fall::{straight_fall_started, tilt_fall_started, FallState, TiltDirection};
use crate::geometry::{abs_diff, mirror, Pos, PLAYER_RADIUS};
use crate::platform::{Platform, Platforms};
use crate::player::{Accumulator, Player, PrepareJumpTimer, REST_HEIGHT};
use crate::score::{Score, ScoreUpEvent, ScoreUpQueue};

verus! {

/// Horizontal speed of a jump per microsecond of charge: 3 units per second.
pub const JUMP_SPEED: i64 = 3_000;

/// Below this X difference between the next and the current platform the
/// layout runs along Z (0.1 units).
pub const LAYOUT_EPSILON: i64 = 100_000_000;

/// Shortest jump animation, in microseconds (0.5 s).
pub const MIN_JUMP_DURATION: u64 = 500_000;

/// The horizontal axis along which platforms are laid out.
#[derive(Clone, Copy, Debug, PartialEq, Eq, Structural)]
pub enum Axis {
    X,
    Z,
}

/// The layout axis inferred from the current and the next platform.
pub open spec fn layout_axis_spec(current: Pos, next: Pos) -> Axis {
    if next.x - current.x < LAYOUT_EPSILON {
        Axis::Z
    } else {
        Axis::X
    }
}

/// Time charged, in microseconds, between `start` and `now` (none when the
/// clock reads earlier than the start).
pub open spec fn charge_elapsed(start: u64, now: u64) -> int {
    if now >= start {
        now - start
    } else {
        0
    }
}

/// Where a jump of `charge` microseconds from `player` lands: `3000 * charge`
/// nanometres along +X or along -Z, at rest height.
pub open spec fn landing_pos_spec(player: Pos, charge: int, axis: Axis) -> Pos {
    match axis {
        Axis::X => Pos { x: (player.x + JUMP_SPEED * charge) as i64, y: REST_HEIGHT, z: player.z },
        Axis::Z => Pos { x: player.x, y: REST_HEIGHT, z: (player.z - JUMP_SPEED * charge) as i64 },
    }
}

/// The jump from `player` stays in the integer range for any charge up to `max_charge`.
pub open spec fn jump_in_range(player: Pos, max_charge: int) -> bool {
    player.x + JUMP_SPEED * max_charge <= i64::MAX && player.z - JUMP_SPEED * max_charge >= i64::MIN
}

/// Length of the jump animation: half the charge, at least half a second.
pub open spec fn jump_duration_spec(charge: int) -> int {
    if charge / 2 > MIN_JUMP_DURATION {
        charge / 2
    } else {
        MIN_JUMP_DURATION as int
    }
}

/// How a landing point relates to the two platforms.
#[derive(Clone, Copy, Debug, PartialEq, Eq, Structural)]
pub enum LandingKind {
    /// Stands on the next platform: scores and promotes it.
    OnNext,
    /// Stands on the current platform: safe, but no score.
    OnCurrent,
    /// Misses both, but grazes the current platform's edge.
    EdgeOfCurrent,
    /// Misses both, but grazes the next platform's edge.
    EdgeOfNext,
    /// Misses both cleanly.
    Miss,
}

/// Classification of a landing point against the current and next platform:
/// standing on either is a success; otherwise the edges are tested, the
/// current platform first.
pub open spec fn classify_spec(current: Platform, next: Platform, landing: Pos) -> LandingKind {
    if next.shape.landed_spec(next.pos, landing) {
        LandingKind::OnNext
    } else if current.shape.landed_spec(current.pos, landing) {
        LandingKind::OnCurrent
    } else if current.shape.touched_spec(current.pos, landing, PLAYER_RADIUS as int) {
        LandingKind::EdgeOfCurrent
    } else if next.shape.touched_spec(next.pos, landing, PLAYER_RADIUS as int) {
        LandingKind::EdgeOfNext
    } else {
        LandingKind::Miss
    }
}

pub open spec fn is_success(kind: LandingKind) -> bool {
    kind == LandingKind::OnNext || kind == LandingKind::OnCurrent
}

/// Tilt axis after grazing the current platform: -X for a layout along X,
/// -Z for one along Z.
pub open spec fn current_edge_tilt(axis: Axis) -> TiltDirection {
    match axis {
        Axis::X => TiltDirection::NegX,
        Axis::Z => TiltDirection::NegZ,
    }
}

/// Tilt axis after grazing the next platform, by the side that was grazed so
/// that the player tips away from it.
pub open spec fn next_edge_tilt(axis: Axis, landing: Pos, next: Pos) -> TiltDirection {
    match axis {
        Axis::Z => if landing.z < next.z { TiltDirection::NegX } else { TiltDirection::PosX },
        Axis::X => if landing.x < next.x { TiltDirection::PosZ } else { TiltDirection::NegZ },
    }
}

/// The layout axis: along Z when the next platform is less than 0.1 units
/// further along X than the current one, along X otherwise.
pub fn layout_axis(current: Pos, next: Pos) -> (r: Axis)
    ensures
        r == layout_axis_spec(current, next),
{
    if (next.x as i128) - (current.x as i128) < LAYOUT_EPSILON as i128 {
        Axis::Z
    } else {
        Axis::X
    }
}

/// The landing point of a jump charged for `charge` microseconds: the player
/// moves `3000 * charge` nanometres along the layout axis (+X or -Z), keeps the
/// other horizontal coordinate, and lands at rest height.
pub fn landing_pos(player: Pos, charge: u64, axis: Axis) -> (r: Pos)
    requires
        jump_in_range(player, charge as int),
    ensures
        r == landing_pos_spec(player, charge as int, axis),
        axis == Axis::X ==> abs_diff(r.x as int, player.x as int) == JUMP_SPEED * charge && r.z == player.z,
        axis == Axis::Z ==> abs_diff(r.z as int, player.z as int) == JUMP_SPEED * charge && r.x == player.x,
        r.y == REST_HEIGHT,
{
    let shift = JUMP_SPEED as i128 * charge as i128;
    match axis {
        Axis::X => Pos { x: (player.x as i128 + shift) as i64, y: REST_HEIGHT, z: player.z },
        Axis::Z => Pos { x: player.x, y: REST_HEIGHT, z: (player.z as i128 - shift) as i64 },
    }
}

/// The animation length for a charge: `max(0.5 s, charge / 2)`.
pub fn jump_duration(charge: u64) -> (r: u64)
    ensures
        r == jump_duration_spec(charge as int),
        r >= MIN_JUMP_DURATION,
{
    if charge / 2 > MIN_JUMP_DURATION {
        charge / 2
    } else {
        MIN_JUMP_DURATION
    }
}

/// Classifies a landing point against the current and the next platform.
pub fn classify_landing(current: &Platform, next: &Platform, landing: Pos) -> (r: LandingKind)
    ensures
        r == classify_spec(*current, *next, landing),
{
    if next.shape.is_landed_on_platform(next.pos, landing) {
        LandingKind::OnNext
    } else if current.shape.is_landed_on_platform(current.pos, landing) {
        LandingKind::OnCurrent
    } else if current.shape.is_touched_player(current.pos, landing, PLAYER_RADIUS) {
        LandingKind::EdgeOfCurrent
    } else if next.shape.is_touched_player(next.pos, landing, PLAYER_RADIUS) {
        LandingKind::EdgeOfNext
    } else {
        LandingKind::Miss
    }
}

/// The tilt axis after grazing the next platform.
pub fn next_edge_tilt_direction(axis: Axis, landing: Pos, next: Pos) -> (r: TiltDirection)
    ensures
        r == next_edge_tilt(axis, landing, next),
{
    match axis {
        Axis::Z => if landing.z < next.z { TiltDirection::NegX } else { TiltDirection::PosX },
        Axis::X => if landing.x < next.x { TiltDirection::PosZ } else { TiltDirection::NegZ },
    }
}

/// The tilt axis after grazing the current platform.
pub fn current_edge_tilt_direction(axis: Axis) -> (r: TiltDirection)
    ensures
        r == current_edge_tilt(axis),
{
    match axis {
        Axis::X => TiltDirection::NegX,
        Axis::Z => TiltDirection::NegZ,
    }
}

/// A jump of any charge moves the player along the inferred axis by exactly
/// 3 units per second of charge (3000 nanometres per microsecond), and
/// nowhere else horizontally.
pub proof fn lemma_jump_distance_is_proportional(player: Pos, charge: nat, current: Pos, next: Pos)
    requires
        jump_in_range(player, charge as int),
    ensures
        ({
            let l = landing_pos_spec(player, charge as int, layout_axis_spec(current, next));
            match layout_axis_spec(current, next) {
                Axis::X => abs_diff(l.x as int, player.x as int) == JUMP_SPEED * charge && l.z == player.z,
                Axis::Z => abs_diff(l.z as int, player.z as int) == JUMP_SPEED * charge && l.x == player.x,
            }
        }),
{
}

/// A platform under `mirror`.
pub open spec fn mirrored(p: Platform) -> Platform {
    Platform { pos: mirror(p.pos), shape: p.shape, color: p.color }
}

/// The tilt axis that `mirror` makes of `d`. A rotation axis is an axial
/// vector, so under a reflection it maps to the negated image: the axis
/// moves to the other horizontal axis and keeps its sign.
pub open spec fn mirrored_tilt(d: TiltDirection) -> TiltDirection {
    match d {
        TiltDirection::PosX => TiltDirection::PosZ,
        TiltDirection::NegX => TiltDirection::NegZ,
        TiltDirection::PosZ => TiltDirection::PosX,
        TiltDirection::NegZ => TiltDirection::NegX,
    }
}

/// Laying the same jump out along Z instead of X (every position mirrored,
/// the same charge and shapes) mirrors the landing point, keeps the
/// classification of the landing, and mirrors the tilt axis of a fall after
/// grazing either platform. The side of the next platform is decided by a
/// strict comparison, so a landing level with the next platform's centre
/// along the travel axis is left out of the last statement.
pub proof fn lemma_resolution_mirrors_with_layout(player: Pos, charge: nat, current: Platform, next: Platform)
    requires
        next.pos.z == current.pos.z,
        next.pos.x - current.pos.x >= LAYOUT_EPSILON,
        jump_in_range(player, charge as int),
        player.x > i64::MIN,
        player.z > i64::MIN,
        current.pos.x > i64::MIN,
        current.pos.z > i64::MIN,
        next.pos.x > i64::MIN,
        next.pos.z > i64::MIN,
        player.x + JUMP_SPEED * charge < i64::MAX,
    ensures
        ({
            let l = landing_pos_spec(player, charge as int, Axis::X);
            let l2 = landing_pos_spec(mirror(player), charge as int, Axis::Z);
            &&& layout_axis_spec(current.pos, next.pos) == Axis::X
            &&& layout_axis_spec(mirrored(current).pos, mirrored(next).pos) == Axis::Z
            &&& l2 == mirror(l)
            &&& classify_spec(mirrored(current), mirrored(next), l2) == classify_spec(current, next, l)
            &&& current_edge_tilt(Axis::Z) == mirrored_tilt(current_edge_tilt(Axis::X))
            &&& l.x != next.pos.x ==> next_edge_tilt(Axis::Z, l2, mirror(next.pos)) == mirrored_tilt(
                next_edge_tilt(Axis::X, l, next.pos),
            )
        }),
{
    let l = landing_pos_spec(player, charge as int, Axis::X);
    let l2 = landing_pos_spec(mirror(player), charge as int, Axis::Z);
    assert(l2 == mirror(l));
    crate::geometry::lemma_hit_tests_ignore_axis_swap(
        current.shape,
        current.pos,
        l,
        Pos { x: current.pos.z, y: current.pos.y, z: current.pos.x },
        Pos { x: l.z, y: l.y, z: l.x },
        PLAYER_RADIUS as int,
    );
    crate::geometry::lemma_hit_tests_ignore_axis_swap(
        next.shape,
        next.pos,
        l,
        Pos { x: next.pos.z, y: next.pos.y, z: next.pos.x },
        Pos { x: l.z, y: l.y, z: l.x },
        PLAYER_RADIUS as int,
    );
    crate::geometry::lemma_hit_tests_ignore_reflection_and_shift(
        current.shape,
        Pos { x: current.pos.z, y: current.pos.y, z: current.pos.x },
        Pos { x: l.z, y: l.y, z: l.x },
        mirror(current.pos),
        l2,
        -1,
        -1,
        0,
        0,
        PLAYER_RADIUS as int,
    );
    crate::geometry::lemma_hit_tests_ignore_reflection_and_shift(
        next.shape,
        Pos { x: next.pos.z, y: next.pos.y, z: next.pos.x },
        Pos { x: l.z, y: l.y, z: l.x },
        mirror(next.pos),
        l2,
        -1,
        -1,
        0,
        0,
        PLAYER_RADIUS as int,
    );
}

/// The arc flight of a jump. `completed` is the idle state.
#[derive(Clone, Copy, Debug, PartialEq, Eq, Structural)]
pub struct JumpState {
    pub start_pos: Pos,
    pub end_pos: Pos,
    /// Microseconds.
    pub animation_duration: u64,
    /// Whether the jump ends in a fall.
    pub falled: bool,
    pub completed: bool,
    /// Microseconds of flight so far.
    pub elapsed: u64,
}

impl JumpState {
    /// Idle, with nothing in flight.
    pub fn new() -> (r: JumpState)
        ensures
            r.start_pos == (Pos { x: 0, y: 0, z: 0 }),
            r.end_pos == (Pos { x: 0, y: 0, z: 0 }),
            r.completed,
            !r.falled,
            r.animation_duration == 0,
            r.elapsed == 0,
    {
        JumpState {
            start_pos: Pos { x: 0, y: 0, z: 0 },
            end_pos: Pos { x: 0, y: 0, z: 0 },
            animation_duration: 0,
            falled: false,
            completed: true,
            elapsed: 0,
        }
    }

    /// Starts the arc flight from `start_pos` to `end_pos`; only an idle
    /// state can start one.
    pub fn animate_jump(&mut self, start_pos: Pos, end_pos: Pos, animation_duration: u64)
        requires
            old(self).completed,
        ensures
            *final(self) == (JumpState {
                start_pos,
                end_pos,
                animation_duration,
                falled: old(self).falled,
                completed: false,
                elapsed: 0,
            }),
    {
        self.start_pos = start_pos;
        self.end_pos = end_pos;
        self.animation_duration = animation_duration;
        self.completed = false;
        self.elapsed = 0;
    }

    /// The axis the flight turns about: X for travel along Z, Z for travel along X.
    pub fn rotation_axis(&self) -> (r: Axis)
        ensures
            r == (if self.end_pos.x - self.start_pos.x < LAYOUT_EPSILON { Axis::X } else { Axis::Z }),
    {
        if (self.end_pos.x as i128) - (self.start_pos.x as i128) < LAYOUT_EPSILON as i128 {
            Axis::X
        } else {
            Axis::Z
        }
    }
}

impl Default for JumpState {
    fn default() -> (r: JumpState)
        ensures
            r.start_pos == (Pos { x: 0, y: 0, z: 0 }),
            r.end_pos == (Pos { x: 0, y: 0, z: 0 }),
            r.completed,
            !r.falled,
            r.animation_duration == 0,
            r.elapsed == 0,
    {
        JumpState::new()
    }
}

/// The jump button during one frame, and the clock in microseconds.
#[derive(Clone, Copy, Debug, PartialEq, Eq, Structural)]
pub struct JumpInput {
    pub just_pressed: bool,
    pub just_released: bool,
    pub now: u64,
}

/// What a frame of jump handling asks of the collaborators.
#[derive(Clone, Copy, Debug, PartialEq, Eq, Structural)]
pub struct JumpCues {
    /// Start the looping charge sound.
    pub start_charge_sound: bool,
    /// Stop the charge sound: a jump was launched.
    pub stop_charge_sound: bool,
    /// A release came while there was no next platform; the charge is kept.
    pub missing_next: bool,
}

/// The fall state after a jump that lands as `kind`: a tilt about the axis
/// that the grazed edge gives, a straight fall after a clean miss, and no
/// change after a success.
pub open spec fn fall_after(fall: FallState, kind: LandingKind, landing: Pos, axis: Axis, next: Pos) -> FallState {
    match kind {
        LandingKind::EdgeOfCurrent => tilt_fall_started(fall, landing, current_edge_tilt(axis)),
        LandingKind::EdgeOfNext => tilt_fall_started(fall, landing, next_edge_tilt(axis, landing, next)),
        LandingKind::Miss => straight_fall_started(fall, landing),
        _ => fall,
    }
}

/// The pop-up for a scoring landing, at the landing point.
pub open spec fn popup_for(landing: Pos) -> ScoreUpEvent {
    ScoreUpEvent { landing_pos: landing }
}

/// The state before (`j0`, `f0`, `s0`, `q0`, `p0`) and after (`j1`, ...) a
/// jump of `charge` microseconds launched from `player`: the landing point
/// comes from the inferred layout axis, the flight starts towards it whatever
/// the outcome, a landing on the next platform scores, queues a pop-up and
/// promotes that platform, and a failure starts the matching fall.
pub open spec fn jump_resolved(
    charge: int,
    player: Pos,
    j0: JumpState,
    j1: JumpState,
    f0: FallState,
    f1: FallState,
    s0: Score,
    s1: Score,
    q0: Seq<ScoreUpEvent>,
    q1: Seq<ScoreUpEvent>,
    p0: Platforms,
    p1: Platforms,
) -> bool {
    let current = p0.items()[p0.current_index().unwrap() as int];
    let next = p0.items()[p0.next_index().unwrap() as int];
    let axis = layout_axis_spec(current.pos, next.pos);
    let landing = landing_pos_spec(player, charge, axis);
    let kind = classify_spec(current, next, landing);
    &&& j1 == (JumpState {
        start_pos: player,
        end_pos: landing,
        animation_duration: jump_duration_spec(charge) as u64,
        falled: !is_success(kind),
        completed: false,
        elapsed: 0,
    })
    &&& f1 == fall_after(f0, kind, landing, axis, next.pos)
    &&& p1.wf()
    &&& if kind == LandingKind::OnNext {
        &&& s1.0 == s0.0 + 1
        &&& q1 == q0.push(popup_for(landing))
        &&& p1.items() == p0.items()
        &&& p1.current_index() == p0.next_index()
        &&& p1.next_index().is_none()
    } else {
        &&& s1 == s0
        &&& q1 == q0
        &&& p1 == p0
    }
}

/// Launches a jump charged for `charge` microseconds from `player` and
/// resolves its outcome against the current and the next platform. Only
/// an idle jump and fall state can launch one.
pub fn release_jump(
    charge: u64,
    player: &Player,
    jump_state: &mut JumpState,
    fall_state: &mut FallState,
    score: &mut Score,
    score_up_queue: &mut ScoreUpQueue,
    platforms: &mut Platforms,
)
    requires
        old(platforms).wf(),
        old(platforms).next_index().is_some(),
        jump_in_range(player.pos, charge as int),
        old(score).0 < u64::MAX,
        old(jump_state).completed,
        old(fall_state).completed,
    ensures
        jump_resolved(
            charge as int,
            player.pos,
            *old(jump_state),
            *final(jump_state),
            *old(fall_state),
            *final(fall_state),
            *old(score),
            *final(score),
            old(score_up_queue).0@,
            final(score_up_queue).0@,
            *old(platforms),
            *final(platforms),
        ),
{
    let current = match platforms.current_platform() {
        Some(p) => p,
        None => {
            return;
        },
    };
    let next = match platforms.next_platform() {
        Some(p) => p,
        None => {
            return;
        },
    };
    let axis = layout_axis(current.pos, next.pos);
    let landing = landing_pos(player.pos, charge, axis);
    jump_state.animate_jump(player.pos, landing, jump_duration(charge));
    let kind = classify_landing(&current, &next, landing);
    match kind {
        LandingKind::OnNext => {
            jump_state.falled = false;
            score.0 = score.0 + 1;
            score_up_queue.0.push(
                ScoreUpEvent {
                    landing_pos: landing,
                },
            );
            platforms.promote();
        },
        LandingKind::OnCurrent => {
            jump_state.falled = false;
        },
        LandingKind::EdgeOfCurrent => {
            jump_state.falled = true;
            fall_state.animate_tilt_fall(landing, current_edge_tilt_direction(axis));
        },
        LandingKind::EdgeOfNext => {
            jump_state.falled = true;
            fall_state.animate_tilt_fall(landing, next_edge_tilt_direction(axis, landing, next.pos));
        },
        LandingKind::Miss => {
            jump_state.falled = true;
            fall_state.animate_straight_fall(landing);
        },
    }
}

/// One frame of jump input. Once the start-of-run delay is over, a press
/// while neither a jump nor a fall is under way starts a charge; a release
/// while charging in the same idle state launches the jump, unless there is
/// no next platform, in which case the charge is kept and the frame says so.
pub fn player_jump(
    input: JumpInput,
    prepare_timer: &PrepareJumpTimer,
    accumulator: &mut Accumulator,
    jump_state: &mut JumpState,
    fall_state: &mut FallState,
    score: &mut Score,
    score_up_queue: &mut ScoreUpQueue,
    player: &Player,
    platforms: &mut Platforms,
) -> (cues: JumpCues)
    requires
        old(platforms).wf(),
        jump_in_range(player.pos, input.now as int),
        old(score).0 < u64::MAX,
    ensures
        ({
            let idle = old(jump_state).completed && old(fall_state).completed;
            let starts = prepare_timer.finished_spec() && input.just_pressed && idle;
            let start = if starts { Some(input.now) } else { old(accumulator).0 };
            let asks = prepare_timer.finished_spec() && input.just_released && idle && start.is_some();
            let launches = asks && old(platforms).next_index().is_some();
            &&& cues.start_charge_sound == starts
            &&& cues.missing_next == (asks && old(platforms).next_index().is_none())
            &&& cues.stop_charge_sound == launches
            &&& final(accumulator).0 == (if launches { None } else { start })
            &&& launches ==> jump_resolved(
                charge_elapsed(start.unwrap(), input.now),
                player.pos,
                *old(jump_state),
                *final(jump_state),
                *old(fall_state),
                *final(fall_state),
                *old(score),
                *final(score),
                old(score_up_queue).0@,
                final(score_up_queue).0@,
                *old(platforms),
                *final(platforms),
            )
            &&& !launches ==> {
                &&& *final(jump_state) == *old(jump_state)
                &&& *final(fall_state) == *old(fall_state)
                &&& *final(score) == *old(score)
                &&& final(score_up_queue).0@ == old(score_up_queue).0@
                &&& *final(platforms) == *old(platforms)
            }
        }),
{
    let mut cues = JumpCues { start_charge_sound: false, stop_charge_sound: false, missing_next: false };
    if !prepare_timer.finished() {
        return cues;
    }
    if input.just_pressed && jump_state.completed && fall_state.completed {
        accumulator.0 = Some(input.now);
        cues.start_charge_sound = true;
    }
    if input.just_released && jump_state.completed && fall_state.completed {
        if let Some(start) = accumulator.0 {
            if platforms.next().is_none() {
                cues.missing_next = true;
                return cues;
            }
            let charge = if input.now >= start { input.now - start } else { 0 };
            release_jump(charge, player, jump_state, fall_state, score, score_up_queue, platforms);
            accumulator.0 = None;
            cues.stop_charge_sound = true;
        }
    }
    cues
}

/// What one frame of the arc flight did.
#[derive(Clone, Copy, Debug, PartialEq, Eq, Structural)]
pub enum JumpFrame {
    /// No jump under way.
    Idle,
    /// The flight goes on: turn the player on along the arc by this frame's
    /// share of the half turn.
    Airborne,
    /// The flight would pass below the rest height this frame: the player is
    /// put down on the landing point, upright; play the success sound when
    /// `success`.
    Landed { success: bool },
}

/// One frame of `dt` microseconds of the arc flight. The player turns half a
/// turn about the midpoint of the flight over the animation's duration, so
/// its height would drop below the rest height exactly when the flight time
/// passes that duration; on that frame the player is put on the end point and
/// the jump is complete.
pub fn animate_jump(jump_state: &mut JumpState, player: &mut Player, dt: u32) -> (r: JumpFrame)
    ensures
        old(jump_state).completed ==> r == JumpFrame::Idle && *final(jump_state) == *old(jump_state)
            && *final(player) == *old(player),
        !old(jump_state).completed && old(jump_state).elapsed + dt > old(jump_state).animation_duration ==> {
            &&& r == (JumpFrame::Landed { success: !old(jump_state).falled })
            &&& *final(jump_state) == (JumpState { completed: true, ..*old(jump_state) })
            &&& *final(player) == (Player { pos: old(jump_state).end_pos, ..*old(player) })
        },
        !old(jump_state).completed && old(jump_state).elapsed + dt <= old(jump_state).animation_duration ==> {
            &&& r == JumpFrame::Airborne
            &&& *final(jump_state) == (JumpState {
                elapsed: (old(jump_state).elapsed + dt) as u64,
                ..*old(jump_state)
            })
            &&& *final(player) == *old(player)
        },
{
    if jump_state.completed {
        return JumpFrame::Idle;
    }
    if (jump_state.elapsed as u128) + (dt as u128) > jump_state.animation_duration as u128 {
        player.pos = jump_state.end_pos;
        jump_state.completed = true;
        JumpFrame::Landed { success: !jump_state.falled }
    } else {
        jump_state.elapsed = jump_state.elapsed + dt as u64;
        JumpFrame::Airborne
    }
}

/// The pop-ups to show this frame: once the flight is over, every queued
/// one, oldest first, leaving the queue empty; none while a jump is in
/// the air.
pub fn take_score_up_events(score_up_queue: &mut ScoreUpQueue, jump_state: &JumpState) -> (r: Vec<ScoreUpEvent>)
    ensures
        jump_state.completed ==> r@ == old(score_up_queue).0@ && final(score_up_queue).0@.len() == 0,
        !jump_state.completed ==> r@.len() == 0 && final(score_up_queue).0@ == old(score_up_queue).0@,
{
    if jump_state.completed {
        let mut taken = Vec::new();
        std::mem::swap(&mut taken, &mut score_up_queue.0);
        taken
    } else {
        Vec::new()
    }
}

} // verus!
