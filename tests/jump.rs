use jump_game::geometry::{PlatformShape, Pos, UNIT};
use jump_game::platform::{PlatformColor, Platforms};
use jump_game::fall::{animate_fall, FallMotion, FallState, FallType, TiltDirection};
use jump_game::jump::{
    animate_jump, jump_duration, landing_pos, layout_axis, player_jump, take_score_up_events, Axis, JumpCues,
    JumpFrame, JumpInput, JumpState,
};
use jump_game::player::{
    animate_platform_accumulation, animate_player_accumulation, prepare_jump, reset_prepare_jump_timer,
    Accumulator, Player, PrepareJumpTimer, Scale, REST_HEIGHT, SCALE_ONE,
};
use jump_game::score::{reset_score, Score, ScoreUpEvent, ScoreUpQueue};

const GREY: PlatformColor = PlatformColor { r: 128, g: 128, b: 128 };

struct World {
    timer: PrepareJumpTimer,
    accumulator: Accumulator,
    jump: JumpState,
    fall: FallState,
    score: Score,
    queue: ScoreUpQueue,
    player: Player,
    platforms: Platforms,
}

fn world(next: Pos) -> World {
    let mut platforms = Platforms::new();
    platforms.spawn_first(PlatformShape::Box, GREY);
    platforms.spawn_next(next, PlatformShape::Box, GREY);
    let mut timer = PrepareJumpTimer::new();
    prepare_jump(&mut timer, 300_000);
    World {
        timer,
        accumulator: Accumulator(None),
        jump: JumpState::new(),
        fall: FallState::new(),
        score: Score(0),
        queue: ScoreUpQueue::new(),
        player: Player::new(),
        platforms,
    }
}

fn frame(w: &mut World, just_pressed: bool, just_released: bool, now: u64) -> JumpCues {
    player_jump(
        JumpInput { just_pressed, just_released, now },
        &w.timer,
        &mut w.accumulator,
        &mut w.jump,
        &mut w.fall,
        &mut w.score,
        &mut w.queue,
        &w.player,
        &mut w.platforms,
    )
}

/// Presses at one second and releases `charge` microseconds later.
fn charge_and_release(w: &mut World, charge: u64) {
    let cues = frame(w, true, false, 1_000_000);
    assert!(cues.start_charge_sound);
    assert_eq!(w.accumulator.0, Some(1_000_000));
    let cues = frame(w, false, true, 1_000_000 + charge);
    assert!(cues.stop_charge_sound);
    assert!(!cues.missing_next);
    assert_eq!(w.accumulator.0, None);
}

fn x_layout() -> World {
    world(Pos { x: 3 * UNIT, y: UNIT / 2, z: 0 })
}

#[test]
fn short_charge_misses_both_platforms_and_falls_straight() {
    let mut w = x_layout();
    charge_and_release(&mut w, 500_000);
    let landing = Pos { x: 3 * UNIT / 2, y: REST_HEIGHT, z: 0 };
    assert_eq!(w.jump.end_pos, landing);
    assert_eq!(w.jump.start_pos, Pos { x: 0, y: REST_HEIGHT, z: 0 });
    assert!(w.jump.falled);
    assert!(!w.jump.completed);
    assert_eq!(w.jump.animation_duration, 500_000);
    assert!(!w.fall.completed);
    assert_eq!(w.fall.fall_type, FallType::Straight);
    assert_eq!(w.fall.pos, landing);
    assert_eq!(w.score.0, 0);
    assert_eq!(w.platforms.current(), Some(0));
    assert_eq!(w.platforms.next(), Some(1));
}

#[test]
fn one_second_charge_lands_on_next_and_promotes_it() {
    let mut w = x_layout();
    charge_and_release(&mut w, 1_000_000);
    let landing = Pos { x: 3 * UNIT, y: REST_HEIGHT, z: 0 };
    assert_eq!(w.jump.end_pos, landing);
    assert!(!w.jump.falled);
    assert_eq!(w.jump.animation_duration, 500_000);
    assert!(w.fall.completed);
    assert_eq!(w.score.0, 1);
    assert_eq!(w.queue.0, vec![ScoreUpEvent { landing_pos: Pos { x: 3 * UNIT, y: REST_HEIGHT, z: 0 } }]);
    assert_eq!(w.platforms.current(), Some(1));
    assert_eq!(w.platforms.next(), None);
}

#[test]
fn grazing_the_near_edge_of_next_tilts_away() {
    let mut w = x_layout();
    // 3000 * 716_667 nm = 2.150001 units: 0.849999 short of the centre.
    charge_and_release(&mut w, 716_667);
    assert_eq!(w.jump.end_pos.x, 2_150_001_000);
    assert!(w.jump.falled);
    assert_eq!(w.fall.fall_type, FallType::Tilt(TiltDirection::PosZ));
    assert!(!w.fall.tilt_completed);
    assert_eq!(w.score.0, 0);
    assert_eq!(w.platforms.next(), Some(1));
}

#[test]
fn grazing_the_far_edge_of_next_tilts_the_other_way() {
    let mut w = x_layout();
    charge_and_release(&mut w, 1_283_334);
    assert_eq!(w.jump.end_pos.x, 3_850_002_000);
    assert_eq!(w.fall.fall_type, FallType::Tilt(TiltDirection::NegZ));
    assert_eq!(w.jump.animation_duration, 641_667);
}

#[test]
fn grazing_the_current_platform_tilts_along_the_layout() {
    let mut w = x_layout();
    charge_and_release(&mut w, 283_334);
    assert_eq!(w.jump.end_pos.x, 850_002_000);
    assert_eq!(w.fall.fall_type, FallType::Tilt(TiltDirection::NegX));
}

#[test]
fn landing_back_on_current_is_safe_but_not_scored() {
    let mut w = x_layout();
    charge_and_release(&mut w, 100_000);
    assert_eq!(w.jump.end_pos.x, 300_000_000);
    assert!(!w.jump.falled);
    assert!(w.fall.completed);
    assert_eq!(w.score.0, 0);
    assert!(w.queue.0.is_empty());
    assert_eq!(w.platforms.current(), Some(0));
}

#[test]
fn z_layout_jumps_towards_negative_z() {
    let mut w = world(Pos { x: 0, y: UNIT / 2, z: -3 * UNIT });
    charge_and_release(&mut w, 1_000_000);
    assert_eq!(w.jump.end_pos, Pos { x: 0, y: REST_HEIGHT, z: -3 * UNIT });
    assert_eq!(w.score.0, 1);
    let mut w = world(Pos { x: 0, y: UNIT / 2, z: -3 * UNIT });
    charge_and_release(&mut w, 716_667);
    assert_eq!(w.fall.fall_type, FallType::Tilt(TiltDirection::PosX));
    let mut w = world(Pos { x: 0, y: UNIT / 2, z: -3 * UNIT });
    charge_and_release(&mut w, 283_334);
    assert_eq!(w.fall.fall_type, FallType::Tilt(TiltDirection::NegZ));
}

#[test]
fn release_without_next_keeps_the_charge() {
    let mut w = x_layout();
    w.platforms.promote();
    frame(&mut w, true, false, 1_000_000);
    let cues = frame(&mut w, false, true, 2_000_000);
    assert!(cues.missing_next);
    assert!(!cues.stop_charge_sound);
    assert_eq!(w.accumulator.0, Some(1_000_000));
    assert!(w.jump.completed);
}

#[test]
fn input_is_ignored_right_after_the_run_starts() {
    let mut w = x_layout();
    reset_prepare_jump_timer(&mut w.timer);
    prepare_jump(&mut w.timer, 100_000);
    let cues = frame(&mut w, true, false, 1_000_000);
    assert!(!cues.start_charge_sound);
    assert_eq!(w.accumulator.0, None);
    prepare_jump(&mut w.timer, 100_000);
    assert!(w.timer.finished());
    assert_eq!(w.timer.elapsed, 200_000);
    let cues = frame(&mut w, true, false, 1_000_000);
    assert!(cues.start_charge_sound);
}

#[test]
fn idle_states_start_at_the_origin() {
    let origin = Pos { x: 0, y: 0, z: 0 };
    let jump = JumpState::default();
    assert_eq!((jump.start_pos, jump.end_pos, jump.completed, jump.falled), (origin, origin, true, false));
    let fall = FallState::default();
    assert_eq!((fall.pos, fall.completed, fall.fall_type), (origin, true, FallType::Straight));
}

#[test]
fn no_charge_starts_during_a_jump() {
    let mut w = x_layout();
    charge_and_release(&mut w, 1_000_000);
    let cues = frame(&mut w, true, false, 2_500_000);
    assert!(!cues.start_charge_sound);
    assert_eq!(w.accumulator.0, None);
}

#[test]
fn displacement_is_three_units_per_second_of_charge() {
    let player = Pos { x: 7, y: REST_HEIGHT, z: -11 };
    for charge in [0u64, 1, 250_000, 1_000_000, 10_000_000] {
        let l = landing_pos(player, charge, Axis::X);
        assert_eq!(l.x - player.x, 3_000 * charge as i64);
        assert_eq!(l.z, player.z);
        let l = landing_pos(player, charge, Axis::Z);
        assert_eq!(player.z - l.z, 3_000 * charge as i64);
        assert_eq!(l.x, player.x);
    }
}

#[test]
fn layout_axis_is_inferred_from_the_x_difference() {
    let current = Pos { x: 0, y: UNIT / 2, z: 0 };
    assert_eq!(layout_axis(current, Pos { x: 3 * UNIT, y: UNIT / 2, z: 0 }), Axis::X);
    assert_eq!(layout_axis(current, Pos { x: 0, y: UNIT / 2, z: -3 * UNIT }), Axis::Z);
    assert_eq!(layout_axis(current, Pos { x: 99_999_999, y: 0, z: 0 }), Axis::Z);
    assert_eq!(layout_axis(current, Pos { x: 100_000_000, y: 0, z: 0 }), Axis::X);
}

#[test]
fn jump_duration_is_half_the_charge_at_least_half_a_second() {
    assert_eq!(jump_duration(0), 500_000);
    assert_eq!(jump_duration(1_000_000), 500_000);
    assert_eq!(jump_duration(3_000_000), 1_500_000);
}

#[test]
fn arc_flight_runs_to_the_end_point() {
    let mut w = x_layout();
    charge_and_release(&mut w, 1_000_000);
    let mut frames = 0;
    loop {
        match animate_jump(&mut w.jump, &mut w.player, 16_667) {
            JumpFrame::Airborne => frames += 1,
            JumpFrame::Landed { success } => {
                assert!(success);
                break;
            }
            JumpFrame::Idle => panic!("jump was idle"),
        }
    }
    assert_eq!(frames, 29);
    assert!(w.jump.completed);
    assert_eq!(w.player.pos, Pos { x: 3 * UNIT, y: REST_HEIGHT, z: 0 });
    assert_eq!(animate_jump(&mut w.jump, &mut w.player, 16_667), JumpFrame::Idle);
}

#[test]
fn straight_fall_descends_to_game_over() {
    let mut w = x_layout();
    charge_and_release(&mut w, 500_000);
    // The fall waits for the flight.
    let f = animate_fall(&mut w.fall, &w.jump, &mut w.player, 100_000);
    assert_eq!(f.motion, FallMotion::Idle);
    while animate_jump(&mut w.jump, &mut w.player, 100_000) != (JumpFrame::Landed { success: false }) {}
    let f = animate_fall(&mut w.fall, &w.jump, &mut w.player, 100_000);
    assert!(f.play_fall_sound);
    assert_eq!(f.motion, FallMotion::Descend);
    assert_eq!(w.player.pos.y, REST_HEIGHT - 70_000_000);
    let mut motions = 1;
    loop {
        let f = animate_fall(&mut w.fall, &w.jump, &mut w.player, 100_000);
        assert!(!f.play_fall_sound);
        if f.motion == FallMotion::GameOver {
            break;
        }
        motions += 1;
    }
    // 1.5 - 0.07 * 15 = 0.45 < 0.5
    assert_eq!(motions, 15);
    assert!(w.fall.completed);
    assert_eq!(animate_fall(&mut w.fall, &w.jump, &mut w.player, 100_000).motion, FallMotion::Idle);
}

#[test]
fn tilt_fall_tips_for_a_second_then_descends() {
    let mut fall = FallState::new();
    let jump = JumpState::new();
    let mut player = Player::new();
    fall.animate_tilt_fall(player.pos, TiltDirection::NegX);
    assert_eq!(fall.pivot(), Pos { x: 0, y: UNIT, z: 0 });
    let mut tilts = 0;
    loop {
        let f = animate_fall(&mut fall, &jump, &mut player, 250_000);
        assert_eq!(f.play_fall_sound, tilts == 0);
        if f.motion == FallMotion::TiltDone {
            break;
        }
        assert_eq!(f.motion, FallMotion::Tilt);
        tilts += 1;
    }
    assert_eq!(tilts, 5);
    assert!(fall.tilt_completed);
    assert_eq!(player.pos.y, UNIT);
    let mut descents = 0;
    while animate_fall(&mut fall, &jump, &mut player, 250_000).motion == FallMotion::Descend {
        descents += 1;
    }
    // 1.0 - 0.175 * 5 = 0.125 < 0.2
    assert_eq!(descents, 5);
    assert!(fall.completed);
}

#[test]
fn charging_squashes_player_and_platform() {
    let charging = Accumulator(Some(0));
    let mut player = Player::new();
    animate_player_accumulation(&charging, &mut player, 1_000_000);
    assert_eq!(player.scale, Scale { x: 1_120_000_000, y: 850_000_000, z: 1_120_000_000 });
    animate_player_accumulation(&charging, &mut player, 10_000_000);
    assert_eq!(player.scale, Scale { x: 1_300_000_000, y: 600_000_000, z: 1_300_000_000 });
    animate_player_accumulation(&Accumulator(None), &mut player, 10);
    assert_eq!(player.scale, Scale { x: SCALE_ONE, y: SCALE_ONE, z: SCALE_ONE });
    let mut scale = Scale { x: SCALE_ONE, y: SCALE_ONE, z: SCALE_ONE };
    animate_platform_accumulation(&charging, &mut scale, 2_000_000);
    assert_eq!(scale, Scale { x: SCALE_ONE, y: 700_000_000, z: SCALE_ONE });
    animate_platform_accumulation(&charging, &mut scale, 2_000_000);
    assert_eq!(scale.y, 600_000_000);
    animate_platform_accumulation(&Accumulator(None), &mut scale, 0);
    assert_eq!(scale.y, SCALE_ONE);
}

#[test]
fn pop_ups_are_handed_out_once_the_flight_ends() {
    let mut w = x_layout();
    charge_and_release(&mut w, 1_000_000);
    assert!(take_score_up_events(&mut w.queue, &w.jump).is_empty());
    assert_eq!(w.queue.0.len(), 1);
    while animate_jump(&mut w.jump, &mut w.player, 100_000) == JumpFrame::Airborne {}
    let events = take_score_up_events(&mut w.queue, &w.jump);
    assert_eq!(events.len(), 1);
    assert_eq!(events[0].landing_pos, Pos { x: 3 * UNIT, y: REST_HEIGHT, z: 0 });
    assert!(w.queue.0.is_empty());
    reset_score(&mut w.score);
    assert_eq!(w.score.0, 0);
}
