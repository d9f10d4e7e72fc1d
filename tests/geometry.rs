use jump_game::geometry::{PlatformShape, Pos, BOX_HALF_SIDE, PLAYER_RADIUS, UNIT};

fn at(x: i64, y: i64, z: i64) -> Pos {
    Pos { x, y, z }
}

#[test]
fn box_landing_inside_and_outside() {
    let platform = at(3 * UNIT, UNIT / 2, 0);
    assert!(PlatformShape::Box.is_landed_on_platform(platform, at(3 * UNIT, 3 * UNIT / 2, 0)));
    assert!(PlatformShape::Box.is_landed_on_platform(platform, at(3 * UNIT + 700_000_000, 0, -700_000_000)));
    assert!(!PlatformShape::Box.is_landed_on_platform(platform, at(3 * UNIT / 2, 3 * UNIT / 2, 0)));
    assert!(!PlatformShape::Box.is_landed_on_platform(platform, at(3 * UNIT, 0, 800_000_000)));
}

#[test]
fn landing_exactly_on_the_boundary_misses() {
    let platform = at(0, 0, 0);
    assert!(!PlatformShape::Box.is_landed_on_platform(platform, at(BOX_HALF_SIDE, 0, 0)));
    assert!(!PlatformShape::Cylinder.is_landed_on_platform(platform, at(0, 0, -BOX_HALF_SIDE)));
    assert!(PlatformShape::Box.is_landed_on_platform(platform, at(BOX_HALF_SIDE - 1, 0, 0)));
    assert!(!PlatformShape::Box.is_touched_player(platform, at(BOX_HALF_SIDE + PLAYER_RADIUS, 0, 0), PLAYER_RADIUS));
}

#[test]
fn cylinder_uses_its_bounding_square() {
    let platform = at(0, 0, 0);
    // Outside the circle of radius 0.75, inside its square.
    assert!(PlatformShape::Cylinder.is_landed_on_platform(platform, at(700_000_000, 0, 700_000_000)));
}

#[test]
fn touch_with_zero_radius_matches_landing() {
    let platform = at(UNIT, 0, -UNIT);
    let points = [at(UNIT, 0, -UNIT), at(UNIT + 749_999_999, 0, -UNIT), at(UNIT + 750_000_000, 0, -UNIT), at(0, 0, 0)];
    for shape in [PlatformShape::Box, PlatformShape::Cylinder] {
        for p in points {
            assert_eq!(shape.is_touched_player(platform, p, 0), shape.is_landed_on_platform(platform, p));
        }
    }
}

#[test]
fn touch_with_radius_reaches_past_the_edge() {
    let platform = at(3 * UNIT, UNIT / 2, 0);
    let graze = at(3 * UNIT - 850_000_000, 3 * UNIT / 2, 0);
    assert!(!PlatformShape::Box.is_landed_on_platform(platform, graze));
    assert!(PlatformShape::Box.is_touched_player(platform, graze, PLAYER_RADIUS));
    let far = at(3 * UNIT - 950_000_000, 3 * UNIT / 2, 0);
    assert!(!PlatformShape::Box.is_touched_player(platform, far, PLAYER_RADIUS));
}

#[test]
fn hit_tests_do_not_depend_on_the_layout_axis() {
    // A point 0.8 units short of a platform along X, and the same turned to -Z.
    let platform = at(3 * UNIT, UNIT / 2, 0);
    let landing = at(3 * UNIT - 800_000_000, 3 * UNIT / 2, 0);
    let platform_z = at(0, UNIT / 2, -3 * UNIT);
    let landing_z = at(0, 3 * UNIT / 2, -3 * UNIT + 800_000_000);
    for shape in [PlatformShape::Box, PlatformShape::Cylinder] {
        assert_eq!(shape.is_landed_on_platform(platform, landing), shape.is_landed_on_platform(platform_z, landing_z));
        assert_eq!(
            shape.is_touched_player(platform, landing, PLAYER_RADIUS),
            shape.is_touched_player(platform_z, landing_z, PLAYER_RADIUS)
        );
        assert!(shape.is_touched_player(platform_z, landing_z, PLAYER_RADIUS));
    }
}
