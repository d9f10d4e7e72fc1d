//! Positions, platform shapes and the hit tests on them.
use vstd::prelude::*;

verus! {

/// One world unit, in nanometres.
pub const UNIT: i64 = 1_000_000_000;

/// Half the side of a box platform's square footprint (0.75 units).
pub const BOX_HALF_SIDE: i64 = 750_000_000;

/// Radius of a cylinder platform (0.75 units).
pub const CYLINDER_RADIUS: i64 = 750_000_000;

/// Collision radius of the player, used for the edge-touch test (0.2 units).
pub const PLAYER_RADIUS: i64 = 200_000_000;

/// A point of world space, in nanometres.
#[derive(Clone, Copy, Debug, PartialEq, Eq, Structural)]
pub struct Pos {
    pub x: i64,
    pub y: i64,
    pub z: i64,
}

/// `|a - b|` over the integers.
pub open spec fn abs_diff(a: int, b: int) -> int {
    if a >= b { a - b } else { b - a }
}

/// Both horizontal deltas between `center` and `point` are strictly below `reach`.
pub open spec fn within_square(center: Pos, point: Pos, reach: int) -> bool {
    abs_diff(point.x as int, center.x as int) < reach
        && abs_diff(point.z as int, center.z as int) < reach
}

/// The shape of a platform; both have a square hit footprint.
#[derive(Clone, Copy, Debug, PartialEq, Eq, Structural)]
pub enum PlatformShape {
    Box,
    Cylinder,
}

impl PlatformShape {
    /// Half the extent of the square hit footprint of this shape.
    pub open spec fn half_extent_spec(self) -> int {
        match self {
            PlatformShape::Box => BOX_HALF_SIDE as int,
            PlatformShape::Cylinder => CYLINDER_RADIUS as int,
        }
    }

    /// A landing at `landing_pos` stands on a platform of this shape at `platform_pos`.
    pub open spec fn landed_spec(self, platform_pos: Pos, landing_pos: Pos) -> bool {
        within_square(platform_pos, landing_pos, self.half_extent_spec())
    }

    /// A player of radius `player_radius` at `landing_pos` touches the platform.
    pub open spec fn touched_spec(self, platform_pos: Pos, landing_pos: Pos, player_radius: int) -> bool {
        within_square(platform_pos, landing_pos, self.half_extent_spec() + player_radius)
    }

    pub fn half_extent(&self) -> (r: i64)
        ensures
            r == self.half_extent_spec(),
    {
        match self {
            PlatformShape::Box => BOX_HALF_SIDE,
            PlatformShape::Cylinder => CYLINDER_RADIUS,
        }
    }

    /// Whether `landing_pos` lies on the platform: both horizontal deltas
    /// strictly inside the half extent. A cylinder is tested by its
    /// bounding square, not by its circle.
    pub fn is_landed_on_platform(&self, platform_pos: Pos, landing_pos: Pos) -> (r: bool)
        ensures
            r == self.landed_spec(platform_pos, landing_pos),
    {
        let reach = self.half_extent() as i128;
        inside(platform_pos, landing_pos, reach)
    }

    /// Whether a player of radius `player_radius` at `landing_pos` touches the
    /// platform: the same test with the half extent widened by the radius.
    pub fn is_touched_player(&self, platform_pos: Pos, landing_pos: Pos, player_radius: i64) -> (r: bool)
        ensures
            r == self.touched_spec(platform_pos, landing_pos, player_radius as int),
    {
        let reach = self.half_extent() as i128 + player_radius as i128;
        inside(platform_pos, landing_pos, reach)
    }
}

/// The reflection of world space that exchanges the two horizontal axes
/// and reverses both: a layout along +X becomes a layout along -Z.
pub open spec fn mirror(p: Pos) -> Pos {
    Pos { x: (-(p.z as int)) as i64, y: p.y, z: (-(p.x as int)) as i64 }
}

/// Exchanging the X and Z coordinates of both the platform and the landing
/// point keeps both hit tests: they do not depend on which horizontal axis
/// is which.
pub proof fn lemma_hit_tests_ignore_axis_swap(
    shape: PlatformShape,
    platform_pos: Pos,
    landing_pos: Pos,
    swapped_platform: Pos,
    swapped_landing: Pos,
    player_radius: int,
)
    requires
        swapped_platform.x == platform_pos.z && swapped_platform.z == platform_pos.x,
        swapped_landing.x == landing_pos.z && swapped_landing.z == landing_pos.x,
    ensures
        shape.landed_spec(swapped_platform, swapped_landing) == shape.landed_spec(platform_pos, landing_pos),
        shape.touched_spec(swapped_platform, swapped_landing, player_radius)
            == shape.touched_spec(platform_pos, landing_pos, player_radius),
{
}

/// Moving the platform and the landing point by the same offset, and
/// reversing either horizontal axis (`sx`, `sz` of 1 or -1) for both, keeps
/// both hit tests.
pub proof fn lemma_hit_tests_ignore_reflection_and_shift(
    shape: PlatformShape,
    platform_pos: Pos,
    landing_pos: Pos,
    moved_platform: Pos,
    moved_landing: Pos,
    sx: int,
    sz: int,
    a: int,
    c: int,
    player_radius: int,
)
    requires
        sx == 1 || sx == -1,
        sz == 1 || sz == -1,
        moved_platform.x == sx * platform_pos.x + a,
        moved_landing.x == sx * landing_pos.x + a,
        moved_platform.z == sz * platform_pos.z + c,
        moved_landing.z == sz * landing_pos.z + c,
    ensures
        shape.landed_spec(moved_platform, moved_landing) == shape.landed_spec(platform_pos, landing_pos),
        shape.touched_spec(moved_platform, moved_landing, player_radius)
            == shape.touched_spec(platform_pos, landing_pos, player_radius),
{
    if sx == 1 {
        assert(moved_platform.x == platform_pos.x + a && moved_landing.x == landing_pos.x + a);
    } else {
        assert(moved_platform.x == -platform_pos.x + a && moved_landing.x == -landing_pos.x + a) by (nonlinear_arith)
            requires
                sx == -1,
                moved_platform.x == sx * platform_pos.x + a,
                moved_landing.x == sx * landing_pos.x + a,
        ;
    }
    if sz == 1 {
        assert(moved_platform.z == platform_pos.z + c && moved_landing.z == landing_pos.z + c);
    } else {
        assert(moved_platform.z == -platform_pos.z + c && moved_landing.z == -landing_pos.z + c) by (nonlinear_arith)
            requires
                sz == -1,
                moved_platform.z == sz * platform_pos.z + c,
                moved_landing.z == sz * landing_pos.z + c,
        ;
    }
}

/// The touch test with radius zero is the landing test, and with a positive
/// radius it accepts every landing that the landing test accepts.
pub proof fn lemma_touch_widens_landing(
    shape: PlatformShape,
    platform_pos: Pos,
    landing_pos: Pos,
    player_radius: int,
)
    ensures
        player_radius == 0 ==> (shape.touched_spec(platform_pos, landing_pos, player_radius)
            == shape.landed_spec(platform_pos, landing_pos)),
        player_radius >= 0 && shape.landed_spec(platform_pos, landing_pos)
            ==> shape.touched_spec(platform_pos, landing_pos, player_radius),
{
}

fn abs_diff_exec(a: i64, b: i64) -> (r: i128)
    ensures
        r == abs_diff(a as int, b as int),
{
    let a = a as i128;
    let b = b as i128;
    if a >= b { a - b } else { b - a }
}

fn inside(center: Pos, point: Pos, reach: i128) -> (r: bool)
    ensures
        r == within_square(center, point, reach as int),
{
    abs_diff_exec(point.x, center.x) < reach && abs_diff_exec(point.z, center.z) < reach
}

} // verus!
