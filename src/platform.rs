//! The platforms of a run: which one the player stands on, which one is the
//! target, and how a new target is placed.
use vstd::prelude::*;
use rand::Rng;

use crate::geometry::{PlatformShape, Pos};

verus! {

/// Height of every platform's centre (0.5 units).
pub const PLATFORM_HEIGHT: i64 = 500_000_000;

/// Where the first platform of a run stands: (0, 0.5, 0).
pub open spec fn first_platform_pos() -> Pos {
    Pos { x: 0, y: PLATFORM_HEIGHT, z: 0 }
}

/// Nearest distance of a new target from the current platform (2.5 units).
pub const MIN_GAP: i64 = 2_500_000_000;

/// Bound, never reached, of that distance (4.0 units).
pub const MAX_GAP: i64 = 4_000_000_000;

/// An sRGB colour, one byte per channel.
#[derive(Clone, Copy, Debug, PartialEq, Eq, Structural)]
pub struct PlatformColor {
    pub r: u8,
    pub g: u8,
    pub b: u8,
}

/// One platform of the world.
#[derive(Clone, Copy, Debug, PartialEq, Eq, Structural)]
pub struct Platform {
    pub pos: Pos,
    pub shape: PlatformShape,
    pub color: PlatformColor,
}

/// The tag a platform carries.
#[derive(Clone, Copy, Debug, PartialEq, Eq, Structural)]
pub enum PlatformRole {
    /// The platform the player stands on.
    Current,
    /// The platform the player jumps to.
    Next,
    /// A platform left behind, kept until the run ends.
    Inert,
}

/// The role of the platform at index `i`, given the indices of the current
/// and the next platform.
pub open spec fn role_at(current: Option<usize>, next: Option<usize>, i: int) -> PlatformRole {
    if current == Some(i as usize) {
        PlatformRole::Current
    } else if next == Some(i as usize) {
        PlatformRole::Next
    } else {
        PlatformRole::Inert
    }
}

/// The tags of `len` platforms are consistent: there is a current platform
/// exactly when there is any platform, a next one only beside a current one,
/// and the two are distinct platforms.
pub open spec fn lifecycle_ok(len: nat, current: Option<usize>, next: Option<usize>) -> bool {
    &&& (current.is_some() <==> len > 0)
    &&& (current.is_some() ==> current.unwrap() < len)
    &&& (next.is_some() ==> next.unwrap() < len)
    &&& (next.is_some() ==> current.is_some() && current.unwrap() != next.unwrap())
}

/// Exactly one of the `len` platforms carries `role`.
pub open spec fn single_role(len: nat, current: Option<usize>, next: Option<usize>, role: PlatformRole) -> bool {
    exists|i: int|
        #![trigger role_at(current, next, i)]
        0 <= i < len && role_at(current, next, i) == role && forall|j: int|
            #![trigger role_at(current, next, j)]
            0 <= j < len && role_at(current, next, j) == role ==> j == i
}

/// No platform carries `role`.
pub open spec fn no_role(len: nat, current: Option<usize>, next: Option<usize>, role: PlatformRole) -> bool {
    forall|j: int| #![trigger role_at(current, next, j)] 0 <= j < len ==> role_at(current, next, j) != role
}

/// Where a new target goes: `distance` from the current platform, towards +X
/// when `along_x`, towards -Z otherwise, at platform height.
pub open spec fn next_pos_spec(current: Pos, distance: int, along_x: bool) -> Pos {
    if along_x {
        Pos { x: (current.x + distance) as i64, y: PLATFORM_HEIGHT, z: current.z }
    } else {
        Pos { x: current.x, y: PLATFORM_HEIGHT, z: (current.z - distance) as i64 }
    }
}

/// A new target can be placed from `current` without leaving the integer range.
pub open spec fn room_for_next(current: Pos) -> bool {
    current.x <= i64::MAX - MAX_GAP && current.z >= i64::MIN + MAX_GAP
}

/// Relies on rand's `thread_rng` and `Rng::gen_range`: a value of `lo..hi`
/// (which panics on an empty range).
#[verifier::external_body]
fn draw_between(lo: i64, hi: i64) -> (r: i64)
    requires
        lo < hi,
    ensures
        lo <= r < hi,
{
    rand::thread_rng().gen_range(lo..hi)
}

/// The shape that a draw from `0..2` selects: 1 gives a cylinder, any
/// other value a box.
pub open spec fn shape_for_draw(draw: int) -> PlatformShape {
    if draw == 1 {
        PlatformShape::Cylinder
    } else {
        PlatformShape::Box
    }
}

/// The shape that `draw` selects.
pub fn shape_of_draw(draw: i64) -> (r: PlatformShape)
    ensures
        r == shape_for_draw(draw as int),
{
    if draw == 1 {
        PlatformShape::Cylinder
    } else {
        PlatformShape::Box
    }
}

/// The colour whose channels are the three draws from `0..256`.
pub fn color_of_draws(r: i64, g: i64, b: i64) -> (c: PlatformColor)
    requires
        0 <= r < 256,
        0 <= g < 256,
        0 <= b < 256,
    ensures
        c.r == r && c.g == g && c.b == b,
{
    PlatformColor { r: r as u8, g: g as u8, b: b as u8 }
}

/// A shape picked by a fair draw from `0..2`.
pub fn rand_platform_shape() -> (r: PlatformShape)
    ensures
        exists|draw: int| 0 <= draw < 2 && r == shape_for_draw(draw),
{
    let draw = draw_between(0, 2);
    let r = shape_of_draw(draw);
    assert(0 <= draw < 2 && r == shape_for_draw(draw as int));
    r
}

/// A colour with each channel drawn at random from `0..256`.
pub fn rand_platform_color() -> (c: PlatformColor) {
    let r = draw_between(0, 256);
    let g = draw_between(0, 256);
    let b = draw_between(0, 256);
    color_of_draws(r, g, b)
}

/// Where a target is placed, `distance` away along the chosen axis.
pub fn next_platform_pos(current: Pos, distance: i64, along_x: bool) -> (r: Pos)
    requires
        room_for_next(current),
        0 <= distance <= MAX_GAP,
    ensures
        r == next_pos_spec(current, distance as int, along_x),
{
    if along_x {
        Pos { x: current.x + distance, y: PLATFORM_HEIGHT, z: current.z }
    } else {
        Pos { x: current.x, y: PLATFORM_HEIGHT, z: current.z - distance }
    }
}

/// The platforms of a run, each with its role tag: one current platform while
/// any exists, and at most one next platform.
pub struct Platforms {
    items: Vec<Platform>,
    current: Option<usize>,
    next: Option<usize>,
}

impl Platforms {
    /// The platforms, oldest first.
    pub closed spec fn items(self) -> Seq<Platform> {
        self.items@
    }

    /// The index of the platform tagged current.
    pub closed spec fn current_index(self) -> Option<usize> {
        self.current
    }

    /// The index of the platform tagged next.
    pub closed spec fn next_index(self) -> Option<usize> {
        self.next
    }

    pub open spec fn wf(self) -> bool {
        lifecycle_ok(self.items().len(), self.current_index(), self.next_index())
    }

    pub open spec fn role_of(self, i: int) -> PlatformRole {
        role_at(self.current_index(), self.next_index(), i)
    }

    /// No platform at all, as at the start and after a reset.
    pub fn new() -> (r: Platforms)
        ensures
            r.wf(),
            r.items().len() == 0,
            r.current_index().is_none(),
            r.next_index().is_none(),
    {
        Platforms { items: Vec::new(), current: None, next: None }
    }

    pub fn len(&self) -> (r: usize)
        ensures
            r == self.items().len(),
    {
        self.items.len()
    }

    pub fn get(&self, i: usize) -> (r: Platform)
        requires
            i < self.items().len(),
        ensures
            r == self.items()[i as int],
    {
        self.items[i]
    }

    pub fn current(&self) -> (r: Option<usize>)
        ensures
            r == self.current_index(),
    {
        self.current
    }

    pub fn next(&self) -> (r: Option<usize>)
        ensures
            r == self.next_index(),
    {
        self.next
    }

    /// The role tag of the platform at index `i`.
    pub fn role(&self, i: usize) -> (r: PlatformRole)
        ensures
            r == self.role_of(i as int),
    {
        if self.current == Some(i) {
            PlatformRole::Current
        } else if self.next == Some(i) {
            PlatformRole::Next
        } else {
            PlatformRole::Inert
        }
    }

    /// The current platform, if any.
    pub fn current_platform(&self) -> (r: Option<Platform>)
        requires
            self.wf(),
        ensures
            r == (match self.current_index() {
                Some(i) => Some(self.items()[i as int]),
                None => None::<Platform>,
            }),
    {
        match self.current {
            Some(i) => Some(self.items[i]),
            None => None,
        }
    }

    /// The next platform, if any.
    pub fn next_platform(&self) -> (r: Option<Platform>)
        requires
            self.wf(),
        ensures
            r == (match self.next_index() {
                Some(i) => Some(self.items()[i as int]),
                None => None::<Platform>,
            }),
    {
        match self.next {
            Some(i) => Some(self.items[i]),
            None => None,
        }
    }

    /// Places the first platform of a run, tagged current.
    pub fn spawn_first(&mut self, shape: PlatformShape, color: PlatformColor)
        requires
            old(self).wf(),
            old(self).items().len() == 0,
        ensures
            final(self).wf(),
            final(self).items() == seq![Platform { pos: first_platform_pos(), shape, color }],
            final(self).current_index() == Some(0usize),
            final(self).next_index().is_none(),
    {
        self.items.push(Platform { pos: Pos { x: 0, y: PLATFORM_HEIGHT, z: 0 }, shape, color });
        self.current = Some(0);
        self.next = None;
    }

    /// Places the first platform of a run with a random shape and colour.
    pub fn setup_first_platform(&mut self)
        requires
            old(self).wf(),
            old(self).items().len() == 0,
        ensures
            final(self).wf(),
            final(self).items().len() == 1,
            final(self).items()[0].pos == first_platform_pos(),
            final(self).current_index() == Some(0usize),
            final(self).next_index().is_none(),
    {
        let shape = rand_platform_shape();
        let color = rand_platform_color();
        self.spawn_first(shape, color);
    }

    /// Adds a platform at `pos` tagged next.
    pub fn spawn_next(&mut self, pos: Pos, shape: PlatformShape, color: PlatformColor)
        requires
            old(self).wf(),
            old(self).current_index().is_some(),
            old(self).next_index().is_none(),
            old(self).items().len() < usize::MAX,
        ensures
            final(self).wf(),
            final(self).items() == old(self).items().push(Platform { pos, shape, color }),
            final(self).current_index() == old(self).current_index(),
            final(self).next_index() == Some(old(self).items().len() as usize),
    {
        let n = self.items.len();
        self.items.push(Platform { pos, shape, color });
        self.next = Some(n);
    }

    /// When there is no next platform, places one at a random distance in
    /// [2.5, 4.0) units from the current one, along +X or -Z by a fair draw,
    /// with a random shape and colour. Otherwise changes nothing. Returns
    /// whether a platform was placed. A current platform must exist.
    pub fn generate_next_platform(&mut self) -> (spawned: bool)
        requires
            old(self).wf(),
            old(self).current_index().is_some(),
            old(self).next_index().is_none() ==> old(self).items().len() < usize::MAX && room_for_next(
                old(self).items()[old(self).current_index().unwrap() as int].pos,
            ),
        ensures
            final(self).wf(),
            spawned == old(self).next_index().is_none(),
            !spawned ==> *final(self) == *old(self),
            spawned ==> {
                &&& final(self).current_index() == old(self).current_index()
                &&& final(self).next_index() == Some(old(self).items().len() as usize)
                &&& final(self).items().len() == old(self).items().len() + 1
                &&& final(self).items().take(old(self).items().len() as int) == old(self).items()
                &&& exists|distance: int, along_x: bool|
                    MIN_GAP <= distance < MAX_GAP
                        && final(self).items().last().pos == next_pos_spec(
                            old(self).items()[old(self).current_index().unwrap() as int].pos,
                            distance,
                            along_x,
                        )
            },
    {
        if self.next.is_some() {
            return false;
        }
        let cur = match self.current {
            Some(i) => i,
            None => {
                return false;
            },
        };
        let current_pos = self.items[cur].pos;
        let distance = draw_between(MIN_GAP, MAX_GAP);
        let along_x = draw_between(0, 2) == 0;
        let pos = next_platform_pos(current_pos, distance, along_x);
        let shape = rand_platform_shape();
        let color = rand_platform_color();
        let ghost before = self.items();
        self.spawn_next(pos, shape, color);
        assert(self.items().take(before.len() as int) =~= before);
        assert(MIN_GAP <= distance < MAX_GAP && self.items().last().pos == next_pos_spec(
            before[cur as int].pos,
            distance as int,
            along_x,
        ));
        true
    }

    /// After a landing on the next platform: the next platform becomes the
    /// current one, and the old current platform stays, untagged.
    pub fn promote(&mut self)
        requires
            old(self).wf(),
            old(self).next_index().is_some(),
        ensures
            final(self).wf(),
            final(self).items() == old(self).items(),
            final(self).current_index() == old(self).next_index(),
            final(self).next_index().is_none(),
    {
        self.current = self.next;
        self.next = None;
    }

    /// Removes every platform.
    pub fn clear_platforms(&mut self)
        ensures
            final(self).wf(),
            final(self).items().len() == 0,
            final(self).current_index().is_none(),
            final(self).next_index().is_none(),
    {
        self.items = Vec::new();
        self.current = None;
        self.next = None;
    }
}

/// A landing on the next platform hands the current tag over. `promoted` is
/// what `promote` leaves, and `ticked` what the next `generate_next_platform`
/// leaves: after the promotion exactly one platform is current (the former
/// next one) and none is next, which is the state in which the tick places a
/// platform; after the tick the same single platform is current and exactly
/// one, the new one, is next.
pub proof fn lemma_promotion_keeps_single_current(before: Platforms, promoted: Platforms, ticked: Platforms)
    requires
        before.wf(),
        before.next_index().is_some(),
        before.items().len() < usize::MAX,
        promoted.items() == before.items(),
        promoted.current_index() == before.next_index(),
        promoted.next_index().is_none(),
        ticked.items().len() == promoted.items().len() + 1,
        ticked.current_index() == promoted.current_index(),
        ticked.next_index() == Some(promoted.items().len() as usize),
    ensures
        promoted.wf(),
        single_role(promoted.items().len(), promoted.current_index(), promoted.next_index(), PlatformRole::Current),
        no_role(promoted.items().len(), promoted.current_index(), promoted.next_index(), PlatformRole::Next),
        promoted.current_index().is_some() && promoted.next_index().is_none(),
        ticked.wf(),
        single_role(ticked.items().len(), ticked.current_index(), ticked.next_index(), PlatformRole::Current),
        single_role(ticked.items().len(), ticked.current_index(), ticked.next_index(), PlatformRole::Next),
        ticked.current_index() == before.next_index(),
{
    let c = before.next_index().unwrap() as int;
    let n = before.items().len() as int;
    assert(role_at(promoted.current_index(), promoted.next_index(), c) == PlatformRole::Current);
    assert(role_at(ticked.current_index(), ticked.next_index(), c) == PlatformRole::Current);
    assert(role_at(ticked.current_index(), ticked.next_index(), n) == PlatformRole::Next);
}

} // verus!
