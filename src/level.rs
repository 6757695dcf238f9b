use vstd::prelude::*;

use crate::controller::FpsController;
use crate::geometry::{Vec3, COORD_LIMIT};
use crate::resolver::{Body, Facing, Wall};

verus! {

/// Picometres in one metre.
pub const METRE: i64 = 1_000_000_000_000;

/// A static box of the level: its centre and its full size, in picometres.
#[derive(Clone, Copy, Debug, PartialEq, Eq, Structural)]
pub struct Slab {
    pub center: Vec3,
    pub size: Vec3,
}

impl Slab {
    pub open spec fn wf(self) -> bool {
        &&& self.center.bounded()
        &&& self.size.bounded()
        &&& self.size.x >= 0 && self.size.y >= 0 && self.size.z >= 0
        &&& -COORD_LIMIT <= self.center.x - self.size.x / 2
        &&& self.center.x + self.size.x / 2 <= COORD_LIMIT
        &&& -COORD_LIMIT <= self.center.z - self.size.z / 2
        &&& self.center.z + self.size.z / 2 <= COORD_LIMIT
    }

    /// The half extents of the box, as its collider takes them.
    pub fn half_extents(&self) -> (r: Vec3)
        requires
            self.wf(),
        ensures
            r.x == self.size.x / 2,
            r.y == self.size.y / 2,
            r.z == self.size.z / 2,
    {
        Vec3 { x: self.size.x / 2, y: self.size.y / 2, z: self.size.z / 2 }
    }

    /// The face of the box whose outward normal is `facing`, as a wall.
    pub fn face(&self, facing: Facing) -> (r: Wall)
        requires
            self.wf(),
        ensures
            r.facing == facing,
            r.wf(),
            r.at == match facing {
                Facing::PosX => self.center.x + self.size.x / 2,
                Facing::NegX => self.center.x - self.size.x / 2,
                Facing::PosZ => self.center.z + self.size.z / 2,
                Facing::NegZ => self.center.z - self.size.z / 2,
            },
    {
        let at: i64 = match facing {
            Facing::PosX => self.center.x + self.size.x / 2,
            Facing::NegX => self.center.x - self.size.x / 2,
            Facing::PosZ => self.center.z + self.size.z / 2,
            Facing::NegZ => self.center.z - self.size.z / 2,
        };
        Wall { facing, at }
    }
}

pub open spec fn slab(cx: int, cy: int, cz: int, sx: int, sy: int, sz: int) -> Slab {
    Slab {
        center: Vec3 { x: cx as i64, y: cy as i64, z: cz as i64 },
        size: Vec3 { x: sx as i64, y: sy as i64, z: sz as i64 },
    }
}

/// The ground: 40 m by 40 m, 1 cm thick, its top face at y = 0.
pub open spec fn ground_slab() -> Slab {
    slab(0, -METRE / 200, 0, 40 * METRE, METRE / 100, 40 * METRE)
}

/// The far wall: 12 m wide, 8 m high, 25 cm thick, 15 m ahead.
pub open spec fn back_wall_slab() -> Slab {
    slab(0, 4 * METRE, -15 * METRE, 12 * METRE, 8 * METRE, METRE / 4)
}

/// Length of a side wall: from z = -3 m to the far wall's near face.
pub const SIDE_WALL_LENGTH: i64 = 11_875_000_000_000;

/// Centre of a side wall along z.
pub const SIDE_WALL_CENTER_Z: i64 = -8_937_500_000_000;

/// The left wall: 6 m to the left, running from z = -3 m to the far
/// wall's near face at z = -14.875 m.
pub open spec fn left_wall_slab() -> Slab {
    slab(-6 * METRE, 4 * METRE, SIDE_WALL_CENTER_Z as int, METRE / 4, 8 * METRE, SIDE_WALL_LENGTH as int)
}

/// The right wall, the mirror image of the left one.
pub open spec fn right_wall_slab() -> Slab {
    slab(6 * METRE, 4 * METRE, SIDE_WALL_CENTER_Z as int, METRE / 4, 8 * METRE, SIDE_WALL_LENGTH as int)
}

/// Twice the low and high bounds of a box along one axis, from its centre
/// and full size (doubled so that odd sizes stay exact).
pub open spec fn low2(c: int, s: int) -> int {
    2 * c - s
}

pub open spec fn high2(c: int, s: int) -> int {
    2 * c + s
}

/// Two intervals, given by centre and full size, share no interior point.
pub open spec fn apart(ca: int, sa: int, cb: int, sb: int) -> bool {
    high2(ca, sa) <= low2(cb, sb) || high2(cb, sb) <= low2(ca, sa)
}

impl Slab {
    /// The interiors of the two boxes are disjoint: some axis separates them.
    pub open spec fn disjoint(self, o: Slab) -> bool {
        apart(self.center.x as int, self.size.x as int, o.center.x as int, o.size.x as int)
            || apart(self.center.y as int, self.size.y as int, o.center.y as int, o.size.y as int)
            || apart(self.center.z as int, self.size.z as int, o.center.z as int, o.size.z as int)
    }
}

/// The ground plane and the three walls of the level; no two of them
/// overlap.
pub fn level_slabs() -> (r: Vec<Slab>)
    ensures
        r@ == seq![ground_slab(), back_wall_slab(), left_wall_slab(), right_wall_slab()],
        forall|i: int| 0 <= i < r@.len() ==> (#[trigger] r@[i]).wf(),
        forall|i: int, j: int|
            0 <= i < r@.len() && 0 <= j < r@.len() && i != j ==> (#[trigger] r@[i]).disjoint(
                #[trigger] r@[j],
            ),
{
    let mut r: Vec<Slab> = Vec::new();
    r.push(
        Slab {
            center: Vec3::new(0, -METRE / 200, 0),
            size: Vec3::new(40 * METRE, METRE / 100, 40 * METRE),
        },
    );
    r.push(
        Slab {
            center: Vec3::new(0, 4 * METRE, -15 * METRE),
            size: Vec3::new(12 * METRE, 8 * METRE, METRE / 4),
        },
    );
    r.push(
        Slab {
            center: Vec3::new(-6 * METRE, 4 * METRE, SIDE_WALL_CENTER_Z),
            size: Vec3::new(METRE / 4, 8 * METRE, SIDE_WALL_LENGTH),
        },
    );
    r.push(
        Slab {
            center: Vec3::new(6 * METRE, 4 * METRE, SIDE_WALL_CENTER_Z),
            size: Vec3::new(METRE / 4, 8 * METRE, SIDE_WALL_LENGTH),
        },
    );
    assert(r@ =~= seq![ground_slab(), back_wall_slab(), left_wall_slab(), right_wall_slab()]);
    assert(ground_slab().disjoint(back_wall_slab()) && ground_slab().disjoint(left_wall_slab())
        && ground_slab().disjoint(right_wall_slab()));
    assert(back_wall_slab().disjoint(left_wall_slab()) && back_wall_slab().disjoint(
        right_wall_slab(),
    ));
    assert(left_wall_slab().disjoint(right_wall_slab()));
    r
}

/// The faces of the three walls that look into the level, as unbounded
/// planes for the wall resolver: the far wall's near face and the side
/// walls' inner faces. They match the level only inside its U, where
/// z <= -3 m and |x| <= 6 m; beyond the walls' ends the planes still block.
pub fn level_walls() -> (r: Vec<Wall>)
    ensures
        r@ == seq![
            Wall { facing: Facing::PosZ, at: (-15 * METRE + METRE / 8) as i64 },
            Wall { facing: Facing::PosX, at: (-6 * METRE + METRE / 8) as i64 },
            Wall { facing: Facing::NegX, at: (6 * METRE - METRE / 8) as i64 },
        ],
        forall|i: int| 0 <= i < r@.len() ==> (#[trigger] r@[i]).wf(),
{
    let slabs = level_slabs();
    let mut r: Vec<Wall> = Vec::new();
    r.push(slabs[1].face(Facing::PosZ));
    r.push(slabs[2].face(Facing::PosX));
    r.push(slabs[3].face(Facing::NegX));
    assert(r@ =~= seq![
        Wall { facing: Facing::PosZ, at: (-15 * METRE + METRE / 8) as i64 },
        Wall { facing: Facing::PosX, at: (-6 * METRE + METRE / 8) as i64 },
        Wall { facing: Facing::NegX, at: (6 * METRE - METRE / 8) as i64 },
    ]);
    r
}

/// How the player is spawned: its base, the eye height of its camera, its
/// capsule (a vertical segment from the base up to `capsule_top`, with a
/// radius) and its movement tuning.
#[derive(Clone, Copy, Debug, PartialEq, Eq, Structural)]
pub struct PlayerRig {
    pub spawn: Vec3,
    pub eye_height: i64,
    pub capsule_top: i64,
    pub capsule_radius: i64,
    pub controller: FpsController,
}

/// The player of the level: spawned 2 m above the origin facing -z, eyes
/// 1.65 m above its base, a capsule 1.3 m long with a 0.33 m radius,
/// moving at 4 m/s and turning at 3 rad/s.
pub fn player_rig() -> (r: PlayerRig)
    ensures
        r.spawn == (Vec3 { x: 0, y: (2 * METRE) as i64, z: 0 }),
        r.eye_height == 165 * METRE / 100,
        r.capsule_top == 13 * METRE / 10,
        r.capsule_radius == 33 * METRE / 100,
        r.controller == (FpsController { speed_move: 4_000_000, speed_turn: 3_000_000 }),
        r.controller.wf(),
{
    PlayerRig {
        spawn: Vec3::new(0, 2 * METRE, 0),
        eye_height: 165 * METRE / 100,
        capsule_top: 13 * METRE / 10,
        capsule_radius: 33 * METRE / 100,
        controller: FpsController::new(4_000_000, 3_000_000),
    }
}

impl PlayerRig {
    /// The collider that the wall resolver moves, keeping `skin` from walls.
    pub fn body(&self, skin: i64) -> (r: Body)
        requires
            0 <= self.capsule_radius <= COORD_LIMIT,
            0 <= skin <= COORD_LIMIT,
        ensures
            r == (Body { radius: self.capsule_radius, skin }),
            r.wf(),
    {
        Body { radius: self.capsule_radius, skin }
    }
}

} // verus!
