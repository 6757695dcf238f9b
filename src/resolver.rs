use vstd::prelude::*;

use crate::controller::Pose;
use crate::geometry::{origin, Vec3, COORD_LIMIT};
use crate::theorems::lemma_resolve_stays_clear;

verus! {

/// Which side of an axis-aligned vertical plane is free space.
#[derive(Clone, Copy, Debug, PartialEq, Eq, Structural)]
pub enum Facing {
    PosX,
    NegX,
    PosZ,
    NegZ,
}

/// An infinite axis-aligned wall: the plane `x == at` (or `z == at`),
/// with free space on the side that `facing` names.
#[derive(Clone, Copy, Debug, PartialEq, Eq, Structural)]
pub struct Wall {
    pub facing: Facing,
    pub at: i64,
}

/// The horizontal extent of the moving collider and the skin offset that
/// it keeps from every surface, both in picometres.
#[derive(Clone, Copy, Debug, PartialEq, Eq, Structural)]
pub struct Body {
    pub radius: i64,
    pub skin: i64,
}

/// Largest magnitude of a resolved displacement component.
pub const SLIDE_LIMIT: i64 = 4 * COORD_LIMIT;

impl Wall {
    pub open spec fn wf(self) -> bool {
        -COORD_LIMIT <= self.at <= COORD_LIMIT
    }

    /// The coordinate of `v` along the wall's outward normal.
    pub open spec fn normal_part(self, v: Vec3) -> int {
        match self.facing {
            Facing::PosX => v.x as int,
            Facing::NegX => -v.x,
            Facing::PosZ => v.z as int,
            Facing::NegZ => -v.z,
        }
    }

    /// The plane's own coordinate along the outward normal.
    pub open spec fn plane_part(self) -> int {
        match self.facing {
            Facing::PosX | Facing::PosZ => self.at as int,
            Facing::NegX | Facing::NegZ => -self.at,
        }
    }

    /// Distance from the collider's surface to the wall when the collider
    /// stands at `p` moved by `d`.
    pub open spec fn gap(self, radius: int, p: Vec3, d: Vec3) -> int {
        self.normal_part(p) + self.normal_part(d) - self.plane_part() - radius
    }

    /// Standing at `p` moved by `d` keeps at least the skin offset.
    pub open spec fn clear(self, b: Body, p: Vec3, d: Vec3) -> bool {
        self.gap(b.radius as int, p, d) >= b.skin
    }

    /// The least normal component that a move from `p` may have.
    pub open spec fn least_normal(self, b: Body, p: Vec3) -> int {
        b.skin + self.plane_part() + b.radius - self.normal_part(p)
    }

    /// `v` with its normal component replaced by `n`.
    pub open spec fn with_normal(self, v: Vec3, n: int) -> Vec3 {
        match self.facing {
            Facing::PosX => Vec3 { x: n as i64, ..v },
            Facing::NegX => Vec3 { x: (-n) as i64, ..v },
            Facing::PosZ => Vec3 { z: n as i64, ..v },
            Facing::NegZ => Vec3 { z: (-n) as i64, ..v },
        }
    }

    /// The tangential part of `v`: every component but the normal one.
    pub open spec fn tangent(self, v: Vec3) -> Vec3 {
        self.with_normal(v, 0)
    }

    /// The move `d` from `p`, with its normal component raised just enough
    /// that the collider ends no closer than the skin offset.
    pub open spec fn slide(self, b: Body, p: Vec3, d: Vec3) -> Vec3 {
        let need = self.least_normal(b, p);
        if self.normal_part(d) >= need {
            d
        } else {
            self.with_normal(d, need)
        }
    }
}

impl Body {
    pub open spec fn wf(self) -> bool {
        0 <= self.radius <= COORD_LIMIT && 0 <= self.skin <= COORD_LIMIT
    }
}

pub open spec fn within_slide(v: Vec3) -> bool {
    -SLIDE_LIMIT <= v.x <= SLIDE_LIMIT && -SLIDE_LIMIT <= v.y <= SLIDE_LIMIT && -SLIDE_LIMIT <= v.z
        <= SLIDE_LIMIT
}

/// The move `d` from `p` after sliding against each wall of `walls` in turn.
pub open spec fn resolve_seq(walls: Seq<Wall>, b: Body, p: Vec3, d: Vec3) -> Vec3
    decreases walls.len(),
{
    if walls.len() == 0 {
        d
    } else {
        walls.last().slide(b, p, resolve_seq(walls.drop_last(), b, p, d))
    }
}

pub open spec fn all_wf(walls: Seq<Wall>) -> bool {
    forall|i: int| 0 <= i < walls.len() ==> (#[trigger] walls[i]).wf()
}

pub open spec fn all_clear(walls: Seq<Wall>, b: Body, p: Vec3, d: Vec3) -> bool {
    forall|i: int| 0 <= i < walls.len() ==> (#[trigger] walls[i]).clear(b, p, d)
}

/// `v` lies on the segment from zero to `d`, component by component.
pub open spec fn part_of(v: Vec3, d: Vec3) -> bool {
    &&& (0 <= v.x <= d.x || d.x <= v.x <= 0)
    &&& v.y == d.y
    &&& (0 <= v.z <= d.z || d.z <= v.z <= 0)
}

/// Slides the requested move `d` from `start` against one wall: the part
/// along the wall is kept, and the part into it is cut so that the
/// collider ends at the skin offset.
pub fn slide_against(w: &Wall, b: &Body, start: &Vec3, d: &Vec3) -> (r: Vec3)
    requires
        w.wf(),
        b.wf(),
        start.bounded(),
        within_slide(*d),
    ensures
        r == w.slide(*b, *start, *d),
        within_slide(r),
        w.tangent(r) == w.tangent(*d),
        w.normal_part(r) == if w.normal_part(*d) >= w.least_normal(*b, *start) {
            w.normal_part(*d)
        } else {
            w.least_normal(*b, *start)
        },
{
    match w.facing {
        Facing::PosX => {
            let need: i64 = b.skin + w.at + b.radius - start.x;
            if d.x >= need {
                *d
            } else {
                Vec3 { x: need, y: d.y, z: d.z }
            }
        },
        Facing::NegX => {
            let need: i64 = b.skin - w.at + b.radius + start.x;
            if -d.x >= need {
                *d
            } else {
                Vec3 { x: -need, y: d.y, z: d.z }
            }
        },
        Facing::PosZ => {
            let need: i64 = b.skin + w.at + b.radius - start.z;
            if d.z >= need {
                *d
            } else {
                Vec3 { x: d.x, y: d.y, z: need }
            }
        },
        Facing::NegZ => {
            let need: i64 = b.skin - w.at + b.radius + start.z;
            if -d.z >= need {
                *d
            } else {
                Vec3 { x: d.x, y: d.y, z: -need }
            }
        },
    }
}

/// Resolves the requested move `d` from `start` against every wall of
/// `walls`, in order.
pub fn resolve(walls: &Vec<Wall>, b: &Body, start: &Vec3, d: &Vec3) -> (r: Vec3)
    requires
        all_wf(walls@),
        b.wf(),
        start.bounded(),
        d.bounded(),
    ensures
        r == resolve_seq(walls@, *b, *start, *d),
        within_slide(r),
        all_clear(walls@, *b, *start, origin()) ==> all_clear(walls@, *b, *start, r) && part_of(
            r,
            *d,
        ),
{
    let mut cur = *d;
    let mut i: usize = 0;
    while i < walls.len()
        invariant
            i <= walls@.len(),
            all_wf(walls@),
            b.wf(),
            start.bounded(),
            within_slide(cur),
            cur == resolve_seq(walls@.subrange(0, i as int), *b, *start, *d),
        decreases walls@.len() - i,
    {
        let ghost prev = cur;
        cur = slide_against(&walls[i], b, start, &cur);
        proof {
            let s = walls@.subrange(0, i as int + 1);
            assert(s.drop_last() =~= walls@.subrange(0, i as int));
            assert(s.last() == walls@[i as int]);
        }
        i = i + 1;
    }
    proof {
        assert(walls@.subrange(0, walls@.len() as int) =~= walls@);
        if all_clear(walls@, *b, *start, origin()) {
            lemma_resolve_stays_clear(walls@, *b, *start, *d);
        }
    }
    cur
}

/// Moves the pose by the resolved displacement; the yaw is kept.
pub fn apply_resolved(pose: &mut Pose, r: &Vec3)
    requires
        old(pose).position.sum_fits(*r),
    ensures
        final(pose).position.x == old(pose).position.x + r.x,
        final(pose).position.y == old(pose).position.y + r.y,
        final(pose).position.z == old(pose).position.z + r.z,
        final(pose).yaw == old(pose).yaw,
{
    pose.position = pose.position.add(r);
}

/// Last half of a frame: resolves the requested displacement, if any,
/// against the walls and moves the pose by the result. Without a request
/// the pose is left as it is.
pub fn finish_frame(pose: &mut Pose, walls: &Vec<Wall>, b: &Body, request: Option<Vec3>)
    requires
        all_wf(walls@),
        b.wf(),
        old(pose).position.bounded(),
        request matches Some(d) ==> d.bounded(),
    ensures
        final(pose).yaw == old(pose).yaw,
        request is None ==> *final(pose) == *old(pose),
        request matches Some(d) ==> final(pose).position == old(pose).position.moved(
            resolve_seq(walls@, *b, old(pose).position, d),
        ),
{
    match request {
        None => {},
        Some(d) => {
            let start = pose.position;
            let r = resolve(walls, b, &start, &d);
            apply_resolved(pose, &r);
        },
    }
}

} // verus!
