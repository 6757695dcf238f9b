use vstd::prelude::*;

verus! {

/// A point or displacement in world space, in picometres.
/// The vertical axis is `y`; "forward" at zero yaw is `-z`.
#[derive(Clone, Copy, Debug, PartialEq, Eq, Structural)]
pub struct Vec3 {
    pub x: i64,
    pub y: i64,
    pub z: i64,
}

/// Largest magnitude of a coordinate that the geometry routines accept.
pub const COORD_LIMIT: i64 = 1_000_000_000_000_000;

/// Scale of a direction component: `DIR_SCALE` stands for 1.0.
pub const DIR_SCALE: i64 = 1_000_000;

impl Vec3 {
    pub open spec fn is_zero(self) -> bool {
        self.x == 0 && self.y == 0 && self.z == 0
    }

    pub open spec fn bounded(self) -> bool {
        -COORD_LIMIT <= self.x <= COORD_LIMIT && -COORD_LIMIT <= self.y <= COORD_LIMIT
            && -COORD_LIMIT <= self.z <= COORD_LIMIT
    }

    pub open spec fn sum_fits(self, d: Vec3) -> bool {
        i64::MIN <= self.x + d.x <= i64::MAX && i64::MIN <= self.y + d.y <= i64::MAX
            && i64::MIN <= self.z + d.z <= i64::MAX
    }

    /// `self` moved by `d`.
    pub open spec fn moved(self, d: Vec3) -> Vec3 {
        Vec3 { x: (self.x + d.x) as i64, y: (self.y + d.y) as i64, z: (self.z + d.z) as i64 }
    }

    pub fn new(x: i64, y: i64, z: i64) -> (r: Vec3)
        ensures
            r == (Vec3 { x, y, z }),
    {
        Vec3 { x, y, z }
    }

    /// True when every component is zero, i.e. the squared length is zero.
    pub fn is_zero_exec(&self) -> (r: bool)
        ensures
            r == self.is_zero(),
    {
        self.x == 0 && self.y == 0 && self.z == 0
    }

    /// Component-wise sum; the caller guarantees that it fits.
    pub fn add(&self, d: &Vec3) -> (r: Vec3)
        requires
            self.sum_fits(*d),
        ensures
            r.x == self.x + d.x,
            r.y == self.y + d.y,
            r.z == self.z + d.z,
    {
        Vec3 { x: self.x + d.x, y: self.y + d.y, z: self.z + d.z }
    }
}

pub open spec fn origin() -> Vec3 {
    Vec3 { x: 0, y: 0, z: 0 }
}

/// A horizontal direction, each component scaled by `DIR_SCALE` and lying
/// in [-1, 1]. It is meant to be a unit vector, but nothing here relies on
/// that: every contract holds for any such pair.
#[derive(Clone, Copy, Debug, PartialEq, Eq, Structural)]
pub struct Dir {
    pub x: i64,
    pub z: i64,
}

impl Dir {
    pub open spec fn wf(self) -> bool {
        -DIR_SCALE <= self.x <= DIR_SCALE && -DIR_SCALE <= self.z <= DIR_SCALE
    }

    /// The forward direction at zero yaw: `-z`.
    pub fn neg_z() -> (r: Dir)
        ensures
            r.x == 0,
            r.z == -DIR_SCALE,
    {
        Dir { x: 0, z: -DIR_SCALE }
    }
}

/// Integer division rounded toward zero, as Rust's `/` on signed values.
pub open spec fn div_toward_zero(a: int, b: int) -> int {
    if a >= 0 {
        a / b
    } else {
        -((-a) / b)
    }
}

/// `dir * len` in picometres, rounded toward zero, for one component.
pub open spec fn scaled(c: int, len: int) -> int {
    div_toward_zero(c * len, DIR_SCALE as int)
}

/// The world displacement of length `len` along the horizontal direction `d`.
pub open spec fn along(d: Dir, len: int) -> Vec3 {
    Vec3 { x: scaled(d.x as int, len) as i64, y: 0, z: scaled(d.z as int, len) as i64 }
}

proof fn lemma_scaled_bound(c: int, len: int)
    requires
        -DIR_SCALE <= c <= DIR_SCALE,
        -COORD_LIMIT <= len <= COORD_LIMIT,
    ensures
        -COORD_LIMIT <= scaled(c, len) <= COORD_LIMIT,
        c == 0 ==> scaled(c, len) == 0,
        len == 0 ==> scaled(c, len) == 0,
        c == DIR_SCALE ==> scaled(c, len) == len,
        c == -DIR_SCALE ==> scaled(c, len) == -len,
{
    let p = c * len;
    assert(-(DIR_SCALE * COORD_LIMIT) <= p <= DIR_SCALE * COORD_LIMIT) by (nonlinear_arith)
        requires
            -DIR_SCALE <= c <= DIR_SCALE,
            -COORD_LIMIT <= len <= COORD_LIMIT,
            p == c * len,
    ;
    let ap = if p >= 0 { p } else { -p };
    assert(ap / (DIR_SCALE as int) <= COORD_LIMIT) by (nonlinear_arith)
        requires
            0 <= ap <= DIR_SCALE * COORD_LIMIT,
    ;
    if c == DIR_SCALE {
        assert(scaled(c, len) == len) by (nonlinear_arith)
            requires
                p == c * len,
                c == DIR_SCALE,
                scaled(c, len) == div_toward_zero(p, DIR_SCALE as int),
        ;
    }
    if c == -DIR_SCALE {
        assert(scaled(c, len) == -len) by (nonlinear_arith)
            requires
                p == c * len,
                c == -DIR_SCALE,
                scaled(c, len) == div_toward_zero(p, DIR_SCALE as int),
        ;
    }
    if c == 0 {
        assert(p == 0) by (nonlinear_arith)
            requires
                p == c * len,
                c == 0,
        ;
    }
    if len == 0 {
        assert(p == 0) by (nonlinear_arith)
            requires
                p == c * len,
                len == 0,
        ;
    }
}

fn scale_component(c: i64, len: i64) -> (r: i64)
    requires
        -DIR_SCALE <= c <= DIR_SCALE,
        -COORD_LIMIT <= len <= COORD_LIMIT,
    ensures
        r == scaled(c as int, len as int),
{
    proof {
        lemma_scaled_bound(c as int, len as int);
    }
    let ac: u128 = if c >= 0 { c as u128 } else { (-c) as u128 };
    let al: u128 = if len >= 0 { len as u128 } else { (-len) as u128 };
    assert(ac <= 1_000_000 && al <= 1_000_000_000_000_000);
    assert(ac * al <= 1_000_000_000_000_000_000_000) by (nonlinear_arith)
        requires
            ac <= 1_000_000,
            al <= 1_000_000_000_000_000,
    ;
    let m: u128 = ac * al;
    let q: u128 = m / (DIR_SCALE as u128);
    let neg: bool = (c < 0) != (len < 0);
    proof {
        let p = c as int * len as int;
        if neg {
            assert(p == -(ac * al)) by (nonlinear_arith)
                requires
                    p == c as int * len as int,
                    ac == (if c >= 0 { c as int } else { -c }),
                    al == (if len >= 0 { len as int } else { -len }),
                    (c < 0) != (len < 0),
            ;
        } else {
            assert(p == ac * al) by (nonlinear_arith)
                requires
                    p == c as int * len as int,
                    ac == (if c >= 0 { c as int } else { -c }),
                    al == (if len >= 0 { len as int } else { -len }),
                    (c < 0) == (len < 0),
            ;
        }
    }
    if neg && q > 0 {
        -(q as i64)
    } else {
        q as i64
    }
}

/// The world displacement of length `len` (picometres) along `d`.
pub fn along_exec(d: Dir, len: i64) -> (r: Vec3)
    requires
        d.wf(),
        -COORD_LIMIT <= len <= COORD_LIMIT,
    ensures
        r == along(d, len as int),
        r.bounded(),
{
    proof {
        lemma_scaled_bound(d.x as int, len as int);
        lemma_scaled_bound(d.z as int, len as int);
    }
    Vec3 { x: scale_component(d.x, len), y: 0, z: scale_component(d.z, len) }
}

} // verus!
