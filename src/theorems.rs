use vstd::prelude::*;

use crate::controller::{
    clamp_frame, plan_of, request_of, turn_delta, FpsController, MAX_FRAME_US, MAX_TURN_STEP,
    MIN_FRAME_US,
};
use crate::geometry::{origin, Dir, Vec3};
use crate::intent::{intents_of, KeyState};
use crate::resolver::{all_clear, all_wf, part_of, resolve_seq, Body, Facing, Wall};

verus! {

/// Every key state maps to intents in {-1, 0, 1}; when both opposite keys
/// are held, back beats forward and left beats right.
pub proof fn lemma_intents_in_range(k: KeyState)
    ensures
        intents_of(k).wf(),
        k.forward && k.back ==> intents_of(k).move_intent == -1,
        k.left && k.right ==> intents_of(k).turn_intent == 1,
{
}

/// The clamped frame time lies in `[MIN_FRAME_US, MAX_FRAME_US]`, a time
/// already in that range is kept, and clamping twice changes nothing.
pub proof fn lemma_clamp_frame(dt: int)
    ensures
        MIN_FRAME_US <= clamp_frame(dt) <= MAX_FRAME_US,
        MIN_FRAME_US <= dt <= MAX_FRAME_US ==> clamp_frame(dt) == dt,
        clamp_frame(clamp_frame(dt)) == clamp_frame(dt),
{
}

/// A frame that turns and moves takes its translation along the heading
/// reached after the turn: the plan's heading is the old yaw plus the
/// turn of this frame, and differs from the old yaw.
pub proof fn lemma_turn_before_move(c: FpsController, yaw: int, k: KeyState, dt: int)
    requires
        c.wf(),
        c.speed_turn > 0,
        intents_of(k).turn_intent != 0,
        intents_of(k).move_intent != 0,
        i64::MIN + MAX_TURN_STEP <= yaw <= i64::MAX - MAX_TURN_STEP,
    ensures
        plan_of(c, yaw, k, dt).heading == yaw + turn_delta(
            intents_of(k).turn_intent as int,
            c.speed_turn as int,
            clamp_frame(dt),
        ),
        plan_of(c, yaw, k, dt).heading != yaw,
{
    let t = clamp_frame(dt);
    let s = c.speed_turn as int;
    assert(0 < s * t <= 1_000_000_000 * 100_000) by (nonlinear_arith)
        requires
            0 < s <= 1_000_000_000,
            1_000 <= t <= 100_000,
    ;
    if intents_of(k).turn_intent == 1 {
        assert(turn_delta(1, s, t) == s * t);
    } else {
        assert(turn_delta(-1, s, t) == -(s * t)) by (nonlinear_arith);
    }
}

/// A frame with no key held neither turns nor asks for a displacement.
pub proof fn lemma_idle_frame(c: FpsController, yaw: i64, k: KeyState, dt: int, forward: Dir)
    requires
        !k.forward && !k.back && !k.left && !k.right,
    ensures
        plan_of(c, yaw as int, k, dt).heading == yaw,
        plan_of(c, yaw as int, k, dt).distance == 0,
        request_of(plan_of(c, yaw as int, k, dt), forward) is None,
{
    let p = plan_of(c, yaw as int, k, dt);
    let t = clamp_frame(dt);
    assert(0 * (c.speed_move as int) * t == 0 && 0 * (c.speed_turn as int) * t == 0) by (
    nonlinear_arith);
    assert(p.distance == 0);
    assert((forward.x as int) * 0 == 0 && (forward.z as int) * 0 == 0);
}

/// Sliding against a wall that the requested move would cross keeps the
/// part of the move along the wall, and shortens the part into it so that
/// the collider ends exactly at the skin offset. From a rest at the skin
/// offset, the part into the wall is removed entirely.
pub proof fn lemma_slide_along_wall(w: Wall, b: Body, p: Vec3, d: Vec3)
    requires
        w.wf(),
        b.wf(),
        p.bounded(),
        d.bounded(),
        w.clear(b, p, origin()),
        !w.clear(b, p, d),
    ensures
        w.tangent(w.slide(b, p, d)) == w.tangent(d),
        w.gap(b.radius as int, p, w.slide(b, p, d)) == b.skin,
        w.normal_part(d) < w.normal_part(w.slide(b, p, d)) <= 0,
        w.gap(b.radius as int, p, origin()) == b.skin ==> w.normal_part(w.slide(b, p, d)) == 0,
{
}

/// From a start that is clear of every wall, the resolved move is a part
/// of the requested one and keeps the collider clear of every wall; a
/// requested move that already keeps clear is returned whole.
pub proof fn lemma_resolve_stays_clear(walls: Seq<Wall>, b: Body, p: Vec3, d: Vec3)
    requires
        all_wf(walls),
        b.wf(),
        p.bounded(),
        d.bounded(),
        all_clear(walls, b, p, origin()),
    ensures
        all_clear(walls, b, p, resolve_seq(walls, b, p, d)),
        part_of(resolve_seq(walls, b, p, d), d),
        all_clear(walls, b, p, d) ==> resolve_seq(walls, b, p, d) == d,
    decreases walls.len(),
{
    if walls.len() > 0 {
        let rest = walls.drop_last();
        let w = walls.last();
        assert forall|i: int| 0 <= i < rest.len() implies (#[trigger] rest[i]).wf() && rest[i].clear(
            b,
            p,
            origin(),
        ) by {
            assert(rest[i] == walls[i]);
        }
        assert(w == walls[walls.len() - 1]);
        lemma_resolve_stays_clear(rest, b, p, d);
        let r0 = resolve_seq(rest, b, p, d);
        let r = w.slide(b, p, r0);
        assert forall|i: int| 0 <= i < walls.len() implies (#[trigger] walls[i]).clear(b, p, r) by {
            if i < walls.len() - 1 {
                assert(rest[i] == walls[i]);
                assert(rest[i].clear(b, p, r0));
            }
        }
        if all_clear(walls, b, p, d) {
            assert forall|i: int| 0 <= i < rest.len() implies (#[trigger] rest[i]).clear(b, p, d) by {
                assert(rest[i] == walls[i]);
            }
        }
    }
}

/// The position after `k` frames that each request the move `d` from the
/// position reached and resolve it against the single wall `w`.
pub open spec fn approach(w: Wall, b: Body, p: Vec3, d: Vec3, k: nat) -> Vec3
    decreases k,
{
    if k == 0 {
        p
    } else {
        let q = approach(w, b, p, d, (k - 1) as nat);
        q.moved(resolve_seq(seq![w], b, q, d))
    }
}

/// One frame of a head-on walk: the gap shrinks by the requested step,
/// but never below the skin offset, and nothing else moves.
proof fn lemma_approach_step(w: Wall, b: Body, q: Vec3, d: Vec3)
    requires
        w.wf(),
        b.wf(),
        q.bounded(),
        d.bounded(),
        w.clear(b, q, origin()),
        w.tangent(d) == origin(),
        w.normal_part(d) < 0,
    ensures
        q.moved(w.slide(b, q, d)).bounded(),
        w.tangent(q.moved(w.slide(b, q, d))) == w.tangent(q),
        w.gap(b.radius as int, q.moved(w.slide(b, q, d)), origin()) == if w.gap(
            b.radius as int,
            q,
            origin(),
        ) + w.normal_part(d) >= b.skin {
            w.gap(b.radius as int, q, origin()) + w.normal_part(d)
        } else {
            b.skin as int
        },
{
    match w.facing {
        Facing::PosX => {},
        Facing::NegX => {},
        Facing::PosZ => {},
        Facing::NegZ => {},
    }
}

/// Walking head-on into a wall at a constant requested speed, the gap to
/// the wall shrinks by the requested step each frame until it reaches the
/// skin offset, and then stays at exactly the skin offset.
pub proof fn lemma_approach_settles(w: Wall, b: Body, p: Vec3, d: Vec3, k: nat)
    requires
        w.wf(),
        b.wf(),
        p.bounded(),
        d.bounded(),
        w.clear(b, p, origin()),
        w.tangent(d) == origin(),
        w.normal_part(d) < 0,
    ensures
        approach(w, b, p, d, k).bounded(),
        w.tangent(approach(w, b, p, d, k)) == w.tangent(p),
        w.gap(b.radius as int, approach(w, b, p, d, k), origin()) == if w.gap(
            b.radius as int,
            p,
            origin(),
        ) + k * w.normal_part(d) >= b.skin {
            w.gap(b.radius as int, p, origin()) + k * w.normal_part(d)
        } else {
            b.skin as int
        },
    decreases k,
{
    if k > 0 {
        let k1 = (k - 1) as nat;
        lemma_approach_settles(w, b, p, d, k1);
        let q = approach(w, b, p, d, k1);
        assert(seq![w].drop_last() =~= Seq::<Wall>::empty());
        assert(seq![w].last() == w);
        assert(resolve_seq(Seq::<Wall>::empty(), b, q, d) == d);
        assert(resolve_seq(seq![w], b, q, d) == w.slide(b, q, d));
        assert(approach(w, b, p, d, k) == q.moved(w.slide(b, q, d)));
        lemma_approach_step(w, b, q, d);
        let n = w.normal_part(d);
        let g0 = w.gap(b.radius as int, p, origin());
        assert(k1 * n + n == k * n) by (nonlinear_arith)
            requires
                k1 + 1 == k,
        ;
        assert(g0 + k1 * n + n == g0 + k * n);
    }
}

} // verus!
