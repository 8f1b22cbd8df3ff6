use crate::geometry::{UnitPoint, Vec3, UNIT};
use crate::scene::Scene;
use vstd::prelude::*;

verus! {

/// Largest coordinate magnitude of a local translation that world
/// composition accepts: with it every world coordinate fits in an `i64`.
pub const COORD_LIMIT: i64 = 0x100_0000_0000;

/// `a * f / UNIT`, rounded toward zero.
pub open spec fn fixed_mul(a: int, f: int) -> int {
    if a * f >= 0 {
        (a * f) / (UNIT as int)
    } else {
        -((-(a * f)) / (UNIT as int))
    }
}

/// The cosine and sine of a node's two rotation angles: its tilt about the
/// z axis and its yaw about its own vertical axis.
#[derive(Clone, Copy, Debug, PartialEq, Eq, Structural)]
pub struct Turn {
    pub tilt: UnitPoint,
    pub yaw: UnitPoint,
}

impl Turn {
    pub open spec fn wf(self) -> bool {
        self.tilt.wf() && self.yaw.wf()
    }
}

/// The cosines and sines of the rotations of the four nodes that have children.
#[derive(Clone, Copy, Debug, PartialEq, Eq, Structural)]
pub struct SceneTurns {
    pub center: Turn,
    pub orbit_pivot: Turn,
    pub orbiting: Turn,
    pub sub_orbit_pivot: Turn,
}

impl SceneTurns {
    pub open spec fn wf(self) -> bool {
        self.center.wf() && self.orbit_pivot.wf() && self.orbiting.wf() && self.sub_orbit_pivot.wf()
    }
}

/// Every node's position in the frame of the scene.
#[derive(Clone, Copy, Debug, PartialEq, Eq, Structural)]
pub struct WorldPositions {
    pub center: Vec3,
    pub orbit_pivot: Vec3,
    pub orbiting: Vec3,
    pub sub_orbit_pivot: Vec3,
    pub satellite: Vec3,
}

/// A vector of integers, the spec-level counterpart of `Vec3`.
pub type IVec = (int, int, int);

pub open spec fn ivec(v: Vec3) -> IVec {
    (v.x as int, v.y as int, v.z as int)
}

pub open spec fn iadd(a: IVec, b: IVec) -> IVec {
    (a.0 + b.0, a.1 + b.1, a.2 + b.2)
}

/// `v` turned about the vertical axis by the angle whose cosine and sine are `p`.
pub open spec fn yawed(v: IVec, p: UnitPoint) -> IVec {
    (
        fixed_mul(v.0, p.cos as int) + fixed_mul(v.2, p.sin as int),
        v.1,
        fixed_mul(v.2, p.cos as int) - fixed_mul(v.0, p.sin as int),
    )
}

/// `v` turned about the z axis by the angle whose cosine and sine are `p`.
pub open spec fn tilted(v: IVec, p: UnitPoint) -> IVec {
    (
        fixed_mul(v.0, p.cos as int) - fixed_mul(v.1, p.sin as int),
        fixed_mul(v.0, p.sin as int) + fixed_mul(v.1, p.cos as int),
        v.2,
    )
}

/// `v` carried by a node's rotation: the yaw first, then the tilt.
pub open spec fn turned_by(v: IVec, t: Turn) -> IVec {
    tilted(yawed(v, t.yaw), t.tilt)
}

/// All three coordinates lie within `[-b, b]`.
pub open spec fn bounded(v: IVec, b: int) -> bool {
    -b <= v.0 <= b && -b <= v.1 <= b && -b <= v.2 <= b
}

/// Every node's local translation lies within `COORD_LIMIT`.
pub open spec fn within_limit(s: Scene) -> bool {
    bounded(ivec(s.center.transform.translation), COORD_LIMIT as int)
        && bounded(ivec(s.orbit_pivot.transform.translation), COORD_LIMIT as int)
        && bounded(ivec(s.orbiting.transform.translation), COORD_LIMIT as int)
        && bounded(ivec(s.sub_orbit_pivot.transform.translation), COORD_LIMIT as int)
        && bounded(ivec(s.satellite.transform.translation), COORD_LIMIT as int)
}

/// The world positions of the nodes: each child's world position is its
/// parent's plus its local translation carried by the rotations of all its
/// ancestors, the nearest first. The center is the root.
pub open spec fn world_of(s: Scene, t: SceneTurns) -> (IVec, IVec, IVec, IVec, IVec) {
    let w0 = ivec(s.center.transform.translation);
    let w1 = iadd(w0, turned_by(ivec(s.orbit_pivot.transform.translation), t.center));
    let w2 = iadd(
        w1,
        turned_by(turned_by(ivec(s.orbiting.transform.translation), t.orbit_pivot), t.center),
    );
    let w3 = iadd(
        w2,
        turned_by(
            turned_by(turned_by(ivec(s.sub_orbit_pivot.transform.translation), t.orbiting), t.orbit_pivot),
            t.center,
        ),
    );
    let w4 = iadd(
        w3,
        turned_by(
            turned_by(
                turned_by(turned_by(ivec(s.satellite.transform.translation), t.sub_orbit_pivot), t.orbiting),
                t.orbit_pivot,
            ),
            t.center,
        ),
    );
    (w0, w1, w2, w3, w4)
}

proof fn lemma_fixed_mul_bound(a: int, f: int, b: int)
    requires
        -b <= a <= b,
        -UNIT <= f <= UNIT,
    ensures
        -b <= fixed_mul(a, f) <= b,
{
    let p = a * f;
    assert(-(b * UNIT) <= p <= b * UNIT) by (nonlinear_arith)
        requires
            -b <= a <= b,
            -UNIT <= f <= UNIT,
            p == a * f,
    ;
    vstd::arithmetic::div_mod::lemma_div_multiples_vanish(b, UNIT as int);
    if p >= 0 {
        vstd::arithmetic::div_mod::lemma_div_is_ordered(p, b * UNIT, UNIT as int);
        vstd::arithmetic::div_mod::lemma_div_pos_is_pos(p, UNIT as int);
    } else {
        vstd::arithmetic::div_mod::lemma_div_is_ordered(-p, b * UNIT, UNIT as int);
        vstd::arithmetic::div_mod::lemma_div_pos_is_pos(-p, UNIT as int);
    }
}

/// `a * f / UNIT`, rounded toward zero.
fn mul_fixed(a: i64, f: i64) -> (r: i64)
    requires
        -0x10_0000_0000_0000 <= a <= 0x10_0000_0000_0000,
        -UNIT <= f <= UNIT,
    ensures
        r as int == fixed_mul(a as int, f as int),
{
    proof {
        lemma_fixed_mul_bound(a as int, f as int, 0x10_0000_0000_0000);
        assert(-0x10_0000_0000_0000 * UNIT <= a as int * f as int <= 0x10_0000_0000_0000 * UNIT)
            by (nonlinear_arith)
            requires
                -0x10_0000_0000_0000 <= a <= 0x10_0000_0000_0000,
                -UNIT <= f <= UNIT,
        ;
    }
    let p: i128 = a as i128 * f as i128;
    if p >= 0 {
        (p / (UNIT as i128)) as i64
    } else {
        -(((-p) / (UNIT as i128)) as i64)
    }
}

proof fn lemma_turned_bound(v: IVec, t: Turn, b: int)
    requires
        t.wf(),
        bounded(v, b),
    ensures
        bounded(yawed(v, t.yaw), 2 * b),
        bounded(turned_by(v, t), 4 * b),
{
    lemma_fixed_mul_bound(v.0, t.yaw.cos as int, b);
    lemma_fixed_mul_bound(v.2, t.yaw.sin as int, b);
    lemma_fixed_mul_bound(v.2, t.yaw.cos as int, b);
    lemma_fixed_mul_bound(v.0, t.yaw.sin as int, b);
    let y = yawed(v, t.yaw);
    lemma_fixed_mul_bound(y.0, t.tilt.cos as int, 2 * b);
    lemma_fixed_mul_bound(y.1, t.tilt.sin as int, 2 * b);
    lemma_fixed_mul_bound(y.0, t.tilt.sin as int, 2 * b);
    lemma_fixed_mul_bound(y.1, t.tilt.cos as int, 2 * b);
}

/// `v` carried by the rotation whose cosines and sines are `t`.
fn turn_vec(v: Vec3, t: &Turn) -> (r: Vec3)
    requires
        t.wf(),
        bounded(ivec(v), 0x2_0000_0000_0000),
    ensures
        ivec(r) == turned_by(ivec(v), *t),
{
    proof {
        lemma_turned_bound(ivec(v), *t, 0x2_0000_0000_0000);
        lemma_fixed_mul_bound(v.x as int, t.yaw.cos as int, 0x2_0000_0000_0000);
        lemma_fixed_mul_bound(v.z as int, t.yaw.sin as int, 0x2_0000_0000_0000);
        lemma_fixed_mul_bound(v.z as int, t.yaw.cos as int, 0x2_0000_0000_0000);
        lemma_fixed_mul_bound(v.x as int, t.yaw.sin as int, 0x2_0000_0000_0000);
    }
    let (c, s) = (t.yaw.cos, t.yaw.sin);
    let x = mul_fixed(v.x, c) + mul_fixed(v.z, s);
    let z = mul_fixed(v.z, c) - mul_fixed(v.x, s);
    let y = v.y;
    proof {
        let w = yawed(ivec(v), t.yaw);
        lemma_fixed_mul_bound(w.0, t.tilt.cos as int, 0x4_0000_0000_0000);
        lemma_fixed_mul_bound(w.1, t.tilt.sin as int, 0x4_0000_0000_0000);
        lemma_fixed_mul_bound(w.0, t.tilt.sin as int, 0x4_0000_0000_0000);
        lemma_fixed_mul_bound(w.1, t.tilt.cos as int, 0x4_0000_0000_0000);
    }
    let (c, s) = (t.tilt.cos, t.tilt.sin);
    Vec3 {
        x: mul_fixed(x, c) - mul_fixed(y, s),
        y: mul_fixed(x, s) + mul_fixed(y, c),
        z,
    }
}

fn add_vec(a: Vec3, b: Vec3) -> (r: Vec3)
    requires
        bounded(ivec(a), 0x10_0000_0000_0000),
        bounded(ivec(b), 0x10_0000_0000_0000),
    ensures
        ivec(r) == iadd(ivec(a), ivec(b)),
{
    Vec3 { x: a.x + b.x, y: a.y + b.y, z: a.z + b.z }
}

fn within(v: Vec3) -> (r: bool)
    ensures
        r == bounded(ivec(v), COORD_LIMIT as int),
{
    -COORD_LIMIT <= v.x && v.x <= COORD_LIMIT && -COORD_LIMIT <= v.y && v.y <= COORD_LIMIT
        && -COORD_LIMIT <= v.z && v.z <= COORD_LIMIT
}

impl Scene {
    /// Composes the nodes' local transforms into positions in the scene's
    /// frame, each parent before its children, given the cosines and sines of
    /// the rotations. Refuses, with `None`, a scene with a local translation
    /// beyond `COORD_LIMIT`.
    pub fn world_positions(&self, turns: &SceneTurns) -> (r: Option<WorldPositions>)
        requires
            turns.wf(),
        ensures
            r is None <==> !within_limit(*self),
            r matches Some(w) ==> world_of(*self, *turns) == (
                ivec(w.center),
                ivec(w.orbit_pivot),
                ivec(w.orbiting),
                ivec(w.sub_orbit_pivot),
                ivec(w.satellite),
            ),
    {
        let t0 = self.center.transform.translation;
        let t1 = self.orbit_pivot.transform.translation;
        let t2 = self.orbiting.transform.translation;
        let t3 = self.sub_orbit_pivot.transform.translation;
        let t4 = self.satellite.transform.translation;
        if !(within(t0) && within(t1) && within(t2) && within(t3) && within(t4)) {
            return None;
        }
        let b: Ghost<int> = Ghost(COORD_LIMIT as int);
        proof {
            lemma_turned_bound(ivec(t1), turns.center, b@);
            lemma_turned_bound(ivec(t2), turns.orbit_pivot, b@);
            lemma_turned_bound(turned_by(ivec(t2), turns.orbit_pivot), turns.center, 4 * b@);
            lemma_turned_bound(ivec(t3), turns.orbiting, b@);
            lemma_turned_bound(turned_by(ivec(t3), turns.orbiting), turns.orbit_pivot, 4 * b@);
            lemma_turned_bound(
                turned_by(turned_by(ivec(t3), turns.orbiting), turns.orbit_pivot),
                turns.center,
                16 * b@,
            );
            lemma_turned_bound(ivec(t4), turns.sub_orbit_pivot, b@);
            lemma_turned_bound(turned_by(ivec(t4), turns.sub_orbit_pivot), turns.orbiting, 4 * b@);
            lemma_turned_bound(
                turned_by(turned_by(ivec(t4), turns.sub_orbit_pivot), turns.orbiting),
                turns.orbit_pivot,
                16 * b@,
            );
            lemma_turned_bound(
                turned_by(
                    turned_by(turned_by(ivec(t4), turns.sub_orbit_pivot), turns.orbiting),
                    turns.orbit_pivot,
                ),
                turns.center,
                64 * b@,
            );
        }
        let w0 = t0;
        let w1 = add_vec(w0, turn_vec(t1, &turns.center));
        let w2 = add_vec(w1, turn_vec(turn_vec(t2, &turns.orbit_pivot), &turns.center));
        let w3 = add_vec(
            w2,
            turn_vec(turn_vec(turn_vec(t3, &turns.orbiting), &turns.orbit_pivot), &turns.center),
        );
        let w4 = add_vec(
            w3,
            turn_vec(
                turn_vec(
                    turn_vec(turn_vec(t4, &turns.sub_orbit_pivot), &turns.orbiting),
                    &turns.orbit_pivot,
                ),
                &turns.center,
            ),
        );
        Some(
            WorldPositions {
                center: w0,
                orbit_pivot: w1,
                orbiting: w2,
                sub_orbit_pivot: w3,
                satellite: w4,
            },
        )
    }
}

} // verus!
