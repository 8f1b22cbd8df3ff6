use vstd::arithmetic::div_mod::*;
use vstd::prelude::*;

verus! {

/// Lengths are fixed-point integers: `LENGTH_ONE` units make one scene unit.
pub const LENGTH_ONE: i64 = 1_000_000;

/// Fixed-point scale of a `UnitPoint`'s coordinates: `UNIT` stands for 1.
pub const UNIT: i64 = 0x4000_0000;

/// How far `cos^2 + sin^2` of a `UnitPoint` may stray from `UNIT^2`: rounding
/// each coordinate to an integer moves the sum by less than `2 * UNIT`.
pub const CIRCLE_TOLERANCE: i64 = 0x8000_0000;

/// A point in the scene, in fixed-point length units.
#[derive(Clone, Copy, Debug, PartialEq, Eq, Structural)]
pub struct Vec3 {
    pub x: i64,
    pub y: i64,
    pub z: i64,
}

impl Vec3 {
    pub fn new(x: i64, y: i64, z: i64) -> (r: Vec3)
        ensures
            r == (Vec3 { x, y, z }),
    {
        Vec3 { x, y, z }
    }

    /// The point at distance `d` along the x axis.
    pub open spec fn on_x_axis(d: i64) -> Vec3 {
        Vec3 { x: d, y: 0, z: 0 }
    }
}

/// A point of the unit circle, `(cos, sin)` of some angle, each scaled by `UNIT`.
#[derive(Clone, Copy, Debug, PartialEq, Eq, Structural)]
pub struct UnitPoint {
    pub cos: i64,
    pub sin: i64,
}

impl UnitPoint {
    /// Both coordinates lie within `[-UNIT, UNIT]`.
    pub open spec fn wf(self) -> bool {
        -UNIT <= self.cos <= UNIT && -UNIT <= self.sin <= UNIT
    }

    /// `cos^2 + sin^2` is `UNIT^2` up to `CIRCLE_TOLERANCE`: the point lies
    /// on the unit circle, within the rounding of its coordinates.
    pub open spec fn on_circle(self) -> bool {
        self.wf() && -CIRCLE_TOLERANCE <= self.cos * self.cos + self.sin * self.sin - UNIT * UNIT
            <= CIRCLE_TOLERANCE
    }

    pub fn is_on_circle(&self) -> (r: bool)
        ensures
            r == self.on_circle(),
    {
        if !(-UNIT <= self.cos && self.cos <= UNIT && -UNIT <= self.sin && self.sin <= UNIT) {
            return false;
        }
        proof {
            assert(self.cos * self.cos <= UNIT * UNIT) by (nonlinear_arith)
                requires
                    -UNIT <= self.cos <= UNIT,
            ;
            assert(self.sin * self.sin <= UNIT * UNIT) by (nonlinear_arith)
                requires
                    -UNIT <= self.sin <= UNIT,
            ;
            assert(0 <= self.cos * self.cos) by (nonlinear_arith);
            assert(0 <= self.sin * self.sin) by (nonlinear_arith);
        }
        let d = self.cos * self.cos + self.sin * self.sin - UNIT * UNIT;
        -CIRCLE_TOLERANCE <= d && d <= CIRCLE_TOLERANCE
    }
}

/// `len * f / UNIT`, rounded toward zero.
pub open spec fn scaled(len: int, f: int) -> int {
    if f >= 0 {
        (len * f) / (UNIT as int)
    } else {
        -((len * -f) / (UNIT as int))
    }
}

/// Scales the length `len` by the fixed-point factor `f`, rounding toward zero.
pub fn scale_length(len: i64, f: i64) -> (r: i64)
    requires
        len >= 0,
        -UNIT <= f <= UNIT,
    ensures
        r as int == scaled(len as int, f as int),
{
    let neg = f < 0;
    let mag: u64 = if neg { (-f) as u64 } else { f as u64 };
    proof {
        assert(len as int * mag as int <= len as int * UNIT) by (nonlinear_arith)
            requires
                len >= 0,
                0 <= mag <= UNIT,
        ;
        assert(len as int * UNIT <= i64::MAX as int * UNIT) by (nonlinear_arith)
            requires
                len >= 0,
        ;
    }
    let prod: u128 = len as u128 * mag as u128;
    proof {
        lemma_div_is_ordered(prod as int, len as int * UNIT, UNIT as int);
        lemma_div_multiples_vanish(len as int, UNIT as int);
    }
    let q: u128 = prod / (UNIT as u128);
    if neg {
        -(q as i64)
    } else {
        q as i64
    }
}

/// A node's transform relative to its parent: a translation and a rotation.
/// The rotation is a fixed tilt about the parent's z axis followed by a yaw
/// about the node's own vertical axis; both angles are fractions of a turn.
#[derive(Clone, Copy, Debug, PartialEq, Eq, Structural)]
pub struct LocalTransform {
    pub translation: Vec3,
    pub tilt: u64,
    pub yaw: u64,
}

impl LocalTransform {
    /// An untilted, unturned transform at `translation`.
    pub fn at(translation: Vec3) -> (r: LocalTransform)
        ensures
            r == (LocalTransform { translation, tilt: 0, yaw: 0 }),
    {
        LocalTransform { translation, tilt: 0, yaw: 0 }
    }
}

} // verus!
