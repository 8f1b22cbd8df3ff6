use vstd::arithmetic::div_mod::*;
use vstd::arithmetic::mul::*;
use vstd::prelude::*;

verus! {

/// Number of angle units in one full turn: an angle is a `u64` read as a
/// fraction of a turn, so wrapping `u64` arithmetic is reduction modulo one turn.
pub open spec fn turn() -> int {
    0x1_0000_0000_0000_0000
}

/// The angle reached from `angle` after turning at `rate` units per
/// microsecond for `dt` microseconds, reduced to one turn.
pub open spec fn advanced(angle: int, rate: int, dt: int) -> int {
    (angle + rate * dt) % turn()
}

/// The turning rate of a base angular speed under a speed scale.
pub open spec fn scaled_rate(speed: i64, scale: u32) -> int {
    speed as int * scale as int
}

/// `speed * scale` reduced to one turn.
fn rate_residue(speed: i64, scale: u32) -> (r: u64)
    ensures
        r as int == scaled_rate(speed, scale) % turn(),
{
    let s: u64 = if speed >= 0 {
        speed as u64
    } else {
        let mag: u64 = (-(speed as i128)) as u64;
        0u64.wrapping_sub(mag)
    };
    proof {
        assert(s as int == speed as int % turn());
        lemma_mul_mod_noop_left(speed as int, scale as int, turn());
    }
    s.wrapping_mul(scale as u64)
}

/// Turns `angle` at `speed` (angle units per microsecond per hundredth of
/// scale) under the speed scale `scale` for `dt` microseconds.
pub fn advance_angle(angle: u64, speed: i64, scale: u32, dt: u64) -> (r: u64)
    ensures
        r as int == advanced(angle as int, scaled_rate(speed, scale), dt as int),
{
    let step = rate_residue(speed, scale).wrapping_mul(dt);
    proof {
        let rate = scaled_rate(speed, scale);
        lemma_mul_mod_noop_left(rate, dt as int, turn());
        lemma_add_mod_noop_right(angle as int, rate * dt as int, turn());
    }
    angle.wrapping_add(step)
}

/// The fraction of a turn that the unreduced angle `theta` stands for.
pub fn turn_fraction(theta: i128) -> (r: u64)
    ensures
        r as int == theta as int % turn(),
{
    if theta >= 0 {
        (theta as u128 % 0x1_0000_0000_0000_0000u128) as u64
    } else {
        let x: u128 = (-(theta + 1)) as u128;
        let m: u64 = (x % 0x1_0000_0000_0000_0000u128) as u64;
        proof {
            let q = x as int / turn();
            lemma_fundamental_div_mod(x as int, turn());
            lemma_mul_is_commutative(q, turn());
            lemma_fundamental_div_mod_converse(
                theta as int,
                turn(),
                -(q + 1),
                turn() - 1 - m as int,
            );
        }
        u64::MAX - m
    }
}

/// Sum of a sequence of time steps.
pub open spec fn total(dts: Seq<u64>) -> int
    decreases dts.len(),
{
    if dts.len() == 0 {
        0
    } else {
        total(dts.drop_last()) + dts.last()
    }
}

/// Two steps in a row reach the angle of one step over their sum.
pub proof fn lemma_two_steps(angle: int, rate: int, dt1: int, dt2: int)
    ensures
        advanced(advanced(angle, rate, dt1), rate, dt2) == advanced(angle, rate, dt1 + dt2),
{
    lemma_add_mod_noop_right(rate * dt2, angle + rate * dt1, turn());
    lemma_mul_is_distributive_add(rate, dt1, dt2);
}

} // verus!
