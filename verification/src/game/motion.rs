//! How far a body travels in a span of time.

use vstd::prelude::*;

verus! {

/// Time is counted in nanoseconds; speed is per second.
pub const NANOS_PER_SECOND: u64 = 1_000_000_000;

/// The quotient of `n` by a positive `d`, rounded toward zero.
pub open spec fn quotient_toward_zero(n: int, d: int) -> int {
    if n >= 0 {
        n / d
    } else {
        -((-n) / d)
    }
}

/// The whole units covered in `dt` nanoseconds at `speed` units per second.
/// A fraction of a unit is dropped, whichever way the body moves.
pub open spec fn displacement(speed: int, dt: int) -> int {
    quotient_toward_zero(speed * dt, NANOS_PER_SECOND as int)
}

/// No time, no travel; and a body at rest stays where it is.
pub proof fn lemma_displacement_zero(speed: int, dt: int)
    ensures
        displacement(speed, 0) == 0,
        displacement(0, dt) == 0,
{
    assert(speed * 0 == 0) by (nonlinear_arith);
    assert(0 * dt == 0) by (nonlinear_arith);
}

/// A body never travels against its speed.
pub proof fn lemma_displacement_sign(speed: int, dt: int)
    requires
        dt >= 0,
    ensures
        speed >= 0 ==> displacement(speed, dt) >= 0,
        speed <= 0 ==> displacement(speed, dt) <= 0,
{
    assert(speed >= 0 ==> speed * dt >= 0) by (nonlinear_arith)
        requires
            dt >= 0,
    ;
    assert(speed <= 0 ==> speed * dt <= 0) by (nonlinear_arith)
        requires
            dt >= 0,
    ;
}

/// A bound on every distance that `travel` can return.
pub open spec fn travel_limit() -> int {
    0x10_0000_0000_0000_0000_0000_0000int
}

/// Computes `displacement(speed, dt)`.
pub fn travel(speed: i64, dt: u64) -> (d: i128)
    ensures
        d == displacement(speed as int, dt as int),
        -travel_limit() <= d <= travel_limit(),
{
    assert(-0x8000_0000_0000_0000 * 0xffff_ffff_ffff_ffff <= speed as int * dt as int
        <= 0x7fff_ffff_ffff_ffff * 0xffff_ffff_ffff_ffff) by (nonlinear_arith)
        requires
            -0x8000_0000_0000_0000 <= speed as int <= 0x7fff_ffff_ffff_ffff,
            0 <= dt as int <= 0xffff_ffff_ffff_ffff,
    ;
    let product: i128 = (speed as i128) * (dt as i128);
    product / (NANOS_PER_SECOND as i128)
}

} // verus!
