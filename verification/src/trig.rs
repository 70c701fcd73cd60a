use vstd::prelude::*;
use crate::fixed::{Fixed, SCALE, f_add, f_sub, f_mul, f_div, f_sqrt, f_neg, fixed_of};

verus! {

/// The circle constant at the scalar domain's resolution. The circular
/// functions below are polynomial approximations over the exact scalar
/// domain; their contracts state the computed form itself.
pub const PI_RAW: u128 = 3_141_592_654;

/// Half the circle constant.
pub const HALF_PI_RAW: u128 = 1_570_796_327;

/// One full turn, in raw degree units.
pub const TURN_RAW: u128 = 360_000_000_000;

pub open spec fn pi_fixed() -> Fixed {
    Fixed { neg: false, mag: PI_RAW }
}

pub open spec fn half_pi_fixed() -> Fixed {
    Fixed { neg: false, mag: HALF_PI_RAW }
}

pub open spec fn whole(n: u128) -> Fixed {
    Fixed { neg: false, mag: (n * SCALE) as u128 }
}

/// The scalar of a small whole value.
pub fn whole_exec(n: u128) -> (r: Fixed)
    requires
        n <= 10_000_000_000,
    ensures
        r == whole(n),
        r.wf(),
        r.val() == n * SCALE,
{
    proof {
        assert(n * SCALE <= 10_000_000_000_000_000_000u128) by (nonlinear_arith)
            requires
                n <= 10_000_000_000u128,
                SCALE == 1_000_000_000u128,
        ;
    }
    Fixed { neg: false, mag: n * SCALE }
}

/// Degrees to radians: multiply by the circle constant, divide by 180.
pub open spec fn deg_to_rad(d: Fixed) -> Fixed {
    f_div(f_mul(d, pi_fixed()), whole(180))
}

pub fn deg_to_rad_exec(d: Fixed) -> (r: Fixed)
    requires
        d.wf(),
    ensures
        r.wf(),
        r == deg_to_rad(d),
{
    let pi = Fixed { neg: false, mag: PI_RAW };
    d.mul(pi).div(whole_exec(180))
}

/// Radians to degrees: multiply by 180, divide by the circle constant.
pub open spec fn rad_to_deg(r: Fixed) -> Fixed {
    f_div(f_mul(r, whole(180)), pi_fixed())
}

pub fn rad_to_deg_exec(x: Fixed) -> (r: Fixed)
    requires
        x.wf(),
    ensures
        r.wf(),
        r == rad_to_deg(x),
{
    let pi = Fixed { neg: false, mag: PI_RAW };
    x.mul(whole_exec(180)).div(pi)
}

/// An angle folded into [0, 360) degrees.
pub open spec fn norm360(v: int) -> int {
    let m = crate::fixed::abs_of(v) % TURN_RAW as int;
    if v < 0 && m > 0 {
        TURN_RAW as int - m
    } else {
        m
    }
}

pub fn norm360_exec(d: Fixed) -> (r: Fixed)
    requires
        d.wf(),
    ensures
        r.wf(),
        !r.neg,
        r.val() == norm360(d.val()),
        0 <= r.val() < TURN_RAW,
{
    let m = d.mag % TURN_RAW;
    if d.neg && m > 0 {
        Fixed { neg: false, mag: TURN_RAW - m }
    } else {
        Fixed { neg: false, mag: m }
    }
}

/// The sine series on a first-quadrant angle given in degrees: the odd
/// Taylor terms of the radian value, through the fifteenth power,
/// accumulated left to right.
pub open spec fn sin_q_spec(d: Fixed) -> Fixed {
    let x = deg_to_rad(d);
    let x2 = f_mul(x, x);
    let t1 = x;
    let t3 = f_div(f_mul(t1, x2), whole(6));
    let t5 = f_div(f_mul(t3, x2), whole(20));
    let t7 = f_div(f_mul(t5, x2), whole(42));
    let t9 = f_div(f_mul(t7, x2), whole(72));
    let t11 = f_div(f_mul(t9, x2), whole(110));
    let t13 = f_div(f_mul(t11, x2), whole(156));
    let t15 = f_div(f_mul(t13, x2), whole(210));
    f_sub(f_add(f_sub(f_add(f_sub(f_add(f_sub(t1, t3), t5), t7), t9), t11), t13), t15)
}

fn sin_q(d: Fixed) -> (r: Fixed)
    requires
        d.wf(),
    ensures
        r.wf(),
        r == sin_q_spec(d),
{
    let x = deg_to_rad_exec(d);
    let x2 = x.mul(x);
    let t1 = x;
    let t3 = t1.mul(x2).div(whole_exec(6));
    let t5 = t3.mul(x2).div(whole_exec(20));
    let t7 = t5.mul(x2).div(whole_exec(42));
    let t9 = t7.mul(x2).div(whole_exec(72));
    let t11 = t9.mul(x2).div(whole_exec(110));
    let t13 = t11.mul(x2).div(whole_exec(156));
    let t15 = t13.mul(x2).div(whole_exec(210));
    t1.sub(t3).add(t5).sub(t7).add(t9).sub(t11).add(t13).sub(t15)
}

/// Sine of an angle in degrees, by quadrant reduction into the series.
pub open spec fn sin_deg_spec(d: Fixed) -> Fixed {
    let n = norm360(d.val());
    if n < 90_000_000_000 {
        sin_q_spec(fixed_of(n))
    } else if n < 180_000_000_000 {
        sin_q_spec(fixed_of(180_000_000_000 - n))
    } else if n < 270_000_000_000 {
        f_neg(sin_q_spec(fixed_of(n - 180_000_000_000)))
    } else {
        f_neg(sin_q_spec(fixed_of(360_000_000_000 - n)))
    }
}

pub fn sin_deg(d: Fixed) -> (r: Fixed)
    requires
        d.wf(),
    ensures
        r.wf(),
        r == sin_deg_spec(d),
{
    let n = norm360_exec(d);
    if n.mag < 90_000_000_000 {
        proof {
            assert(n == fixed_of(n.val()));
        }
        sin_q(n)
    } else if n.mag < 180_000_000_000 {
        let m = Fixed { neg: false, mag: 180_000_000_000 - n.mag };
        proof {
            assert(m == fixed_of(180_000_000_000 - n.val()));
        }
        sin_q(m)
    } else if n.mag < 270_000_000_000 {
        let m = Fixed { neg: false, mag: n.mag - 180_000_000_000 };
        proof {
            assert(m == fixed_of(n.val() - 180_000_000_000));
        }
        sin_q(m).neg()
    } else {
        let m = Fixed { neg: false, mag: 360_000_000_000 - n.mag };
        proof {
            assert(m == fixed_of(360_000_000_000 - n.val()));
        }
        sin_q(m).neg()
    }
}

/// Cosine of an angle in degrees, as the sine of its complement.
pub open spec fn cos_deg_spec(d: Fixed) -> Fixed {
    sin_deg_spec(f_sub(whole(90), d))
}

pub fn cos_deg(d: Fixed) -> (r: Fixed)
    requires
        d.wf(),
    ensures
        r.wf(),
        r == cos_deg_spec(d),
{
    sin_deg(whole_exec(90).sub(d))
}

/// The arctangent series after two argument halvings, times four. Meant
/// for arguments of magnitude at most one; defined for all scalars.
pub open spec fn atan_unit_spec(t: Fixed) -> Fixed {
    let one = whole(1);
    let h1 = f_div(t, f_add(one, f_sqrt(f_add(one, f_mul(t, t)))));
    let h2 = f_div(h1, f_add(one, f_sqrt(f_add(one, f_mul(h1, h1)))));
    let z2 = f_mul(h2, h2);
    let p3 = f_mul(h2, z2);
    let p5 = f_mul(p3, z2);
    let p7 = f_mul(p5, z2);
    let p9 = f_mul(p7, z2);
    let p11 = f_mul(p9, z2);
    let p13 = f_mul(p11, z2);
    let s = f_add(
        f_sub(
            f_add(
                f_sub(f_add(f_sub(h2, f_div(p3, whole(3))), f_div(p5, whole(5))), f_div(p7, whole(7))),
                f_div(p9, whole(9)),
            ),
            f_div(p11, whole(11)),
        ),
        f_div(p13, whole(13)),
    );
    f_mul(whole(4), s)
}

fn half_atan_arg(t: Fixed) -> (r: Fixed)
    requires
        t.wf(),
    ensures
        r.wf(),
        r == f_div(t, f_add(whole(1), f_sqrt(f_add(whole(1), f_mul(t, t))))),
{
    let one = whole_exec(1);
    let sq = t.mul(t);
    proof {
        assert(sq.val() >= 0);
    }
    let root = one.add(sq).sqrt();
    let den = one.add(root);
    proof {
        assert(root.val() >= 0);
        assert(den.val() > 0);
    }
    t.div(den)
}

pub fn atan_unit(t: Fixed) -> (r: Fixed)
    requires
        t.wf(),
    ensures
        r.wf(),
        r == atan_unit_spec(t),
{
    let h1 = half_atan_arg(t);
    let h2 = half_atan_arg(h1);
    let z2 = h2.mul(h2);
    let p3 = h2.mul(z2);
    let p5 = p3.mul(z2);
    let p7 = p5.mul(z2);
    let p9 = p7.mul(z2);
    let p11 = p9.mul(z2);
    let p13 = p11.mul(z2);
    let s = h2.sub(p3.div(whole_exec(3))).add(p5.div(whole_exec(5))).sub(
        p7.div(whole_exec(7)),
    ).add(p9.div(whole_exec(9))).sub(p11.div(whole_exec(11))).add(p13.div(whole_exec(13)));
    whole_exec(4).mul(s)
}

/// The two-argument arctangent, in radians in (-pi, pi], with the usual
/// quadrant corrections; zero when both arguments are zero.
pub open spec fn atan2_spec(y: Fixed, x: Fixed) -> Fixed {
    if y.val() == 0 && x.val() == 0 {
        fixed_of(0)
    } else if x.val() == 0 {
        if y.val() > 0 {
            half_pi_fixed()
        } else {
            f_neg(half_pi_fixed())
        }
    } else if crate::fixed::abs_of(y.val()) <= crate::fixed::abs_of(x.val()) {
        let base = atan_unit_spec(f_div(y, x));
        if x.val() > 0 {
            base
        } else if y.val() >= 0 {
            f_add(base, pi_fixed())
        } else {
            f_sub(base, pi_fixed())
        }
    } else {
        let t = atan_unit_spec(f_div(x, y));
        if y.val() > 0 {
            f_sub(half_pi_fixed(), t)
        } else {
            f_sub(f_neg(half_pi_fixed()), t)
        }
    }
}

pub fn atan2(y: Fixed, x: Fixed) -> (r: Fixed)
    requires
        y.wf(),
        x.wf(),
    ensures
        r.wf(),
        r == atan2_spec(y, x),
{
    let half_pi = Fixed { neg: false, mag: HALF_PI_RAW };
    let pi = Fixed { neg: false, mag: PI_RAW };
    if y.is_zero() && x.is_zero() {
        Fixed::zero()
    } else if x.is_zero() {
        if !y.neg {
            half_pi
        } else {
            half_pi.neg()
        }
    } else if y.mag <= x.mag {
        let base = atan_unit(y.div(x));
        if !x.neg {
            base
        } else if !y.neg {
            base.add(pi)
        } else {
            base.sub(pi)
        }
    } else {
        let t = atan_unit(x.div(y));
        if !y.neg {
            half_pi.sub(t)
        } else {
            half_pi.neg().sub(t)
        }
    }
}

} // verus!
