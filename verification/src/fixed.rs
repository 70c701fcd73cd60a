use vstd::prelude::*;

verus! {

/// Scale of the fixed-point scalar domain: a scalar's raw representation
/// counts billionths, so every scalar has an exact, finite decimal form.
pub const SCALE: u128 = 1_000_000_000;

/// Largest raw magnitude a scalar may take (one billion billions of
/// billionths, that is a value magnitude of ten billion).
pub const MAX_RAW: u128 = 10_000_000_000_000_000_000;

/// An exact fixed-point scalar: `mag` billionths, negated when `neg` is set.
/// Arithmetic on scalars saturates at the magnitude bound instead of wrapping.
#[derive(Clone, Copy, Debug, PartialEq, Eq, Structural)]
pub struct Fixed {
    pub neg: bool,
    pub mag: u128,
}

/// Magnitude of a mathematical integer.
pub open spec fn abs_of(a: int) -> int {
    if a >= 0 {
        a
    } else {
        -a
    }
}

/// Saturation of a non-negative raw magnitude at the representable bound.
pub open spec fn clamp_mag(m: int) -> int {
    if m > MAX_RAW as int {
        MAX_RAW as int
    } else {
        m
    }
}

/// Raw value of a sum, saturated.
pub open spec fn fx_add(a: int, b: int) -> int {
    if a + b >= 0 {
        clamp_mag(a + b)
    } else {
        -clamp_mag(-(a + b))
    }
}

/// Raw value of a difference, saturated.
pub open spec fn fx_sub(a: int, b: int) -> int {
    fx_add(a, -b)
}

/// Raw value of a product: magnitudes multiply, the scale divides back out
/// (truncating), the sign is the product of the signs.
pub open spec fn fx_mul(a: int, b: int) -> int {
    let m = clamp_mag(abs_of(a) * abs_of(b) / SCALE as int);
    if (a < 0) != (b < 0) {
        -m
    } else {
        m
    }
}

/// Raw value of a quotient (the divisor must not be zero).
pub open spec fn fx_div(a: int, b: int) -> int {
    let m = clamp_mag(abs_of(a) * SCALE as int / abs_of(b));
    if (a < 0) != (b < 0) {
        -m
    } else {
        m
    }
}

/// The integer square root: the unique `r` with `r * r <= m < (r + 1) * (r + 1)`.
pub open spec fn sqrt_floor(m: nat) -> nat {
    choose|r: nat| (#[trigger] (r * r)) <= m < (r + 1) * (r + 1)
}

/// Raw value of a square root of a non-negative raw value.
pub open spec fn fx_sqrt(a: int) -> int {
    sqrt_floor((a * SCALE as int) as nat) as int
}

/// The canonical scalar of a raw value.
pub open spec fn fixed_of(v: int) -> Fixed {
    Fixed { neg: v < 0, mag: abs_of(v) as u128 }
}

/// Scalar-level forms of the raw operations.
pub open spec fn f_add(a: Fixed, b: Fixed) -> Fixed {
    fixed_of(fx_add(a.val(), b.val()))
}

pub open spec fn f_sub(a: Fixed, b: Fixed) -> Fixed {
    fixed_of(fx_sub(a.val(), b.val()))
}

pub open spec fn f_mul(a: Fixed, b: Fixed) -> Fixed {
    fixed_of(fx_mul(a.val(), b.val()))
}

pub open spec fn f_div(a: Fixed, b: Fixed) -> Fixed {
    fixed_of(fx_div(a.val(), b.val()))
}

pub open spec fn f_sqrt(a: Fixed) -> Fixed {
    fixed_of(fx_sqrt(a.val()))
}

pub open spec fn f_neg(a: Fixed) -> Fixed {
    fixed_of(-a.val())
}

proof fn lemma_sqrt_floor_unique(m: nat, r1: nat, r2: nat)
    requires
        r1 * r1 <= m < (r1 + 1) * (r1 + 1),
        r2 * r2 <= m < (r2 + 1) * (r2 + 1),
    ensures
        r1 == r2,
{
    assert(r1 == r2) by (nonlinear_arith)
        requires
            r1 * r1 <= m < (r1 + 1) * (r1 + 1),
            r2 * r2 <= m < (r2 + 1) * (r2 + 1),
    ;
}

/// Every raw magnitude has an integer square root.
pub proof fn lemma_sqrt_floor_exists(m: nat)
    ensures
        sqrt_floor(m) * sqrt_floor(m) <= m < (sqrt_floor(m) + 1) * (sqrt_floor(m) + 1),
    decreases m,
{
    if m == 0 {
        assert(0 * 0 <= 0 < (0 + 1) * (0 + 1)) by (nonlinear_arith);
    } else {
        lemma_sqrt_floor_exists((m - 1) as nat);
        let r = sqrt_floor((m - 1) as nat);
        if (r + 1) * (r + 1) <= m {
            assert((r + 1) * (r + 1) <= m < ((r + 1) + 1) * ((r + 1) + 1)) by (nonlinear_arith)
                requires
                    (r + 1) * (r + 1) <= m,
                    m - 1 < (r + 1) * (r + 1),
            ;
        } else {
            assert(r * r <= m < (r + 1) * (r + 1));
        }
    }
}

/// The saturating operations always land in the representable range.
pub proof fn lemma_f_add_wf(a: Fixed, b: Fixed)
    ensures
        f_add(a, b).wf(),
        f_add(a, b).val() == fx_add(a.val(), b.val()),
        a.val() >= 0 && b.val() >= 0 ==> f_add(a, b).val() >= 0,
{
}

pub proof fn lemma_f_sub_wf(a: Fixed, b: Fixed)
    ensures
        f_sub(a, b).wf(),
        f_sub(a, b).val() == fx_sub(a.val(), b.val()),
{
}

pub proof fn lemma_f_mul_wf(a: Fixed, b: Fixed)
    ensures
        f_mul(a, b).wf(),
        f_mul(a, b).val() == fx_mul(a.val(), b.val()),
{
    assert(abs_of(a.val()) * abs_of(b.val()) >= 0) by (nonlinear_arith)
        requires
            abs_of(a.val()) >= 0,
            abs_of(b.val()) >= 0,
    ;
    assert(abs_of(a.val()) * abs_of(b.val()) / SCALE as int >= 0);
}

/// The square of a scalar is non-negative.
pub proof fn lemma_f_square_nonneg(a: Fixed)
    ensures
        f_mul(a, a).wf(),
        f_mul(a, a).val() >= 0,
{
    lemma_f_mul_wf(a, a);
}

pub proof fn lemma_f_div_wf(a: Fixed, b: Fixed)
    requires
        b.val() != 0,
    ensures
        f_div(a, b).wf(),
        a.val() >= 0 && b.val() > 0 ==> f_div(a, b).val() >= 0,
{
    assert(abs_of(a.val()) * SCALE as int >= 0) by (nonlinear_arith)
        requires
            abs_of(a.val()) >= 0,
    ;
    vstd::arithmetic::div_mod::lemma_div_pos_is_pos(
        abs_of(a.val()) * SCALE as int,
        abs_of(b.val()),
    );
}

/// The square root of a well-formed non-negative scalar is well-formed and
/// non-negative.
pub proof fn lemma_f_sqrt_wf(a: Fixed)
    requires
        a.wf(),
        a.val() >= 0,
    ensures
        f_sqrt(a).wf(),
        f_sqrt(a).val() >= 0,
{
    let m = (a.val() * SCALE as int) as nat;
    assert(a.val() * SCALE as int <= MAX_RAW as int * SCALE as int) by (nonlinear_arith)
        requires
            0 <= a.val() <= MAX_RAW as int,
    ;
    lemma_sqrt_floor_exists(m);
    let r = sqrt_floor(m);
    assert(r <= MAX_RAW) by (nonlinear_arith)
        requires
            r * r <= m,
            m <= MAX_RAW as int * SCALE as int,
    ;
}

impl Fixed {
    /// The mathematical value of this scalar, in raw (scaled) units.
    pub open spec fn val(self) -> int {
        if self.neg {
            -(self.mag as int)
        } else {
            self.mag as int
        }
    }

    /// Well-formed: magnitude within range, and no negative zero.
    pub open spec fn wf(self) -> bool {
        self.mag <= MAX_RAW && (self.neg ==> self.mag > 0)
    }

    pub fn zero() -> (r: Fixed)
        ensures
            r.wf(),
            r.val() == 0,
    {
        Fixed { neg: false, mag: 0 }
    }

    /// The scalar of a given raw magnitude and sign, in canonical form.
    pub fn make(neg: bool, mag: u128) -> (r: Fixed)
        requires
            mag <= MAX_RAW,
        ensures
            r.wf(),
            r.val() == if neg { -(mag as int) } else { mag as int },
    {
        Fixed { neg: neg && mag > 0, mag }
    }

    pub fn is_nonneg(self) -> (r: bool)
        requires
            self.wf(),
        ensures
            r == (self.val() >= 0),
    {
        !self.neg
    }

    pub fn is_zero(self) -> (r: bool)
        requires
            self.wf(),
        ensures
            r == (self.val() == 0),
    {
        self.mag == 0
    }

    /// The scalar of the opposite value.
    pub fn neg(self) -> (r: Fixed)
        requires
            self.wf(),
        ensures
            r.wf(),
            r == f_neg(self),
            r.val() == -self.val(),
    {
        Fixed { neg: !self.neg && self.mag > 0, mag: self.mag }
    }

    /// Saturating addition.
    pub fn add(self, other: Fixed) -> (r: Fixed)
        requires
            self.wf(),
            other.wf(),
        ensures
            r.wf(),
            r.val() == fx_add(self.val(), other.val()),
            r == f_add(self, other),
    {
        if self.neg == other.neg {
            let m = self.mag + other.mag;
            let m2 = if m > MAX_RAW {
                MAX_RAW
            } else {
                m
            };
            Fixed { neg: self.neg && m2 > 0, mag: m2 }
        } else {
            if self.mag >= other.mag {
                let m = self.mag - other.mag;
                Fixed { neg: self.neg && m > 0, mag: m }
            } else {
                let m = other.mag - self.mag;
                Fixed { neg: other.neg && m > 0, mag: m }
            }
        }
    }

    /// Saturating subtraction.
    pub fn sub(self, other: Fixed) -> (r: Fixed)
        requires
            self.wf(),
            other.wf(),
        ensures
            r.wf(),
            r.val() == fx_sub(self.val(), other.val()),
            r == f_sub(self, other),
    {
        let flipped = Fixed { neg: !other.neg && other.mag > 0, mag: other.mag };
        self.add(flipped)
    }

    /// Saturating multiplication, truncating at the scale.
    pub fn mul(self, other: Fixed) -> (r: Fixed)
        requires
            self.wf(),
            other.wf(),
        ensures
            r.wf(),
            r.val() == fx_mul(self.val(), other.val()),
            r == f_mul(self, other),
    {
        proof {
            assert(self.mag * other.mag <= MAX_RAW * MAX_RAW) by (nonlinear_arith)
                requires
                    self.mag <= MAX_RAW,
                    other.mag <= MAX_RAW,
            ;
        }
        let p = self.mag * other.mag;
        let m = p / SCALE;
        let m2 = if m > MAX_RAW {
            MAX_RAW
        } else {
            m
        };
        Fixed { neg: (self.neg != other.neg) && m2 > 0, mag: m2 }
    }

    /// Saturating division; the divisor must be non-zero.
    pub fn div(self, other: Fixed) -> (r: Fixed)
        requires
            self.wf(),
            other.wf(),
            other.val() != 0,
        ensures
            r.wf(),
            r.val() == fx_div(self.val(), other.val()),
            r == f_div(self, other),
    {
        proof {
            assert(self.mag * SCALE <= MAX_RAW * SCALE) by (nonlinear_arith)
                requires
                    self.mag <= MAX_RAW,
            ;
        }
        let p = self.mag * SCALE;
        let m = p / other.mag;
        let m2 = if m > MAX_RAW {
            MAX_RAW
        } else {
            m
        };
        Fixed { neg: (self.neg != other.neg) && m2 > 0, mag: m2 }
    }

    /// Square root of a non-negative scalar (floor at the scale's precision).
    pub fn sqrt(self) -> (r: Fixed)
        requires
            self.wf(),
            self.val() >= 0,
        ensures
            r.wf(),
            r.val() == fx_sqrt(self.val()),
            r == f_sqrt(self),
    {
        proof {
            assert(self.mag * SCALE <= MAX_RAW * SCALE) by (nonlinear_arith)
                requires
                    self.mag <= MAX_RAW,
            ;
        }
        let p = self.mag * SCALE;
        let s = isqrt(p);
        proof {
            assert(s <= MAX_RAW) by (nonlinear_arith)
                requires
                    s * s <= MAX_RAW * SCALE,
            ;
            lemma_sqrt_floor_unique(p as nat, s as nat, sqrt_floor(p as nat));
        }
        Fixed { neg: false, mag: s }
    }

    /// Comparison by value.
    pub fn lt(self, other: Fixed) -> (r: bool)
        requires
            self.wf(),
            other.wf(),
        ensures
            r == (self.val() < other.val()),
    {
        if self.neg != other.neg {
            self.neg
        } else if self.neg {
            other.mag < self.mag
        } else {
            self.mag < other.mag
        }
    }

    pub fn le(self, other: Fixed) -> (r: bool)
        requires
            self.wf(),
            other.wf(),
        ensures
            r == (self.val() <= other.val()),
    {
        !other.lt(self)
    }
}

/// Integer square root by bisection.
fn isqrt(m: u128) -> (r: u128)
    ensures
        r * r <= m < (r + 1) * (r + 1),
{
    if m == 0 {
        return 0;
    }
    let mut lo: u128 = 0;
    let mut hi: u128 = 18_446_744_073_709_551_616;
    proof {
        assert(m < hi * hi) by (nonlinear_arith)
            requires
                hi == 18_446_744_073_709_551_616u128,
                m <= u128::MAX,
        ;
    }
    while lo + 1 < hi
        invariant
            lo < hi <= 18_446_744_073_709_551_616u128,
            lo * lo <= m,
            m < hi * hi,
        decreases hi - lo,
    {
        let mid = lo + (hi - lo) / 2;
        proof {
            assert(mid * mid <= u128::MAX) by (nonlinear_arith)
                requires
                    mid < 18_446_744_073_709_551_616u128,
            ;
        }
        if mid * mid <= m {
            lo = mid;
        } else {
            hi = mid;
        }
    }
    lo
}

} // verus!
