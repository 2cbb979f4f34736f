//! Temperatures as they travel on the wire: IEEE-754 single precision,
//! held by their bit pattern and reasoned about with integers only.

use vstd::arithmetic::div_mod::{lemma_fundamental_div_mod, lemma_fundamental_div_mod_converse};
use vstd::arithmetic::power2::{
    lemma2_to64, lemma_pow2_adds, lemma_pow2_pos, lemma_pow2_strictly_increases,
    lemma_pow2_unfold, pow2,
};
use vstd::bits::{lemma_u32_shl_is_mul, lemma_u64_shl_is_mul};
use vstd::prelude::*;

verus! {

/// First value past the largest stored fraction, two to the power of 23.
pub const FRACTION_LIMIT: u32 = 0x80_0000;

/// Bit pattern of the smallest negative number (negative zero).
pub const SIGN_LIMIT: u32 = 0x8000_0000;

/// Biased exponent that marks infinities and NaNs.
pub const EXPONENT_SPECIAL: u32 = 255;

/// Power of two of the unit in which closeness is decided, counted like
/// [`Temperature::shift`]: one quantum is two to the power of -26 degrees.
pub const QUANTUM_SHIFT: u32 = 123;

/// Largest whole number of quanta below the tolerance: two to the power of
/// 25, less one.
pub const TOLERANCE_QUANTA: i64 = 0x1ff_ffff;

/// One quantum in units of two to the power of -149 degrees.
pub open spec fn quantum() -> int {
    pow2(QUANTUM_SHIFT as nat) as int
}

/// The tolerance in units of two to the power of -149 degrees: one half of a
/// degree less one quantum.
pub open spec fn tolerance() -> int {
    TOLERANCE_QUANTA * quantum()
}

/// A temperature in degrees Celsius, kept as the bit pattern of an
/// IEEE-754 single-precision number.
///
/// Equality on this type compares bit patterns: two NaNs with the same
/// payload are equal, positive and negative zero are not.
#[derive(Clone, Copy, Debug, PartialEq, Eq, Structural)]
pub struct Temperature {
    pub bits: u32,
}

impl Temperature {
    /// The sign bit.
    pub open spec fn negative(self) -> bool {
        self.bits >= SIGN_LIMIT
    }

    /// The eight exponent bits, as stored.
    pub open spec fn biased_exponent(self) -> int {
        (self.bits as int / FRACTION_LIMIT as int) % 256
    }

    /// The 23 stored significand bits.
    pub open spec fn fraction(self) -> int {
        self.bits as int % FRACTION_LIMIT as int
    }

    /// Not a number: exponent all ones, fraction not zero.
    pub open spec fn is_nan(self) -> bool {
        self.biased_exponent() == EXPONENT_SPECIAL && self.fraction() != 0
    }

    /// Neither an infinity nor a NaN.
    pub open spec fn is_finite(self) -> bool {
        self.biased_exponent() != EXPONENT_SPECIAL
    }

    /// The significand with its implicit leading bit, which subnormal
    /// numbers lack.
    pub open spec fn significand(self) -> int {
        if self.biased_exponent() == 0 {
            self.fraction()
        } else {
            FRACTION_LIMIT + self.fraction()
        }
    }

    /// Power of two by which the significand is multiplied, counted from
    /// the weight of the least subnormal bit, two to the power of -149.
    pub open spec fn shift(self) -> nat {
        if self.biased_exponent() == 0 {
            0
        } else {
            (self.biased_exponent() - 1) as nat
        }
    }

    /// The absolute value of a finite temperature, in units of two to the
    /// power of -149 degrees. Every finite single is a whole number of them.
    pub open spec fn magnitude(self) -> int {
        self.significand() * pow2(self.shift())
    }

    /// The value of a finite temperature in units of two to the power of
    /// -149 degrees.
    pub open spec fn scaled(self) -> int {
        if self.negative() {
            -self.magnitude()
        } else {
            self.magnitude()
        }
    }

    /// Wraps a bit pattern.
    pub fn from_bits(bits: u32) -> (t: Temperature)
        ensures
            t.bits == bits,
    {
        Temperature { bits }
    }

    /// The bit pattern.
    pub fn to_bits(&self) -> (bits: u32)
        ensures
            bits == self.bits,
    {
        self.bits
    }

    /// Whether the pattern encodes a NaN.
    pub fn nan(&self) -> (b: bool)
        ensures
            b == self.is_nan(),
    {
        (self.bits / FRACTION_LIMIT) % 256 == EXPONENT_SPECIAL && self.bits % FRACTION_LIMIT != 0
    }

    /// Whether the single-precision difference of the two temperatures has
    /// an absolute value below one half of a degree.
    ///
    /// The difference of two singles is rounded to the nearest single, ties
    /// to the even significand. One half less one quantum lies midway
    /// between one half and the single just below it and rounds up to one
    /// half, so the rounded difference is below one half exactly when the
    /// exact difference is below one half less one quantum. With an infinity
    /// or a NaN on either side the difference is never below anything.
    pub open spec fn within_tolerance(self, target: Temperature) -> bool {
        &&& self.is_finite()
        &&& target.is_finite()
        &&& -tolerance() < self.scaled() - target.scaled() < tolerance()
    }

    /// Whether the temperature is zero or at least a quarter of a degree in
    /// absolute value, and finite. Such a temperature is a whole number of
    /// double quanta.
    pub open spec fn is_coarse(self) -> bool {
        self.is_finite() && (self.biased_exponent() >= 125 || self.significand() == 0)
    }

    /// The value in whole quanta, rounded towards minus infinity.
    pub open spec fn quanta(self) -> int {
        self.scaled() / quantum()
    }

    /// Whether the value is not a whole number of quanta.
    pub open spec fn fractional(self) -> bool {
        self.scaled() % quantum() != 0
    }

    /// Computes [`Self::quanta`] and [`Self::fractional`] for a temperature
    /// below two to the power of 23 in absolute value.
    fn quantize(&self) -> (r: (i64, bool))
        requires
            self.biased_exponent() < 150,
        ensures
            r.0 == self.quanta(),
            r.1 == self.fractional(),
            -0x2_0000_0000_0000 <= r.0 <= 0x2_0000_0000_0000,
            r.1 ==> -0x80_0000 <= r.0 < 0x80_0000,
    {
        let e: u32 = (self.bits / FRACTION_LIMIT) % 256;
        let f: u32 = self.bits % FRACTION_LIMIT;
        let negative = self.bits >= SIGN_LIMIT;
        let m: u32 = if e == 0 { f } else { FRACTION_LIMIT + f };
        let s: u32 = if e == 0 { 0 } else { e - 1 };
        assert(m as int == self.significand());
        assert(s as nat == self.shift());
        if s >= QUANTUM_SHIFT {
            let k: u32 = s - QUANTUM_SHIFT;
            proof {
                lemma_pow2_small(k as nat);
                lemma_u64_shl_is_mul(1u64, k as u64);
            }
            let p: u64 = 1u64 << (k as u64);
            assert(m as int * p as int <= 0x100_0000 * 0x200_0000) by (nonlinear_arith)
                requires
                    0 <= m < 0x100_0000,
                    0 <= p <= 0x200_0000,
            ;
            let whole: u64 = (m as u64) * p;
            proof {
                lemma_whole_quanta(m as int, k as nat, negative);
                assert(k as nat + QUANTUM_SHIFT as nat == s as nat);
            }
            if negative {
                (-(whole as i64), false)
            } else {
                (whole as i64, false)
            }
        } else {
            let t: u32 = QUANTUM_SHIFT - s;
            let mut floor: u32 = 0;
            let mut rest: u32 = m;
            if t < 24 {
                proof {
                    lemma_pow2_small(t as nat);
                    lemma_u32_shl_is_mul(1u32, t);
                }
                let p: u32 = 1u32 << t;
                floor = m / p;
                rest = m % p;
            } else {
                proof {
                    lemma_pow2_large(t as nat);
                    vstd::arithmetic::div_mod::lemma_basic_div(m as int, pow2(t as nat) as int);
                    vstd::arithmetic::div_mod::lemma_small_mod(m as nat, pow2(t as nat));
                }
            }
            proof {
                let p = pow2(t as nat) as int;
                assert(floor as int == m as int / p);
                assert(rest as int == m as int % p);
                lemma_part_quanta(m as int, s as nat, t as nat, negative);
                if t < 24 {
                    lemma_fundamental_div_mod(m as int, p);
                    assert(floor < 0x80_0000) by (nonlinear_arith)
                        requires
                            m == p * floor + rest,
                            p >= 2,
                            m < 0x100_0000,
                    ;
                }
            }
            if negative {
                if rest == 0 {
                    (-(floor as i64), false)
                } else {
                    (-(floor as i64) - 1, true)
                }
            } else {
                (floor as i64, rest != 0)
            }
        }
    }

    /// Decides [`Self::within_tolerance`].
    pub fn is_within_tolerance(&self, target: &Temperature) -> (b: bool)
        ensures
            b == self.within_tolerance(*target),
    {
        let ea: u32 = (self.bits / FRACTION_LIMIT) % 256;
        let eb: u32 = (target.bits / FRACTION_LIMIT) % 256;
        if ea == EXPONENT_SPECIAL || eb == EXPONENT_SPECIAL {
            return false;
        }
        if ea >= 150 || eb >= 150 {
            proof {
                lemma_large_close_only_if_same(*self, *target);
            }
            return self.bits == target.bits;
        }
        let (qa, xa) = self.quantize();
        let (qb, xb) = target.quantize();
        proof {
            lemma_pow2_pos(QUANTUM_SHIFT as nat);
            lemma_below(self.scaled(), target.scaled(), quantum(), TOLERANCE_QUANTA as int);
            lemma_below(target.scaled(), self.scaled(), quantum(), TOLERANCE_QUANTA as int);
            lemma_fundamental_div_mod(self.scaled(), quantum());
            lemma_fundamental_div_mod(target.scaled(), quantum());
        }
        let over: i64 = qa - qb - TOLERANCE_QUANTA;
        let under: i64 = qb - qa - TOLERANCE_QUANTA;
        (over < 0 || (over == 0 && xb && !xa)) && (under < 0 || (under == 0 && xa && !xb))
    }
}

/// The order of the two temperatures does not matter, and every finite
/// temperature is within tolerance of itself.
pub proof fn lemma_tolerance_is_symmetric(a: Temperature, b: Temperature)
    ensures
        a.within_tolerance(b) == b.within_tolerance(a),
        a.is_finite() ==> a.within_tolerance(a),
{
    lemma_tolerance_bound();
}

/// Between temperatures that are zero or at least a quarter of a degree in
/// absolute value, rounding plays no part: they are within tolerance
/// exactly when they differ by less than half a degree, which is two to the
/// power of 148 units.
pub proof fn lemma_tolerance_is_half_a_degree(a: Temperature, b: Temperature)
    requires
        a.is_coarse(),
        b.is_coarse(),
    ensures
        a.within_tolerance(b) <==> -pow2(148) < a.scaled() - b.scaled() < pow2(148),
{
    let ka = lemma_double_quanta(a);
    let kb = lemma_double_quanta(b);
    lemma2_to64();
    lemma_pow2_pos(QUANTUM_SHIFT as nat);
    lemma_pow2_adds(25, QUANTUM_SHIFT as nat);
    let u = quantum();
    let d = ka - kb;
    assert(a.scaled() - b.scaled() == 2 * d * u) by (nonlinear_arith)
        requires
            a.scaled() == 2 * ka * u,
            b.scaled() == 2 * kb * u,
            d == ka - kb,
    ;
    assert((2 * d * u < 0x1ff_ffff * u) <==> (2 * d * u < 0x200_0000 * u)) by (nonlinear_arith)
        requires
            u > 0,
    ;
    assert((-(0x1ff_ffff * u) < 2 * d * u) <==> (-(0x200_0000 * u) < 2 * d * u))
        by (nonlinear_arith)
        requires
            u > 0,
    ;
}

/// A coarse temperature is a whole number of double quanta.
proof fn lemma_double_quanta(x: Temperature) -> (k: int)
    requires
        x.is_coarse(),
    ensures
        x.scaled() == 2 * k * quantum(),
{
    let u = quantum();
    let m = x.significand();
    if m == 0 {
        assert(x.scaled() == 2 * 0 * u) by (nonlinear_arith)
            requires
                x.scaled() == 0 * pow2(x.shift()) || x.scaled() == -(0 * pow2(x.shift())),
        ;
        0
    } else {
        let k = (x.shift() - 124) as nat;
        lemma_pow2_adds(k, 124);
        lemma_pow2_unfold(124);
        let pk = pow2(k) as int;
        let w = pow2(x.shift()) as int;
        let c = if x.negative() {
            -(m * pk)
        } else {
            m * pk
        };
        assert(m * w == 2 * (m * pk) * u && -(m * w) == 2 * (-(m * pk)) * u) by (nonlinear_arith)
            requires
                w == pk * (2 * u),
        ;
        c
    }
}

/// Powers of two up to the 25th.
proof fn lemma_pow2_small(k: nat)
    requires
        k <= 25,
    ensures
        1 <= pow2(k) <= 0x200_0000,
        k < 24 ==> pow2(k) <= 0x80_0000,
        k >= 1 ==> pow2(k) >= 2,
{
    lemma2_to64();
    lemma_pow2_pos(k);
    if k < 25 {
        lemma_pow2_strictly_increases(k, 25);
    }
    if k < 23 {
        lemma_pow2_strictly_increases(k, 23);
    }
    if k > 1 {
        lemma_pow2_strictly_increases(1, k);
    }
}

/// Powers of two from the 24th on exceed every significand.
proof fn lemma_pow2_large(k: nat)
    requires
        k >= 24,
    ensures
        pow2(k) >= 0x100_0000,
{
    lemma2_to64();
    if k > 24 {
        lemma_pow2_strictly_increases(24, k);
    }
}

/// A significand shifted to or past the quantum is a whole number of quanta.
proof fn lemma_whole_quanta(m: int, k: nat, negative: bool)
    requires
        0 <= m,
    ensures
        ({
            let a = m * pow2(k + QUANTUM_SHIFT as nat);
            let q = m * pow2(k);
            if negative {
                (-a) / quantum() == -q && (-a) % quantum() == 0
            } else {
                a / quantum() == q && a % quantum() == 0
            }
        }),
{
    let u = quantum();
    let a = m * pow2(k + QUANTUM_SHIFT as nat);
    let q = m * pow2(k);
    lemma_pow2_pos(QUANTUM_SHIFT as nat);
    lemma_pow2_adds(k, QUANTUM_SHIFT as nat);
    let pk = pow2(k) as int;
    assert(a == q * u) by (nonlinear_arith)
        requires
            a == m * (pk * u),
            q == m * pk,
    ;
    if negative {
        assert(-a == (-q) * u + 0) by (nonlinear_arith)
            requires
                a == q * u,
        ;
        lemma_fundamental_div_mod_converse(-a, u, -q, 0);
    } else {
        lemma_fundamental_div_mod_converse(a, u, q, 0);
    }
}

/// A significand shifted short of the quantum: its whole quanta and whether
/// anything is left over.
proof fn lemma_part_quanta(m: int, s: nat, t: nat, negative: bool)
    requires
        0 <= m,
        t >= 1,
        s + t == QUANTUM_SHIFT,
    ensures
        ({
            let p = pow2(t) as int;
            let a = m * pow2(s);
            if negative {
                &&& (-a) / quantum() == (if m % p == 0 { -(m / p) } else { -(m / p) - 1 })
                &&& ((-a) % quantum() != 0) == (m % p != 0)
            } else {
                &&& a / quantum() == m / p
                &&& (a % quantum() != 0) == (m % p != 0)
            }
        }),
{
    let u = quantum();
    let p = pow2(t) as int;
    let w = pow2(s) as int;
    let a = m * w;
    let f = m / p;
    let r = m % p;
    lemma_pow2_pos(s);
    lemma_pow2_pos(t);
    lemma_pow2_adds(t, s);
    assert(u == p * w);
    lemma_fundamental_div_mod(m, p);
    assert(a == f * u + r * w && 0 <= r * w < u && (r * w == 0) == (r == 0)) by (nonlinear_arith)
        requires
            a == m * w,
            m == p * f + r,
            0 <= r < p,
            u == p * w,
            w > 0,
    ;
    if negative {
        if r == 0 {
            assert(-a == (-f) * u + 0) by (nonlinear_arith)
                requires
                    a == f * u + r * w,
                    r * w == 0,
            ;
            lemma_fundamental_div_mod_converse(-a, u, -f, 0);
        } else {
            assert(-a == (-f - 1) * u + (u - r * w)) by (nonlinear_arith)
                requires
                    a == f * u + r * w,
            ;
            lemma_fundamental_div_mod_converse(-a, u, -f - 1, u - r * w);
        }
    } else {
        lemma_fundamental_div_mod_converse(a, u, f, r * w);
    }
}

/// Comparing a difference with a whole number of units by quotients and
/// remainders.
proof fn lemma_below(a: int, b: int, u: int, n: int)
    requires
        u > 0,
    ensures
        (a - b < n * u) <==> ({
            let d = a / u - b / u - n;
            d < 0 || (d == 0 && b % u > a % u)
        }),
{
    lemma_fundamental_div_mod(a, u);
    lemma_fundamental_div_mod(b, u);
    let qa = a / u;
    let qb = b / u;
    let ra = a % u;
    let rb = b % u;
    let d = qa - qb - n;
    assert(a - b - n * u == u * d + (ra - rb)) by (nonlinear_arith)
        requires
            a == u * qa + ra,
            b == u * qb + rb,
            d == qa - qb - n,
    ;
    if d < 0 {
        assert(u * d <= -u) by (nonlinear_arith)
            requires
                u > 0,
                d <= -1,
        ;
    } else if d > 0 {
        assert(u * d >= u) by (nonlinear_arith)
            requires
                u > 0,
                d >= 1,
        ;
    } else {
        assert(u * d == 0) by (nonlinear_arith)
            requires
                d == 0,
        ;
    }
}

/// The tolerance is positive and below two to the power of 148 units.
proof fn lemma_tolerance_bound()
    ensures
        0 < tolerance() < pow2(148),
        pow2(149) == 2 * pow2(148),
{
    lemma2_to64();
    lemma_pow2_pos(QUANTUM_SHIFT as nat);
    lemma_pow2_adds(25, QUANTUM_SHIFT as nat);
    lemma_pow2_unfold(149);
    let u = quantum();
    assert(TOLERANCE_QUANTA * u < 0x200_0000 * u && 0 < TOLERANCE_QUANTA * u) by (nonlinear_arith)
        requires
            u > 0,
            TOLERANCE_QUANTA == 0x1ff_ffff,
    ;
}

/// The magnitude of a finite temperature with an exponent of 150 or more,
/// in units of two to the power of 149.
spec fn coarse(x: Temperature) -> int {
    x.significand() * pow2((x.shift() - 149) as nat)
}

/// Such a magnitude is a whole number of those units, at least two to the
/// power of 23 of them.
proof fn lemma_large_magnitude(x: Temperature)
    requires
        x.is_finite(),
        x.biased_exponent() >= 150,
    ensures
        x.magnitude() == coarse(x) * pow2(149),
        coarse(x) >= 0x80_0000,
{
    let m = x.significand();
    let k = (x.shift() - 149) as nat;
    lemma_pow2_adds(k, 149);
    lemma_pow2_pos(k);
    let pk = pow2(k) as int;
    let v = pow2(149) as int;
    assert(m * (pk * v) == (m * pk) * v && m * pk >= 0x80_0000) by (nonlinear_arith)
        requires
            m >= 0x80_0000,
            pk >= 1,
    ;
}

/// Below an exponent of 150 a magnitude stays half a unit short of two to
/// the power of 23 units of two to the power of 149.
proof fn lemma_small_magnitude(x: Temperature)
    requires
        x.biased_exponent() < 150,
    ensures
        0 <= x.magnitude() <= 0x80_0000 * pow2(149) - pow2(148),
{
    let m = x.significand();
    let s = x.shift();
    lemma_pow2_pos(s);
    lemma_pow2_unfold(149);
    if s < 148 {
        lemma_pow2_strictly_increases(s, 148);
    }
    let w = pow2(s) as int;
    let h = pow2(148) as int;
    assert(0 <= m * w <= 0x100_0000 * h - h) by (nonlinear_arith)
        requires
            0 <= m <= 0xff_ffff,
            0 < w <= h,
    ;
}

/// A normal number's significand and exponent are determined by its
/// magnitude.
proof fn lemma_coarse_injective(ma: int, ka: nat, mb: int, kb: nat)
    requires
        0x80_0000 <= ma < 0x100_0000,
        0x80_0000 <= mb < 0x100_0000,
        ma * pow2(ka) == mb * pow2(kb),
    ensures
        ka == kb,
        ma == mb,
{
    let pa = pow2(ka) as int;
    let pb = pow2(kb) as int;
    lemma_pow2_pos(ka);
    lemma_pow2_pos(kb);
    if ka < kb {
        lemma_pow2_adds((kb - ka) as nat, ka);
        lemma_pow2_pos((kb - ka) as nat);
        lemma_pow2_strictly_increases(0, (kb - ka) as nat);
        lemma2_to64();
        let g = pow2((kb - ka) as nat) as int;
        assert(mb * (g * pa) > ma * pa) by (nonlinear_arith)
            requires
                g >= 2,
                pa > 0,
                0x80_0000 <= ma < 0x100_0000,
                0x80_0000 <= mb,
        ;
        assert(false);
    } else if kb < ka {
        lemma_pow2_adds((ka - kb) as nat, kb);
        lemma_pow2_pos((ka - kb) as nat);
        lemma_pow2_strictly_increases(0, (ka - kb) as nat);
        lemma2_to64();
        let g = pow2((ka - kb) as nat) as int;
        assert(ma * (g * pb) > mb * pb) by (nonlinear_arith)
            requires
                g >= 2,
                pb > 0,
                0x80_0000 <= mb < 0x100_0000,
                0x80_0000 <= ma,
        ;
        assert(false);
    } else {
        assert(ma == mb) by (nonlinear_arith)
            requires
                ma * pa == mb * pa,
                pa > 0,
        ;
    }
}

/// With an exponent of 150 or more on either side, two finite temperatures
/// are within tolerance only if they are the same pattern.
proof fn lemma_large_close_only_if_same(a: Temperature, b: Temperature)
    requires
        a.is_finite(),
        b.is_finite(),
        a.biased_exponent() >= 150 || b.biased_exponent() >= 150,
    ensures
        a.within_tolerance(b) <==> a.bits == b.bits,
{
    lemma_tolerance_bound();
    let v = pow2(149) as int;
    let h = pow2(148) as int;
    if a.biased_exponent() >= 150 && b.biased_exponent() >= 150 {
        lemma_large_magnitude(a);
        lemma_large_magnitude(b);
        let ca = if a.negative() { -coarse(a) } else { coarse(a) };
        let cb = if b.negative() { -coarse(b) } else { coarse(b) };
        assert((-coarse(a)) * v == -(coarse(a) * v)) by (nonlinear_arith);
        assert((-coarse(b)) * v == -(coarse(b) * v)) by (nonlinear_arith);
        assert(a.scaled() - b.scaled() == (ca - cb) * v) by (nonlinear_arith)
            requires
                a.scaled() == ca * v,
                b.scaled() == cb * v,
        ;
        if a.within_tolerance(b) {
            assert(ca == cb) by (nonlinear_arith)
                requires
                    -v < (ca - cb) * v < v,
                    v > 0,
            ;
            lemma_coarse_injective(
                a.significand(),
                (a.shift() - 149) as nat,
                b.significand(),
                (b.shift() - 149) as nat,
            );
            assert(a.bits == b.bits);
        }
    } else if a.biased_exponent() >= 150 {
        lemma_large_magnitude(a);
        lemma_small_magnitude(b);
        assert(coarse(a) * v >= 0x80_0000 * v) by (nonlinear_arith)
            requires
                coarse(a) >= 0x80_0000,
                v > 0,
        ;
    } else {
        lemma_large_magnitude(b);
        lemma_small_magnitude(a);
        assert(coarse(b) * v >= 0x80_0000 * v) by (nonlinear_arith)
            requires
                coarse(b) >= 0x80_0000,
                v > 0,
        ;
    }
}

} // verus!
