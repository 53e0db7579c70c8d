//! Exact rational arithmetic for simulation times, hazard rates and
//! probabilities.
//!
//! The executable type [`Ratio`] stores a signed numerator and a positive
//! denominator, both `i64`. Its mathematical value is the ghost pair [`Rat`]
//! obtained through the view operator. Arithmetic is exact: every checked
//! operation either returns the exact (unreduced) result or reports that the
//! result does not fit the fixed-width representation. Comparisons are always
//! exact, because cross products of two `i64` values fit in `i128`.

use vstd::prelude::*;

verus! {

/// Mathematical value of a ratio: an integer numerator over a positive
/// integer denominator. Two values `a` and `b` denote the same rational
/// number exactly when `rat_eq(a, b)`.
pub ghost struct Rat {
    pub n: int,
    pub d: int,
}

/// A denominator must be positive.
pub open spec fn rat_wf(a: Rat) -> bool {
    a.d > 0
}

/// Value equality of rationals, by cross multiplication.
pub open spec fn rat_eq(a: Rat, b: Rat) -> bool {
    a.n * b.d == b.n * a.d
}

/// `a <= b` as rational numbers (denominators positive).
pub open spec fn rat_le(a: Rat, b: Rat) -> bool {
    a.n * b.d <= b.n * a.d
}

/// `a < b` as rational numbers (denominators positive).
pub open spec fn rat_lt(a: Rat, b: Rat) -> bool {
    a.n * b.d < b.n * a.d
}

/// Exact sum, on the product of the denominators.
pub open spec fn rat_add(a: Rat, b: Rat) -> Rat {
    Rat { n: a.n * b.d + b.n * a.d, d: a.d * b.d }
}

/// Exact difference, on the product of the denominators.
pub open spec fn rat_sub(a: Rat, b: Rat) -> Rat {
    Rat { n: a.n * b.d - b.n * a.d, d: a.d * b.d }
}

/// Exact product.
pub open spec fn rat_mul(a: Rat, b: Rat) -> Rat {
    Rat { n: a.n * b.n, d: a.d * b.d }
}

/// Exact quotient `a / b`, with the sign moved into the numerator so that
/// the denominator stays positive. Meaningful only for `b.n != 0`.
pub open spec fn rat_div(a: Rat, b: Rat) -> Rat {
    if b.n >= 0 {
        Rat { n: a.n * b.d, d: a.d * b.n }
    } else {
        Rat { n: -(a.n * b.d), d: -(a.d * b.n) }
    }
}

/// The smaller of two rationals; returns `a` on ties.
pub open spec fn rat_min(a: Rat, b: Rat) -> Rat {
    if rat_le(a, b) {
        a
    } else {
        b
    }
}

/// The rational with value `n`.
pub open spec fn rat_from_int(n: int) -> Rat {
    Rat { n: n, d: 1 }
}

/// Zero.
pub open spec fn rat_zero() -> Rat {
    Rat { n: 0, d: 1 }
}

/// One.
pub open spec fn rat_one() -> Rat {
    Rat { n: 1, d: 1 }
}

/// Whether the exact pair fits the executable representation: the numerator
/// in `i64`, the denominator positive and in `i64`.
pub open spec fn rat_in_range(a: Rat) -> bool {
    &&& i64::MIN <= a.n <= i64::MAX
    &&& 1 <= a.d <= i64::MAX
}

/// Executable rational number. The denominator is positive in every value
/// produced by this module ([`Ratio::wf`]); the fields are public so that
/// specifications can speak about them directly.
///
/// Derived equality is structural (`1/2 != 2/4`); use [`Ratio::eq_ratio`]
/// for value equality.
#[derive(Clone, Copy, Debug, PartialEq, Eq, Structural)]
pub struct Ratio {
    pub num: i64,
    pub den: i64,
}

impl View for Ratio {
    type V = Rat;

    open spec fn view(&self) -> Rat {
        Rat { n: self.num as int, d: self.den as int }
    }
}

/// The product of an `i64` value and a positive `i64` value stays well
/// inside `i128`; even the sum of two such products fits.
proof fn lemma_i64_product_fits(x: int, y: int)
    by (nonlinear_arith)
    requires
        i64::MIN <= x <= i64::MAX,
        1 <= y <= i64::MAX,
    ensures
        -0x3fff_ffff_ffff_ffff_8000_0000_0000_0000 <= x * y
            <= 0x3fff_ffff_ffff_ffff_8000_0000_0000_0000,
{
}

/// The product of any two `i64` values fits in `i128`.
proof fn lemma_i64_product_bounds(x: int, y: int)
    by (nonlinear_arith)
    requires
        i64::MIN <= x <= i64::MAX,
        i64::MIN <= y <= i64::MAX,
    ensures
        -0x4000_0000_0000_0000_0000_0000_0000_0000 <= x * y
            <= 0x4000_0000_0000_0000_0000_0000_0000_0000,
{
}

/// The product of an `i64` value and a nonzero `i64` value stays well
/// inside `i128`, leaving room for negation.
proof fn lemma_i64_product_fits_signed(x: int, y: int)
    by (nonlinear_arith)
    requires
        i64::MIN <= x <= i64::MAX,
        i64::MIN <= y <= i64::MAX,
        x >= 1 || y >= 1,
    ensures
        -0x4000_0000_0000_0000_0000_0000_0000_0000 < x * y
            < 0x4000_0000_0000_0000_0000_0000_0000_0000,
{
}

/// The unique executable representative of an in-range mathematical pair.
pub open spec fn ratio_of(r: Rat) -> Ratio {
    Ratio { num: r.n as i64, den: r.d as i64 }
}

/// Subtracting the smaller from the larger leaves a nonnegative value.
pub proof fn lemma_rat_sub_nonneg(a: Rat, b: Rat)
    by (nonlinear_arith)
    requires
        rat_wf(a),
        rat_wf(b),
        rat_le(b, a),
    ensures
        rat_le(rat_zero(), rat_sub(a, b)),
{
}

/// Sums, differences and products of well-formed rationals are well-formed:
/// the result's denominator is again positive.
pub proof fn lemma_rat_ops_wf(a: Rat, b: Rat)
    by (nonlinear_arith)
    requires
        rat_wf(a),
        rat_wf(b),
    ensures
        rat_wf(rat_add(a, b)),
        rat_wf(rat_sub(a, b)),
        rat_wf(rat_mul(a, b)),
{
}

/// The quotient of well-formed rationals by a nonzero divisor is well-formed.
pub proof fn lemma_rat_div_wf(a: Rat, b: Rat)
    by (nonlinear_arith)
    requires
        rat_wf(a),
        rat_wf(b),
        b.n != 0,
    ensures
        rat_wf(rat_div(a, b)),
{
}

/// The product of nonnegative rationals is nonnegative.
pub proof fn lemma_rat_mul_nonneg(a: Rat, b: Rat)
    by (nonlinear_arith)
    requires
        rat_wf(a),
        rat_wf(b),
        rat_le(rat_zero(), a),
        rat_le(rat_zero(), b),
    ensures
        rat_le(rat_zero(), rat_mul(a, b)),
{
}

/// Value equality of rationals is transitive.
pub proof fn lemma_rat_eq_trans(a: Rat, b: Rat, c: Rat)
    by (nonlinear_arith)
    requires
        rat_wf(a),
        rat_wf(b),
        rat_wf(c),
        rat_eq(a, b),
        rat_eq(b, c),
    ensures
        rat_eq(a, c),
{
}

/// Order respects value equality.
pub proof fn lemma_rat_le_congr(a: Rat, b: Rat, a2: Rat, b2: Rat)
    by (nonlinear_arith)
    requires
        rat_wf(a),
        rat_wf(b),
        rat_wf(a2),
        rat_wf(b2),
        rat_eq(a, a2),
        rat_eq(b, b2),
    ensures
        rat_le(a, b) <==> rat_le(a2, b2),
{
}

/// Pure rearrangements of products: pairwise regrouping, commutativity,
/// and associativity.
proof fn lemma_mul_rearrange(x1: int, y1: int, x2: int, y2: int)
    by (nonlinear_arith)
    ensures
        (x1 * y1) * (x2 * y2) == (x1 * x2) * (y1 * y2),
        x1 * y1 == y1 * x1,
        (x1 * y1) * x2 == x1 * (y1 * x2),
{
}

/// Multiplication distributes over sum and difference of integers.
proof fn lemma_distribute2(x: int, y: int, z: int)
    by (nonlinear_arith)
    ensures
        (x + y) * z == x * z + y * z,
        (x - y) * z == x * z - y * z,
{
}

/// Sums, differences and products respect value equality.
pub proof fn lemma_rat_ops_congr(a: Rat, b: Rat, a2: Rat, b2: Rat)
    requires
        rat_wf(a),
        rat_wf(b),
        rat_wf(a2),
        rat_wf(b2),
        rat_eq(a, a2),
        rat_eq(b, b2),
    ensures
        rat_eq(rat_add(a, b), rat_add(a2, b2)),
        rat_eq(rat_sub(a, b), rat_sub(a2, b2)),
        rat_eq(rat_mul(a, b), rat_mul(a2, b2)),
{
    let an: int = a.n;
    let ad: int = a.d;
    let bn: int = b.n;
    let bd: int = b.d;
    let cn: int = a2.n;
    let cd: int = a2.d;
    let en: int = b2.n;
    let ed: int = b2.d;
    // Both sides of each goal, expanded term by term and regrouped so that
    // the hypotheses `an * cd == cn * ad` and `bn * ed == en * bd` apply.
    lemma_distribute2(an * bd, bn * ad, cd * ed);
    lemma_distribute2(cn * ed, en * cd, ad * bd);
    lemma_mul_rearrange(an, bd, cd, ed);
    lemma_mul_rearrange(bn, ad, ed, cd);
    lemma_mul_rearrange(cd, ed, 0, 0);
    lemma_mul_rearrange(cn, ed, ad, bd);
    lemma_mul_rearrange(en, cd, bd, ad);
    lemma_mul_rearrange(bd, ad, 0, 0);
    lemma_mul_rearrange(an, cd, bd, ed);
    lemma_mul_rearrange(cn, ad, ed, bd);
    lemma_mul_rearrange(ed, bd, 0, 0);
    lemma_mul_rearrange(bn, ed, ad, cd);
    lemma_mul_rearrange(en, bd, cd, ad);
    lemma_mul_rearrange(cd, ad, 0, 0);
    assert(rat_eq(rat_add(a, b), rat_add(a2, b2)));
    assert(rat_eq(rat_sub(a, b), rat_sub(a2, b2)));
    lemma_mul_rearrange(an, bn, cd, ed);
    lemma_mul_rearrange(cn, en, ad, bd);
    assert(rat_eq(rat_mul(a, b), rat_mul(a2, b2)));
}

/// Quotients respect value equality of the dividend (same divisor).
pub proof fn lemma_rat_div_congr(a: Rat, a2: Rat, b: Rat)
    by (nonlinear_arith)
    requires
        rat_wf(a),
        rat_wf(a2),
        rat_wf(b),
        rat_eq(a, a2),
        b.n != 0,
    ensures
        rat_eq(rat_div(a, b), rat_div(a2, b)),
{
}

/// Multiplying and then dividing by the same nonzero value cancels.
pub proof fn lemma_rat_div_mul_cancel(a: Rat, b: Rat)
    by (nonlinear_arith)
    requires
        rat_wf(a),
        rat_wf(b),
        b.n != 0,
    ensures
        rat_eq(rat_div(rat_mul(a, b), b), a),
{
}

/// Dividing by a nonzero value and multiplying it back cancels.
pub proof fn lemma_rat_mul_div_cancel(a: Rat, b: Rat)
    by (nonlinear_arith)
    requires
        rat_wf(a),
        rat_wf(b),
        b.n != 0,
    ensures
        rat_eq(rat_mul(b, rat_div(a, b)), a),
{
}

/// Adding and then subtracting the same value cancels.
pub proof fn lemma_rat_sub_add_cancel(a: Rat, b: Rat)
    by (nonlinear_arith)
    requires
        rat_wf(a),
        rat_wf(b),
    ensures
        rat_eq(rat_sub(rat_add(a, b), b), a),
{
}

/// Multiplication distributes over sum and difference, up to value
/// equality.
pub proof fn lemma_rat_mul_distrib(r: Rat, x: Rat, y: Rat)
    requires
        rat_wf(r),
        rat_wf(x),
        rat_wf(y),
    ensures
        rat_eq(rat_sub(rat_mul(r, x), rat_mul(r, y)), rat_mul(r, rat_sub(x, y))),
        rat_eq(rat_add(rat_mul(r, x), rat_mul(r, y)), rat_mul(r, rat_add(x, y))),
{
    let rn: int = r.n;
    let rd: int = r.d;
    let xn: int = x.n;
    let xd: int = x.d;
    let yn: int = y.n;
    let yd: int = y.d;
    let p_sub: int = xn * yd - yn * xd;
    let p_add: int = xn * yd + yn * xd;
    let q: int = xd * yd;
    // The numerator of the left side regroups to `(rn * rd) * p`.
    lemma_mul_rearrange(rn, xn, rd, yd);
    lemma_mul_rearrange(rn, yn, rd, xd);
    lemma_distribute2(xn * yd, yn * xd, rn * rd);
    lemma_mul_rearrange(rn * rd, xn * yd, 0, 0);
    lemma_mul_rearrange(rn * rd, yn * xd, 0, 0);
    lemma_mul_rearrange(p_sub, rn * rd, 0, 0);
    lemma_mul_rearrange(p_add, rn * rd, 0, 0);
    assert((rn * xn) * (rd * yd) - (rn * yn) * (rd * xd) == (rn * rd) * p_sub);
    assert((rn * xn) * (rd * yd) + (rn * yn) * (rd * xd) == (rn * rd) * p_add);
    // The denominators regroup likewise, and cross multiplication closes.
    lemma_mul_rearrange(rd, xd, rd, yd);
    lemma_mul_rearrange(rn * rd, p_sub, rd, q);
    lemma_mul_rearrange(rn, p_sub, rd * rd, q);
    lemma_mul_rearrange(rn * rd, p_add, rd, q);
    lemma_mul_rearrange(rn, p_add, rd * rd, q);
    lemma_mul_rearrange(rn, rd, rd, 0);
    assert(((rn * rd) * p_sub) * (rd * q) == (rn * p_sub) * ((rd * xd) * (rd * yd)));
    assert(((rn * rd) * p_add) * (rd * q) == (rn * p_add) * ((rd * xd) * (rd * yd)));
    assert(rat_eq(rat_sub(rat_mul(r, x), rat_mul(r, y)), rat_mul(r, rat_sub(x, y))));
    assert(rat_eq(rat_add(rat_mul(r, x), rat_mul(r, y)), rat_mul(r, rat_add(x, y))));
}

/// Multiplication is commutative up to structural equality of the pair.
pub proof fn lemma_rat_mul_comm(a: Rat, b: Rat)
    ensures
        rat_mul(a, b) == rat_mul(b, a),
{
    assert(a.n * b.n == b.n * a.n) by (nonlinear_arith);
    assert(a.d * b.d == b.d * a.d) by (nonlinear_arith);
}

/// Multiplying both sides of an integer inequality by a nonnegative value.
proof fn lemma_mul_ineq(x: int, y: int, c: int)
    by (nonlinear_arith)
    requires
        x <= y,
        c >= 0,
    ensures
        c * x <= c * y,
{
}

/// Multiplying both sides by a nonnegative rational preserves order.
pub proof fn lemma_rat_mul_le_mono(r: Rat, a: Rat, b: Rat)
    requires
        rat_wf(r),
        rat_wf(a),
        rat_wf(b),
        rat_le(rat_zero(), r),
        rat_le(a, b),
    ensures
        rat_le(rat_mul(r, a), rat_mul(r, b)),
{
    let c: int = r.n * r.d;
    assert(r.n * r.d >= 0) by (nonlinear_arith)
        requires
            r.n >= 0,
            r.d > 0,
    ;
    lemma_mul_ineq(a.n * b.d, b.n * a.d, c);
    lemma_mul_rearrange(r.n, a.n, r.d, b.d);
    lemma_mul_rearrange(r.n, b.n, r.d, a.d);
    lemma_mul_rearrange(c, a.n * b.d, 0, 0);
    lemma_mul_rearrange(c, b.n * a.d, 0, 0);
}

/// Adding or subtracting the same rational on both sides preserves order.
pub proof fn lemma_rat_add_le_mono(a: Rat, b: Rat, c: Rat)
    requires
        rat_wf(a),
        rat_wf(b),
        rat_wf(c),
        rat_le(a, b),
    ensures
        rat_le(rat_add(a, c), rat_add(b, c)),
        rat_le(rat_sub(a, c), rat_sub(b, c)),
{
    let q: int = c.d * c.d;
    assert(c.d * c.d >= 0) by (nonlinear_arith)
        requires
            c.d > 0,
    ;
    lemma_mul_ineq(a.n * b.d, b.n * a.d, q);
    lemma_distribute2(a.n * c.d, c.n * a.d, b.d * c.d);
    lemma_distribute2(b.n * c.d, c.n * b.d, a.d * c.d);
    lemma_mul_rearrange(a.n, c.d, b.d, c.d);
    lemma_mul_rearrange(c.n, a.d, b.d, c.d);
    lemma_mul_rearrange(b.n, c.d, a.d, c.d);
    lemma_mul_rearrange(c.n, b.d, a.d, c.d);
    lemma_mul_rearrange(q, a.n * b.d, 0, 0);
    lemma_mul_rearrange(q, b.n * a.d, 0, 0);
    lemma_mul_rearrange(c.d, c.d, 0, 0);
}

/// Shifting an inequality across a subtraction: `d - e < t` exactly when
/// `d < t + e`.
pub proof fn lemma_rat_lt_shift(d: Rat, e: Rat, t: Rat)
    requires
        rat_wf(d),
        rat_wf(e),
        rat_wf(t),
    ensures
        rat_lt(rat_sub(d, e), t) <==> rat_lt(d, rat_add(t, e)),
{
    lemma_distribute2(d.n * e.d, e.n * d.d, t.d);
    lemma_distribute2(t.n * e.d, e.n * t.d, d.d);
    assert((d.n * e.d) * t.d == d.n * (t.d * e.d)) by (nonlinear_arith);
    assert((e.n * d.d) * t.d == (e.n * t.d) * d.d) by (nonlinear_arith);
    assert((t.n * e.d) * d.d == t.n * (d.d * e.d)) by (nonlinear_arith);
}

/// A rational equal to zero annihilates any product.
pub proof fn lemma_rat_mul_zero(a: Rat, s: Rat)
    by (nonlinear_arith)
    requires
        rat_wf(a),
        rat_wf(s),
        rat_eq(a, rat_zero()),
    ensures
        rat_eq(rat_mul(a, s), rat_zero()),
{
}

/// `<=` is transitive on well-formed rationals.
pub proof fn lemma_rat_le_trans(a: Rat, b: Rat, c: Rat)
    by (nonlinear_arith)
    requires
        rat_wf(a),
        rat_wf(b),
        rat_wf(c),
        rat_le(a, b),
        rat_le(b, c),
    ensures
        rat_le(a, c),
{
}

impl Ratio {
    /// Every value handled by verified code has a positive denominator.
    pub open spec fn wf(&self) -> bool {
        self.den > 0
    }

    /// Builds the ratio `num / den` from its two components.
    pub fn new(num: i64, den: i64) -> (r: Ratio)
        requires
            den > 0,
        ensures
            r@ == (Rat { n: num as int, d: den as int }),
            r.wf(),
    {
        Ratio { num, den }
    }

    /// The ratio with integer value `n`.
    pub fn from_int(n: i64) -> (r: Ratio)
        ensures
            r@ == rat_from_int(n as int),
            r.wf(),
    {
        Ratio { num: n, den: 1 }
    }

    /// Exact value equality (cross multiplication; never overflows).
    pub fn eq_ratio(&self, other: &Ratio) -> (r: bool)
        requires
            self.wf(),
            other.wf(),
        ensures
            r == rat_eq(self@, other@),
    {
        proof {
            lemma_i64_product_fits(self.num as int, other.den as int);
            lemma_i64_product_fits(other.num as int, self.den as int);
        }
        (self.num as i128) * (other.den as i128) == (other.num as i128) * (self.den as i128)
    }

    /// Exact `<=` (cross multiplication; never overflows).
    pub fn le(&self, other: &Ratio) -> (r: bool)
        requires
            self.wf(),
            other.wf(),
        ensures
            r == rat_le(self@, other@),
    {
        proof {
            lemma_i64_product_fits(self.num as int, other.den as int);
            lemma_i64_product_fits(other.num as int, self.den as int);
        }
        (self.num as i128) * (other.den as i128) <= (other.num as i128) * (self.den as i128)
    }

    /// Exact `<` (cross multiplication; never overflows).
    pub fn lt(&self, other: &Ratio) -> (r: bool)
        requires
            self.wf(),
            other.wf(),
        ensures
            r == rat_lt(self@, other@),
    {
        proof {
            lemma_i64_product_fits(self.num as int, other.den as int);
            lemma_i64_product_fits(other.num as int, self.den as int);
        }
        (self.num as i128) * (other.den as i128) < (other.num as i128) * (self.den as i128)
    }

    /// Whether the value is `>= 0`.
    pub fn is_nonneg(&self) -> (r: bool)
        requires
            self.wf(),
        ensures
            r == rat_le(rat_zero(), self@),
    {
        self.num >= 0
    }

    /// Whether the value is `> 0`.
    pub fn is_pos(&self) -> (r: bool)
        requires
            self.wf(),
        ensures
            r == rat_lt(rat_zero(), self@),
    {
        self.num > 0
    }

    /// Exact sum, or `None` if the exact result does not fit.
    pub fn checked_add(&self, other: &Ratio) -> (r: Option<Ratio>)
        requires
            self.wf(),
            other.wf(),
        ensures
            r is Some <==> rat_in_range(rat_add(self@, other@)),
            r matches Some(c) ==> c@ == rat_add(self@, other@) && c.wf(),
    {
        proof {
            lemma_i64_product_fits(self.num as int, other.den as int);
            lemma_i64_product_fits(other.num as int, self.den as int);
            lemma_i64_product_fits(self.den as int, other.den as int);
        }
        let n: i128 = (self.num as i128) * (other.den as i128)
            + (other.num as i128) * (self.den as i128);
        let d: i128 = (self.den as i128) * (other.den as i128);
        if (i64::MIN as i128) <= n && n <= (i64::MAX as i128) && 1 <= d && d <= (i64::MAX as i128) {
            Some(Ratio { num: n as i64, den: d as i64 })
        } else {
            None
        }
    }

    /// Exact difference, or `None` if the exact result does not fit.
    pub fn checked_sub(&self, other: &Ratio) -> (r: Option<Ratio>)
        requires
            self.wf(),
            other.wf(),
        ensures
            r is Some <==> rat_in_range(rat_sub(self@, other@)),
            r matches Some(c) ==> c@ == rat_sub(self@, other@) && c.wf(),
    {
        proof {
            lemma_i64_product_fits(self.num as int, other.den as int);
            lemma_i64_product_fits(other.num as int, self.den as int);
            lemma_i64_product_fits(self.den as int, other.den as int);
        }
        let n: i128 = (self.num as i128) * (other.den as i128)
            - (other.num as i128) * (self.den as i128);
        let d: i128 = (self.den as i128) * (other.den as i128);
        if (i64::MIN as i128) <= n && n <= (i64::MAX as i128) && 1 <= d && d <= (i64::MAX as i128) {
            Some(Ratio { num: n as i64, den: d as i64 })
        } else {
            None
        }
    }

    /// Exact product, or `None` if the exact result does not fit.
    pub fn checked_mul(&self, other: &Ratio) -> (r: Option<Ratio>)
        requires
            self.wf(),
            other.wf(),
        ensures
            r is Some <==> rat_in_range(rat_mul(self@, other@)),
            r matches Some(c) ==> c@ == rat_mul(self@, other@) && c.wf(),
    {
        proof {
            lemma_i64_product_bounds(self.num as int, other.num as int);
            lemma_i64_product_fits(self.den as int, other.den as int);
        }
        let n: i128 = (self.num as i128) * (other.num as i128);
        let d: i128 = (self.den as i128) * (other.den as i128);
        if (i64::MIN as i128) <= n && n <= (i64::MAX as i128) && 1 <= d && d <= (i64::MAX as i128) {
            Some(Ratio { num: n as i64, den: d as i64 })
        } else {
            None
        }
    }

    /// Exact quotient `self / other`, or `None` if the exact result does not
    /// fit. The divisor must be nonzero.
    pub fn checked_div(&self, other: &Ratio) -> (r: Option<Ratio>)
        requires
            self.wf(),
            other.wf(),
            other@.n != 0,
        ensures
            r is Some <==> rat_in_range(rat_div(self@, other@)),
            r matches Some(c) ==> c@ == rat_div(self@, other@) && c.wf(),
    {
        proof {
            lemma_i64_product_fits(self.num as int, other.den as int);
            lemma_i64_product_fits_signed(self.den as int, other.num as int);
        }
        let mut n: i128 = (self.num as i128) * (other.den as i128);
        let mut d: i128 = (self.den as i128) * (other.num as i128);
        if other.num < 0 {
            n = -n;
            d = -d;
        }
        if (i64::MIN as i128) <= n && n <= (i64::MAX as i128) && 1 <= d && d <= (i64::MAX as i128) {
            Some(Ratio { num: n as i64, den: d as i64 })
        } else {
            None
        }
    }

    /// The smaller of two values (`self` on ties).
    pub fn min(&self, other: &Ratio) -> (r: Ratio)
        requires
            self.wf(),
            other.wf(),
        ensures
            r@ == rat_min(self@, other@),
            r.wf(),
    {
        if self.le(other) {
            *self
        } else {
            *other
        }
    }

    /// The integer part of a nonnegative value (floor).
    pub fn floor_nonneg(&self) -> (r: u64)
        requires
            self.wf(),
            self@.n >= 0,
        ensures
            r == self@.n / self@.d,
    {
        (self.num as u64) / (self.den as u64)
    }
}

} // verus!
