use vstd::prelude::*;

verus! {

/// A mathematical rational number `num / den`, used as the model of the
/// executable [`Frac`] type. Well-formed values have `den > 0`.
pub ghost struct Ratio {
    pub num: int,
    pub den: int,
}

/// Well-formedness: the denominator is positive.
pub open spec fn ratio_wf(r: Ratio) -> bool {
    r.den > 0
}

/// Equality of the rational values (cross multiplication).
pub open spec fn ratio_eq(a: Ratio, b: Ratio) -> bool {
    a.num * b.den == b.num * a.den
}

/// `a <= b` as rational values; meaningful when both are well-formed.
pub open spec fn ratio_le(a: Ratio, b: Ratio) -> bool {
    a.num * b.den <= b.num * a.den
}

/// `a < b` as rational values; meaningful when both are well-formed.
pub open spec fn ratio_lt(a: Ratio, b: Ratio) -> bool {
    a.num * b.den < b.num * a.den
}

/// The whole number `n` as a rational.
pub open spec fn ratio_of_int(n: int) -> Ratio {
    Ratio { num: n, den: 1 }
}

/// The smaller of two rationals, as the first operand when equal.
pub open spec fn ratio_min(a: Ratio, b: Ratio) -> Ratio {
    if ratio_le(a, b) {
        a
    } else {
        b
    }
}

/// The larger of two rationals, as the second operand when equal.
pub open spec fn ratio_max(a: Ratio, b: Ratio) -> Ratio {
    if ratio_le(a, b) {
        b
    } else {
        a
    }
}

/// Exact sum.
pub open spec fn ratio_add(a: Ratio, b: Ratio) -> Ratio {
    Ratio { num: a.num * b.den + b.num * a.den, den: a.den * b.den }
}

/// Exact difference.
pub open spec fn ratio_sub(a: Ratio, b: Ratio) -> Ratio {
    Ratio { num: a.num * b.den - b.num * a.den, den: a.den * b.den }
}

/// Exact product.
pub open spec fn ratio_mul(a: Ratio, b: Ratio) -> Ratio {
    Ratio { num: a.num * b.num, den: a.den * b.den }
}

/// Exact negation.
pub open spec fn ratio_neg(a: Ratio) -> Ratio {
    Ratio { num: -a.num, den: a.den }
}

/// Exact halving.
pub open spec fn ratio_half(a: Ratio) -> Ratio {
    Ratio { num: a.num, den: 2 * a.den }
}

/// Exact quotient `a / b`; meaningful when `b.num != 0`. The sign of the
/// divisor's numerator is folded away so the result stays well-formed.
pub open spec fn ratio_div(a: Ratio, b: Ratio) -> Ratio {
    if b.num >= 0 {
        Ratio { num: a.num * b.den, den: a.den * b.num }
    } else {
        Ratio { num: -(a.num * b.den), den: -(a.den * b.num) }
    }
}

/// Whether both components of an exactly computed result fit the
/// executable representation.
pub open spec fn ratio_fits(r: Ratio) -> bool {
    i64::MIN <= r.num <= i64::MAX && 1 <= r.den <= i64::MAX
}

/// Bound on the product of two `i64`-ranged factors: it stays well inside
/// the `i128` range.
pub proof fn lemma_i64_prod_bound(a: int, b: int)
    by (nonlinear_arith)
    requires
        i64::MIN <= a <= i64::MAX,
        i64::MIN <= b <= i64::MAX,
    ensures
        -0x40000000000000000000000000000000 <= a * b <= 0x40000000000000000000000000000000,
{
}

/// Tighter bound when one factor is a positive denominator: the product
/// of such pairs can even be summed without leaving the `i128` range.
pub proof fn lemma_i64_prod_den_bound(a: int, b: int)
    by (nonlinear_arith)
    requires
        i64::MIN <= a <= i64::MAX,
        1 <= b <= i64::MAX,
    ensures
        -0x3fffffffffffffff8000000000000000 <= a * b <= 0x3fffffffffffffff8000000000000000,
{
}

/// The product of two positive denominators is positive.
pub proof fn lemma_pos_prod(a: int, b: int)
    by (nonlinear_arith)
    requires
        a > 0,
        b > 0,
    ensures
        a * b > 0,
{
}

/// Equality of rational values is transitive; well-formedness is needed
/// to cancel the middle denominator.
pub proof fn lemma_ratio_eq_trans(a: Ratio, b: Ratio, c: Ratio)
    by (nonlinear_arith)
    requires
        ratio_wf(a),
        ratio_wf(b),
        ratio_wf(c),
        ratio_eq(a, b),
        ratio_eq(b, c),
    ensures
        ratio_eq(a, c),
{
}

/// Multiplying two equal rationals by the same factor keeps them equal.
pub proof fn lemma_ratio_eq_mul(a: Ratio, b: Ratio, c: Ratio)
    requires
        ratio_eq(a, b),
    ensures
        ratio_eq(ratio_mul(a, c), ratio_mul(b, c)),
{
    let x = a.num * b.den;
    let y = b.num * a.den;
    let t = c.num * c.den;
    assert((a.num * c.num) * (b.den * c.den) == x * t) by (nonlinear_arith)
        requires
            x == a.num * b.den,
            t == c.num * c.den,
    ;
    assert((b.num * c.num) * (a.den * c.den) == y * t) by (nonlinear_arith)
        requires
            y == b.num * a.den,
            t == c.num * c.den,
    ;
    assert(x * t == y * t) by (nonlinear_arith)
        requires
            x == y,
    ;
}

/// Multiplication of rationals is commutative on the nose.
pub proof fn lemma_ratio_mul_comm(a: Ratio, b: Ratio)
    by (nonlinear_arith)
    ensures
        ratio_mul(a, b) == ratio_mul(b, a),
{
}

/// Multiplication of rationals is associative on the nose.
pub proof fn lemma_ratio_mul_assoc(a: Ratio, b: Ratio, c: Ratio)
    by (nonlinear_arith)
    ensures
        ratio_mul(ratio_mul(a, b), c) == ratio_mul(a, ratio_mul(b, c)),
{
}

/// Multiplying by one changes nothing as a rational value.
pub proof fn lemma_ratio_mul_one(a: Ratio)
    by (nonlinear_arith)
    ensures
        ratio_eq(ratio_mul(a, ratio_of_int(1)), a),
        ratio_eq(a, ratio_mul(a, ratio_of_int(1))),
{
}

/// The exact operations keep denominators positive.
pub proof fn lemma_ratio_ops_wf(a: Ratio, b: Ratio)
    by (nonlinear_arith)
    requires
        ratio_wf(a),
        ratio_wf(b),
    ensures
        ratio_wf(ratio_add(a, b)),
        ratio_wf(ratio_sub(a, b)),
        ratio_wf(ratio_mul(a, b)),
        ratio_wf(ratio_neg(a)),
        ratio_wf(ratio_half(a)),
{
}

/// An executable rational number: a numerator and a positive denominator.
/// Arithmetic is exact; an operation whose exact result would leave the
/// `i64` range returns `None` instead of a rounded value.
#[derive(Clone, Copy, Debug)]
pub struct Frac {
    num: i64,
    den: i64,
}

impl View for Frac {
    type V = Ratio;

    closed spec fn view(&self) -> Ratio {
        Ratio { num: self.num as int, den: self.den as int }
    }
}

impl Frac {
    /// Builds `num / den`.
    pub fn new(num: i64, den: i64) -> (r: Frac)
        requires
            den > 0,
        ensures
            r@ == (Ratio { num: num as int, den: den as int }),
    {
        Frac { num, den }
    }

    /// Builds the whole number `n`.
    pub fn from_int(n: i64) -> (r: Frac)
        ensures
            r@ == ratio_of_int(n as int),
    {
        Frac { num: n, den: 1 }
    }

    /// The numerator as stored.
    pub fn num(&self) -> (r: i64)
        ensures
            r as int == self@.num,
    {
        self.num
    }

    /// The denominator as stored.
    pub fn den(&self) -> (r: i64)
        ensures
            r as int == self@.den,
    {
        self.den
    }

    /// Whether the value is zero.
    pub fn is_zero(&self) -> (r: bool)
        ensures
            r == (self@.num == 0),
    {
        self.num == 0
    }

    /// Exact sum; `None` exactly when the result leaves the `i64` range.
    pub fn add(&self, other: &Frac) -> (r: Option<Frac>)
        requires
            ratio_wf(self@),
            ratio_wf(other@),
        ensures
            r is Some <==> ratio_fits(ratio_add(self@, other@)),
            r matches Some(f) ==> f@ == ratio_add(self@, other@) && ratio_wf(f@),
    {
        proof {
            lemma_i64_prod_den_bound(self.num as int, other.den as int);
            lemma_i64_prod_den_bound(other.num as int, self.den as int);
            lemma_i64_prod_den_bound(self.den as int, other.den as int);
        }
        let n: i128 = (self.num as i128) * (other.den as i128) + (other.num as i128) * (self.den as i128);
        let d: i128 = (self.den as i128) * (other.den as i128);
        if (i64::MIN as i128) <= n && n <= (i64::MAX as i128) && 1 <= d && d <= (i64::MAX as i128) {
            Some(Frac { num: n as i64, den: d as i64 })
        } else {
            None
        }
    }

    /// Exact difference; `None` exactly when the result leaves the `i64` range.
    pub fn sub(&self, other: &Frac) -> (r: Option<Frac>)
        requires
            ratio_wf(self@),
            ratio_wf(other@),
        ensures
            r is Some <==> ratio_fits(ratio_sub(self@, other@)),
            r matches Some(f) ==> f@ == ratio_sub(self@, other@) && ratio_wf(f@),
    {
        proof {
            lemma_i64_prod_den_bound(self.num as int, other.den as int);
            lemma_i64_prod_den_bound(other.num as int, self.den as int);
            lemma_i64_prod_den_bound(self.den as int, other.den as int);
        }
        let n: i128 = (self.num as i128) * (other.den as i128) - (other.num as i128) * (self.den as i128);
        let d: i128 = (self.den as i128) * (other.den as i128);
        if (i64::MIN as i128) <= n && n <= (i64::MAX as i128) && 1 <= d && d <= (i64::MAX as i128) {
            Some(Frac { num: n as i64, den: d as i64 })
        } else {
            None
        }
    }

    /// Exact product; `None` exactly when the result leaves the `i64` range.
    pub fn mul(&self, other: &Frac) -> (r: Option<Frac>)
        requires
            ratio_wf(self@),
            ratio_wf(other@),
        ensures
            r is Some <==> ratio_fits(ratio_mul(self@, other@)),
            r matches Some(f) ==> f@ == ratio_mul(self@, other@) && ratio_wf(f@),
    {
        proof {
            lemma_i64_prod_bound(self.num as int, other.num as int);
            lemma_i64_prod_den_bound(self.den as int, other.den as int);
        }
        let n: i128 = (self.num as i128) * (other.num as i128);
        let d: i128 = (self.den as i128) * (other.den as i128);
        if (i64::MIN as i128) <= n && n <= (i64::MAX as i128) && 1 <= d && d <= (i64::MAX as i128) {
            Some(Frac { num: n as i64, den: d as i64 })
        } else {
            None
        }
    }

    /// Exact quotient; `None` exactly when the result leaves the `i64` range.
    pub fn div(&self, other: &Frac) -> (r: Option<Frac>)
        requires
            ratio_wf(self@),
            ratio_wf(other@),
            other@.num != 0,
        ensures
            r is Some <==> ratio_fits(ratio_div(self@, other@)),
            r matches Some(f) ==> f@ == ratio_div(self@, other@) && ratio_wf(f@),
    {
        proof {
            lemma_i64_prod_den_bound(self.num as int, other.den as int);
            lemma_i64_prod_bound(self.den as int, other.num as int);
        }
        let mut n: i128 = (self.num as i128) * (other.den as i128);
        let mut d: i128 = (self.den as i128) * (other.num as i128);
        if other.num < 0 {
            n = -n;
            d = -d;
        }
        if (i64::MIN as i128) <= n && n <= (i64::MAX as i128) && 1 <= d && d <= (i64::MAX as i128) {
            Some(Frac { num: n as i64, den: d as i64 })
        } else {
            None
        }
    }

    /// Exact negation; `None` exactly when the result leaves the `i64` range.
    pub fn neg(&self) -> (r: Option<Frac>)
        requires
            ratio_wf(self@),
        ensures
            r is Some <==> ratio_fits(ratio_neg(self@)),
            r matches Some(f) ==> f@ == ratio_neg(self@) && ratio_wf(f@),
    {
        if self.num == i64::MIN {
            None
        } else {
            Some(Frac { num: -self.num, den: self.den })
        }
    }

    /// Exact halving; `None` exactly when the result leaves the `i64` range.
    pub fn half(&self) -> (r: Option<Frac>)
        requires
            ratio_wf(self@),
        ensures
            r is Some <==> ratio_fits(ratio_half(self@)),
            r matches Some(f) ==> f@ == ratio_half(self@) && ratio_wf(f@),
    {
        if self.den <= i64::MAX / 2 {
            Some(Frac { num: self.num, den: 2 * self.den })
        } else {
            None
        }
    }

    /// Whether the two values are equal as rationals.
    pub fn equals(&self, other: &Frac) -> (r: bool)
        requires
            ratio_wf(self@),
            ratio_wf(other@),
        ensures
            r == ratio_eq(self@, other@),
    {
        proof {
            lemma_i64_prod_den_bound(self.num as int, other.den as int);
            lemma_i64_prod_den_bound(other.num as int, self.den as int);
        }
        (self.num as i128) * (other.den as i128) == (other.num as i128) * (self.den as i128)
    }

    /// Whether `self <= other` as rationals.
    pub fn le(&self, other: &Frac) -> (r: bool)
        requires
            ratio_wf(self@),
            ratio_wf(other@),
        ensures
            r == ratio_le(self@, other@),
    {
        proof {
            lemma_i64_prod_den_bound(self.num as int, other.den as int);
            lemma_i64_prod_den_bound(other.num as int, self.den as int);
        }
        (self.num as i128) * (other.den as i128) <= (other.num as i128) * (self.den as i128)
    }

    /// The smaller of the two values.
    pub fn min_with(&self, other: &Frac) -> (r: Frac)
        requires
            ratio_wf(self@),
            ratio_wf(other@),
        ensures
            r@ == ratio_min(self@, other@),
    {
        if self.le(other) {
            *self
        } else {
            *other
        }
    }

    /// The larger of the two values.
    pub fn max_with(&self, other: &Frac) -> (r: Frac)
        requires
            ratio_wf(self@),
            ratio_wf(other@),
        ensures
            r@ == ratio_max(self@, other@),
    {
        if self.le(other) {
            *other
        } else {
            *self
        }
    }

    /// Whether `self < other` as rationals.
    pub fn lt(&self, other: &Frac) -> (r: bool)
        requires
            ratio_wf(self@),
            ratio_wf(other@),
        ensures
            r == ratio_lt(self@, other@),
    {
        proof {
            lemma_i64_prod_den_bound(self.num as int, other.den as int);
            lemma_i64_prod_den_bound(other.num as int, self.den as int);
        }
        (self.num as i128) * (other.den as i128) < (other.num as i128) * (self.den as i128)
    }
}

} // verus!
