//! Exact rational scalars.
//!
//! The view transform works over exact rational numbers instead of machine
//! floats: `Rat` is the mathematical model (unbounded integer numerator and
//! positive denominator), and `Frac` is the executable carrier whose
//! components live in `i128` and whose operations report overflow instead
//! of losing precision.

use vstd::prelude::*;

verus! {

/// A rational number at the specification level.  The denominator is kept
/// strictly positive by every operation used in this crate.
pub ghost struct Rat {
    pub n: int,
    pub d: int,
}

/// Well-formedness of a specification rational: positive denominator.
pub open spec fn q_wf(a: Rat) -> bool {
    a.d > 0
}

/// Equality of rationals as values (cross multiplication).
pub open spec fn q_eq(a: Rat, b: Rat) -> bool {
    a.n * b.d == b.n * a.d
}

/// Sum of two rationals, on the common denominator `a.d * b.d`.
pub open spec fn q_add(a: Rat, b: Rat) -> Rat {
    Rat { n: a.n * b.d + b.n * a.d, d: a.d * b.d }
}

/// Difference of two rationals, on the common denominator `a.d * b.d`.
pub open spec fn q_sub(a: Rat, b: Rat) -> Rat {
    Rat { n: a.n * b.d - b.n * a.d, d: a.d * b.d }
}

/// Product of two rationals.
pub open spec fn q_mul(a: Rat, b: Rat) -> Rat {
    Rat { n: a.n * b.n, d: a.d * b.d }
}

/// Quotient of two rationals; meaningful when `b.n > 0`, which is the only
/// way this crate divides (viewport lengths and zoom scales are positive).
pub open spec fn q_div(a: Rat, b: Rat) -> Rat {
    Rat { n: a.n * b.d, d: a.d * b.n }
}

/// Negation of a rational.
pub open spec fn q_neg(a: Rat) -> Rat {
    Rat { n: -a.n, d: a.d }
}

/// The rational with value `i`.
pub open spec fn int_q(i: int) -> Rat {
    Rat { n: i, d: 1 }
}

/// Whether a mathematical integer is representable in `i128`.
pub open spec fn fits_i128(x: int) -> bool {
    i128::MIN <= x <= i128::MAX
}

/// Whether both components of a rational are representable in `i128`.
pub open spec fn q_fits(a: Rat) -> bool {
    fits_i128(a.n) && fits_i128(a.d)
}

/// Exact success condition of `Frac::mul`.
pub open spec fn mul_fits(a: Rat, b: Rat) -> bool {
    fits_i128(a.n * b.n) && fits_i128(a.d * b.d)
}

/// Exact success condition of `Frac::add`: every intermediate product and
/// the final numerator must be representable.
pub open spec fn add_fits(a: Rat, b: Rat) -> bool {
    &&& fits_i128(a.n * b.d)
    &&& fits_i128(b.n * a.d)
    &&& fits_i128(a.n * b.d + b.n * a.d)
    &&& fits_i128(a.d * b.d)
}

/// Exact success condition of `Frac::sub`.
pub open spec fn sub_fits(a: Rat, b: Rat) -> bool {
    &&& fits_i128(a.n * b.d)
    &&& fits_i128(b.n * a.d)
    &&& fits_i128(a.n * b.d - b.n * a.d)
    &&& fits_i128(a.d * b.d)
}

/// Exact success condition of `Frac::div`.
pub open spec fn div_fits(a: Rat, b: Rat) -> bool {
    fits_i128(a.n * b.d) && fits_i128(a.d * b.n)
}

/// An exact rational scalar: `i128` numerator and strictly positive `i128`
/// denominator.  Operations return `None` when a component of the exact
/// result would leave the `i128` range; they never round.
#[derive(Clone, Copy, Debug)]
pub struct Frac {
    n: i128,
    d: i128,
}

impl Frac {
    /// The rational value this scalar carries.
    pub closed spec fn q(self) -> Rat {
        Rat { n: self.n as int, d: self.d as int }
    }

    /// Well-formedness: strictly positive denominator.
    pub closed spec fn wf(self) -> bool {
        self.d > 0
    }

    /// A well-formed scalar carries a well-formed rational; this is the
    /// bridge callers need to instantiate the rational-level lemmas.
    pub proof fn lemma_wf_q(self)
        requires
            self.wf(),
        ensures
            q_wf(self.q()),
    {
    }

    /// Build a rational from an explicit numerator and positive denominator.
    pub fn new(n: i128, d: i128) -> (r: Frac)
        requires
            d > 0,
        ensures
            r.wf(),
            r.q() == (Rat { n: n as int, d: d as int }),
    {
        Frac { n, d }
    }

    /// The rational with integer value `n`.
    pub fn from_int(n: i64) -> (r: Frac)
        ensures
            r.wf(),
            r.q() == int_q(n as int),
    {
        Frac { n: n as i128, d: 1 }
    }

    /// The numerator, exactly as stored.
    pub fn num(&self) -> (r: i128)
        ensures
            r as int == self.q().n,
    {
        self.n
    }

    /// The denominator, exactly as stored.
    pub fn den(&self) -> (r: i128)
        ensures
            r as int == self.q().d,
    {
        self.d
    }

    /// Exact sum; `None` exactly when an intermediate leaves `i128`.
    pub fn add(&self, o: &Frac) -> (r: Option<Frac>)
        requires
            self.wf(),
            o.wf(),
        ensures
            r.is_some() <==> add_fits(self.q(), o.q()),
            r.is_some() ==> r.unwrap().wf() && r.unwrap().q() == q_add(self.q(), o.q()),
    {
        match (self.n.checked_mul(o.d), o.n.checked_mul(self.d), self.d.checked_mul(o.d)) {
            (Some(x), Some(y), Some(dd)) => match x.checked_add(y) {
                Some(n) => {
                    proof {
                        assert(self.d as int * o.d as int > 0) by (nonlinear_arith)
                            requires self.d as int > 0, o.d as int > 0;
                    }
                    Some(Frac { n, d: dd })
                },
                None => None,
            },
            _ => None,
        }
    }

    /// Exact difference; `None` exactly when an intermediate leaves `i128`.
    pub fn sub(&self, o: &Frac) -> (r: Option<Frac>)
        requires
            self.wf(),
            o.wf(),
        ensures
            r.is_some() <==> sub_fits(self.q(), o.q()),
            r.is_some() ==> r.unwrap().wf() && r.unwrap().q() == q_sub(self.q(), o.q()),
    {
        match (self.n.checked_mul(o.d), o.n.checked_mul(self.d), self.d.checked_mul(o.d)) {
            (Some(x), Some(y), Some(dd)) => match x.checked_sub(y) {
                Some(n) => {
                    proof {
                        assert(self.d as int * o.d as int > 0) by (nonlinear_arith)
                            requires self.d as int > 0, o.d as int > 0;
                    }
                    Some(Frac { n, d: dd })
                },
                None => None,
            },
            _ => None,
        }
    }

    /// Exact product; `None` exactly when a component leaves `i128`.
    pub fn mul(&self, o: &Frac) -> (r: Option<Frac>)
        requires
            self.wf(),
            o.wf(),
        ensures
            r.is_some() <==> mul_fits(self.q(), o.q()),
            r.is_some() ==> r.unwrap().wf() && r.unwrap().q() == q_mul(self.q(), o.q()),
    {
        match (self.n.checked_mul(o.n), self.d.checked_mul(o.d)) {
            (Some(n), Some(d)) => {
                proof {
                    assert(self.d as int * o.d as int > 0) by (nonlinear_arith)
                        requires self.d as int > 0, o.d as int > 0;
                }
                Some(Frac { n, d })
            },
            _ => None,
        }
    }

    /// Exact quotient by a positive rational; `None` exactly when a
    /// component leaves `i128`.
    pub fn div(&self, o: &Frac) -> (r: Option<Frac>)
        requires
            self.wf(),
            o.wf(),
            o.q().n > 0,
        ensures
            r.is_some() <==> div_fits(self.q(), o.q()),
            r.is_some() ==> r.unwrap().wf() && r.unwrap().q() == q_div(self.q(), o.q()),
    {
        match (self.n.checked_mul(o.d), self.d.checked_mul(o.n)) {
            (Some(n), Some(d)) => {
                proof {
                    assert(self.d as int * o.n as int > 0) by (nonlinear_arith)
                        requires self.d as int > 0, o.n as int > 0;
                }
                Some(Frac { n, d })
            },
            _ => None,
        }
    }

    /// Exact negation; `None` only for the one unrepresentable numerator.
    pub fn neg(&self) -> (r: Option<Frac>)
        requires
            self.wf(),
        ensures
            r.is_some() <==> fits_i128(-self.q().n),
            r.is_some() ==> r.unwrap().wf() && r.unwrap().q() == q_neg(self.q()),
    {
        match 0i128.checked_sub(self.n) {
            Some(n) => Some(Frac { n, d: self.d }),
            None => None,
        }
    }

    /// Whether the two scalars carry the same rational value.  `None` when a
    /// cross product leaves `i128`.
    pub fn try_eq(&self, o: &Frac) -> (r: Option<bool>)
        requires
            self.wf(),
            o.wf(),
        ensures
            r.is_some() <==> fits_i128(self.q().n * o.q().d) && fits_i128(o.q().n * self.q().d),
            r.is_some() ==> r.unwrap() == q_eq(self.q(), o.q()),
    {
        match (self.n.checked_mul(o.d), o.n.checked_mul(self.d)) {
            (Some(x), Some(y)) => Some(x == y),
            _ => None,
        }
    }

    /// Whether the value is strictly positive.
    pub fn is_positive(&self) -> (r: bool)
        requires
            self.wf(),
        ensures
            r == (self.q().n > 0),
    {
        self.n > 0
    }
}

} // verus!
