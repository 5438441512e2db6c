//! `Complex<S>`: a pair of scalars `re + im·i`, with arithmetic that defers to the
//! scalar type's own operators.
use std::ops::{Add, AddAssign, Div, DivAssign, Mul, MulAssign, Neg, Sub, SubAssign};
use vstd::std_specs::ops::{AddSpec, DivSpec, MulSpec, NegSpec, SubSpec};
use vstd::prelude::*;

verus! {

/// A complex number `re + im·i`. Any pair of scalars is a valid value.
#[derive(Clone, Copy, Eq, PartialEq, Debug, Hash, Structural)]
pub struct Complex<S> {
    pub re: S,
    pub im: S,
}

impl<S: Default> Default for Complex<S> {
    /// `S::default() + S::default()·i`.
    fn default() -> (r: Self)
        ensures
            call_ensures(S::default, (), r.re),
            call_ensures(S::default, (), r.im),
    {
        Complex { re: S::default(), im: S::default() }
    }
}

impl<S> Complex<S> where S: Copy + Neg<Output = S> {
    /// Builds `re + im·i`.
    #[inline]
    pub fn new(re: S, im: S) -> (r: Complex<S>)
        ensures
            r == (Complex { re, im }),
    {
        Complex { re, im }
    }

    /// Builds `tuple.0 + tuple.1·i`.
    #[inline]
    pub fn from_tuple(tuple: (S, S)) -> (r: Complex<S>)
        ensures
            r == (Complex { re: tuple.0, im: tuple.1 }),
    {
        Complex { re: tuple.0, im: tuple.1 }
    }

    /// The conjugate `re - im·i`, negating the imaginary part with the scalar's own `neg`.
    #[inline]
    pub fn conj(&self) -> (r: Complex<S>)
        requires
            self.im.neg_req(),
        ensures
            r.re == self.re,
            S::obeys_neg_spec() ==> r == self.conj_spec(),
    {
        Complex { re: self.re, im: self.im.neg() }
    }
}

impl<S: Neg<Output = S>> Complex<S> {
    /// The conjugate as the scalar's negation specifies it.
    pub open spec fn conj_spec(self) -> Complex<S> {
        Complex { re: self.re, im: self.im.neg_spec() }
    }
}

impl<S: Add<Output = S>> vstd::std_specs::ops::AddSpecImpl for Complex<S> {
    open spec fn obeys_add_spec() -> bool {
        S::obeys_add_spec()
    }

    open spec fn add_req(self, rhs: Self) -> bool {
        self.re.add_req(rhs.re) && self.im.add_req(rhs.im)
    }

    open spec fn add_spec(self, rhs: Self) -> Self {
        self.sum(rhs)
    }
}

impl<S: Add<Output = S>> Complex<S> {
    /// The component-wise sum as the scalar's addition specifies it.
    pub open spec fn sum(self, rhs: Self) -> Self {
        Complex { re: self.re.add_spec(rhs.re), im: self.im.add_spec(rhs.im) }
    }
}

impl<S: Add<Output = S>> Add for Complex<S> {
    type Output = Self;

    /// Component-wise sum.
    fn add(self, rhs: Self) -> (r: Self)
        ensures
            S::obeys_add_spec() ==> r == self.sum(rhs),
    {
        Complex { re: self.re + rhs.re, im: self.im + rhs.im }
    }
}

impl<S: Add<Output = S> + Copy> AddAssign for Complex<S> {
    /// Replaces `self` with `self + rhs`.
    fn add_assign(&mut self, rhs: Self)
        requires
            old(self).add_req(rhs),
        ensures
            S::obeys_add_spec() ==> *final(self) == old(self).sum(rhs),
    {
        *self = Complex { re: self.re + rhs.re, im: self.im + rhs.im };
    }
}

impl<S: Sub<Output = S>> vstd::std_specs::ops::SubSpecImpl for Complex<S> {
    open spec fn obeys_sub_spec() -> bool {
        S::obeys_sub_spec()
    }

    open spec fn sub_req(self, rhs: Self) -> bool {
        self.re.sub_req(rhs.re) && self.im.sub_req(rhs.im)
    }

    open spec fn sub_spec(self, rhs: Self) -> Self {
        self.difference(rhs)
    }
}

impl<S: Sub<Output = S>> Complex<S> {
    /// The component-wise difference as the scalar's subtraction specifies it.
    pub open spec fn difference(self, rhs: Self) -> Self {
        Complex { re: self.re.sub_spec(rhs.re), im: self.im.sub_spec(rhs.im) }
    }
}

impl<S: Sub<Output = S>> Sub for Complex<S> {
    type Output = Self;

    /// Component-wise difference.
    fn sub(self, rhs: Self) -> (r: Self)
        ensures
            S::obeys_sub_spec() ==> r == self.difference(rhs),
    {
        Complex { re: self.re - rhs.re, im: self.im - rhs.im }
    }
}

impl<S: Sub<Output = S> + Copy> SubAssign for Complex<S> {
    /// Replaces `self` with `self - rhs`.
    fn sub_assign(&mut self, rhs: Self)
        requires
            old(self).sub_req(rhs),
        ensures
            S::obeys_sub_spec() ==> *final(self) == old(self).difference(rhs),
    {
        *self = Complex { re: self.re - rhs.re, im: self.im - rhs.im };
    }
}

impl<S: Mul<Output = S> + Add<Output = S> + Sub<Output = S>> Complex<S> {
    /// Whether the scalar's `+`, `-` and `*` all follow their specifications.
    pub open spec fn obeys_ring_spec() -> bool {
        S::obeys_add_spec() && S::obeys_sub_spec() && S::obeys_mul_spec()
    }

    /// `(re1·re2 - im1·im2) + (re1·im2 + im1·re2)·i` as the scalar's operators specify it.
    pub open spec fn product(self, rhs: Self) -> Self {
        Complex {
            re: self.re.mul_spec(rhs.re).sub_spec(self.im.mul_spec(rhs.im)),
            im: self.re.mul_spec(rhs.im).add_spec(self.im.mul_spec(rhs.re)),
        }
    }

    /// Every scalar step of `self * rhs` is within the scalar's own preconditions.
    pub open spec fn product_req(self, rhs: Self) -> bool {
        &&& S::obeys_mul_spec()
        &&& self.re.mul_req(rhs.re)
        &&& self.im.mul_req(rhs.im)
        &&& self.re.mul_req(rhs.im)
        &&& self.im.mul_req(rhs.re)
        &&& self.re.mul_spec(rhs.re).sub_req(self.im.mul_spec(rhs.im))
        &&& self.re.mul_spec(rhs.im).add_req(self.im.mul_spec(rhs.re))
    }

    /// The squared modulus `re·re + im·im` as the scalar's operators specify it.
    pub open spec fn norm_sqr(self) -> S {
        self.re.mul_spec(self.re).add_spec(self.im.mul_spec(self.im))
    }

    /// The numerator of `self / rhs`, that is `self * conj(rhs)`, as the scalar's
    /// operators specify it.
    pub open spec fn quotient_numerator(self, rhs: Self) -> Self {
        Complex {
            re: self.re.mul_spec(rhs.re).add_spec(self.im.mul_spec(rhs.im)),
            im: self.im.mul_spec(rhs.re).sub_spec(self.re.mul_spec(rhs.im)),
        }
    }
}

impl<S: Div<Output = S> + Mul<Output = S> + Add<Output = S> + Sub<Output = S>> Complex<S> {
    /// `self * conj(rhs) / (rhs.re·rhs.re + rhs.im·rhs.im)` as the scalar's operators
    /// specify it.
    pub open spec fn quotient(self, rhs: Self) -> Self {
        Complex {
            re: self.quotient_numerator(rhs).re.div_spec(rhs.norm_sqr()),
            im: self.quotient_numerator(rhs).im.div_spec(rhs.norm_sqr()),
        }
    }

    /// Every scalar step of `self / rhs` is within the scalar's own preconditions; for an
    /// integer scalar this excludes a zero divisor.
    pub open spec fn quotient_req(self, rhs: Self) -> bool {
        &&& Self::obeys_ring_spec()
        &&& rhs.re.mul_req(rhs.re)
        &&& rhs.im.mul_req(rhs.im)
        &&& rhs.re.mul_spec(rhs.re).add_req(rhs.im.mul_spec(rhs.im))
        &&& self.re.mul_req(rhs.re)
        &&& self.im.mul_req(rhs.im)
        &&& self.im.mul_req(rhs.re)
        &&& self.re.mul_req(rhs.im)
        &&& self.re.mul_spec(rhs.re).add_req(self.im.mul_spec(rhs.im))
        &&& self.im.mul_spec(rhs.re).sub_req(self.re.mul_spec(rhs.im))
        &&& self.quotient_numerator(rhs).re.div_req(rhs.norm_sqr())
        &&& self.quotient_numerator(rhs).im.div_req(rhs.norm_sqr())
    }
}

impl<S: Mul<Output = S> + Add<Output = S> + Sub<Output = S> + Copy> vstd::std_specs::ops::MulSpecImpl for Complex<S> {
    open spec fn obeys_mul_spec() -> bool {
        Self::obeys_ring_spec()
    }

    open spec fn mul_req(self, rhs: Self) -> bool {
        self.product_req(rhs)
    }

    open spec fn mul_spec(self, rhs: Self) -> Self {
        self.product(rhs)
    }
}

impl<S: Mul<Output = S> + Add<Output = S> + Sub<Output = S> + Copy> Mul for Complex<S> {
    type Output = Self;

    /// The complex product `(re1·re2 - im1·im2) + (re1·im2 + im1·re2)·i`.
    fn mul(self, rhs: Self) -> (r: Self)
        ensures
            Self::obeys_ring_spec() ==> r == self.product(rhs),
    {
        Complex {
            re: self.re * rhs.re - self.im * rhs.im,
            im: self.re * rhs.im + self.im * rhs.re,
        }
    }
}

impl<S: Mul<Output = S> + Add<Output = S> + Sub<Output = S> + Copy> MulAssign for Complex<S> {
    /// Replaces `self` with `self * rhs`.
    fn mul_assign(&mut self, rhs: Self)
        requires
            old(self).product_req(rhs),
        ensures
            Self::obeys_ring_spec() ==> *final(self) == old(self).product(rhs),
    {
        *self = Complex {
            re: self.re * rhs.re - self.im * rhs.im,
            im: self.re * rhs.im + self.im * rhs.re,
        };
    }
}

impl<S: Div<Output = S> + Mul<Output = S> + Add<Output = S> + Sub<Output = S> + Copy> vstd::std_specs::ops::DivSpecImpl for Complex<S> {
    open spec fn obeys_div_spec() -> bool {
        Self::obeys_ring_spec() && S::obeys_div_spec()
    }

    open spec fn div_req(self, rhs: Self) -> bool {
        self.quotient_req(rhs)
    }

    open spec fn div_spec(self, rhs: Self) -> Self {
        self.quotient(rhs)
    }
}

impl<S: Div<Output = S> + Mul<Output = S> + Add<Output = S> + Sub<Output = S> + Copy> Div for Complex<S> {
    type Output = Self;

    /// The complex quotient `self * conj(rhs) / (rhs.re·rhs.re + rhs.im·rhs.im)`.
    ///
    /// A zero divisor is left to the scalar's own division: for an integer scalar it is
    /// outside the precondition, for a floating-point scalar it yields infinities or NaN.
    fn div(self, rhs: Self) -> (r: Self)
        ensures
            Self::obeys_ring_spec() && S::obeys_div_spec() ==> r == self.quotient(rhs),
    {
        let denom = rhs.re * rhs.re + rhs.im * rhs.im;
        Complex {
            re: (self.re * rhs.re + self.im * rhs.im) / denom,
            im: (self.im * rhs.re - self.re * rhs.im) / denom,
        }
    }
}

impl<S: Div<Output = S> + Mul<Output = S> + Add<Output = S> + Sub<Output = S> + Copy> DivAssign for Complex<S> {
    /// Replaces `self` with `self / rhs`.
    fn div_assign(&mut self, rhs: Self)
        requires
            old(self).quotient_req(rhs),
        ensures
            Self::obeys_ring_spec() && S::obeys_div_spec() ==> *final(self) == old(self).quotient(rhs),
    {
        let denom = rhs.re * rhs.re + rhs.im * rhs.im;
        *self = Complex {
            re: (self.re * rhs.re + self.im * rhs.im) / denom,
            im: (self.im * rhs.re - self.re * rhs.im) / denom,
        };
    }
}

} // verus!
