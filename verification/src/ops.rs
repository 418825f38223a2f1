//! Arithmetic between two pixels of one type, channel by channel.
//!
//! What a scalar's operator does on overflow is the scalar's affair: the
//! operators here ask of their operands what the scalar's operator asks of each
//! pair of channels.
use vstd::prelude::*;
use vstd::std_specs::ops::AddSpec;
use vstd::std_specs::ops::MulSpec;
use vstd::std_specs::ops::SubSpec;
use core::ops::Add;
use core::ops::AddAssign;
use core::ops::Mul;
use core::ops::MulAssign;
use core::ops::Sub;
use core::ops::SubAssign;
use crate::alt::Gray;
use crate::alt::GrayAlpha;
use crate::alt::ARGB;
use crate::alt::GRB;
use crate::RGB;
use crate::RGBA;

verus! {

impl<T: Add> vstd::std_specs::ops::AddSpecImpl for RGB<T> {
    open spec fn obeys_add_spec() -> bool {
        T::obeys_add_spec()
    }

    open spec fn add_req(self, other: RGB<T>) -> bool {
        self.r.add_req(other.r) && self.g.add_req(other.g) && self.b.add_req(other.b)
    }

    /// Channel by channel.
    open spec fn add_spec(self, other: RGB<T>) -> RGB<<T as Add>::Output> {
        RGB {
            r: self.r.add_spec(other.r),
            g: self.g.add_spec(other.g),
            b: self.b.add_spec(other.b),
        }
    }
}

/// `px + px`
impl<T: Add> Add for RGB<T> {
    type Output = RGB<<T as Add>::Output>;

    /// Asks that `self.add_req(other)` holds.
    fn add(self, other: RGB<T>) -> (sum: Self::Output)
        ensures
            T::obeys_add_spec() ==> sum.r == self.r.add_spec(other.r),
            T::obeys_add_spec() ==> sum.g == self.g.add_spec(other.g),
            T::obeys_add_spec() ==> sum.b == self.b.add_spec(other.b),
    {
        RGB { r: self.r + other.r, g: self.g + other.g, b: self.b + other.b }
    }
}

/// `px += px`
impl<T: Add<Output = T> + Copy> AddAssign for RGB<T> {
    fn add_assign(&mut self, other: RGB<T>)
        requires
            old(self).add_req(other),
        ensures
            T::obeys_add_spec() ==> *final(self) == old(self).add_spec(other),
    {
        *self = RGB { r: self.r + other.r, g: self.g + other.g, b: self.b + other.b };
    }
}

impl<T: Mul> vstd::std_specs::ops::MulSpecImpl for RGB<T> {
    open spec fn obeys_mul_spec() -> bool {
        T::obeys_mul_spec()
    }

    open spec fn mul_req(self, other: RGB<T>) -> bool {
        self.r.mul_req(other.r) && self.g.mul_req(other.g) && self.b.mul_req(other.b)
    }

    /// Channel by channel.
    open spec fn mul_spec(self, other: RGB<T>) -> RGB<<T as Mul>::Output> {
        RGB {
            r: self.r.mul_spec(other.r),
            g: self.g.mul_spec(other.g),
            b: self.b.mul_spec(other.b),
        }
    }
}

/// `px * px`
impl<T: Mul> Mul for RGB<T> {
    type Output = RGB<<T as Mul>::Output>;

    /// Asks that `self.mul_req(other)` holds.
    fn mul(self, other: RGB<T>) -> (product: Self::Output)
        ensures
            T::obeys_mul_spec() ==> product.r == self.r.mul_spec(other.r),
            T::obeys_mul_spec() ==> product.g == self.g.mul_spec(other.g),
            T::obeys_mul_spec() ==> product.b == self.b.mul_spec(other.b),
    {
        RGB { r: self.r * other.r, g: self.g * other.g, b: self.b * other.b }
    }
}

/// `px *= px`
impl<T: Mul<Output = T> + Copy> MulAssign for RGB<T> {
    fn mul_assign(&mut self, other: RGB<T>)
        requires
            old(self).mul_req(other),
        ensures
            T::obeys_mul_spec() ==> *final(self) == old(self).mul_spec(other),
    {
        *self = RGB { r: self.r * other.r, g: self.g * other.g, b: self.b * other.b };
    }
}

impl<T: Sub> vstd::std_specs::ops::SubSpecImpl for RGB<T> {
    open spec fn obeys_sub_spec() -> bool {
        T::obeys_sub_spec()
    }

    open spec fn sub_req(self, other: RGB<T>) -> bool {
        self.r.sub_req(other.r) && self.g.sub_req(other.g) && self.b.sub_req(other.b)
    }

    /// Channel by channel.
    open spec fn sub_spec(self, other: RGB<T>) -> RGB<<T as Sub>::Output> {
        RGB {
            r: self.r.sub_spec(other.r),
            g: self.g.sub_spec(other.g),
            b: self.b.sub_spec(other.b),
        }
    }
}

/// `px - px`
impl<T: Sub> Sub for RGB<T> {
    type Output = RGB<<T as Sub>::Output>;

    /// Asks that `self.sub_req(other)` holds.
    fn sub(self, other: RGB<T>) -> (difference: Self::Output)
        ensures
            T::obeys_sub_spec() ==> difference.r == self.r.sub_spec(other.r),
            T::obeys_sub_spec() ==> difference.g == self.g.sub_spec(other.g),
            T::obeys_sub_spec() ==> difference.b == self.b.sub_spec(other.b),
    {
        RGB { r: self.r - other.r, g: self.g - other.g, b: self.b - other.b }
    }
}

/// `px -= px`
impl<T: Sub<Output = T> + Copy> SubAssign for RGB<T> {
    fn sub_assign(&mut self, other: RGB<T>)
        requires
            old(self).sub_req(other),
        ensures
            T::obeys_sub_spec() ==> *final(self) == old(self).sub_spec(other),
    {
        *self = RGB { r: self.r - other.r, g: self.g - other.g, b: self.b - other.b };
    }
}

impl<T: Add> vstd::std_specs::ops::AddSpecImpl for GRB<T> {
    open spec fn obeys_add_spec() -> bool {
        T::obeys_add_spec()
    }

    open spec fn add_req(self, other: GRB<T>) -> bool {
        self.g.add_req(other.g) && self.r.add_req(other.r) && self.b.add_req(other.b)
    }

    /// Channel by channel.
    open spec fn add_spec(self, other: GRB<T>) -> GRB<<T as Add>::Output> {
        GRB {
            g: self.g.add_spec(other.g),
            r: self.r.add_spec(other.r),
            b: self.b.add_spec(other.b),
        }
    }
}

/// `px + px`
impl<T: Add> Add for GRB<T> {
    type Output = GRB<<T as Add>::Output>;

    /// Asks that `self.add_req(other)` holds.
    fn add(self, other: GRB<T>) -> (sum: Self::Output)
        ensures
            T::obeys_add_spec() ==> sum.g == self.g.add_spec(other.g),
            T::obeys_add_spec() ==> sum.r == self.r.add_spec(other.r),
            T::obeys_add_spec() ==> sum.b == self.b.add_spec(other.b),
    {
        GRB { g: self.g + other.g, r: self.r + other.r, b: self.b + other.b }
    }
}

/// `px += px`
impl<T: Add<Output = T> + Copy> AddAssign for GRB<T> {
    fn add_assign(&mut self, other: GRB<T>)
        requires
            old(self).add_req(other),
        ensures
            T::obeys_add_spec() ==> *final(self) == old(self).add_spec(other),
    {
        *self = GRB { g: self.g + other.g, r: self.r + other.r, b: self.b + other.b };
    }
}

impl<T: Mul> vstd::std_specs::ops::MulSpecImpl for GRB<T> {
    open spec fn obeys_mul_spec() -> bool {
        T::obeys_mul_spec()
    }

    open spec fn mul_req(self, other: GRB<T>) -> bool {
        self.g.mul_req(other.g) && self.r.mul_req(other.r) && self.b.mul_req(other.b)
    }

    /// Channel by channel.
    open spec fn mul_spec(self, other: GRB<T>) -> GRB<<T as Mul>::Output> {
        GRB {
            g: self.g.mul_spec(other.g),
            r: self.r.mul_spec(other.r),
            b: self.b.mul_spec(other.b),
        }
    }
}

/// `px * px`
impl<T: Mul> Mul for GRB<T> {
    type Output = GRB<<T as Mul>::Output>;

    /// Asks that `self.mul_req(other)` holds.
    fn mul(self, other: GRB<T>) -> (product: Self::Output)
        ensures
            T::obeys_mul_spec() ==> product.g == self.g.mul_spec(other.g),
            T::obeys_mul_spec() ==> product.r == self.r.mul_spec(other.r),
            T::obeys_mul_spec() ==> product.b == self.b.mul_spec(other.b),
    {
        GRB { g: self.g * other.g, r: self.r * other.r, b: self.b * other.b }
    }
}

/// `px *= px`
impl<T: Mul<Output = T> + Copy> MulAssign for GRB<T> {
    fn mul_assign(&mut self, other: GRB<T>)
        requires
            old(self).mul_req(other),
        ensures
            T::obeys_mul_spec() ==> *final(self) == old(self).mul_spec(other),
    {
        *self = GRB { g: self.g * other.g, r: self.r * other.r, b: self.b * other.b };
    }
}

impl<T: Sub> vstd::std_specs::ops::SubSpecImpl for GRB<T> {
    open spec fn obeys_sub_spec() -> bool {
        T::obeys_sub_spec()
    }

    open spec fn sub_req(self, other: GRB<T>) -> bool {
        self.g.sub_req(other.g) && self.r.sub_req(other.r) && self.b.sub_req(other.b)
    }

    /// Channel by channel.
    open spec fn sub_spec(self, other: GRB<T>) -> GRB<<T as Sub>::Output> {
        GRB {
            g: self.g.sub_spec(other.g),
            r: self.r.sub_spec(other.r),
            b: self.b.sub_spec(other.b),
        }
    }
}

/// `px - px`
impl<T: Sub> Sub for GRB<T> {
    type Output = GRB<<T as Sub>::Output>;

    /// Asks that `self.sub_req(other)` holds.
    fn sub(self, other: GRB<T>) -> (difference: Self::Output)
        ensures
            T::obeys_sub_spec() ==> difference.g == self.g.sub_spec(other.g),
            T::obeys_sub_spec() ==> difference.r == self.r.sub_spec(other.r),
            T::obeys_sub_spec() ==> difference.b == self.b.sub_spec(other.b),
    {
        GRB { g: self.g - other.g, r: self.r - other.r, b: self.b - other.b }
    }
}

/// `px -= px`
impl<T: Sub<Output = T> + Copy> SubAssign for GRB<T> {
    fn sub_assign(&mut self, other: GRB<T>)
        requires
            old(self).sub_req(other),
        ensures
            T::obeys_sub_spec() ==> *final(self) == old(self).sub_spec(other),
    {
        *self = GRB { g: self.g - other.g, r: self.r - other.r, b: self.b - other.b };
    }
}

impl<T: Add> vstd::std_specs::ops::AddSpecImpl for Gray<T> {
    open spec fn obeys_add_spec() -> bool {
        T::obeys_add_spec()
    }

    open spec fn add_req(self, other: Gray<T>) -> bool {
        self.0.add_req(other.0)
    }

    /// Channel by channel.
    open spec fn add_spec(self, other: Gray<T>) -> Gray<<T as Add>::Output> {
        Gray(
            self.0.add_spec(other.0),
        )
    }
}

/// `px + px`
impl<T: Add> Add for Gray<T> {
    type Output = Gray<<T as Add>::Output>;

    /// Asks that `self.add_req(other)` holds.
    fn add(self, other: Gray<T>) -> (sum: Self::Output)
        ensures
            T::obeys_add_spec() ==> sum.0 == self.0.add_spec(other.0),
    {
        Gray(self.0 + other.0)
    }
}

/// `px += px`
impl<T: Add<Output = T> + Copy> AddAssign for Gray<T> {
    fn add_assign(&mut self, other: Gray<T>)
        requires
            old(self).add_req(other),
        ensures
            T::obeys_add_spec() ==> *final(self) == old(self).add_spec(other),
    {
        *self = Gray(self.0 + other.0);
    }
}

impl<T: Mul> vstd::std_specs::ops::MulSpecImpl for Gray<T> {
    open spec fn obeys_mul_spec() -> bool {
        T::obeys_mul_spec()
    }

    open spec fn mul_req(self, other: Gray<T>) -> bool {
        self.0.mul_req(other.0)
    }

    /// Channel by channel.
    open spec fn mul_spec(self, other: Gray<T>) -> Gray<<T as Mul>::Output> {
        Gray(
            self.0.mul_spec(other.0),
        )
    }
}

/// `px * px`
impl<T: Mul> Mul for Gray<T> {
    type Output = Gray<<T as Mul>::Output>;

    /// Asks that `self.mul_req(other)` holds.
    fn mul(self, other: Gray<T>) -> (product: Self::Output)
        ensures
            T::obeys_mul_spec() ==> product.0 == self.0.mul_spec(other.0),
    {
        Gray(self.0 * other.0)
    }
}

/// `px *= px`
impl<T: Mul<Output = T> + Copy> MulAssign for Gray<T> {
    fn mul_assign(&mut self, other: Gray<T>)
        requires
            old(self).mul_req(other),
        ensures
            T::obeys_mul_spec() ==> *final(self) == old(self).mul_spec(other),
    {
        *self = Gray(self.0 * other.0);
    }
}

impl<T: Sub> vstd::std_specs::ops::SubSpecImpl for Gray<T> {
    open spec fn obeys_sub_spec() -> bool {
        T::obeys_sub_spec()
    }

    open spec fn sub_req(self, other: Gray<T>) -> bool {
        self.0.sub_req(other.0)
    }

    /// Channel by channel.
    open spec fn sub_spec(self, other: Gray<T>) -> Gray<<T as Sub>::Output> {
        Gray(
            self.0.sub_spec(other.0),
        )
    }
}

/// `px - px`
impl<T: Sub> Sub for Gray<T> {
    type Output = Gray<<T as Sub>::Output>;

    /// Asks that `self.sub_req(other)` holds.
    fn sub(self, other: Gray<T>) -> (difference: Self::Output)
        ensures
            T::obeys_sub_spec() ==> difference.0 == self.0.sub_spec(other.0),
    {
        Gray(self.0 - other.0)
    }
}

/// `px -= px`
impl<T: Sub<Output = T> + Copy> SubAssign for Gray<T> {
    fn sub_assign(&mut self, other: Gray<T>)
        requires
            old(self).sub_req(other),
        ensures
            T::obeys_sub_spec() ==> *final(self) == old(self).sub_spec(other),
    {
        *self = Gray(self.0 - other.0);
    }
}

impl<T: Add, A: Add> vstd::std_specs::ops::AddSpecImpl for RGBA<T, A> {
    open spec fn obeys_add_spec() -> bool {
        T::obeys_add_spec() && A::obeys_add_spec()
    }

    open spec fn add_req(self, other: RGBA<T, A>) -> bool {
        self.r.add_req(other.r) && self.g.add_req(other.g) && self.b.add_req(other.b) && self.a.add_req(other.a)
    }

    /// Channel by channel.
    open spec fn add_spec(self, other: RGBA<T, A>) -> RGBA<<T as Add>::Output, <A as Add>::Output> {
        RGBA {
            r: self.r.add_spec(other.r),
            g: self.g.add_spec(other.g),
            b: self.b.add_spec(other.b),
            a: self.a.add_spec(other.a),
        }
    }
}

/// `px + px`
impl<T: Add, A: Add> Add for RGBA<T, A> {
    type Output = RGBA<<T as Add>::Output, <A as Add>::Output>;

    /// Asks that `self.add_req(other)` holds.
    fn add(self, other: RGBA<T, A>) -> (sum: Self::Output)
        ensures
            T::obeys_add_spec() ==> sum.r == self.r.add_spec(other.r),
            T::obeys_add_spec() ==> sum.g == self.g.add_spec(other.g),
            T::obeys_add_spec() ==> sum.b == self.b.add_spec(other.b),
            A::obeys_add_spec() ==> sum.a == self.a.add_spec(other.a),
    {
        RGBA { r: self.r + other.r, g: self.g + other.g, b: self.b + other.b, a: self.a + other.a }
    }
}

/// `px += px`
impl<T: Add<Output = T> + Copy, A: Add<Output = A> + Copy> AddAssign for RGBA<T, A> {
    fn add_assign(&mut self, other: RGBA<T, A>)
        requires
            old(self).add_req(other),
        ensures
            (T::obeys_add_spec() && A::obeys_add_spec()) ==> *final(self) == old(self).add_spec(other),
    {
        *self = RGBA { r: self.r + other.r, g: self.g + other.g, b: self.b + other.b, a: self.a + other.a };
    }
}

impl<T: Sub, A: Sub> vstd::std_specs::ops::SubSpecImpl for RGBA<T, A> {
    open spec fn obeys_sub_spec() -> bool {
        T::obeys_sub_spec() && A::obeys_sub_spec()
    }

    open spec fn sub_req(self, other: RGBA<T, A>) -> bool {
        self.r.sub_req(other.r) && self.g.sub_req(other.g) && self.b.sub_req(other.b) && self.a.sub_req(other.a)
    }

    /// Channel by channel.
    open spec fn sub_spec(self, other: RGBA<T, A>) -> RGBA<<T as Sub>::Output, <A as Sub>::Output> {
        RGBA {
            r: self.r.sub_spec(other.r),
            g: self.g.sub_spec(other.g),
            b: self.b.sub_spec(other.b),
            a: self.a.sub_spec(other.a),
        }
    }
}

/// `px - px`
impl<T: Sub, A: Sub> Sub for RGBA<T, A> {
    type Output = RGBA<<T as Sub>::Output, <A as Sub>::Output>;

    /// Asks that `self.sub_req(other)` holds.
    fn sub(self, other: RGBA<T, A>) -> (difference: Self::Output)
        ensures
            T::obeys_sub_spec() ==> difference.r == self.r.sub_spec(other.r),
            T::obeys_sub_spec() ==> difference.g == self.g.sub_spec(other.g),
            T::obeys_sub_spec() ==> difference.b == self.b.sub_spec(other.b),
            A::obeys_sub_spec() ==> difference.a == self.a.sub_spec(other.a),
    {
        RGBA { r: self.r - other.r, g: self.g - other.g, b: self.b - other.b, a: self.a - other.a }
    }
}

/// `px -= px`
impl<T: Sub<Output = T> + Copy, A: Sub<Output = A> + Copy> SubAssign for RGBA<T, A> {
    fn sub_assign(&mut self, other: RGBA<T, A>)
        requires
            old(self).sub_req(other),
        ensures
            (T::obeys_sub_spec() && A::obeys_sub_spec()) ==> *final(self) == old(self).sub_spec(other),
    {
        *self = RGBA { r: self.r - other.r, g: self.g - other.g, b: self.b - other.b, a: self.a - other.a };
    }
}

impl<T: Add, A: Add> vstd::std_specs::ops::AddSpecImpl for ARGB<T, A> {
    open spec fn obeys_add_spec() -> bool {
        T::obeys_add_spec() && A::obeys_add_spec()
    }

    open spec fn add_req(self, other: ARGB<T, A>) -> bool {
        self.a.add_req(other.a) && self.r.add_req(other.r) && self.g.add_req(other.g) && self.b.add_req(other.b)
    }

    /// Channel by channel.
    open spec fn add_spec(self, other: ARGB<T, A>) -> ARGB<<T as Add>::Output, <A as Add>::Output> {
        ARGB {
            a: self.a.add_spec(other.a),
            r: self.r.add_spec(other.r),
            g: self.g.add_spec(other.g),
            b: self.b.add_spec(other.b),
        }
    }
}

/// `px + px`
impl<T: Add, A: Add> Add for ARGB<T, A> {
    type Output = ARGB<<T as Add>::Output, <A as Add>::Output>;

    /// Asks that `self.add_req(other)` holds.
    fn add(self, other: ARGB<T, A>) -> (sum: Self::Output)
        ensures
            A::obeys_add_spec() ==> sum.a == self.a.add_spec(other.a),
            T::obeys_add_spec() ==> sum.r == self.r.add_spec(other.r),
            T::obeys_add_spec() ==> sum.g == self.g.add_spec(other.g),
            T::obeys_add_spec() ==> sum.b == self.b.add_spec(other.b),
    {
        ARGB { a: self.a + other.a, r: self.r + other.r, g: self.g + other.g, b: self.b + other.b }
    }
}

/// `px += px`
impl<T: Add<Output = T> + Copy, A: Add<Output = A> + Copy> AddAssign for ARGB<T, A> {
    fn add_assign(&mut self, other: ARGB<T, A>)
        requires
            old(self).add_req(other),
        ensures
            (T::obeys_add_spec() && A::obeys_add_spec()) ==> *final(self) == old(self).add_spec(other),
    {
        *self = ARGB { a: self.a + other.a, r: self.r + other.r, g: self.g + other.g, b: self.b + other.b };
    }
}

impl<T: Sub, A: Sub> vstd::std_specs::ops::SubSpecImpl for ARGB<T, A> {
    open spec fn obeys_sub_spec() -> bool {
        T::obeys_sub_spec() && A::obeys_sub_spec()
    }

    open spec fn sub_req(self, other: ARGB<T, A>) -> bool {
        self.a.sub_req(other.a) && self.r.sub_req(other.r) && self.g.sub_req(other.g) && self.b.sub_req(other.b)
    }

    /// Channel by channel.
    open spec fn sub_spec(self, other: ARGB<T, A>) -> ARGB<<T as Sub>::Output, <A as Sub>::Output> {
        ARGB {
            a: self.a.sub_spec(other.a),
            r: self.r.sub_spec(other.r),
            g: self.g.sub_spec(other.g),
            b: self.b.sub_spec(other.b),
        }
    }
}

/// `px - px`
impl<T: Sub, A: Sub> Sub for ARGB<T, A> {
    type Output = ARGB<<T as Sub>::Output, <A as Sub>::Output>;

    /// Asks that `self.sub_req(other)` holds.
    fn sub(self, other: ARGB<T, A>) -> (difference: Self::Output)
        ensures
            A::obeys_sub_spec() ==> difference.a == self.a.sub_spec(other.a),
            T::obeys_sub_spec() ==> difference.r == self.r.sub_spec(other.r),
            T::obeys_sub_spec() ==> difference.g == self.g.sub_spec(other.g),
            T::obeys_sub_spec() ==> difference.b == self.b.sub_spec(other.b),
    {
        ARGB { a: self.a - other.a, r: self.r - other.r, g: self.g - other.g, b: self.b - other.b }
    }
}

/// `px -= px`
impl<T: Sub<Output = T> + Copy, A: Sub<Output = A> + Copy> SubAssign for ARGB<T, A> {
    fn sub_assign(&mut self, other: ARGB<T, A>)
        requires
            old(self).sub_req(other),
        ensures
            (T::obeys_sub_spec() && A::obeys_sub_spec()) ==> *final(self) == old(self).sub_spec(other),
    {
        *self = ARGB { a: self.a - other.a, r: self.r - other.r, g: self.g - other.g, b: self.b - other.b };
    }
}

impl<T: Add, A: Add> vstd::std_specs::ops::AddSpecImpl for GrayAlpha<T, A> {
    open spec fn obeys_add_spec() -> bool {
        T::obeys_add_spec() && A::obeys_add_spec()
    }

    open spec fn add_req(self, other: GrayAlpha<T, A>) -> bool {
        self.0.add_req(other.0) && self.1.add_req(other.1)
    }

    /// Channel by channel.
    open spec fn add_spec(self, other: GrayAlpha<T, A>) -> GrayAlpha<<T as Add>::Output, <A as Add>::Output> {
        GrayAlpha(
            self.0.add_spec(other.0),
            self.1.add_spec(other.1),
        )
    }
}

/// `px + px`
impl<T: Add, A: Add> Add for GrayAlpha<T, A> {
    type Output = GrayAlpha<<T as Add>::Output, <A as Add>::Output>;

    /// Asks that `self.add_req(other)` holds.
    fn add(self, other: GrayAlpha<T, A>) -> (sum: Self::Output)
        ensures
            T::obeys_add_spec() ==> sum.0 == self.0.add_spec(other.0),
            A::obeys_add_spec() ==> sum.1 == self.1.add_spec(other.1),
    {
        GrayAlpha(self.0 + other.0, self.1 + other.1)
    }
}

/// `px += px`
impl<T: Add<Output = T> + Copy, A: Add<Output = A> + Copy> AddAssign for GrayAlpha<T, A> {
    fn add_assign(&mut self, other: GrayAlpha<T, A>)
        requires
            old(self).add_req(other),
        ensures
            (T::obeys_add_spec() && A::obeys_add_spec()) ==> *final(self) == old(self).add_spec(other),
    {
        *self = GrayAlpha(self.0 + other.0, self.1 + other.1);
    }
}

impl<T: Sub, A: Sub> vstd::std_specs::ops::SubSpecImpl for GrayAlpha<T, A> {
    open spec fn obeys_sub_spec() -> bool {
        T::obeys_sub_spec() && A::obeys_sub_spec()
    }

    open spec fn sub_req(self, other: GrayAlpha<T, A>) -> bool {
        self.0.sub_req(other.0) && self.1.sub_req(other.1)
    }

    /// Channel by channel.
    open spec fn sub_spec(self, other: GrayAlpha<T, A>) -> GrayAlpha<<T as Sub>::Output, <A as Sub>::Output> {
        GrayAlpha(
            self.0.sub_spec(other.0),
            self.1.sub_spec(other.1),
        )
    }
}

/// `px - px`
impl<T: Sub, A: Sub> Sub for GrayAlpha<T, A> {
    type Output = GrayAlpha<<T as Sub>::Output, <A as Sub>::Output>;

    /// Asks that `self.sub_req(other)` holds.
    fn sub(self, other: GrayAlpha<T, A>) -> (difference: Self::Output)
        ensures
            T::obeys_sub_spec() ==> difference.0 == self.0.sub_spec(other.0),
            A::obeys_sub_spec() ==> difference.1 == self.1.sub_spec(other.1),
    {
        GrayAlpha(self.0 - other.0, self.1 - other.1)
    }
}

/// `px -= px`
impl<T: Sub<Output = T> + Copy, A: Sub<Output = A> + Copy> SubAssign for GrayAlpha<T, A> {
    fn sub_assign(&mut self, other: GrayAlpha<T, A>)
        requires
            old(self).sub_req(other),
        ensures
            (T::obeys_sub_spec() && A::obeys_sub_spec()) ==> *final(self) == old(self).sub_spec(other),
    {
        *self = GrayAlpha(self.0 - other.0, self.1 - other.1);
    }
}

} // verus!
