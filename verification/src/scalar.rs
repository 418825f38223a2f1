//! Arithmetic between a pixel and one scalar, which is applied to every
//! channel, alpha included.
use vstd::prelude::*;
use vstd::std_specs::ops::AddSpec;
use vstd::std_specs::ops::DivSpec;
use vstd::std_specs::ops::MulSpec;
use vstd::std_specs::ops::SubSpec;
use core::ops::Add;
use core::ops::AddAssign;
use core::ops::Div;
use core::ops::DivAssign;
use core::ops::Mul;
use core::ops::MulAssign;
use core::ops::Sub;
use core::ops::SubAssign;
use crate::pixel::ComponentMap;
use crate::pixel::ComponentSlice;
use crate::alt::Gray;
use crate::alt::GrayAlpha;
use crate::alt::ARGB;
use crate::alt::GRB;
use crate::RGB;
use crate::RGBA;

verus! {

impl<T: Copy + Sub<Output = T>> vstd::std_specs::ops::SubSpecImpl<T> for RGB<T> {
    open spec fn obeys_sub_spec() -> bool {
        T::obeys_sub_spec()
    }

    open spec fn sub_req(self, r: T) -> bool {
        self.r.sub_req(r) && self.g.sub_req(r) && self.b.sub_req(r)
    }

    /// The same `r` for every channel.
    open spec fn sub_spec(self, r: T) -> RGB<T> {
        RGB {
            r: self.r.sub_spec(r),
            g: self.g.sub_spec(r),
            b: self.b.sub_spec(r),
        }
    }
}

/// `px - 1`
impl<T: Copy + Sub<Output = T>> Sub<T> for RGB<T> {
    type Output = RGB<T>;

    /// Asks that `self.sub_req(r)` holds.
    fn sub(self, r: T) -> (difference: RGB<T>)
        ensures
            T::obeys_sub_spec() ==> difference.r == self.r.sub_spec(r),
            T::obeys_sub_spec() ==> difference.g == self.g.sub_spec(r),
            T::obeys_sub_spec() ==> difference.b == self.b.sub_spec(r),
    {
        let per_channel = |l: T| -> (o: T)
            requires
                l.sub_req(r),
            ensures
                T::obeys_sub_spec() ==> o == l.sub_spec(r),
            {
                l - r
            };
        self.map(per_channel)
    }
}

/// `px -= 1`
impl<T: Copy + Sub<Output = T>> SubAssign<T> for RGB<T> {
    fn sub_assign(&mut self, r: T)
        requires
            old(self).sub_req(r),
        ensures
            T::obeys_sub_spec() ==> *final(self) == old(self).sub_spec(r),
    {
        let per_channel = |l: T| -> (o: T)
            requires
                l.sub_req(r),
            ensures
                T::obeys_sub_spec() ==> o == l.sub_spec(r),
            {
                l - r
            };
        *self = self.map(per_channel);
    }
}

impl<T: Copy + Add<Output = T>> vstd::std_specs::ops::AddSpecImpl<T> for RGB<T> {
    open spec fn obeys_add_spec() -> bool {
        T::obeys_add_spec()
    }

    open spec fn add_req(self, r: T) -> bool {
        self.r.add_req(r) && self.g.add_req(r) && self.b.add_req(r)
    }

    /// The same `r` for every channel.
    open spec fn add_spec(self, r: T) -> RGB<T> {
        RGB {
            r: self.r.add_spec(r),
            g: self.g.add_spec(r),
            b: self.b.add_spec(r),
        }
    }
}

/// `px + 1`
impl<T: Copy + Add<Output = T>> Add<T> for RGB<T> {
    type Output = RGB<T>;

    /// Asks that `self.add_req(r)` holds.
    fn add(self, r: T) -> (sum: RGB<T>)
        ensures
            T::obeys_add_spec() ==> sum.r == self.r.add_spec(r),
            T::obeys_add_spec() ==> sum.g == self.g.add_spec(r),
            T::obeys_add_spec() ==> sum.b == self.b.add_spec(r),
    {
        let per_channel = |l: T| -> (o: T)
            requires
                l.add_req(r),
            ensures
                T::obeys_add_spec() ==> o == l.add_spec(r),
            {
                l + r
            };
        self.map(per_channel)
    }
}

/// `px += 1`
impl<T: Copy + Add<Output = T>> AddAssign<T> for RGB<T> {
    fn add_assign(&mut self, r: T)
        requires
            old(self).add_req(r),
        ensures
            T::obeys_add_spec() ==> *final(self) == old(self).add_spec(r),
    {
        let per_channel = |l: T| -> (o: T)
            requires
                l.add_req(r),
            ensures
                T::obeys_add_spec() ==> o == l.add_spec(r),
            {
                l + r
            };
        *self = self.map(per_channel);
    }
}

impl<T: Copy + Mul<Output = T>> vstd::std_specs::ops::MulSpecImpl<T> for RGB<T> {
    open spec fn obeys_mul_spec() -> bool {
        T::obeys_mul_spec()
    }

    open spec fn mul_req(self, r: T) -> bool {
        self.r.mul_req(r) && self.g.mul_req(r) && self.b.mul_req(r)
    }

    /// The same `r` for every channel.
    open spec fn mul_spec(self, r: T) -> RGB<T> {
        RGB {
            r: self.r.mul_spec(r),
            g: self.g.mul_spec(r),
            b: self.b.mul_spec(r),
        }
    }
}

/// `px * 1`
impl<T: Copy + Mul<Output = T>> Mul<T> for RGB<T> {
    type Output = RGB<T>;

    /// Asks that `self.mul_req(r)` holds.
    fn mul(self, r: T) -> (product: RGB<T>)
        ensures
            T::obeys_mul_spec() ==> product.r == self.r.mul_spec(r),
            T::obeys_mul_spec() ==> product.g == self.g.mul_spec(r),
            T::obeys_mul_spec() ==> product.b == self.b.mul_spec(r),
    {
        let per_channel = |l: T| -> (o: T)
            requires
                l.mul_req(r),
            ensures
                T::obeys_mul_spec() ==> o == l.mul_spec(r),
            {
                l * r
            };
        self.map(per_channel)
    }
}

/// `px *= 1`
impl<T: Copy + Mul<Output = T>> MulAssign<T> for RGB<T> {
    fn mul_assign(&mut self, r: T)
        requires
            old(self).mul_req(r),
        ensures
            T::obeys_mul_spec() ==> *final(self) == old(self).mul_spec(r),
    {
        let per_channel = |l: T| -> (o: T)
            requires
                l.mul_req(r),
            ensures
                T::obeys_mul_spec() ==> o == l.mul_spec(r),
            {
                l * r
            };
        *self = self.map(per_channel);
    }
}

impl<T: Copy + Div<Output = T>> vstd::std_specs::ops::DivSpecImpl<T> for RGB<T> {
    open spec fn obeys_div_spec() -> bool {
        T::obeys_div_spec()
    }

    open spec fn div_req(self, r: T) -> bool {
        self.r.div_req(r) && self.g.div_req(r) && self.b.div_req(r)
    }

    /// The same `r` for every channel.
    open spec fn div_spec(self, r: T) -> RGB<T> {
        RGB {
            r: self.r.div_spec(r),
            g: self.g.div_spec(r),
            b: self.b.div_spec(r),
        }
    }
}

/// `px / 1`
impl<T: Copy + Div<Output = T>> Div<T> for RGB<T> {
    type Output = RGB<T>;

    /// Asks that `self.div_req(r)` holds.
    fn div(self, r: T) -> (quotient: RGB<T>)
        ensures
            T::obeys_div_spec() ==> quotient.r == self.r.div_spec(r),
            T::obeys_div_spec() ==> quotient.g == self.g.div_spec(r),
            T::obeys_div_spec() ==> quotient.b == self.b.div_spec(r),
    {
        let per_channel = |l: T| -> (o: T)
            requires
                l.div_req(r),
            ensures
                T::obeys_div_spec() ==> o == l.div_spec(r),
            {
                l / r
            };
        self.map(per_channel)
    }
}

/// `px /= 1`
impl<T: Copy + Div<Output = T>> DivAssign<T> for RGB<T> {
    fn div_assign(&mut self, r: T)
        requires
            old(self).div_req(r),
        ensures
            T::obeys_div_spec() ==> *final(self) == old(self).div_spec(r),
    {
        let per_channel = |l: T| -> (o: T)
            requires
                l.div_req(r),
            ensures
                T::obeys_div_spec() ==> o == l.div_spec(r),
            {
                l / r
            };
        *self = self.map(per_channel);
    }
}

impl<T: Copy + Sub<Output = T>> vstd::std_specs::ops::SubSpecImpl<T> for RGBA<T> {
    open spec fn obeys_sub_spec() -> bool {
        T::obeys_sub_spec()
    }

    open spec fn sub_req(self, r: T) -> bool {
        self.r.sub_req(r) && self.g.sub_req(r) && self.b.sub_req(r) && self.a.sub_req(r)
    }

    /// The same `r` for every channel.
    open spec fn sub_spec(self, r: T) -> RGBA<T> {
        RGBA {
            r: self.r.sub_spec(r),
            g: self.g.sub_spec(r),
            b: self.b.sub_spec(r),
            a: self.a.sub_spec(r),
        }
    }
}

/// `px - 1`
impl<T: Copy + Sub<Output = T>> Sub<T> for RGBA<T> {
    type Output = RGBA<T>;

    /// Asks that `self.sub_req(r)` holds.
    fn sub(self, r: T) -> (difference: RGBA<T>)
        ensures
            T::obeys_sub_spec() ==> difference.r == self.r.sub_spec(r),
            T::obeys_sub_spec() ==> difference.g == self.g.sub_spec(r),
            T::obeys_sub_spec() ==> difference.b == self.b.sub_spec(r),
            T::obeys_sub_spec() ==> difference.a == self.a.sub_spec(r),
    {
        let per_channel = |l: T| -> (o: T)
            requires
                l.sub_req(r),
            ensures
                T::obeys_sub_spec() ==> o == l.sub_spec(r),
            {
                l - r
            };
        self.map(per_channel)
    }
}

/// `px -= 1`
impl<T: Copy + Sub<Output = T>> SubAssign<T> for RGBA<T> {
    fn sub_assign(&mut self, r: T)
        requires
            old(self).sub_req(r),
        ensures
            T::obeys_sub_spec() ==> *final(self) == old(self).sub_spec(r),
    {
        let per_channel = |l: T| -> (o: T)
            requires
                l.sub_req(r),
            ensures
                T::obeys_sub_spec() ==> o == l.sub_spec(r),
            {
                l - r
            };
        *self = self.map(per_channel);
    }
}

impl<T: Copy + Add<Output = T>> vstd::std_specs::ops::AddSpecImpl<T> for RGBA<T> {
    open spec fn obeys_add_spec() -> bool {
        T::obeys_add_spec()
    }

    open spec fn add_req(self, r: T) -> bool {
        self.r.add_req(r) && self.g.add_req(r) && self.b.add_req(r) && self.a.add_req(r)
    }

    /// The same `r` for every channel.
    open spec fn add_spec(self, r: T) -> RGBA<T> {
        RGBA {
            r: self.r.add_spec(r),
            g: self.g.add_spec(r),
            b: self.b.add_spec(r),
            a: self.a.add_spec(r),
        }
    }
}

/// `px + 1`
impl<T: Copy + Add<Output = T>> Add<T> for RGBA<T> {
    type Output = RGBA<T>;

    /// Asks that `self.add_req(r)` holds.
    fn add(self, r: T) -> (sum: RGBA<T>)
        ensures
            T::obeys_add_spec() ==> sum.r == self.r.add_spec(r),
            T::obeys_add_spec() ==> sum.g == self.g.add_spec(r),
            T::obeys_add_spec() ==> sum.b == self.b.add_spec(r),
            T::obeys_add_spec() ==> sum.a == self.a.add_spec(r),
    {
        let per_channel = |l: T| -> (o: T)
            requires
                l.add_req(r),
            ensures
                T::obeys_add_spec() ==> o == l.add_spec(r),
            {
                l + r
            };
        self.map(per_channel)
    }
}

/// `px += 1`
impl<T: Copy + Add<Output = T>> AddAssign<T> for RGBA<T> {
    fn add_assign(&mut self, r: T)
        requires
            old(self).add_req(r),
        ensures
            T::obeys_add_spec() ==> *final(self) == old(self).add_spec(r),
    {
        let per_channel = |l: T| -> (o: T)
            requires
                l.add_req(r),
            ensures
                T::obeys_add_spec() ==> o == l.add_spec(r),
            {
                l + r
            };
        *self = self.map(per_channel);
    }
}

impl<T: Copy + Mul<Output = T>> vstd::std_specs::ops::MulSpecImpl<T> for RGBA<T> {
    open spec fn obeys_mul_spec() -> bool {
        T::obeys_mul_spec()
    }

    open spec fn mul_req(self, r: T) -> bool {
        self.r.mul_req(r) && self.g.mul_req(r) && self.b.mul_req(r) && self.a.mul_req(r)
    }

    /// The same `r` for every channel.
    open spec fn mul_spec(self, r: T) -> RGBA<T> {
        RGBA {
            r: self.r.mul_spec(r),
            g: self.g.mul_spec(r),
            b: self.b.mul_spec(r),
            a: self.a.mul_spec(r),
        }
    }
}

/// `px * 1`
impl<T: Copy + Mul<Output = T>> Mul<T> for RGBA<T> {
    type Output = RGBA<T>;

    /// Asks that `self.mul_req(r)` holds.
    fn mul(self, r: T) -> (product: RGBA<T>)
        ensures
            T::obeys_mul_spec() ==> product.r == self.r.mul_spec(r),
            T::obeys_mul_spec() ==> product.g == self.g.mul_spec(r),
            T::obeys_mul_spec() ==> product.b == self.b.mul_spec(r),
            T::obeys_mul_spec() ==> product.a == self.a.mul_spec(r),
    {
        let per_channel = |l: T| -> (o: T)
            requires
                l.mul_req(r),
            ensures
                T::obeys_mul_spec() ==> o == l.mul_spec(r),
            {
                l * r
            };
        self.map(per_channel)
    }
}

/// `px *= 1`
impl<T: Copy + Mul<Output = T>> MulAssign<T> for RGBA<T> {
    fn mul_assign(&mut self, r: T)
        requires
            old(self).mul_req(r),
        ensures
            T::obeys_mul_spec() ==> *final(self) == old(self).mul_spec(r),
    {
        let per_channel = |l: T| -> (o: T)
            requires
                l.mul_req(r),
            ensures
                T::obeys_mul_spec() ==> o == l.mul_spec(r),
            {
                l * r
            };
        *self = self.map(per_channel);
    }
}

impl<T: Copy + Div<Output = T>> vstd::std_specs::ops::DivSpecImpl<T> for RGBA<T> {
    open spec fn obeys_div_spec() -> bool {
        T::obeys_div_spec()
    }

    open spec fn div_req(self, r: T) -> bool {
        self.r.div_req(r) && self.g.div_req(r) && self.b.div_req(r) && self.a.div_req(r)
    }

    /// The same `r` for every channel.
    open spec fn div_spec(self, r: T) -> RGBA<T> {
        RGBA {
            r: self.r.div_spec(r),
            g: self.g.div_spec(r),
            b: self.b.div_spec(r),
            a: self.a.div_spec(r),
        }
    }
}

/// `px / 1`
impl<T: Copy + Div<Output = T>> Div<T> for RGBA<T> {
    type Output = RGBA<T>;

    /// Asks that `self.div_req(r)` holds.
    fn div(self, r: T) -> (quotient: RGBA<T>)
        ensures
            T::obeys_div_spec() ==> quotient.r == self.r.div_spec(r),
            T::obeys_div_spec() ==> quotient.g == self.g.div_spec(r),
            T::obeys_div_spec() ==> quotient.b == self.b.div_spec(r),
            T::obeys_div_spec() ==> quotient.a == self.a.div_spec(r),
    {
        let per_channel = |l: T| -> (o: T)
            requires
                l.div_req(r),
            ensures
                T::obeys_div_spec() ==> o == l.div_spec(r),
            {
                l / r
            };
        self.map(per_channel)
    }
}

/// `px /= 1`
impl<T: Copy + Div<Output = T>> DivAssign<T> for RGBA<T> {
    fn div_assign(&mut self, r: T)
        requires
            old(self).div_req(r),
        ensures
            T::obeys_div_spec() ==> *final(self) == old(self).div_spec(r),
    {
        let per_channel = |l: T| -> (o: T)
            requires
                l.div_req(r),
            ensures
                T::obeys_div_spec() ==> o == l.div_spec(r),
            {
                l / r
            };
        *self = self.map(per_channel);
    }
}

impl<T: Copy + Sub<Output = T>> vstd::std_specs::ops::SubSpecImpl<T> for ARGB<T> {
    open spec fn obeys_sub_spec() -> bool {
        T::obeys_sub_spec()
    }

    open spec fn sub_req(self, r: T) -> bool {
        self.a.sub_req(r) && self.r.sub_req(r) && self.g.sub_req(r) && self.b.sub_req(r)
    }

    /// The same `r` for every channel.
    open spec fn sub_spec(self, r: T) -> ARGB<T> {
        ARGB {
            a: self.a.sub_spec(r),
            r: self.r.sub_spec(r),
            g: self.g.sub_spec(r),
            b: self.b.sub_spec(r),
        }
    }
}

/// `px - 1`
impl<T: Copy + Sub<Output = T>> Sub<T> for ARGB<T> {
    type Output = ARGB<T>;

    /// Asks that `self.sub_req(r)` holds.
    fn sub(self, r: T) -> (difference: ARGB<T>)
        ensures
            T::obeys_sub_spec() ==> difference.a == self.a.sub_spec(r),
            T::obeys_sub_spec() ==> difference.r == self.r.sub_spec(r),
            T::obeys_sub_spec() ==> difference.g == self.g.sub_spec(r),
            T::obeys_sub_spec() ==> difference.b == self.b.sub_spec(r),
    {
        let per_channel = |l: T| -> (o: T)
            requires
                l.sub_req(r),
            ensures
                T::obeys_sub_spec() ==> o == l.sub_spec(r),
            {
                l - r
            };
        self.map(per_channel)
    }
}

/// `px -= 1`
impl<T: Copy + Sub<Output = T>> SubAssign<T> for ARGB<T> {
    fn sub_assign(&mut self, r: T)
        requires
            old(self).sub_req(r),
        ensures
            T::obeys_sub_spec() ==> *final(self) == old(self).sub_spec(r),
    {
        let per_channel = |l: T| -> (o: T)
            requires
                l.sub_req(r),
            ensures
                T::obeys_sub_spec() ==> o == l.sub_spec(r),
            {
                l - r
            };
        *self = self.map(per_channel);
    }
}

impl<T: Copy + Add<Output = T>> vstd::std_specs::ops::AddSpecImpl<T> for ARGB<T> {
    open spec fn obeys_add_spec() -> bool {
        T::obeys_add_spec()
    }

    open spec fn add_req(self, r: T) -> bool {
        self.a.add_req(r) && self.r.add_req(r) && self.g.add_req(r) && self.b.add_req(r)
    }

    /// The same `r` for every channel.
    open spec fn add_spec(self, r: T) -> ARGB<T> {
        ARGB {
            a: self.a.add_spec(r),
            r: self.r.add_spec(r),
            g: self.g.add_spec(r),
            b: self.b.add_spec(r),
        }
    }
}

/// `px + 1`
impl<T: Copy + Add<Output = T>> Add<T> for ARGB<T> {
    type Output = ARGB<T>;

    /// Asks that `self.add_req(r)` holds.
    fn add(self, r: T) -> (sum: ARGB<T>)
        ensures
            T::obeys_add_spec() ==> sum.a == self.a.add_spec(r),
            T::obeys_add_spec() ==> sum.r == self.r.add_spec(r),
            T::obeys_add_spec() ==> sum.g == self.g.add_spec(r),
            T::obeys_add_spec() ==> sum.b == self.b.add_spec(r),
    {
        let per_channel = |l: T| -> (o: T)
            requires
                l.add_req(r),
            ensures
                T::obeys_add_spec() ==> o == l.add_spec(r),
            {
                l + r
            };
        self.map(per_channel)
    }
}

/// `px += 1`
impl<T: Copy + Add<Output = T>> AddAssign<T> for ARGB<T> {
    fn add_assign(&mut self, r: T)
        requires
            old(self).add_req(r),
        ensures
            T::obeys_add_spec() ==> *final(self) == old(self).add_spec(r),
    {
        let per_channel = |l: T| -> (o: T)
            requires
                l.add_req(r),
            ensures
                T::obeys_add_spec() ==> o == l.add_spec(r),
            {
                l + r
            };
        *self = self.map(per_channel);
    }
}

impl<T: Copy + Mul<Output = T>> vstd::std_specs::ops::MulSpecImpl<T> for ARGB<T> {
    open spec fn obeys_mul_spec() -> bool {
        T::obeys_mul_spec()
    }

    open spec fn mul_req(self, r: T) -> bool {
        self.a.mul_req(r) && self.r.mul_req(r) && self.g.mul_req(r) && self.b.mul_req(r)
    }

    /// The same `r` for every channel.
    open spec fn mul_spec(self, r: T) -> ARGB<T> {
        ARGB {
            a: self.a.mul_spec(r),
            r: self.r.mul_spec(r),
            g: self.g.mul_spec(r),
            b: self.b.mul_spec(r),
        }
    }
}

/// `px * 1`
impl<T: Copy + Mul<Output = T>> Mul<T> for ARGB<T> {
    type Output = ARGB<T>;

    /// Asks that `self.mul_req(r)` holds.
    fn mul(self, r: T) -> (product: ARGB<T>)
        ensures
            T::obeys_mul_spec() ==> product.a == self.a.mul_spec(r),
            T::obeys_mul_spec() ==> product.r == self.r.mul_spec(r),
            T::obeys_mul_spec() ==> product.g == self.g.mul_spec(r),
            T::obeys_mul_spec() ==> product.b == self.b.mul_spec(r),
    {
        let per_channel = |l: T| -> (o: T)
            requires
                l.mul_req(r),
            ensures
                T::obeys_mul_spec() ==> o == l.mul_spec(r),
            {
                l * r
            };
        self.map(per_channel)
    }
}

/// `px *= 1`
impl<T: Copy + Mul<Output = T>> MulAssign<T> for ARGB<T> {
    fn mul_assign(&mut self, r: T)
        requires
            old(self).mul_req(r),
        ensures
            T::obeys_mul_spec() ==> *final(self) == old(self).mul_spec(r),
    {
        let per_channel = |l: T| -> (o: T)
            requires
                l.mul_req(r),
            ensures
                T::obeys_mul_spec() ==> o == l.mul_spec(r),
            {
                l * r
            };
        *self = self.map(per_channel);
    }
}

impl<T: Copy + Div<Output = T>> vstd::std_specs::ops::DivSpecImpl<T> for ARGB<T> {
    open spec fn obeys_div_spec() -> bool {
        T::obeys_div_spec()
    }

    open spec fn div_req(self, r: T) -> bool {
        self.a.div_req(r) && self.r.div_req(r) && self.g.div_req(r) && self.b.div_req(r)
    }

    /// The same `r` for every channel.
    open spec fn div_spec(self, r: T) -> ARGB<T> {
        ARGB {
            a: self.a.div_spec(r),
            r: self.r.div_spec(r),
            g: self.g.div_spec(r),
            b: self.b.div_spec(r),
        }
    }
}

/// `px / 1`
impl<T: Copy + Div<Output = T>> Div<T> for ARGB<T> {
    type Output = ARGB<T>;

    /// Asks that `self.div_req(r)` holds.
    fn div(self, r: T) -> (quotient: ARGB<T>)
        ensures
            T::obeys_div_spec() ==> quotient.a == self.a.div_spec(r),
            T::obeys_div_spec() ==> quotient.r == self.r.div_spec(r),
            T::obeys_div_spec() ==> quotient.g == self.g.div_spec(r),
            T::obeys_div_spec() ==> quotient.b == self.b.div_spec(r),
    {
        let per_channel = |l: T| -> (o: T)
            requires
                l.div_req(r),
            ensures
                T::obeys_div_spec() ==> o == l.div_spec(r),
            {
                l / r
            };
        self.map(per_channel)
    }
}

/// `px /= 1`
impl<T: Copy + Div<Output = T>> DivAssign<T> for ARGB<T> {
    fn div_assign(&mut self, r: T)
        requires
            old(self).div_req(r),
        ensures
            T::obeys_div_spec() ==> *final(self) == old(self).div_spec(r),
    {
        let per_channel = |l: T| -> (o: T)
            requires
                l.div_req(r),
            ensures
                T::obeys_div_spec() ==> o == l.div_spec(r),
            {
                l / r
            };
        *self = self.map(per_channel);
    }
}

impl<T: Copy + Sub<Output = T>> vstd::std_specs::ops::SubSpecImpl<T> for GRB<T> {
    open spec fn obeys_sub_spec() -> bool {
        T::obeys_sub_spec()
    }

    open spec fn sub_req(self, r: T) -> bool {
        self.g.sub_req(r) && self.r.sub_req(r) && self.b.sub_req(r)
    }

    /// The same `r` for every channel.
    open spec fn sub_spec(self, r: T) -> GRB<T> {
        GRB {
            g: self.g.sub_spec(r),
            r: self.r.sub_spec(r),
            b: self.b.sub_spec(r),
        }
    }
}

/// `px - 1`
impl<T: Copy + Sub<Output = T>> Sub<T> for GRB<T> {
    type Output = GRB<T>;

    /// Asks that `self.sub_req(r)` holds.
    fn sub(self, r: T) -> (difference: GRB<T>)
        ensures
            T::obeys_sub_spec() ==> difference.g == self.g.sub_spec(r),
            T::obeys_sub_spec() ==> difference.r == self.r.sub_spec(r),
            T::obeys_sub_spec() ==> difference.b == self.b.sub_spec(r),
    {
        let per_channel = |l: T| -> (o: T)
            requires
                l.sub_req(r),
            ensures
                T::obeys_sub_spec() ==> o == l.sub_spec(r),
            {
                l - r
            };
        self.map(per_channel)
    }
}

/// `px -= 1`
impl<T: Copy + Sub<Output = T>> SubAssign<T> for GRB<T> {
    fn sub_assign(&mut self, r: T)
        requires
            old(self).sub_req(r),
        ensures
            T::obeys_sub_spec() ==> *final(self) == old(self).sub_spec(r),
    {
        let per_channel = |l: T| -> (o: T)
            requires
                l.sub_req(r),
            ensures
                T::obeys_sub_spec() ==> o == l.sub_spec(r),
            {
                l - r
            };
        *self = self.map(per_channel);
    }
}

impl<T: Copy + Add<Output = T>> vstd::std_specs::ops::AddSpecImpl<T> for GRB<T> {
    open spec fn obeys_add_spec() -> bool {
        T::obeys_add_spec()
    }

    open spec fn add_req(self, r: T) -> bool {
        self.g.add_req(r) && self.r.add_req(r) && self.b.add_req(r)
    }

    /// The same `r` for every channel.
    open spec fn add_spec(self, r: T) -> GRB<T> {
        GRB {
            g: self.g.add_spec(r),
            r: self.r.add_spec(r),
            b: self.b.add_spec(r),
        }
    }
}

/// `px + 1`
impl<T: Copy + Add<Output = T>> Add<T> for GRB<T> {
    type Output = GRB<T>;

    /// Asks that `self.add_req(r)` holds.
    fn add(self, r: T) -> (sum: GRB<T>)
        ensures
            T::obeys_add_spec() ==> sum.g == self.g.add_spec(r),
            T::obeys_add_spec() ==> sum.r == self.r.add_spec(r),
            T::obeys_add_spec() ==> sum.b == self.b.add_spec(r),
    {
        let per_channel = |l: T| -> (o: T)
            requires
                l.add_req(r),
            ensures
                T::obeys_add_spec() ==> o == l.add_spec(r),
            {
                l + r
            };
        self.map(per_channel)
    }
}

/// `px += 1`
impl<T: Copy + Add<Output = T>> AddAssign<T> for GRB<T> {
    fn add_assign(&mut self, r: T)
        requires
            old(self).add_req(r),
        ensures
            T::obeys_add_spec() ==> *final(self) == old(self).add_spec(r),
    {
        let per_channel = |l: T| -> (o: T)
            requires
                l.add_req(r),
            ensures
                T::obeys_add_spec() ==> o == l.add_spec(r),
            {
                l + r
            };
        *self = self.map(per_channel);
    }
}

impl<T: Copy + Mul<Output = T>> vstd::std_specs::ops::MulSpecImpl<T> for GRB<T> {
    open spec fn obeys_mul_spec() -> bool {
        T::obeys_mul_spec()
    }

    open spec fn mul_req(self, r: T) -> bool {
        self.g.mul_req(r) && self.r.mul_req(r) && self.b.mul_req(r)
    }

    /// The same `r` for every channel.
    open spec fn mul_spec(self, r: T) -> GRB<T> {
        GRB {
            g: self.g.mul_spec(r),
            r: self.r.mul_spec(r),
            b: self.b.mul_spec(r),
        }
    }
}

/// `px * 1`
impl<T: Copy + Mul<Output = T>> Mul<T> for GRB<T> {
    type Output = GRB<T>;

    /// Asks that `self.mul_req(r)` holds.
    fn mul(self, r: T) -> (product: GRB<T>)
        ensures
            T::obeys_mul_spec() ==> product.g == self.g.mul_spec(r),
            T::obeys_mul_spec() ==> product.r == self.r.mul_spec(r),
            T::obeys_mul_spec() ==> product.b == self.b.mul_spec(r),
    {
        let per_channel = |l: T| -> (o: T)
            requires
                l.mul_req(r),
            ensures
                T::obeys_mul_spec() ==> o == l.mul_spec(r),
            {
                l * r
            };
        self.map(per_channel)
    }
}

/// `px *= 1`
impl<T: Copy + Mul<Output = T>> MulAssign<T> for GRB<T> {
    fn mul_assign(&mut self, r: T)
        requires
            old(self).mul_req(r),
        ensures
            T::obeys_mul_spec() ==> *final(self) == old(self).mul_spec(r),
    {
        let per_channel = |l: T| -> (o: T)
            requires
                l.mul_req(r),
            ensures
                T::obeys_mul_spec() ==> o == l.mul_spec(r),
            {
                l * r
            };
        *self = self.map(per_channel);
    }
}

impl<T: Copy + Div<Output = T>> vstd::std_specs::ops::DivSpecImpl<T> for GRB<T> {
    open spec fn obeys_div_spec() -> bool {
        T::obeys_div_spec()
    }

    open spec fn div_req(self, r: T) -> bool {
        self.g.div_req(r) && self.r.div_req(r) && self.b.div_req(r)
    }

    /// The same `r` for every channel.
    open spec fn div_spec(self, r: T) -> GRB<T> {
        GRB {
            g: self.g.div_spec(r),
            r: self.r.div_spec(r),
            b: self.b.div_spec(r),
        }
    }
}

/// `px / 1`
impl<T: Copy + Div<Output = T>> Div<T> for GRB<T> {
    type Output = GRB<T>;

    /// Asks that `self.div_req(r)` holds.
    fn div(self, r: T) -> (quotient: GRB<T>)
        ensures
            T::obeys_div_spec() ==> quotient.g == self.g.div_spec(r),
            T::obeys_div_spec() ==> quotient.r == self.r.div_spec(r),
            T::obeys_div_spec() ==> quotient.b == self.b.div_spec(r),
    {
        let per_channel = |l: T| -> (o: T)
            requires
                l.div_req(r),
            ensures
                T::obeys_div_spec() ==> o == l.div_spec(r),
            {
                l / r
            };
        self.map(per_channel)
    }
}

/// `px /= 1`
impl<T: Copy + Div<Output = T>> DivAssign<T> for GRB<T> {
    fn div_assign(&mut self, r: T)
        requires
            old(self).div_req(r),
        ensures
            T::obeys_div_spec() ==> *final(self) == old(self).div_spec(r),
    {
        let per_channel = |l: T| -> (o: T)
            requires
                l.div_req(r),
            ensures
                T::obeys_div_spec() ==> o == l.div_spec(r),
            {
                l / r
            };
        *self = self.map(per_channel);
    }
}

impl<T: Copy + Sub<Output = T>> vstd::std_specs::ops::SubSpecImpl<T> for Gray<T> {
    open spec fn obeys_sub_spec() -> bool {
        T::obeys_sub_spec()
    }

    open spec fn sub_req(self, r: T) -> bool {
        self.0.sub_req(r)
    }

    /// The same `r` for every channel.
    open spec fn sub_spec(self, r: T) -> Gray<T> {
        Gray(
            self.0.sub_spec(r),
        )
    }
}

/// `px - 1`
impl<T: Copy + Sub<Output = T>> Sub<T> for Gray<T> {
    type Output = Gray<T>;

    /// Asks that `self.sub_req(r)` holds.
    fn sub(self, r: T) -> (difference: Gray<T>)
        ensures
            T::obeys_sub_spec() ==> difference.0 == self.0.sub_spec(r),
    {
        let per_channel = |l: T| -> (o: T)
            requires
                l.sub_req(r),
            ensures
                T::obeys_sub_spec() ==> o == l.sub_spec(r),
            {
                l - r
            };
        self.map(per_channel)
    }
}

/// `px -= 1`
impl<T: Copy + Sub<Output = T>> SubAssign<T> for Gray<T> {
    fn sub_assign(&mut self, r: T)
        requires
            old(self).sub_req(r),
        ensures
            T::obeys_sub_spec() ==> *final(self) == old(self).sub_spec(r),
    {
        let per_channel = |l: T| -> (o: T)
            requires
                l.sub_req(r),
            ensures
                T::obeys_sub_spec() ==> o == l.sub_spec(r),
            {
                l - r
            };
        *self = self.map(per_channel);
    }
}

impl<T: Copy + Add<Output = T>> vstd::std_specs::ops::AddSpecImpl<T> for Gray<T> {
    open spec fn obeys_add_spec() -> bool {
        T::obeys_add_spec()
    }

    open spec fn add_req(self, r: T) -> bool {
        self.0.add_req(r)
    }

    /// The same `r` for every channel.
    open spec fn add_spec(self, r: T) -> Gray<T> {
        Gray(
            self.0.add_spec(r),
        )
    }
}

/// `px + 1`
impl<T: Copy + Add<Output = T>> Add<T> for Gray<T> {
    type Output = Gray<T>;

    /// Asks that `self.add_req(r)` holds.
    fn add(self, r: T) -> (sum: Gray<T>)
        ensures
            T::obeys_add_spec() ==> sum.0 == self.0.add_spec(r),
    {
        let per_channel = |l: T| -> (o: T)
            requires
                l.add_req(r),
            ensures
                T::obeys_add_spec() ==> o == l.add_spec(r),
            {
                l + r
            };
        self.map(per_channel)
    }
}

/// `px += 1`
impl<T: Copy + Add<Output = T>> AddAssign<T> for Gray<T> {
    fn add_assign(&mut self, r: T)
        requires
            old(self).add_req(r),
        ensures
            T::obeys_add_spec() ==> *final(self) == old(self).add_spec(r),
    {
        let per_channel = |l: T| -> (o: T)
            requires
                l.add_req(r),
            ensures
                T::obeys_add_spec() ==> o == l.add_spec(r),
            {
                l + r
            };
        *self = self.map(per_channel);
    }
}

impl<T: Copy + Mul<Output = T>> vstd::std_specs::ops::MulSpecImpl<T> for Gray<T> {
    open spec fn obeys_mul_spec() -> bool {
        T::obeys_mul_spec()
    }

    open spec fn mul_req(self, r: T) -> bool {
        self.0.mul_req(r)
    }

    /// The same `r` for every channel.
    open spec fn mul_spec(self, r: T) -> Gray<T> {
        Gray(
            self.0.mul_spec(r),
        )
    }
}

/// `px * 1`
impl<T: Copy + Mul<Output = T>> Mul<T> for Gray<T> {
    type Output = Gray<T>;

    /// Asks that `self.mul_req(r)` holds.
    fn mul(self, r: T) -> (product: Gray<T>)
        ensures
            T::obeys_mul_spec() ==> product.0 == self.0.mul_spec(r),
    {
        let per_channel = |l: T| -> (o: T)
            requires
                l.mul_req(r),
            ensures
                T::obeys_mul_spec() ==> o == l.mul_spec(r),
            {
                l * r
            };
        self.map(per_channel)
    }
}

/// `px *= 1`
impl<T: Copy + Mul<Output = T>> MulAssign<T> for Gray<T> {
    fn mul_assign(&mut self, r: T)
        requires
            old(self).mul_req(r),
        ensures
            T::obeys_mul_spec() ==> *final(self) == old(self).mul_spec(r),
    {
        let per_channel = |l: T| -> (o: T)
            requires
                l.mul_req(r),
            ensures
                T::obeys_mul_spec() ==> o == l.mul_spec(r),
            {
                l * r
            };
        *self = self.map(per_channel);
    }
}

impl<T: Copy + Div<Output = T>> vstd::std_specs::ops::DivSpecImpl<T> for Gray<T> {
    open spec fn obeys_div_spec() -> bool {
        T::obeys_div_spec()
    }

    open spec fn div_req(self, r: T) -> bool {
        self.0.div_req(r)
    }

    /// The same `r` for every channel.
    open spec fn div_spec(self, r: T) -> Gray<T> {
        Gray(
            self.0.div_spec(r),
        )
    }
}

/// `px / 1`
impl<T: Copy + Div<Output = T>> Div<T> for Gray<T> {
    type Output = Gray<T>;

    /// Asks that `self.div_req(r)` holds.
    fn div(self, r: T) -> (quotient: Gray<T>)
        ensures
            T::obeys_div_spec() ==> quotient.0 == self.0.div_spec(r),
    {
        let per_channel = |l: T| -> (o: T)
            requires
                l.div_req(r),
            ensures
                T::obeys_div_spec() ==> o == l.div_spec(r),
            {
                l / r
            };
        self.map(per_channel)
    }
}

/// `px /= 1`
impl<T: Copy + Div<Output = T>> DivAssign<T> for Gray<T> {
    fn div_assign(&mut self, r: T)
        requires
            old(self).div_req(r),
        ensures
            T::obeys_div_spec() ==> *final(self) == old(self).div_spec(r),
    {
        let per_channel = |l: T| -> (o: T)
            requires
                l.div_req(r),
            ensures
                T::obeys_div_spec() ==> o == l.div_spec(r),
            {
                l / r
            };
        *self = self.map(per_channel);
    }
}

impl<T: Copy + Sub<Output = T>> vstd::std_specs::ops::SubSpecImpl<T> for GrayAlpha<T> {
    open spec fn obeys_sub_spec() -> bool {
        T::obeys_sub_spec()
    }

    open spec fn sub_req(self, r: T) -> bool {
        self.0.sub_req(r) && self.1.sub_req(r)
    }

    /// The same `r` for every channel.
    open spec fn sub_spec(self, r: T) -> GrayAlpha<T> {
        GrayAlpha(
            self.0.sub_spec(r),
            self.1.sub_spec(r),
        )
    }
}

/// `px - 1`
impl<T: Copy + Sub<Output = T>> Sub<T> for GrayAlpha<T> {
    type Output = GrayAlpha<T>;

    /// Asks that `self.sub_req(r)` holds.
    fn sub(self, r: T) -> (difference: GrayAlpha<T>)
        ensures
            T::obeys_sub_spec() ==> difference.0 == self.0.sub_spec(r),
            T::obeys_sub_spec() ==> difference.1 == self.1.sub_spec(r),
    {
        let per_channel = |l: T| -> (o: T)
            requires
                l.sub_req(r),
            ensures
                T::obeys_sub_spec() ==> o == l.sub_spec(r),
            {
                l - r
            };
        self.map(per_channel)
    }
}

/// `px -= 1`
impl<T: Copy + Sub<Output = T>> SubAssign<T> for GrayAlpha<T> {
    fn sub_assign(&mut self, r: T)
        requires
            old(self).sub_req(r),
        ensures
            T::obeys_sub_spec() ==> *final(self) == old(self).sub_spec(r),
    {
        let per_channel = |l: T| -> (o: T)
            requires
                l.sub_req(r),
            ensures
                T::obeys_sub_spec() ==> o == l.sub_spec(r),
            {
                l - r
            };
        *self = self.map(per_channel);
    }
}

impl<T: Copy + Add<Output = T>> vstd::std_specs::ops::AddSpecImpl<T> for GrayAlpha<T> {
    open spec fn obeys_add_spec() -> bool {
        T::obeys_add_spec()
    }

    open spec fn add_req(self, r: T) -> bool {
        self.0.add_req(r) && self.1.add_req(r)
    }

    /// The same `r` for every channel.
    open spec fn add_spec(self, r: T) -> GrayAlpha<T> {
        GrayAlpha(
            self.0.add_spec(r),
            self.1.add_spec(r),
        )
    }
}

/// `px + 1`
impl<T: Copy + Add<Output = T>> Add<T> for GrayAlpha<T> {
    type Output = GrayAlpha<T>;

    /// Asks that `self.add_req(r)` holds.
    fn add(self, r: T) -> (sum: GrayAlpha<T>)
        ensures
            T::obeys_add_spec() ==> sum.0 == self.0.add_spec(r),
            T::obeys_add_spec() ==> sum.1 == self.1.add_spec(r),
    {
        let per_channel = |l: T| -> (o: T)
            requires
                l.add_req(r),
            ensures
                T::obeys_add_spec() ==> o == l.add_spec(r),
            {
                l + r
            };
        self.map(per_channel)
    }
}

/// `px += 1`
impl<T: Copy + Add<Output = T>> AddAssign<T> for GrayAlpha<T> {
    fn add_assign(&mut self, r: T)
        requires
            old(self).add_req(r),
        ensures
            T::obeys_add_spec() ==> *final(self) == old(self).add_spec(r),
    {
        let per_channel = |l: T| -> (o: T)
            requires
                l.add_req(r),
            ensures
                T::obeys_add_spec() ==> o == l.add_spec(r),
            {
                l + r
            };
        *self = self.map(per_channel);
    }
}

impl<T: Copy + Mul<Output = T>> vstd::std_specs::ops::MulSpecImpl<T> for GrayAlpha<T> {
    open spec fn obeys_mul_spec() -> bool {
        T::obeys_mul_spec()
    }

    open spec fn mul_req(self, r: T) -> bool {
        self.0.mul_req(r) && self.1.mul_req(r)
    }

    /// The same `r` for every channel.
    open spec fn mul_spec(self, r: T) -> GrayAlpha<T> {
        GrayAlpha(
            self.0.mul_spec(r),
            self.1.mul_spec(r),
        )
    }
}

/// `px * 1`
impl<T: Copy + Mul<Output = T>> Mul<T> for GrayAlpha<T> {
    type Output = GrayAlpha<T>;

    /// Asks that `self.mul_req(r)` holds.
    fn mul(self, r: T) -> (product: GrayAlpha<T>)
        ensures
            T::obeys_mul_spec() ==> product.0 == self.0.mul_spec(r),
            T::obeys_mul_spec() ==> product.1 == self.1.mul_spec(r),
    {
        let per_channel = |l: T| -> (o: T)
            requires
                l.mul_req(r),
            ensures
                T::obeys_mul_spec() ==> o == l.mul_spec(r),
            {
                l * r
            };
        self.map(per_channel)
    }
}

/// `px *= 1`
impl<T: Copy + Mul<Output = T>> MulAssign<T> for GrayAlpha<T> {
    fn mul_assign(&mut self, r: T)
        requires
            old(self).mul_req(r),
        ensures
            T::obeys_mul_spec() ==> *final(self) == old(self).mul_spec(r),
    {
        let per_channel = |l: T| -> (o: T)
            requires
                l.mul_req(r),
            ensures
                T::obeys_mul_spec() ==> o == l.mul_spec(r),
            {
                l * r
            };
        *self = self.map(per_channel);
    }
}

impl<T: Copy + Div<Output = T>> vstd::std_specs::ops::DivSpecImpl<T> for GrayAlpha<T> {
    open spec fn obeys_div_spec() -> bool {
        T::obeys_div_spec()
    }

    open spec fn div_req(self, r: T) -> bool {
        self.0.div_req(r) && self.1.div_req(r)
    }

    /// The same `r` for every channel.
    open spec fn div_spec(self, r: T) -> GrayAlpha<T> {
        GrayAlpha(
            self.0.div_spec(r),
            self.1.div_spec(r),
        )
    }
}

/// `px / 1`
impl<T: Copy + Div<Output = T>> Div<T> for GrayAlpha<T> {
    type Output = GrayAlpha<T>;

    /// Asks that `self.div_req(r)` holds.
    fn div(self, r: T) -> (quotient: GrayAlpha<T>)
        ensures
            T::obeys_div_spec() ==> quotient.0 == self.0.div_spec(r),
            T::obeys_div_spec() ==> quotient.1 == self.1.div_spec(r),
    {
        let per_channel = |l: T| -> (o: T)
            requires
                l.div_req(r),
            ensures
                T::obeys_div_spec() ==> o == l.div_spec(r),
            {
                l / r
            };
        self.map(per_channel)
    }
}

/// `px /= 1`
impl<T: Copy + Div<Output = T>> DivAssign<T> for GrayAlpha<T> {
    fn div_assign(&mut self, r: T)
        requires
            old(self).div_req(r),
        ensures
            T::obeys_div_spec() ==> *final(self) == old(self).div_spec(r),
    {
        let per_channel = |l: T| -> (o: T)
            requires
                l.div_req(r),
            ensures
                T::obeys_div_spec() ==> o == l.div_spec(r),
            {
                l / r
            };
        *self = self.map(per_channel);
    }
}

} // verus!
