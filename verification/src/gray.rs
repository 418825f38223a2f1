//! The grayscale pixels: constructors, accessors, flat views and channel maps.
use vstd::prelude::*;
use crate::bytes::Plain;
use crate::pixel::ColorComponentMap;
use crate::pixel::ComponentBytes;
use crate::pixel::ComponentMap;
use crate::pixel::ComponentSlice;
use crate::alt::Gray;
use crate::alt::GrayAlpha;

verus! {

impl<T> Gray<T> {
    /// Builds a pixel from its channels, given in the declared order:
    /// brightness.
    pub fn new(brightness: T) -> (px: Self)
        ensures
            px == (Gray(brightness)),
    {
        Gray(brightness)
    }
}

impl<T> core::ops::Deref for Gray<T> {
    type Target = T;

    /// The brightness.
    fn deref(&self) -> (brightness: &T)
        ensures
            *brightness == self.0,
    {
        &self.0
    }
}

impl<T: Default> Gray<T> {
    /// Whether each channel is a value that `default()` of its scalar type may
    /// return. For the integer types that value is 0.
    pub open spec fn is_zero(self) -> bool {
        call_ensures(T::default, (), self.0)
    }
}

impl<T: Default> Default for Gray<T> {
    /// The all-zero pixel.
    fn default() -> (px: Self)
        ensures
            px.is_zero(),
    {
        Gray(T::default())
    }
}

impl<T, TA> GrayAlpha<T, TA> {
    /// Builds a pixel from its channels, given in the declared order:
    /// brightness, alpha.
    pub fn new(brightness: T, alpha: TA) -> (px: Self)
        ensures
            px == (GrayAlpha(brightness, alpha)),
    {
        GrayAlpha(brightness, alpha)
    }
}

impl<T: Clone, TA> GrayAlpha<T, TA> {
    /// The brightness, cloned, as a pixel without alpha.
    pub fn gray(&self) -> (px: Gray<T>)
        ensures
            cloned(self.0, px.0),
    {
        Gray(self.0.clone())
    }
}

impl<T, TA> GrayAlpha<T, TA> {
    /// Borrows the brightness mutably and leaves alpha out: what is written
    /// through the result becomes the brightness, and alpha stays.
    pub fn gray_mut(&mut self) -> (brightness: &mut T)
        ensures
            *brightness == old(self).0,
            *final(self) == GrayAlpha(*final(brightness), old(self).1),
    {
        &mut self.0
    }
}

impl<T: Copy, TA: Clone> GrayAlpha<T, TA> {
    /// The pixel with the same brightness and the alpha `alpha`.
    pub fn alpha(&self, alpha: TA) -> (px: Self)
        ensures
            px == GrayAlpha(self.0, alpha),
    {
        GrayAlpha(self.0, alpha)
    }

    /// The pixel with the same brightness and the alpha that `f` makes of a
    /// clone of this pixel's alpha.
    pub fn map_alpha<F, B>(&self, f: F) -> (px: GrayAlpha<T, B>)
        where F: FnOnce(TA) -> B
        requires
            forall|a: TA| cloned(self.1, a) ==> call_requires(f, (a,)),
        ensures
            px.0 == self.0,
            exists|a: TA| cloned(self.1, a) && call_ensures(f, (a,), px.1),
    {
        let alpha = self.1.clone();
        assert(cloned(self.1, alpha));
        GrayAlpha(self.0, f(alpha))
    }

    /// The pixel with the brightness that `f` makes of this pixel's brightness
    /// and a clone of this pixel's alpha, converted to `B`.
    pub fn map_gray<F, U, B>(&self, f: F) -> (px: GrayAlpha<U, B>)
        where F: FnOnce(T) -> U, U: Clone, B: From<TA> + Clone
        requires
            call_requires(f, (self.0,)),
        ensures
            call_ensures(f, (self.0,), px.0),
            exists|a: TA| cloned(self.1, a) && call_ensures(B::from, (a,), px.1),
    {
        let alpha = self.1.clone();
        assert(cloned(self.1, alpha));
        GrayAlpha(f(self.0), alpha.into())
    }
}

impl<T: Default, A: Default> GrayAlpha<T, A> {
    /// Whether each channel is a value that `default()` of its scalar type may
    /// return. For the integer types that value is 0.
    pub open spec fn is_zero(self) -> bool {
        call_ensures(T::default, (), self.0)
            && call_ensures(A::default, (), self.1)
    }
}

impl<T: Default, A: Default> Default for GrayAlpha<T, A> {
    /// The all-zero pixel.
    fn default() -> (px: Self)
        ensures
            px.is_zero(),
    {
        GrayAlpha(T::default(), A::default())
    }
}

impl<T> ComponentSlice<T> for Gray<T> {
    open spec fn components(&self) -> Seq<T> {
        seq![self.0]
    }

    fn as_slice(&self) -> (flat: Vec<T>)
        where T: Copy
    {
        let mut flat = Vec::new();
        flat.push(self.0);
        assert(flat@ =~= self.components());
        flat
    }

    fn as_mut_slice(&mut self) -> (flat: Vec<&mut T>) {
        let mut flat: Vec<&mut T> = Vec::new();
        flat.push(&mut self.0);
        flat
    }
}

impl<T> ComponentSlice<T> for [Gray<T>] {
    /// Channel `k` of the flat view is the one channel of pixel `k`.
    open spec fn components(&self) -> Seq<T> {
        Seq::new(self@.len(), |k: int| self@[k].components()[0])
    }

    fn as_slice(&self) -> (flat: Vec<T>)
        where T: Copy
        ensures
            flat@.len() == self@.len(),
            forall|k: int| 0 <= k < flat@.len() ==> flat@[k] == self@[k].components()[0],
    {
        let mut flat = Vec::new();
        let mut i: usize = 0;
        while i < self.len()
            invariant
                i <= self@.len(),
                flat@.len() == i,
                forall|k: int| 0 <= k < flat@.len() ==> flat@[k] == self@[k].components()[0],
            decreases self@.len() - i,
        {
            flat.push(self[i].0);
            i += 1;
        }
        assert(flat@ =~= self.components());
        flat
    }

    fn as_mut_slice(&mut self) -> (flat: Vec<&mut T>) {
        let ghost before = old(self)@;
        let ghost after = final(self)@;
        let ghost mut done: int = 0;
        let mut flat: Vec<&mut T> = Vec::new();
        let mut rest = self;
        while rest.len() > 0
            invariant
                0 <= done <= before.len(),
                rest@ == before.subrange(done, before.len() as int),
                flat@.len() == done,
                forall|k: int| 0 <= k < flat@.len() ==> *#[trigger] flat@[k] == before[k].components()[0],
                after == Seq::new(
                    done as nat,
                    |j: int|
                        Gray(*final(flat@[j])),
                ) + final(rest)@,
            decreases rest@.len(),
        {
            let (head, tail) = rest.split_at_mut(1);
            let px = &mut head[0];
            flat.push(&mut px.0);
            rest = tail;
            proof {
                done = done + 1;
            }
        }
        proof {
            assert(after.len() == before.len());
            assert forall|k: int| 0 <= k < flat@.len() implies after[k].components()[0]
                == *final(#[trigger] flat@[k]) by {
                assert(after[k] == Gray(*final(flat@[k])));
            }
        }
        flat
    }
}

impl<T: Plain> ComponentBytes<T> for [Gray<T>] {
}

impl<T: Copy, B> ComponentMap<Gray<B>, T, B> for Gray<T> {
    fn map<F>(&self, mut f: F) -> (out: Gray<B>)
        where F: FnMut(T) -> B
        ensures
            call_ensures(f, (self.0,), out.0),
    {
        assert(self.components()[0] == self.0);
        Gray(f(self.0))
    }
}

impl<T: Copy, B> ColorComponentMap<Gray<B>, T, B> for Gray<T> {
    open spec fn colors(&self) -> Seq<T> {
        seq![self.0]
    }

    open spec fn mapped_colors(out: Gray<B>) -> Seq<B> {
        seq![out.0]
    }

    open spec fn keeps_alpha(&self, out: Gray<B>) -> bool {
        true
    }

    fn map_c<F>(&self, mut f: F) -> (out: Gray<B>)
        where F: FnMut(T) -> B
        ensures
            call_ensures(f, (self.0,), out.0),
    {
        proof {
            let src = <Gray<T> as ColorComponentMap<Gray<B>, T, B>>::colors(self);
            assert(src[0] == self.0);
        }
        Gray(f(self.0))
    }
}

impl<T> ComponentSlice<T> for GrayAlpha<T> {
    open spec fn components(&self) -> Seq<T> {
        seq![self.0, self.1]
    }

    fn as_slice(&self) -> (flat: Vec<T>)
        where T: Copy
    {
        let mut flat = Vec::new();
        flat.push(self.0);
        flat.push(self.1);
        assert(flat@ =~= self.components());
        flat
    }

    fn as_mut_slice(&mut self) -> (flat: Vec<&mut T>) {
        let mut flat: Vec<&mut T> = Vec::new();
        flat.push(&mut self.0);
        flat.push(&mut self.1);
        flat
    }
}

impl<T> ComponentSlice<T> for [GrayAlpha<T>] {
    /// Channel `k` of the flat view is channel `k % 2` of pixel `k / 2`.
    open spec fn components(&self) -> Seq<T> {
        Seq::new(self@.len() * 2, |k: int| self@[k / 2].components()[k % 2])
    }

    fn as_slice(&self) -> (flat: Vec<T>)
        where T: Copy
        ensures
            flat@.len() == self@.len() * 2,
            forall|k: int| 0 <= k < flat@.len() ==> flat@[k] == self@[k / 2].components()[k % 2],
    {
        let mut flat = Vec::new();
        let mut i: usize = 0;
        while i < self.len()
            invariant
                i <= self@.len(),
                flat@.len() == i * 2,
                forall|k: int| 0 <= k < flat@.len() ==> flat@[k] == self@[k / 2].components()[k % 2],
            decreases self@.len() - i,
        {
            flat.push(self[i].0);
            flat.push(self[i].1);
            i += 1;
        }
        assert(flat@ =~= self.components());
        flat
    }

    fn as_mut_slice(&mut self) -> (flat: Vec<&mut T>) {
        let ghost before = old(self)@;
        let ghost after = final(self)@;
        let ghost mut done: int = 0;
        let mut flat: Vec<&mut T> = Vec::new();
        let mut rest = self;
        while rest.len() > 0
            invariant
                0 <= done <= before.len(),
                rest@ == before.subrange(done, before.len() as int),
                flat@.len() == done * 2,
                forall|k: int| 0 <= k < flat@.len() ==> *#[trigger] flat@[k] == before[k / 2].components()[k % 2],
                after == Seq::new(
                    done as nat,
                    |j: int|
                        GrayAlpha(
                            *final(flat@[2 * j]),
                            *final(flat@[2 * j + 1]),
                        ),
                ) + final(rest)@,
            decreases rest@.len(),
        {
            let (head, tail) = rest.split_at_mut(1);
            let px = &mut head[0];
            flat.push(&mut px.0);
            flat.push(&mut px.1);
            rest = tail;
            proof {
                done = done + 1;
            }
        }
        proof {
            assert(after.len() == before.len());
            assert forall|k: int| 0 <= k < flat@.len() implies after[k / 2].components()[k % 2]
                == *final(#[trigger] flat@[k]) by {
                let j = k / 2;
                assert(after[j] == GrayAlpha(
                    *final(flat@[2 * j]),
                    *final(flat@[2 * j + 1]),
                ));
            }
        }
        flat
    }
}

impl<T: Plain> ComponentBytes<T> for [GrayAlpha<T>] {
}

impl<T: Copy, B> ComponentMap<GrayAlpha<B>, T, B> for GrayAlpha<T> {
    fn map<F>(&self, mut f: F) -> (out: GrayAlpha<B>)
        where F: FnMut(T) -> B
        ensures
            call_ensures(f, (self.0,), out.0),
            call_ensures(f, (self.1,), out.1),
    {
        assert(self.components()[0] == self.0 && self.components()[1] == self.1);
        GrayAlpha(f(self.0), f(self.1))
    }
}

impl<T: Copy, A: Copy, B> ColorComponentMap<GrayAlpha<B, A>, T, B> for GrayAlpha<T, A> {
    open spec fn colors(&self) -> Seq<T> {
        seq![self.0]
    }

    open spec fn mapped_colors(out: GrayAlpha<B, A>) -> Seq<B> {
        seq![out.0]
    }

    open spec fn keeps_alpha(&self, out: GrayAlpha<B, A>) -> bool {
        out.1 == self.1
    }

    fn map_c<F>(&self, mut f: F) -> (out: GrayAlpha<B, A>)
        where F: FnMut(T) -> B
        ensures
            call_ensures(f, (self.0,), out.0),
            out.1 == self.1,
    {
        proof {
            let src = <GrayAlpha<T, A> as ColorComponentMap<GrayAlpha<B, A>, T, B>>::colors(self);
            assert(src[0] == self.0);
        }
        GrayAlpha(f(self.0), self.1)
    }
}

} // verus!
