//! The pixels of three colour channels and alpha: constructors, flat views and
//! channel maps.
use vstd::prelude::*;
use crate::bytes::Plain;
use crate::pixel::ColorComponentMap;
use crate::pixel::ComponentBytes;
use crate::pixel::ComponentMap;
use crate::pixel::ComponentSlice;
use crate::alt::ABGR;
use crate::alt::ARGB;
use crate::alt::BGRA;
use crate::RGBA;

verus! {

impl<T, A> RGBA<T, A> {
    /// Builds a pixel from its channels, given in the declared order:
    /// red, green, blue, alpha.
    pub fn new(r: T, g: T, b: T, a: A) -> (px: Self)
        ensures
            px == (RGBA { r, g, b, a }),
    {
        RGBA { r, g, b, a }
    }
}

impl<T: Default, A: Default> RGBA<T, A> {
    /// Whether each channel is a value that `default()` of its scalar type may
    /// return. For the integer types that value is 0.
    pub open spec fn is_zero(self) -> bool {
        call_ensures(T::default, (), self.r)
            && call_ensures(T::default, (), self.g)
            && call_ensures(T::default, (), self.b)
            && call_ensures(A::default, (), self.a)
    }
}

impl<T: Default, A: Default> Default for RGBA<T, A> {
    /// The all-zero pixel.
    fn default() -> (px: Self)
        ensures
            px.is_zero(),
    {
        RGBA { r: T::default(), g: T::default(), b: T::default(), a: A::default() }
    }
}

impl<T> ComponentSlice<T> for RGBA<T> {
    open spec fn components(&self) -> Seq<T> {
        seq![self.r, self.g, self.b, self.a]
    }

    fn as_slice(&self) -> (flat: Vec<T>)
        where T: Copy
    {
        let mut flat = Vec::new();
        flat.push(self.r);
        flat.push(self.g);
        flat.push(self.b);
        flat.push(self.a);
        assert(flat@ =~= self.components());
        flat
    }

    fn as_mut_slice(&mut self) -> (flat: Vec<&mut T>) {
        let mut flat: Vec<&mut T> = Vec::new();
        flat.push(&mut self.r);
        flat.push(&mut self.g);
        flat.push(&mut self.b);
        flat.push(&mut self.a);
        flat
    }
}

impl<T> ComponentSlice<T> for [RGBA<T>] {
    /// Channel `k` of the flat view is channel `k % 4` of pixel `k / 4`.
    open spec fn components(&self) -> Seq<T> {
        Seq::new(self@.len() * 4, |k: int| self@[k / 4].components()[k % 4])
    }

    fn as_slice(&self) -> (flat: Vec<T>)
        where T: Copy
        ensures
            flat@.len() == self@.len() * 4,
            forall|k: int| 0 <= k < flat@.len() ==> flat@[k] == self@[k / 4].components()[k % 4],
    {
        let mut flat = Vec::new();
        let mut i: usize = 0;
        while i < self.len()
            invariant
                i <= self@.len(),
                flat@.len() == i * 4,
                forall|k: int| 0 <= k < flat@.len() ==> flat@[k] == self@[k / 4].components()[k % 4],
            decreases self@.len() - i,
        {
            flat.push(self[i].r);
            flat.push(self[i].g);
            flat.push(self[i].b);
            flat.push(self[i].a);
            i += 1;
        }
        assert(flat@ =~= self.components());
        flat
    }

    fn as_mut_slice(&mut self) -> (flat: Vec<&mut T>) {
        let ghost before = old(self)@;
        let ghost after = final(self)@;
        let ghost mut done: int = 0;
        let mut flat: Vec<&mut T> = Vec::new();
        let mut rest = self;
        while rest.len() > 0
            invariant
                0 <= done <= before.len(),
                rest@ == before.subrange(done, before.len() as int),
                flat@.len() == done * 4,
                forall|k: int| 0 <= k < flat@.len() ==> *#[trigger] flat@[k] == before[k / 4].components()[k % 4],
                after == Seq::new(
                    done as nat,
                    |j: int|
                        RGBA {
                            r: *final(flat@[4 * j]),
                            g: *final(flat@[4 * j + 1]),
                            b: *final(flat@[4 * j + 2]),
                            a: *final(flat@[4 * j + 3]),
                        },
                ) + final(rest)@,
            decreases rest@.len(),
        {
            let (head, tail) = rest.split_at_mut(1);
            let px = &mut head[0];
            flat.push(&mut px.r);
            flat.push(&mut px.g);
            flat.push(&mut px.b);
            flat.push(&mut px.a);
            rest = tail;
            proof {
                done = done + 1;
            }
        }
        proof {
            assert(after.len() == before.len());
            assert forall|k: int| 0 <= k < flat@.len() implies after[k / 4].components()[k % 4]
                == *final(#[trigger] flat@[k]) by {
                let j = k / 4;
                assert(after[j] == RGBA {
                    r: *final(flat@[4 * j]),
                    g: *final(flat@[4 * j + 1]),
                    b: *final(flat@[4 * j + 2]),
                    a: *final(flat@[4 * j + 3]),
                });
            }
        }
        flat
    }
}

impl<T: Plain> ComponentBytes<T> for [RGBA<T>] {
}

impl<T: Copy, B> ComponentMap<RGBA<B>, T, B> for RGBA<T> {
    fn map<F>(&self, mut f: F) -> (out: RGBA<B>)
        where F: FnMut(T) -> B
        ensures
            call_ensures(f, (self.r,), out.r),
            call_ensures(f, (self.g,), out.g),
            call_ensures(f, (self.b,), out.b),
            call_ensures(f, (self.a,), out.a),
    {
        assert(self.components()[0] == self.r && self.components()[1] == self.g && self.components()[2] == self.b && self.components()[3] == self.a);
        RGBA { r: f(self.r), g: f(self.g), b: f(self.b), a: f(self.a) }
    }
}

impl<T: Copy, A: Copy, B> ColorComponentMap<RGBA<B, A>, T, B> for RGBA<T, A> {
    open spec fn colors(&self) -> Seq<T> {
        seq![self.r, self.g, self.b]
    }

    open spec fn mapped_colors(out: RGBA<B, A>) -> Seq<B> {
        seq![out.r, out.g, out.b]
    }

    open spec fn keeps_alpha(&self, out: RGBA<B, A>) -> bool {
        out.a == self.a
    }

    fn map_c<F>(&self, mut f: F) -> (out: RGBA<B, A>)
        where F: FnMut(T) -> B
        ensures
            call_ensures(f, (self.r,), out.r),
            call_ensures(f, (self.g,), out.g),
            call_ensures(f, (self.b,), out.b),
            out.a == self.a,
    {
        proof {
            let src = <RGBA<T, A> as ColorComponentMap<RGBA<B, A>, T, B>>::colors(self);
            assert(src[0] == self.r && src[1] == self.g && src[2] == self.b);
        }
        RGBA { r: f(self.r), g: f(self.g), b: f(self.b), a: self.a }
    }
}

impl<T, A> BGRA<T, A> {
    /// Builds a pixel from its channels, given in the declared order:
    /// blue, green, red, alpha.
    pub fn new(b: T, g: T, r: T, a: A) -> (px: Self)
        ensures
            px == (BGRA { b, g, r, a }),
    {
        BGRA { b, g, r, a }
    }
}

impl<T: Default, A: Default> BGRA<T, A> {
    /// Whether each channel is a value that `default()` of its scalar type may
    /// return. For the integer types that value is 0.
    pub open spec fn is_zero(self) -> bool {
        call_ensures(T::default, (), self.b)
            && call_ensures(T::default, (), self.g)
            && call_ensures(T::default, (), self.r)
            && call_ensures(A::default, (), self.a)
    }
}

impl<T: Default, A: Default> Default for BGRA<T, A> {
    /// The all-zero pixel.
    fn default() -> (px: Self)
        ensures
            px.is_zero(),
    {
        BGRA { b: T::default(), g: T::default(), r: T::default(), a: A::default() }
    }
}

impl<T> ComponentSlice<T> for BGRA<T> {
    open spec fn components(&self) -> Seq<T> {
        seq![self.b, self.g, self.r, self.a]
    }

    fn as_slice(&self) -> (flat: Vec<T>)
        where T: Copy
    {
        let mut flat = Vec::new();
        flat.push(self.b);
        flat.push(self.g);
        flat.push(self.r);
        flat.push(self.a);
        assert(flat@ =~= self.components());
        flat
    }

    fn as_mut_slice(&mut self) -> (flat: Vec<&mut T>) {
        let mut flat: Vec<&mut T> = Vec::new();
        flat.push(&mut self.b);
        flat.push(&mut self.g);
        flat.push(&mut self.r);
        flat.push(&mut self.a);
        flat
    }
}

impl<T> ComponentSlice<T> for [BGRA<T>] {
    /// Channel `k` of the flat view is channel `k % 4` of pixel `k / 4`.
    open spec fn components(&self) -> Seq<T> {
        Seq::new(self@.len() * 4, |k: int| self@[k / 4].components()[k % 4])
    }

    fn as_slice(&self) -> (flat: Vec<T>)
        where T: Copy
        ensures
            flat@.len() == self@.len() * 4,
            forall|k: int| 0 <= k < flat@.len() ==> flat@[k] == self@[k / 4].components()[k % 4],
    {
        let mut flat = Vec::new();
        let mut i: usize = 0;
        while i < self.len()
            invariant
                i <= self@.len(),
                flat@.len() == i * 4,
                forall|k: int| 0 <= k < flat@.len() ==> flat@[k] == self@[k / 4].components()[k % 4],
            decreases self@.len() - i,
        {
            flat.push(self[i].b);
            flat.push(self[i].g);
            flat.push(self[i].r);
            flat.push(self[i].a);
            i += 1;
        }
        assert(flat@ =~= self.components());
        flat
    }

    fn as_mut_slice(&mut self) -> (flat: Vec<&mut T>) {
        let ghost before = old(self)@;
        let ghost after = final(self)@;
        let ghost mut done: int = 0;
        let mut flat: Vec<&mut T> = Vec::new();
        let mut rest = self;
        while rest.len() > 0
            invariant
                0 <= done <= before.len(),
                rest@ == before.subrange(done, before.len() as int),
                flat@.len() == done * 4,
                forall|k: int| 0 <= k < flat@.len() ==> *#[trigger] flat@[k] == before[k / 4].components()[k % 4],
                after == Seq::new(
                    done as nat,
                    |j: int|
                        BGRA {
                            b: *final(flat@[4 * j]),
                            g: *final(flat@[4 * j + 1]),
                            r: *final(flat@[4 * j + 2]),
                            a: *final(flat@[4 * j + 3]),
                        },
                ) + final(rest)@,
            decreases rest@.len(),
        {
            let (head, tail) = rest.split_at_mut(1);
            let px = &mut head[0];
            flat.push(&mut px.b);
            flat.push(&mut px.g);
            flat.push(&mut px.r);
            flat.push(&mut px.a);
            rest = tail;
            proof {
                done = done + 1;
            }
        }
        proof {
            assert(after.len() == before.len());
            assert forall|k: int| 0 <= k < flat@.len() implies after[k / 4].components()[k % 4]
                == *final(#[trigger] flat@[k]) by {
                let j = k / 4;
                assert(after[j] == BGRA {
                    b: *final(flat@[4 * j]),
                    g: *final(flat@[4 * j + 1]),
                    r: *final(flat@[4 * j + 2]),
                    a: *final(flat@[4 * j + 3]),
                });
            }
        }
        flat
    }
}

impl<T: Plain> ComponentBytes<T> for [BGRA<T>] {
}

impl<T: Copy, B> ComponentMap<BGRA<B>, T, B> for BGRA<T> {
    fn map<F>(&self, mut f: F) -> (out: BGRA<B>)
        where F: FnMut(T) -> B
        ensures
            call_ensures(f, (self.b,), out.b),
            call_ensures(f, (self.g,), out.g),
            call_ensures(f, (self.r,), out.r),
            call_ensures(f, (self.a,), out.a),
    {
        assert(self.components()[0] == self.b && self.components()[1] == self.g && self.components()[2] == self.r && self.components()[3] == self.a);
        BGRA { b: f(self.b), g: f(self.g), r: f(self.r), a: f(self.a) }
    }
}

impl<T: Copy, A: Copy, B> ColorComponentMap<BGRA<B, A>, T, B> for BGRA<T, A> {
    open spec fn colors(&self) -> Seq<T> {
        seq![self.b, self.g, self.r]
    }

    open spec fn mapped_colors(out: BGRA<B, A>) -> Seq<B> {
        seq![out.b, out.g, out.r]
    }

    open spec fn keeps_alpha(&self, out: BGRA<B, A>) -> bool {
        out.a == self.a
    }

    fn map_c<F>(&self, mut f: F) -> (out: BGRA<B, A>)
        where F: FnMut(T) -> B
        ensures
            call_ensures(f, (self.b,), out.b),
            call_ensures(f, (self.g,), out.g),
            call_ensures(f, (self.r,), out.r),
            out.a == self.a,
    {
        proof {
            let src = <BGRA<T, A> as ColorComponentMap<BGRA<B, A>, T, B>>::colors(self);
            assert(src[0] == self.b && src[1] == self.g && src[2] == self.r);
        }
        BGRA { b: f(self.b), g: f(self.g), r: f(self.r), a: self.a }
    }
}

impl<T, A> ARGB<T, A> {
    /// Builds a pixel from its channels, given in the declared order:
    /// alpha, red, green, blue.
    pub fn new(a: A, r: T, g: T, b: T) -> (px: Self)
        ensures
            px == (ARGB { a, r, g, b }),
    {
        ARGB { a, r, g, b }
    }
}

impl<T: Default, A: Default> ARGB<T, A> {
    /// Whether each channel is a value that `default()` of its scalar type may
    /// return. For the integer types that value is 0.
    pub open spec fn is_zero(self) -> bool {
        call_ensures(A::default, (), self.a)
            && call_ensures(T::default, (), self.r)
            && call_ensures(T::default, (), self.g)
            && call_ensures(T::default, (), self.b)
    }
}

impl<T: Default, A: Default> Default for ARGB<T, A> {
    /// The all-zero pixel.
    fn default() -> (px: Self)
        ensures
            px.is_zero(),
    {
        ARGB { a: A::default(), r: T::default(), g: T::default(), b: T::default() }
    }
}

impl<T> ComponentSlice<T> for ARGB<T> {
    open spec fn components(&self) -> Seq<T> {
        seq![self.a, self.r, self.g, self.b]
    }

    fn as_slice(&self) -> (flat: Vec<T>)
        where T: Copy
    {
        let mut flat = Vec::new();
        flat.push(self.a);
        flat.push(self.r);
        flat.push(self.g);
        flat.push(self.b);
        assert(flat@ =~= self.components());
        flat
    }

    fn as_mut_slice(&mut self) -> (flat: Vec<&mut T>) {
        let mut flat: Vec<&mut T> = Vec::new();
        flat.push(&mut self.a);
        flat.push(&mut self.r);
        flat.push(&mut self.g);
        flat.push(&mut self.b);
        flat
    }
}

impl<T> ComponentSlice<T> for [ARGB<T>] {
    /// Channel `k` of the flat view is channel `k % 4` of pixel `k / 4`.
    open spec fn components(&self) -> Seq<T> {
        Seq::new(self@.len() * 4, |k: int| self@[k / 4].components()[k % 4])
    }

    fn as_slice(&self) -> (flat: Vec<T>)
        where T: Copy
        ensures
            flat@.len() == self@.len() * 4,
            forall|k: int| 0 <= k < flat@.len() ==> flat@[k] == self@[k / 4].components()[k % 4],
    {
        let mut flat = Vec::new();
        let mut i: usize = 0;
        while i < self.len()
            invariant
                i <= self@.len(),
                flat@.len() == i * 4,
                forall|k: int| 0 <= k < flat@.len() ==> flat@[k] == self@[k / 4].components()[k % 4],
            decreases self@.len() - i,
        {
            flat.push(self[i].a);
            flat.push(self[i].r);
            flat.push(self[i].g);
            flat.push(self[i].b);
            i += 1;
        }
        assert(flat@ =~= self.components());
        flat
    }

    fn as_mut_slice(&mut self) -> (flat: Vec<&mut T>) {
        let ghost before = old(self)@;
        let ghost after = final(self)@;
        let ghost mut done: int = 0;
        let mut flat: Vec<&mut T> = Vec::new();
        let mut rest = self;
        while rest.len() > 0
            invariant
                0 <= done <= before.len(),
                rest@ == before.subrange(done, before.len() as int),
                flat@.len() == done * 4,
                forall|k: int| 0 <= k < flat@.len() ==> *#[trigger] flat@[k] == before[k / 4].components()[k % 4],
                after == Seq::new(
                    done as nat,
                    |j: int|
                        ARGB {
                            a: *final(flat@[4 * j]),
                            r: *final(flat@[4 * j + 1]),
                            g: *final(flat@[4 * j + 2]),
                            b: *final(flat@[4 * j + 3]),
                        },
                ) + final(rest)@,
            decreases rest@.len(),
        {
            let (head, tail) = rest.split_at_mut(1);
            let px = &mut head[0];
            flat.push(&mut px.a);
            flat.push(&mut px.r);
            flat.push(&mut px.g);
            flat.push(&mut px.b);
            rest = tail;
            proof {
                done = done + 1;
            }
        }
        proof {
            assert(after.len() == before.len());
            assert forall|k: int| 0 <= k < flat@.len() implies after[k / 4].components()[k % 4]
                == *final(#[trigger] flat@[k]) by {
                let j = k / 4;
                assert(after[j] == ARGB {
                    a: *final(flat@[4 * j]),
                    r: *final(flat@[4 * j + 1]),
                    g: *final(flat@[4 * j + 2]),
                    b: *final(flat@[4 * j + 3]),
                });
            }
        }
        flat
    }
}

impl<T: Plain> ComponentBytes<T> for [ARGB<T>] {
}

impl<T: Copy, B> ComponentMap<ARGB<B>, T, B> for ARGB<T> {
    fn map<F>(&self, mut f: F) -> (out: ARGB<B>)
        where F: FnMut(T) -> B
        ensures
            call_ensures(f, (self.a,), out.a),
            call_ensures(f, (self.r,), out.r),
            call_ensures(f, (self.g,), out.g),
            call_ensures(f, (self.b,), out.b),
    {
        assert(self.components()[0] == self.a && self.components()[1] == self.r && self.components()[2] == self.g && self.components()[3] == self.b);
        ARGB { a: f(self.a), r: f(self.r), g: f(self.g), b: f(self.b) }
    }
}

impl<T: Copy, A: Copy, B> ColorComponentMap<ARGB<B, A>, T, B> for ARGB<T, A> {
    open spec fn colors(&self) -> Seq<T> {
        seq![self.r, self.g, self.b]
    }

    open spec fn mapped_colors(out: ARGB<B, A>) -> Seq<B> {
        seq![out.r, out.g, out.b]
    }

    open spec fn keeps_alpha(&self, out: ARGB<B, A>) -> bool {
        out.a == self.a
    }

    fn map_c<F>(&self, mut f: F) -> (out: ARGB<B, A>)
        where F: FnMut(T) -> B
        ensures
            call_ensures(f, (self.r,), out.r),
            call_ensures(f, (self.g,), out.g),
            call_ensures(f, (self.b,), out.b),
            out.a == self.a,
    {
        proof {
            let src = <ARGB<T, A> as ColorComponentMap<ARGB<B, A>, T, B>>::colors(self);
            assert(src[0] == self.r && src[1] == self.g && src[2] == self.b);
        }
        ARGB { a: self.a, r: f(self.r), g: f(self.g), b: f(self.b) }
    }
}

impl<T, A> ABGR<T, A> {
    /// Builds a pixel from its channels, given in the declared order:
    /// alpha, blue, green, red.
    pub fn new(a: A, b: T, g: T, r: T) -> (px: Self)
        ensures
            px == (ABGR { a, b, g, r }),
    {
        ABGR { a, b, g, r }
    }
}

impl<T: Default, A: Default> ABGR<T, A> {
    /// Whether each channel is a value that `default()` of its scalar type may
    /// return. For the integer types that value is 0.
    pub open spec fn is_zero(self) -> bool {
        call_ensures(A::default, (), self.a)
            && call_ensures(T::default, (), self.b)
            && call_ensures(T::default, (), self.g)
            && call_ensures(T::default, (), self.r)
    }
}

impl<T: Default, A: Default> Default for ABGR<T, A> {
    /// The all-zero pixel.
    fn default() -> (px: Self)
        ensures
            px.is_zero(),
    {
        ABGR { a: A::default(), b: T::default(), g: T::default(), r: T::default() }
    }
}

impl<T> ComponentSlice<T> for ABGR<T> {
    open spec fn components(&self) -> Seq<T> {
        seq![self.a, self.b, self.g, self.r]
    }

    fn as_slice(&self) -> (flat: Vec<T>)
        where T: Copy
    {
        let mut flat = Vec::new();
        flat.push(self.a);
        flat.push(self.b);
        flat.push(self.g);
        flat.push(self.r);
        assert(flat@ =~= self.components());
        flat
    }

    fn as_mut_slice(&mut self) -> (flat: Vec<&mut T>) {
        let mut flat: Vec<&mut T> = Vec::new();
        flat.push(&mut self.a);
        flat.push(&mut self.b);
        flat.push(&mut self.g);
        flat.push(&mut self.r);
        flat
    }
}

impl<T> ComponentSlice<T> for [ABGR<T>] {
    /// Channel `k` of the flat view is channel `k % 4` of pixel `k / 4`.
    open spec fn components(&self) -> Seq<T> {
        Seq::new(self@.len() * 4, |k: int| self@[k / 4].components()[k % 4])
    }

    fn as_slice(&self) -> (flat: Vec<T>)
        where T: Copy
        ensures
            flat@.len() == self@.len() * 4,
            forall|k: int| 0 <= k < flat@.len() ==> flat@[k] == self@[k / 4].components()[k % 4],
    {
        let mut flat = Vec::new();
        let mut i: usize = 0;
        while i < self.len()
            invariant
                i <= self@.len(),
                flat@.len() == i * 4,
                forall|k: int| 0 <= k < flat@.len() ==> flat@[k] == self@[k / 4].components()[k % 4],
            decreases self@.len() - i,
        {
            flat.push(self[i].a);
            flat.push(self[i].b);
            flat.push(self[i].g);
            flat.push(self[i].r);
            i += 1;
        }
        assert(flat@ =~= self.components());
        flat
    }

    fn as_mut_slice(&mut self) -> (flat: Vec<&mut T>) {
        let ghost before = old(self)@;
        let ghost after = final(self)@;
        let ghost mut done: int = 0;
        let mut flat: Vec<&mut T> = Vec::new();
        let mut rest = self;
        while rest.len() > 0
            invariant
                0 <= done <= before.len(),
                rest@ == before.subrange(done, before.len() as int),
                flat@.len() == done * 4,
                forall|k: int| 0 <= k < flat@.len() ==> *#[trigger] flat@[k] == before[k / 4].components()[k % 4],
                after == Seq::new(
                    done as nat,
                    |j: int|
                        ABGR {
                            a: *final(flat@[4 * j]),
                            b: *final(flat@[4 * j + 1]),
                            g: *final(flat@[4 * j + 2]),
                            r: *final(flat@[4 * j + 3]),
                        },
                ) + final(rest)@,
            decreases rest@.len(),
        {
            let (head, tail) = rest.split_at_mut(1);
            let px = &mut head[0];
            flat.push(&mut px.a);
            flat.push(&mut px.b);
            flat.push(&mut px.g);
            flat.push(&mut px.r);
            rest = tail;
            proof {
                done = done + 1;
            }
        }
        proof {
            assert(after.len() == before.len());
            assert forall|k: int| 0 <= k < flat@.len() implies after[k / 4].components()[k % 4]
                == *final(#[trigger] flat@[k]) by {
                let j = k / 4;
                assert(after[j] == ABGR {
                    a: *final(flat@[4 * j]),
                    b: *final(flat@[4 * j + 1]),
                    g: *final(flat@[4 * j + 2]),
                    r: *final(flat@[4 * j + 3]),
                });
            }
        }
        flat
    }
}

impl<T: Plain> ComponentBytes<T> for [ABGR<T>] {
}

impl<T: Copy, B> ComponentMap<ABGR<B>, T, B> for ABGR<T> {
    fn map<F>(&self, mut f: F) -> (out: ABGR<B>)
        where F: FnMut(T) -> B
        ensures
            call_ensures(f, (self.a,), out.a),
            call_ensures(f, (self.b,), out.b),
            call_ensures(f, (self.g,), out.g),
            call_ensures(f, (self.r,), out.r),
    {
        assert(self.components()[0] == self.a && self.components()[1] == self.b && self.components()[2] == self.g && self.components()[3] == self.r);
        ABGR { a: f(self.a), b: f(self.b), g: f(self.g), r: f(self.r) }
    }
}

impl<T: Copy, A: Copy, B> ColorComponentMap<ABGR<B, A>, T, B> for ABGR<T, A> {
    open spec fn colors(&self) -> Seq<T> {
        seq![self.b, self.g, self.r]
    }

    open spec fn mapped_colors(out: ABGR<B, A>) -> Seq<B> {
        seq![out.b, out.g, out.r]
    }

    open spec fn keeps_alpha(&self, out: ABGR<B, A>) -> bool {
        out.a == self.a
    }

    fn map_c<F>(&self, mut f: F) -> (out: ABGR<B, A>)
        where F: FnMut(T) -> B
        ensures
            call_ensures(f, (self.b,), out.b),
            call_ensures(f, (self.g,), out.g),
            call_ensures(f, (self.r,), out.r),
            out.a == self.a,
    {
        proof {
            let src = <ABGR<T, A> as ColorComponentMap<ABGR<B, A>, T, B>>::colors(self);
            assert(src[0] == self.b && src[1] == self.g && src[2] == self.r);
        }
        ABGR { a: self.a, b: f(self.b), g: f(self.g), r: f(self.r) }
    }
}

} // verus!
