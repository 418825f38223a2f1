//! The pixels of three colour channels: constructors, flat views and channel maps.
use vstd::prelude::*;
use vstd::std_specs::iter::IteratorSpec;
use crate::bytes::Plain;
use crate::pixel::ColorComponentMap;
use crate::pixel::ComponentBytes;
use crate::pixel::ComponentMap;
use crate::pixel::ComponentSlice;
use crate::alt::BGR;
use crate::alt::BGRA;
use crate::alt::GRB;
use crate::RGB;
use crate::RGBA;

verus! {

impl<T> RGB<T> {
    /// Builds a pixel from its channels, given in the declared order:
    /// red, green, blue.
    pub fn new(r: T, g: T, b: T) -> (px: Self)
        ensures
            px == (RGB { r, g, b }),
    {
        RGB { r, g, b }
    }
}

impl<T: Default> RGB<T> {
    /// Whether each channel is a value that `default()` of its scalar type may
    /// return. For the integer types that value is 0.
    pub open spec fn is_zero(self) -> bool {
        call_ensures(T::default, (), self.r)
            && call_ensures(T::default, (), self.g)
            && call_ensures(T::default, (), self.b)
    }
}

impl<T: Default> Default for RGB<T> {
    /// The all-zero pixel.
    fn default() -> (px: Self)
        ensures
            px.is_zero(),
    {
        RGB { r: T::default(), g: T::default(), b: T::default() }
    }
}

impl<T: Clone> RGB<T> {
    /// An iterator over clones of the channels, in declared order.
    pub fn iter(&self) -> (channels: std::vec::IntoIter<T>)
        ensures
            channels.remaining().len() == 3,
            cloned(self.r, channels.remaining()[0]),
            cloned(self.g, channels.remaining()[1]),
            cloned(self.b, channels.remaining()[2]),
            channels.decrease() is Some,
    {
        broadcast use vstd::std_specs::vec::axiom_spec_into_iter;

        let mut flat = Vec::new();
        flat.push(self.r.clone());
        flat.push(self.g.clone());
        flat.push(self.b.clone());
        flat.into_iter()
    }
}

impl<T: Clone> RGB<T> {
    /// The pixel with the same colour channels, cloned, and the alpha `a`.
    pub fn alpha(&self, a: T) -> (px: RGBA<T>)
        ensures
            cloned(self.r, px.r),
            cloned(self.g, px.g),
            cloned(self.b, px.b),
            px.a == a,
    {
        RGBA {
            r: self.r.clone(),
            g: self.g.clone(),
            b: self.b.clone(),
            a,
        }
    }

    /// The pixel with the same colour channels, cloned, and the alpha `a`,
    /// whose type may differ from that of the colour channels.
    pub fn new_alpha<A>(&self, a: A) -> (px: RGBA<T, A>)
        ensures
            cloned(self.r, px.r),
            cloned(self.g, px.g),
            cloned(self.b, px.b),
            px.a == a,
    {
        RGBA {
            r: self.r.clone(),
            g: self.g.clone(),
            b: self.b.clone(),
            a,
        }
    }
}

impl<T> RGB<T> {
    /// Builds a pixel from the first three values that `iter` yields: red,
    /// green, blue. What it would yield after them is not looked at. The
    /// iterator has to hold three values at least.
    pub fn from_iter<I: Iterator<Item = T>>(iter: I) -> (px: Self)
        requires
            iter.obeys_prophetic_iter_laws(),
            iter.remaining().len() >= 3,
        ensures
            px == (RGB { r: iter.remaining()[0], g: iter.remaining()[1], b: iter.remaining()[2] }),
    {
        let mut iter = iter;
        let r = iter.next().unwrap();
        let g = iter.next().unwrap();
        let b = iter.next().unwrap();
        RGB { r, g, b }
    }
}

impl<T> ComponentSlice<T> for RGB<T> {
    open spec fn components(&self) -> Seq<T> {
        seq![self.r, self.g, self.b]
    }

    fn as_slice(&self) -> (flat: Vec<T>)
        where T: Copy
    {
        let mut flat = Vec::new();
        flat.push(self.r);
        flat.push(self.g);
        flat.push(self.b);
        assert(flat@ =~= self.components());
        flat
    }

    fn as_mut_slice(&mut self) -> (flat: Vec<&mut T>) {
        let mut flat: Vec<&mut T> = Vec::new();
        flat.push(&mut self.r);
        flat.push(&mut self.g);
        flat.push(&mut self.b);
        flat
    }
}

impl<T> ComponentSlice<T> for [RGB<T>] {
    /// Channel `k` of the flat view is channel `k % 3` of pixel `k / 3`.
    open spec fn components(&self) -> Seq<T> {
        Seq::new(self@.len() * 3, |k: int| self@[k / 3].components()[k % 3])
    }

    fn as_slice(&self) -> (flat: Vec<T>)
        where T: Copy
        ensures
            flat@.len() == self@.len() * 3,
            forall|k: int| 0 <= k < flat@.len() ==> flat@[k] == self@[k / 3].components()[k % 3],
    {
        let mut flat = Vec::new();
        let mut i: usize = 0;
        while i < self.len()
            invariant
                i <= self@.len(),
                flat@.len() == i * 3,
                forall|k: int| 0 <= k < flat@.len() ==> flat@[k] == self@[k / 3].components()[k % 3],
            decreases self@.len() - i,
        {
            flat.push(self[i].r);
            flat.push(self[i].g);
            flat.push(self[i].b);
            i += 1;
        }
        assert(flat@ =~= self.components());
        flat
    }

    fn as_mut_slice(&mut self) -> (flat: Vec<&mut T>) {
        let ghost before = old(self)@;
        let ghost after = final(self)@;
        let ghost mut done: int = 0;
        let mut flat: Vec<&mut T> = Vec::new();
        let mut rest = self;
        while rest.len() > 0
            invariant
                0 <= done <= before.len(),
                rest@ == before.subrange(done, before.len() as int),
                flat@.len() == done * 3,
                forall|k: int| 0 <= k < flat@.len() ==> *#[trigger] flat@[k] == before[k / 3].components()[k % 3],
                after == Seq::new(
                    done as nat,
                    |j: int|
                        RGB {
                            r: *final(flat@[3 * j]),
                            g: *final(flat@[3 * j + 1]),
                            b: *final(flat@[3 * j + 2]),
                        },
                ) + final(rest)@,
            decreases rest@.len(),
        {
            let (head, tail) = rest.split_at_mut(1);
            let px = &mut head[0];
            flat.push(&mut px.r);
            flat.push(&mut px.g);
            flat.push(&mut px.b);
            rest = tail;
            proof {
                done = done + 1;
            }
        }
        proof {
            assert(after.len() == before.len());
            assert forall|k: int| 0 <= k < flat@.len() implies after[k / 3].components()[k % 3]
                == *final(#[trigger] flat@[k]) by {
                let j = k / 3;
                assert(after[j] == RGB {
                    r: *final(flat@[3 * j]),
                    g: *final(flat@[3 * j + 1]),
                    b: *final(flat@[3 * j + 2]),
                });
            }
        }
        flat
    }
}

impl<T: Plain> ComponentBytes<T> for [RGB<T>] {
}

impl<T: Copy, B> ComponentMap<RGB<B>, T, B> for RGB<T> {
    fn map<F>(&self, mut f: F) -> (out: RGB<B>)
        where F: FnMut(T) -> B
        ensures
            call_ensures(f, (self.r,), out.r),
            call_ensures(f, (self.g,), out.g),
            call_ensures(f, (self.b,), out.b),
    {
        assert(self.components()[0] == self.r && self.components()[1] == self.g && self.components()[2] == self.b);
        RGB { r: f(self.r), g: f(self.g), b: f(self.b) }
    }
}

impl<T: Copy, B> ColorComponentMap<RGB<B>, T, B> for RGB<T> {
    open spec fn colors(&self) -> Seq<T> {
        seq![self.r, self.g, self.b]
    }

    open spec fn mapped_colors(out: RGB<B>) -> Seq<B> {
        seq![out.r, out.g, out.b]
    }

    open spec fn keeps_alpha(&self, out: RGB<B>) -> bool {
        true
    }

    fn map_c<F>(&self, mut f: F) -> (out: RGB<B>)
        where F: FnMut(T) -> B
        ensures
            call_ensures(f, (self.r,), out.r),
            call_ensures(f, (self.g,), out.g),
            call_ensures(f, (self.b,), out.b),
    {
        proof {
            let src = <RGB<T> as ColorComponentMap<RGB<B>, T, B>>::colors(self);
            assert(src[0] == self.r && src[1] == self.g && src[2] == self.b);
        }
        RGB { r: f(self.r), g: f(self.g), b: f(self.b) }
    }
}

impl<T> BGR<T> {
    /// Builds a pixel from its channels, given in the declared order:
    /// blue, green, red.
    pub fn new(b: T, g: T, r: T) -> (px: Self)
        ensures
            px == (BGR { b, g, r }),
    {
        BGR { b, g, r }
    }
}

impl<T: Default> BGR<T> {
    /// Whether each channel is a value that `default()` of its scalar type may
    /// return. For the integer types that value is 0.
    pub open spec fn is_zero(self) -> bool {
        call_ensures(T::default, (), self.b)
            && call_ensures(T::default, (), self.g)
            && call_ensures(T::default, (), self.r)
    }
}

impl<T: Default> Default for BGR<T> {
    /// The all-zero pixel.
    fn default() -> (px: Self)
        ensures
            px.is_zero(),
    {
        BGR { b: T::default(), g: T::default(), r: T::default() }
    }
}

impl<T: Clone> BGR<T> {
    /// An iterator over clones of the channels, in declared order.
    pub fn iter(&self) -> (channels: std::vec::IntoIter<T>)
        ensures
            channels.remaining().len() == 3,
            cloned(self.b, channels.remaining()[0]),
            cloned(self.g, channels.remaining()[1]),
            cloned(self.r, channels.remaining()[2]),
            channels.decrease() is Some,
    {
        broadcast use vstd::std_specs::vec::axiom_spec_into_iter;

        let mut flat = Vec::new();
        flat.push(self.b.clone());
        flat.push(self.g.clone());
        flat.push(self.r.clone());
        flat.into_iter()
    }
}

impl<T: Clone> BGR<T> {
    /// The pixel with the same colour channels, cloned, and the alpha `a`.
    pub fn alpha(&self, a: T) -> (px: BGRA<T>)
        ensures
            cloned(self.b, px.b),
            cloned(self.g, px.g),
            cloned(self.r, px.r),
            px.a == a,
    {
        BGRA {
            b: self.b.clone(),
            g: self.g.clone(),
            r: self.r.clone(),
            a,
        }
    }

    /// The pixel with the same colour channels, cloned, and the alpha `a`,
    /// whose type may differ from that of the colour channels.
    pub fn new_alpha<A>(&self, a: A) -> (px: BGRA<T, A>)
        ensures
            cloned(self.b, px.b),
            cloned(self.g, px.g),
            cloned(self.r, px.r),
            px.a == a,
    {
        BGRA {
            b: self.b.clone(),
            g: self.g.clone(),
            r: self.r.clone(),
            a,
        }
    }
}

impl<T> ComponentSlice<T> for BGR<T> {
    open spec fn components(&self) -> Seq<T> {
        seq![self.b, self.g, self.r]
    }

    fn as_slice(&self) -> (flat: Vec<T>)
        where T: Copy
    {
        let mut flat = Vec::new();
        flat.push(self.b);
        flat.push(self.g);
        flat.push(self.r);
        assert(flat@ =~= self.components());
        flat
    }

    fn as_mut_slice(&mut self) -> (flat: Vec<&mut T>) {
        let mut flat: Vec<&mut T> = Vec::new();
        flat.push(&mut self.b);
        flat.push(&mut self.g);
        flat.push(&mut self.r);
        flat
    }
}

impl<T> ComponentSlice<T> for [BGR<T>] {
    /// Channel `k` of the flat view is channel `k % 3` of pixel `k / 3`.
    open spec fn components(&self) -> Seq<T> {
        Seq::new(self@.len() * 3, |k: int| self@[k / 3].components()[k % 3])
    }

    fn as_slice(&self) -> (flat: Vec<T>)
        where T: Copy
        ensures
            flat@.len() == self@.len() * 3,
            forall|k: int| 0 <= k < flat@.len() ==> flat@[k] == self@[k / 3].components()[k % 3],
    {
        let mut flat = Vec::new();
        let mut i: usize = 0;
        while i < self.len()
            invariant
                i <= self@.len(),
                flat@.len() == i * 3,
                forall|k: int| 0 <= k < flat@.len() ==> flat@[k] == self@[k / 3].components()[k % 3],
            decreases self@.len() - i,
        {
            flat.push(self[i].b);
            flat.push(self[i].g);
            flat.push(self[i].r);
            i += 1;
        }
        assert(flat@ =~= self.components());
        flat
    }

    fn as_mut_slice(&mut self) -> (flat: Vec<&mut T>) {
        let ghost before = old(self)@;
        let ghost after = final(self)@;
        let ghost mut done: int = 0;
        let mut flat: Vec<&mut T> = Vec::new();
        let mut rest = self;
        while rest.len() > 0
            invariant
                0 <= done <= before.len(),
                rest@ == before.subrange(done, before.len() as int),
                flat@.len() == done * 3,
                forall|k: int| 0 <= k < flat@.len() ==> *#[trigger] flat@[k] == before[k / 3].components()[k % 3],
                after == Seq::new(
                    done as nat,
                    |j: int|
                        BGR {
                            b: *final(flat@[3 * j]),
                            g: *final(flat@[3 * j + 1]),
                            r: *final(flat@[3 * j + 2]),
                        },
                ) + final(rest)@,
            decreases rest@.len(),
        {
            let (head, tail) = rest.split_at_mut(1);
            let px = &mut head[0];
            flat.push(&mut px.b);
            flat.push(&mut px.g);
            flat.push(&mut px.r);
            rest = tail;
            proof {
                done = done + 1;
            }
        }
        proof {
            assert(after.len() == before.len());
            assert forall|k: int| 0 <= k < flat@.len() implies after[k / 3].components()[k % 3]
                == *final(#[trigger] flat@[k]) by {
                let j = k / 3;
                assert(after[j] == BGR {
                    b: *final(flat@[3 * j]),
                    g: *final(flat@[3 * j + 1]),
                    r: *final(flat@[3 * j + 2]),
                });
            }
        }
        flat
    }
}

impl<T: Plain> ComponentBytes<T> for [BGR<T>] {
}

impl<T: Copy, B> ComponentMap<BGR<B>, T, B> for BGR<T> {
    fn map<F>(&self, mut f: F) -> (out: BGR<B>)
        where F: FnMut(T) -> B
        ensures
            call_ensures(f, (self.b,), out.b),
            call_ensures(f, (self.g,), out.g),
            call_ensures(f, (self.r,), out.r),
    {
        assert(self.components()[0] == self.b && self.components()[1] == self.g && self.components()[2] == self.r);
        BGR { b: f(self.b), g: f(self.g), r: f(self.r) }
    }
}

impl<T: Copy, B> ColorComponentMap<BGR<B>, T, B> for BGR<T> {
    open spec fn colors(&self) -> Seq<T> {
        seq![self.b, self.g, self.r]
    }

    open spec fn mapped_colors(out: BGR<B>) -> Seq<B> {
        seq![out.b, out.g, out.r]
    }

    open spec fn keeps_alpha(&self, out: BGR<B>) -> bool {
        true
    }

    fn map_c<F>(&self, mut f: F) -> (out: BGR<B>)
        where F: FnMut(T) -> B
        ensures
            call_ensures(f, (self.b,), out.b),
            call_ensures(f, (self.g,), out.g),
            call_ensures(f, (self.r,), out.r),
    {
        proof {
            let src = <BGR<T> as ColorComponentMap<BGR<B>, T, B>>::colors(self);
            assert(src[0] == self.b && src[1] == self.g && src[2] == self.r);
        }
        BGR { b: f(self.b), g: f(self.g), r: f(self.r) }
    }
}

impl<T> GRB<T> {
    /// Builds a pixel from its channels, given in the declared order:
    /// green, red, blue.
    pub fn new(g: T, r: T, b: T) -> (px: Self)
        ensures
            px == (GRB { g, r, b }),
    {
        GRB { g, r, b }
    }
}

impl<T: Default> GRB<T> {
    /// Whether each channel is a value that `default()` of its scalar type may
    /// return. For the integer types that value is 0.
    pub open spec fn is_zero(self) -> bool {
        call_ensures(T::default, (), self.g)
            && call_ensures(T::default, (), self.r)
            && call_ensures(T::default, (), self.b)
    }
}

impl<T: Default> Default for GRB<T> {
    /// The all-zero pixel.
    fn default() -> (px: Self)
        ensures
            px.is_zero(),
    {
        GRB { g: T::default(), r: T::default(), b: T::default() }
    }
}

impl<T: Clone> GRB<T> {
    /// An iterator over clones of the channels, in declared order.
    pub fn iter(&self) -> (channels: std::vec::IntoIter<T>)
        ensures
            channels.remaining().len() == 3,
            cloned(self.g, channels.remaining()[0]),
            cloned(self.r, channels.remaining()[1]),
            cloned(self.b, channels.remaining()[2]),
            channels.decrease() is Some,
    {
        broadcast use vstd::std_specs::vec::axiom_spec_into_iter;

        let mut flat = Vec::new();
        flat.push(self.g.clone());
        flat.push(self.r.clone());
        flat.push(self.b.clone());
        flat.into_iter()
    }
}

impl<T> ComponentSlice<T> for GRB<T> {
    open spec fn components(&self) -> Seq<T> {
        seq![self.g, self.r, self.b]
    }

    fn as_slice(&self) -> (flat: Vec<T>)
        where T: Copy
    {
        let mut flat = Vec::new();
        flat.push(self.g);
        flat.push(self.r);
        flat.push(self.b);
        assert(flat@ =~= self.components());
        flat
    }

    fn as_mut_slice(&mut self) -> (flat: Vec<&mut T>) {
        let mut flat: Vec<&mut T> = Vec::new();
        flat.push(&mut self.g);
        flat.push(&mut self.r);
        flat.push(&mut self.b);
        flat
    }
}

impl<T> ComponentSlice<T> for [GRB<T>] {
    /// Channel `k` of the flat view is channel `k % 3` of pixel `k / 3`.
    open spec fn components(&self) -> Seq<T> {
        Seq::new(self@.len() * 3, |k: int| self@[k / 3].components()[k % 3])
    }

    fn as_slice(&self) -> (flat: Vec<T>)
        where T: Copy
        ensures
            flat@.len() == self@.len() * 3,
            forall|k: int| 0 <= k < flat@.len() ==> flat@[k] == self@[k / 3].components()[k % 3],
    {
        let mut flat = Vec::new();
        let mut i: usize = 0;
        while i < self.len()
            invariant
                i <= self@.len(),
                flat@.len() == i * 3,
                forall|k: int| 0 <= k < flat@.len() ==> flat@[k] == self@[k / 3].components()[k % 3],
            decreases self@.len() - i,
        {
            flat.push(self[i].g);
            flat.push(self[i].r);
            flat.push(self[i].b);
            i += 1;
        }
        assert(flat@ =~= self.components());
        flat
    }

    fn as_mut_slice(&mut self) -> (flat: Vec<&mut T>) {
        let ghost before = old(self)@;
        let ghost after = final(self)@;
        let ghost mut done: int = 0;
        let mut flat: Vec<&mut T> = Vec::new();
        let mut rest = self;
        while rest.len() > 0
            invariant
                0 <= done <= before.len(),
                rest@ == before.subrange(done, before.len() as int),
                flat@.len() == done * 3,
                forall|k: int| 0 <= k < flat@.len() ==> *#[trigger] flat@[k] == before[k / 3].components()[k % 3],
                after == Seq::new(
                    done as nat,
                    |j: int|
                        GRB {
                            g: *final(flat@[3 * j]),
                            r: *final(flat@[3 * j + 1]),
                            b: *final(flat@[3 * j + 2]),
                        },
                ) + final(rest)@,
            decreases rest@.len(),
        {
            let (head, tail) = rest.split_at_mut(1);
            let px = &mut head[0];
            flat.push(&mut px.g);
            flat.push(&mut px.r);
            flat.push(&mut px.b);
            rest = tail;
            proof {
                done = done + 1;
            }
        }
        proof {
            assert(after.len() == before.len());
            assert forall|k: int| 0 <= k < flat@.len() implies after[k / 3].components()[k % 3]
                == *final(#[trigger] flat@[k]) by {
                let j = k / 3;
                assert(after[j] == GRB {
                    g: *final(flat@[3 * j]),
                    r: *final(flat@[3 * j + 1]),
                    b: *final(flat@[3 * j + 2]),
                });
            }
        }
        flat
    }
}

impl<T: Plain> ComponentBytes<T> for [GRB<T>] {
}

impl<T: Copy, B> ComponentMap<GRB<B>, T, B> for GRB<T> {
    fn map<F>(&self, mut f: F) -> (out: GRB<B>)
        where F: FnMut(T) -> B
        ensures
            call_ensures(f, (self.g,), out.g),
            call_ensures(f, (self.r,), out.r),
            call_ensures(f, (self.b,), out.b),
    {
        assert(self.components()[0] == self.g && self.components()[1] == self.r && self.components()[2] == self.b);
        GRB { g: f(self.g), r: f(self.r), b: f(self.b) }
    }
}

impl<T: Copy, B> ColorComponentMap<GRB<B>, T, B> for GRB<T> {
    open spec fn colors(&self) -> Seq<T> {
        seq![self.g, self.r, self.b]
    }

    open spec fn mapped_colors(out: GRB<B>) -> Seq<B> {
        seq![out.g, out.r, out.b]
    }

    open spec fn keeps_alpha(&self, out: GRB<B>) -> bool {
        true
    }

    fn map_c<F>(&self, mut f: F) -> (out: GRB<B>)
        where F: FnMut(T) -> B
        ensures
            call_ensures(f, (self.g,), out.g),
            call_ensures(f, (self.r,), out.r),
            call_ensures(f, (self.b,), out.b),
    {
        proof {
            let src = <GRB<T> as ColorComponentMap<GRB<B>, T, B>>::colors(self);
            assert(src[0] == self.g && src[1] == self.r && src[2] == self.b);
        }
        GRB { g: f(self.g), r: f(self.r), b: f(self.b) }
    }
}

} // verus!
