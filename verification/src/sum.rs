//! Sums of pixels: a fold with `+` that starts from the all-zero pixel.
use vstd::prelude::*;
use vstd::std_specs::iter::IteratorSpec;
use vstd::std_specs::ops::AddSpec;
use core::iter::Sum;
use core::ops::Add;
use crate::alt::Gray;
use crate::alt::GrayAlpha;
use crate::alt::ARGB;
use crate::alt::GRB;
use crate::RGB;
use crate::RGBA;

verus! {

/// The fold of `pixels` with `+`, from the left, starting at `zero`.
pub open spec fn sum_from<P: Add<Output = P>>(zero: P, pixels: Seq<P>) -> P
    decreases pixels.len(),
{
    if pixels.len() == 0 {
        zero
    } else {
        sum_from(zero, pixels.drop_last()).add_spec(pixels.last())
    }
}

/// Whether every `+` of that fold is one that `P` allows (for integer
/// channels: none overflows).
pub open spec fn sum_defined<P: Add<Output = P>>(zero: P, pixels: Seq<P>) -> bool
    decreases pixels.len(),
{
    pixels.len() == 0 || (sum_defined(zero, pixels.drop_last()) && sum_from(
        zero,
        pixels.drop_last(),
    ).add_req(pixels.last()))
}

/// Adds the pixels that `iter` yields, one after the other, to `zero`.
pub fn fold_sum<P: Add<Output = P>, I: Iterator<Item = P>>(zero: P, iter: I) -> (total: P)
    requires
        P::obeys_add_spec(),
        iter.obeys_prophetic_iter_laws(),
        iter.decrease() is Some,
        sum_defined(zero, iter.remaining()),
    ensures
        total == sum_from(zero, iter.remaining()),
{
    let ghost all = iter.remaining();
    let ghost mut seen: int = 0;
    let mut iter = iter;
    let mut acc = zero;
    loop
        invariant
            iter.obeys_prophetic_iter_laws(),
            iter.decrease() is Some,
            P::obeys_add_spec(),
            0 <= seen <= all.len(),
            iter.remaining() == all.skip(seen),
            sum_defined(zero, all),
            acc == sum_from(zero, all.take(seen)),
        ensures
            acc == sum_from(zero, all),
        decreases iter.decrease()->0,
    {
        match iter.next() {
            Some(px) => {
                proof {
                    assert(all.take(seen + 1).drop_last() == all.take(seen));
                    assert(all.take(seen + 1).last() == px);
                    lemma_sum_defined_prefix(zero, all, seen + 1);
                    seen = seen + 1;
                }
                acc = acc + px;
            },
            None => {
                proof {
                    assert(all.take(seen) == all);
                }
                break ;
            },
        }
    }
    acc
}

/// The sum of no pixels is the zero that the fold starts from.
pub proof fn lemma_sum_of_none<P: Add<Output = P>>(zero: P)
    ensures
        sum_from(zero, Seq::<P>::empty()) == zero,
        sum_defined(zero, Seq::<P>::empty()),
{
}

/// The sum of one pixel is that pixel, where adding it to `zero` leaves it as
/// it is.
pub proof fn lemma_sum_of_one<P: Add<Output = P>>(zero: P, p: P)
    requires
        zero.add_spec(p) == p,
    ensures
        sum_from(zero, seq![p]) == p,
        sum_defined(zero, seq![p]) <==> zero.add_req(p),
{
    assert(seq![p].drop_last() == Seq::<P>::empty());
    assert(seq![p].last() == p);
    assert(sum_from(zero, Seq::<P>::empty()) == zero);
    assert(sum_defined(zero, Seq::<P>::empty()));
}

/// The sum of two pixels is the first plus the second, where adding the first
/// to `zero` leaves it as it is.
pub proof fn lemma_sum_of_two<P: Add<Output = P>>(zero: P, lhs: P, rhs: P)
    requires
        zero.add_spec(lhs) == lhs,
    ensures
        sum_from(zero, seq![lhs, rhs]) == lhs.add_spec(rhs),
        sum_defined(zero, seq![lhs, rhs]) <==> zero.add_req(lhs) && lhs.add_req(rhs),
{
    lemma_sum_of_one(zero, lhs);
    assert(seq![lhs, rhs].drop_last() == seq![lhs]);
    assert(seq![lhs, rhs].last() == rhs);
}

/// Where a fold is defined, so is the fold of each of its prefixes.
pub proof fn lemma_sum_defined_prefix<P: Add<Output = P>>(zero: P, pixels: Seq<P>, n: int)
    requires
        sum_defined(zero, pixels),
        0 <= n <= pixels.len(),
    ensures
        sum_defined(zero, pixels.take(n)),
    decreases pixels.len(),
{
    if n == pixels.len() {
        assert(pixels.take(n) == pixels);
    } else {
        assert(pixels.drop_last().take(n) == pixels.take(n));
        lemma_sum_defined_prefix(zero, pixels.drop_last(), n);
    }
}

impl<T: Default + Add<Output = T>> Sum<RGB<T>> for RGB<T> {
    /// The sum of the pixels that `iter` yields, starting from the all-zero
    /// pixel.
    fn sum<I: Iterator<Item = RGB<T>>>(iter: I) -> (total: RGB<T>)
        requires
            T::obeys_add_spec(),
            iter.obeys_prophetic_iter_laws(),
            iter.decrease() is Some,
            forall|zero: RGB<T>| zero.is_zero() ==> sum_defined(zero, iter.remaining()),
        ensures
            exists|zero: RGB<T>| zero.is_zero() && total == sum_from(zero, iter.remaining()),
    {
        fold_sum(<RGB<T> as Default>::default(), iter)
    }
}

impl<T: Default + Add<Output = T>> Sum<GRB<T>> for GRB<T> {
    /// The sum of the pixels that `iter` yields, starting from the all-zero
    /// pixel.
    fn sum<I: Iterator<Item = GRB<T>>>(iter: I) -> (total: GRB<T>)
        requires
            T::obeys_add_spec(),
            iter.obeys_prophetic_iter_laws(),
            iter.decrease() is Some,
            forall|zero: GRB<T>| zero.is_zero() ==> sum_defined(zero, iter.remaining()),
        ensures
            exists|zero: GRB<T>| zero.is_zero() && total == sum_from(zero, iter.remaining()),
    {
        fold_sum(<GRB<T> as Default>::default(), iter)
    }
}

impl<T: Default + Add<Output = T>> Sum<Gray<T>> for Gray<T> {
    /// The sum of the pixels that `iter` yields, starting from the all-zero
    /// pixel.
    fn sum<I: Iterator<Item = Gray<T>>>(iter: I) -> (total: Gray<T>)
        requires
            T::obeys_add_spec(),
            iter.obeys_prophetic_iter_laws(),
            iter.decrease() is Some,
            forall|zero: Gray<T>| zero.is_zero() ==> sum_defined(zero, iter.remaining()),
        ensures
            exists|zero: Gray<T>| zero.is_zero() && total == sum_from(zero, iter.remaining()),
    {
        fold_sum(<Gray<T> as Default>::default(), iter)
    }
}

impl<T: Default + Add<Output = T>, A: Default + Add<Output = A>> Sum<RGBA<T, A>> for RGBA<T, A> {
    /// The sum of the pixels that `iter` yields, starting from the all-zero
    /// pixel.
    fn sum<I: Iterator<Item = RGBA<T, A>>>(iter: I) -> (total: RGBA<T, A>)
        requires
            T::obeys_add_spec(),
            A::obeys_add_spec(),
            iter.obeys_prophetic_iter_laws(),
            iter.decrease() is Some,
            forall|zero: RGBA<T, A>| zero.is_zero() ==> sum_defined(zero, iter.remaining()),
        ensures
            exists|zero: RGBA<T, A>| zero.is_zero() && total == sum_from(zero, iter.remaining()),
    {
        fold_sum(<RGBA<T, A> as Default>::default(), iter)
    }
}

impl<T: Default + Add<Output = T>, A: Default + Add<Output = A>> Sum<ARGB<T, A>> for ARGB<T, A> {
    /// The sum of the pixels that `iter` yields, starting from the all-zero
    /// pixel.
    fn sum<I: Iterator<Item = ARGB<T, A>>>(iter: I) -> (total: ARGB<T, A>)
        requires
            T::obeys_add_spec(),
            A::obeys_add_spec(),
            iter.obeys_prophetic_iter_laws(),
            iter.decrease() is Some,
            forall|zero: ARGB<T, A>| zero.is_zero() ==> sum_defined(zero, iter.remaining()),
        ensures
            exists|zero: ARGB<T, A>| zero.is_zero() && total == sum_from(zero, iter.remaining()),
    {
        fold_sum(<ARGB<T, A> as Default>::default(), iter)
    }
}

impl<T: Default + Add<Output = T>, A: Default + Add<Output = A>> Sum<GrayAlpha<T, A>> for GrayAlpha<T, A> {
    /// The sum of the pixels that `iter` yields, starting from the all-zero
    /// pixel.
    fn sum<I: Iterator<Item = GrayAlpha<T, A>>>(iter: I) -> (total: GrayAlpha<T, A>)
        requires
            T::obeys_add_spec(),
            A::obeys_add_spec(),
            iter.obeys_prophetic_iter_laws(),
            iter.decrease() is Some,
            forall|zero: GrayAlpha<T, A>| zero.is_zero() ==> sum_defined(zero, iter.remaining()),
        ensures
            exists|zero: GrayAlpha<T, A>| zero.is_zero() && total == sum_from(zero, iter.remaining()),
    {
        fold_sum(<GrayAlpha<T, A> as Default>::default(), iter)
    }
}

} // verus!
