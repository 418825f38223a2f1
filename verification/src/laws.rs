//! What holds of the conversions and of the arithmetic, for every pixel.
use vstd::prelude::*;
use vstd::std_specs::convert::FromSpec;
use vstd::std_specs::ops::AddSpec;
use vstd::std_specs::ops::MulSpec;
use vstd::std_specs::ops::SubSpec;
use core::ops::Add;
use core::ops::Mul;
use core::ops::Sub;
use crate::pixel::ComponentSlice;
use crate::alt::Gray;
use crate::alt::GrayAlpha;
use crate::alt::ARGB;
use crate::alt::BGR;
use crate::alt::BGRA;
use crate::alt::GRB;
use crate::RGB;
use crate::RGBA;

verus! {

/// What `px` becomes when it is turned into an array and the array back into
/// a pixel.
pub open spec fn rgb_through_array<T: Copy>(px: RGB<T>) -> RGB<T> {
    <RGB<T> as FromSpec<[T; 3]>>::from_spec(<[T; 3] as FromSpec<RGB<T>>>::from_spec(px))
}

/// Turning a pixel into an array and the array back into a pixel gives the
/// pixel again, however often it is done.
pub proof fn lemma_rgb_array_round_trip<T: Copy>(px: RGB<T>)
    ensures
        rgb_through_array(px) == px,
        rgb_through_array(rgb_through_array(px)) == rgb_through_array(px),
{
}

/// What `px` becomes when it is turned into an array and the array back into
/// a pixel.
pub open spec fn rgba_through_array<T: Copy>(px: RGBA<T>) -> RGBA<T> {
    <RGBA<T> as FromSpec<[T; 4]>>::from_spec(<[T; 4] as FromSpec<RGBA<T>>>::from_spec(px))
}

/// Turning a pixel into an array and the array back into a pixel gives the
/// pixel again, however often it is done.
pub proof fn lemma_rgba_array_round_trip<T: Copy>(px: RGBA<T>)
    ensures
        rgba_through_array(px) == px,
        rgba_through_array(rgba_through_array(px)) == rgba_through_array(px),
{
}

/// What `px` becomes when it is turned into an array and the array back into
/// a pixel.
pub open spec fn argb_through_array<T: Copy>(px: ARGB<T>) -> ARGB<T> {
    <ARGB<T> as FromSpec<[T; 4]>>::from_spec(<[T; 4] as FromSpec<ARGB<T>>>::from_spec(px))
}

/// Turning a pixel into an array and the array back into a pixel gives the
/// pixel again, however often it is done.
pub proof fn lemma_argb_array_round_trip<T: Copy>(px: ARGB<T>)
    ensures
        argb_through_array(px) == px,
        argb_through_array(argb_through_array(px)) == argb_through_array(px),
{
}

/// What `px` becomes when it is turned into an array and the array back into
/// a pixel.
pub open spec fn bgr_through_array<T: Copy>(px: BGR<T>) -> BGR<T> {
    <BGR<T> as FromSpec<[T; 3]>>::from_spec(<[T; 3] as FromSpec<BGR<T>>>::from_spec(px))
}

/// Turning a pixel into an array and the array back into a pixel gives the
/// pixel again, however often it is done.
pub proof fn lemma_bgr_array_round_trip<T: Copy>(px: BGR<T>)
    ensures
        bgr_through_array(px) == px,
        bgr_through_array(bgr_through_array(px)) == bgr_through_array(px),
{
}

/// What `px` becomes when it is turned into an array and the array back into
/// a pixel.
pub open spec fn bgra_through_array<T: Copy>(px: BGRA<T>) -> BGRA<T> {
    <BGRA<T> as FromSpec<[T; 4]>>::from_spec(<[T; 4] as FromSpec<BGRA<T>>>::from_spec(px))
}

/// Turning a pixel into an array and the array back into a pixel gives the
/// pixel again, however often it is done.
pub proof fn lemma_bgra_array_round_trip<T: Copy>(px: BGRA<T>)
    ensures
        bgra_through_array(px) == px,
        bgra_through_array(bgra_through_array(px)) == bgra_through_array(px),
{
}

/// Channel `k` of `lhs + rhs` is channel `k` of `lhs` plus channel `k` of `rhs`,
/// and `lhs + rhs` asks of the two pixels what the scalar's `+` asks of each pair
/// of channels.
pub proof fn lemma_rgb_add_per_channel<T: Add>(lhs: RGB<T>, rhs: RGB<T>, k: int)
    requires
        0 <= k < 3,
    ensures
        lhs.add_spec(rhs).components()[k] == lhs.components()[k].add_spec(rhs.components()[k]),
        lhs.add_req(rhs) ==> lhs.components()[k].add_req(rhs.components()[k]),
{
}

/// Channel `k` of `lhs - rhs` is channel `k` of `lhs` minus channel `k` of `rhs`,
/// and `lhs - rhs` asks of the two pixels what the scalar's `-` asks of each pair
/// of channels.
pub proof fn lemma_rgb_sub_per_channel<T: Sub>(lhs: RGB<T>, rhs: RGB<T>, k: int)
    requires
        0 <= k < 3,
    ensures
        lhs.sub_spec(rhs).components()[k] == lhs.components()[k].sub_spec(rhs.components()[k]),
        lhs.sub_req(rhs) ==> lhs.components()[k].sub_req(rhs.components()[k]),
{
}

/// Channel `k` of `lhs * rhs` is channel `k` of `lhs` times channel `k` of `rhs`,
/// and `lhs * rhs` asks of the two pixels what the scalar's `*` asks of each pair
/// of channels.
pub proof fn lemma_rgb_mul_per_channel<T: Mul>(lhs: RGB<T>, rhs: RGB<T>, k: int)
    requires
        0 <= k < 3,
    ensures
        lhs.mul_spec(rhs).components()[k] == lhs.components()[k].mul_spec(rhs.components()[k]),
        lhs.mul_req(rhs) ==> lhs.components()[k].mul_req(rhs.components()[k]),
{
}

/// Channel `k` of `lhs + rhs` is channel `k` of `lhs` plus channel `k` of `rhs`,
/// and `lhs + rhs` asks of the two pixels what the scalar's `+` asks of each pair
/// of channels.
pub proof fn lemma_grb_add_per_channel<T: Add>(lhs: GRB<T>, rhs: GRB<T>, k: int)
    requires
        0 <= k < 3,
    ensures
        lhs.add_spec(rhs).components()[k] == lhs.components()[k].add_spec(rhs.components()[k]),
        lhs.add_req(rhs) ==> lhs.components()[k].add_req(rhs.components()[k]),
{
}

/// Channel `k` of `lhs - rhs` is channel `k` of `lhs` minus channel `k` of `rhs`,
/// and `lhs - rhs` asks of the two pixels what the scalar's `-` asks of each pair
/// of channels.
pub proof fn lemma_grb_sub_per_channel<T: Sub>(lhs: GRB<T>, rhs: GRB<T>, k: int)
    requires
        0 <= k < 3,
    ensures
        lhs.sub_spec(rhs).components()[k] == lhs.components()[k].sub_spec(rhs.components()[k]),
        lhs.sub_req(rhs) ==> lhs.components()[k].sub_req(rhs.components()[k]),
{
}

/// Channel `k` of `lhs * rhs` is channel `k` of `lhs` times channel `k` of `rhs`,
/// and `lhs * rhs` asks of the two pixels what the scalar's `*` asks of each pair
/// of channels.
pub proof fn lemma_grb_mul_per_channel<T: Mul>(lhs: GRB<T>, rhs: GRB<T>, k: int)
    requires
        0 <= k < 3,
    ensures
        lhs.mul_spec(rhs).components()[k] == lhs.components()[k].mul_spec(rhs.components()[k]),
        lhs.mul_req(rhs) ==> lhs.components()[k].mul_req(rhs.components()[k]),
{
}

/// Channel `k` of `lhs + rhs` is channel `k` of `lhs` plus channel `k` of `rhs`,
/// and `lhs + rhs` asks of the two pixels what the scalar's `+` asks of each pair
/// of channels.
pub proof fn lemma_gray_add_per_channel<T: Add>(lhs: Gray<T>, rhs: Gray<T>, k: int)
    requires
        0 <= k < 1,
    ensures
        lhs.add_spec(rhs).components()[k] == lhs.components()[k].add_spec(rhs.components()[k]),
        lhs.add_req(rhs) ==> lhs.components()[k].add_req(rhs.components()[k]),
{
}

/// Channel `k` of `lhs - rhs` is channel `k` of `lhs` minus channel `k` of `rhs`,
/// and `lhs - rhs` asks of the two pixels what the scalar's `-` asks of each pair
/// of channels.
pub proof fn lemma_gray_sub_per_channel<T: Sub>(lhs: Gray<T>, rhs: Gray<T>, k: int)
    requires
        0 <= k < 1,
    ensures
        lhs.sub_spec(rhs).components()[k] == lhs.components()[k].sub_spec(rhs.components()[k]),
        lhs.sub_req(rhs) ==> lhs.components()[k].sub_req(rhs.components()[k]),
{
}

/// Channel `k` of `lhs * rhs` is channel `k` of `lhs` times channel `k` of `rhs`,
/// and `lhs * rhs` asks of the two pixels what the scalar's `*` asks of each pair
/// of channels.
pub proof fn lemma_gray_mul_per_channel<T: Mul>(lhs: Gray<T>, rhs: Gray<T>, k: int)
    requires
        0 <= k < 1,
    ensures
        lhs.mul_spec(rhs).components()[k] == lhs.components()[k].mul_spec(rhs.components()[k]),
        lhs.mul_req(rhs) ==> lhs.components()[k].mul_req(rhs.components()[k]),
{
}

/// Channel `k` of `lhs + rhs` is channel `k` of `lhs` plus channel `k` of `rhs`,
/// and `lhs + rhs` asks of the two pixels what the scalar's `+` asks of each pair
/// of channels.
pub proof fn lemma_rgba_add_per_channel<T: Add>(lhs: RGBA<T>, rhs: RGBA<T>, k: int)
    requires
        0 <= k < 4,
    ensures
        lhs.add_spec(rhs).components()[k] == lhs.components()[k].add_spec(rhs.components()[k]),
        lhs.add_req(rhs) ==> lhs.components()[k].add_req(rhs.components()[k]),
{
}

/// Channel `k` of `lhs - rhs` is channel `k` of `lhs` minus channel `k` of `rhs`,
/// and `lhs - rhs` asks of the two pixels what the scalar's `-` asks of each pair
/// of channels.
pub proof fn lemma_rgba_sub_per_channel<T: Sub>(lhs: RGBA<T>, rhs: RGBA<T>, k: int)
    requires
        0 <= k < 4,
    ensures
        lhs.sub_spec(rhs).components()[k] == lhs.components()[k].sub_spec(rhs.components()[k]),
        lhs.sub_req(rhs) ==> lhs.components()[k].sub_req(rhs.components()[k]),
{
}

/// Channel `k` of `lhs + rhs` is channel `k` of `lhs` plus channel `k` of `rhs`,
/// and `lhs + rhs` asks of the two pixels what the scalar's `+` asks of each pair
/// of channels.
pub proof fn lemma_argb_add_per_channel<T: Add>(lhs: ARGB<T>, rhs: ARGB<T>, k: int)
    requires
        0 <= k < 4,
    ensures
        lhs.add_spec(rhs).components()[k] == lhs.components()[k].add_spec(rhs.components()[k]),
        lhs.add_req(rhs) ==> lhs.components()[k].add_req(rhs.components()[k]),
{
}

/// Channel `k` of `lhs - rhs` is channel `k` of `lhs` minus channel `k` of `rhs`,
/// and `lhs - rhs` asks of the two pixels what the scalar's `-` asks of each pair
/// of channels.
pub proof fn lemma_argb_sub_per_channel<T: Sub>(lhs: ARGB<T>, rhs: ARGB<T>, k: int)
    requires
        0 <= k < 4,
    ensures
        lhs.sub_spec(rhs).components()[k] == lhs.components()[k].sub_spec(rhs.components()[k]),
        lhs.sub_req(rhs) ==> lhs.components()[k].sub_req(rhs.components()[k]),
{
}

/// Channel `k` of `lhs + rhs` is channel `k` of `lhs` plus channel `k` of `rhs`,
/// and `lhs + rhs` asks of the two pixels what the scalar's `+` asks of each pair
/// of channels.
pub proof fn lemma_gray_alpha_add_per_channel<T: Add>(lhs: GrayAlpha<T>, rhs: GrayAlpha<T>, k: int)
    requires
        0 <= k < 2,
    ensures
        lhs.add_spec(rhs).components()[k] == lhs.components()[k].add_spec(rhs.components()[k]),
        lhs.add_req(rhs) ==> lhs.components()[k].add_req(rhs.components()[k]),
{
}

/// Channel `k` of `lhs - rhs` is channel `k` of `lhs` minus channel `k` of `rhs`,
/// and `lhs - rhs` asks of the two pixels what the scalar's `-` asks of each pair
/// of channels.
pub proof fn lemma_gray_alpha_sub_per_channel<T: Sub>(lhs: GrayAlpha<T>, rhs: GrayAlpha<T>, k: int)
    requires
        0 <= k < 2,
    ensures
        lhs.sub_spec(rhs).components()[k] == lhs.components()[k].sub_spec(rhs.components()[k]),
        lhs.sub_req(rhs) ==> lhs.components()[k].sub_req(rhs.components()[k]),
{
}

/// The all-zero pixel plus a pixel is that pixel, where the zero of each
/// scalar type plus a scalar is that scalar, as it is for the integers.
pub proof fn lemma_rgb_zero_plus<T: Default + Add<Output = T>>(zero: RGB<T>, px: RGB<T>)
    requires
        zero.is_zero(),
        forall|z: T, x: T| call_ensures(T::default, (), z) ==> #[trigger] z.add_spec(x) == x,
    ensures
        zero.add_spec(px) == px,
{
}

/// The all-zero pixel plus a pixel is that pixel, where the zero of each
/// scalar type plus a scalar is that scalar, as it is for the integers.
pub proof fn lemma_grb_zero_plus<T: Default + Add<Output = T>>(zero: GRB<T>, px: GRB<T>)
    requires
        zero.is_zero(),
        forall|z: T, x: T| call_ensures(T::default, (), z) ==> #[trigger] z.add_spec(x) == x,
    ensures
        zero.add_spec(px) == px,
{
}

/// The all-zero pixel plus a pixel is that pixel, where the zero of each
/// scalar type plus a scalar is that scalar, as it is for the integers.
pub proof fn lemma_gray_zero_plus<T: Default + Add<Output = T>>(zero: Gray<T>, px: Gray<T>)
    requires
        zero.is_zero(),
        forall|z: T, x: T| call_ensures(T::default, (), z) ==> #[trigger] z.add_spec(x) == x,
    ensures
        zero.add_spec(px) == px,
{
}

/// The all-zero pixel plus a pixel is that pixel, where the zero of each
/// scalar type plus a scalar is that scalar, as it is for the integers.
pub proof fn lemma_rgba_zero_plus<T: Default + Add<Output = T>, A: Default + Add<Output = A>>(zero: RGBA<T, A>, px: RGBA<T, A>)
    requires
        zero.is_zero(),
        forall|z: T, x: T| call_ensures(T::default, (), z) ==> #[trigger] z.add_spec(x) == x,
        forall|z: A, x: A| call_ensures(A::default, (), z) ==> #[trigger] z.add_spec(x) == x,
    ensures
        zero.add_spec(px) == px,
{
}

/// The all-zero pixel plus a pixel is that pixel, where the zero of each
/// scalar type plus a scalar is that scalar, as it is for the integers.
pub proof fn lemma_argb_zero_plus<T: Default + Add<Output = T>, A: Default + Add<Output = A>>(zero: ARGB<T, A>, px: ARGB<T, A>)
    requires
        zero.is_zero(),
        forall|z: T, x: T| call_ensures(T::default, (), z) ==> #[trigger] z.add_spec(x) == x,
        forall|z: A, x: A| call_ensures(A::default, (), z) ==> #[trigger] z.add_spec(x) == x,
    ensures
        zero.add_spec(px) == px,
{
}

/// The all-zero pixel plus a pixel is that pixel, where the zero of each
/// scalar type plus a scalar is that scalar, as it is for the integers.
pub proof fn lemma_gray_alpha_zero_plus<T: Default + Add<Output = T>, A: Default + Add<Output = A>>(zero: GrayAlpha<T, A>, px: GrayAlpha<T, A>)
    requires
        zero.is_zero(),
        forall|z: T, x: T| call_ensures(T::default, (), z) ==> #[trigger] z.add_spec(x) == x,
        forall|z: A, x: A| call_ensures(A::default, (), z) ==> #[trigger] z.add_spec(x) == x,
    ensures
        zero.add_spec(px) == px,
{
}

} // verus!
