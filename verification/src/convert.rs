//! Conversions between pixels and arrays, between channel orders, and from
//! gray to gray with alpha.
//!
//! An array holds the channels in the declared order of the pixel type that it
//! is converted to or from.
use vstd::prelude::*;
use crate::alt::Gray;
use crate::alt::GrayAlpha;
use crate::alt::ARGB;
use crate::alt::BGR;
use crate::alt::BGRA;
use crate::alt::GRB;
use crate::RGB;
use crate::RGBA;

verus! {

impl<T: Copy> vstd::std_specs::convert::FromSpecImpl<[T; 3]> for RGB<T> {
    open spec fn obeys_from_spec() -> bool {
        true
    }

    open spec fn from_spec(other: [T; 3]) -> RGB<T> {
        RGB { r: other@[0], g: other@[1], b: other@[2] }
    }
}

/// `[r, g, b]` to `RGB`
impl<T: Copy> From<[T; 3]> for RGB<T> {
    fn from(other: [T; 3]) -> (px: RGB<T>)
        ensures
            px == (RGB { r: other@[0], g: other@[1], b: other@[2] }),
    {
        RGB { r: other[0], g: other[1], b: other[2] }
    }
}

impl<T> vstd::std_specs::convert::FromSpecImpl<RGB<T>> for [T; 3] {
    open spec fn obeys_from_spec() -> bool {
        true
    }

    open spec fn from_spec(val: RGB<T>) -> [T; 3] {
        [val.r, val.g, val.b]
    }
}

/// `RGB` to `[r, g, b]`
impl<T> From<RGB<T>> for [T; 3] {
    fn from(val: RGB<T>) -> (array: [T; 3])
        ensures
            array == [val.r, val.g, val.b],
    {
        [val.r, val.g, val.b]
    }
}

impl<T: Copy> vstd::std_specs::convert::FromSpecImpl<[T; 4]> for RGBA<T> {
    open spec fn obeys_from_spec() -> bool {
        true
    }

    open spec fn from_spec(other: [T; 4]) -> RGBA<T> {
        RGBA { r: other@[0], g: other@[1], b: other@[2], a: other@[3] }
    }
}

/// `[r, g, b, a]` to `RGBA`
impl<T: Copy> From<[T; 4]> for RGBA<T> {
    fn from(other: [T; 4]) -> (px: RGBA<T>)
        ensures
            px == (RGBA { r: other@[0], g: other@[1], b: other@[2], a: other@[3] }),
    {
        RGBA { r: other[0], g: other[1], b: other[2], a: other[3] }
    }
}

impl<T> vstd::std_specs::convert::FromSpecImpl<RGBA<T>> for [T; 4] {
    open spec fn obeys_from_spec() -> bool {
        true
    }

    open spec fn from_spec(val: RGBA<T>) -> [T; 4] {
        [val.r, val.g, val.b, val.a]
    }
}

/// `RGBA` to `[r, g, b, a]`
impl<T> From<RGBA<T>> for [T; 4] {
    fn from(val: RGBA<T>) -> (array: [T; 4])
        ensures
            array == [val.r, val.g, val.b, val.a],
    {
        [val.r, val.g, val.b, val.a]
    }
}

impl<T: Copy> vstd::std_specs::convert::FromSpecImpl<[T; 4]> for ARGB<T> {
    open spec fn obeys_from_spec() -> bool {
        true
    }

    open spec fn from_spec(other: [T; 4]) -> ARGB<T> {
        ARGB { a: other@[0], r: other@[1], g: other@[2], b: other@[3] }
    }
}

/// `[a, r, g, b]` to `ARGB`
impl<T: Copy> From<[T; 4]> for ARGB<T> {
    fn from(other: [T; 4]) -> (px: ARGB<T>)
        ensures
            px == (ARGB { a: other@[0], r: other@[1], g: other@[2], b: other@[3] }),
    {
        ARGB { a: other[0], r: other[1], g: other[2], b: other[3] }
    }
}

impl<T> vstd::std_specs::convert::FromSpecImpl<ARGB<T>> for [T; 4] {
    open spec fn obeys_from_spec() -> bool {
        true
    }

    open spec fn from_spec(val: ARGB<T>) -> [T; 4] {
        [val.a, val.r, val.g, val.b]
    }
}

/// `ARGB` to `[a, r, g, b]`
impl<T> From<ARGB<T>> for [T; 4] {
    fn from(val: ARGB<T>) -> (array: [T; 4])
        ensures
            array == [val.a, val.r, val.g, val.b],
    {
        [val.a, val.r, val.g, val.b]
    }
}

impl<T: Copy> vstd::std_specs::convert::FromSpecImpl<[T; 3]> for BGR<T> {
    open spec fn obeys_from_spec() -> bool {
        true
    }

    open spec fn from_spec(other: [T; 3]) -> BGR<T> {
        BGR { b: other@[0], g: other@[1], r: other@[2] }
    }
}

/// `[b, g, r]` to `BGR`
impl<T: Copy> From<[T; 3]> for BGR<T> {
    fn from(other: [T; 3]) -> (px: BGR<T>)
        ensures
            px == (BGR { b: other@[0], g: other@[1], r: other@[2] }),
    {
        BGR { b: other[0], g: other[1], r: other[2] }
    }
}

impl<T> vstd::std_specs::convert::FromSpecImpl<BGR<T>> for [T; 3] {
    open spec fn obeys_from_spec() -> bool {
        true
    }

    open spec fn from_spec(val: BGR<T>) -> [T; 3] {
        [val.b, val.g, val.r]
    }
}

/// `BGR` to `[b, g, r]`
impl<T> From<BGR<T>> for [T; 3] {
    fn from(val: BGR<T>) -> (array: [T; 3])
        ensures
            array == [val.b, val.g, val.r],
    {
        [val.b, val.g, val.r]
    }
}

impl<T: Copy> vstd::std_specs::convert::FromSpecImpl<[T; 4]> for BGRA<T> {
    open spec fn obeys_from_spec() -> bool {
        true
    }

    open spec fn from_spec(other: [T; 4]) -> BGRA<T> {
        BGRA { b: other@[0], g: other@[1], r: other@[2], a: other@[3] }
    }
}

/// `[b, g, r, a]` to `BGRA`
impl<T: Copy> From<[T; 4]> for BGRA<T> {
    fn from(other: [T; 4]) -> (px: BGRA<T>)
        ensures
            px == (BGRA { b: other@[0], g: other@[1], r: other@[2], a: other@[3] }),
    {
        BGRA { b: other[0], g: other[1], r: other[2], a: other[3] }
    }
}

impl<T> vstd::std_specs::convert::FromSpecImpl<BGRA<T>> for [T; 4] {
    open spec fn obeys_from_spec() -> bool {
        true
    }

    open spec fn from_spec(val: BGRA<T>) -> [T; 4] {
        [val.b, val.g, val.r, val.a]
    }
}

/// `BGRA` to `[b, g, r, a]`
impl<T> From<BGRA<T>> for [T; 4] {
    fn from(val: BGRA<T>) -> (array: [T; 4])
        ensures
            array == [val.b, val.g, val.r, val.a],
    {
        [val.b, val.g, val.r, val.a]
    }
}

impl<T> vstd::std_specs::convert::FromSpecImpl<GRB<T>> for RGB<T> {
    open spec fn obeys_from_spec() -> bool {
        true
    }

    open spec fn from_spec(other: GRB<T>) -> RGB<T> {
        RGB { r: other.r, g: other.g, b: other.b }
    }
}

/// Each channel goes to the channel of its name.
impl<T> From<GRB<T>> for RGB<T> {
    fn from(other: GRB<T>) -> (px: RGB<T>)
        ensures
            px == (RGB { r: other.r, g: other.g, b: other.b }),
    {
        RGB { r: other.r, g: other.g, b: other.b }
    }
}

impl<T> vstd::std_specs::convert::FromSpecImpl<RGB<T>> for GRB<T> {
    open spec fn obeys_from_spec() -> bool {
        true
    }

    open spec fn from_spec(other: RGB<T>) -> GRB<T> {
        GRB { g: other.g, r: other.r, b: other.b }
    }
}

/// Each channel goes to the channel of its name.
impl<T> From<RGB<T>> for GRB<T> {
    fn from(other: RGB<T>) -> (px: GRB<T>)
        ensures
            px == (GRB { g: other.g, r: other.r, b: other.b }),
    {
        GRB { g: other.g, r: other.r, b: other.b }
    }
}

impl<T: Copy> vstd::std_specs::convert::FromSpecImpl<T> for Gray<T> {
    open spec fn obeys_from_spec() -> bool {
        true
    }

    open spec fn from_spec(value: T) -> Gray<T> {
        Gray(value)
    }
}

/// A brightness to the gray pixel of that brightness.
impl<T: Copy> From<T> for Gray<T> {
    fn from(value: T) -> (px: Gray<T>)
        ensures
            px == Gray(value),
    {
        Gray(value)
    }
}

impl<T: Copy> vstd::std_specs::convert::FromSpecImpl<Gray<T>> for GrayAlpha<T, u8> {
    open spec fn obeys_from_spec() -> bool {
        true
    }

    open spec fn from_spec(other: Gray<T>) -> GrayAlpha<T, u8> {
        GrayAlpha(other.0, 0xFF)
    }
}

/// The brightness stays and alpha is 255, which stands for fully opaque.
impl<T: Copy> From<Gray<T>> for GrayAlpha<T, u8> {
    fn from(other: Gray<T>) -> (px: GrayAlpha<T, u8>)
        ensures
            px == GrayAlpha(other.0, 0xFFu8),
    {
        GrayAlpha(other.0, 0xFF)
    }
}

impl<T: Copy> vstd::std_specs::convert::FromSpecImpl<Gray<T>> for GrayAlpha<T, u16> {
    open spec fn obeys_from_spec() -> bool {
        true
    }

    open spec fn from_spec(other: Gray<T>) -> GrayAlpha<T, u16> {
        GrayAlpha(other.0, 0xFFFF)
    }
}

/// The brightness stays and alpha is 65535, which stands for fully opaque.
impl<T: Copy> From<Gray<T>> for GrayAlpha<T, u16> {
    fn from(other: Gray<T>) -> (px: GrayAlpha<T, u16>)
        ensures
            px == GrayAlpha(other.0, 0xFFFFu16),
    {
        GrayAlpha(other.0, 0xFFFF)
    }
}

} // verus!
