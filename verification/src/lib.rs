//! Pixel types with a fixed, named set of channels over a generic scalar.
//!
//! Every pixel type lists its channels in one declared order. The flat view of a
//! pixel, or of a run of pixels, is the sequence of its channels in that order;
//! arithmetic and the channel maps work on each channel by itself.
//!
//! The flat views are built without reinterpreting memory: `as_slice` copies the
//! channels into a fresh buffer, and `as_mut_slice` hands out one mutable
//! reference per channel. The byte views follow them: `as_bytes` copies the
//! bytes of the flat view out, and `as_mut_bytes` hands out the bytes of each
//! channel. Only scalars that are [`Plain`] have byte views; the fixed-width
//! integers are.
use vstd::prelude::*;

pub mod alt;
pub mod bytes;
pub mod convert;
pub mod gray;
pub mod laws;
pub mod ops;
pub mod pixel;
pub mod rgb;
pub mod rgba;
pub mod scalar;
pub mod sum;

pub use bytes::Plain;
pub use pixel::ColorComponentMap;
pub use pixel::ComponentBytes;
pub use pixel::ComponentMap;
pub use pixel::ComponentSlice;

verus! {

/// A pixel with red, green and blue channels, stored in that order.
#[derive(Copy, Clone, Debug, Eq, PartialEq, Structural, Ord, PartialOrd, Hash)]
pub struct RGB<T> {
    /// Red
    pub r: T,
    /// Green
    pub g: T,
    /// Blue
    pub b: T,
}

/// A pixel with red, green, blue and alpha channels, stored in that order.
/// The alpha channel may have a scalar type of its own.
#[derive(Copy, Clone, Debug, Eq, PartialEq, Structural, Ord, PartialOrd, Hash)]
pub struct RGBA<T, TA = T> {
    /// Red
    pub r: T,
    /// Green
    pub g: T,
    /// Blue
    pub b: T,
    /// Alpha
    pub a: TA,
}

/// 8-bit RGB
pub type RGB8 = RGB<u8>;

/// 16-bit RGB in the machine's native endian
pub type RGB16 = RGB<u16>;

/// 8-bit RGBA
pub type RGBA8 = RGBA<u8>;

/// 16-bit RGBA in the machine's native endian
pub type RGBA16 = RGBA<u16>;

} // verus!
