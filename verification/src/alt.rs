//! Pixel types with other channel orders than RGB, and grayscale.
use vstd::prelude::*;

verus! {

/// A pixel with blue, green and red channels, stored in that order.
#[derive(Copy, Clone, Debug, Eq, PartialEq, Structural, Ord, PartialOrd, Hash)]
pub struct BGR<T> {
    /// Blue
    pub b: T,
    /// Green
    pub g: T,
    /// Red
    pub r: T,
}

/// A pixel with blue, green, red and alpha channels, stored in that order.
#[derive(Copy, Clone, Debug, Eq, PartialEq, Structural, Ord, PartialOrd, Hash)]
pub struct BGRA<T, TA = T> {
    /// Blue
    pub b: T,
    /// Green
    pub g: T,
    /// Red
    pub r: T,
    /// Alpha
    pub a: TA,
}

/// A pixel with alpha, blue, green and red channels, stored in that order.
#[derive(Copy, Clone, Debug, Eq, PartialEq, Structural, Ord, PartialOrd, Hash)]
pub struct ABGR<T, TA = T> {
    /// Alpha
    pub a: TA,
    /// Blue
    pub b: T,
    /// Green
    pub g: T,
    /// Red
    pub r: T,
}

/// A pixel with alpha, red, green and blue channels, stored in that order.
#[derive(Copy, Clone, Debug, Eq, PartialEq, Structural, Ord, PartialOrd, Hash)]
pub struct ARGB<T, TA = T> {
    /// Alpha
    pub a: TA,
    /// Red
    pub r: T,
    /// Green
    pub g: T,
    /// Blue
    pub b: T,
}

/// A pixel with green, red and blue channels, stored in that order.
#[derive(Copy, Clone, Debug, Eq, PartialEq, Structural, Ord, PartialOrd, Hash)]
pub struct GRB<T> {
    /// Green
    pub g: T,
    /// Red
    pub r: T,
    /// Blue
    pub b: T,
}

/// Grayscale. Use `.0` or `*` (deref) to access the brightness.
#[derive(Copy, Clone, Debug, Eq, PartialEq, Structural, Ord, PartialOrd, Hash)]
pub struct Gray<T>(
    /// Brightness
    pub T,
);

/// Grayscale with alpha. Use `.0` for the brightness and `.1` for alpha.
#[derive(Copy, Clone, Debug, Eq, PartialEq, Structural, Ord, PartialOrd, Hash)]
pub struct GrayAlpha<T, TA = T>(
    /// Brightness
    pub T,
    /// Alpha
    pub TA,
);

/// 8-bit BGR
pub type BGR8 = BGR<u8>;

/// 16-bit BGR in the machine's native endian
pub type BGR16 = BGR<u16>;

/// 8-bit BGRA
pub type BGRA8 = BGRA<u8>;

/// 16-bit BGRA in the machine's native endian
pub type BGRA16 = BGRA<u16>;

/// 8-bit ABGR, alpha is first. 0 = transparent, 255 = opaque.
pub type ABGR8 = ABGR<u8>;

/// 16-bit ABGR in the machine's native endian. 0 = transparent, 65535 = opaque.
pub type ABGR16 = ABGR<u16>;

/// 8-bit ARGB, alpha is first. 0 = transparent, 255 = opaque.
pub type ARGB8 = ARGB<u8>;

/// 16-bit ARGB in the machine's native endian. 0 = transparent, 65535 = opaque.
pub type ARGB16 = ARGB<u16>;

/// 8-bit GRB
pub type GRB8 = GRB<u8>;

/// 8-bit gray
pub type GRAY8 = Gray<u8>;

/// 16-bit gray in the machine's native endian
pub type GRAY16 = Gray<u16>;

/// 8-bit gray with alpha
pub type GRAYA8 = GrayAlpha<u8>;

/// 16-bit gray with alpha in the machine's native endian
pub type GRAYA16 = GrayAlpha<u16>;

} // verus!
