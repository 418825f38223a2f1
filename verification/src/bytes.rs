//! Scalars that can be read and written as raw bytes.
use vstd::prelude::*;
use vstd::layout::size_of;

verus! {

/// Calls `bytemuck::cast_slice` from `T` to `u8`. The cast to bytes cannot
/// fail: a byte has alignment 1 and every length is a whole number of bytes.
/// Assumed of it: the result has as many bytes as the elements of `flat`
/// occupy, that is their number times the size of `T`.
#[verifier::external_body]
pub(crate) fn cast_bytes<T: bytemuck::Pod>(flat: &[T]) -> (bytes: &[u8])
    ensures
        bytes@.len() == flat@.len() * size_of::<T>(),
{
    bytemuck::cast_slice::<T, u8>(flat)
}

/// Calls `bytemuck::bytes_of_mut`. Assumed of it: the result has as many
/// bytes as one `T` occupies, and it is the memory of `value` itself, so that
/// a value whose bytes end as they began ends as it began. Nothing is assumed
/// of what other bytes make of the value.
#[verifier::external_body]
pub(crate) fn value_bytes_mut<T: bytemuck::Pod>(value: &mut T) -> (bytes: &mut [u8])
    ensures
        bytes@.len() == size_of::<T>(),
        final(bytes)@ == bytes@ ==> *final(value) == *old(value),
{
    bytemuck::bytes_of_mut::<T>(value)
}

/// A scalar without padding, of which every bit pattern is a value: it can
/// be viewed as the bytes that hold it, in the machine's native order.
pub trait Plain: Copy + 'static {
    /// The bytes of a run of scalars, borrowed from it.
    fn slice_bytes(flat: &[Self]) -> (bytes: &[u8])
        ensures
            bytes@.len() == flat@.len() * size_of::<Self>(),
    ;

    /// The bytes of one scalar, borrowed from it mutably. A scalar whose
    /// bytes are left as they are keeps its value.
    fn bytes_mut(&mut self) -> (bytes: &mut [u8])
        ensures
            bytes@.len() == size_of::<Self>(),
            final(bytes)@ == bytes@ ==> *final(self) == *old(self),
    ;
}

impl Plain for u8 {
    fn slice_bytes(flat: &[u8]) -> (bytes: &[u8]) {
        cast_bytes::<u8>(flat)
    }

    fn bytes_mut(&mut self) -> (bytes: &mut [u8]) {
        value_bytes_mut::<u8>(self)
    }
}

impl Plain for u16 {
    fn slice_bytes(flat: &[u16]) -> (bytes: &[u8]) {
        cast_bytes::<u16>(flat)
    }

    fn bytes_mut(&mut self) -> (bytes: &mut [u8]) {
        value_bytes_mut::<u16>(self)
    }
}

impl Plain for u32 {
    fn slice_bytes(flat: &[u32]) -> (bytes: &[u8]) {
        cast_bytes::<u32>(flat)
    }

    fn bytes_mut(&mut self) -> (bytes: &mut [u8]) {
        value_bytes_mut::<u32>(self)
    }
}

impl Plain for u64 {
    fn slice_bytes(flat: &[u64]) -> (bytes: &[u8]) {
        cast_bytes::<u64>(flat)
    }

    fn bytes_mut(&mut self) -> (bytes: &mut [u8]) {
        value_bytes_mut::<u64>(self)
    }
}

impl Plain for u128 {
    fn slice_bytes(flat: &[u128]) -> (bytes: &[u8]) {
        cast_bytes::<u128>(flat)
    }

    fn bytes_mut(&mut self) -> (bytes: &mut [u8]) {
        value_bytes_mut::<u128>(self)
    }
}

impl Plain for usize {
    fn slice_bytes(flat: &[usize]) -> (bytes: &[u8]) {
        cast_bytes::<usize>(flat)
    }

    fn bytes_mut(&mut self) -> (bytes: &mut [u8]) {
        value_bytes_mut::<usize>(self)
    }
}

impl Plain for i8 {
    fn slice_bytes(flat: &[i8]) -> (bytes: &[u8]) {
        cast_bytes::<i8>(flat)
    }

    fn bytes_mut(&mut self) -> (bytes: &mut [u8]) {
        value_bytes_mut::<i8>(self)
    }
}

impl Plain for i16 {
    fn slice_bytes(flat: &[i16]) -> (bytes: &[u8]) {
        cast_bytes::<i16>(flat)
    }

    fn bytes_mut(&mut self) -> (bytes: &mut [u8]) {
        value_bytes_mut::<i16>(self)
    }
}

impl Plain for i32 {
    fn slice_bytes(flat: &[i32]) -> (bytes: &[u8]) {
        cast_bytes::<i32>(flat)
    }

    fn bytes_mut(&mut self) -> (bytes: &mut [u8]) {
        value_bytes_mut::<i32>(self)
    }
}

impl Plain for i64 {
    fn slice_bytes(flat: &[i64]) -> (bytes: &[u8]) {
        cast_bytes::<i64>(flat)
    }

    fn bytes_mut(&mut self) -> (bytes: &mut [u8]) {
        value_bytes_mut::<i64>(self)
    }
}

impl Plain for i128 {
    fn slice_bytes(flat: &[i128]) -> (bytes: &[u8]) {
        cast_bytes::<i128>(flat)
    }

    fn bytes_mut(&mut self) -> (bytes: &mut [u8]) {
        value_bytes_mut::<i128>(self)
    }
}

impl Plain for isize {
    fn slice_bytes(flat: &[isize]) -> (bytes: &[u8]) {
        cast_bytes::<isize>(flat)
    }

    fn bytes_mut(&mut self) -> (bytes: &mut [u8]) {
        value_bytes_mut::<isize>(self)
    }
}

} // verus!
