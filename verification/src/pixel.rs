//! The traits that every pixel type implements: flat views and channel maps.
use vstd::prelude::*;
use vstd::layout::size_of;
use vstd::slice::slice_to_vec;
use crate::bytes::Plain;

verus! {

/// The flat view of a pixel or of a run of pixels.
pub trait ComponentSlice<T> {
    /// The channels in declared order; for a run of pixels, those of the first
    /// pixel, then those of the second, and so on.
    spec fn components(&self) -> Seq<T>;

    /// Copies the channels, in flat order, into a fresh buffer.
    fn as_slice(&self) -> (flat: Vec<T>)
        where T: Copy
        ensures
            flat@ == self.components(),
    ;

    /// Borrows every channel mutably, in flat order. What is written through
    /// the `k`-th reference becomes the `k`-th channel; channels that are not
    /// written keep their values.
    fn as_mut_slice(&mut self) -> (flat: Vec<&mut T>)
        ensures
            flat@.len() == old(self).components().len(),
            forall|k: int| 0 <= k < flat@.len() ==> *#[trigger] flat@[k] == old(self).components()[k],
            final(self).components().len() == flat@.len(),
            forall|k: int|
                0 <= k < flat@.len() ==> final(self).components()[k] == *final(#[trigger] flat@[k]),
    ;
}

/// The byte view of a run of pixels whose channels are plain scalars.
pub trait ComponentBytes<T: Plain>: ComponentSlice<T> {
    /// Copies the flat view out as bytes, each channel in the machine's native
    /// byte order.
    fn as_bytes(&self) -> (bytes: Vec<u8>)
        requires
            size_of::<T>() != 0,
        ensures
            bytes@.len() == self.components().len() * size_of::<T>(),
    {
        let flat = self.as_slice();
        slice_to_vec(T::slice_bytes(flat.as_slice()))
    }

    /// Borrows the bytes of every channel mutably, one run of bytes per
    /// channel, in flat order. A channel whose bytes are left as they are
    /// keeps its value.
    fn as_mut_bytes(&mut self) -> (chunks: Vec<&mut [u8]>)
        requires
            size_of::<T>() != 0,
        ensures
            chunks@.len() == old(self).components().len(),
            forall|k: int|
                #![trigger chunks@[k]]
                0 <= k < chunks@.len() ==> chunks@[k]@.len() == size_of::<T>(),
            final(self).components().len() == old(self).components().len(),
            forall|k: int|
                #![trigger chunks@[k]]
                0 <= k < chunks@.len() && final(chunks@[k])@ == chunks@[k]@
                    ==> final(self).components()[k] == old(self).components()[k],
    {
        let flat = self.as_mut_slice();
        let ghost channels = flat@;
        let mut chunks: Vec<&mut [u8]> = Vec::new();
        for channel in it: flat
            invariant
                it.seq() == channels,
                chunks@.len() == it.index(),
                forall|k: int|
                    #![trigger chunks@[k]]
                    0 <= k < chunks@.len() ==> chunks@[k]@.len() == size_of::<T>(),
                forall|k: int|
                    #![trigger chunks@[k]]
                    0 <= k < chunks@.len() && final(chunks@[k])@ == chunks@[k]@
                        ==> *final(channels[k]) == *channels[k],
        {
            chunks.push(channel.bytes_mut());
        }
        chunks
    }
}

/// Applies one function to every channel of a pixel, alpha included.
pub trait ComponentMap<DestPixel, SrcComponent, DestComponent>: ComponentSlice<SrcComponent> where
    DestPixel: ComponentSlice<DestComponent>,
{
    /// Calls `f` on each channel in declared order and builds the pixel of the
    /// results.
    fn map<F>(&self, f: F) -> (out: DestPixel)
        where F: FnMut(SrcComponent) -> DestComponent
        requires
            forall|k: int|
                0 <= k < self.components().len() ==> call_requires(
                    f,
                    (#[trigger] self.components()[k],),
                ),
        ensures
            out.components().len() == self.components().len(),
            forall|k: int|
                0 <= k < self.components().len() ==> call_ensures(
                    f,
                    (self.components()[k],),
                    #[trigger] out.components()[k],
                ),
    ;
}

/// Applies one function to every colour channel of a pixel and keeps alpha.
pub trait ColorComponentMap<DestPixel, SrcComponent, DestComponent> {
    /// The channels other than alpha, in declared order.
    spec fn colors(&self) -> Seq<SrcComponent>;

    /// The channels other than alpha of a result pixel, in declared order.
    spec fn mapped_colors(out: DestPixel) -> Seq<DestComponent>;

    /// Whether `out` has the alpha channel of `self`. Holds of every `out`
    /// where the pixel type has no alpha channel.
    spec fn keeps_alpha(&self, out: DestPixel) -> bool;

    /// Calls `f` on each colour channel in declared order and builds the pixel
    /// of the results, with the alpha channel of `self` where there is one.
    fn map_c<F>(&self, f: F) -> (out: DestPixel)
        where F: FnMut(SrcComponent) -> DestComponent
        requires
            forall|k: int|
                0 <= k < self.colors().len() ==> call_requires(f, (#[trigger] self.colors()[k],)),
        ensures
            Self::mapped_colors(out).len() == self.colors().len(),
            forall|k: int|
                0 <= k < self.colors().len() ==> call_ensures(
                    f,
                    (self.colors()[k],),
                    #[trigger] Self::mapped_colors(out)[k],
                ),
            self.keeps_alpha(out),
    ;
}

} // verus!
