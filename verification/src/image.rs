//! The decoded raster container and the tagged result of a load call.

use vstd::prelude::*;

verus! {

/// A decoded raster image: `width * height` pixels with `depth` samples per
/// pixel, stored as one flat, owned, contiguous buffer.
///
/// The container exclusively owns its sample buffer: it is created exactly
/// once, when raw decoder output is copied into owned memory, and no aliasing
/// with the decoder's allocation survives construction.
pub struct Image<T> {
    pub width: usize,
    pub height: usize,
    pub depth: usize,
    pub data: Vec<T>,
}

impl<T> Image<T> {
    /// The container's invariant: the buffer holds exactly one sample per
    /// channel of every pixel.
    pub open spec fn wf(self) -> bool {
        self.data@.len() == self.width * self.height * self.depth
    }

    /// Wraps an owned sample buffer together with its dimensions.
    pub fn new(width: usize, height: usize, depth: usize, data: Vec<T>) -> (img: Image<T>)
        requires
            data@.len() == width * height * depth,
        ensures
            img.width == width,
            img.height == height,
            img.depth == depth,
            img.data == data,
            img.wf(),
    {
        Image { width, height, depth, data }
    }
}

/// Wraps an owned sample buffer together with its dimensions.
pub fn new_image<T>(width: usize, height: usize, depth: usize, data: Vec<T>) -> (img: Image<T>)
    requires
        data@.len() == width * height * depth,
    ensures
        img.width == width,
        img.height == height,
        img.depth == depth,
        img.data == data,
        img.wf(),
{
    Image { width, height, depth, data }
}

/// The sole channel through which a load call reports its outcome: a decoded
/// 8-bit image, a decoded floating-point image, or an error message. Exactly
/// one variant is populated per call; there is no partial success.
///
/// `F` is the floating-point sample type the caller decodes HDR formats into;
/// this crate never inspects such a sample, only counts and carries them.
pub enum LoadResult<F> {
    Error(String),
    ImageU8(Image<u8>),
    ImageF32(Image<F>),
}

impl<F> LoadResult<F> {
    /// Flattens a result whose error side carries a message into the tagged
    /// union, so that callers always receive a plain `LoadResult`.
    pub fn from_result(res: Result<LoadResult<F>, String>) -> (r: LoadResult<F>)
        ensures
            (res matches Ok(v) ==> r == v),
            (res matches Err(m) ==> (r matches LoadResult::Error(e) && e@ == m@)),
    {
        match res {
            Ok(v) => v,
            Err(m) => LoadResult::Error(m),
        }
    }
}

} // verus!
