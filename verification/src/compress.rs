//! A decoded image held for compression work: decodes a byte buffer up
//! front and keeps the raster.

use vstd::prelude::*;

use crate::codec::{Raster, decode_bytes, decoded_image, sniff_bytes, sniffed_format};
use crate::error::MinceError;

verus! {

/// Owns one decoded raster image, built directly from a byte buffer.
#[derive(Debug)]
pub struct Compress {
    image: Raster,
}

impl Compress {
    /// The raster this instance owns.
    pub closed spec fn spec_raster(&self) -> Raster {
        self.image
    }

    /// The dimensions of the raster this instance owns.
    pub open spec fn spec_dims(&self) -> (u32, u32) {
        (self.spec_raster().spec_width(), self.spec_raster().spec_height())
    }

    /// Decodes the byte buffer and keeps the resulting raster. Fails with
    /// `DetectImageFormat` when no known signature matches the bytes, and
    /// with `DecodeImage` when the payload cannot be decoded.
    pub fn new(bytes: &[u8]) -> (r: Result<Compress, MinceError>)
        ensures
            (r is Ok) == (sniffed_format(bytes@) is Some && decoded_image(bytes@) is Some),
            r is Ok ==> Some(r->Ok_0.spec_raster()) == decoded_image(bytes@),
            sniffed_format(bytes@) is None ==> r == Err::<Compress, MinceError>(
                MinceError::DetectImageFormat,
            ),
            sniffed_format(bytes@) is Some && decoded_image(bytes@) is None ==> r == Err::<
                Compress,
                MinceError,
            >(MinceError::DecodeImage),
    {
        if sniff_bytes(bytes).is_none() {
            return Err(MinceError::DetectImageFormat);
        }
        match decode_bytes(bytes) {
            Some(image) => Ok(Compress { image }),
            None => Err(MinceError::DecodeImage),
        }
    }

    /// The width of the decoded image.
    pub fn width(&self) -> (r: u32)
        ensures
            r == self.spec_dims().0,
    {
        self.image.width()
    }

    /// The height of the decoded image.
    pub fn height(&self) -> (r: u32)
        ensures
            r == self.spec_dims().1,
    {
        self.image.height()
    }
}

} // verus!
