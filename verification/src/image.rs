//! The data model of the pipeline: supported output formats and the metadata
//! snapshot that describes a decoded image.

use vstd::prelude::*;

use crate::codec::{
    Raster, decode_bytes, decoded_image, encode_raster, encoded_output, prefix_format,
    resample_raster, resampled, sniff_bytes, sniffed_format,
};
use crate::error::MinceError;

verus! {

/// Supported image formats for `Mince`.
///
/// A closed set of the three formats the pipeline can re-encode, plus an
/// `Unsupported` sentinel for anything else the decoder may hand back.
#[derive(Clone, Copy, Debug, PartialEq, Eq, Structural)]
pub enum Format {
    Jpeg,
    Png,
    Gif,
    Unsupported,
}

impl Format {
    /// The MIME type of this format, as a sequence of characters.
    pub open spec fn spec_mime(self) -> Seq<char> {
        match self {
            Format::Jpeg => "image/jpeg"@,
            Format::Png => "image/png"@,
            Format::Gif => "image/gif"@,
            Format::Unsupported => "image/unsupported"@,
        }
    }

    /// The file extension of this format, as a sequence of characters.
    pub open spec fn spec_extension(self) -> Seq<char> {
        match self {
            Format::Jpeg => "jpeg"@,
            Format::Png => "png"@,
            Format::Gif => "gif"@,
            Format::Unsupported => "unsupported"@,
        }
    }

    /// MIME type projection. Total: `Unsupported` yields a stable sentinel
    /// string rather than failing, so metadata inspection never fails even
    /// for formats the pipeline cannot re-encode.
    pub fn mime(&self) -> (r: &'static str)
        ensures
            r@ == self.spec_mime(),
            r@.len() > 0,
    {
        proof {
            reveal_strlit("image/jpeg");
            reveal_strlit("image/png");
            reveal_strlit("image/gif");
            reveal_strlit("image/unsupported");
        }
        match self {
            Format::Jpeg => "image/jpeg",
            Format::Png => "image/png",
            Format::Gif => "image/gif",
            Format::Unsupported => "image/unsupported",
        }
    }

    /// File extension projection. Total, with a sentinel for `Unsupported`,
    /// like [`Format::mime`].
    pub fn extension(&self) -> (r: &'static str)
        ensures
            r@ == self.spec_extension(),
            r@.len() > 0,
    {
        proof {
            reveal_strlit("jpeg");
            reveal_strlit("png");
            reveal_strlit("gif");
            reveal_strlit("unsupported");
        }
        match self {
            Format::Jpeg => "jpeg",
            Format::Png => "png",
            Format::Gif => "gif",
            Format::Unsupported => "unsupported",
        }
    }
}

/// Metadata for a `Mince` instance: an immutable snapshot of the dimensions,
/// detected format, and original source byte length of a decoded image.
///
/// `size` is the byte length of the original source buffer, not of any
/// re-encoded output; resizing carries it forward unchanged.
#[derive(Clone, Copy, Debug, PartialEq, Eq, Structural)]
pub struct Metadata {
    pub width: u32,
    pub height: u32,
    pub format: Format,
    pub size: u64,
}

impl Metadata {
    /// Pure constructor; no validation beyond the numeric domains.
    pub fn new(width: u32, height: u32, format: Format, size: u64) -> (r: Self)
        ensures
            r.width == width,
            r.height == height,
            r.format == format,
            r.size == size,
    {
        Self { width, height, format, size }
    }
}

/// An exported file: the encoded bytes together with the filename and MIME
/// type under which the host should materialize them.
#[derive(Debug)]
pub struct FilePayload {
    pub bytes: Vec<u8>,
    pub name: String,
    pub mime: String,
}

/// The filename under which an image of the given format is exported:
/// `mince_image.` followed by the format's extension.
pub open spec fn spec_filename(f: Format) -> Seq<char> {
    "mince_image."@ + f.spec_extension()
}

/// The image pipeline: owns exactly one decoded raster image and one
/// metadata snapshot describing it.
///
/// Instances are created only by [`Mince::from_file`] (fallible) or by
/// [`Mince::resize`] (infallible on its defined domain); both establish
/// [`Mince::wf`], so the metadata's dimensions always equal the owned
/// raster's dimensions.
#[derive(Debug)]
pub struct Mince {
    pub inner: Raster,
    pub meta: Metadata,
}

impl Mince {
    /// The metadata snapshot describes the raster this instance owns.
    pub open spec fn wf(&self) -> bool {
        self.meta.width == self.inner.spec_width() && self.meta.height
            == self.inner.spec_height()
    }

    /// Wraps a raster and its metadata into a pipeline instance.
    fn new(inner: Raster, meta: Metadata) -> (r: Mince)
        ensures
            r.inner == inner,
            r.meta == meta,
    {
        Mince { inner, meta }
    }

    /// Builds a pipeline instance from the raw bytes of an image file.
    ///
    /// The format is always sniffed from the content, never trusted from a
    /// filename or declared MIME type. Fails with `DetectImageFormat` when no
    /// known signature matches the bytes, and with `DecodeImage` when the
    /// signature is recognized but the payload cannot be decoded; on any
    /// failure no instance is produced. On success the instance owns exactly
    /// the decoded raster, and the metadata carries its dimensions, the
    /// sniffed format, and the byte length of the source buffer.
    pub fn from_file(bytes: Vec<u8>) -> (r: Result<Mince, MinceError>)
        ensures
            (r is Ok) == (sniffed_format(bytes@) is Some && decoded_image(bytes@) is Some),
            r is Ok ==> r->Ok_0.wf(),
            r is Ok ==> Some(r->Ok_0.inner) == decoded_image(bytes@),
            r is Ok ==> Some(r->Ok_0.meta.format) == sniffed_format(bytes@),
            r is Ok ==> r->Ok_0.meta.width == decoded_image(bytes@)->0.spec_width()
                && r->Ok_0.meta.height == decoded_image(bytes@)->0.spec_height(),
            r is Ok ==> r->Ok_0.meta.size == bytes@.len(),
            r is Ok && prefix_format(bytes@) is Some ==> Some(r->Ok_0.meta.format)
                == prefix_format(bytes@),
            sniffed_format(bytes@) is None ==> r == Err::<Mince, MinceError>(
                MinceError::DetectImageFormat,
            ),
            sniffed_format(bytes@) is Some && decoded_image(bytes@) is None ==> r == Err::<
                Mince,
                MinceError,
            >(MinceError::DecodeImage),
    {
        let size = bytes.len() as u64;
        let format = match sniff_bytes(bytes.as_slice()) {
            Some(f) => f,
            None => {
                return Err(MinceError::DetectImageFormat);
            },
        };
        let raster = match decode_bytes(bytes.as_slice()) {
            Some(r) => r,
            None => {
                return Err(MinceError::DecodeImage);
            },
        };
        let meta = Metadata::new(raster.width(), raster.height(), format, size);
        Ok(Mince::new(raster, meta))
    }

    /// Pure accessor: the metadata snapshot of this instance.
    pub fn meta(&self) -> (r: Metadata)
        ensures
            r == self.meta,
    {
        self.meta
    }

    /// Resamples the image to the given positive dimensions with a fixed
    /// high-quality filter kernel and returns a brand-new instance; the
    /// source instance is borrowed immutably and keeps its raster and
    /// metadata unchanged. The new metadata takes the requested dimensions
    /// and preserves the original format and the original source byte
    /// length (`size` is never recomputed from the resized raster).
    pub fn resize(&self, width: u32, height: u32) -> (r: Mince)
        requires
            self.wf(),
            width >= 1,
            height >= 1,
            self.meta.width * height * 4 <= usize::MAX,
            width * height * 4 <= usize::MAX,
        ensures
            r.wf(),
            r.inner == resampled(self.inner, width, height),
            r.meta.width == width,
            r.meta.height == height,
            r.meta.format == self.meta.format,
            r.meta.size == self.meta.size,
    {
        let raster = resample_raster(&self.inner, width, height);
        let meta = Metadata::new(width, height, self.meta.format, self.meta.size);
        Mince::new(raster, meta)
    }

    /// Re-encodes the image in its detected format and wraps the bytes as an
    /// exported file whose MIME type is the format's MIME type and whose name
    /// is `mince_image.` followed by the format's extension.
    ///
    /// Fails with `EncodeImage` when the format is `Unsupported` or when the
    /// encoder rejects the raster; no other error is possible, and whenever
    /// the encoder accepts the raster the export succeeds, with the
    /// encoder's bytes as the payload.
    pub fn to_file(&self) -> (r: Result<FilePayload, MinceError>)
        ensures
            (r is Ok) == (self.meta.format != Format::Unsupported && encoded_output(
                self.inner,
                self.meta.format,
            ) is Some),
            r is Ok ==> r->Ok_0.bytes@ == encoded_output(self.inner, self.meta.format)->0,
            r is Ok ==> r->Ok_0.mime@ == self.meta.format.spec_mime(),
            r is Ok ==> r->Ok_0.name@ == spec_filename(self.meta.format),
            self.meta.format == Format::Unsupported ==> r == Err::<FilePayload, MinceError>(
                MinceError::EncodeImage,
            ),
            r is Err ==> r == Err::<FilePayload, MinceError>(MinceError::EncodeImage),
    {
        let format = self.meta.format;
        if matches!(format, Format::Unsupported) {
            return Err(MinceError::EncodeImage);
        }
        let bytes = match encode_raster(&self.inner, format) {
            Some(b) => b,
            None => {
                return Err(MinceError::EncodeImage);
            },
        };
        Ok(FilePayload { bytes, name: self.filename(), mime: String::from_str(format.mime()) })
    }

    /// The export filename: `mince_image.` followed by the extension of the
    /// detected format.
    fn filename(&self) -> (r: String)
        ensures
            r@ == spec_filename(self.meta.format),
    {
        let prefix = String::from_str("mince_image.");
        prefix.concat(self.meta.format.extension())
    }
}

} // verus!
