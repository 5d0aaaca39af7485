//! Codec adapter: the boundary to the black-box image codec library.
//!
//! The codec's decoding, encoding and resampling algorithms are not verified
//! here; each call goes through a trusted wrapper whose contract states what
//! the codec's own source shows. Everything a decoded image's consumer reads
//! (its dimensions) is carried beside the opaque pixel grid as plain values,
//! so the pipeline logic above this module is fully verified.

use vstd::prelude::*;

use crate::image::Format;

verus! {

#[verifier::external_type_specification]
#[verifier::external_body]
pub struct ExDynamicImage(::image::DynamicImage);

/// A decoded raster image: the opaque pixel grid handed back by the codec,
/// together with its dimensions as plain values.
///
/// All fields are private to this module, so every `Raster` in existence was
/// built by the trusted constructors below: decoding records the decoded
/// image's own width and height, and a resample records the dimensions it
/// requested, which the resampler's source shows are the dimensions of its
/// result. The recorded dimensions therefore always equal the pixel grid's
/// actual dimensions, which the size bounds on resampling rely on.
#[derive(Debug)]
pub struct Raster {
    inner: ::image::DynamicImage,
    width: u32,
    height: u32,
}

impl Raster {
    /// The width of the pixel grid.
    pub closed spec fn spec_width(&self) -> u32 {
        self.width
    }

    /// The height of the pixel grid.
    pub closed spec fn spec_height(&self) -> u32 {
        self.height
    }

    /// The width of the pixel grid.
    pub fn width(&self) -> (r: u32)
        ensures
            r == self.spec_width(),
    {
        self.width
    }

    /// The height of the pixel grid.
    pub fn height(&self) -> (r: u32)
        ensures
            r == self.spec_height(),
    {
        self.height
    }
}

/// The format that sniffing the buffer's leading bytes yields, if any:
/// `Jpeg`, `Png` or `Gif` for the three signatures the pipeline can
/// re-encode, `Unsupported` for any other signature the codec recognizes,
/// and `None` when no known signature matches.
pub uninterp spec fn sniffed_format(bytes: Seq<u8>) -> Option<Format>;

/// The raster a full decode of the bytes yields, with the decoded image's
/// own dimensions recorded, or `None` when the bytes cannot be decoded.
pub uninterp spec fn decoded_image(bytes: Seq<u8>) -> Option<Raster>;

/// The raster that resampling the source to the given dimensions yields.
/// The resampler is deterministic in its arguments: a fixed filter kernel
/// applied to the source pixels, with no other input.
pub uninterp spec fn resampled(src: Raster, width: u32, height: u32) -> Raster;

/// The bytes that encoding the raster in the given format yields, or `None`
/// when the encoder rejects the combination. Encoding is deterministic in
/// its arguments: a pure function of the pixels and the target format, with
/// no other input.
pub uninterp spec fn encoded_output(src: Raster, format: Format) -> Option<Seq<u8>>;

/// The JPEG magic signature: `FF D8 FF`.
pub open spec fn is_jpeg_prefix(s: Seq<u8>) -> bool {
    s.len() >= 3 && s[0] == 0xff && s[1] == 0xd8 && s[2] == 0xff
}

/// The PNG magic signature: `89 50 4E 47 0D 0A 1A 0A`.
pub open spec fn is_png_prefix(s: Seq<u8>) -> bool {
    s.len() >= 8 && s[0] == 0x89 && s[1] == 0x50 && s[2] == 0x4e && s[3] == 0x47
        && s[4] == 0x0d && s[5] == 0x0a && s[6] == 0x1a && s[7] == 0x0a
}

/// The GIF magic signatures: `GIF89a` or `GIF87a`.
pub open spec fn is_gif_prefix(s: Seq<u8>) -> bool {
    s.len() >= 6 && s[0] == 0x47 && s[1] == 0x49 && s[2] == 0x46 && s[3] == 0x38
        && (s[4] == 0x39 || s[4] == 0x37) && s[5] == 0x61
}

/// The format that the buffer's leading bytes imply, for the three
/// signatures the pipeline can re-encode. The three prefixes are mutually
/// exclusive (they differ in their first byte), and sniffing honours them:
/// see [`sniff_bytes`].
pub open spec fn prefix_format(s: Seq<u8>) -> Option<Format> {
    if is_jpeg_prefix(s) {
        Some(Format::Jpeg)
    } else if is_png_prefix(s) {
        Some(Format::Png)
    } else if is_gif_prefix(s) {
        Some(Format::Gif)
    } else {
        None
    }
}

/// Relies on `image::guess_format`: a pure match of the buffer's leading
/// bytes against a fixed table of magic signatures, in which the only JPEG
/// signature is `FF D8 FF`, the only PNG signature is the eight-byte PNG
/// header, and the only GIF signatures are `GIF89a` and `GIF87a`; no earlier
/// table entry overlaps these three prefixes.
#[verifier::external_body]
pub(crate) fn sniff_bytes(bytes: &[u8]) -> (r: Option<Format>)
    ensures
        r == sniffed_format(bytes@),
        is_jpeg_prefix(bytes@) ==> r == Some(Format::Jpeg),
        is_png_prefix(bytes@) ==> r == Some(Format::Png),
        is_gif_prefix(bytes@) ==> r == Some(Format::Gif),
        r == Some(Format::Jpeg) ==> is_jpeg_prefix(bytes@),
        r == Some(Format::Png) ==> is_png_prefix(bytes@),
        r == Some(Format::Gif) ==> is_gif_prefix(bytes@),
{
    match ::image::guess_format(bytes) {
        Ok(::image::ImageFormat::Jpeg) => Some(Format::Jpeg),
        Ok(::image::ImageFormat::Png) => Some(Format::Png),
        Ok(::image::ImageFormat::Gif) => Some(Format::Gif),
        Ok(_) => Some(Format::Unsupported),
        Err(_) => None,
    }
}

/// Relies on `image::load_from_memory`: sniffs the format from the bytes and
/// fully decodes them, failing if either step fails; the result is
/// deterministic in the bytes, and the recorded dimensions are the decoded
/// image's own width and height.
#[verifier::external_body]
pub(crate) fn decode_bytes(bytes: &[u8]) -> (r: Option<Raster>)
    ensures
        r == decoded_image(bytes@),
{
    match ::image::load_from_memory(bytes) {
        Ok(img) => Some(Raster { width: img.width(), height: img.height(), inner: img }),
        Err(_) => None,
    }
}

/// Relies on `image::imageops::resize` with the Lanczos3 filter: the result
/// is a brand-new pixel buffer with exactly the requested dimensions,
/// computed from the source pixels alone; the source is read through a
/// shared borrow and never modified. The bounds keep the resampler's
/// intermediate and final buffer lengths within `usize`.
#[verifier::external_body]
pub(crate) fn resample_raster(src: &Raster, width: u32, height: u32) -> (r: Raster)
    requires
        src.spec_width() * height * 4 <= usize::MAX,
        width * height * 4 <= usize::MAX,
    ensures
        r == resampled(*src, width, height),
        r.spec_width() == width,
        r.spec_height() == height,
{
    let buf = ::image::imageops::resize(
        &src.inner,
        width,
        height,
        ::image::imageops::FilterType::Lanczos3,
    );
    Raster { width, height, inner: ::image::DynamicImage::ImageRgba8(buf) }
}

/// Relies on `image::DynamicImage::write_to` with the output format matching
/// the given `Format` (JPEG at maximum quality 100): success and the encoded
/// bytes depend on the raster and the target format alone, and every failure
/// is surfaced as the codec's error value, never a panic.
#[verifier::external_body]
pub(crate) fn encode_raster(src: &Raster, format: Format) -> (r: Option<Vec<u8>>)
    requires
        format != Format::Unsupported,
    ensures
        (r is Some) == (encoded_output(*src, format) is Some),
        r is Some ==> r->0@ == encoded_output(*src, format)->0,
{
    let target = match format {
        Format::Jpeg => ::image::ImageOutputFormat::Jpeg(100),
        Format::Png => ::image::ImageOutputFormat::Png,
        Format::Gif => ::image::ImageOutputFormat::Gif,
        Format::Unsupported => return None,
    };
    let mut bytes: Vec<u8> = Vec::new();
    match src.inner.write_to(&mut std::io::Cursor::new(&mut bytes), target) {
        Ok(()) => Some(bytes),
        Err(_) => None,
    }
}

} // verus!
