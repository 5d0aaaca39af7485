use mince::error::MinceError;
use mince::image::{Format, Metadata};

#[test]
fn test_format_mime() {
    assert_eq!(Format::Jpeg.mime(), "image/jpeg");
    assert_eq!(Format::Png.mime(), "image/png");
    assert_eq!(Format::Gif.mime(), "image/gif");
    assert_eq!(Format::Unsupported.mime(), "image/unsupported");
}

#[test]
fn test_format_extension() {
    assert_eq!(Format::Jpeg.extension(), "jpeg");
    assert_eq!(Format::Png.extension(), "png");
    assert_eq!(Format::Gif.extension(), "gif");
    assert_eq!(Format::Unsupported.extension(), "unsupported");
}

#[test]
fn unsupported_projections_are_non_empty() {
    assert!(!Format::Unsupported.mime().is_empty());
    assert!(!Format::Unsupported.extension().is_empty());
}

#[test]
fn error_messages_are_descriptive() {
    assert_eq!(MinceError::Generic.message(), "IO error");
    assert_eq!(MinceError::FileRead.message(), "Failed to read file into bytes");
    assert_eq!(MinceError::DetectImageFormat.message(), "Failed to detect image format");
    assert_eq!(MinceError::DecodeImage.message(), "Failed to decode image");
    assert_eq!(MinceError::EncodeImage.message(), "Failed to encode image");
}

#[test]
fn metadata_new_sets_all_fields() {
    let meta = Metadata::new(1, 2, Format::Gif, 3);
    assert_eq!(meta.width, 1);
    assert_eq!(meta.height, 2);
    assert_eq!(meta.format, Format::Gif);
    assert_eq!(meta.size, 3);
    assert_eq!(meta, Metadata::new(1, 2, Format::Gif, 3));
}
