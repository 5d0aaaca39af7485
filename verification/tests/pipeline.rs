use mince::compress::Compress;
use mince::error::MinceError;
use mince::image::{Format, Metadata, Mince};

fn encoded_bytes(width: u32, height: u32, target: image::ImageOutputFormat) -> Vec<u8> {
    let pixel = image::Rgb([120u8, 180u8, 60u8]);
    let img = image::DynamicImage::ImageRgb8(image::RgbImage::from_pixel(width, height, pixel));
    let mut bytes: Vec<u8> = Vec::new();
    img.write_to(&mut std::io::Cursor::new(&mut bytes), target)
        .expect("encoding a plain raster must succeed");
    bytes
}

fn jpeg_bytes(width: u32, height: u32) -> Vec<u8> {
    encoded_bytes(width, height, image::ImageOutputFormat::Jpeg(90))
}

fn png_bytes(width: u32, height: u32) -> Vec<u8> {
    encoded_bytes(width, height, image::ImageOutputFormat::Png)
}

#[test]
fn reads_file_metadata() {
    let bytes = jpeg_bytes(2048, 1536);
    let size = bytes.len() as u64;
    let mince = Mince::from_file(bytes).unwrap();
    assert_eq!(mince.meta(), Metadata::new(2048, 1536, Format::Jpeg, size));
}

#[test]
fn encodes_jpeg() {
    let bytes = jpeg_bytes(2048, 1536);
    let mince = Mince::from_file(bytes).unwrap();
    let file = mince.to_file().expect("Failed to encode image");
    assert_eq!(file.name, "mince_image.jpeg");
    assert_eq!(file.mime, "image/jpeg");
    assert!(!file.bytes.is_empty());
}

#[test]
fn resize_scenario() {
    let bytes = jpeg_bytes(2048, 1536);
    let size = bytes.len() as u64;
    let mince = Mince::from_file(bytes).unwrap();
    let resized = mince.resize(1024, 768);
    assert_eq!(resized.meta(), Metadata::new(1024, 768, Format::Jpeg, size));
    // The source instance is untouched by the resize.
    assert_eq!(mince.meta(), Metadata::new(2048, 1536, Format::Jpeg, size));
}

#[test]
fn resize_preserves_format_and_size() {
    let bytes = png_bytes(64, 48);
    let size = bytes.len() as u64;
    let mince = Mince::from_file(bytes).unwrap();
    let resized = mince.resize(32, 16);
    assert_eq!(resized.meta(), Metadata::new(32, 16, Format::Png, size));
    assert_eq!(mince.meta(), Metadata::new(64, 48, Format::Png, size));
}

#[test]
fn garbage_input_fails_format_detection() {
    let bytes = b"this is not an image at all".to_vec();
    let err = Mince::from_file(bytes).unwrap_err();
    assert_eq!(err, MinceError::DetectImageFormat);
}

#[test]
fn empty_input_fails_format_detection() {
    let err = Mince::from_file(Vec::new()).unwrap_err();
    assert_eq!(err, MinceError::DetectImageFormat);
}

#[test]
fn truncated_png_fails_decode() {
    let mut bytes: Vec<u8> = vec![0x89, 0x50, 0x4e, 0x47, 0x0d, 0x0a, 0x1a, 0x0a];
    bytes.extend_from_slice(b"truncated beyond repair");
    let err = Mince::from_file(bytes).unwrap_err();
    assert_eq!(err, MinceError::DecodeImage);
}

#[test]
fn decodable_unknown_format_cannot_be_encoded() {
    // A BMP decodes fine but is outside the closed set of re-encodable
    // formats, so it lands on the defensive `Unsupported` path.
    let bytes = encoded_bytes(12, 9, image::ImageOutputFormat::Bmp);
    let mince = Mince::from_file(bytes).unwrap();
    assert_eq!(mince.meta().format, Format::Unsupported);
    assert_eq!(mince.meta().format.mime(), "image/unsupported");
    let err = mince.to_file().unwrap_err();
    assert_eq!(err, MinceError::EncodeImage);
}

#[test]
fn png_export_round_trip() {
    let bytes = png_bytes(40, 30);
    let mince = Mince::from_file(bytes).unwrap();
    let file = mince.to_file().unwrap();
    assert_eq!(file.name, "mince_image.png");
    assert_eq!(file.mime, "image/png");
    // The exported bytes are a real PNG with the same dimensions.
    let reloaded = Mince::from_file(file.bytes).unwrap();
    assert_eq!(reloaded.meta().width, 40);
    assert_eq!(reloaded.meta().height, 30);
    assert_eq!(reloaded.meta().format, Format::Png);
}

#[test]
fn gif_export_identity() {
    let bytes = encoded_bytes(10, 8, image::ImageOutputFormat::Gif);
    let mince = Mince::from_file(bytes).unwrap();
    assert_eq!(mince.meta().format, Format::Gif);
    let file = mince.to_file().unwrap();
    assert_eq!(file.name, "mince_image.gif");
    assert_eq!(file.mime, "image/gif");
}

#[test]
fn resized_export_keeps_new_dimensions() {
    let bytes = png_bytes(20, 20);
    let mince = Mince::from_file(bytes).unwrap();
    let file = mince.resize(5, 7).to_file().unwrap();
    let reloaded = Mince::from_file(file.bytes).unwrap();
    assert_eq!(reloaded.meta().width, 5);
    assert_eq!(reloaded.meta().height, 7);
}

#[test]
fn compress_decodes_image_bytes() {
    let bytes = png_bytes(21, 14);
    let compress = Compress::new(bytes.as_slice()).unwrap();
    assert_eq!(compress.width(), 21);
    assert_eq!(compress.height(), 14);
}

#[test]
fn compress_rejects_garbage() {
    let err = Compress::new(b"definitely not pixels").unwrap_err();
    assert_eq!(err, MinceError::DetectImageFormat);
}
