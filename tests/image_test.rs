use hwpx_writer::convert::{
    add_image_from_base64, add_image_from_url, is_avif, is_gif, is_webp, needs_conversion, path_extension,
};
use hwpx_writer::error::JsonToHwpxError;
use hwpx_writer::image::{HwpxImage, HwpxImageFormat};
use hwpx_writer::writer::HwpxWriter;

#[test]
fn test_is_webp() {
    let mut data = vec![0u8; 12];
    data[0..4].copy_from_slice(b"RIFF");
    data[8..12].copy_from_slice(b"WEBP");
    assert!(is_webp(&data));
}

#[test]
fn test_is_not_webp() {
    let data = vec![0u8; 12];
    assert!(!is_webp(&data));
}

#[test]
fn test_is_avif() {
    let mut data = vec![0u8; 12];
    data[4..8].copy_from_slice(b"ftyp");
    data[8..12].copy_from_slice(b"avif");
    assert!(is_avif(&data));
}

#[test]
fn test_is_gif() {
    let data = b"GIF89a\x00\x00\x00\x00\x00\x00";
    assert!(is_gif(data));
}

#[test]
fn test_is_gif87a() {
    let data = b"GIF87a\x00\x00\x00\x00\x00\x00";
    assert!(is_gif(data));
}

#[test]
fn test_is_not_gif() {
    let data = b"PNG\x00\x00\x00\x00\x00\x00\x00\x00\x00";
    assert!(!is_gif(data));
}

#[test]
fn test_png_magic_bytes() {
    let data: Vec<u8> = vec![0x89, 0x50, 0x4E, 0x47, 0x0D, 0x0A, 0x1A, 0x0A, 0, 0, 0, 0];
    assert!(!is_webp(&data));
    assert!(!is_avif(&data));
    assert!(!is_gif(&data));
}

#[test]
fn test_jpeg_magic_bytes() {
    let data: Vec<u8> = vec![0xFF, 0xD8, 0xFF, 0xE0, 0, 0, 0, 0, 0, 0, 0, 0];
    assert!(!is_webp(&data));
    assert!(!is_avif(&data));
    assert!(!is_gif(&data));
}

#[test]
fn test_load_nonexistent_file_fails() {
    let mut writer = HwpxWriter::new();
    let result = add_image_from_url(&mut writer, "./nonexistent.png", Err("file not found".to_string()));
    assert!(result.is_err());
}

#[test]
fn test_base64_decode_png() {
    let b64 = "iVBORw0KGgoAAAANSUhEUgAAAAEAAAABCAYAAAAfFcSJAAAADUlEQVR42mNk+M9QDwADhgGAWjR9awAAAABJRU5ErkJggg==";
    let mut writer = HwpxWriter::new();
    add_image_from_base64(&mut writer, b64, Some("png")).unwrap();
    let bytes = writer.to_bytes().unwrap();
    assert!(!bytes.is_empty());
}

#[test]
fn test_base64_invalid_data() {
    let mut writer = HwpxWriter::new();
    let result = add_image_from_base64(&mut writer, "!!!invalid!!!", Some("png"));
    assert!(result.is_err());
}

fn png(width: [u8; 4], height: [u8; 4]) -> Vec<u8> {
    let mut d = vec![0x89, 0x50, 0x4E, 0x47, 0x0D, 0x0A, 0x1A, 0x0A, 0, 0, 0, 13, b'I', b'H', b'D', b'R'];
    d.extend_from_slice(&width);
    d.extend_from_slice(&height);
    d
}

#[test]
fn png_dimensions_are_big_endian_words() {
    let d = png([0, 0, 1, 0], [0, 0, 0, 200]);
    assert_eq!(HwpxImage::read_png_dimensions(&d), (Some(256), Some(200)));
    let img = HwpxImage::from_bytes(d).unwrap();
    assert_eq!(img.format, HwpxImageFormat::Png);
    // 256 px = 67.7 mm, 200 px = 52.9 mm at 96 DPI.
    assert_eq!((img.width_mm, img.height_mm), (Some(68), Some(53)));
}

#[test]
fn gif_dimensions_are_little_endian_halfwords() {
    let d = b"GIF89a\x40\x01\xF0\x00\x00\x00".to_vec();
    assert_eq!(HwpxImage::read_gif_dimensions(&d), (Some(320), Some(240)));
    assert_eq!(HwpxImageFormat::from_bytes(&d), Some(HwpxImageFormat::Gif));
}

#[test]
fn bmp_dimensions_take_magnitudes() {
    let mut d = vec![0u8; 26];
    d[0] = b'B';
    d[1] = b'M';
    d[18..22].copy_from_slice(&640i32.to_le_bytes());
    d[22..26].copy_from_slice(&(-480i32).to_le_bytes());
    assert_eq!(HwpxImage::read_bmp_dimensions(&d), (Some(640), Some(480)));
    let img = HwpxImage::from_bytes(d).unwrap();
    assert_eq!(img.format, HwpxImageFormat::Bmp);
    assert_eq!((img.width_mm, img.height_mm), (Some(169), Some(127)));
}

#[test]
fn jpeg_sof_after_three_segments() {
    let mut d = vec![0xFF, 0xD8];
    d.extend_from_slice(&[0xFF, 0xE0, 0x00, 0x10]);
    d.extend_from_slice(&[0u8; 14]);
    d.extend_from_slice(&[0xFF, 0xE1, 0x00, 0x05, 1, 2, 3]);
    d.extend_from_slice(&[0xFF, 0xDB, 0x00, 0x43]);
    d.extend_from_slice(&[7u8; 65]);
    d.extend_from_slice(&[0xFF, 0xC0, 0x00, 0x11, 0x08, 0x01, 0xE0, 0x02, 0x80, 0x03]);
    assert_eq!(HwpxImage::read_jpeg_dimensions(&d), (Some(640), Some(480)));
    let img = HwpxImage::from_bytes(d).unwrap();
    assert_eq!(img.format, HwpxImageFormat::Jpeg);
    assert_eq!((img.width_mm, img.height_mm), (Some(169), Some(127)));
}

#[test]
fn progressive_jpeg_marker_is_found() {
    let d = vec![0xFF, 0xD8, 0xFF, 0xC2, 0x00, 0x11, 0x08, 0x00, 0x10, 0x00, 0x20, 0x03];
    assert_eq!(HwpxImage::read_jpeg_dimensions(&d), (Some(32), Some(16)));
}

#[test]
fn truncated_headers_have_no_size() {
    let d = vec![0x89, 0x50, 0x4E, 0x47, 0x0D, 0x0A, 0x1A, 0x0A, 0, 0];
    let img = HwpxImage::from_bytes(d).unwrap();
    assert_eq!((img.width_mm, img.height_mm), (None, None));
    let jpeg = vec![0xFF, 0xD8, 0xFF, 0xC0, 0, 0, 0, 0];
    assert_eq!(HwpxImage::read_jpeg_dimensions(&jpeg), (None, None));
    let zero = png([0, 0, 0, 0], [0, 0, 0, 5]);
    let img = HwpxImage::from_bytes(zero).unwrap();
    assert_eq!((img.width_mm, img.height_mm), (Some(1), Some(1)));
}

#[test]
fn tiny_images_are_at_least_one_millimetre() {
    let img = HwpxImage::from_bytes(png([0, 0, 0, 1], [0, 0, 0, 1])).unwrap();
    assert_eq!((img.width_mm, img.height_mm), (Some(1), Some(1)));
}

#[test]
fn unknown_and_short_buffers_are_refused() {
    assert_eq!(HwpxImageFormat::from_bytes(b"hello world"), None);
    assert_eq!(HwpxImageFormat::from_bytes(b"BM"), None);
    assert!(HwpxImage::from_bytes(b"not an image".to_vec()).is_none());
    let mut writer = HwpxWriter::new();
    let err = add_image_from_url(&mut writer, "x.png", Ok(b"not an image".to_vec())).unwrap_err();
    assert!(matches!(err, JsonToHwpxError::Conversion(_)));
}

#[test]
fn extensions_of_formats() {
    assert_eq!(HwpxImageFormat::Png.extension(), "png");
    assert_eq!(HwpxImageFormat::Jpeg.extension(), "jpg");
    assert_eq!(HwpxImageFormat::Gif.extension(), "gif");
    assert_eq!(HwpxImageFormat::Bmp.extension(), "bmp");
}

#[test]
fn conversion_is_chosen_by_extension_then_magic() {
    let plain = vec![0x89, 0x50, 0x4E, 0x47, 0, 0, 0, 0, 0, 0, 0, 0];
    assert!(needs_conversion(&Some("webp".to_string()), &plain));
    assert!(needs_conversion(&Some("gif".to_string()), &plain));
    assert!(!needs_conversion(&Some("png".to_string()), &plain));
    assert!(!needs_conversion(&None, &plain));
    assert!(needs_conversion(&None, b"GIF89a\x00\x00\x00\x00\x00\x00"));
}

#[test]
fn url_image_is_embedded_when_it_needs_no_conversion() {
    let mut writer = HwpxWriter::new();
    add_image_from_url(&mut writer, "photo.PNG", Ok(png([0, 0, 0, 10], [0, 0, 0, 10]))).unwrap();
    let entries = writer.package_entries();
    assert_eq!(entries.last().unwrap().name, "BinData/image1.png");
}

#[test]
fn extension_of_a_reference() {
    assert_eq!(path_extension("./img/photo.jpeg").as_deref(), Some("jpeg"));
    assert_eq!(path_extension("https://host/a.b/pic.WEBP").as_deref(), Some("WEBP"));
    assert_eq!(path_extension("image_no_ext"), None);
    assert_eq!(path_extension("dir/.hidden"), None);
    assert_eq!(path_extension("archive.tar.gz/").as_deref(), Some("gz"));
    assert_eq!(path_extension("a/.."), None);
}

#[test]
fn base64_png_with_gif_hint_is_reencoded() {
    let b64 = "iVBORw0KGgoAAAANSUhEUgAAAAEAAAABCAYAAAAfFcSJAAAADUlEQVR42mNk+M9QDwADhgGAWjR9awAAAABJRU5ErkJggg==";
    let mut writer = HwpxWriter::new();
    add_image_from_base64(&mut writer, b64, Some("GIF")).unwrap();
    let entries = writer.package_entries();
    let last = entries.last().unwrap();
    assert_eq!(last.name, "BinData/image1.png");
    assert_eq!(&last.data[0..4], &[0x89, 0x50, 0x4E, 0x47]);
}
