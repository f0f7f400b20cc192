use base64::Engine;

use hwpx_writer::convert::{add_image_from_url, add_table_from_html, add_text_paragraphs, convert_if_needed};
use hwpx_writer::writer::HwpxWriter;

const PNG_1X1: &str = "iVBORw0KGgoAAAANSUhEUgAAAAEAAAABCAYAAAAfFcSJAAAADUlEQVR42mNk+M9QDwADhgGAWjR9awAAAABJRU5ErkJggg==";
const GIF_1X1: &str = "R0lGODlhAQABAIAAAAAAAP///yH5BAEAAAAALAAAAAABAAEAAAIBRAA7";
const WEBP_1X1: &str = "UklGRhoAAABXRUJQVlA4TA0AAAAvAAAAEAcQERGIiP4HAA==";

fn decode(b64: &str) -> Vec<u8> {
    base64::engine::general_purpose::STANDARD.decode(b64).unwrap()
}

fn jpeg_bytes() -> Vec<u8> {
    let mut d = vec![0xFF, 0xD8, 0xFF, 0xE0, 0x00, 0x04, 0x00, 0x00];
    d.extend_from_slice(&[0xFF, 0xC0, 0x00, 0x11, 0x08, 0x00, 0x02, 0x00, 0x03, 0x03]);
    d
}

const PNG_SIGNATURE: [u8; 4] = [0x89, 0x50, 0x4E, 0x47];

#[test]
fn test_table_with_hwpx_reader_verification() {
    let mut writer = HwpxWriter::new();
    let html = "<table><thead><tr><th>이름</th><th>나이</th></tr></thead><tbody><tr><td>홍길동</td><td>30</td></tr></tbody></table>";
    add_table_from_html(&mut writer, html).unwrap();

    let bytes = writer.to_bytes().unwrap();
    assert_eq!(&bytes[0..2], b"PK");
    let section = &writer.generate_section_xmls()[0];
    assert!(section.contains("<hp:t>홍길동</hp:t>"));
}

#[test]
fn test_text_with_hwpx_reader_verification() {
    let mut writer = HwpxWriter::new();
    add_text_paragraphs(&mut writer, "검증용 텍스트\n두번째 줄").unwrap();

    let bytes = writer.to_bytes().unwrap();
    assert!(!bytes.is_empty());
    let text = writer.generate_preview_text();
    assert!(text.contains("검증용 텍스트"));
    assert!(text.contains("두번째 줄"));
}

#[test]
fn test_convert_if_needed_png_passthrough() {
    let png_bytes = decode(PNG_1X1);
    let result = convert_if_needed(png_bytes.clone(), "image.png").unwrap();
    assert_eq!(result, png_bytes);
}

#[test]
fn test_convert_if_needed_jpeg_passthrough() {
    let jpg_bytes = jpeg_bytes();
    let result = convert_if_needed(jpg_bytes.clone(), "photo.jpg").unwrap();
    assert_eq!(result, jpg_bytes);
}

#[test]
fn test_convert_if_needed_jpeg_extension() {
    let jpeg = jpeg_bytes();
    let result = convert_if_needed(jpeg.clone(), "photo.jpeg").unwrap();
    assert_eq!(result, jpeg);
}

#[test]
fn test_convert_if_needed_webp_to_png() {
    let result = convert_if_needed(decode(WEBP_1X1), "image.webp").unwrap();
    assert_eq!(&result[0..4], &PNG_SIGNATURE);
}

#[test]
fn test_convert_if_needed_gif_first_frame() {
    let result = convert_if_needed(decode(GIF_1X1), "animation.gif").unwrap();
    assert_eq!(&result[0..4], &PNG_SIGNATURE);
}

#[test]
fn test_convert_if_needed_webp_magic_bytes_no_extension() {
    let result = convert_if_needed(decode(WEBP_1X1), "image_no_ext").unwrap();
    assert_eq!(&result[0..4], &PNG_SIGNATURE);
}

#[test]
fn test_convert_if_needed_gif_magic_bytes_no_extension() {
    let result = convert_if_needed(decode(GIF_1X1), "image_no_ext").unwrap();
    assert_eq!(&result[0..4], &PNG_SIGNATURE);
}

#[test]
fn test_load_local_png() {
    let mut writer = HwpxWriter::new();
    add_image_from_url(&mut writer, "./test_img.png", Ok(decode(PNG_1X1))).unwrap();
    let bytes = writer.to_bytes().unwrap();
    assert!(!bytes.is_empty());
}

#[test]
fn test_load_local_jpg() {
    let mut writer = HwpxWriter::new();
    add_image_from_url(&mut writer, "./test_img.jpg", Ok(jpeg_bytes())).unwrap();
    let bytes = writer.to_bytes().unwrap();
    assert!(!bytes.is_empty());
}

#[test]
fn test_load_local_webp_converts_to_png() {
    let mut writer = HwpxWriter::new();
    add_image_from_url(&mut writer, "./test_img.webp", Ok(decode(WEBP_1X1))).unwrap();
    let bytes = writer.to_bytes().unwrap();
    assert!(!bytes.is_empty());
    assert_eq!(writer.package_entries().last().unwrap().name, "BinData/image1.png");
}

#[test]
fn test_load_local_gif_extracts_first_frame() {
    let mut writer = HwpxWriter::new();
    add_image_from_url(&mut writer, "./test_img.gif", Ok(decode(GIF_1X1))).unwrap();
    let bytes = writer.to_bytes().unwrap();
    assert!(!bytes.is_empty());
    assert_eq!(writer.package_entries().last().unwrap().name, "BinData/image1.png");
}

#[test]
fn broken_image_fails_conversion() {
    let mut writer = HwpxWriter::new();
    let bad = b"RIFF\x00\x00\x00\x00WEBPjunk".to_vec();
    assert!(add_image_from_url(&mut writer, "x.webp", Ok(bad)).is_err());
    assert!(writer.document().sections.is_empty());
}
