use hwpx_writer::convert::{add_separator_paragraph, add_text_paragraphs};
use hwpx_writer::writer::HwpxWriter;

fn texts(writer: &HwpxWriter) -> Vec<String> {
    writer.document().sections[0]
        .paragraphs
        .iter()
        .map(|p| p.text.clone().unwrap_or_default())
        .collect()
}

#[test]
fn test_single_line() {
    let mut writer = HwpxWriter::new();
    add_text_paragraphs(&mut writer, "안녕하세요").unwrap();

    let bytes = writer.to_bytes().unwrap();
    assert!(!bytes.is_empty());
}

#[test]
fn test_multiple_lines() {
    let mut writer = HwpxWriter::new();
    add_text_paragraphs(&mut writer, "첫 줄\n둘째 줄\n셋째 줄").unwrap();

    let bytes = writer.to_bytes().unwrap();
    assert!(!bytes.is_empty());
}

#[test]
fn test_empty_line_between() {
    let mut writer = HwpxWriter::new();
    add_text_paragraphs(&mut writer, "첫 단락\n\n셋째 단락").unwrap();

    let bytes = writer.to_bytes().unwrap();
    assert!(!bytes.is_empty());
}

#[test]
fn test_separator_paragraph() {
    let mut writer = HwpxWriter::new();
    add_text_paragraphs(&mut writer, "첫 텍스트").unwrap();
    add_separator_paragraph(&mut writer).unwrap();
    add_text_paragraphs(&mut writer, "둘째 텍스트").unwrap();

    let bytes = writer.to_bytes().unwrap();
    assert!(!bytes.is_empty());
}

#[test]
fn test_empty_value() {
    let mut writer = HwpxWriter::new();
    add_text_paragraphs(&mut writer, "").unwrap();

    let bytes = writer.to_bytes().unwrap();
    assert!(!bytes.is_empty());
}

#[test]
fn test_special_characters() {
    let mut writer = HwpxWriter::new();
    add_text_paragraphs(&mut writer, "특수문자: <tag> & \"quotes\" 'apos'").unwrap();

    let bytes = writer.to_bytes().unwrap();
    assert!(!bytes.is_empty());

    let text = &writer.generate_section_xmls()[0];
    assert!(text.contains("<tag>") || text.contains("&lt;tag&gt;"));
}

#[test]
fn lines_become_paragraphs() {
    let mut writer = HwpxWriter::new();
    add_text_paragraphs(&mut writer, "첫 단락\n\n셋째 단락").unwrap();
    assert_eq!(texts(&writer), vec!["첫 단락", "", "셋째 단락"]);
    add_separator_paragraph(&mut writer).unwrap();
    add_text_paragraphs(&mut writer, "끝\n").unwrap();
    assert_eq!(texts(&writer), vec!["첫 단락", "", "셋째 단락", "", "끝", ""]);
}

#[test]
fn empty_value_gives_one_empty_paragraph() {
    let mut writer = HwpxWriter::new();
    add_text_paragraphs(&mut writer, "").unwrap();
    assert_eq!(texts(&writer), vec![""]);
}
