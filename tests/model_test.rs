use hwpx_writer::article::{build_document, convert, select_header_lines, ArticleDocument, Content, ConvertOptions, Metadata};
use hwpx_writer::error::JsonToHwpxError;

fn article(id: &str, title: Option<&str>, contents: Vec<Content>) -> ArticleDocument {
    ArticleDocument {
        schema_version: None,
        article_id: id.to_string(),
        title: title.map(|t| t.to_string()),
        metadata: None,
        contents,
        content_html: None,
        attachment_count: None,
        total_attachment_size: None,
    }
}

#[test]
fn test_convert_options_default() {
    let opts = ConvertOptions::default();
    assert!(!opts.include_header);
    assert!(opts.header_fields.is_empty());
}

#[test]
fn model_test_validate_success() {
    let doc = article("T1", Some("S"), vec![]);
    assert!(doc.validate().is_ok());
}

#[test]
fn test_validate_empty_article_id() {
    let doc = article("  ", Some("S"), vec![]);
    let err = doc.validate().unwrap_err();
    assert_eq!(err.exit_code(), 1);
}

#[test]
fn test_convert_simple_text() {
    let input = article("TEST001", Some("테스트 문서"), vec![Content::Text { value: "안녕하세요".to_string() }]);
    let result = convert(&input, &ConvertOptions::default(), &vec![]);
    assert!(result.is_ok());
    assert!(!result.unwrap().is_empty());
}

#[test]
fn test_convert_empty_contents() {
    let input = article("TEST002", Some("빈 문서"), vec![]);
    let result = convert(&input, &ConvertOptions::default(), &vec![]);
    assert!(result.is_ok());
}

#[test]
fn test_convert_empty_article_id_fails() {
    let input = article("  ", Some("에러"), vec![]);
    let result = convert(&input, &ConvertOptions::default(), &vec![]);
    assert!(result.is_err());
}

#[test]
fn empty_table_content_is_a_conversion_error() {
    let input = article("T", None, vec![Content::Table { value: "<table></table>".to_string() }]);
    let err = convert(&input, &ConvertOptions::default(), &vec![]).unwrap_err();
    assert_eq!(err.error_code(), "CONVERSION_ERROR");
    assert_eq!(err.exit_code(), 2);
}

#[test]
fn missing_image_is_a_conversion_error() {
    let input = article(
        "T",
        None,
        vec![Content::Image { url: Some("a.png".to_string()), base64: None, format: None }],
    );
    let err = convert(&input, &ConvertOptions::default(), &vec![Err("HTTP 404".to_string())]).unwrap_err();
    assert!(matches!(err, JsonToHwpxError::Conversion(_)));
}

#[test]
fn error_codes_and_exit_codes() {
    let cases = [
        (JsonToHwpxError::Input(String::new()), 1, "INPUT_ERROR"),
        (JsonToHwpxError::Conversion(String::new()), 2, "CONVERSION_ERROR"),
        (JsonToHwpxError::Io(String::new()), 3, "IO_ERROR"),
        (JsonToHwpxError::Hwpx(String::new()), 2, "HWPX_ERROR"),
    ];
    for (e, code, name) in cases.iter() {
        assert_eq!(e.exit_code(), *code);
        assert_eq!(e.error_code(), *name);
    }
}

#[test]
fn header_lines_keep_one_line_per_label() {
    let mut input = article("T", Some("제목값"), vec![]);
    input.metadata = Some(Metadata {
        author: Some("홍길동".to_string()),
        department: Some("개발팀".to_string()),
        created_at: Some("2025-01-24".to_string()),
        ..Metadata::default()
    });
    let all = select_header_lines(&input, &ConvertOptions::default());
    let labels: Vec<&str> = all.iter().map(|(l, _)| l.as_str()).collect();
    assert_eq!(labels, vec!["제목", "작성자", "부서", "작성일"]);
    let only = ConvertOptions { include_header: true, header_fields: vec!["regEmpName".to_string()] };
    let some = select_header_lines(&input, &only);
    assert_eq!(some, vec![("작성자".to_string(), "홍길동".to_string())]);
    let bytes = convert(&input, &only, &vec![]).unwrap();
    assert!(!bytes.is_empty());
}

#[test]
fn document_metadata_and_header_paragraphs() {
    let mut input = article("T9", Some("보고서"), vec![Content::Text { value: "본문".to_string() }]);
    input.metadata = Some(Metadata {
        author: Some("홍길동".to_string()),
        department: Some("개발팀".to_string()),
        ..Metadata::default()
    });
    let options = ConvertOptions { include_header: true, header_fields: vec![] };
    let writer = build_document(&input, &options, &vec![]).unwrap();
    let hpf = writer.generate_content_hpf();
    assert!(hpf.contains("<opf:title>보고서</opf:title>"));
    assert!(hpf.contains("content=\"text\">홍길동 (개발팀)</opf:meta>"));
    let texts: Vec<String> = writer.document().sections[0]
        .paragraphs
        .iter()
        .map(|p| p.text.clone().unwrap_or_default())
        .collect();
    assert_eq!(
        texts,
        vec!["제목: 보고서", "작성자: 홍길동", "부서: 개발팀", "─────────────────────────", "", "본문"]
    );
}

#[test]
fn contents_are_separated_by_empty_paragraphs() {
    let input = article(
        "T",
        None,
        vec![
            Content::Text { value: "a".to_string() },
            Content::Table { value: "<table><tr><td>x</td></tr></table>".to_string() },
            Content::Text { value: "b".to_string() },
        ],
    );
    let writer = build_document(&input, &ConvertOptions::default(), &vec![]).unwrap();
    let texts: Vec<String> = writer.document().sections[0]
        .paragraphs
        .iter()
        .map(|p| p.text.clone().unwrap_or_default())
        .collect();
    assert_eq!(texts, vec!["a", "", "", "", "b"]);
    let section = &writer.generate_section_xmls()[0];
    assert!(section.contains("<hp:tbl id=\"1\""));
}
