use std::io::{Cursor, Read};

use hwpx_writer::article::{convert, ArticleDocument, Content, ConvertOptions, Metadata};
use hwpx_writer::error::JsonToHwpxError;

fn article(id: &str, title: &str, contents: Vec<Content>) -> ArticleDocument {
    ArticleDocument {
        schema_version: None,
        article_id: id.to_string(),
        title: Some(title.to_string()),
        metadata: None,
        contents,
        content_html: None,
        attachment_count: None,
        total_attachment_size: None,
    }
}

fn text(v: &str) -> Content {
    Content::Text { value: v.to_string() }
}

fn table(v: &str) -> Content {
    Content::Table { value: v.to_string() }
}

fn entry(bytes: &[u8], name: &str) -> String {
    let mut archive = zip::ZipArchive::new(Cursor::new(bytes)).unwrap();
    let mut out = String::new();
    archive.by_name(name).unwrap().read_to_string(&mut out).unwrap();
    out
}

fn verify_hwpx_bytes(bytes: &[u8]) {
    assert!(!bytes.is_empty());
    assert_eq!(&bytes[0..2], b"PK");
    let archive = zip::ZipArchive::new(Cursor::new(bytes)).unwrap();
    assert_eq!(archive.name_for_index(0).unwrap().unwrap(), "mimetype");
}

fn convert_ok(input: &ArticleDocument, options: &ConvertOptions) -> Vec<u8> {
    let bytes = convert(input, options, &vec![]).unwrap();
    verify_hwpx_bytes(&bytes);
    bytes
}

#[test]
fn test_table_merge_cell_structure() {
    let html = r#"<table><tr><th colspan="3">제목</th></tr><tr><td rowspan="2">그룹</td><td>A</td><td>1</td></tr><tr><td>B</td><td>2</td></tr></table>"#;
    let bytes = convert_ok(&article("MERGE_STRUCT", "구조검증", vec![table(html)]), &ConvertOptions::default());
    let section_xml = entry(&bytes, "Contents/section0.xml");
    assert!(section_xml.contains(r#"colAddr="0" rowAddr="0""#));
    assert!(section_xml.contains(r#"colSpan="3" rowSpan="1""#));
    assert!(section_xml.contains(r#"colAddr="0" rowAddr="1""#));
    assert!(section_xml.contains(r#"colSpan="1" rowSpan="2""#));
    assert!(section_xml.contains(r#"colAddr="1" rowAddr="2""#));
    assert!(section_xml.contains(r#"colAddr="2" rowAddr="2""#));
}

#[test]
fn test_table_merge_width_calculation() {
    let html = r#"<table><tr><td colspan="2">병합</td><td>단일</td></tr><tr><td>A</td><td>B</td><td>C</td></tr></table>"#;
    let bytes = convert_ok(&article("MERGE_WIDTH", "너비검증", vec![table(html)]), &ConvertOptions::default());
    let section_xml = entry(&bytes, "Contents/section0.xml");
    assert!(section_xml.contains(r#"width="28346""#));
    assert!(section_xml.contains(r#"width="14173""#));
}

#[test]
fn test_table_merge_height_calculation() {
    let html = r#"<table><tr><td rowspan="3">병합</td><td>A</td></tr><tr><td>B</td></tr><tr><td>C</td></tr></table>"#;
    let bytes = convert_ok(&article("MERGE_HEIGHT", "높이검증", vec![table(html)]), &ConvertOptions::default());
    let section_xml = entry(&bytes, "Contents/section0.xml");
    assert!(section_xml.contains(r#"height="3000""#));
    assert!(section_xml.contains(r#"height="1000""#));
}

#[test]
fn test_table_with_text_before_after() {
    let input = article(
        "TBL_MIX001",
        "혼합",
        vec![text("표 앞 텍스트"), table("<table><tr><td>셀</td></tr></table>"), text("표 뒤 텍스트")],
    );
    let bytes = convert_ok(&input, &ConvertOptions::default());
    let preview = entry(&bytes, "Preview/PrvText.txt");
    assert!(preview.contains("표 앞 텍스트"));
    assert!(preview.contains("표 뒤 텍스트"));
}

#[test]
fn test_multiple_tables() {
    let input = article(
        "TBL_MULTI001",
        "다중 테이블",
        vec![
            table("<table><tr><td>첫째 표</td></tr></table>"),
            text("중간 텍스트"),
            table("<table><tr><td>둘째 표</td></tr></table>"),
        ],
    );
    let bytes = convert_ok(&input, &ConvertOptions::default());
    let section_xml = entry(&bytes, "Contents/section0.xml");
    assert!(section_xml.contains("첫째 표") && section_xml.contains("둘째 표"));
}

#[test]
fn test_invalid_html_table() {
    let input = article("TBL_ERR001", "에러", vec![table("<table></table>")]);
    let result = convert(&input, &ConvertOptions::default(), &vec![]);
    assert!(matches!(result, Err(JsonToHwpxError::Conversion(_))));
}

#[test]
fn test_large_table() {
    let mut rows_html = String::new();
    for i in 0..20 {
        rows_html.push_str(&format!("<tr><td>행{}</td><td>값A{}</td><td>값B{}</td><td>값C{}</td></tr>", i, i, i, i));
    }
    let html = format!("<table><thead><tr><th>번호</th><th>A</th><th>B</th><th>C</th></tr></thead><tbody>{}</tbody></table>", rows_html);
    let bytes = convert_ok(&article("TBL_BIG001", "큰 테이블", vec![table(&html)]), &ConvertOptions::default());
    let section_xml = entry(&bytes, "Contents/section0.xml");
    assert!(section_xml.contains(r#"rowCnt="21" colCnt="4""#));
}

#[test]
fn test_empty_contents_generates_valid_hwpx() {
    let bytes = convert_ok(&article("EMPTY001", "빈 문서", vec![]), &ConvertOptions::default());
    assert_eq!(entry(&bytes, "Preview/PrvText.txt"), " ");
}

#[test]
fn test_single_text_generates_valid_hwpx() {
    let bytes = convert_ok(&article("TEXT001", "텍스트 문서", vec![text("안녕하세요, HWPX 문서입니다.")]), &ConvertOptions::default());
    assert!(entry(&bytes, "Preview/PrvText.txt").contains("안녕하세요"));
}

#[test]
fn test_multiline_text() {
    let bytes = convert_ok(&article("TEXT002", "멀티라인", vec![text("첫 줄\n둘째 줄\n셋째 줄")]), &ConvertOptions::default());
    let preview = entry(&bytes, "Preview/PrvText.txt");
    assert!(preview.contains("첫 줄"));
    assert!(preview.contains("둘째 줄"));
    assert!(preview.contains("셋째 줄"));
}

#[test]
fn test_multiple_text_contents() {
    let bytes = convert_ok(
        &article("TEXT003", "연속 텍스트", vec![text("첫 번째 텍스트"), text("두 번째 텍스트")]),
        &ConvertOptions::default(),
    );
    let preview = entry(&bytes, "Preview/PrvText.txt");
    assert!(preview.contains("첫 번째 텍스트"));
    assert!(preview.contains("두 번째 텍스트"));
}

fn with_metadata(mut input: ArticleDocument, author: &str, dept: &str) -> ArticleDocument {
    input.metadata = Some(Metadata {
        author: Some(author.to_string()),
        department: Some(dept.to_string()),
        ..Metadata::default()
    });
    input
}

#[test]
fn test_include_header_option() {
    let input = with_metadata(article("HDR001", "헤더 포함 문서", vec![text("본문 내용")]), "홍길동", "개발팀");
    let options = ConvertOptions { include_header: true, header_fields: vec![] };
    let preview = entry(&convert_ok(&input, &options), "Preview/PrvText.txt");
    assert!(preview.contains("헤더 포함 문서"));
    assert!(preview.contains("홍길동"));
    assert!(preview.contains("개발팀"));
    assert!(preview.contains("본문 내용"));
}

#[test]
fn test_header_fields_filter() {
    let input = with_metadata(article("HDR002", "필터된 헤더", vec![text("본문")]), "숨길 이름", "팀");
    let options = ConvertOptions { include_header: true, header_fields: vec!["subject".to_string()] };
    let preview = entry(&convert_ok(&input, &options), "Preview/PrvText.txt");
    assert!(preview.contains("필터된 헤더"));
    assert!(!preview.contains("숨길 이름"));
}

#[test]
fn test_table_content() {
    let input = article(
        "TBL001",
        "표",
        vec![table("<table><tr><td>셀1</td><td>셀2</td></tr><tr><td>셀3</td><td>셀4</td></tr></table>")],
    );
    let section_xml = entry(&convert_ok(&input, &ConvertOptions::default()), "Contents/section0.xml");
    for cell in ["셀1", "셀2", "셀3", "셀4"] {
        assert!(section_xml.contains(&format!("<hp:t>{}</hp:t>", cell)));
    }
}

#[test]
fn test_mixed_content_types() {
    let input = article(
        "MIX001",
        "혼합",
        vec![text("텍스트 시작"), table("<table><tr><td>A</td></tr></table>"), text("텍스트 끝")],
    );
    let preview = entry(&convert_ok(&input, &ConvertOptions::default()), "Preview/PrvText.txt");
    assert!(preview.contains("텍스트 시작"));
    assert!(preview.contains("텍스트 끝"));
}

#[test]
fn test_special_characters_in_text() {
    let input = article("SPC001", "특수문자", vec![text("특수문자: <tag> & \"quotes\" 'apos'")]);
    let bytes = convert_ok(&input, &ConvertOptions::default());
    let section_xml = entry(&bytes, "Contents/section0.xml");
    assert!(section_xml.contains("&lt;tag&gt; &amp; &quot;quotes&quot; &apos;apos&apos;"));
    assert!(entry(&bytes, "Preview/PrvText.txt").contains("<tag>"));
}

#[test]
fn header_declares_the_section_count() {
    let bytes = convert_ok(&article("SEC001", "s", vec![text("x")]), &ConvertOptions::default());
    assert!(entry(&bytes, "Contents/header.xml").contains(r#"version="1.5" secCnt="1">"#));
    let scripts = {
        let mut archive = zip::ZipArchive::new(Cursor::new(&bytes)).unwrap();
        let mut v = Vec::new();
        archive.by_name("Scripts/headerScripts").unwrap().read_to_end(&mut v).unwrap();
        v
    };
    assert_eq!(scripts, vec![0xFF, 0xFE]);
}
