use hwpx_writer::convert::add_table_from_html;
use hwpx_writer::error::JsonToHwpxError;
use hwpx_writer::table::{compose_grid, parse_html_table, HwpxTable, ParsedCell};
use hwpx_writer::writer::HwpxWriter;

#[test]
fn test_simple_table() {
    let html = "<table><tr><td>A</td><td>B</td></tr><tr><td>C</td><td>D</td></tr></table>";
    let table = parse_html_table(html).unwrap();
    assert_eq!(table.rows.len(), 2);
    assert_eq!(table.rows[0], vec!["A", "B"]);
    assert_eq!(table.rows[1], vec!["C", "D"]);
}

#[test]
fn test_table_with_thead() {
    let html = "<table><thead><tr><th>헤더1</th><th>헤더2</th></tr></thead><tbody><tr><td>값1</td><td>값2</td></tr></tbody></table>";
    let table = parse_html_table(html).unwrap();
    assert_eq!(table.rows.len(), 2);
    assert_eq!(table.rows[0], vec!["헤더1", "헤더2"]);
}

#[test]
fn test_empty_table() {
    let html = "<table></table>";
    let result = parse_html_table(html);
    assert!(result.is_err());
}

#[test]
fn test_uneven_columns() {
    let html = "<table><tr><td>A</td><td>B</td><td>C</td></tr><tr><td>D</td></tr></table>";
    let table = parse_html_table(html).unwrap();
    assert_eq!(table.rows[1].len(), 3);
    assert_eq!(table.rows[1][1], "");
}

#[test]
fn test_add_table_to_writer() {
    let mut writer = HwpxWriter::new();
    let html = "<table><tr><td>A</td><td>B</td></tr></table>";
    add_table_from_html(&mut writer, html).unwrap();

    let bytes = writer.to_bytes().unwrap();
    assert!(!bytes.is_empty());
}

#[test]
fn test_colspan() {
    let html = r#"<table><tr><th colspan="3">합계</th></tr><tr><td>A</td><td>B</td><td>C</td></tr></table>"#;
    let table = parse_html_table(html).unwrap();
    assert_eq!(table.rows.len(), 2);
    assert_eq!(table.rows[0].len(), 3);
    assert_eq!(table.rows[0][0], "합계");
    let span = table.get_cell_span(0, 0);
    assert_eq!(span.col_span, 3);
    assert_eq!(span.row_span, 1);
    assert!(table.is_covered(0, 1));
    assert!(table.is_covered(0, 2));
    assert_eq!(table.rows[1], vec!["A", "B", "C"]);
    assert!(!table.is_covered(1, 0));
}

#[test]
fn test_rowspan() {
    let html = r#"<table><tr><td rowspan="2">병합</td><td>A</td></tr><tr><td>B</td></tr></table>"#;
    let table = parse_html_table(html).unwrap();
    assert_eq!(table.rows.len(), 2);
    assert_eq!(table.rows[0][0], "병합");
    assert_eq!(table.rows[0][1], "A");
    let span = table.get_cell_span(0, 0);
    assert_eq!(span.col_span, 1);
    assert_eq!(span.row_span, 2);
    assert!(table.is_covered(1, 0));
    assert_eq!(table.rows[1][1], "B");
}

#[test]
fn test_colspan_and_rowspan_combined() {
    let html = r#"<table>
            <tr><td colspan="2" rowspan="2">병합</td><td>C</td></tr>
            <tr><td>F</td></tr>
            <tr><td>G</td><td>H</td><td>I</td></tr>
        </table>"#;
    let table = parse_html_table(html).unwrap();
    assert_eq!(table.rows.len(), 3);
    assert_eq!(table.rows[0][0], "병합");
    let span = table.get_cell_span(0, 0);
    assert_eq!(span.col_span, 2);
    assert_eq!(span.row_span, 2);
    assert!(table.is_covered(0, 1));
    assert!(table.is_covered(1, 0));
    assert!(table.is_covered(1, 1));
    assert_eq!(table.rows[0][2], "C");
    assert_eq!(table.rows[1][2], "F");
    assert_eq!(table.rows[2], vec!["G", "H", "I"]);
}

#[test]
fn test_multiple_colspan_in_one_row() {
    let html = r#"<table>
            <tr><td colspan="2">AB</td><td colspan="2">CD</td></tr>
            <tr><td>A</td><td>B</td><td>C</td><td>D</td></tr>
        </table>"#;
    let table = parse_html_table(html).unwrap();
    assert_eq!(table.rows[0].len(), 4);
    assert_eq!(table.rows[0][0], "AB");
    assert_eq!(table.rows[0][2], "CD");
    assert!(table.is_covered(0, 1));
    assert!(table.is_covered(0, 3));
    let s1 = table.get_cell_span(0, 0);
    assert_eq!(s1.col_span, 2);
    let s2 = table.get_cell_span(0, 2);
    assert_eq!(s2.col_span, 2);
}

#[test]
fn test_multiple_rowspan_in_one_column() {
    let html = r#"<table>
            <tr><td rowspan="2">G1</td><td>A</td></tr>
            <tr><td>B</td></tr>
            <tr><td rowspan="2">G2</td><td>C</td></tr>
            <tr><td>D</td></tr>
        </table>"#;
    let table = parse_html_table(html).unwrap();
    assert_eq!(table.rows.len(), 4);
    assert_eq!(table.rows[0][0], "G1");
    assert_eq!(table.rows[2][0], "G2");
    assert!(table.is_covered(1, 0));
    assert!(table.is_covered(3, 0));
    assert_eq!(table.rows[1][1], "B");
    assert_eq!(table.rows[3][1], "D");
}

#[test]
fn test_rowspan_3_with_adjacent_cells() {
    let html = r#"<table>
            <tr><td rowspan="3">개발본부</td><td>프론트</td><td>5</td></tr>
            <tr><td>백엔드</td><td>8</td></tr>
            <tr><td>인프라</td><td>3</td></tr>
        </table>"#;
    let table = parse_html_table(html).unwrap();
    assert_eq!(table.rows.len(), 3);
    assert_eq!(table.rows[0][0], "개발본부");
    let span = table.get_cell_span(0, 0);
    assert_eq!(span.row_span, 3);
    assert!(table.is_covered(1, 0));
    assert!(table.is_covered(2, 0));
    assert_eq!(table.rows[1][1], "백엔드");
    assert_eq!(table.rows[1][2], "8");
    assert_eq!(table.rows[2][1], "인프라");
    assert_eq!(table.rows[2][2], "3");
}

#[test]
fn test_complex_irregular_merge() {
    let html = r#"<table>
            <tr><td colspan="3">헤더</td><td colspan="2">서브</td></tr>
            <tr><td rowspan="2">좌</td><td>A</td><td>B</td><td rowspan="2" colspan="2">큰영역</td></tr>
            <tr><td colspan="2">중간</td></tr>
            <tr><td colspan="5">하단</td></tr>
        </table>"#;
    let table = parse_html_table(html).unwrap();
    assert_eq!(table.rows.len(), 4);
    assert_eq!(table.rows[0].len(), 5);
    assert_eq!(table.rows[0][0], "헤더");
    assert_eq!(table.get_cell_span(0, 0).col_span, 3);
    assert_eq!(table.rows[0][3], "서브");
    assert_eq!(table.get_cell_span(0, 3).col_span, 2);
    assert_eq!(table.rows[1][0], "좌");
    assert_eq!(table.get_cell_span(1, 0).row_span, 2);
    assert_eq!(table.rows[1][3], "큰영역");
    assert_eq!(table.get_cell_span(1, 3).col_span, 2);
    assert_eq!(table.get_cell_span(1, 3).row_span, 2);
    assert!(table.is_covered(2, 0));
    assert_eq!(table.rows[2][1], "중간");
    assert_eq!(table.get_cell_span(2, 1).col_span, 2);
    assert!(table.is_covered(2, 3));
    assert!(table.is_covered(2, 4));
    assert_eq!(table.rows[3][0], "하단");
    assert_eq!(table.get_cell_span(3, 0).col_span, 5);
}

#[test]
fn test_inline_style_ignored() {
    let html = r#"<table><tr><td style="color:red; font-weight:bold;">스타일</td><td class="highlight">클래스</td></tr></table>"#;
    let table = parse_html_table(html).unwrap();
    assert_eq!(table.rows[0][0], "스타일");
    assert_eq!(table.rows[0][1], "클래스");
}

#[test]
fn test_th_treated_as_text() {
    let html = "<table><tr><th>헤더</th></tr><tr><td>데이터</td></tr></table>";
    let table = parse_html_table(html).unwrap();
    assert_eq!(table.rows[0][0], "헤더");
    assert_eq!(table.rows[1][0], "데이터");
}

#[test]
fn test_whitespace_trimming() {
    let html = "<table><tr><td>  공백  </td><td>\n줄바꿈\n</td></tr></table>";
    let table = parse_html_table(html).unwrap();
    assert_eq!(table.rows[0][0], "공백");
    assert_eq!(table.rows[0][1], "줄바꿈");
}

#[test]
fn test_nested_html_elements_text_only() {
    let html = "<table><tr><td><b>굵게</b> 일반</td><td><a href='#'>링크</a></td></tr></table>";
    let table = parse_html_table(html).unwrap();
    assert_eq!(table.rows[0][0], "굵게 일반");
    assert_eq!(table.rows[0][1], "링크");
}

#[test]
fn test_empty_cells() {
    let html = "<table><tr><td></td><td>값</td></tr><tr><td>A</td><td></td></tr></table>";
    let table = parse_html_table(html).unwrap();
    assert_eq!(table.rows[0][0], "");
    assert_eq!(table.rows[0][1], "값");
    assert_eq!(table.rows[1][0], "A");
    assert_eq!(table.rows[1][1], "");
}

#[test]
fn rowspan_scenario_grid() {
    let html = r#"<table><tr><td rowspan="2">G</td><td>A</td></tr><tr><td>B</td></tr></table>"#;
    let table = parse_html_table(html).unwrap();
    assert_eq!(table.rows.len(), 2);
    assert_eq!(table.rows[0].len(), 2);
    assert_eq!(table.rows[0][0], "G");
    let span = table.get_cell_span(0, 0);
    assert_eq!((span.col_span, span.row_span), (1, 2));
    assert_eq!(table.rows[0][1], "A");
    assert_eq!(table.rows[1][1], "B");
    assert!(table.is_covered(1, 0));
    assert!(!table.is_covered(0, 1) && !table.is_covered(1, 1) && !table.is_covered(0, 0));
}

#[test]
fn table_without_rows_is_a_conversion_error() {
    let mut writer = HwpxWriter::new();
    let err = add_table_from_html(&mut writer, "<p>no table here</p>").unwrap_err();
    assert!(matches!(err, JsonToHwpxError::Conversion(_)));
    assert_eq!(err.exit_code(), 2);
    assert!(writer.document().sections.is_empty());
}

#[test]
fn oversized_spans_are_clipped_to_the_grid() {
    let html = r#"<table><tr><td colspan="9" rowspan="1">X</td></tr><tr><td>A</td><td colspan="abc">B</td><td colspan="0">C</td></tr></table>"#;
    let table = parse_html_table(html).unwrap();
    // The widest row declares 9 columns, so the grid has 9 columns.
    assert_eq!(table.rows[0].len(), 9);
    assert_eq!(table.get_cell_span(0, 0).col_span, 9);
    assert_eq!(table.get_cell_span(1, 1).col_span, 1);
    assert_eq!(table.rows[1][2], "C");
    for (r, c) in table.covered.iter() {
        assert!(*r < table.rows.len() && *c < 9);
    }

    let cells = vec![
        vec![ParsedCell { text: "A".to_string(), col_span: 1, row_span: 1 }],
        vec![
            ParsedCell { text: "B".to_string(), col_span: 1, row_span: 1 },
            ParsedCell { text: "C".to_string(), col_span: 4, row_span: 1 },
        ],
    ];
    let t = compose_grid(&cells).unwrap();
    assert_eq!(t.rows[0].len(), 5);
    assert_eq!(t.get_cell_span(1, 1).col_span, 4);
    assert!(t.is_covered(1, 4));
    assert!(!t.is_covered(0, 1));
}

#[test]
fn cells_past_the_last_column_are_dropped() {
    let cells = vec![
        vec![
            ParsedCell { text: "A".to_string(), col_span: 1, row_span: 2 },
            ParsedCell { text: "B".to_string(), col_span: 1, row_span: 1 },
        ],
        vec![
            ParsedCell { text: "C".to_string(), col_span: 1, row_span: 1 },
            ParsedCell { text: "D".to_string(), col_span: 1, row_span: 1 },
        ],
    ];
    let t = compose_grid(&cells).unwrap();
    assert_eq!(t.rows, vec![vec!["A", "B"], vec!["", "C"]]);
    assert!(t.is_covered(1, 0));
}

#[test]
fn rowspan_past_the_last_row_extends_the_grid() {
    let cells = vec![vec![ParsedCell { text: "A".to_string(), col_span: 1, row_span: 3 }]];
    let t = compose_grid(&cells).unwrap();
    assert_eq!(t.rows.len(), 3);
    assert!(t.is_covered(1, 0) && t.is_covered(2, 0));
}

#[test]
fn plain_rows_read_back_unchanged() {
    let texts = [["a", "b", "c"], ["d", "e", "f"], ["g", "h", "i"]];
    let cells: Vec<Vec<ParsedCell>> = texts
        .iter()
        .map(|row| row.iter().map(|t| ParsedCell { text: t.to_string(), col_span: 1, row_span: 1 }).collect())
        .collect();
    let t = compose_grid(&cells).unwrap();
    assert_eq!(t.rows, texts.iter().map(|r| r.to_vec()).collect::<Vec<_>>());
    assert!(t.covered.is_empty() && t.cell_spans.is_empty());
}

#[test]
fn table_markup_skips_covered_cells() {
    let mut table = HwpxTable::new(2, 2);
    table.set_cell(0, 0, "G");
    table.set_cell_span(0, 0, 1, 2);
    let writer = HwpxWriter::new();
    let xml = writer.format_table(&table);
    assert!(xml.contains("rowCnt=\"2\" colCnt=\"2\""));
    assert!(xml.contains("<hp:cellAddr colAddr=\"0\" rowAddr=\"0\"/><hp:cellSpan colSpan=\"1\" rowSpan=\"2\"/><hp:cellSz width=\"21260\" height=\"2000\"/>"));
    assert!(!xml.contains("colAddr=\"0\" rowAddr=\"1\""));
    assert!(xml.contains("colAddr=\"1\" rowAddr=\"1\""));
}
