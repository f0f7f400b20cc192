use hwpx_writer::archive::EntryKind;
use hwpx_writer::chars::escape_xml;
use hwpx_writer::style::{HwpxTextStyle, StyledText};
use hwpx_writer::writer::{HwpxFooter, HwpxHeader, HwpxHyperlink, HwpxWriter, PageNumberFormat};

#[test]
fn test_hwpx_writer_new() {
    let writer = HwpxWriter::new();
    assert!(writer.document().sections.is_empty());
}

#[test]
fn test_hwpx_writer_add_paragraph() {
    let mut writer = HwpxWriter::new();
    writer.add_paragraph("Hello").unwrap();
    writer.add_paragraph("World").unwrap();

    assert_eq!(writer.document().sections.len(), 1);
    assert_eq!(writer.document().sections[0].paragraphs.len(), 2);
}

#[test]
fn test_escape_xml() {
    assert_eq!(escape_xml("<test>"), "&lt;test&gt;");
    assert_eq!(escape_xml("a & b"), "a &amp; b");
    assert_eq!(escape_xml("\"quote\""), "&quot;quote&quot;");
}

#[test]
fn test_generate_version_xml() {
    let writer = HwpxWriter::new();
    let xml = writer.generate_version_xml();
    assert!(xml.contains("HCFVersion"));
    assert!(xml.contains("2011/version"));
    assert!(xml.contains("standalone=\"yes\""));
    assert!(xml.contains("tagetApplication"));
}

#[test]
fn escape_xml_apostrophe_and_plain_text() {
    assert_eq!(escape_xml("it's"), "it&apos;s");
    assert_eq!(escape_xml("plain 한글"), "plain 한글");
    assert_eq!(escape_xml(""), "");
}

#[test]
fn encoding_a_style_twice_gives_new_ids_and_equal_records() {
    let mut writer = HwpxWriter::new();
    let style = HwpxTextStyle::new().bold().underline().size(12).color(0x112233);
    let a = writer.encode_style(&style);
    let b = writer.encode_style(&style);
    assert_eq!(a, 0);
    assert_eq!(b, 1);
    let shapes = &writer.document().char_shapes;
    assert_eq!(shapes[a], shapes[b]);
    assert_eq!(shapes[a].properties, 1 | 4);
    assert_eq!(shapes[a].base_size, 1200);
    assert_eq!(shapes[a].text_color, 0x112233);
}

#[test]
fn style_flags_follow_bit_order() {
    let all = HwpxTextStyle::new().bold().italic().underline().strikethrough().to_char_shape();
    assert_eq!(all.properties, 0b1111);
    let italic = HwpxTextStyle::new().italic().to_char_shape();
    assert_eq!(italic.properties, 0b10);
    assert!(italic.is_italic() && !italic.is_bold());
    let plain = HwpxTextStyle::new().to_char_shape();
    assert_eq!(plain.base_size, 1000);
    assert_eq!(plain.properties, 0);
}

#[test]
fn mixed_styled_paragraph_offsets_count_characters() {
    let mut writer = HwpxWriter::new();
    let runs = vec![
        StyledText::with_style("제목: ", HwpxTextStyle::new().bold()),
        StyledText::new("값"),
    ];
    writer.add_mixed_styled_paragraph(runs).unwrap();
    let p = &writer.document().sections[0].paragraphs[0];
    assert_eq!(p.text.as_deref(), Some("제목: 값"));
    let pos = p.char_shapes.as_ref().unwrap();
    assert_eq!(pos.len(), 2);
    assert_eq!(pos[0].position, 0);
    assert_eq!(pos[1].position, 4);
    assert_eq!(pos[1].char_shape_id, 1);
}

#[test]
fn preview_text_joins_paragraphs_or_is_a_space() {
    let empty = HwpxWriter::new();
    assert_eq!(empty.generate_preview_text(), " ");
    let mut writer = HwpxWriter::new();
    writer.add_paragraph("a").unwrap();
    writer.add_paragraph("b").unwrap();
    assert_eq!(writer.generate_preview_text(), "a\nb");
}

#[test]
fn package_layout_starts_with_uncompressed_marker() {
    let mut writer = HwpxWriter::new();
    writer.add_paragraph("x").unwrap();
    let entries = writer.package_entries();
    assert_eq!(entries[0].name, "mimetype");
    assert_eq!(entries[0].kind, EntryKind::Stored);
    assert_eq!(entries[0].data, b"application/hwp+zip".to_vec());
    let names: Vec<&str> = entries.iter().map(|e| e.name.as_str()).collect();
    assert_eq!(
        names,
        vec![
            "mimetype",
            "version.xml",
            "Contents",
            "Contents/header.xml",
            "Contents/section0.xml",
            "Preview",
            "Preview/PrvText.txt",
            "Scripts",
            "Scripts/headerScripts",
            "Scripts/sourceScripts",
            "settings.xml",
            "META-INF",
            "META-INF/container.xml",
            "META-INF/manifest.xml",
            "META-INF/container.rdf",
            "Contents/content.hpf",
        ]
    );
    assert_eq!(entries[8].data, vec![0xFF, 0xFE]);
    let bytes = writer.to_bytes().unwrap();
    assert_eq!(&bytes[0..4], b"PK\x03\x04");
    assert_eq!(&bytes[30..38], b"mimetype");
}

#[test]
fn package_lists_images_after_the_manifest() {
    let mut writer = HwpxWriter::new();
    let mut png = vec![0x89, 0x50, 0x4E, 0x47, 0x0D, 0x0A, 0x1A, 0x0A];
    png.extend_from_slice(&[0, 0, 0, 13, b'I', b'H', b'D', b'R', 0, 0, 0, 96, 0, 0, 0, 48]);
    let image = hwpx_writer::image::HwpxImage::from_bytes(png.clone()).unwrap();
    writer.add_image(image).unwrap();
    let entries = writer.package_entries();
    let n = entries.len();
    assert_eq!(entries[n - 2].name, "BinData");
    assert_eq!(entries[n - 1].name, "BinData/image1.png");
    assert_eq!(entries[n - 1].kind, EntryKind::Stored);
    assert_eq!(entries[n - 1].data, png);
    let header = writer.generate_header_xml();
    assert!(header.contains("<hh:binDataItems itemCnt=\"1\"><hh:binDataItem id=\"image1\" src=\"BinData/image1.png\" format=\"PNG\" isEmbeded=\"1\"/></hh:binDataItems>"));
    let hpf = writer.generate_content_hpf();
    assert!(hpf.contains("<opf:item id=\"image1\" href=\"BinData/image1.png\" media-type=\"image/png\" isEmbeded=\"1\"/>"));
    let section = &writer.generate_section_xmls()[0];
    assert!(section.contains("<hp:orgSz width=\"7086\" height=\"3685\"/>"));
    assert!(section.contains("scaMatrix e1=\"1.000000\""));
}

#[test]
fn wide_image_is_scaled_to_content_width() {
    let mut writer = HwpxWriter::new();
    let mut png = vec![0x89, 0x50, 0x4E, 0x47, 0x0D, 0x0A, 0x1A, 0x0A];
    png.extend_from_slice(&[0, 0, 0, 13, b'I', b'H', b'D', b'R', 0, 0, 0, 1, 0, 0, 0, 1]);
    let image = hwpx_writer::image::HwpxImage::from_bytes(png).unwrap().with_size(300, 100);
    writer.add_image(image).unwrap();
    let section = &writer.generate_section_xmls()[0];
    // 300 mm = 85039 units, 100 mm = 28346 units; scaled to 42520 wide.
    assert!(section.contains("<hp:orgSz width=\"85039\" height=\"28346\"/>"));
    assert!(section.contains("<hp:curSz width=\"42520\" height=\"14173\"/>"));
    assert!(section.contains("scaMatrix e1=\"0.500006\" e2=\"0\" e3=\"0\" e4=\"0\" e5=\"0.500000\""));
}

#[test]
fn hyperlinks_split_the_paragraph_into_runs() {
    let mut writer = HwpxWriter::new();
    writer
        .add_paragraph_with_hyperlinks("see docs here", vec![HwpxHyperlink::new("docs", "http://a/?x=1&y=2")])
        .unwrap();
    let section = &writer.generate_section_xmls()[0];
    assert!(section.contains("<hp:run charPrIDRef=\"0\"><hp:t>see </hp:t></hp:run><hp:run charPrIDRef=\"0\"><hp:ctrl><hp:hyperlink url=\"http://a/?x=1&amp;y=2\" visited=\"0\" visited_style=\"0\" new_window=\"0\"/></hp:ctrl><hp:t>docs</hp:t></hp:run><hp:run charPrIDRef=\"0\"><hp:t> here</hp:t></hp:run>"));
}

#[test]
fn headers_and_footers_go_into_the_first_paragraph() {
    let mut writer = HwpxWriter::new();
    writer.add_header("Top & co");
    writer.add_footer_config(HwpxFooter::new("Page ").with_page_number_format(PageNumberFormat::RomanUpper).for_even_pages());
    writer.add_header_config(HwpxHeader::for_odd_pages(""));
    writer.add_paragraph("body").unwrap();
    let ctrl = writer.generate_header_ctrl_xml();
    assert!(ctrl.contains("<hp:header id=\"1\" applyPageType=\"BOTH\">"));
    assert!(ctrl.contains("<hp:t>Top &amp; co</hp:t>"));
    assert!(ctrl.contains("<hp:header id=\"2\" applyPageType=\"ODD\">"));
    let footer = writer.generate_footer_ctrl_xml();
    assert!(footer.contains("applyPageType=\"EVEN\""));
    assert!(footer.contains("type=\"ROMAN_CAPITAL\""));
    let section = &writer.generate_section_xmls()[0];
    assert!(section.contains("<hp:footer id=\"1\""));
    assert!(section.contains("<hp:t>body</hp:t>"));
}

#[test]
fn styled_paragraph_runs_use_their_shapes() {
    let mut writer = HwpxWriter::new();
    writer.add_styled_paragraph("굵게", HwpxTextStyle::new().bold()).unwrap();
    let section = &writer.generate_section_xmls()[0];
    assert!(section.contains("<hp:run charPrIDRef=\"0\"><hp:t>굵게</hp:t></hp:run>"));
    let header = writer.generate_header_xml();
    assert!(header.contains("<hh:charProperties itemCnt=\"1\"><hh:charPr id=\"0\" height=\"1000\" bold=\"1\" textColor=\"#000000\""));
}

#[test]
fn content_manifest_escapes_metadata_and_counts_sections() {
    let mut writer = HwpxWriter::new();
    writer.set_metadata(hwpx_writer::writer::HwpxMetadata {
        title: "A <b>".to_string(),
        creator: "Kim".to_string(),
        created_date: "2025".to_string(),
    });
    let hpf = writer.generate_content_hpf();
    assert!(hpf.contains("<opf:title>A &lt;b&gt;</opf:title>"));
    assert!(hpf.contains("<opf:item id=\"section0\" href=\"Contents/section0.xml\" media-type=\"application/xml\"/>"));
    assert!(!hpf.contains("section1"));
    assert_eq!(writer.get_section_count(), 1);
    let rdf = writer.generate_container_rdf();
    assert!(rdf.contains("Contents/section0.xml"));
}
