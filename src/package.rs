//! The header, manifest, relation and preview parts of a package.
use vstd::prelude::*;
use vstd::string::*;

use crate::chars::{
    decimal, escape_spec, hex_padded, push_decimal, push_escaped, push_hex,
};
use crate::image::HwpxImageFormat;
use crate::image::HwpxImage;
use crate::style::{char_shape_of, has_flag, CharShape, HwpxTextStyle, FLAG_BOLD, FLAG_ITALIC, FLAG_STRIKETHROUGH, FLAG_UNDERLINE};
use crate::template::{CONTAINER_XML, HEAD_CLOSE, HEAD_FONTS, HEAD_MIDDLE, HEAD_OPEN, HWPX_NAMESPACES, MANIFEST_XML, SETTINGS_XML, VERSION_XML};
use crate::writer::{HwpDocument, HwpxWriter, Section};

verus! {

/// The default character shape, used when the shape table is empty.
pub open spec fn default_shape() -> CharShape {
    char_shape_of(
        HwpxTextStyle {
            font_name: None,
            font_size: None,
            bold: false,
            italic: false,
            underline: false,
            strikethrough: false,
            color: 0,
        },
    )
}

/// `#RRGGBB` of the low 24 bits of a colour.
pub open spec fn color_spec(c: u32) -> Seq<char> {
    "#"@ + hex_padded((c % 0x1000000) as nat, 6)
}

fn push_color(out: &mut String, c: u32)
    ensures
        final(out)@ == old(out)@ + color_spec(c),
{
    out.append("#");
    push_hex(out, c % 0x1000000, 6);
    assert(out@ =~= old(out)@ + color_spec(c));
}

pub open spec fn bold_attr_spec(p: u32) -> Seq<char> {
    if has_flag(p, FLAG_BOLD) {
        " bold=\"1\""@
    } else {
        Seq::empty()
    }
}

pub open spec fn italic_attr_spec(p: u32) -> Seq<char> {
    if has_flag(p, FLAG_ITALIC) {
        " italic=\"1\""@
    } else {
        Seq::empty()
    }
}

pub open spec fn underline_type_spec(p: u32) -> Seq<char> {
    if has_flag(p, FLAG_UNDERLINE) {
        "BOTTOM"@
    } else {
        "NONE"@
    }
}

pub open spec fn strikeout_shape_spec(p: u32) -> Seq<char> {
    if has_flag(p, FLAG_STRIKETHROUGH) {
        "CONTINUOUS"@
    } else {
        "NONE"@
    }
}

fn bold_attr(cs: &CharShape) -> (r: &'static str)
    ensures
        r@ == bold_attr_spec(cs.properties),
{
    if cs.is_bold() {
        " bold=\"1\""
    } else {
        proof {
            reveal_strlit("");
        }
        ""
    }
}

fn italic_attr(cs: &CharShape) -> (r: &'static str)
    ensures
        r@ == italic_attr_spec(cs.properties),
{
    if cs.is_italic() {
        " italic=\"1\""
    } else {
        proof {
            reveal_strlit("");
        }
        ""
    }
}

fn underline_type(cs: &CharShape) -> (r: &'static str)
    ensures
        r@ == underline_type_spec(cs.properties),
{
    if cs.is_underline() {
        "BOTTOM"
    } else {
        "NONE"
    }
}

fn strikeout_shape(cs: &CharShape) -> (r: &'static str)
    ensures
        r@ == strikeout_shape_spec(cs.properties),
{
    if cs.is_strikethrough() {
        "CONTINUOUS"
    } else {
        "NONE"
    }
}

/// The character-property element of shape `id`.
pub open spec fn char_pr_spec(id: nat, cs: CharShape) -> Seq<char> {
    "<hh:charPr id=\""@ + decimal(id) + "\" height=\""@ + decimal(cs.base_size as nat) + "\""@
        + bold_attr_spec(cs.properties) + italic_attr_spec(cs.properties)
        + " textColor=\""@ + color_spec(cs.text_color)
        + "\" shadeColor=\"none\" useFontSpace=\"0\" useKerning=\"0\" symMark=\"NONE\" borderFillIDRef=\"2\"><hh:fontRef hangul=\"0\" latin=\"0\" hanja=\"0\" japanese=\"0\" other=\"0\" symbol=\"0\" user=\"0\"/><hh:ratio hangul=\"100\" latin=\"100\" hanja=\"100\" japanese=\"100\" other=\"100\" symbol=\"100\" user=\"100\"/><hh:spacing hangul=\"0\" latin=\"0\" hanja=\"0\" japanese=\"0\" other=\"0\" symbol=\"0\" user=\"0\"/><hh:relSz hangul=\"100\" latin=\"100\" hanja=\"100\" japanese=\"100\" other=\"100\" symbol=\"100\" user=\"100\"/><hh:offset hangul=\"0\" latin=\"0\" hanja=\"0\" japanese=\"0\" other=\"0\" symbol=\"0\" user=\"0\"/><hh:underline type=\""@
        + underline_type_spec(cs.properties)
        + "\" shape=\"SOLID\" color=\""@ + color_spec(cs.underline_color)
        + "\"/><hh:strikeout shape=\""@
        + strikeout_shape_spec(cs.properties)
        + "\" color=\""@ + color_spec(cs.text_color)
        + "\"/><hh:outline type=\"NONE\"/><hh:shadow type=\"NONE\" color=\""@ + color_spec(cs.shadow_color)
        + "\" offsetX=\"10\" offsetY=\"10\"/></hh:charPr>"@
}

fn push_char_pr(out: &mut String, id: usize, cs: &CharShape)
    ensures
        final(out)@ == old(out)@ + char_pr_spec(id as nat, *cs),
{
    out.append("<hh:charPr id=\"");
    push_decimal(out, id as u128);
    out.append("\" height=\"");
    push_decimal(out, cs.base_size as u128);
    out.append("\"");
    out.append(bold_attr(cs));
    out.append(italic_attr(cs));
    out.append(" textColor=\"");
    push_color(out, cs.text_color);
    out.append("\" shadeColor=\"none\" useFontSpace=\"0\" useKerning=\"0\" symMark=\"NONE\" borderFillIDRef=\"2\"><hh:fontRef hangul=\"0\" latin=\"0\" hanja=\"0\" japanese=\"0\" other=\"0\" symbol=\"0\" user=\"0\"/><hh:ratio hangul=\"100\" latin=\"100\" hanja=\"100\" japanese=\"100\" other=\"100\" symbol=\"100\" user=\"100\"/><hh:spacing hangul=\"0\" latin=\"0\" hanja=\"0\" japanese=\"0\" other=\"0\" symbol=\"0\" user=\"0\"/><hh:relSz hangul=\"100\" latin=\"100\" hanja=\"100\" japanese=\"100\" other=\"100\" symbol=\"100\" user=\"100\"/><hh:offset hangul=\"0\" latin=\"0\" hanja=\"0\" japanese=\"0\" other=\"0\" symbol=\"0\" user=\"0\"/><hh:underline type=\"");
    out.append(underline_type(cs));
    out.append("\" shape=\"SOLID\" color=\"");
    push_color(out, cs.underline_color);
    out.append("\"/><hh:strikeout shape=\"");
    out.append(strikeout_shape(cs));
    out.append("\" color=\"");
    push_color(out, cs.text_color);
    out.append("\"/><hh:outline type=\"NONE\"/><hh:shadow type=\"NONE\" color=\"");
    push_color(out, cs.shadow_color);
    out.append("\" offsetX=\"10\" offsetY=\"10\"/></hh:charPr>");
    assert(out@ =~= old(out)@ + char_pr_spec(id as nat, *cs));
}

/// The character-property elements of the first `n` shapes.
pub open spec fn char_prs_spec(shapes: Seq<CharShape>, n: int) -> Seq<char>
    decreases n,
{
    if n <= 0 {
        Seq::empty()
    } else {
        char_prs_spec(shapes, n - 1) + char_pr_spec((n - 1) as nat, shapes[n - 1])
    }
}

/// The character properties of the header: one element per shape, or the
/// default shape when the table is empty.
pub open spec fn char_properties_spec(shapes: Seq<CharShape>) -> Seq<char> {
    "<hh:charProperties itemCnt=\""@ + decimal(if shapes.len() == 0 { 1 } else { shapes.len() })
        + "\">"@ + (if shapes.len() == 0 {
        char_pr_spec(0, default_shape())
    } else {
        char_prs_spec(shapes, shapes.len() as int)
    }) + "</hh:charProperties>"@
}

/// MIME type of an embedded image.
pub open spec fn media_type_spec(f: HwpxImageFormat) -> Seq<char> {
    match f {
        HwpxImageFormat::Png => "image/png"@,
        HwpxImageFormat::Jpeg => "image/jpg"@,
        HwpxImageFormat::Gif => "image/gif"@,
        HwpxImageFormat::Bmp => "image/bmp"@,
    }
}

/// Format name of an embedded image in the header.
pub open spec fn format_name_spec(f: HwpxImageFormat) -> Seq<char> {
    match f {
        HwpxImageFormat::Png => "PNG"@,
        HwpxImageFormat::Jpeg => "JPG"@,
        HwpxImageFormat::Gif => "GIF"@,
        HwpxImageFormat::Bmp => "BMP"@,
    }
}

fn media_type(f: HwpxImageFormat) -> (r: &'static str)
    ensures
        r@ == media_type_spec(f),
{
    match f {
        HwpxImageFormat::Png => "image/png",
        HwpxImageFormat::Jpeg => "image/jpg",
        HwpxImageFormat::Gif => "image/gif",
        HwpxImageFormat::Bmp => "image/bmp",
    }
}

fn format_name(f: HwpxImageFormat) -> (r: &'static str)
    ensures
        r@ == format_name_spec(f),
{
    match f {
        HwpxImageFormat::Png => "PNG",
        HwpxImageFormat::Jpeg => "JPG",
        HwpxImageFormat::Gif => "GIF",
        HwpxImageFormat::Bmp => "BMP",
    }
}

/// Archive entry name of the `k`-th image (0-based): `BinData/image{k+1}.{ext}`.
pub open spec fn image_entry_spec(k: nat, f: HwpxImageFormat) -> Seq<char> {
    "BinData/image"@ + decimal(k + 1) + "."@ + f.extension_spec()
}

pub(crate) fn push_image_entry_name(out: &mut String, k: usize, f: HwpxImageFormat)
    ensures
        final(out)@ == old(out)@ + image_entry_spec(k as nat, f),
{
    out.append("BinData/image");
    push_decimal(out, k as u128 + 1);
    out.append(".");
    out.append(f.extension());
    assert(out@ =~= old(out)@ + image_entry_spec(k as nat, f));
}

/// The header's binary item of the `k`-th image.
pub open spec fn bin_item_spec(k: nat, f: HwpxImageFormat) -> Seq<char> {
    "<hh:binDataItem id=\"image"@ + decimal(k + 1) + "\" src=\""@ + image_entry_spec(k, f)
        + "\" format=\""@ + format_name_spec(f) + "\" isEmbeded=\"1\"/>"@
}

pub open spec fn bin_items_list_spec(images: Seq<(usize, HwpxImage)>, n: int) -> Seq<char>
    decreases n,
{
    if n <= 0 {
        Seq::empty()
    } else {
        bin_items_list_spec(images, n - 1) + bin_item_spec((n - 1) as nat, images[n - 1].1.format)
    }
}

/// The header's list of binary items: absent when there are no images.
pub open spec fn bin_items_spec(images: Seq<(usize, HwpxImage)>) -> Seq<char> {
    if images.len() == 0 {
        Seq::empty()
    } else {
        "<hh:binDataItems itemCnt=\""@ + decimal(images.len()) + "\">"@ + bin_items_list_spec(
            images,
            images.len() as int,
        ) + "</hh:binDataItems>"@
    }
}

/// The document-header part.
pub open spec fn header_xml_spec(sections: nat, shapes: Seq<CharShape>, images: Seq<(usize, HwpxImage)>) -> Seq<char> {
    HEAD_OPEN@ + decimal(sections) + HEAD_FONTS@ + char_properties_spec(shapes) + HEAD_MIDDLE@ + bin_items_spec(images) + HEAD_CLOSE@
}

/// The `content.hpf` manifest item of the `k`-th image.
pub open spec fn image_manifest_item_spec(k: nat, f: HwpxImageFormat) -> Seq<char> {
    "<opf:item id=\"image"@ + decimal(k + 1) + "\" href=\""@ + image_entry_spec(k, f)
        + "\" media-type=\""@ + media_type_spec(f) + "\" isEmbeded=\"1\"/>"@
}

pub open spec fn image_manifest_spec(images: Seq<(usize, HwpxImage)>, n: int) -> Seq<char>
    decreases n,
{
    if n <= 0 {
        Seq::empty()
    } else {
        image_manifest_spec(images, n - 1) + image_manifest_item_spec((n - 1) as nat, images[n - 1].1.format)
    }
}

pub open spec fn section_manifest_spec(n: nat) -> Seq<char>
    decreases n,
{
    if n == 0 {
        Seq::empty()
    } else {
        section_manifest_spec((n - 1) as nat) + "<opf:item id=\"section"@ + decimal((n - 1) as nat)
            + "\" href=\"Contents/section"@ + decimal((n - 1) as nat) + ".xml\" media-type=\"application/xml\"/>"@
    }
}

pub open spec fn section_spine_spec(n: nat) -> Seq<char>
    decreases n,
{
    if n == 0 {
        Seq::empty()
    } else {
        section_spine_spec((n - 1) as nat) + "<opf:itemref idref=\"section"@ + decimal((n - 1) as nat)
            + "\" linear=\"yes\"/>"@
    }
}

/// The package manifest `content.hpf`: metadata, then every part.
pub open spec fn content_hpf_spec(
    title: Seq<char>,
    creator: Seq<char>,
    date: Seq<char>,
    sections: nat,
    images: Seq<(usize, HwpxImage)>,
) -> Seq<char> {
    "<?xml version=\"1.0\" encoding=\"UTF-8\" standalone=\"yes\" ?><opf:package "@ + HWPX_NAMESPACES@
        + " version=\"\" unique-identifier=\"\" id=\"\"><opf:metadata><opf:title>"@ + escape_spec(title)
        + "</opf:title><opf:language>ko</opf:language><opf:meta name=\"creator\" content=\"text\">"@
        + escape_spec(creator)
        + "</opf:meta><opf:meta name=\"subject\" content=\"text\"/><opf:meta name=\"description\" content=\"text\"/><opf:meta name=\"lastsaveby\" content=\"text\">"@
        + escape_spec(creator) + "</opf:meta><opf:meta name=\"CreatedDate\" content=\"text\">"@
        + escape_spec(date) + "</opf:meta><opf:meta name=\"ModifiedDate\" content=\"text\">"@
        + escape_spec(date) + "</opf:meta><opf:meta name=\"date\" content=\"text\">"@ + escape_spec(date)
        + "</opf:meta><opf:meta name=\"keyword\" content=\"text\"/></opf:metadata><opf:manifest><opf:item id=\"header\" href=\"Contents/header.xml\" media-type=\"application/xml\"/>"@
        + section_manifest_spec(sections) + image_manifest_spec(images, images.len() as int)
        + "<opf:item id=\"headersc\" href=\"Scripts/headerScripts\" media-type=\"application/x-javascript ;charset=utf-16\"/><opf:item id=\"sourcesc\" href=\"Scripts/sourceScripts\" media-type=\"application/x-javascript ;charset=utf-16\"/><opf:item id=\"settings\" href=\"settings.xml\" media-type=\"application/xml\"/></opf:manifest><opf:spine><opf:itemref idref=\"header\" linear=\"yes\"/>"@
        + section_spine_spec(sections)
        + "<opf:itemref idref=\"headersc\" linear=\"yes\"/><opf:itemref idref=\"sourcesc\" linear=\"yes\"/></opf:spine></opf:package>"@
}

pub open spec fn rdf_sections_spec(n: nat) -> Seq<char>
    decreases n,
{
    if n == 0 {
        Seq::empty()
    } else {
        rdf_sections_spec((n - 1) as nat)
            + "<rdf:Description rdf:about=\"\"><ns0:hasPart xmlns:ns0=\"http://www.hancom.co.kr/hwpml/2016/meta/pkg#\" rdf:resource=\"Contents/section"@
            + decimal((n - 1) as nat)
            + ".xml\"/></rdf:Description><rdf:Description rdf:about=\"Contents/section"@
            + decimal((n - 1) as nat)
            + ".xml\"><rdf:type rdf:resource=\"http://www.hancom.co.kr/hwpml/2016/meta/pkg#SectionFile\"/></rdf:Description>"@
    }
}

/// The package relations `container.rdf`: the header and every section.
pub open spec fn container_rdf_spec(sections: nat) -> Seq<char> {
    "<?xml version=\"1.0\" encoding=\"UTF-8\" standalone=\"yes\" ?><rdf:RDF xmlns:rdf=\"http://www.w3.org/1999/02/22-rdf-syntax-ns#\"><rdf:Description rdf:about=\"\"><ns0:hasPart xmlns:ns0=\"http://www.hancom.co.kr/hwpml/2016/meta/pkg#\" rdf:resource=\"Contents/header.xml\"/></rdf:Description><rdf:Description rdf:about=\"Contents/header.xml\"><rdf:type rdf:resource=\"http://www.hancom.co.kr/hwpml/2016/meta/pkg#HeaderFile\"/></rdf:Description>"@
        + rdf_sections_spec(sections)
        + "<rdf:Description rdf:about=\"\"><rdf:type rdf:resource=\"http://www.hancom.co.kr/hwpml/2016/meta/pkg#Document\"/></rdf:Description></rdf:RDF>"@
}

/// Number of sections written: at least one.
pub open spec fn section_count_spec(d: HwpDocument) -> nat {
    if d.sections@.len() == 0 {
        1
    } else {
        d.sections@.len()
    }
}

/// Preview text of the paragraphs of a section appended to `acc`: texts
/// joined by newlines.
pub open spec fn preview_paras(acc: Seq<char>, ps: Seq<crate::writer::Paragraph>, n: int) -> Seq<char>
    decreases n,
{
    if n <= 0 {
        acc
    } else {
        let before = preview_paras(acc, ps, n - 1);
        match ps[n - 1].text {
            Some(t) => if before.len() == 0 {
                t@
            } else {
                before + "\n"@ + t@
            },
            None => before,
        }
    }
}

pub open spec fn preview_sections(secs: Seq<Section>, n: int) -> Seq<char>
    decreases n,
{
    if n <= 0 {
        Seq::empty()
    } else {
        let ps = secs[n - 1].paragraphs@;
        preview_paras(preview_sections(secs, n - 1), ps, ps.len() as int)
    }
}

/// The plain-text preview: every paragraph text, joined by newlines; a
/// single space when there is no text.
pub open spec fn preview_spec(d: HwpDocument) -> Seq<char> {
    let t = preview_sections(d.sections@, d.sections@.len() as int);
    if t.len() == 0 {
        " "@
    } else {
        t
    }
}

fn push_bin_item(out: &mut String, k: usize, f: HwpxImageFormat)
    requires
        k < usize::MAX,
    ensures
        final(out)@ == old(out)@ + bin_item_spec(k as nat, f),
{
    out.append("<hh:binDataItem id=\"image");
    push_decimal(out, k as u128 + 1);
    out.append("\" src=\"");
    push_image_entry_name(out, k, f);
    out.append("\" format=\"");
    out.append(format_name(f));
    out.append("\" isEmbeded=\"1\"/>");
    assert(out@ =~= old(out)@ + bin_item_spec(k as nat, f));
}

fn push_image_manifest_item(out: &mut String, k: usize, f: HwpxImageFormat)
    requires
        k < usize::MAX,
    ensures
        final(out)@ == old(out)@ + image_manifest_item_spec(k as nat, f),
{
    out.append("<opf:item id=\"image");
    push_decimal(out, k as u128 + 1);
    out.append("\" href=\"");
    push_image_entry_name(out, k, f);
    out.append("\" media-type=\"");
    out.append(media_type(f));
    out.append("\" isEmbeded=\"1\"/>");
    assert(out@ =~= old(out)@ + image_manifest_item_spec(k as nat, f));
}

impl HwpxWriter {
    pub fn generate_version_xml(&self) -> (r: String)
        ensures
            r@ == VERSION_XML@,
    {
        String::from_str(VERSION_XML)
    }

    pub fn generate_settings_xml(&self) -> (r: String)
        ensures
            r@ == SETTINGS_XML@,
    {
        String::from_str(SETTINGS_XML)
    }

    pub fn generate_container_xml(&self) -> (r: String)
        ensures
            r@ == CONTAINER_XML@,
    {
        String::from_str(CONTAINER_XML)
    }

    pub fn generate_manifest_xml(&self) -> (r: String)
        ensures
            r@ == MANIFEST_XML@,
    {
        String::from_str(MANIFEST_XML)
    }

    /// The two script parts: a UTF-16 byte-order mark and nothing else.
    pub fn generate_header_scripts(&self) -> (r: Vec<u8>)
        ensures
            r@ == seq![0xFFu8, 0xFEu8],
    {
        let mut v: Vec<u8> = Vec::new();
        v.push(0xFF);
        v.push(0xFE);
        assert(v@ =~= seq![0xFFu8, 0xFEu8]);
        v
    }

    pub fn generate_source_scripts(&self) -> (r: Vec<u8>)
        ensures
            r@ == seq![0xFFu8, 0xFEu8],
    {
        self.generate_header_scripts()
    }

    /// Number of section parts: the sections of the document, at least one.
    pub fn get_section_count(&self) -> (r: usize)
        ensures
            r == section_count_spec(self.doc()),
    {
        let n = self.document().sections.len();
        if n == 0 {
            1
        } else {
            n
        }
    }

    pub fn generate_char_properties(&self) -> (r: String)
        ensures
            r@ == char_properties_spec(self.shapes()),
    {
        let shapes = &self.document().char_shapes;
        let mut xml = String::new();
        xml.append("<hh:charProperties itemCnt=\"");
        let count: usize = if shapes.len() == 0 {
            1
        } else {
            shapes.len()
        };
        push_decimal(&mut xml, count as u128);
        xml.append("\">");
        if shapes.len() == 0 {
            push_char_pr(&mut xml, 0, &CharShape::new_default());
        } else {
            let ghost start = xml@;
            let mut i: usize = 0;
            while i < shapes.len()
                invariant
                    i <= shapes@.len(),
                    xml@ == start + char_prs_spec(shapes@, i as int),
                decreases shapes@.len() - i,
            {
                push_char_pr(&mut xml, i, &shapes[i]);
                i += 1;
                assert(xml@ =~= start + char_prs_spec(shapes@, i as int));
            }
        }
        xml.append("</hh:charProperties>");
        assert(xml@ =~= char_properties_spec(self.shapes()));
        xml
    }

    pub fn generate_bin_data_items(&self) -> (r: String)
        ensures
            r@ == bin_items_spec(self.images()),
    {
        let images = self.images_ref();
        let mut xml = String::new();
        if images.len() == 0 {
            return xml;
        }
        xml.append("<hh:binDataItems itemCnt=\"");
        push_decimal(&mut xml, images.len() as u128);
        xml.append("\">");
        let ghost start = xml@;
        let mut i: usize = 0;
        while i < images.len()
            invariant
                i <= images@.len(),
                xml@ == start + bin_items_list_spec(images@, i as int),
            decreases images@.len() - i,
        {
            push_bin_item(&mut xml, i, images[i].1.format);
            i += 1;
            assert(xml@ =~= start + bin_items_list_spec(images@, i as int));
        }
        xml.append("</hh:binDataItems>");
        assert(xml@ =~= bin_items_spec(self.images()));
        xml
    }

    /// The document-header part; it declares the current section count and
/// lists the current shapes and images.
    pub fn generate_header_xml(&self) -> (r: String)
        ensures
            r@ == header_xml_spec(section_count_spec(self.doc()), self.shapes(), self.images()),
    {
        let mut xml = String::from_str(HEAD_OPEN);
        push_decimal(&mut xml, self.get_section_count() as u128);
        xml.append(HEAD_FONTS);
        xml.append(self.generate_char_properties().as_str());
        xml.append(HEAD_MIDDLE);
        xml.append(self.generate_bin_data_items().as_str());
        xml.append(HEAD_CLOSE);
        assert(xml@ =~= header_xml_spec(section_count_spec(self.doc()), self.shapes(), self.images()));
        xml
    }

    pub fn generate_container_rdf(&self) -> (r: String)
        ensures
            r@ == container_rdf_spec(section_count_spec(self.doc())),
    {
        let n = self.get_section_count();
        let mut rdf = String::from_str("<?xml version=\"1.0\" encoding=\"UTF-8\" standalone=\"yes\" ?><rdf:RDF xmlns:rdf=\"http://www.w3.org/1999/02/22-rdf-syntax-ns#\"><rdf:Description rdf:about=\"\"><ns0:hasPart xmlns:ns0=\"http://www.hancom.co.kr/hwpml/2016/meta/pkg#\" rdf:resource=\"Contents/header.xml\"/></rdf:Description><rdf:Description rdf:about=\"Contents/header.xml\"><rdf:type rdf:resource=\"http://www.hancom.co.kr/hwpml/2016/meta/pkg#HeaderFile\"/></rdf:Description>");
        let ghost start = rdf@;
        let mut i: usize = 0;
        while i < n
            invariant
                i <= n,
                rdf@ == start + rdf_sections_spec(i as nat),
            decreases n - i,
        {
            rdf.append("<rdf:Description rdf:about=\"\"><ns0:hasPart xmlns:ns0=\"http://www.hancom.co.kr/hwpml/2016/meta/pkg#\" rdf:resource=\"Contents/section");
            push_decimal(&mut rdf, i as u128);
            rdf.append(".xml\"/></rdf:Description><rdf:Description rdf:about=\"Contents/section");
            push_decimal(&mut rdf, i as u128);
            rdf.append(".xml\"><rdf:type rdf:resource=\"http://www.hancom.co.kr/hwpml/2016/meta/pkg#SectionFile\"/></rdf:Description>");
            i += 1;
            assert(rdf@ =~= start + rdf_sections_spec(i as nat));
        }
        rdf.append("<rdf:Description rdf:about=\"\"><rdf:type rdf:resource=\"http://www.hancom.co.kr/hwpml/2016/meta/pkg#Document\"/></rdf:Description></rdf:RDF>");
        assert(rdf@ =~= container_rdf_spec(section_count_spec(self.doc())));
        rdf
    }

    /// The package manifest; it lists the current sections and images.
    pub fn generate_content_hpf(&self) -> (r: String)
        ensures
            r@ == content_hpf_spec(
                self.meta().title@,
                self.meta().creator@,
                self.meta().created_date@,
                section_count_spec(self.doc()),
                self.images(),
            ),
    {
        let n = self.get_section_count();
        let mut sections_manifest = String::new();
        let mut sections_spine = String::new();
        let mut i: usize = 0;
        while i < n
            invariant
                i <= n,
                sections_manifest@ == section_manifest_spec(i as nat),
                sections_spine@ == section_spine_spec(i as nat),
            decreases n - i,
        {
            sections_manifest.append("<opf:item id=\"section");
            push_decimal(&mut sections_manifest, i as u128);
            sections_manifest.append("\" href=\"Contents/section");
            push_decimal(&mut sections_manifest, i as u128);
            sections_manifest.append(".xml\" media-type=\"application/xml\"/>");
            sections_spine.append("<opf:itemref idref=\"section");
            push_decimal(&mut sections_spine, i as u128);
            sections_spine.append("\" linear=\"yes\"/>");
            i += 1;
            assert(sections_manifest@ =~= section_manifest_spec(i as nat));
            assert(sections_spine@ =~= section_spine_spec(i as nat));
        }
        let images = self.images_ref();
        let mut images_manifest = String::new();
        let mut k: usize = 0;
        while k < images.len()
            invariant
                k <= images@.len(),
                images_manifest@ == image_manifest_spec(images@, k as int),
            decreases images@.len() - k,
        {
            push_image_manifest_item(&mut images_manifest, k, images[k].1.format);
            k += 1;
            assert(images_manifest@ =~= image_manifest_spec(images@, k as int));
        }
        let meta = self.metadata_ref();
        let mut xml = String::from_str("<?xml version=\"1.0\" encoding=\"UTF-8\" standalone=\"yes\" ?><opf:package ");
        xml.append(HWPX_NAMESPACES);
        xml.append(" version=\"\" unique-identifier=\"\" id=\"\"><opf:metadata><opf:title>");
        push_escaped(&mut xml, meta.title.as_str());
        xml.append("</opf:title><opf:language>ko</opf:language><opf:meta name=\"creator\" content=\"text\">");
        push_escaped(&mut xml, meta.creator.as_str());
        xml.append("</opf:meta><opf:meta name=\"subject\" content=\"text\"/><opf:meta name=\"description\" content=\"text\"/><opf:meta name=\"lastsaveby\" content=\"text\">");
        push_escaped(&mut xml, meta.creator.as_str());
        xml.append("</opf:meta><opf:meta name=\"CreatedDate\" content=\"text\">");
        push_escaped(&mut xml, meta.created_date.as_str());
        xml.append("</opf:meta><opf:meta name=\"ModifiedDate\" content=\"text\">");
        push_escaped(&mut xml, meta.created_date.as_str());
        xml.append("</opf:meta><opf:meta name=\"date\" content=\"text\">");
        push_escaped(&mut xml, meta.created_date.as_str());
        xml.append("</opf:meta><opf:meta name=\"keyword\" content=\"text\"/></opf:metadata><opf:manifest><opf:item id=\"header\" href=\"Contents/header.xml\" media-type=\"application/xml\"/>");
        xml.append(sections_manifest.as_str());
        xml.append(images_manifest.as_str());
        xml.append("<opf:item id=\"headersc\" href=\"Scripts/headerScripts\" media-type=\"application/x-javascript ;charset=utf-16\"/><opf:item id=\"sourcesc\" href=\"Scripts/sourceScripts\" media-type=\"application/x-javascript ;charset=utf-16\"/><opf:item id=\"settings\" href=\"settings.xml\" media-type=\"application/xml\"/></opf:manifest><opf:spine><opf:itemref idref=\"header\" linear=\"yes\"/>");
        xml.append(sections_spine.as_str());
        xml.append("<opf:itemref idref=\"headersc\" linear=\"yes\"/><opf:itemref idref=\"sourcesc\" linear=\"yes\"/></opf:spine></opf:package>");
        assert(xml@ =~= content_hpf_spec(
            self.meta().title@,
            self.meta().creator@,
            self.meta().created_date@,
            section_count_spec(self.doc()),
            self.images(),
        ));
        xml
    }

    /// The plain-text preview of the document.
    pub fn generate_preview_text(&self) -> (r: String)
        ensures
            r@ == preview_spec(self.doc()),
    {
        let secs = &self.document().sections;
        let mut text = String::new();
        let mut i: usize = 0;
        while i < secs.len()
            invariant
                i <= secs@.len(),
                text@ == preview_sections(secs@, i as int),
            decreases secs@.len() - i,
        {
            let ps = &secs[i].paragraphs;
            let ghost acc = text@;
            let mut j: usize = 0;
            while j < ps.len()
                invariant
                    j <= ps@.len(),
                    text@ == preview_paras(acc, ps@, j as int),
                decreases ps@.len() - j,
            {
                match &ps[j].text {
                    Some(t) => {
                        if text.as_str().unicode_len() != 0 {
                            text.append("\n");
                        }
                        text.append(t.as_str());
                    },
                    None => {},
                }
                j += 1;
                assert(text@ =~= preview_paras(acc, ps@, j as int));
            }
            i += 1;
        }
        if text.as_str().unicode_len() == 0 {
            text = String::from_str(" ");
        }
        text
    }
}

} // verus!
