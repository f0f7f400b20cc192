//! The document model and the builder that fills it.
use vstd::prelude::*;

use crate::error::JsonToHwpxError;
use crate::image::HwpxImage;
use crate::style::{char_shape_of, CharShape, HwpxTextStyle, StyledText};
use crate::table::HwpxTable;

verus! {

/// A style run of a paragraph: from character offset `position` on, the
/// text uses shape `char_shape_id`.
#[derive(Debug, Clone, Copy, PartialEq, Eq, Structural)]
pub struct CharPositionShape {
    pub position: usize,
    pub char_shape_id: usize,
}

/// A paragraph: optional text and optional style runs (absent: the whole
/// paragraph uses the default style).
#[derive(Debug, Clone)]
pub struct Paragraph {
    pub text: Option<String>,
    pub char_shapes: Option<Vec<CharPositionShape>>,
    pub para_shape_id: u16,
}

#[derive(Debug, Clone)]
pub struct Section {
    pub paragraphs: Vec<Paragraph>,
}

/// The document model: sections of paragraphs and the shape table.
#[derive(Debug, Clone)]
pub struct HwpDocument {
    pub sections: Vec<Section>,
    pub char_shapes: Vec<CharShape>,
}

/// A link inside a paragraph: the text it anchors to and its target.
#[derive(Debug, Clone)]
pub struct HwpxHyperlink {
    pub text: String,
    pub url: String,
}

impl HwpxHyperlink {
    pub fn new(text: &str, url: &str) -> (r: HwpxHyperlink)
        ensures
            r.text@ == text@,
            r.url@ == url@,
    {
        HwpxHyperlink { text: String::from_str(text), url: String::from_str(url) }
    }
}

/// Which pages a header or footer applies to.
#[derive(Debug, Clone, Copy, PartialEq, Eq, Structural)]
pub enum HeaderFooterApplyTo {
    All,
    Odd,
    Even,
}

/// A page header.
#[derive(Debug, Clone)]
pub struct HwpxHeader {
    pub text: String,
    pub apply_to: HeaderFooterApplyTo,
}

impl HwpxHeader {
    pub fn new(text: &str) -> (r: HwpxHeader)
        ensures
            r.text@ == text@,
            r.apply_to == HeaderFooterApplyTo::All,
    {
        HwpxHeader { text: String::from_str(text), apply_to: HeaderFooterApplyTo::All }
    }

    pub fn for_odd_pages(text: &str) -> (r: HwpxHeader)
        ensures
            r.text@ == text@,
            r.apply_to == HeaderFooterApplyTo::Odd,
    {
        HwpxHeader { text: String::from_str(text), apply_to: HeaderFooterApplyTo::Odd }
    }

    pub fn for_even_pages(text: &str) -> (r: HwpxHeader)
        ensures
            r.text@ == text@,
            r.apply_to == HeaderFooterApplyTo::Even,
    {
        HwpxHeader { text: String::from_str(text), apply_to: HeaderFooterApplyTo::Even }
    }
}

/// Numbering style of an automatic page number.
#[derive(Debug, Clone, Copy, PartialEq, Eq, Structural)]
pub enum PageNumberFormat {
    /// 1, 2, 3, ...
    Numeric,
    /// i, ii, iii, ...
    RomanLower,
    /// I, II, III, ...
    RomanUpper,
    /// a, b, c, ...
    AlphaLower,
    /// A, B, C, ...
    AlphaUpper,
}

impl PageNumberFormat {
    pub open spec fn format_name(self) -> Seq<char> {
        match self {
            PageNumberFormat::Numeric => "DIGIT"@,
            PageNumberFormat::RomanLower => "ROMAN_SMALL"@,
            PageNumberFormat::RomanUpper => "ROMAN_CAPITAL"@,
            PageNumberFormat::AlphaLower => "LATIN_SMALL"@,
            PageNumberFormat::AlphaUpper => "LATIN_CAPITAL"@,
        }
    }

    /// The package format's name of the numbering style.
    pub fn as_hwpx_format(self) -> (r: &'static str)
        ensures
            r@ == self.format_name(),
    {
        match self {
            PageNumberFormat::Numeric => "DIGIT",
            PageNumberFormat::RomanLower => "ROMAN_SMALL",
            PageNumberFormat::RomanUpper => "ROMAN_CAPITAL",
            PageNumberFormat::AlphaLower => "LATIN_SMALL",
            PageNumberFormat::AlphaUpper => "LATIN_CAPITAL",
        }
    }
}

/// A page footer, optionally followed by an automatic page number.
#[derive(Debug, Clone)]
pub struct HwpxFooter {
    pub text: String,
    pub include_page_number: bool,
    pub page_number_format: PageNumberFormat,
    pub apply_to: HeaderFooterApplyTo,
}

impl HwpxFooter {
    pub fn new(text: &str) -> (r: HwpxFooter)
        ensures
            r.text@ == text@,
            !r.include_page_number,
            r.page_number_format == PageNumberFormat::Numeric,
            r.apply_to == HeaderFooterApplyTo::All,
    {
        HwpxFooter {
            text: String::from_str(text),
            include_page_number: false,
            page_number_format: PageNumberFormat::Numeric,
            apply_to: HeaderFooterApplyTo::All,
        }
    }

    pub fn with_page_number(self) -> (r: HwpxFooter)
        ensures
            r.text == self.text,
            r.include_page_number,
            r.page_number_format == self.page_number_format,
            r.apply_to == self.apply_to,
    {
        HwpxFooter { include_page_number: true, ..self }
    }

    pub fn with_page_number_format(self, format: PageNumberFormat) -> (r: HwpxFooter)
        ensures
            r.text == self.text,
            r.include_page_number,
            r.page_number_format == format,
            r.apply_to == self.apply_to,
    {
        HwpxFooter { include_page_number: true, page_number_format: format, ..self }
    }

    pub fn for_odd_pages(self) -> (r: HwpxFooter)
        ensures
            r.text == self.text,
            r.include_page_number == self.include_page_number,
            r.page_number_format == self.page_number_format,
            r.apply_to == HeaderFooterApplyTo::Odd,
    {
        HwpxFooter { apply_to: HeaderFooterApplyTo::Odd, ..self }
    }

    pub fn for_even_pages(self) -> (r: HwpxFooter)
        ensures
            r.text == self.text,
            r.include_page_number == self.include_page_number,
            r.page_number_format == self.page_number_format,
            r.apply_to == HeaderFooterApplyTo::Even,
    {
        HwpxFooter { apply_to: HeaderFooterApplyTo::Even, ..self }
    }
}

/// Document metadata written to the package manifest.
#[derive(Debug, Clone)]
pub struct HwpxMetadata {
    pub title: String,
    pub creator: String,
    pub created_date: String,
}

impl Default for HwpxMetadata {
    fn default() -> (r: HwpxMetadata)
        ensures
            r.title@.len() == 0,
            r.creator@.len() == 0,
            r.created_date@.len() == 0,
    {
        HwpxMetadata { title: String::new(), creator: String::new(), created_date: String::new() }
    }
}

/// Total number of paragraphs over the sections.
pub open spec fn total_paragraphs(s: Seq<Section>) -> nat
    decreases s.len(),
{
    if s.len() == 0 {
        0
    } else {
        total_paragraphs(s.drop_last()) + s.last().paragraphs@.len()
    }
}

/// Paragraph count, saturating at `usize::MAX`.
pub open spec fn paragraph_count(d: HwpDocument) -> nat {
    let n = total_paragraphs(d.sections@);
    if n > usize::MAX {
        usize::MAX as nat
    } else {
        n
    }
}

/// `new` is `old` with paragraph `p` appended to the first section (created
/// when there is none); the shape table is left as it was.
pub open spec fn appended(old: HwpDocument, new: HwpDocument) -> bool {
    &&& new.char_shapes == old.char_shapes
    &&& sections_appended(old, new)
}

/// The sections of `new` are those of `old` with one paragraph appended to
/// the first section (created when there is none).
pub open spec fn sections_appended(old: HwpDocument, new: HwpDocument) -> bool {
    &&& if old.sections@.len() == 0 {
        new.sections@.len() == 1 && new.sections@[0].paragraphs@.len() == 1
    } else {
        &&& new.sections@.len() == old.sections@.len()
        &&& forall|i: int| 1 <= i < old.sections@.len() ==> #[trigger] new.sections@[i] == old.sections@[i]
        &&& new.sections@[0].paragraphs@.drop_last() == old.sections@[0].paragraphs@
        &&& new.sections@[0].paragraphs@.len() == old.sections@[0].paragraphs@.len() + 1
    }
}

/// The last paragraph of the first section.
pub open spec fn last_paragraph(d: HwpDocument) -> Paragraph {
    d.sections@[0].paragraphs@.last()
}

/// The paragraphs of the first section, where new paragraphs go.
pub open spec fn body(d: HwpDocument) -> Seq<Paragraph> {
    if d.sections@.len() == 0 {
        Seq::empty()
    } else {
        d.sections@[0].paragraphs@
    }
}

/// Appending a paragraph extends the body by that paragraph.
pub proof fn lemma_appended_body(old: HwpDocument, new: HwpDocument)
    requires
        sections_appended(old, new),
    ensures
        body(new) == body(old).push(last_paragraph(new)),
        new.sections@.len() >= 1,
{
    if old.sections@.len() == 0 {
        assert(body(new) =~= body(old).push(last_paragraph(new)));
    } else {
        assert(body(new) =~= body(old).push(last_paragraph(new)));
    }
}

/// A paragraph holding `t` in the default style.
pub open spec fn is_plain(p: Paragraph, t: Seq<char>) -> bool {
    &&& p.text matches Some(s) && s@ == t
    &&& p.char_shapes is None
    &&& p.para_shape_id == 0
}

/// Concatenated text of the runs.
pub open spec fn runs_text(runs: Seq<StyledText>) -> Seq<char>
    decreases runs.len(),
{
    if runs.len() == 0 {
        Seq::empty()
    } else {
        runs_text(runs.drop_last()) + runs.last().text@
    }
}

/// Writes documents of the package format: collects paragraphs, tables,
/// images, links, headers and footers, then serialises them.
pub struct HwpxWriter {
    document: HwpDocument,
    tables: Vec<(usize, HwpxTable)>,
    images: Vec<(usize, HwpxImage)>,
    hyperlinks: Vec<(usize, Vec<HwpxHyperlink>)>,
    headers: Vec<HwpxHeader>,
    footers: Vec<HwpxFooter>,
    next_table_id: u32,
    next_image_id: u32,
    metadata: HwpxMetadata,
}

impl HwpxWriter {
    pub closed spec fn doc(&self) -> HwpDocument {
        self.document
    }

    /// The shape table.
    pub open spec fn shapes(&self) -> Seq<CharShape> {
        self.doc().char_shapes@
    }

    /// Tables by the paragraph that holds them.
    pub closed spec fn tables(&self) -> Seq<(usize, HwpxTable)> {
        self.tables@
    }

    /// Images by the paragraph that holds them, in the order of the archive.
    pub closed spec fn images(&self) -> Seq<(usize, HwpxImage)> {
        self.images@
    }

    /// Link sets by the paragraph that holds them.
    pub closed spec fn hyperlinks(&self) -> Seq<(usize, Vec<HwpxHyperlink>)> {
        self.hyperlinks@
    }

    pub closed spec fn headers(&self) -> Seq<HwpxHeader> {
        self.headers@
    }

    pub closed spec fn footers(&self) -> Seq<HwpxFooter> {
        self.footers@
    }

    pub closed spec fn meta(&self) -> HwpxMetadata {
        self.metadata
    }

    pub closed spec fn id_bases(&self) -> (u32, u32) {
        (self.next_table_id, self.next_image_id)
    }

    /// Everything but the document is as in `o`.
    pub open spec fn same_attachments(&self, o: HwpxWriter) -> bool {
        &&& self.tables() == o.tables()
        &&& self.images() == o.images()
        &&& self.hyperlinks() == o.hyperlinks()
        &&& self.headers() == o.headers()
        &&& self.footers() == o.footers()
        &&& self.meta() == o.meta()
        &&& self.id_bases() == o.id_bases()
    }

    /// The attachments, metadata and id bases are as in `o`.
    pub open spec fn same_content(&self, o: HwpxWriter) -> bool {
        &&& self.tables() == o.tables()
        &&& self.images() == o.images()
        &&& self.hyperlinks() == o.hyperlinks()
        &&& self.meta() == o.meta()
        &&& self.id_bases() == o.id_bases()
    }

    /// Everything but the document and the listed attachments is as in `o`.
    pub open spec fn same_settings(&self, o: HwpxWriter) -> bool {
        &&& self.headers() == o.headers()
        &&& self.footers() == o.footers()
        &&& self.meta() == o.meta()
        &&& self.id_bases() == o.id_bases()
    }

    fn from_parts(document: HwpDocument) -> (r: HwpxWriter)
        ensures
            r.doc() == document,
            r.tables().len() == 0,
            r.images().len() == 0,
            r.hyperlinks().len() == 0,
            r.headers().len() == 0,
            r.footers().len() == 0,
            r.id_bases() == (1u32, 1u32),
            r.meta().title@.len() == 0 && r.meta().creator@.len() == 0 && r.meta().created_date@.len() == 0,
    {
        HwpxWriter {
            document,
            tables: Vec::new(),
            images: Vec::new(),
            hyperlinks: Vec::new(),
            headers: Vec::new(),
            footers: Vec::new(),
            next_table_id: 1,
            next_image_id: 1,
            metadata: HwpxMetadata::default(),
        }
    }

    /// An empty document.
    pub fn new() -> (r: HwpxWriter)
        ensures
            r.doc().sections@.len() == 0,
            r.shapes().len() == 0,
            r.tables().len() == 0,
            r.images().len() == 0,
            r.hyperlinks().len() == 0,
            r.headers().len() == 0,
            r.footers().len() == 0,
            r.id_bases() == (1u32, 1u32),
            r.meta().title@.len() == 0 && r.meta().creator@.len() == 0 && r.meta().created_date@.len() == 0,
    {
        HwpxWriter::from_parts(HwpDocument { sections: Vec::new(), char_shapes: Vec::new() })
    }

    /// A writer around an existing document model.
    pub fn from_document(document: HwpDocument) -> (r: HwpxWriter)
        ensures
            r.doc() == document,
            r.tables().len() == 0,
            r.images().len() == 0,
            r.hyperlinks().len() == 0,
            r.headers().len() == 0,
            r.footers().len() == 0,
            r.id_bases() == (1u32, 1u32),
            r.meta().title@.len() == 0 && r.meta().creator@.len() == 0 && r.meta().created_date@.len() == 0,
    {
        HwpxWriter::from_parts(document)
    }

    pub(crate) fn tables_ref(&self) -> (r: &Vec<(usize, HwpxTable)>)
        ensures
            r@ == self.tables(),
    {
        &self.tables
    }

    pub(crate) fn images_ref(&self) -> (r: &Vec<(usize, HwpxImage)>)
        ensures
            r@ == self.images(),
    {
        &self.images
    }

    pub(crate) fn hyperlinks_ref(&self) -> (r: &Vec<(usize, Vec<HwpxHyperlink>)>)
        ensures
            r@ == self.hyperlinks(),
    {
        &self.hyperlinks
    }

    pub(crate) fn headers_ref(&self) -> (r: &Vec<HwpxHeader>)
        ensures
            r@ == self.headers(),
    {
        &self.headers
    }

    pub(crate) fn footers_ref(&self) -> (r: &Vec<HwpxFooter>)
        ensures
            r@ == self.footers(),
    {
        &self.footers
    }

    pub(crate) fn metadata_ref(&self) -> (r: &HwpxMetadata)
        ensures
            *r == self.meta(),
    {
        &self.metadata
    }

    pub(crate) fn next_ids(&self) -> (r: (u32, u32))
        ensures
            r == self.id_bases(),
    {
        (self.next_table_id, self.next_image_id)
    }

    /// The document model built so far.
    pub fn document(&self) -> (r: &HwpDocument)
        ensures
            *r == self.doc(),
    {
        &self.document
    }

    pub fn set_metadata(&mut self, metadata: HwpxMetadata)
        ensures
            final(self).meta() == metadata,
            final(self).doc() == old(self).doc(),
            final(self).tables() == old(self).tables(),
            final(self).images() == old(self).images(),
            final(self).hyperlinks() == old(self).hyperlinks(),
            final(self).headers() == old(self).headers(),
            final(self).footers() == old(self).footers(),
            final(self).id_bases() == old(self).id_bases(),
    {
        self.metadata = metadata;
    }

    /// Number of paragraphs over all sections (saturating).
    pub fn current_paragraph_count(&self) -> (r: usize)
        ensures
            r == paragraph_count(self.doc()),
    {
        let secs = &self.document.sections;
        let mut total: usize = 0;
        let mut i: usize = 0;
        while i < secs.len()
            invariant
                i <= secs@.len(),
                total == (if total_paragraphs(secs@.subrange(0, i as int)) > usize::MAX {
                    usize::MAX as nat
                } else {
                    total_paragraphs(secs@.subrange(0, i as int))
                }),
            decreases secs@.len() - i,
        {
            assert(secs@.subrange(0, i + 1).drop_last() =~= secs@.subrange(0, i as int));
            total = total.saturating_add(secs[i].paragraphs.len());
            i += 1;
        }
        assert(secs@.subrange(0, i as int) =~= secs@);
        total
    }

    fn push_paragraph(&mut self, paragraph: Paragraph)
        ensures
            appended(old(self).doc(), final(self).doc()),
            last_paragraph(final(self).doc()) == paragraph,
            final(self).same_attachments(*old(self)),
    {
        if self.document.sections.len() == 0 {
            let mut paragraphs: Vec<Paragraph> = Vec::new();
            paragraphs.push(paragraph);
            self.document.sections.push(Section { paragraphs });
        } else {
            let mut first = Section { paragraphs: Vec::new() };
            std::mem::swap(&mut first, &mut self.document.sections[0]);
            first.paragraphs.push(paragraph);
            std::mem::swap(&mut first, &mut self.document.sections[0]);
            assert(self.document.sections@[0].paragraphs@.drop_last() =~= old(self).document.sections@[0].paragraphs@);
        }
    }

    /// Appends a record to the shape table; its id is its position.
    fn add_char_shape(&mut self, char_shape: CharShape) -> (id: usize)
        ensures
            id == old(self).shapes().len(),
            final(self).shapes() == old(self).shapes().push(char_shape),
            final(self).doc().sections == old(self).doc().sections,
            final(self).same_attachments(*old(self)),
    {
        let id = self.document.char_shapes.len();
        self.document.char_shapes.push(char_shape);
        id
    }

    /// Encodes a style into the shape table and returns its id, the
    /// record's position. Every call appends a new record.
    pub fn encode_style(&mut self, style: &HwpxTextStyle) -> (id: usize)
        ensures
            encoded(*old(self), *style, *final(self), id),
    {
        let cs = style.to_char_shape();
        self.add_char_shape(cs)
    }

    /// Appends a paragraph of plain text.
    pub fn add_paragraph(&mut self, text: &str) -> (r: Result<(), JsonToHwpxError>)
        ensures
            r is Ok,
            appended(old(self).doc(), final(self).doc()),
            is_plain(last_paragraph(final(self).doc()), text@),
            final(self).same_attachments(*old(self)),
    {
        let paragraph = Paragraph { text: Some(String::from_str(text)), char_shapes: None, para_shape_id: 0 };
        self.push_paragraph(paragraph);
        Ok(())
    }

    /// Appends a paragraph in one style; the style is encoded first.
    pub fn add_styled_paragraph(&mut self, text: &str, style: HwpxTextStyle) -> (r: Result<(), JsonToHwpxError>)
        ensures
            r is Ok,
            final(self).shapes() == old(self).shapes().push(char_shape_of(style)),
            final(self).doc().sections@.len() >= 1,
            sections_appended(old(self).doc(), final(self).doc()),
            body(final(self).doc()) == body(old(self).doc()).push(last_paragraph(final(self).doc())),
            last_paragraph(final(self).doc()).text matches Some(s) && s@ == text@,
            last_paragraph(final(self).doc()).char_shapes matches Some(v) && v@ == seq![
                CharPositionShape { position: 0, char_shape_id: old(self).shapes().len() as usize },
            ],
            final(self).same_attachments(*old(self)),
    {
        let id = self.encode_style(&style);
        let mut positions: Vec<CharPositionShape> = Vec::new();
        positions.push(CharPositionShape { position: 0, char_shape_id: id });
        let paragraph = Paragraph { text: Some(String::from_str(text)), char_shapes: Some(positions), para_shape_id: 0 };
        let ghost mid = self.doc();
        self.push_paragraph(paragraph);
        proof {
            lemma_appended_body(mid, self.doc());
        }
        Ok(())
    }

    /// Appends a paragraph made of styled runs: the text is their
    /// concatenation and run `i` starts at the character offset that the
    /// runs before it fill, with the `i`-th newly encoded shape.
    pub fn add_mixed_styled_paragraph(&mut self, runs: Vec<StyledText>) -> (r: Result<(), JsonToHwpxError>)
        requires
            runs_text(runs@).len() <= usize::MAX,
        ensures
            r is Ok,
            final(self).shapes() == old(self).shapes() + runs@.map_values(|t: StyledText| char_shape_of(t.style)),
            final(self).doc().sections@.len() >= 1,
            sections_appended(old(self).doc(), final(self).doc()),
            body(final(self).doc()) == body(old(self).doc()).push(last_paragraph(final(self).doc())),
            last_paragraph(final(self).doc()).text matches Some(s) && s@ == runs_text(runs@),
            last_paragraph(final(self).doc()).char_shapes matches Some(v) && v@ == Seq::new(
                runs@.len(),
                |i: int| CharPositionShape {
                    position: runs_text(runs@.take(i)).len() as usize,
                    char_shape_id: (old(self).shapes().len() + i) as usize,
                },
            ),
            final(self).same_attachments(*old(self)),
    {
        let mut full_text = String::new();
        let mut positions: Vec<CharPositionShape> = Vec::new();
        let mut position: usize = 0;
        let mut i: usize = 0;
        let ghost base = self.shapes().len();
        while i < runs.len()
            invariant
                i <= runs@.len(),
                runs_text(runs@).len() <= usize::MAX,
                base == old(self).shapes().len(),
                full_text@ == runs_text(runs@.take(i as int)),
                position == full_text@.len(),
                self.shapes() == old(self).shapes() + runs@.take(i as int).map_values(|t: StyledText| char_shape_of(t.style)),
                self.doc().sections == old(self).doc().sections,
                self.same_attachments(*old(self)),
                positions@ == Seq::new(
                    i as nat,
                    |j: int| CharPositionShape {
                        position: runs_text(runs@.take(j)).len() as usize,
                        char_shape_id: (base + j) as usize,
                    },
                ),
            decreases runs@.len() - i,
        {
            let run = &runs[i];
            let id = self.encode_style(&run.style);
            positions.push(CharPositionShape { position, char_shape_id: id });
            proof {
                lemma_runs_text_prefix(runs@, i as int);
            }
            let n = run.text.as_str().unicode_len();
            position = position + n;
            full_text.append(run.text.as_str());
            i += 1;
            proof {
                assert(runs@.take(i as int).drop_last() =~= runs@.take(i - 1));
                assert(runs@.take(i as int).map_values(|t: StyledText| char_shape_of(t.style)) =~= runs@.take(i - 1).map_values(|t: StyledText| char_shape_of(t.style)).push(char_shape_of(run.style)));
                assert(positions@ =~= Seq::new(
                    i as nat,
                    |j: int| CharPositionShape {
                        position: runs_text(runs@.take(j)).len() as usize,
                        char_shape_id: (base + j) as usize,
                    },
                ));
            }
        }
        assert(runs@.take(i as int) =~= runs@);
        let paragraph = Paragraph { text: Some(full_text), char_shapes: Some(positions), para_shape_id: 0 };
        let ghost mid = self.doc();
        self.push_paragraph(paragraph);
        proof {
            lemma_appended_body(mid, self.doc());
        }
        Ok(())
    }

    /// Attaches a table to a new, empty paragraph.
    pub fn add_table(&mut self, table: HwpxTable) -> (r: Result<(), JsonToHwpxError>)
        ensures
            r is Ok,
            final(self).tables() == old(self).tables().push((paragraph_count(old(self).doc()) as usize, table)),
            final(self).images() == old(self).images(),
            final(self).hyperlinks() == old(self).hyperlinks(),
            appended(old(self).doc(), final(self).doc()),
            is_plain(last_paragraph(final(self).doc()), Seq::empty()),
            final(self).same_settings(*old(self)),
    {
        let para_idx = self.current_paragraph_count();
        self.tables.push((para_idx, table));
        let paragraph = Paragraph { text: Some(String::new()), char_shapes: None, para_shape_id: 0 };
        self.push_paragraph(paragraph);
        Ok(())
    }

    /// Attaches an image to a new, empty paragraph; images are numbered in
    /// the order they are added.
    pub fn add_image(&mut self, image: HwpxImage) -> (r: Result<(), JsonToHwpxError>)
        ensures
            r is Ok,
            final(self).images() == old(self).images().push((paragraph_count(old(self).doc()) as usize, image)),
            final(self).tables() == old(self).tables(),
            final(self).hyperlinks() == old(self).hyperlinks(),
            appended(old(self).doc(), final(self).doc()),
            is_plain(last_paragraph(final(self).doc()), Seq::empty()),
            final(self).same_settings(*old(self)),
    {
        let para_idx = self.current_paragraph_count();
        self.images.push((para_idx, image));
        let paragraph = Paragraph { text: Some(String::new()), char_shapes: None, para_shape_id: 0 };
        self.push_paragraph(paragraph);
        Ok(())
    }

    /// Appends a paragraph of text whose links are anchored, each at the
    /// first occurrence of its text.
    pub fn add_paragraph_with_hyperlinks(&mut self, text: &str, links: Vec<HwpxHyperlink>) -> (r: Result<(), JsonToHwpxError>)
        ensures
            r is Ok,
            final(self).hyperlinks() == old(self).hyperlinks().push((paragraph_count(old(self).doc()) as usize, links)),
            final(self).tables() == old(self).tables(),
            final(self).images() == old(self).images(),
            appended(old(self).doc(), final(self).doc()),
            is_plain(last_paragraph(final(self).doc()), text@),
            final(self).same_settings(*old(self)),
    {
        let para_idx = self.current_paragraph_count();
        self.hyperlinks.push((para_idx, links));
        let paragraph = Paragraph { text: Some(String::from_str(text)), char_shapes: None, para_shape_id: 0 };
        self.push_paragraph(paragraph);
        Ok(())
    }

    /// Appends a paragraph that is a single link.
    pub fn add_hyperlink(&mut self, display_text: &str, url: &str) -> (r: Result<(), JsonToHwpxError>)
        ensures
            r is Ok,
            final(self).hyperlinks().len() == old(self).hyperlinks().len() + 1,
            final(self).hyperlinks().drop_last() == old(self).hyperlinks(),
            final(self).hyperlinks().last().0 == paragraph_count(old(self).doc()),
            final(self).hyperlinks().last().1@.len() == 1,
            final(self).hyperlinks().last().1@[0].text@ == display_text@,
            final(self).hyperlinks().last().1@[0].url@ == url@,
            final(self).tables() == old(self).tables(),
            final(self).images() == old(self).images(),
            appended(old(self).doc(), final(self).doc()),
            is_plain(last_paragraph(final(self).doc()), display_text@),
            final(self).same_settings(*old(self)),
    {
        let mut links: Vec<HwpxHyperlink> = Vec::new();
        links.push(HwpxHyperlink::new(display_text, url));
        let r = self.add_paragraph_with_hyperlinks(display_text, links);
        assert(self.hyperlinks().drop_last() =~= old(self).hyperlinks());
        r
    }

    pub fn add_header(&mut self, text: &str)
        ensures
            final(self).headers().len() == old(self).headers().len() + 1,
            final(self).headers().drop_last() == old(self).headers(),
            final(self).headers().last().text@ == text@,
            final(self).headers().last().apply_to == HeaderFooterApplyTo::All,
            final(self).doc() == old(self).doc(),
            final(self).footers() == old(self).footers(),
            final(self).same_content(*old(self)),
    {
        self.headers.push(HwpxHeader::new(text));
        assert(self.headers@.drop_last() =~= old(self).headers@);
    }

    pub fn add_header_config(&mut self, header: HwpxHeader)
        ensures
            final(self).headers() == old(self).headers().push(header),
            final(self).doc() == old(self).doc(),
            final(self).footers() == old(self).footers(),
            final(self).same_content(*old(self)),
    {
        self.headers.push(header);
    }

    pub fn add_footer(&mut self, text: &str)
        ensures
            final(self).footers().len() == old(self).footers().len() + 1,
            final(self).footers().drop_last() == old(self).footers(),
            final(self).footers().last().text@ == text@,
            !final(self).footers().last().include_page_number,
            final(self).footers().last().apply_to == HeaderFooterApplyTo::All,
            final(self).doc() == old(self).doc(),
            final(self).headers() == old(self).headers(),
            final(self).same_content(*old(self)),
    {
        self.footers.push(HwpxFooter::new(text));
        assert(self.footers@.drop_last() =~= old(self).footers@);
    }

    /// Adds a footer of `prefix` followed by the page number in digits.
    pub fn add_footer_with_page_number(&mut self, prefix: &str)
        ensures
            final(self).footers().len() == old(self).footers().len() + 1,
            final(self).footers().drop_last() == old(self).footers(),
            final(self).footers().last().text@ == prefix@,
            final(self).footers().last().include_page_number,
            final(self).footers().last().page_number_format == PageNumberFormat::Numeric,
            final(self).footers().last().apply_to == HeaderFooterApplyTo::All,
            final(self).doc() == old(self).doc(),
            final(self).headers() == old(self).headers(),
            final(self).same_content(*old(self)),
    {
        self.footers.push(HwpxFooter::new(prefix).with_page_number());
        assert(self.footers@.drop_last() =~= old(self).footers@);
    }

    pub fn add_footer_config(&mut self, footer: HwpxFooter)
        ensures
            final(self).footers() == old(self).footers().push(footer),
            final(self).doc() == old(self).doc(),
            final(self).headers() == old(self).headers(),
            final(self).same_content(*old(self)),
    {
        self.footers.push(footer);
    }
}

impl Default for HwpxWriter {
    fn default() -> (r: HwpxWriter)
        ensures
            r.doc().sections@.len() == 0,
            r.shapes().len() == 0,
            r.tables().len() == 0,
            r.images().len() == 0,
            r.hyperlinks().len() == 0,
            r.headers().len() == 0,
            r.footers().len() == 0,
    {
        HwpxWriter::new()
    }
}

/// `w1` is `w0` after encoding style `s` as shape `id`.
pub open spec fn encoded(w0: HwpxWriter, s: HwpxTextStyle, w1: HwpxWriter, id: usize) -> bool {
    &&& id == w0.shapes().len()
    &&& w1.shapes() == w0.shapes().push(char_shape_of(s))
    &&& w1.doc().sections == w0.doc().sections
    &&& w1.same_attachments(w0)
}

/// Encoding the same style twice gives two different ids whose records are
/// identical.
pub proof fn lemma_encode_twice(w0: HwpxWriter, w1: HwpxWriter, w2: HwpxWriter, s: HwpxTextStyle, id1: usize, id2: usize)
    requires
        encoded(w0, s, w1, id1),
        encoded(w1, s, w2, id2),
    ensures
        id1 != id2,
        id1 < w2.shapes().len() && id2 < w2.shapes().len(),
        w2.shapes()[id1 as int] == w2.shapes()[id2 as int],
{
    assert(w2.shapes()[id1 as int] == w1.shapes()[id1 as int]);
}

proof fn lemma_runs_text_prefix(runs: Seq<StyledText>, i: int)
    requires
        0 <= i < runs.len(),
    ensures
        runs_text(runs.take(i + 1)) == runs_text(runs.take(i)) + runs[i].text@,
        runs_text(runs.take(i + 1)).len() <= runs_text(runs).len(),
    decreases runs.len() - i,
{
    assert(runs.take(i + 1).drop_last() =~= runs.take(i));
    if i + 1 < runs.len() {
        lemma_runs_text_prefix(runs, i + 1);
    } else {
        assert(runs.take(i + 1) =~= runs);
    }
}

} // verus!
