//! The XML part of a section and its paragraphs.
use vstd::prelude::*;
use vstd::string::*;

use crate::chars::{chars_of, decimal, escape_spec, push_decimal, push_escaped};
use crate::image::HwpxImage;
use crate::markup::{
    clip, clip_string, headers_ctrl_spec, footers_ctrl_spec, hyperlinks_xml_spec, picture_xml_spec, push_text_run,
    table_xml_spec, text_run_spec, RUN_OPEN,
};
use crate::table::HwpxTable;
use crate::template::{SECTION_OPEN, SECTION_PROPERTIES};
use crate::writer::{CharPositionShape, HwpxHyperlink, HwpxWriter, Paragraph};

verus! {

/// The first attachment at or after position `i` that belongs to paragraph
/// `k`, with its position.
pub open spec fn attached_from<T>(s: Seq<(usize, T)>, k: usize, i: int) -> Option<(int, T)>
    decreases s.len() - i,
{
    if i < 0 || i >= s.len() {
        None
    } else if s[i].0 == k {
        Some((i, s[i].1))
    } else {
        attached_from(s, k, i + 1)
    }
}

/// A run of `seg` in shape `id`.
pub open spec fn styled_run_spec(id: nat, seg: Seq<char>) -> Seq<char> {
    "<hp:run charPrIDRef=\""@ + decimal(id) + "\"><hp:t>"@ + escape_spec(seg) + "</hp:t></hp:run>"@
}

/// Markup and end offset after the first `n` style runs: text skipped
/// before a run goes out in the default style, then the run in its shape;
/// empty segments are left out.
pub open spec fn styled_state(text: Seq<char>, v: Seq<CharPositionShape>, n: int) -> (Seq<char>, int)
    decreases n,
{
    if n <= 0 {
        (Seq::empty(), 0)
    } else {
        let prev = styled_state(text, v, n - 1);
        let start = v[n - 1].position as int;
        let end = if n < v.len() {
            v[n].position as int
        } else {
            text.len() as int
        };
        let gap = clip(text, prev.1, start);
        let seg = clip(text, start, end);
        (
            prev.0 + (if start > prev.1 && gap.len() > 0 {
                text_run_spec(gap)
            } else {
                Seq::empty()
            }) + (if seg.len() > 0 {
                styled_run_spec(v[n - 1].char_shape_id as nat, seg)
            } else {
                Seq::empty()
            }),
            end,
        )
    }
}

/// Markup of a paragraph with style runs; text after the last run goes out
/// in the default style.
pub open spec fn styled_xml_spec(text: Seq<char>, v: Seq<CharPositionShape>) -> Seq<char> {
    let st = styled_state(text, v, v.len() as int);
    st.0 + (if st.1 < text.len() {
        text_run_spec(clip(text, st.1, text.len() as int))
    } else {
        Seq::empty()
    })
}

pub open spec fn para_text(p: Paragraph) -> Seq<char> {
    match p.text {
        Some(t) => t@,
        None => Seq::empty(),
    }
}

/// Content of paragraph `idx`, by precedence: style runs, an attached
/// table, an attached image, attached links, plain text.
pub open spec fn para_content_spec(w: HwpxWriter, p: Paragraph, idx: usize) -> Seq<char> {
    let text = para_text(p);
    match p.char_shapes {
        Some(v) => styled_xml_spec(text, v@),
        None => match attached_from(w.tables(), idx, 0) {
            Some((_, t)) => RUN_OPEN@ + table_xml_spec(t, w.id_bases().0) + "<hp:t/></hp:run>"@,
            None => match attached_from(w.images(), idx, 0) {
                Some((k, img)) => RUN_OPEN@ + picture_xml_spec(w.id_bases().1, k as nat, img)
                    + "<hp:t/></hp:run>"@,
                None => match attached_from(w.hyperlinks(), idx, 0) {
                    Some((_, links)) => hyperlinks_xml_spec(text, links@),
                    None => text_run_spec(text),
                },
            },
        },
    }
}

/// Runs that open a section: its properties, then the headers and footers.
pub open spec fn first_runs_spec(w: HwpxWriter) -> Seq<char> {
    RUN_OPEN@ + SECTION_PROPERTIES@ + "</hp:run>"@ + (if w.headers().len() > 0 {
        RUN_OPEN@ + headers_ctrl_spec(w.headers(), w.headers().len() as int) + "<hp:t/></hp:run>"@
    } else {
        Seq::empty()
    }) + (if w.footers().len() > 0 {
        RUN_OPEN@ + footers_ctrl_spec(w.footers(), w.footers().len() as int) + "<hp:t/></hp:run>"@
    } else {
        Seq::empty()
    })
}

pub open spec fn para_xml_spec(w: HwpxWriter, p: Paragraph, idx: usize) -> Seq<char> {
    "<hp:p id=\""@ + decimal(idx as nat) + "\" paraPrIDRef=\""@ + decimal(p.para_shape_id as nat)
        + "\" styleIDRef=\"0\" pageBreak=\"0\" columnBreak=\"0\" merged=\"0\">"@ + (if idx == 0 {
        first_runs_spec(w)
    } else {
        Seq::empty()
    }) + para_content_spec(w, p, idx) + "</hp:p>"@
}

pub open spec fn paras_xml_spec(w: HwpxWriter, ps: Seq<Paragraph>, n: int) -> Seq<char>
    decreases n,
{
    if n <= 0 {
        Seq::empty()
    } else {
        paras_xml_spec(w, ps, n - 1) + para_xml_spec(w, ps[n - 1], (n - 1) as usize)
    }
}

/// A section part: the first paragraph carries the section properties and
/// the headers and footers; a section without paragraphs gets one empty
/// paragraph.
pub open spec fn section_xml_spec(w: HwpxWriter, ps: Seq<Paragraph>) -> Seq<char> {
    SECTION_OPEN@ + (if ps.len() == 0 {
        "<hp:p id=\"0\" paraPrIDRef=\"0\" styleIDRef=\"0\" pageBreak=\"0\" columnBreak=\"0\" merged=\"0\">"@
            + first_runs_spec(w) + "<hp:run charPrIDRef=\"0\"><hp:t></hp:t></hp:run></hp:p>"@
    } else {
        paras_xml_spec(w, ps, ps.len() as int)
    }) + "</hs:sec>"@
}

fn push_styled_run(out: &mut String, id: usize, seg: &str)
    ensures
        final(out)@ == old(out)@ + styled_run_spec(id as nat, seg@),
{
    out.append("<hp:run charPrIDRef=\"");
    push_decimal(out, id as u128);
    out.append("\"><hp:t>");
    push_escaped(out, seg);
    out.append("</hp:t></hp:run>");
    assert(out@ =~= old(out)@ + styled_run_spec(id as nat, seg@));
}

/// Markup of a paragraph with style runs (see `styled_xml_spec`).
pub fn format_styled_runs(text: &str, v: &Vec<CharPositionShape>) -> (r: String)
    ensures
        r@ == styled_xml_spec(text@, v@),
{
    let cs = chars_of(text);
    let n = cs.len();
    let mut xml = String::new();
    let mut last_pos: usize = 0;
    let mut i: usize = 0;
    while i < v.len()
        invariant
            n == cs@.len(),
            cs@ == text@,
            i <= v@.len(),
            (xml@, last_pos as int) == styled_state(text@, v@, i as int),
        decreases v@.len() - i,
    {
        let start = v[i].position;
        let end: usize = if i + 1 < v.len() {
            v[i + 1].position
        } else {
            n
        };
        if start > last_pos {
            let gap = clip_string(&cs, last_pos, start);
            if gap.as_str().unicode_len() > 0 {
                push_text_run(&mut xml, gap.as_str());
            }
        }
        let seg = clip_string(&cs, start, end);
        if seg.as_str().unicode_len() > 0 {
            push_styled_run(&mut xml, v[i].char_shape_id, seg.as_str());
        }
        last_pos = end;
        i += 1;
        assert(xml@ =~= styled_state(text@, v@, i as int).0);
    }
    if last_pos < n {
        let rest = clip_string(&cs, last_pos, n);
        push_text_run(&mut xml, rest.as_str());
    }
    assert(xml@ =~= styled_xml_spec(text@, v@));
    xml
}

impl HwpxWriter {
    pub fn get_table_for_paragraph(&self, para_idx: usize) -> (r: Option<&HwpxTable>)
        ensures
            match r {
                Some(t) => attached_from(self.tables(), para_idx, 0) == Some((attached_from(self.tables(), para_idx, 0)->Some_0.0, *t)),
                None => attached_from(self.tables(), para_idx, 0) is None,
            },
    {
        let s = self.tables_ref();
        let mut i: usize = 0;
        while i < s.len()
            invariant
                s@ == self.tables(),
                i <= s@.len(),
                attached_from(s@, para_idx, 0) == attached_from(s@, para_idx, i as int),
            decreases s@.len() - i,
        {
            if s[i].0 == para_idx {
                assert(attached_from(s@, para_idx, i as int) == Some((i as int, s@[i as int].1)));
                return Some(&s[i].1);
            }
            i += 1;
        }
        None
    }

    pub fn get_image_for_paragraph(&self, para_idx: usize) -> (r: Option<(usize, &HwpxImage)>)
        ensures
            match r {
                Some((k, img)) => attached_from(self.images(), para_idx, 0) == Some((k as int, *img)),
                None => attached_from(self.images(), para_idx, 0) is None,
            },
    {
        let s = self.images_ref();
        let mut i: usize = 0;
        while i < s.len()
            invariant
                s@ == self.images(),
                i <= s@.len(),
                attached_from(s@, para_idx, 0) == attached_from(s@, para_idx, i as int),
            decreases s@.len() - i,
        {
            if s[i].0 == para_idx {
                assert(attached_from(s@, para_idx, i as int) == Some((i as int, s@[i as int].1)));
                return Some((i, &s[i].1));
            }
            i += 1;
        }
        None
    }

    pub fn get_hyperlinks_for_paragraph(&self, para_idx: usize) -> (r: Option<&Vec<HwpxHyperlink>>)
        ensures
            match r {
                Some(l) => attached_from(self.hyperlinks(), para_idx, 0) == Some((attached_from(self.hyperlinks(), para_idx, 0)->Some_0.0, *l)),
                None => attached_from(self.hyperlinks(), para_idx, 0) is None,
            },
    {
        let s = self.hyperlinks_ref();
        let mut i: usize = 0;
        while i < s.len()
            invariant
                s@ == self.hyperlinks(),
                i <= s@.len(),
                attached_from(s@, para_idx, 0) == attached_from(s@, para_idx, i as int),
            decreases s@.len() - i,
        {
            if s[i].0 == para_idx {
                assert(attached_from(s@, para_idx, i as int) == Some((i as int, s@[i as int].1)));
                return Some(&s[i].1);
            }
            i += 1;
        }
        None
    }

    fn push_first_runs(&self, out: &mut String)
        ensures
            final(out)@ == old(out)@ + first_runs_spec(*self),
    {
        out.append(RUN_OPEN);
        out.append(SECTION_PROPERTIES);
        out.append("</hp:run>");
        if self.headers_ref().len() > 0 {
            out.append(RUN_OPEN);
            out.append(self.generate_header_ctrl_xml().as_str());
            out.append("<hp:t/></hp:run>");
        }
        if self.footers_ref().len() > 0 {
            out.append(RUN_OPEN);
            out.append(self.generate_footer_ctrl_xml().as_str());
            out.append("<hp:t/></hp:run>");
        }
        assert(out@ =~= old(out)@ + first_runs_spec(*self));
    }

    fn push_para_content(&self, out: &mut String, p: &Paragraph, idx: usize)
        ensures
            final(out)@ == old(out)@ + para_content_spec(*self, *p, idx),
    {
        let empty = String::new();
        let text: &str = match &p.text {
            Some(t) => t.as_str(),
            None => empty.as_str(),
        };
        assert(text@ == para_text(*p));
        match &p.char_shapes {
            Some(v) => {
                out.append(format_styled_runs(text, v).as_str());
            },
            None => {
                match self.get_table_for_paragraph(idx) {
                    Some(t) => {
                        out.append(RUN_OPEN);
                        out.append(self.format_table(t).as_str());
                        out.append("<hp:t/></hp:run>");
                    },
                    None => match self.get_image_for_paragraph(idx) {
                        Some((k, img)) => {
                            out.append(RUN_OPEN);
                            out.append(self.format_picture(k, img).as_str());
                            out.append("<hp:t/></hp:run>");
                        },
                        None => match self.get_hyperlinks_for_paragraph(idx) {
                            Some(links) => {
                                out.append(self.format_hyperlinks(text, links).as_str());
                            },
                            None => {
                                push_text_run(out, text);
                            },
                        },
                    },
                }
            },
        }
        assert(out@ =~= old(out)@ + para_content_spec(*self, *p, idx));
    }

    fn push_paragraph_xml(&self, out: &mut String, p: &Paragraph, idx: usize)
        ensures
            final(out)@ == old(out)@ + para_xml_spec(*self, *p, idx),
    {
        out.append("<hp:p id=\"");
        push_decimal(out, idx as u128);
        out.append("\" paraPrIDRef=\"");
        push_decimal(out, p.para_shape_id as u128);
        out.append("\" styleIDRef=\"0\" pageBreak=\"0\" columnBreak=\"0\" merged=\"0\">");
        if idx == 0 {
            self.push_first_runs(out);
        }
        self.push_para_content(out, p, idx);
        out.append("</hp:p>");
        assert(out@ =~= old(out)@ + para_xml_spec(*self, *p, idx));
    }

    /// A section part holding the given paragraphs.
    pub fn generate_section_xml_with_paragraphs(&self, paragraphs: &Vec<Paragraph>) -> (r: String)
        ensures
            r@ == section_xml_spec(*self, paragraphs@),
    {
        let mut xml = String::from_str(SECTION_OPEN);
        if paragraphs.len() == 0 {
            xml.append("<hp:p id=\"0\" paraPrIDRef=\"0\" styleIDRef=\"0\" pageBreak=\"0\" columnBreak=\"0\" merged=\"0\">");
            self.push_first_runs(&mut xml);
            xml.append("<hp:run charPrIDRef=\"0\"><hp:t></hp:t></hp:run></hp:p>");
        } else {
            let ghost head = xml@;
            let mut i: usize = 0;
            while i < paragraphs.len()
                invariant
                    i <= paragraphs@.len(),
                    xml@ == head + paras_xml_spec(*self, paragraphs@, i as int),
                decreases paragraphs@.len() - i,
            {
                self.push_paragraph_xml(&mut xml, &paragraphs[i], i);
                i += 1;
                assert(xml@ =~= head + paras_xml_spec(*self, paragraphs@, i as int));
            }
        }
        xml.append("</hs:sec>");
        assert(xml@ =~= section_xml_spec(*self, paragraphs@));
        xml
    }

    /// The part of a section without paragraphs.
    pub fn generate_empty_section(&self) -> (r: String)
        ensures
            r@ == section_xml_spec(*self, Seq::empty()),
    {
        let none: Vec<Paragraph> = Vec::new();
        self.generate_section_xml_with_paragraphs(&none)
    }

    /// One part per section, or one empty section when there is none.
    pub fn generate_section_xmls(&self) -> (r: Vec<String>)
        ensures
            self.doc().sections@.len() == 0 ==> r@.len() == 1 && r@[0]@ == section_xml_spec(*self, Seq::empty()),
            self.doc().sections@.len() > 0 ==> r@.len() == self.doc().sections@.len() && forall|i: int|
                0 <= i < r@.len() ==> (#[trigger] r@[i])@ == section_xml_spec(*self, self.doc().sections@[i].paragraphs@),
    {
        let secs = &self.document().sections;
        let mut out: Vec<String> = Vec::new();
        if secs.len() == 0 {
            out.push(self.generate_empty_section());
            return out;
        }
        let mut i: usize = 0;
        while i < secs.len()
            invariant
                *secs == self.doc().sections,
                i <= secs@.len(),
                out@.len() == i,
                forall|j: int| 0 <= j < i ==> (#[trigger] out@[j])@ == section_xml_spec(*self, secs@[j].paragraphs@),
            decreases secs@.len() - i,
        {
            out.push(self.generate_section_xml_with_paragraphs(&secs[i].paragraphs));
            i += 1;
        }
        out
    }
}

} // verus!
