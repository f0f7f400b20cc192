//! XML markup of tables, pictures, links, headers and footers.
use vstd::prelude::*;
use vstd::string::*;

use crate::chars::{chars_of, decimal, escape_spec, padded, push_decimal, push_escaped, push_padded, string_of};
use crate::image::HwpxImage;
use crate::table::{CellSpan, HwpxTable};
use crate::writer::{HeaderFooterApplyTo, HwpxFooter, HwpxHeader, HwpxHyperlink, HwpxWriter};

verus! {

/// Usable page width, in layout units.
pub const CONTENT_WIDTH: u32 = 42520;

/// Height of one table row, in layout units.
pub const CELL_HEIGHT: u32 = 1000;

/// Size, in millimetres, of an image whose size is unknown.
pub const DEFAULT_IMAGE_MM: u32 = 50;

/// Opening of a run in the default style.
pub const RUN_OPEN: &'static str = "<hp:run charPrIDRef=\"0\">";

/// A run of plain text in the default style.
pub open spec fn text_run_spec(t: Seq<char>) -> Seq<char> {
    "<hp:run charPrIDRef=\"0\"><hp:t>"@ + escape_spec(t) + "</hp:t></hp:run>"@
}

pub fn push_text_run(out: &mut String, t: &str)
    ensures
        final(out)@ == old(out)@ + text_run_spec(t@),
{
    out.append("<hp:run charPrIDRef=\"0\"><hp:t>");
    push_escaped(out, t);
    out.append("</hp:t></hp:run>");
    assert(out@ =~= old(out)@ + text_run_spec(t@));
}

pub open spec fn unit_span(s: Option<CellSpan>) -> CellSpan {
    match s {
        Some(sp) => sp,
        None => CellSpan { col_span: 1, row_span: 1 },
    }
}

/// Text of a cell; empty outside the grid.
pub open spec fn cell_text(t: HwpxTable, r: int, c: int) -> Seq<char> {
    if 0 <= r < t.rows@.len() && 0 <= c < t.rows@[r]@.len() {
        t.rows@[r]@[c]@
    } else {
        Seq::empty()
    }
}

/// Opening of the markup of the cell at `(r, c)` with the given text.
pub open spec fn cell_head_spec(text: Seq<char>, r: nat, c: nat) -> Seq<char> {
    "<hp:tc name=\"\" header=\"0\" hasMargin=\"0\" protect=\"0\" editable=\"0\" dirty=\"0\" borderFillIDRef=\"3\"><hp:subList id=\"\" textDirection=\"HORIZONTAL\" lineWrap=\"BREAK\" vertAlign=\"CENTER\" linkListIDRef=\"0\" linkListNextIDRef=\"0\" textWidth=\"0\" textHeight=\"0\" hasTextRef=\"0\" hasNumRef=\"0\"><hp:p id=\"0\" paraPrIDRef=\"0\" styleIDRef=\"0\" pageBreak=\"0\" columnBreak=\"0\" merged=\"0\"><hp:run charPrIDRef=\"0\"><hp:t>"@
        + escape_spec(text)
        + "</hp:t></hp:run></hp:p></hp:subList><hp:cellAddr colAddr=\""@ + decimal(c)
        + "\" rowAddr=\""@ + decimal(r) + "\"/>"@
}

/// Span and size of a cell: its size is the column width or row height
/// times its span.
pub open spec fn cell_tail_spec(sp: CellSpan, col_w: nat) -> Seq<char> {
    "<hp:cellSpan colSpan=\""@ + decimal(sp.col_span as nat)
        + "\" rowSpan=\""@ + decimal(sp.row_span as nat) + "\"/><hp:cellSz width=\""@
        + decimal(col_w * sp.col_span as nat) + "\" height=\""@ + decimal(CELL_HEIGHT as nat * sp.row_span as nat)
        + "\"/><hp:cellMargin left=\"510\" right=\"510\" top=\"142\" bottom=\"142\"/></hp:tc>"@
}

pub open spec fn cell_body_spec(text: Seq<char>, r: nat, c: nat, sp: CellSpan, col_w: nat) -> Seq<char> {
    cell_head_spec(text, r, c) + cell_tail_spec(sp, col_w)
}

/// Markup of one cell; nothing for a covered cell.
pub open spec fn cell_xml_spec(t: HwpxTable, r: nat, c: nat, col_w: nat) -> Seq<char> {
    if t.covers(r as usize, c as usize) {
        Seq::empty()
    } else {
        cell_body_spec(cell_text(t, r as int, c as int), r, c, unit_span(t.span_of(r as usize, c as usize)), col_w)
    }
}

pub open spec fn cells_xml_spec(t: HwpxTable, r: nat, c: nat, col_w: nat) -> Seq<char>
    decreases c,
{
    if c == 0 {
        Seq::empty()
    } else {
        cells_xml_spec(t, r, (c - 1) as nat, col_w) + cell_xml_spec(t, r, (c - 1) as nat, col_w)
    }
}

pub open spec fn rows_xml_spec(t: HwpxTable, r: nat, ncols: nat, col_w: nat) -> Seq<char>
    decreases r,
{
    if r == 0 {
        Seq::empty()
    } else {
        rows_xml_spec(t, (r - 1) as nat, ncols, col_w) + "<hp:tr>"@ + cells_xml_spec(
            t,
            (r - 1) as nat,
            ncols,
            col_w,
        ) + "</hp:tr>"@
    }
}

/// Column count of a table: the length of its first row.
pub open spec fn table_cols(t: HwpxTable) -> nat {
    if t.rows@.len() == 0 {
        0
    } else {
        t.rows@[0]@.len()
    }
}

/// Table markup: columns share the content width equally (integer
/// division), rows have a fixed height, covered cells are left out.
/// Nothing for a table without rows or columns.
pub open spec fn table_xml_spec(t: HwpxTable, table_id: u32) -> Seq<char> {
    let nr = t.rows@.len();
    let nc = table_cols(t);
    if nr == 0 || nc == 0 {
        Seq::empty()
    } else {
        let col_w = CONTENT_WIDTH as nat / nc;
        "<hp:tbl id=\""@ + decimal(table_id as nat)
            + "\" zOrder=\"0\" numberingType=\"TABLE\" textWrap=\"TOP_AND_BOTTOM\" textFlow=\"BOTH_SIDES\" lock=\"0\" dropcapstyle=\"None\" pageBreak=\"CELL\" repeatHeader=\"1\" rowCnt=\""@
            + decimal(nr) + "\" colCnt=\""@ + decimal(nc)
            + "\" cellSpacing=\"0\" borderFillIDRef=\"3\" noAdjust=\"0\"><hp:sz width=\""@
            + decimal(col_w * nc) + "\" widthRelTo=\"ABSOLUTE\" height=\""@ + decimal(CELL_HEIGHT as nat * nr)
            + "\" heightRelTo=\"ABSOLUTE\" protect=\"0\"/><hp:pos treatAsChar=\"0\" affectLSpacing=\"0\" flowWithText=\"1\" allowOverlap=\"0\" holdAnchorAndSO=\"0\" vertRelTo=\"PARA\" horzRelTo=\"PARA\" vertAlign=\"TOP\" horzAlign=\"LEFT\" vertOffset=\"0\" horzOffset=\"0\"/><hp:outMargin left=\"283\" right=\"283\" top=\"283\" bottom=\"283\"/><hp:inMargin left=\"510\" right=\"510\" top=\"142\" bottom=\"142\"/>"@
            + rows_xml_spec(t, nr, nc, col_w) + "</hp:tbl>"@
    }
}

fn product(a: u32, b: u32) -> (r: u128)
    ensures
        r == a as nat * b as nat,
{
    assert(a as u128 * b as u128 <= 0xFFFF_FFFF_FFFF_FFFF_FFFF) by (nonlinear_arith)
        requires a <= 0xFFFF_FFFF, b <= 0xFFFF_FFFF;
    a as u128 * b as u128
}

fn push_cell_head(out: &mut String, text: &str, r: usize, c: usize)
    ensures
        final(out)@ == old(out)@ + cell_head_spec(text@, r as nat, c as nat),
{
    out.append("<hp:tc name=\"\" header=\"0\" hasMargin=\"0\" protect=\"0\" editable=\"0\" dirty=\"0\" borderFillIDRef=\"3\"><hp:subList id=\"\" textDirection=\"HORIZONTAL\" lineWrap=\"BREAK\" vertAlign=\"CENTER\" linkListIDRef=\"0\" linkListNextIDRef=\"0\" textWidth=\"0\" textHeight=\"0\" hasTextRef=\"0\" hasNumRef=\"0\"><hp:p id=\"0\" paraPrIDRef=\"0\" styleIDRef=\"0\" pageBreak=\"0\" columnBreak=\"0\" merged=\"0\"><hp:run charPrIDRef=\"0\"><hp:t>");
    push_escaped(out, text);
    out.append("</hp:t></hp:run></hp:p></hp:subList><hp:cellAddr colAddr=\"");
    push_decimal(out, c as u128);
    out.append("\" rowAddr=\"");
    push_decimal(out, r as u128);
    out.append("\"/>");
    assert(out@ =~= old(out)@ + cell_head_spec(text@, r as nat, c as nat));
}

fn push_cell_tail(out: &mut String, sp: CellSpan, col_w: u32)
    ensures
        final(out)@ == old(out)@ + cell_tail_spec(sp, col_w as nat),
{
    let w = product(col_w, sp.col_span);
    let h = product(CELL_HEIGHT, sp.row_span);
    out.append("<hp:cellSpan colSpan=\"");
    push_decimal(out, sp.col_span as u128);
    out.append("\" rowSpan=\"");
    push_decimal(out, sp.row_span as u128);
    out.append("\"/><hp:cellSz width=\"");
    push_decimal(out, w);
    out.append("\" height=\"");
    push_decimal(out, h);
    out.append("\"/><hp:cellMargin left=\"510\" right=\"510\" top=\"142\" bottom=\"142\"/></hp:tc>");
    assert(out@ =~= old(out)@ + cell_tail_spec(sp, col_w as nat));
}

fn push_cell_body(out: &mut String, text: &str, r: usize, c: usize, sp: CellSpan, col_w: u32)
    ensures
        final(out)@ == old(out)@ + cell_body_spec(text@, r as nat, c as nat, sp, col_w as nat),
{
    push_cell_head(out, text, r, c);
    push_cell_tail(out, sp, col_w);
    assert(out@ =~= old(out)@ + cell_body_spec(text@, r as nat, c as nat, sp, col_w as nat));
}

fn push_cell(out: &mut String, t: &HwpxTable, r: usize, c: usize, col_w: u32)
    ensures
        final(out)@ == old(out)@ + cell_xml_spec(*t, r as nat, c as nat, col_w as nat),
{
    if t.is_covered(r, c) {
        assert(out@ =~= old(out)@ + cell_xml_spec(*t, r as nat, c as nat, col_w as nat));
        return;
    }
    let sp = t.get_cell_span(r, c);
    if r < t.rows.len() && c < t.rows[r].len() {
        push_cell_body(out, t.rows[r][c].as_str(), r, c, sp, col_w);
    } else {
        proof {
            reveal_strlit("");
        }
        push_cell_body(out, "", r, c, sp, col_w);
    }
}

impl HwpxWriter {
    /// Markup of a table (see `table_xml_spec`).
    pub fn format_table(&self, table: &HwpxTable) -> (r: String)
        ensures
            r@ == table_xml_spec(*table, self.id_bases().0),
    {
        let nr = table.rows.len();
        let nc: usize = if nr == 0 {
            0
        } else {
            table.rows[0].len()
        };
        let mut xml = String::new();
        if nr == 0 || nc == 0 {
            return xml;
        }
        let col_w: u32 = (CONTENT_WIDTH as usize / nc) as u32;
        assert(col_w <= 42520);
        let (table_id, _) = self.next_ids();
        xml.append("<hp:tbl id=\"");
        push_decimal(&mut xml, table_id as u128);
        xml.append("\" zOrder=\"0\" numberingType=\"TABLE\" textWrap=\"TOP_AND_BOTTOM\" textFlow=\"BOTH_SIDES\" lock=\"0\" dropcapstyle=\"None\" pageBreak=\"CELL\" repeatHeader=\"1\" rowCnt=\"");
        push_decimal(&mut xml, nr as u128);
        xml.append("\" colCnt=\"");
        push_decimal(&mut xml, nc as u128);
        xml.append("\" cellSpacing=\"0\" borderFillIDRef=\"3\" noAdjust=\"0\"><hp:sz width=\"");
        assert(col_w as u128 * nc as u128 <= 0xFFFF_FFFF_FFFF_FFFF_FFFF) by (nonlinear_arith)
            requires col_w <= 42520, nc <= 0xFFFF_FFFF_FFFF_FFFF;
        push_decimal(&mut xml, col_w as u128 * nc as u128);
        xml.append("\" widthRelTo=\"ABSOLUTE\" height=\"");
        push_decimal(&mut xml, CELL_HEIGHT as u128 * nr as u128);
        xml.append("\" heightRelTo=\"ABSOLUTE\" protect=\"0\"/><hp:pos treatAsChar=\"0\" affectLSpacing=\"0\" flowWithText=\"1\" allowOverlap=\"0\" holdAnchorAndSO=\"0\" vertRelTo=\"PARA\" horzRelTo=\"PARA\" vertAlign=\"TOP\" horzAlign=\"LEFT\" vertOffset=\"0\" horzOffset=\"0\"/><hp:outMargin left=\"283\" right=\"283\" top=\"283\" bottom=\"283\"/><hp:inMargin left=\"510\" right=\"510\" top=\"142\" bottom=\"142\"/>");
        let ghost head = xml@;
        let mut r: usize = 0;
        while r < nr
            invariant
                r <= nr == table.rows@.len(),
                nc == table_cols(*table),
                xml@ == head + rows_xml_spec(*table, r as nat, nc as nat, col_w as nat),
            decreases nr - r,
        {
            xml.append("<hp:tr>");
            let ghost row_head = xml@;
            let mut c: usize = 0;
            while c < nc
                invariant
                    c <= nc,
                    xml@ == row_head + cells_xml_spec(*table, r as nat, c as nat, col_w as nat),
                decreases nc - c,
            {
                push_cell(&mut xml, table, r, c, col_w);
                c += 1;
                assert(xml@ =~= row_head + cells_xml_spec(*table, r as nat, c as nat, col_w as nat));
            }
            xml.append("</hp:tr>");
            r += 1;
            assert(xml@ =~= head + rows_xml_spec(*table, r as nat, nc as nat, col_w as nat));
        }
        xml.append("</hp:tbl>");
        assert(xml@ =~= table_xml_spec(*table, self.id_bases().0));
        xml
    }
}

/// Layout units of `mm` millimetres (7200 per inch), truncated and capped
/// at `u32::MAX`.
pub open spec fn hwp_units(mm: nat) -> nat {
    let v = mm * 72000 / 254;
    if v > 0xFFFF_FFFF {
        0xFFFF_FFFF
    } else {
        v
    }
}

pub open spec fn mm_or_default(m: Option<u32>) -> nat {
    match m {
        Some(v) => v as nat,
        None => DEFAULT_IMAGE_MM as nat,
    }
}

/// Displayed size of an image of `ow` x `oh` units: scaled down, keeping
/// the aspect ratio, when it is wider than the content area.
pub open spec fn fitted(ow: nat, oh: nat) -> (nat, nat) {
    if ow > CONTENT_WIDTH {
        (CONTENT_WIDTH as nat, oh * CONTENT_WIDTH as nat / ow)
    } else {
        (ow, oh)
    }
}

/// `p / q` with six decimals, rounded half up; `1.000000` when `q` is 0.
pub open spec fn ratio6(p: nat, q: nat) -> Seq<char> {
    if q == 0 {
        "1.000000"@
    } else {
        let v = (2 * p * 1000000 + q) / (2 * q);
        decimal(v / 1000000) + "."@ + padded(v % 1000000, 6)
    }
}

fn push_ratio6(out: &mut String, p: u32, q: u32)
    requires
        p <= q,
    ensures
        final(out)@ == old(out)@ + ratio6(p as nat, q as nat),
{
    if q == 0 {
        out.append("1.000000");
        return;
    }
    assert(2 * (p as u128) * 1000000 + q as u128 <= 0xFFFF_FFFF_FFFF_FFFF) by (nonlinear_arith)
        requires p <= 0xFFFF_FFFF, q <= 0xFFFF_FFFF;
    let v: u128 = (2 * (p as u128) * 1000000 + q as u128) / (2 * q as u128);
    push_decimal(out, v / 1000000);
    out.append(".");
    push_padded(out, v % 1000000, 6);
    assert(out@ =~= old(out)@ + ratio6(p as nat, q as nat));
}

fn units_of(mm: Option<u32>) -> (r: u32)
    ensures
        r == hwp_units(mm_or_default(mm)),
{
    let m: u64 = match mm {
        Some(v) => v as u64,
        None => DEFAULT_IMAGE_MM as u64,
    };
    let v: u64 = m * 72000 / 254;
    if v > 0xFFFF_FFFF {
        0xFFFF_FFFF
    } else {
        v as u32
    }
}

pub open spec fn pic_head_spec(pic_id: nat, k: nat, ow: nat, oh: nat, cw: nat, ch: nat) -> Seq<char> {
    "<hp:pic id=\""@ + decimal(pic_id) + "\" zOrder=\""@ + decimal(k)
        + "\" numberingType=\"PICTURE\" textWrap=\"TOP_AND_BOTTOM\" textFlow=\"BOTH_SIDES\" lock=\"0\" dropcapstyle=\"None\" href=\"\" groupLevel=\"0\" instid=\""@
        + decimal(pic_id) + "\" reverse=\"0\"><hp:offset x=\"0\" y=\"0\"/><hp:orgSz width=\""@
        + decimal(ow) + "\" height=\""@ + decimal(oh) + "\"/><hp:curSz width=\""@ + decimal(cw)
        + "\" height=\""@ + decimal(ch) + "\"/>"@
}

pub open spec fn pic_render_spec(k: nat, ow: nat, oh: nat, cw: nat, ch: nat) -> Seq<char> {
    "<hp:flip horizontal=\"0\" vertical=\"0\"/><hp:rotationInfo angle=\"0\" centerX=\""@ + decimal(cw / 2)
        + "\" centerY=\""@ + decimal(ch / 2)
        + "\" rotateimage=\"1\"/><hp:renderingInfo><hc:transMatrix e1=\"1\" e2=\"0\" e3=\"0\" e4=\"0\" e5=\"1\" e6=\"0\"/><hc:scaMatrix e1=\""@
        + ratio6(cw, ow) + "\" e2=\"0\" e3=\"0\" e4=\"0\" e5=\""@ + ratio6(ch, oh)
        + "\" e6=\"0\"/><hc:rotMatrix e1=\"1\" e2=\"0\" e3=\"0\" e4=\"0\" e5=\"1\" e6=\"0\"/></hp:renderingInfo><hc:img binaryItemIDRef=\"image"@
        + decimal(k + 1) + "\" bright=\"0\" contrast=\"0\" effect=\"REAL_PIC\" alpha=\"0\"/>"@
}

pub open spec fn pic_rect_spec(ow: nat, oh: nat) -> Seq<char> {
    "<hp:imgRect><hc:pt0 x=\"0\" y=\"0\"/><hc:pt1 x=\""@ + decimal(ow) + "\" y=\"0\"/><hc:pt2 x=\""@
        + decimal(ow) + "\" y=\""@ + decimal(oh) + "\"/><hc:pt3 x=\"0\" y=\""@ + decimal(oh)
        + "\"/></hp:imgRect><hp:imgClip left=\"0\" right=\""@ + decimal(ow) + "\" top=\"0\" bottom=\""@
        + decimal(oh)
        + "\"/><hp:inMargin left=\"0\" right=\"0\" top=\"0\" bottom=\"0\"/><hp:imgDim dimwidth=\""@
        + decimal(ow) + "\" dimheight=\""@ + decimal(oh) + "\"/><hp:effects/>"@
}

pub open spec fn pic_tail_spec(cw: nat, ch: nat) -> Seq<char> {
    "<hp:sz width=\""@ + decimal(cw) + "\" widthRelTo=\"ABSOLUTE\" height=\""@ + decimal(ch)
        + "\" heightRelTo=\"ABSOLUTE\" protect=\"0\"/><hp:pos treatAsChar=\"1\" affectLSpacing=\"0\" flowWithText=\"1\" allowOverlap=\"0\" holdAnchorAndSO=\"0\" vertRelTo=\"PARA\" horzRelTo=\"PARA\" vertAlign=\"TOP\" horzAlign=\"LEFT\" vertOffset=\"0\" horzOffset=\"0\"/><hp:outMargin left=\"0\" right=\"0\" top=\"0\" bottom=\"0\"/></hp:pic>"@
}

/// Picture markup of the `k`-th image (0-based); its id is `base_id + k`.
pub open spec fn picture_xml_spec(base_id: u32, k: nat, img: HwpxImage) -> Seq<char> {
    let ow = hwp_units(mm_or_default(img.width_mm));
    let oh = hwp_units(mm_or_default(img.height_mm));
    let (cw, ch) = fitted(ow, oh);
    pic_head_spec(base_id as nat + k, k, ow, oh, cw, ch) + pic_render_spec(k, ow, oh, cw, ch) + pic_rect_spec(
        ow,
        oh,
    ) + pic_tail_spec(cw, ch)
}

fn push_pic_head(out: &mut String, pic_id: u128, k: usize, ow: u32, oh: u32, cw: u32, ch: u32)
    ensures
        final(out)@ == old(out)@ + pic_head_spec(pic_id as nat, k as nat, ow as nat, oh as nat, cw as nat, ch as nat),
{
    out.append("<hp:pic id=\"");
    push_decimal(out, pic_id);
    out.append("\" zOrder=\"");
    push_decimal(out, k as u128);
    out.append("\" numberingType=\"PICTURE\" textWrap=\"TOP_AND_BOTTOM\" textFlow=\"BOTH_SIDES\" lock=\"0\" dropcapstyle=\"None\" href=\"\" groupLevel=\"0\" instid=\"");
    push_decimal(out, pic_id);
    out.append("\" reverse=\"0\"><hp:offset x=\"0\" y=\"0\"/><hp:orgSz width=\"");
    push_decimal(out, ow as u128);
    out.append("\" height=\"");
    push_decimal(out, oh as u128);
    out.append("\"/><hp:curSz width=\"");
    push_decimal(out, cw as u128);
    out.append("\" height=\"");
    push_decimal(out, ch as u128);
    out.append("\"/>");
    assert(out@ =~= old(out)@ + pic_head_spec(pic_id as nat, k as nat, ow as nat, oh as nat, cw as nat, ch as nat));
}

fn push_pic_render(out: &mut String, k: usize, ow: u32, oh: u32, cw: u32, ch: u32)
    requires
        cw <= ow,
        ch <= oh,
    ensures
        final(out)@ == old(out)@ + pic_render_spec(k as nat, ow as nat, oh as nat, cw as nat, ch as nat),
{
    out.append("<hp:flip horizontal=\"0\" vertical=\"0\"/><hp:rotationInfo angle=\"0\" centerX=\"");
    push_decimal(out, (cw / 2) as u128);
    out.append("\" centerY=\"");
    push_decimal(out, (ch / 2) as u128);
    out.append("\" rotateimage=\"1\"/><hp:renderingInfo><hc:transMatrix e1=\"1\" e2=\"0\" e3=\"0\" e4=\"0\" e5=\"1\" e6=\"0\"/><hc:scaMatrix e1=\"");
    push_ratio6(out, cw, ow);
    out.append("\" e2=\"0\" e3=\"0\" e4=\"0\" e5=\"");
    push_ratio6(out, ch, oh);
    out.append("\" e6=\"0\"/><hc:rotMatrix e1=\"1\" e2=\"0\" e3=\"0\" e4=\"0\" e5=\"1\" e6=\"0\"/></hp:renderingInfo><hc:img binaryItemIDRef=\"image");
    push_decimal(out, k as u128 + 1);
    out.append("\" bright=\"0\" contrast=\"0\" effect=\"REAL_PIC\" alpha=\"0\"/>");
    assert(out@ =~= old(out)@ + pic_render_spec(k as nat, ow as nat, oh as nat, cw as nat, ch as nat));
}

fn push_pic_rect(out: &mut String, ow: u32, oh: u32)
    ensures
        final(out)@ == old(out)@ + pic_rect_spec(ow as nat, oh as nat),
{
    out.append("<hp:imgRect><hc:pt0 x=\"0\" y=\"0\"/><hc:pt1 x=\"");
    push_decimal(out, ow as u128);
    out.append("\" y=\"0\"/><hc:pt2 x=\"");
    push_decimal(out, ow as u128);
    out.append("\" y=\"");
    push_decimal(out, oh as u128);
    out.append("\"/><hc:pt3 x=\"0\" y=\"");
    push_decimal(out, oh as u128);
    out.append("\"/></hp:imgRect><hp:imgClip left=\"0\" right=\"");
    push_decimal(out, ow as u128);
    out.append("\" top=\"0\" bottom=\"");
    push_decimal(out, oh as u128);
    out.append("\"/><hp:inMargin left=\"0\" right=\"0\" top=\"0\" bottom=\"0\"/><hp:imgDim dimwidth=\"");
    push_decimal(out, ow as u128);
    out.append("\" dimheight=\"");
    push_decimal(out, oh as u128);
    out.append("\"/><hp:effects/>");
    assert(out@ =~= old(out)@ + pic_rect_spec(ow as nat, oh as nat));
}

fn push_pic_tail(out: &mut String, cw: u32, ch: u32)
    ensures
        final(out)@ == old(out)@ + pic_tail_spec(cw as nat, ch as nat),
{
    out.append("<hp:sz width=\"");
    push_decimal(out, cw as u128);
    out.append("\" widthRelTo=\"ABSOLUTE\" height=\"");
    push_decimal(out, ch as u128);
    out.append("\" heightRelTo=\"ABSOLUTE\" protect=\"0\"/><hp:pos treatAsChar=\"1\" affectLSpacing=\"0\" flowWithText=\"1\" allowOverlap=\"0\" holdAnchorAndSO=\"0\" vertRelTo=\"PARA\" horzRelTo=\"PARA\" vertAlign=\"TOP\" horzAlign=\"LEFT\" vertOffset=\"0\" horzOffset=\"0\"/><hp:outMargin left=\"0\" right=\"0\" top=\"0\" bottom=\"0\"/></hp:pic>");
    assert(out@ =~= old(out)@ + pic_tail_spec(cw as nat, ch as nat));
}

fn fit(ow: u32, oh: u32) -> (r: (u32, u32))
    ensures
        (r.0 as nat, r.1 as nat) == fitted(ow as nat, oh as nat),
        r.0 <= ow,
        r.1 <= oh,
{
    if ow > CONTENT_WIDTH {
        assert(oh as u64 * CONTENT_WIDTH as u64 <= 0xFFFF_FFFF_FFFF) by (nonlinear_arith)
            requires oh <= 0xFFFF_FFFF;
        let h: u64 = oh as u64 * CONTENT_WIDTH as u64 / ow as u64;
        assert(h <= oh) by (nonlinear_arith)
            requires h as int == (oh as int * 42520) / (ow as int), ow > 42520;
        (CONTENT_WIDTH, h as u32)
    } else {
        (ow, oh)
    }
}

impl HwpxWriter {
    /// Picture markup of the `img_idx`-th image.
    pub fn format_picture(&self, img_idx: usize, image: &HwpxImage) -> (r: String)
        ensures
            r@ == picture_xml_spec(self.id_bases().1, img_idx as nat, *image),
    {
        let ow = units_of(image.width_mm);
        let oh = units_of(image.height_mm);
        let (cw, ch) = fit(ow, oh);
        let (_, base) = self.next_ids();
        let pic_id: u128 = base as u128 + img_idx as u128;
        let mut xml = String::new();
        push_pic_head(&mut xml, pic_id, img_idx, ow, oh, cw, ch);
        push_pic_render(&mut xml, img_idx, ow, oh, cw, ch);
        push_pic_rect(&mut xml, ow, oh);
        push_pic_tail(&mut xml, cw, ch);
        assert(xml@ =~= picture_xml_spec(self.id_bases().1, img_idx as nat, *image));
        xml
    }
}

/// First position at or after `i` where `p` occurs in `t`.
pub open spec fn find_from(t: Seq<char>, p: Seq<char>, i: int) -> Option<int>
    decreases t.len() - i,
{
    if i < 0 || i + p.len() > t.len() {
        None
    } else if t.subrange(i, i + p.len()) == p {
        Some(i)
    } else if i >= t.len() {
        None
    } else {
        find_from(t, p, i + 1)
    }
}

/// First position where `p` occurs in `t`, in characters.
pub open spec fn first_occurrence(t: Seq<char>, p: Seq<char>) -> Option<int> {
    find_from(t, p, 0)
}

fn occurs_at(t: &Vec<char>, p: &Vec<char>, i: usize) -> (r: bool)
    requires
        i + p@.len() <= t@.len(),
    ensures
        r == (t@.subrange(i as int, i + p@.len()) == p@),
{
    let tl = t.len();
    let mut j: usize = 0;
    while j < p.len()
        invariant
            tl == t@.len(),
            i + p@.len() <= t@.len(),
            j <= p@.len(),
            forall|k: int| 0 <= k < j ==> t@[i + k] == p@[k],
        decreases p@.len() - j,
    {
        if t[i + j] != p[j] {
            assert(t@.subrange(i as int, i + p@.len())[j as int] != p@[j as int]);
            return false;
        }
        j += 1;
    }
    assert(t@.subrange(i as int, i + p@.len()) =~= p@);
    true
}

/// Position of the first occurrence of `p` in `t`.
pub fn find_chars(t: &Vec<char>, p: &Vec<char>) -> (r: Option<usize>)
    ensures
        match r {
            Some(i) => first_occurrence(t@, p@) == Some(i as int) && i + p@.len() <= t@.len(),
            None => first_occurrence(t@, p@) is None,
        },
{
    if p.len() > t.len() {
        return None;
    }
    let last = t.len() - p.len();
    let mut i: usize = 0;
    loop
        invariant
            last == t@.len() - p@.len(),
            i <= last,
            find_from(t@, p@, 0) == find_from(t@, p@, i as int),
        decreases last - i,
    {
        if occurs_at(t, p, i) {
            return Some(i);
        }
        if i == last {
            assert(find_from(t@, p@, i + 1) is None);
            return None;
        }
        i += 1;
    }
}

/// Characters `a .. b` of `t`, clipped to its length.
pub open spec fn clip(t: Seq<char>, a: int, b: int) -> Seq<char> {
    if a >= t.len() || b <= a {
        Seq::empty()
    } else {
        t.subrange(a, if b < t.len() { b } else { t.len() as int })
    }
}

pub(crate) fn clip_string(t: &Vec<char>, a: usize, b: usize) -> (r: String)
    ensures
        r@ == clip(t@, a as int, b as int),
{
    if a >= t.len() || b <= a {
        let r = String::new();
        assert(r@ =~= clip(t@, a as int, b as int));
        r
    } else {
        let end: usize = if b < t.len() {
            b
        } else {
            t.len()
        };
        string_of(t, a, end)
    }
}

/// A run that is a link to `url` showing `t`.
pub open spec fn link_run_spec(url: Seq<char>, t: Seq<char>) -> Seq<char> {
    "<hp:run charPrIDRef=\"0\"><hp:ctrl><hp:hyperlink url=\""@ + escape_spec(url)
        + "\" visited=\"0\" visited_style=\"0\" new_window=\"0\"/></hp:ctrl><hp:t>"@ + escape_spec(t)
        + "</hp:t></hp:run>"@
}

/// Markup and end position after the first `n` links: a link whose text
/// occurs in the paragraph is anchored at its first occurrence, after a
/// plain run for the text between the previous link and it.
pub open spec fn links_state(text: Seq<char>, links: Seq<HwpxHyperlink>, n: int) -> (Seq<char>, int)
    decreases n,
{
    if n <= 0 {
        (Seq::empty(), 0)
    } else {
        let prev = links_state(text, links, n - 1);
        let l = links[n - 1];
        match first_occurrence(text, l.text@) {
            None => prev,
            Some(start) => (
                prev.0 + (if start > prev.1 {
                    text_run_spec(clip(text, prev.1, start))
                } else {
                    Seq::empty()
                }) + link_run_spec(l.url@, l.text@),
                start + l.text@.len(),
            ),
        }
    }
}

/// Markup of a paragraph with links; the text after the last link is a
/// plain run, and a paragraph where nothing was written is one plain run.
pub open spec fn hyperlinks_xml_spec(text: Seq<char>, links: Seq<HwpxHyperlink>) -> Seq<char> {
    let st = links_state(text, links, links.len() as int);
    let x = st.0 + (if st.1 < text.len() {
        text_run_spec(text.subrange(st.1, text.len() as int))
    } else {
        Seq::empty()
    });
    if x.len() == 0 {
        text_run_spec(text)
    } else {
        x
    }
}

fn push_link_run(out: &mut String, url: &str, t: &str)
    ensures
        final(out)@ == old(out)@ + link_run_spec(url@, t@),
{
    out.append("<hp:run charPrIDRef=\"0\"><hp:ctrl><hp:hyperlink url=\"");
    push_escaped(out, url);
    out.append("\" visited=\"0\" visited_style=\"0\" new_window=\"0\"/></hp:ctrl><hp:t>");
    push_escaped(out, t);
    out.append("</hp:t></hp:run>");
    assert(out@ =~= old(out)@ + link_run_spec(url@, t@));
}

impl HwpxWriter {
    /// Markup of a paragraph with links (see `hyperlinks_xml_spec`).
    pub fn format_hyperlinks(&self, text: &str, links: &Vec<HwpxHyperlink>) -> (r: String)
        ensures
            r@ == hyperlinks_xml_spec(text@, links@),
    {
        let cs = chars_of(text);
        let n = cs.len();
        let mut xml = String::new();
        let mut last_end: usize = 0;
        let mut i: usize = 0;
        while i < links.len()
            invariant
                n == cs@.len(),
                cs@ == text@,
                i <= links@.len(),
                (xml@, last_end as int) == links_state(text@, links@, i as int),
            decreases links@.len() - i,
        {
            let link = &links[i];
            let pat = chars_of(link.text.as_str());
            match find_chars(&cs, &pat) {
                None => {},
                Some(start) => {
                    if start > last_end {
                        let prefix = clip_string(&cs, last_end, start);
                        push_text_run(&mut xml, prefix.as_str());
                    }
                    push_link_run(&mut xml, link.url.as_str(), link.text.as_str());
                    last_end = start + pat.len();
                },
            }
            i += 1;
            assert(xml@ =~= links_state(text@, links@, i as int).0);
        }
        if last_end < cs.len() {
            let suffix = string_of(&cs, last_end, cs.len());
            push_text_run(&mut xml, suffix.as_str());
        }
        if xml.as_str().unicode_len() == 0 {
            push_text_run(&mut xml, text);
        }
        assert(xml@ =~= hyperlinks_xml_spec(text@, links@));
        xml
    }
}

/// Page kind name of an applies-to setting.
pub open spec fn apply_spec(a: HeaderFooterApplyTo) -> Seq<char> {
    match a {
        HeaderFooterApplyTo::All => "BOTH"@,
        HeaderFooterApplyTo::Odd => "ODD"@,
        HeaderFooterApplyTo::Even => "EVEN"@,
    }
}

fn apply_name(a: HeaderFooterApplyTo) -> (r: &'static str)
    ensures
        r@ == apply_spec(a),
{
    match a {
        HeaderFooterApplyTo::All => "BOTH",
        HeaderFooterApplyTo::Odd => "ODD",
        HeaderFooterApplyTo::Even => "EVEN",
    }
}

/// Opening of the text frame of a header or footer.
pub const SUBLIST_OPEN: &'static str = "<hp:subList id=\"\" textDirection=\"HORIZONTAL\" lineWrap=\"BREAK\" vertAlign=\"TOP\" linkListIDRef=\"0\" linkListNextIDRef=\"0\" textWidth=\"42520\" textHeight=\"4252\" hasTextRef=\"0\" hasNumRef=\"0\"><hp:p id=\"0\" paraPrIDRef=\"0\" styleIDRef=\"0\" pageBreak=\"0\" columnBreak=\"0\" merged=\"0\"><hp:run charPrIDRef=\"0\">";

/// An automatic page number in the given numbering style.
pub open spec fn page_number_spec(format: Seq<char>) -> Seq<char> {
    "<hp:ctrl><hp:autoNum num=\"1\" numType=\"PAGE\"><hp:autoNumFormat type=\""@ + format
        + "\" userChar=\"\" prefixChar=\"\" suffixChar=\"\" supscript=\"0\"/></hp:autoNum></hp:ctrl><hp:t/>"@
}

/// Content of a header: its text, or a page number when it has none.
pub open spec fn header_content_spec(h: HwpxHeader) -> Seq<char> {
    if h.text@.len() == 0 {
        page_number_spec("DIGIT"@)
    } else {
        "<hp:t>"@ + escape_spec(h.text@) + "</hp:t>"@
    }
}

/// Content of a footer: its text, then the page number when asked for.
pub open spec fn footer_content_spec(f: HwpxFooter) -> Seq<char> {
    if f.include_page_number {
        "<hp:t>"@ + escape_spec(f.text@) + "</hp:t></hp:run><hp:run charPrIDRef=\"0\">"@ + page_number_spec(
            f.page_number_format.format_name(),
        )
    } else {
        "<hp:t>"@ + escape_spec(f.text@) + "</hp:t>"@
    }
}

pub open spec fn header_ctrl_spec(idx: nat, h: HwpxHeader) -> Seq<char> {
    "<hp:ctrl><hp:header id=\""@ + decimal(idx + 1) + "\" applyPageType=\""@ + apply_spec(h.apply_to)
        + "\">"@ + SUBLIST_OPEN@ + header_content_spec(h)
        + "</hp:run></hp:p></hp:subList></hp:header></hp:ctrl>"@
}

pub open spec fn footer_ctrl_spec(idx: nat, f: HwpxFooter) -> Seq<char> {
    "<hp:ctrl><hp:footer id=\""@ + decimal(idx + 1) + "\" applyPageType=\""@ + apply_spec(f.apply_to)
        + "\">"@ + SUBLIST_OPEN@ + footer_content_spec(f)
        + "</hp:run></hp:p></hp:subList></hp:footer></hp:ctrl>"@
}

pub open spec fn headers_ctrl_spec(hs: Seq<HwpxHeader>, n: int) -> Seq<char>
    decreases n,
{
    if n <= 0 {
        Seq::empty()
    } else {
        headers_ctrl_spec(hs, n - 1) + header_ctrl_spec((n - 1) as nat, hs[n - 1])
    }
}

pub open spec fn footers_ctrl_spec(fs: Seq<HwpxFooter>, n: int) -> Seq<char>
    decreases n,
{
    if n <= 0 {
        Seq::empty()
    } else {
        footers_ctrl_spec(fs, n - 1) + footer_ctrl_spec((n - 1) as nat, fs[n - 1])
    }
}

fn push_header_ctrl(out: &mut String, idx: usize, h: &HwpxHeader)
    requires
        idx < usize::MAX,
    ensures
        final(out)@ == old(out)@ + header_ctrl_spec(idx as nat, *h),
{
    out.append("<hp:ctrl><hp:header id=\"");
    push_decimal(out, idx as u128 + 1);
    out.append("\" applyPageType=\"");
    out.append(apply_name(h.apply_to));
    out.append("\">");
    out.append(SUBLIST_OPEN);
    if h.text.as_str().unicode_len() == 0 {
        out.append("<hp:ctrl><hp:autoNum num=\"1\" numType=\"PAGE\"><hp:autoNumFormat type=\"");
        out.append("DIGIT");
        out.append("\" userChar=\"\" prefixChar=\"\" suffixChar=\"\" supscript=\"0\"/></hp:autoNum></hp:ctrl><hp:t/>");
    } else {
        out.append("<hp:t>");
        push_escaped(out, h.text.as_str());
        out.append("</hp:t>");
    }
    out.append("</hp:run></hp:p></hp:subList></hp:header></hp:ctrl>");
    assert(out@ =~= old(out)@ + header_ctrl_spec(idx as nat, *h));
}

fn push_footer_ctrl(out: &mut String, idx: usize, f: &HwpxFooter)
    requires
        idx < usize::MAX,
    ensures
        final(out)@ == old(out)@ + footer_ctrl_spec(idx as nat, *f),
{
    out.append("<hp:ctrl><hp:footer id=\"");
    push_decimal(out, idx as u128 + 1);
    out.append("\" applyPageType=\"");
    out.append(apply_name(f.apply_to));
    out.append("\">");
    out.append(SUBLIST_OPEN);
    out.append("<hp:t>");
    push_escaped(out, f.text.as_str());
    if f.include_page_number {
        out.append("</hp:t></hp:run><hp:run charPrIDRef=\"0\">");
        out.append("<hp:ctrl><hp:autoNum num=\"1\" numType=\"PAGE\"><hp:autoNumFormat type=\"");
        out.append(f.page_number_format.as_hwpx_format());
        out.append("\" userChar=\"\" prefixChar=\"\" suffixChar=\"\" supscript=\"0\"/></hp:autoNum></hp:ctrl><hp:t/>");
    } else {
        out.append("</hp:t>");
    }
    out.append("</hp:run></hp:p></hp:subList></hp:footer></hp:ctrl>");
    assert(out@ =~= old(out)@ + footer_ctrl_spec(idx as nat, *f));
}

impl HwpxWriter {
    /// Control markup of every header, numbered from 1.
    pub fn generate_header_ctrl_xml(&self) -> (r: String)
        ensures
            r@ == headers_ctrl_spec(self.headers(), self.headers().len() as int),
    {
        let hs = self.headers_ref();
        let mut xml = String::new();
        let mut i: usize = 0;
        while i < hs.len()
            invariant
                i <= hs@.len(),
                xml@ == headers_ctrl_spec(hs@, i as int),
            decreases hs@.len() - i,
        {
            push_header_ctrl(&mut xml, i, &hs[i]);
            i += 1;
        }
        xml
    }

    /// Control markup of every footer, numbered from 1.
    pub fn generate_footer_ctrl_xml(&self) -> (r: String)
        ensures
            r@ == footers_ctrl_spec(self.footers(), self.footers().len() as int),
    {
        let fs = self.footers_ref();
        let mut xml = String::new();
        let mut i: usize = 0;
        while i < fs.len()
            invariant
                i <= fs@.len(),
                xml@ == footers_ctrl_spec(fs@, i as int),
            decreases fs@.len() - i,
        {
            push_footer_ctrl(&mut xml, i, &fs[i]);
            i += 1;
        }
        xml
    }
}

} // verus!
