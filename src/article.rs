//! Articles (an identifier, metadata and content items) and their conversion.
use vstd::prelude::*;
use vstd::string::*;

use crate::chars::{trim, trim_spec};
use crate::archive::{package_spec, zip_archive};
use crate::convert::{
    add_image_from_base64, add_image_from_url, add_separator_paragraph, add_table_from_html, add_text_paragraphs,
    appended_plain, base64_decoded, converted, converted_by_format, embed_outcome, lines_of, lower_opt, path_extension_of,
    str_opt, table_outcome,
};
use crate::error::JsonToHwpxError;
use crate::style::{HwpxTextStyle, StyledText};
use crate::writer::{appended, body, is_plain, last_paragraph, lemma_appended_body, runs_text, HwpxMetadata, HwpxWriter};

verus! {

/// Metadata of an article; all of it optional and free-form.
#[derive(Debug, Clone)]
pub struct Metadata {
    pub author: Option<String>,
    pub created_at: Option<String>,
    pub updated_at: Option<String>,
    pub department: Option<String>,
    pub board_id: Option<String>,
    pub board_name: Option<String>,
    pub folder_id: Option<String>,
    pub expiry: Option<String>,
    pub views: Option<u64>,
    pub likes: Option<u64>,
    pub comments: Option<u64>,
}

impl Default for Metadata {
    fn default() -> (r: Metadata)
        ensures
            r.author is None && r.created_at is None && r.updated_at is None && r.department is None,
            r.board_id is None && r.board_name is None && r.folder_id is None && r.expiry is None,
            r.views is None && r.likes is None && r.comments is None,
    {
        Metadata {
            author: None,
            created_at: None,
            updated_at: None,
            department: None,
            board_id: None,
            board_name: None,
            folder_id: None,
            expiry: None,
            views: None,
            likes: None,
            comments: None,
        }
    }
}

/// Options of a conversion.
#[derive(Debug, Clone)]
pub struct ConvertOptions {
    /// Whether to print the metadata above the body.
    pub include_header: bool,
    /// Which metadata fields to print; all of them when empty.
    pub header_fields: Vec<String>,
}

impl Default for ConvertOptions {
    fn default() -> (r: ConvertOptions)
        ensures
            !r.include_header,
            r.header_fields@.len() == 0,
    {
        ConvertOptions { include_header: false, header_fields: Vec::new() }
    }
}

/// One content item of an article.
#[derive(Debug, Clone)]
pub enum Content {
    /// Text; each line becomes a paragraph.
    Text { value: String },
    /// An image, as a reference or as Base64 data with an optional format.
    Image { url: Option<String>, base64: Option<String>, format: Option<String> },
    /// HTML table markup.
    Table { value: String },
}

/// An article to convert.
#[derive(Debug, Clone)]
pub struct ArticleDocument {
    pub schema_version: Option<String>,
    pub article_id: String,
    pub title: Option<String>,
    pub metadata: Option<Metadata>,
    pub contents: Vec<Content>,
    pub content_html: Option<String>,
    pub attachment_count: Option<u64>,
    pub total_attachment_size: Option<u64>,
}

impl ArticleDocument {
    /// The identifier must not be blank.
    pub fn validate(&self) -> (r: Result<(), JsonToHwpxError>)
        ensures
            r is Err <==> trim_spec(self.article_id@).len() == 0,
            r matches Err(e) ==> e is Input,
    {
        let t = trim(self.article_id.as_str());
        if t.as_str().unicode_len() == 0 {
            Err(JsonToHwpxError::Input(String::from_str("article_id is blank")))
        } else {
            Ok(())
        }
    }
}

pub open spec fn opt_text(o: Option<String>) -> Option<Seq<char>> {
    match o {
        Some(s) => Some(s@),
        None => None,
    }
}

/// `"name (department)"`, the name alone, or nothing.
pub open spec fn creator_spec(author: Option<Seq<char>>, dept: Option<Seq<char>>) -> Seq<char> {
    match (author, dept) {
        (Some(n), Some(d)) => n + " ("@ + d + ")"@,
        (Some(n), None) => n,
        _ => Seq::empty(),
    }
}

/// Whether a header field is printed: all are when none is listed.
pub open spec fn field_selected(fields: Seq<String>, key: Seq<char>) -> bool {
    fields.len() == 0 || exists|i: int| 0 <= i < fields.len() && #[trigger] fields[i]@ == key
}

/// One field of the header: kept when it is selected, has a value and its
/// label has not been printed yet.
pub open spec fn header_step(
    acc: Seq<(Seq<char>, Seq<char>)>,
    fields: Seq<String>,
    key: Seq<char>,
    label: Seq<char>,
    value: Option<Seq<char>>,
) -> Seq<(Seq<char>, Seq<char>)> {
    if !field_selected(fields, key) {
        acc
    } else {
        match value {
            None => acc,
            Some(v) => if exists|i: int| 0 <= i < acc.len() && #[trigger] acc[i].0 == label {
                acc
            } else {
                acc.push((label, v))
            },
        }
    }
}

fn select(fields: &Vec<String>, key: &str) -> (r: bool)
    ensures
        r == field_selected(fields@, key@),
{
    if fields.len() == 0 {
        return true;
    }
    let mut i: usize = 0;
    while i < fields.len()
        invariant
            i <= fields@.len(),
            forall|k: int| 0 <= k < i ==> fields@[k]@ != key@,
        decreases fields@.len() - i,
    {
        if crate::convert::same_text(fields[i].as_str(), key) {
            return true;
        }
        i += 1;
    }
    false
}

fn printed(acc: &Vec<(String, String)>, label: &str) -> (r: bool)
    ensures
        r == exists|i: int| 0 <= i < acc@.len() && #[trigger] acc@[i].0@ == label@,
{
    let mut i: usize = 0;
    while i < acc.len()
        invariant
            i <= acc@.len(),
            forall|k: int| 0 <= k < i ==> acc@[k].0@ != label@,
        decreases acc@.len() - i,
    {
        if crate::convert::same_text(acc[i].0.as_str(), label) {
            return true;
        }
        i += 1;
    }
    false
}

pub open spec fn pairs_view(v: Seq<(String, String)>) -> Seq<(Seq<char>, Seq<char>)> {
    v.map_values(|p: (String, String)| (p.0@, p.1@))
}

fn step(acc: &mut Vec<(String, String)>, fields: &Vec<String>, key: &str, label: &str, value: &Option<String>)
    ensures
        pairs_view(final(acc)@) == header_step(pairs_view(old(acc)@), fields@, key@, label@, opt_text(*value)),
{
    if !select(fields, key) {
        return;
    }
    match value {
        None => {},
        Some(v) => {
            let p = printed(acc, label);
            proof {
                let pv = pairs_view(acc@);
                if p {
                    let i = choose|i: int| 0 <= i < acc@.len() && #[trigger] acc@[i].0@ == label@;
                    assert(pv[i].0 == label@);
                } else {
                    assert forall|i: int| 0 <= i < pv.len() implies #[trigger] pv[i].0 != label@ by {
                        assert(pv[i].0 == acc@[i].0@);
                    }
                }
            }
            if !p {
                let ghost before = acc@;
                acc.push((String::from_str(label), v.clone()));
                assert(pairs_view(acc@) =~= pairs_view(before).push((label@, v@)));
            }
        },
    }
}

pub open spec fn meta_field(m: Option<Metadata>, k: nat) -> Option<Seq<char>> {
    match m {
        Some(md) => opt_text(
            if k == 0 {
                md.author
            } else if k == 1 {
                md.department
            } else if k == 2 {
                md.created_at
            } else if k == 3 {
                md.board_name
            } else {
                md.expiry
            },
        ),
        None => None,
    }
}

/// The (label, value) lines of the metadata header, in order, one per label.
pub open spec fn header_lines(d: ArticleDocument, fields: Seq<String>) -> Seq<(Seq<char>, Seq<char>)> {
    let t = opt_text(d.title);
    let m = d.metadata;
    let a0 = header_step(Seq::empty(), fields, "title"@, "제목"@, t);
    let a1 = header_step(a0, fields, "subject"@, "제목"@, t);
    let a2 = header_step(a1, fields, "author"@, "작성자"@, meta_field(m, 0));
    let a3 = header_step(a2, fields, "regEmpName"@, "작성자"@, meta_field(m, 0));
    let a4 = header_step(a3, fields, "department"@, "부서"@, meta_field(m, 1));
    let a5 = header_step(a4, fields, "regDeptName"@, "부서"@, meta_field(m, 1));
    let a6 = header_step(a5, fields, "created_at"@, "작성일"@, meta_field(m, 2));
    let a7 = header_step(a6, fields, "regDt"@, "작성일"@, meta_field(m, 2));
    let a8 = header_step(a7, fields, "board_name"@, "게시판"@, meta_field(m, 3));
    header_step(a8, fields, "expiry"@, "보존기간"@, meta_field(m, 4))
}

/// Chooses the header lines (see [`header_lines`]).
pub fn select_header_lines(input: &ArticleDocument, options: &ConvertOptions) -> (r: Vec<(String, String)>)
    ensures
        pairs_view(r@) == header_lines(*input, options.header_fields@),
{
    let none: Option<String> = None;
    let (author, department, created_at, board_name, expiry) = match &input.metadata {
        Some(m) => (m.author.clone(), m.department.clone(), m.created_at.clone(), m.board_name.clone(), m.expiry.clone()),
        None => (None, None, None, None, None),
    };
    let f = &options.header_fields;
    let mut acc: Vec<(String, String)> = Vec::new();
    assert(pairs_view(acc@) =~= Seq::<(Seq<char>, Seq<char>)>::empty());
    step(&mut acc, f, "title", "제목", &input.title);
    step(&mut acc, f, "subject", "제목", &input.title);
    step(&mut acc, f, "author", "작성자", &author);
    step(&mut acc, f, "regEmpName", "작성자", &author);
    step(&mut acc, f, "department", "부서", &department);
    step(&mut acc, f, "regDeptName", "부서", &department);
    step(&mut acc, f, "created_at", "작성일", &created_at);
    step(&mut acc, f, "regDt", "작성일", &created_at);
    step(&mut acc, f, "board_name", "게시판", &board_name);
    step(&mut acc, f, "expiry", "보존기간", &expiry);
    acc
}

/// The rule printed below the metadata header.
pub const RULE: &'static str = "─────────────────────────";

/// Prints the metadata above the body: one paragraph per header line (the
/// label and a colon in bold, then the value), a rule and an empty line.
pub fn add_header_section(writer: &mut HwpxWriter, input: &ArticleDocument, options: &ConvertOptions) -> (r: Result<(), JsonToHwpxError>)
    ensures
        r is Ok,
        ({
            let b0 = body(old(writer).doc());
            let b1 = body(final(writer).doc());
            &&& b1.len() >= b0.len() + 2
            &&& b1.take(b0.len() as int) == b0
            &&& is_plain(b1[b1.len() - 2], RULE@)
            &&& is_plain(b1[b1.len() - 1], Seq::empty())
        }),
        final(writer).same_attachments(*old(writer)),
{
    let lines = select_header_lines(input, options);
    let bold = HwpxTextStyle::new().bold();
    let ghost start = *writer;
    let mut i: usize = 0;
    proof {
        assert(body(writer.doc()).take(body(start.doc()).len() as int) =~= body(start.doc()));
    }
    while i < lines.len()
        invariant
            i <= lines@.len(),
            body(writer.doc()).len() >= body(start.doc()).len(),
            body(writer.doc()).take(body(start.doc()).len() as int) == body(start.doc()),
            writer.same_attachments(start),
        decreases lines@.len() - i,
    {
        let mut label = lines[i].0.clone();
        label.append(": ");
        let a = label.as_str().unicode_len();
        let b = lines[i].1.as_str().unicode_len();
        if a <= usize::MAX - b {
            let mut runs: Vec<StyledText> = Vec::new();
            runs.push(StyledText::with_style(label.as_str(), bold.clone()));
            runs.push(StyledText::new(lines[i].1.as_str()));
            proof {
                let r2 = runs@;
                assert(r2.drop_last().drop_last() =~= Seq::<StyledText>::empty());
                assert(r2.drop_last().last() == r2[0]);
                assert(r2.last() == r2[1]);
                assert(runs_text(r2.drop_last()) =~= runs_text(r2.drop_last().drop_last()) + r2[0].text@);
                assert(runs_text(r2) =~= r2[0].text@ + r2[1].text@);
            }
            let ghost before = body(writer.doc());
            let _ = writer.add_mixed_styled_paragraph(runs);
            assert(body(writer.doc()).take(body(start.doc()).len() as int) =~= before.take(body(start.doc()).len() as int));
        }
        i += 1;
    }
    let ghost w1 = *writer;
    let _ = writer.add_paragraph(RULE);
    let ghost w2 = *writer;
    let _ = add_separator_paragraph(writer);
    proof {
        lemma_appended_body(w1.doc(), w2.doc());
        lemma_appended_body(w2.doc(), writer.doc());
        let n0 = body(start.doc()).len() as int;
        assert(body(writer.doc()).take(n0) =~= body(w1.doc()).take(n0));
    }
    Ok(())
}

/// The document metadata of an article: its title, its creator (see
/// [`creator_spec`]) and its creation date, empty when absent.
pub fn article_metadata(input: &ArticleDocument) -> (r: HwpxMetadata)
    ensures
        r.title@ == match input.title {
            Some(t) => t@,
            None => Seq::empty(),
        },
        r.creator@ == creator_spec(meta_field(input.metadata, 0), meta_field(input.metadata, 1)),
        r.created_date@ == match meta_field(input.metadata, 2) {
            Some(d) => d,
            None => Seq::empty(),
        },
{
    let title = match &input.title {
        Some(t) => t.clone(),
        None => String::new(),
    };
    let mut creator = String::new();
    let mut created_date = String::new();
    match &input.metadata {
        Some(m) => {
            match (&m.author, &m.department) {
                (Some(n), Some(d)) => {
                    creator.append(n.as_str());
                    creator.append(" (");
                    creator.append(d.as_str());
                    creator.append(")");
                },
                (Some(n), None) => {
                    creator.append(n.as_str());
                },
                _ => {},
            }
            match &m.created_at {
                Some(c) => {
                    created_date.append(c.as_str());
                },
                None => {},
            }
        },
        None => {},
    }
    assert(creator@ =~= creator_spec(meta_field(input.metadata, 0), meta_field(input.metadata, 1)));
    HwpxMetadata { title, creator, created_date }
}

/// The bytes loaded for the `k`-th image given by reference, if any.
pub open spec fn loaded_bytes(loaded: Seq<Result<Vec<u8>, String>>, k: int) -> Option<Seq<u8>> {
    if 0 <= k < loaded.len() {
        match loaded[k] {
            Ok(b) => Some(b@),
            Err(_) => None,
        }
    } else {
        None
    }
}

/// Whether a content item is an image given by reference only.
pub open spec fn by_reference(c: Content) -> bool {
    match c {
        Content::Image { url, base64, .. } => base64 is None && url is Some,
        _ => false,
    }
}

/// Number of images given by reference before item `i`.
pub open spec fn references_before(contents: Seq<Content>, i: int) -> int
    decreases i,
{
    if i <= 0 {
        0
    } else {
        references_before(contents, i - 1) + if by_reference(contents[i - 1]) {
            1int
        } else {
            0int
        }
    }
}

/// One content item applied to the writer, given the bytes loaded for it.
pub open spec fn item_step(old: HwpxWriter, new: HwpxWriter, c: Content, img: Option<Seq<u8>>, r: Result<(), JsonToHwpxError>) -> bool {
    match c {
        Content::Text { value } => r is Ok && appended_plain(old, new, lines_of(value@)),
        Content::Table { value } => table_outcome(old, new, value@, r),
        Content::Image { url, base64, format } => match base64 {
            Some(b64) => embed_outcome(
                old,
                new,
                match base64_decoded(b64@) {
                    Some(b) => converted_by_format(opt_text(format), b),
                    None => None,
                },
                r,
            ),
            None => match url {
                Some(u) => embed_outcome(
                    old,
                    new,
                    match img {
                        Some(b) => converted(lower_opt(path_extension_of(u@)), b),
                        None => None,
                    },
                    r,
                ),
                None => r is Ok && new == old,
            },
        },
    }
}

/// The empty paragraph between two content items.
pub open spec fn separated(old: HwpxWriter, new: HwpxWriter) -> bool {
    &&& appended(old.doc(), new.doc())
    &&& is_plain(last_paragraph(new.doc()), Seq::empty())
    &&& new.same_attachments(old)
}

/// Item `j` of the contents applied, after the separator when it is not the
/// first item.
pub open spec fn content_step(old: HwpxWriter, new: HwpxWriter, contents: Seq<Content>, loaded: Seq<Result<Vec<u8>, String>>, j: int, r: Result<(), JsonToHwpxError>) -> bool {
    exists|mid: HwpxWriter| {
        &&& (if j == 0 { mid == old } else { separated(old, mid) })
        &&& #[trigger] item_step(mid, new, contents[j], loaded_bytes(loaded, references_before(contents, j)), r)
    }
}

/// The writer before the content items: the article's metadata, and the
/// metadata header when it is asked for.
pub open spec fn started(input: ArticleDocument, options: ConvertOptions, w: HwpxWriter) -> bool {
    &&& w.meta().title@ == match input.title {
        Some(t) => t@,
        None => Seq::empty(),
    }
    &&& w.meta().creator@ == creator_spec(meta_field(input.metadata, 0), meta_field(input.metadata, 1))
    &&& w.meta().created_date@ == match meta_field(input.metadata, 2) {
        Some(d) => d,
        None => Seq::empty(),
    }
    &&& w.tables().len() == 0 && w.images().len() == 0 && w.hyperlinks().len() == 0
    &&& w.headers().len() == 0 && w.footers().len() == 0
    &&& !options.include_header ==> w.doc().sections@.len() == 0 && w.shapes().len() == 0
    &&& options.include_header ==> {
        let b = body(w.doc());
        &&& b.len() >= 2
        &&& is_plain(b[b.len() - 2], RULE@)
        &&& is_plain(b[b.len() - 1], Seq::empty())
    }
}

proof fn lemma_ok_step(old: HwpxWriter, new: HwpxWriter, contents: Seq<Content>, loaded: Seq<Result<Vec<u8>, String>>, j: int, r: Result<(), JsonToHwpxError>)
    requires
        content_step(old, new, contents, loaded, j, r),
        r is Ok,
    ensures
        content_step(old, new, contents, loaded, j, Ok(())),
{
    let mid = choose|mid: HwpxWriter| {
        &&& (if j == 0 { mid == old } else { separated(old, mid) })
        &&& #[trigger] item_step(mid, new, contents[j], loaded_bytes(loaded, references_before(contents, j)), r)
    };
    assert(item_step(mid, new, contents[j], loaded_bytes(loaded, references_before(contents, j)), Ok(())));
}

/// The writers `ws` run through the first `n` content items without error.
pub open spec fn steps_ok(ws: Seq<HwpxWriter>, contents: Seq<Content>, loaded: Seq<Result<Vec<u8>, String>>, n: int) -> bool {
    &&& ws.len() == n + 1
    &&& forall|j: int| 0 <= j < n ==> #[trigger] content_step(ws[j], ws[j + 1], contents, loaded, j, Ok(()))
}

/// `w` is the document built from the article: started, then every content
/// item applied in order.
pub open spec fn built(input: ArticleDocument, options: ConvertOptions, loaded: Seq<Result<Vec<u8>, String>>, w: HwpxWriter) -> bool {
    exists|ws: Seq<HwpxWriter>| {
        &&& started(input, options, ws[0])
        &&& steps_ok(ws, input.contents@, loaded, input.contents@.len() as int)
        &&& #[trigger] ws.last() == w
    }
}

/// Building stops at content item `k` with error `e`.
pub open spec fn build_fails(input: ArticleDocument, options: ConvertOptions, loaded: Seq<Result<Vec<u8>, String>>, e: JsonToHwpxError) -> bool {
    exists|ws: Seq<HwpxWriter>, k: int| {
        &&& 0 <= k < input.contents@.len()
        &&& started(input, options, ws[0])
        &&& #[trigger] steps_ok(ws.drop_last(), input.contents@, loaded, k)
        &&& content_step(ws[k], ws.last(), input.contents@, loaded, k, Err(e))
    }
}

/// Builds the document of an article. The images given by reference come
/// in `loaded`, in the order they appear (the bytes, or why they could not
/// be read). Fails with an input error exactly when the identifier is
/// blank, and otherwise with the error of the first content item that
/// fails (a table without rows, an image that cannot be embedded).
pub fn build_document(input: &ArticleDocument, options: &ConvertOptions, loaded: &Vec<Result<Vec<u8>, String>>) -> (r: Result<HwpxWriter, JsonToHwpxError>)
    ensures
        trim_spec(input.article_id@).len() == 0 <==> (r matches Err(e) && e is Input),
        r matches Ok(w) ==> built(*input, *options, loaded@, w),
        r matches Err(e) ==> e is Input || build_fails(*input, *options, loaded@, e),
{
    match input.validate() {
        Err(e) => return Err(e),
        Ok(()) => {},
    }
    let mut writer = HwpxWriter::new();
    writer.set_metadata(article_metadata(input));
    if options.include_header {
        let _ = add_header_section(&mut writer, input, options);
    }
    let ghost contents = input.contents@;
    let ghost ws: Seq<HwpxWriter> = seq![writer];
    assert(ws[0] == writer);
    assert(started(*input, *options, ws[0]));
    let mut next: usize = 0;
    let mut i: usize = 0;
    while i < input.contents.len()
        invariant
            contents == input.contents@,
            i <= contents.len(),
            trim_spec(input.article_id@).len() != 0,
            started(*input, *options, ws[0]),
            steps_ok(ws, contents, loaded@, i as int),
            ws.last() == writer,
            next == references_before(contents, i as int),
            next <= i,
        decreases contents.len() - i,
    {
        let ghost before = writer;
        if i > 0 {
            let _ = add_separator_paragraph(&mut writer);
        }
        let ghost mid = writer;
        assert(if i == 0 { mid == before } else { separated(before, mid) });
        let ghost img = loaded_bytes(loaded@, next as int);
        let r: Result<(), JsonToHwpxError> = match &input.contents[i] {
            Content::Text { value } => add_text_paragraphs(&mut writer, value.as_str()),
            Content::Image { url, base64, format } => {
                match base64 {
                    Some(b64) => {
                        let fmt: Option<&str> = match format {
                            Some(f) => Some(f.as_str()),
                            None => None,
                        };
                        assert(str_opt(fmt) == opt_text(*format));
                        add_image_from_base64(&mut writer, b64.as_str(), fmt)
                    },
                    None => match url {
                        Some(u) => {
                            let item: Result<Vec<u8>, String> = if next < loaded.len() {
                                match &loaded[next] {
                                    Ok(b) => Ok(vstd::slice::slice_to_vec(b.as_slice())),
                                    Err(m) => Err(m.clone()),
                                }
                            } else {
                                Err(String::from_str("image was not loaded"))
                            };
                            assert(match item {
                                Ok(b) => img == Some(b@),
                                Err(_) => img is None,
                            });
                            next += 1;
                            add_image_from_url(&mut writer, u.as_str(), item)
                        },
                        None => Ok(()),
                    },
                }
            },
            Content::Table { value } => add_table_from_html(&mut writer, value.as_str()),
        };
        assert(item_step(mid, writer, contents[i as int], img, r));
        assert(content_step(before, writer, contents, loaded@, i as int, r));
        match r {
            Err(e) => {
                proof {
                    let ws2 = ws.push(writer);
                    assert(ws2.drop_last() == ws);
                    assert(ws2[i as int] == before);
                    assert(build_fails(*input, *options, loaded@, e)) by {
                        assert(steps_ok(ws2.drop_last(), contents, loaded@, i as int));
                    }
                }
                return Err(e);
            },
            Ok(()) => {
                proof {
                    let ws2 = ws.push(writer);
                    assert(ws2[i as int] == before && ws2[i + 1] == writer);
                    assert(r is Ok);
                    lemma_ok_step(before, writer, contents, loaded@, i as int, r);
                    assert(content_step(ws2[i as int], ws2[i + 1], contents, loaded@, i as int, Ok(())));
                    assert forall|j: int| 0 <= j < i + 1 implies #[trigger] content_step(ws2[j], ws2[j + 1], contents, loaded@, j, Ok(())) by {
                        if j < i {
                            assert(ws2[j] == ws[j] && ws2[j + 1] == ws[j + 1]);
                        } else {
                            assert(ws2[j] == before && ws2[j + 1] == writer);
                            }
                    }
                    ws = ws2;
                }
            },
        }
        i += 1;
    }
    assert(built(*input, *options, loaded@, writer));
    Ok(writer)
}

/// Converts an article into package bytes: the archive of the built
/// document. Fails with an input error exactly when the identifier is
/// blank, with the error of the first failing content item, or with an
/// I/O error when the archive writer fails.
pub fn convert(input: &ArticleDocument, options: &ConvertOptions, loaded: &Vec<Result<Vec<u8>, String>>) -> (r: Result<Vec<u8>, JsonToHwpxError>)
    ensures
        trim_spec(input.article_id@).len() == 0 <==> (r matches Err(e) && e is Input),
        r matches Ok(b) ==> exists|w: HwpxWriter| built(*input, *options, loaded@, w) && #[trigger] zip_archive(package_spec(w)) == Some(b@),
        r matches Err(e) ==> {
            ||| e is Input
            ||| build_fails(*input, *options, loaded@, e)
            ||| e is Io && exists|w: HwpxWriter| built(*input, *options, loaded@, w) && #[trigger] zip_archive(package_spec(w)) is None
        },
{
    match build_document(input, options, loaded) {
        Err(e) => Err(e),
        Ok(writer) => writer.to_bytes(),
    }
}

} // verus!
