//! Content items into the document: text lines, HTML tables and images.
use vstd::prelude::*;
use vstd::string::*;

use base64::Engine;

use crate::chars::{chars_of, string_of};
use crate::error::JsonToHwpxError;
use crate::image::{format_of, HwpxImage};
use crate::table::{html_table_cells, parse_html_table, rows_reading, table_of_html};
use crate::writer::{appended, body, is_plain, last_paragraph, lemma_appended_body, paragraph_count, HwpxWriter};

verus! {

/// `s` split at every newline: one line more than there are newlines.
pub open spec fn lines_of(s: Seq<char>) -> Seq<Seq<char>>
    decreases s.len(),
{
    if s.len() == 0 {
        seq![Seq::empty()]
    } else {
        let init = lines_of(s.drop_last());
        if s.last() == '\n' {
            init.push(Seq::empty())
        } else {
            init.update(init.len() - 1, init.last().push(s.last()))
        }
    }
}

/// The body of `new` is that of `old` followed by plain paragraphs of
/// `lines`.
pub open spec fn appended_plain(old: HwpxWriter, new: HwpxWriter, lines: Seq<Seq<char>>) -> bool {
    let b0 = body(old.doc());
    let b1 = body(new.doc());
    &&& b1.len() == b0.len() + lines.len()
    &&& b1.take(b0.len() as int) == b0
    &&& new.doc().sections@.len() == if old.doc().sections@.len() == 0 { if lines.len() == 0 { 0 } else { 1 } } else { old.doc().sections@.len() }
    &&& forall|i: int| 1 <= i < old.doc().sections@.len() ==> #[trigger] new.doc().sections@[i] == old.doc().sections@[i]
    &&& forall|j: int| 0 <= j < lines.len() ==> is_plain(#[trigger] b1[b0.len() + j], lines[j])
    &&& new.shapes() == old.shapes()
    &&& new.same_attachments(old)
}

fn add_line(writer: &mut HwpxWriter, line: &str, Ghost(start): Ghost<HwpxWriter>, Ghost(done): Ghost<Seq<Seq<char>>>)
    requires
        appended_plain(start, *old(writer), done),
        body(old(writer).doc()).len() >= body(start.doc()).len(),
    ensures
        appended_plain(start, *final(writer), done.push(line@)),
{
    let ghost w0 = *writer;
    let _ = writer.add_paragraph(line);
    proof {
        lemma_appended_body(w0.doc(), writer.doc());
        let b0 = body(start.doc());
        let b1 = body(writer.doc());
        let lines = done.push(line@);
        assert(b1.take(b0.len() as int) =~= body(w0.doc()).take(b0.len() as int));
        assert forall|j: int| 0 <= j < lines.len() implies is_plain(#[trigger] b1[b0.len() + j], lines[j]) by {
            if j < done.len() {
                assert(b1[b0.len() + j] == body(w0.doc())[b0.len() + j]);
            }
        }
    }
}

/// Adds one paragraph per line of `value` (split at `\n`; an empty line
/// gives an empty paragraph).
pub fn add_text_paragraphs(writer: &mut HwpxWriter, value: &str) -> (r: Result<(), JsonToHwpxError>)
    ensures
        r is Ok,
        appended_plain(*old(writer), *final(writer), lines_of(value@)),
{
    let ghost start = *writer;
    let cs = chars_of(value);
    let n = cs.len();
    let mut line_start: usize = 0;
    let mut i: usize = 0;
    proof {
        assert(body(writer.doc()).take(body(start.doc()).len() as int) =~= body(start.doc()));
    }
    while i < n
        invariant
            n == cs@.len(),
            cs@ == value@,
            line_start <= i <= n,
            ({
                let ls = lines_of(cs@.take(i as int));
                &&& ls.len() >= 1
                &&& ls.last() == cs@.subrange(line_start as int, i as int)
                &&& appended_plain(start, *writer, ls.drop_last())
            }),
            body(writer.doc()).len() >= body(start.doc()).len(),
        decreases n - i,
    {
        let ghost ls = lines_of(cs@.take(i as int));
        assert(cs@.take(i + 1).drop_last() =~= cs@.take(i as int));
        if cs[i] == '\n' {
            let line = string_of(&cs, line_start, i);
            add_line(writer, line.as_str(), Ghost(start), Ghost(ls.drop_last()));
            assert(ls.drop_last().push(line@) =~= ls);
            i += 1;
            line_start = i;
            assert(lines_of(cs@.take(i as int)).drop_last() =~= ls);
            assert(cs@.subrange(line_start as int, i as int) =~= Seq::<char>::empty());
        } else {
            i += 1;
            assert(lines_of(cs@.take(i as int)).drop_last() =~= ls.drop_last());
            assert(cs@.subrange(line_start as int, i as int) =~= cs@.subrange(line_start as int, i - 1).push(cs@[i - 1]));
        }
    }
    let ghost ls = lines_of(cs@.take(n as int));
    let line = string_of(&cs, line_start, n);
    add_line(writer, line.as_str(), Ghost(start), Ghost(ls.drop_last()));
    assert(cs@.take(n as int) =~= value@);
    assert(ls.drop_last().push(line@) =~= ls);
    Ok(())
}

/// Adds the empty paragraph that separates two content items.
pub fn add_separator_paragraph(writer: &mut HwpxWriter) -> (r: Result<(), JsonToHwpxError>)
    ensures
        r is Ok,
        appended(old(writer).doc(), final(writer).doc()),
        is_plain(last_paragraph(final(writer).doc()), Seq::empty()),
        final(writer).same_attachments(*old(writer)),
{
    let r = writer.add_paragraph("");
    proof {
        reveal_strlit("");
        assert(""@ =~= Seq::<char>::empty());
    }
    r
}

/// The outcome of attaching the table of markup `html`: a conversion error
/// and no change when the markup has no row with cells, else the table,
/// keyed at the old paragraph count, on a new empty paragraph.
pub open spec fn table_outcome(old: HwpxWriter, new: HwpxWriter, html: Seq<char>, r: Result<(), JsonToHwpxError>) -> bool {
    &&& (r is Err <==> match html_table_cells(html) {
        Some(raw) => rows_reading(raw).len() == 0,
        None => true,
    })
    &&& r matches Err(e) ==> e is Conversion && new == old
    &&& r is Ok ==> {
        &&& new.tables().len() == old.tables().len() + 1
        &&& new.tables().drop_last() == old.tables()
        &&& new.tables().last().0 == paragraph_count(old.doc()) as usize
        &&& table_of_html(html, new.tables().last().1)
        &&& new.images() == old.images()
        &&& new.hyperlinks() == old.hyperlinks()
        &&& appended(old.doc(), new.doc())
        &&& is_plain(last_paragraph(new.doc()), Seq::empty())
    }
    &&& new.same_settings(old)
}

/// Parses HTML table markup and attaches the table to a new paragraph;
/// fails with a conversion error when the markup has no row with cells.
pub fn add_table_from_html(writer: &mut HwpxWriter, html: &str) -> (r: Result<(), JsonToHwpxError>)
    ensures
        table_outcome(*old(writer), *final(writer), html@, r),
{
    match parse_html_table(html) {
        Err(e) => Err(e),
        Ok(table) => {
            let r = writer.add_table(table);
            assert(writer.tables().drop_last() =~= old(writer).tables());
            r
        },
    }
}

/// RIFF container of a WebP image.
pub open spec fn is_webp_spec(b: Seq<u8>) -> bool {
    b.len() >= 12 && b[0] == 0x52 && b[1] == 0x49 && b[2] == 0x46 && b[3] == 0x46 && b[8] == 0x57
        && b[9] == 0x45 && b[10] == 0x42 && b[11] == 0x50
}

/// `ftyp` box of an AVIF image.
pub open spec fn is_avif_spec(b: Seq<u8>) -> bool {
    b.len() >= 12 && b[4] == 0x66 && b[5] == 0x74 && b[6] == 0x79 && b[7] == 0x70 && b[8] == 0x61
        && b[9] == 0x76 && b[10] == 0x69 && b[11] == 0x66
}

/// `GIF87a` or `GIF89a` signature.
pub open spec fn is_gif_spec(b: Seq<u8>) -> bool {
    b.len() >= 6 && b[0] == 0x47 && b[1] == 0x49 && b[2] == 0x46 && b[3] == 0x38 && (b[4] == 0x37
        || b[4] == 0x39) && b[5] == 0x61
}

pub fn is_webp(bytes: &[u8]) -> (r: bool)
    ensures
        r == is_webp_spec(bytes@),
{
    bytes.len() >= 12 && bytes[0] == 0x52 && bytes[1] == 0x49 && bytes[2] == 0x46 && bytes[3] == 0x46
        && bytes[8] == 0x57 && bytes[9] == 0x45 && bytes[10] == 0x42 && bytes[11] == 0x50
}

pub fn is_avif(bytes: &[u8]) -> (r: bool)
    ensures
        r == is_avif_spec(bytes@),
{
    bytes.len() >= 12 && bytes[4] == 0x66 && bytes[5] == 0x74 && bytes[6] == 0x79 && bytes[7] == 0x70
        && bytes[8] == 0x61 && bytes[9] == 0x76 && bytes[10] == 0x69 && bytes[11] == 0x66
}

pub fn is_gif(bytes: &[u8]) -> (r: bool)
    ensures
        r == is_gif_spec(bytes@),
{
    bytes.len() >= 6 && bytes[0] == 0x47 && bytes[1] == 0x49 && bytes[2] == 0x46 && bytes[3] == 0x38
        && (bytes[4] == 0x37 || bytes[4] == 0x39) && bytes[5] == 0x61
}

/// A format name that must be re-encoded before embedding.
pub open spec fn is_foreign_name(s: Seq<char>) -> bool {
    s == "webp"@ || s == "avif"@ || s == "gif"@
}

fn foreign_name(s: &str) -> (r: bool)
    ensures
        r == is_foreign_name(s@),
{
    let cs = chars_of(s);
    let a = chars_of("webp");
    let b = chars_of("avif");
    let c = chars_of("gif");
    same_chars(&cs, &a) || same_chars(&cs, &b) || same_chars(&cs, &c)
}

/// Whether two strings hold the same characters.
pub fn same_text(a: &str, b: &str) -> (r: bool)
    ensures
        r == (a@ == b@),
{
    same_chars(&chars_of(a), &chars_of(b))
}

fn same_chars(a: &Vec<char>, b: &Vec<char>) -> (r: bool)
    ensures
        r == (a@ == b@),
{
    if a.len() != b.len() {
        return false;
    }
    let mut i: usize = 0;
    while i < a.len()
        invariant
            a@.len() == b@.len(),
            i <= a@.len(),
            forall|k: int| 0 <= k < i ==> a@[k] == b@[k],
        decreases a@.len() - i,
    {
        if a[i] != b[i] {
            return false;
        }
        i += 1;
    }
    assert(a@ =~= b@);
    true
}

/// Whether an image must be re-encoded as PNG: by its (lower-cased) file
/// extension, or else by WebP, AVIF or GIF magic bytes.
pub open spec fn needs_reencoding(ext: Option<Seq<char>>, b: Seq<u8>) -> bool {
    match ext {
        Some(e) if is_foreign_name(e) => true,
        _ => is_webp_spec(b) || is_avif_spec(b) || is_gif_spec(b),
    }
}

/// Decides [`needs_reencoding`] for a lower-cased extension.
pub fn needs_conversion(ext: &Option<String>, bytes: &[u8]) -> (r: bool)
    ensures
        r == needs_reencoding(
            match ext {
                Some(e) => Some(e@),
                None => None,
            },
            bytes@,
        ),
{
    match ext {
        Some(e) => {
            if foreign_name(e.as_str()) {
                return true;
            }
        },
        None => {},
    }
    is_webp(bytes) || is_avif(bytes) || is_gif(bytes)
}

/// The lower-case form of a string, as `str::to_lowercase` gives it.
pub uninterp spec fn lower_of(s: Seq<char>) -> Seq<char>;

/// Relies on `str::to_lowercase`: the result depends on the characters
/// alone.
#[verifier::external_body]
fn lowercase(s: &str) -> (r: String)
    ensures
        r@ == lower_of(s@),
{
    s.to_lowercase()
}

/// Index of the last occurrence of `c` in `s`.
pub open spec fn last_index_of(s: Seq<char>, c: char) -> Option<int>
    decreases s.len(),
{
    if s.len() == 0 {
        None
    } else if s.last() == c {
        Some(s.len() - 1)
    } else {
        last_index_of(s.drop_last(), c)
    }
}

/// `s` without trailing slashes.
pub open spec fn strip_slashes(s: Seq<char>) -> Seq<char>
    decreases s.len(),
{
    if s.len() > 0 && s.last() == '/' {
        strip_slashes(s.drop_last())
    } else {
        s
    }
}

/// The last segment of a slash-separated path.
pub open spec fn file_name_of(p: Seq<char>) -> Seq<char> {
    let s = strip_slashes(p);
    match last_index_of(s, '/') {
        Some(i) => s.subrange(i + 1, s.len() as int),
        None => s,
    }
}

/// The extension of a path, as `Path::extension` defines it for
/// slash-separated paths: what follows the last dot of the file name, when
/// the file name has a dot that is not its first character.
pub open spec fn path_extension_of(p: Seq<char>) -> Option<Seq<char>> {
    let f = file_name_of(p);
    match last_index_of(f, '.') {
        Some(i) => if i == 0 || f == ".."@ {
            None
        } else {
            Some(f.subrange(i + 1, f.len() as int))
        },
        None => None,
    }
}

fn last_index(cs: &Vec<char>, end: usize, c: char) -> (r: Option<usize>)
    requires
        end <= cs@.len(),
    ensures
        match r {
            Some(i) => last_index_of(cs@.take(end as int), c) == Some(i as int) && i < end,
            None => last_index_of(cs@.take(end as int), c) is None,
        },
{
    let mut k: usize = end;
    while k > 0
        invariant
            k <= end <= cs@.len(),
            last_index_of(cs@.take(end as int), c) == last_index_of(cs@.take(k as int), c),
        decreases k,
    {
        assert(cs@.take(k as int).drop_last() =~= cs@.take(k - 1));
        if cs[k - 1] == c {
            return Some(k - 1);
        }
        k -= 1;
    }
    None
}

/// The extension of `url` read as a slash-separated path (see
/// [`path_extension_of`]).
pub fn path_extension(url: &str) -> (r: Option<String>)
    ensures
        match r {
            Some(e) => path_extension_of(url@) == Some(e@),
            None => path_extension_of(url@) is None,
        },
{
    let cs = chars_of(url);
    let mut end: usize = cs.len();
    assert(cs@.take(end as int) =~= cs@);
    while end > 0 && cs[end - 1] == '/'
        invariant
            end <= cs@.len(),
            cs@ == url@,
            strip_slashes(url@) == strip_slashes(cs@.take(end as int)),
        decreases end,
    {
        assert(cs@.take(end as int).drop_last() =~= cs@.take(end - 1));
        end -= 1;
    }
    let ghost s = cs@.take(end as int);
    assert(strip_slashes(s) == s);
    let start: usize = match last_index(&cs, end, '/') {
        Some(i) => i + 1,
        None => 0,
    };
    let ghost f = file_name_of(url@);
    assert(f =~= cs@.subrange(start as int, end as int));
    let name = string_of(&cs, start, end);
    let ncs = chars_of(name.as_str());
    let n = ncs.len();
    assert(ncs@.take(n as int) =~= f);
    match last_index(&ncs, n, '.') {
        None => None,
        Some(i) => {
            let dots = chars_of("..");
            if i == 0 || same_chars(&ncs, &dots) {
                None
            } else {
                let e = string_of(&ncs, i + 1, n);
                Some(e)
            }
        },
    }
}

#[verifier::external_type_specification]
#[verifier::external_body]
pub struct ExImageError(image::ImageError);

#[verifier::external_type_specification]
#[verifier::external_body]
pub struct ExDecodeError(base64::DecodeError);

/// The PNG encoding of an image of any format the codec library reads;
/// `None` when it cannot be decoded or encoded.
pub uninterp spec fn png_of(b: Seq<u8>) -> Option<Seq<u8>>;

/// Relies on `image::load_from_memory` and `DynamicImage::write_to`:
/// decodes an image and encodes it as PNG; the result depends on the bytes
/// alone.
#[verifier::external_body]
fn reencode_png(bytes: &[u8]) -> (r: Result<Vec<u8>, image::ImageError>)
    ensures
        match r {
            Ok(v) => png_of(bytes@) == Some(v@),
            Err(_) => png_of(bytes@) is None,
        },
{
    let img = image::load_from_memory(bytes)?;
    let mut out: Vec<u8> = Vec::new();
    img.write_to(&mut std::io::Cursor::new(&mut out), image::ImageFormat::Png)?;
    Ok(out)
}

/// Re-encodes an image as PNG; a conversion error when the codec fails.
pub fn convert_to_png(bytes: &[u8]) -> (r: Result<Vec<u8>, JsonToHwpxError>)
    ensures
        match r {
            Ok(v) => png_of(bytes@) == Some(v@),
            Err(e) => png_of(bytes@) is None && e is Conversion,
        },
{
    match reencode_png(bytes) {
        Err(_) => Err(JsonToHwpxError::Conversion(String::from_str("cannot re-encode the image as PNG"))),
        Ok(png) => Ok(png),
    }
}

pub open spec fn lower_opt(e: Option<Seq<char>>) -> Option<Seq<char>> {
    match e {
        Some(s) => Some(lower_of(s)),
        None => None,
    }
}

/// The bytes to embed for an image with the given (lower-cased) extension:
/// its PNG encoding when it needs re-encoding, else the bytes themselves.
pub open spec fn converted(ext: Option<Seq<char>>, b: Seq<u8>) -> Option<Seq<u8>> {
    if needs_reencoding(ext, b) {
        png_of(b)
    } else {
        Some(b)
    }
}

/// The bytes to embed for an image whose format is named by the caller.
pub open spec fn converted_by_format(format: Option<Seq<char>>, b: Seq<u8>) -> Option<Seq<u8>> {
    match format {
        Some(f) => if is_foreign_name(lower_of(f)) {
            png_of(b)
        } else {
            Some(b)
        },
        None => Some(b),
    }
}

pub open spec fn str_opt(o: Option<&str>) -> Option<Seq<char>> {
    match o {
        Some(s) => Some(s@),
        None => None,
    }
}

/// Keeps an image the writer can embed and re-encodes the others (by the
/// extension of `url`, then by magic bytes) as PNG.
pub fn convert_if_needed(bytes: Vec<u8>, url: &str) -> (r: Result<Vec<u8>, JsonToHwpxError>)
    ensures
        match r {
            Ok(v) => converted(lower_opt(path_extension_of(url@)), bytes@) == Some(v@),
            Err(e) => converted(lower_opt(path_extension_of(url@)), bytes@) is None && e is Conversion,
        },
{
    let ext = match path_extension(url) {
        Some(e) => Some(lowercase(e.as_str())),
        None => None,
    };
    if needs_conversion(&ext, bytes.as_slice()) {
        convert_to_png(bytes.as_slice())
    } else {
        Ok(bytes)
    }
}

/// Like [`convert_if_needed`], with the format named by the caller.
pub fn convert_if_needed_by_format(bytes: Vec<u8>, format: Option<&str>) -> (r: Result<Vec<u8>, JsonToHwpxError>)
    ensures
        match r {
            Ok(v) => converted_by_format(str_opt(format), bytes@) == Some(v@),
            Err(e) => converted_by_format(str_opt(format), bytes@) is None && e is Conversion,
        },
{
    match format {
        Some(f) => {
            let lower = lowercase(f);
            if foreign_name(lower.as_str()) {
                convert_to_png(bytes.as_slice())
            } else {
                Ok(bytes)
            }
        },
        None => Ok(bytes),
    }
}

/// Bytes of a Base64 text, as the standard engine decodes them.
pub uninterp spec fn base64_decoded(s: Seq<char>) -> Option<Seq<u8>>;

/// Relies on `base64::engine::general_purpose::STANDARD.decode`.
#[verifier::external_body]
fn decode_base64(data: &str) -> (r: Result<Vec<u8>, base64::DecodeError>)
    ensures
        match r {
            Ok(v) => base64_decoded(data@) == Some(v@),
            Err(_) => base64_decoded(data@) is None,
        },
{
    base64::engine::general_purpose::STANDARD.decode(data)
}

/// `new` is `old` with an image of bytes `b` attached to a new, empty
/// paragraph.
pub open spec fn image_added(old: HwpxWriter, new: HwpxWriter, b: Seq<u8>) -> bool {
    &&& new.images().len() == old.images().len() + 1
    &&& new.images().drop_last() == old.images()
    &&& new.images().last().0 == paragraph_count(old.doc()) as usize
    &&& new.images().last().1.data@ == b
    &&& new.tables() == old.tables()
    &&& new.hyperlinks() == old.hyperlinks()
    &&& appended(old.doc(), new.doc())
    &&& is_plain(last_paragraph(new.doc()), Seq::empty())
}

/// The outcome of embedding converted bytes `c`: added when they exist and
/// their format is recognised, else a conversion error and no change.
pub open spec fn embed_outcome(old: HwpxWriter, new: HwpxWriter, c: Option<Seq<u8>>, r: Result<(), JsonToHwpxError>) -> bool {
    &&& (r is Ok <==> (c matches Some(b) && format_of(b) is Some))
    &&& r matches Err(e) ==> e is Conversion && new == old
    &&& r is Ok ==> image_added(old, new, c->Some_0)
    &&& new.same_settings(old)
}

/// Embeds image bytes that were already converted: a conversion error when
/// the format is not recognised.
pub fn add_image_bytes(writer: &mut HwpxWriter, bytes: Vec<u8>) -> (r: Result<(), JsonToHwpxError>)
    ensures
        embed_outcome(*old(writer), *final(writer), Some(bytes@), r),
{
    match HwpxImage::from_bytes(bytes) {
        None => Err(JsonToHwpxError::Conversion(String::from_str("unsupported image format"))),
        Some(image) => {
            let r = writer.add_image(image);
            assert(writer.images().drop_last() =~= old(writer).images());
            r
        },
    }
}

/// Embeds an image loaded from `url` (the bytes, or why they could not be
/// read), re-encoding it first when needed.
pub fn add_image_from_url(writer: &mut HwpxWriter, url: &str, loaded: Result<Vec<u8>, String>) -> (r: Result<(), JsonToHwpxError>)
    ensures
        embed_outcome(
            *old(writer),
            *final(writer),
            match loaded {
                Ok(b) => converted(lower_opt(path_extension_of(url@)), b@),
                Err(_) => None,
            },
            r,
        ),
{
    match loaded {
        Err(msg) => Err(JsonToHwpxError::Conversion(msg)),
        Ok(bytes) => match convert_if_needed(bytes, url) {
            Err(e) => Err(e),
            Ok(b) => add_image_bytes(writer, b),
        },
    }
}

/// Embeds an image given as Base64 text; a conversion error when the text
/// does not decode or the image is not recognised.
pub fn add_image_from_base64(writer: &mut HwpxWriter, data: &str, format: Option<&str>) -> (r: Result<(), JsonToHwpxError>)
    ensures
        embed_outcome(
            *old(writer),
            *final(writer),
            match base64_decoded(data@) {
                Some(b) => converted_by_format(str_opt(format), b),
                None => None,
            },
            r,
        ),
{
    match decode_base64(data) {
        Err(_) => Err(JsonToHwpxError::Conversion(String::from_str("cannot decode Base64 image data"))),
        Ok(bytes) => match convert_if_needed_by_format(bytes, format) {
            Err(e) => Err(e),
            Ok(b) => add_image_bytes(writer, b),
        },
    }
}

} // verus!
