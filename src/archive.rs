//! The ordered entries of a package archive, and the archive bytes.
use vstd::prelude::*;
use vstd::string::*;
use vstd::utf8::encode_utf8;

use std::io::Write;

use crate::chars::decimal;
use crate::error::JsonToHwpxError;
use crate::package::{container_rdf_spec, content_hpf_spec, header_xml_spec, image_entry_spec, preview_spec, section_count_spec};
use crate::section::section_xml_spec;
use crate::template::{CONTAINER_XML, MANIFEST_XML, SETTINGS_XML, VERSION_XML};
use crate::writer::HwpxWriter;

verus! {

/// How an archive entry is stored.
#[derive(Debug, Clone, Copy, PartialEq, Eq, Structural)]
pub enum EntryKind {
    Directory,
    /// A file stored without compression.
    Stored,
    /// A file compressed with Deflate.
    Deflated,
}

/// One entry of the package archive, in order.
#[derive(Debug, Clone)]
pub struct PackageEntry {
    pub name: String,
    pub kind: EntryKind,
    pub data: Vec<u8>,
}

pub open spec fn entry_view(e: PackageEntry) -> (Seq<char>, EntryKind, Seq<u8>) {
    (e.name@, e.kind, e.data@)
}

pub open spec fn file_spec(name: Seq<char>, text: Seq<char>) -> (Seq<char>, EntryKind, Seq<u8>) {
    (name, EntryKind::Deflated, encode_utf8(text))
}

pub open spec fn dir_spec(name: Seq<char>) -> (Seq<char>, EntryKind, Seq<u8>) {
    (name, EntryKind::Directory, Seq::empty())
}

/// The text of section part `i`.
pub open spec fn section_text(w: HwpxWriter, i: int) -> Seq<char> {
    if w.doc().sections@.len() == 0 {
        section_xml_spec(w, Seq::empty())
    } else {
        section_xml_spec(w, w.doc().sections@[i].paragraphs@)
    }
}

pub open spec fn section_entries(w: HwpxWriter, n: int) -> Seq<(Seq<char>, EntryKind, Seq<u8>)>
    decreases n,
{
    if n <= 0 {
        Seq::empty()
    } else {
        section_entries(w, n - 1).push(
            file_spec("Contents/section"@ + decimal((n - 1) as nat) + ".xml"@, section_text(w, n - 1)),
        )
    }
}

pub open spec fn image_entries(w: HwpxWriter, n: int) -> Seq<(Seq<char>, EntryKind, Seq<u8>)>
    decreases n,
{
    if n <= 0 {
        Seq::empty()
    } else {
        let img = w.images()[n - 1].1;
        image_entries(w, n - 1).push(
            (image_entry_spec((n - 1) as nat, img.format), EntryKind::Stored, img.data@),
        )
    }
}

pub open spec fn head_spec(w: HwpxWriter) -> Seq<(Seq<char>, EntryKind, Seq<u8>)> {
    seq![
        ("mimetype"@, EntryKind::Stored, encode_utf8("application/hwp+zip"@)),
        file_spec("version.xml"@, VERSION_XML@),
        dir_spec("Contents"@),
        file_spec("Contents/header.xml"@, header_xml_spec(section_count_spec(w.doc()), w.shapes(), w.images())),
    ]
}

pub open spec fn tail_spec(w: HwpxWriter) -> Seq<(Seq<char>, EntryKind, Seq<u8>)> {
    let d = w.doc();
    let bom = seq![0xFFu8, 0xFEu8];
    seq![
        dir_spec("Preview"@),
        file_spec("Preview/PrvText.txt"@, preview_spec(d)),
        dir_spec("Scripts"@),
        ("Scripts/headerScripts"@, EntryKind::Deflated, bom),
        ("Scripts/sourceScripts"@, EntryKind::Deflated, bom),
        file_spec("settings.xml"@, SETTINGS_XML@),
        dir_spec("META-INF"@),
        file_spec("META-INF/container.xml"@, CONTAINER_XML@),
        file_spec("META-INF/manifest.xml"@, MANIFEST_XML@),
        file_spec("META-INF/container.rdf"@, container_rdf_spec(section_count_spec(d))),
        file_spec(
            "Contents/content.hpf"@,
            content_hpf_spec(
                w.meta().title@,
                w.meta().creator@,
                w.meta().created_date@,
                section_count_spec(d),
                w.images(),
            ),
        ),
    ]
}

pub open spec fn images_spec(w: HwpxWriter) -> Seq<(Seq<char>, EntryKind, Seq<u8>)> {
    if w.images().len() == 0 {
        Seq::empty()
    } else {
        seq![dir_spec("BinData"@)] + image_entries(w, w.images().len() as int)
    }
}

/// The archive layout: the content-type marker first and uncompressed,
/// then the compressed parts in a fixed order (sections numbered from 0),
/// and last the images, uncompressed, only when there are any.
pub open spec fn package_spec(w: HwpxWriter) -> Seq<(Seq<char>, EntryKind, Seq<u8>)> {
    head_spec(w) + section_entries(w, section_count_spec(w.doc()) as int) + tail_spec(w) + images_spec(w)
}

pub open spec fn entries_view(v: Seq<PackageEntry>) -> Seq<(Seq<char>, EntryKind, Seq<u8>)> {
    v.map_values(|e: PackageEntry| entry_view(e))
}

proof fn lemma_entries_concat(a: Seq<PackageEntry>, b: Seq<PackageEntry>)
    ensures
        entries_view(a + b) == entries_view(a) + entries_view(b),
{
    assert(entries_view(a + b) =~= entries_view(a) + entries_view(b));
}

fn text_file(name: &str, text: String) -> (r: PackageEntry)
    ensures
        entry_view(r) == file_spec(name@, text@),
{
    PackageEntry { name: String::from_str(name), kind: EntryKind::Deflated, data: text.as_str().as_bytes_vec() }
}

fn directory(name: &str) -> (r: PackageEntry)
    ensures
        entry_view(r) == dir_spec(name@),
{
    let e = PackageEntry { name: String::from_str(name), kind: EntryKind::Directory, data: Vec::new() };
    assert(e.data@ =~= Seq::<u8>::empty());
    e
}

impl HwpxWriter {
    fn head_entries(&self) -> (r: Vec<PackageEntry>)
        ensures
            entries_view(r@) == head_spec(*self),
            dirs_empty(entries_view(r@)),
    {
        let mut v: Vec<PackageEntry> = Vec::new();
        v.push(PackageEntry {
            name: String::from_str("mimetype"),
            kind: EntryKind::Stored,
            data: "application/hwp+zip".as_bytes_vec(),
        });
        v.push(text_file("version.xml", self.generate_version_xml()));
        v.push(directory("Contents"));
        v.push(text_file("Contents/header.xml", self.generate_header_xml()));
        assert(entries_view(v@) =~= head_spec(*self));
        proof {
            reveal(dirs_empty);
        }
        v
    }

    fn section_entry_list(&self) -> (r: Vec<PackageEntry>)
        ensures
            entries_view(r@) == section_entries(*self, section_count_spec(self.doc()) as int),
            dirs_empty(entries_view(r@)),
    {
        let ghost w = *self;
        let mut v: Vec<PackageEntry> = Vec::new();
        let sections = self.generate_section_xmls();
        let mut i: usize = 0;
        assert(entries_view(v@) =~= section_entries(w, 0));
        while i < sections.len()
            invariant
                i <= sections@.len(),
                sections@.len() == section_count_spec(w.doc()),
                forall|j: int| 0 <= j < sections@.len() ==> (#[trigger] sections@[j])@ == section_text(w, j),
                entries_view(v@) == section_entries(w, i as int),
                forall|j: int| 0 <= j < v@.len() ==> (#[trigger] v@[j]).kind is Deflated,
            decreases sections@.len() - i,
        {
            let mut name = String::from_str("Contents/section");
            crate::chars::push_decimal(&mut name, i as u128);
            name.append(".xml");
            let entry = text_file(name.as_str(), sections[i].clone());
            assert(entry_view(entry) == file_spec("Contents/section"@ + decimal(i as nat) + ".xml"@, section_text(w, i as int)));
            let ghost prev = v@;
            v.push(entry);
            assert(entries_view(v@) =~= entries_view(prev).push(entry_view(entry)));
            i += 1;
        }
        proof {
            reveal(dirs_empty);
        }
        v
    }

    fn tail_entries(&self) -> (r: Vec<PackageEntry>)
        ensures
            entries_view(r@) == tail_spec(*self),
            dirs_empty(entries_view(r@)),
    {
        let mut v: Vec<PackageEntry> = Vec::new();
        v.push(directory("Preview"));
        v.push(text_file("Preview/PrvText.txt", self.generate_preview_text()));
        v.push(directory("Scripts"));
        v.push(PackageEntry { name: String::from_str("Scripts/headerScripts"), kind: EntryKind::Deflated, data: self.generate_header_scripts() });
        v.push(PackageEntry { name: String::from_str("Scripts/sourceScripts"), kind: EntryKind::Deflated, data: self.generate_source_scripts() });
        v.push(text_file("settings.xml", self.generate_settings_xml()));
        v.push(directory("META-INF"));
        v.push(text_file("META-INF/container.xml", self.generate_container_xml()));
        v.push(text_file("META-INF/manifest.xml", self.generate_manifest_xml()));
        v.push(text_file("META-INF/container.rdf", self.generate_container_rdf()));
        v.push(text_file("Contents/content.hpf", self.generate_content_hpf()));
        assert(entries_view(v@) =~= tail_spec(*self));
        proof {
            reveal(dirs_empty);
        }
        v
    }

    fn image_entry_list(&self) -> (r: Vec<PackageEntry>)
        ensures
            entries_view(r@) == images_spec(*self),
            dirs_empty(entries_view(r@)),
    {
        let ghost w = *self;
        let images = self.images_ref();
        let mut v: Vec<PackageEntry> = Vec::new();
        if images.len() == 0 {
            assert(entries_view(v@) =~= images_spec(*self));
            proof {
                reveal(dirs_empty);
            }
            return v;
        }
        v.push(directory("BinData"));
        let ghost mid = entries_view(v@);
        let mut k: usize = 0;
        assert(entries_view(v@) =~= mid + image_entries(w, 0));
        while k < images.len()
            invariant
                images@ == w.images(),
                k <= images@.len(),
                entries_view(v@) == mid + image_entries(w, k as int),
                v@.len() >= 1,
                v@[0].kind is Directory && v@[0].data@.len() == 0,
                forall|j: int| 1 <= j < v@.len() ==> (#[trigger] v@[j]).kind is Stored,
            decreases images@.len() - k,
        {
            let mut name = String::new();
            crate::package::push_image_entry_name(&mut name, k, images[k].1.format);
            let entry = PackageEntry { name, kind: EntryKind::Stored, data: vstd::slice::slice_to_vec(images[k].1.data.as_slice()) };
            let ghost prev = v@;
            v.push(entry);
            assert(entries_view(v@) =~= entries_view(prev).push(entry_view(entry)));
            k += 1;
            assert(entries_view(v@) =~= mid + image_entries(w, k as int));
        }
        proof {
            reveal(dirs_empty);
        }
        v
    }

    /// The entries of the package archive, in the order they are written.
    pub fn package_entries(&self) -> (r: Vec<PackageEntry>)
        ensures
            entries_view(r@) == package_spec(*self),
            dirs_empty(entries_view(r@)),
    {
        let mut v = self.head_entries();
        let mut s = self.section_entry_list();
        let mut t = self.tail_entries();
        let mut i = self.image_entry_list();
        let ghost (a, b, c, d) = (v@, s@, t@, i@);
        v.append(&mut s);
        v.append(&mut t);
        v.append(&mut i);
        proof {
            lemma_entries_concat(a, b);
            lemma_entries_concat(a + b, c);
            lemma_entries_concat(a + b + c, d);
            lemma_dirs_concat(entries_view(a), entries_view(b));
            lemma_dirs_concat(entries_view(a) + entries_view(b), entries_view(c));
            lemma_dirs_concat(entries_view(a) + entries_view(b) + entries_view(c), entries_view(d));
        }
        v
    }

    /// The package as archive bytes: the archive of [`package_spec`], and an
    /// I/O error exactly when the archive writer fails on it.
    #[verifier::rlimit(60)]
    pub fn to_bytes(&self) -> (r: Result<Vec<u8>, JsonToHwpxError>)
        ensures
            match r {
                Ok(b) => zip_archive(package_spec(*self)) == Some(b@),
                Err(e) => zip_archive(package_spec(*self)) is None && e is Io,
            },
    {
        let entries = self.package_entries();
        let ghost spec = entries_view(entries@);
        let mut zip = zip_new();
        let mut i: usize = 0;
        assert(archive_entries(zip) =~= spec.take(0));
        while i < entries.len()
            invariant
                i <= entries@.len(),
                entries_view(entries@) == spec,
                spec == package_spec(*self),
                dirs_empty(spec),
                archive_sound(zip),
                archive_entries(zip) == spec.take(i as int),
            decreases entries@.len() - i,
        {
            proof {
                lemma_split(spec, i as int);
                lemma_dir_at(spec, i as int);
                assert(spec[i as int] == entry_view(entries@[i as int]));
            }
            if write_entry(&mut zip, &entries[i]).is_err() {
                proof {
                    lemma_fails(spec.take(i as int).push(spec[i as int]), spec.skip(i + 1));
                }
                return Err(JsonToHwpxError::Io(String::from_str("cannot write an archive entry")));
            }
            i += 1;
        }
        assert(spec.take(i as int) =~= spec);
        match zip_finish(zip) {
            Ok(bytes) => Ok(bytes),
            Err(_) => Err(JsonToHwpxError::Io(String::from_str("cannot finish the archive"))),
        }
    }
}

/// Directory entries carry no data.
#[verifier::opaque]
pub open spec fn dirs_empty(s: Seq<(Seq<char>, EntryKind, Seq<u8>)>) -> bool {
    forall|i: int| 0 <= i < s.len() && (#[trigger] s[i]).1 is Directory ==> s[i].2.len() == 0
}

proof fn lemma_dir_at(s: Seq<(Seq<char>, EntryKind, Seq<u8>)>, i: int)
    requires
        dirs_empty(s),
        0 <= i < s.len(),
    ensures
        s[i].1 is Directory ==> s[i].2.len() == 0,
{
    reveal(dirs_empty);
}

proof fn lemma_fails(p: Seq<(Seq<char>, EntryKind, Seq<u8>)>, rest: Seq<(Seq<char>, EntryKind, Seq<u8>)>)
    requires
        fails_after(p),
    ensures
        zip_archive(p + rest) is None,
{
    reveal(fails_after);
}

proof fn lemma_dirs_concat(a: Seq<(Seq<char>, EntryKind, Seq<u8>)>, b: Seq<(Seq<char>, EntryKind, Seq<u8>)>)
    requires
        dirs_empty(a),
        dirs_empty(b),
    ensures
        dirs_empty(a + b),
{
    reveal(dirs_empty);
    assert forall|i: int| 0 <= i < (a + b).len() && (#[trigger] (a + b)[i]).1 is Directory implies (a + b)[i].2.len() == 0 by {
        if i >= a.len() {
            assert((a + b)[i] == b[i - a.len()]);
        }
    }
}

/// Writes one entry: a directory, or a file in its compression method with
/// its data.
fn write_entry(zip: &mut ArchiveWriter, e: &PackageEntry) -> (r: Result<(), ()>)
    requires
        archive_sound(*old(zip)),
        e.kind is Directory ==> e.data@.len() == 0,
    ensures
        r is Ok ==> archive_sound(*final(zip)) && archive_entries(*final(zip)) == archive_entries(*old(zip)).push(entry_view(*e)),
        r is Err ==> fails_after(archive_entries(*old(zip)).push(entry_view(*e))),
{
    let ghost p = archive_entries(*zip);
    match e.kind {
        EntryKind::Directory => {
            assert(e.data@ =~= Seq::<u8>::empty());
            if zip_add_directory(zip, e.name.as_str()).is_err() {
                return Err(());
            }
            Ok(())
        },
        _ => {
            let stored = match e.kind {
                EntryKind::Stored => true,
                _ => false,
            };
            assert(file_kind(stored) == e.kind);
            if zip_start_file(zip, e.name.as_str(), stored).is_err() {
                assert(fails_after(p.push((e.name@, file_kind(stored), e.data@))));
                return Err(());
            }
            let ghost q = archive_entries(*zip);
            if zip_write(zip, e.data.as_slice()).is_err() {
                assert(with_data(q, e.data@) =~= p.push(entry_view(*e)));
                return Err(());
            }
            assert(with_data(q, e.data@) =~= p.push(entry_view(*e)));
            Ok(())
        },
    }
}

proof fn lemma_split(s: Seq<(Seq<char>, EntryKind, Seq<u8>)>, i: int)
    requires
        0 <= i < s.len(),
    ensures
        s.take(i).push(s[i]) + s.skip(i + 1) == s,
        s.take(i + 1) == s.take(i).push(s[i]),
{
    assert(s.take(i).push(s[i]) + s.skip(i + 1) =~= s);
    assert(s.take(i + 1) =~= s.take(i).push(s[i]));
}

/// The entries written so far to an archive writer: name, kind and data.
pub uninterp spec fn archive_entries(a: ArchiveWriter) -> Seq<(Seq<char>, EntryKind, Seq<u8>)>;

/// Every operation on the writer so far succeeded, each file entry was
/// written with one write, so its state is that of writing its entries in
/// order.
pub uninterp spec fn archive_sound(a: ArchiveWriter) -> bool;

/// The archive bytes that `zip` produces when the entries are written in
/// order to a new in-memory writer (a directory with `add_directory`, a
/// file with `start_file` in its compression method and one `write_all` of
/// its data) and the writer is finished; `None` when a step fails.
pub uninterp spec fn zip_archive(entries: Seq<(Seq<char>, EntryKind, Seq<u8>)>) -> Option<Seq<u8>>;

/// Writing fails for every continuation of `p`.
#[verifier::opaque]
pub open spec fn fails_after(p: Seq<(Seq<char>, EntryKind, Seq<u8>)>) -> bool {
    forall|rest: Seq<(Seq<char>, EntryKind, Seq<u8>)>| #[trigger] zip_archive(p + rest) is None
}

/// `s` with `d` appended to the data of its last entry.
pub open spec fn with_data(s: Seq<(Seq<char>, EntryKind, Seq<u8>)>, d: Seq<u8>) -> Seq<(Seq<char>, EntryKind, Seq<u8>)> {
    if s.len() == 0 {
        s
    } else {
        s.drop_last().push((s.last().0, s.last().1, s.last().2 + d))
    }
}

pub open spec fn file_kind(stored: bool) -> EntryKind {
    if stored {
        EntryKind::Stored
    } else {
        EntryKind::Deflated
    }
}

/// A ZIP archive being written to an in-memory buffer (see
/// [`archive_entries`] and [`archive_sound`]). The writer is held
/// in an opaque struct because `zip::ZipWriter` cannot be declared to Verus
/// (its type parameter is bound by `std::io::Write + Seek`).
#[verifier::external_body]
pub struct ArchiveWriter {
    inner: zip::ZipWriter<std::io::Cursor<Vec<u8>>>,
}

#[verifier::external_type_specification]
#[verifier::external_body]
pub struct ExZipError(zip::result::ZipError);

#[verifier::external_type_specification]
#[verifier::external_body]
pub struct ExIoError(std::io::Error);

/// Relies on `zip::ZipWriter::new`: an archive writer over an empty
/// in-memory buffer.
#[verifier::external_body]
fn zip_new() -> (r: ArchiveWriter)
    ensures
        archive_entries(r) == Seq::<(Seq<char>, EntryKind, Seq<u8>)>::empty(),
        archive_sound(r),
{
    ArchiveWriter { inner: zip::ZipWriter::new(std::io::Cursor::new(Vec::new())) }
}

/// Relies on `zip::ZipWriter::start_file`: opens a file entry, stored or
/// deflated.
#[verifier::external_body]
fn zip_start_file(zip: &mut ArchiveWriter, name: &str, stored: bool) -> (r: Result<(), zip::result::ZipError>)
    ensures
        r is Ok ==> archive_entries(*final(zip)) == archive_entries(*old(zip)).push((name@, file_kind(stored), Seq::empty())),
        r is Ok ==> (archive_sound(*old(zip)) ==> archive_sound(*final(zip))),
        r is Err ==> (archive_sound(*old(zip)) ==> forall|d: Seq<u8>| fails_after(#[trigger] archive_entries(*old(zip)).push((name@, file_kind(stored), d)))),
{
    let method = if stored {
        zip::CompressionMethod::Stored
    } else {
        zip::CompressionMethod::Deflated
    };
    zip.inner.start_file(name, zip::write::SimpleFileOptions::default().compression_method(method))
}

/// Relies on `zip::ZipWriter::add_directory`: adds a deflated directory
/// entry.
#[verifier::external_body]
fn zip_add_directory(zip: &mut ArchiveWriter, name: &str) -> (r: Result<(), zip::result::ZipError>)
    ensures
        r is Ok ==> archive_entries(*final(zip)) == archive_entries(*old(zip)).push((name@, EntryKind::Directory, Seq::empty())),
        r is Ok ==> (archive_sound(*old(zip)) ==> archive_sound(*final(zip))),
        r is Err ==> (archive_sound(*old(zip)) ==> fails_after(archive_entries(*old(zip)).push((name@, EntryKind::Directory, Seq::empty())))),
{
    let options = zip::write::SimpleFileOptions::default().compression_method(zip::CompressionMethod::Deflated);
    zip.inner.add_directory(name, options)
}

/// Relies on `Write::write_all` of `zip::ZipWriter`: writes the bytes of
/// the open entry.
#[verifier::external_body]
fn zip_write(zip: &mut ArchiveWriter, data: &[u8]) -> (r: Result<(), std::io::Error>)
    ensures
        r is Ok ==> archive_entries(*final(zip)) == with_data(archive_entries(*old(zip)), data@),
        r is Ok ==> (archive_sound(*old(zip)) && archive_entries(*old(zip)).len() > 0
            && archive_entries(*old(zip)).last().2.len() == 0 ==> archive_sound(*final(zip))),
        r is Err ==> (archive_sound(*old(zip)) && archive_entries(*old(zip)).len() > 0
            && archive_entries(*old(zip)).last().2.len() == 0 ==> fails_after(with_data(archive_entries(*old(zip)), data@))),
{
    zip.inner.write_all(data)
}

/// Relies on `zip::ZipWriter::finish`: writes the central directory and
/// hands back the buffer.
#[verifier::external_body]
fn zip_finish(zip: ArchiveWriter) -> (r: Result<Vec<u8>, zip::result::ZipError>)
    ensures
        archive_sound(zip) ==> match r {
            Ok(v) => zip_archive(archive_entries(zip)) == Some(v@),
            Err(_) => zip_archive(archive_entries(zip)) is None,
        },
{
    zip.inner.finish().map(|c| c.into_inner())
}

} // verus!
