//! Zip archives read from memory (the zip crate's `ZipArchive` over a
//! byte cursor), held behind a few trusted calls. An archive is seen
//! through the list of its entries: for each, its name, its sanitized name
//! and its unpacked bytes, or nothing when the entry cannot be read.
use vstd::prelude::*;
use std::io::Cursor;
use zip::ZipArchive;
use crate::text::split_on;
use crate::paths::is_named;

verus! {

#[verifier::external_type_specification]
#[verifier::external_body]
#[verifier::reject_recursive_types(T)]
pub struct DeclaredCursor<T>(Cursor<T>);

#[verifier::external_type_specification]
#[verifier::external_body]
#[verifier::reject_recursive_types(R)]
pub struct DeclaredZipArchive<R>(ZipArchive<R>);

/// One entry of an archive, as read.
pub struct ZipEntry {
    /// The name stored in the archive.
    pub name: String,
    /// The sanitized name (`ZipFile::enclosed_name`), if there is one.
    pub enclosed: Option<String>,
    /// The unpacked bytes.
    pub data: Vec<u8>,
}

/// A name that `ZipFile::enclosed_name` can give: no NUL and no '\\', and
/// unless it is empty, made of pieces separated by single '/' that are
/// each a plain name (not empty, not ".", not ".."). So it is relative and
/// never climbs above where it starts.
pub open spec fn is_enclosed(e: Seq<char>) -> bool {
    &&& forall|j: int| 0 <= j < e.len() ==> e[j] != '\0' && e[j] != '\\'
    &&& e.len() > 0 ==> forall|k: int|
        0 <= k < split_on(e, '/').len() ==> is_named(#[trigger] split_on(e, '/')[k])
            && split_on(e, '/')[k] != seq!['.', '.']
}

/// The entries `ZipArchive::new` finds in these bytes, each read as
/// `ZipArchive::by_index` reads it (see `zip_contents`); nothing when the
/// bytes are not a zip archive.
pub uninterp spec fn zip_parse(bytes: Seq<u8>) -> Option<
    Seq<Option<(Seq<char>, Option<Seq<char>>, Seq<u8>)>>,
>;

/// The entries of an archive: for each index, the name, the sanitized
/// name and the unpacked bytes, or nothing when reading it fails.
pub uninterp spec fn zip_contents(archive: ZipArchive<Cursor<Vec<u8>>>) -> Seq<
    Option<(Seq<char>, Option<Seq<char>>, Seq<u8>)>,
>;

pub open spec fn entry_view(e: ZipEntry) -> (Seq<char>, Option<Seq<char>>, Seq<u8>) {
    (
        e.name@,
        match e.enclosed {
            Some(n) => Some(n@),
            None => None,
        },
        e.data@,
    )
}

/// `ZipArchive::new` over the bytes: the archive whose entries
/// `zip_parse` names, or nothing when the bytes are not a zip archive.
#[verifier::external_body]
pub(crate) fn zip_open(bytes: Vec<u8>) -> (r: Option<ZipArchive<Cursor<Vec<u8>>>>)
    ensures
        r is Some == zip_parse(bytes@) is Some,
        r matches Some(a) ==> zip_parse(bytes@) == Some(zip_contents(a)),
{
    ZipArchive::new(Cursor::new(bytes)).ok()
}

/// `ZipArchive::len`: the number of entries.
#[verifier::external_body]
pub(crate) fn zip_len(archive: &ZipArchive<Cursor<Vec<u8>>>) -> (r: usize)
    ensures
        r == zip_contents(*archive).len(),
{
    archive.len()
}

/// `ZipArchive::by_index(i)`, then the entry's `name`, `enclosed_name`
/// and all its bytes (`Read::read_to_end`): entry `i` as `zip_contents`
/// names it, nothing past the last entry or when any of these fails.
/// Reading moves the archive's cursor but changes no entry. A sanitized
/// name is built only from plain name pieces joined by '/', as the crate's
/// `enclosed_name` does, so it satisfies `is_enclosed`.
#[verifier::external_body]
pub(crate) fn zip_read(archive: &mut ZipArchive<Cursor<Vec<u8>>>, i: usize) -> (r: Option<ZipEntry>)
    ensures
        zip_contents(*final(archive)) == zip_contents(*old(archive)),
        i >= zip_contents(*old(archive)).len() ==> r is None,
        i < zip_contents(*old(archive)).len() ==> (r is Some == zip_contents(*old(archive))[i as int] is Some),
        r matches Some(e) ==> zip_contents(*old(archive))[i as int] == Some(entry_view(e)),
        r matches Some(e) ==> (e.enclosed matches Some(n) ==> is_enclosed(n@)),
{
    let mut file = archive.by_index(i).ok()?;
    let name = file.name().ok()?.into_owned();
    let enclosed = match file.enclosed_name() {
        Some(p) => Some(p.to_string_lossy().into_owned()),
        None => None,
    };
    let mut data = Vec::new();
    std::io::Read::read_to_end(&mut file, &mut data).ok()?;
    Some(ZipEntry { name, enclosed, data })
}

} // verus!
