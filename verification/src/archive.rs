//! Which extractor an archive goes to, where it is unpacked, and what is
//! done with each entry of a zip or RAR archive.
use vstd::prelude::*;
use crate::environment::data_dir;
use crate::paths::{lemma_join_relative, spec_extension, spec_join, extension_of_name_chars, file_name_chars, join_chars, opt_view};
use crate::text::{chars_of, string_of, same_chars, concat};
use crate::transfer::spec_copy_source_dir;
use crate::zip_store::{is_enclosed, zip_parse, zip_contents, entry_view, zip_open, zip_len, zip_read, ZipEntry};
use crate::paths::is_named;
use crate::text::split_on;

verus! {

/// The unpacking routine an archive is handed to.
#[derive(PartialEq, Eq, Structural, Debug, Clone, Copy)]
pub enum Extractor {
    /// The zip reader.
    Zip,
    /// The RAR reader.
    Rar,
    /// The 7z reader.
    SevenZ,
    /// Nothing is extracted; the archive is reported as not supported.
    Unsupported,
}

/// What happens to one entry of a zip archive.
#[derive(PartialEq, Eq, Debug)]
pub enum ZipEntryAction {
    /// The entry has no safe name inside the target and is left out.
    Skip,
    /// A directory is created at this path.
    CreateDir(String),
    /// The entry's bytes are written to a file at this path.
    WriteFile(String),
}

/// What happens to one entry of a RAR archive.
#[derive(PartialEq, Eq, Structural, Debug, Clone, Copy)]
pub enum RarEntryAction {
    Extract,
    Skip,
}

/// Everything needed to unpack one archive.
#[derive(PartialEq, Eq, Debug)]
pub struct ExtractionPlan {
    pub extractor: Extractor,
    pub archive: String,
    pub target: String,
}

pub open spec fn zip_word() -> Seq<char> {
    seq!['z', 'i', 'p']
}

pub open spec fn rar_word() -> Seq<char> {
    seq!['r', 'a', 'r']
}

pub open spec fn seven_zip_word() -> Seq<char> {
    seq!['7', 'z']
}

pub open spec fn extracted_word() -> Seq<char> {
    seq!['e', 'x', 't', 'r', 'a', 'c', 't', 'e', 'd']
}

/// The extractor for an extension: "zip" goes to the zip reader, "rar" to
/// the RAR reader, "7z" to the 7z reader, anything else to none.
pub open spec fn spec_extractor(ext: Seq<char>) -> Extractor {
    if ext == zip_word() {
        Extractor::Zip
    } else if ext == rar_word() {
        Extractor::Rar
    } else if ext == seven_zip_word() {
        Extractor::SevenZ
    } else {
        Extractor::Unsupported
    }
}

/// The extensions the archive folder is scanned for.
pub open spec fn spec_is_supported_archive(ext: Seq<char>) -> bool {
    ext == zip_word() || ext == rar_word() || ext == seven_zip_word()
}

/// Where an archive is unpacked: the data directory joined with
/// "<extract_to>/" and then with "extracted/", the directory that the copy
/// into the game directory walks.
pub open spec fn spec_extraction_target(data_dir: Seq<char>, extract_to: Seq<char>) -> Seq<char> {
    spec_join(spec_join(data_dir, extract_to + seq!['/']), extracted_word() + seq!['/'])
}

/// Where an archive is unpacked when no data directory is found: the
/// data directory reads as empty, so the target is "/", then `extract_to`,
/// then "extracted".
pub open spec fn spec_target_without_data_dir(extract_to: Seq<char>) -> Seq<char> {
    seq!['/'] + extract_to + extracted_word()
}

/// The plan for an archive, given the data directory: nothing when the
/// path has no extension; otherwise the extractor its extension selects,
/// the archive, and the target directory (under the data directory when
/// one is found, else the target `spec_target_without_data_dir` gives).
pub open spec fn spec_plan_matches(
    plan: Option<ExtractionPlan>,
    archive_path: Seq<char>,
    extract_to: Seq<char>,
    data_dir: Option<Seq<char>>,
) -> bool {
    match spec_extension(archive_path) {
        Some(ext) => plan matches Some(p) && p.extractor == spec_extractor(ext)
            && p.archive@ == archive_path && p.target@ == match data_dir {
            Some(d) => spec_extraction_target(d, extract_to),
            None => spec_target_without_data_dir(extract_to),
        },
        None => plan is None,
    }
}

/// A found data directory is never passed over: for the same archive and
/// temporary directory, the target planned with a data directory `d`
/// differs from the target planned without one, and when `extract_to` is
/// a non-empty relative path that target lies under `d` (it starts with
/// `d`).
pub proof fn law_found_data_dir_holds_target(
    with_dir: Option<ExtractionPlan>,
    without_dir: Option<ExtractionPlan>,
    archive_path: Seq<char>,
    extract_to: Seq<char>,
    d: Seq<char>,
)
    requires
        spec_plan_matches(with_dir, archive_path, extract_to, Some(d)),
        spec_plan_matches(without_dir, archive_path, extract_to, None),
        with_dir is Some,
    ensures
        without_dir is Some,
        with_dir.unwrap().target@ != without_dir.unwrap().target@,
        extract_to.len() > 0 && extract_to[0] != '/' ==> with_dir.unwrap().target@.subrange(
            0,
            d.len() as int,
        ) == d,
{
    let y = spec_join(d, extract_to + seq!['/']);
    let t = spec_extraction_target(d, extract_to);
    let tail = extracted_word() + seq!['/'];
    lemma_join_relative(y, tail);
    assert(t.subrange(t.len() - tail.len(), t.len() as int) == tail);
    assert(t.last() == t.subrange(t.len() - tail.len(), t.len() as int)[tail.len() - 1]);
    assert(t.last() == '/');
    let u = spec_target_without_data_dir(extract_to);
    assert(u.last() == 'd');
    assert(t != u);
    if extract_to.len() > 0 && extract_to[0] != '/' {
        assert((extract_to + seq!['/'])[0] == extract_to[0]);
        lemma_join_relative(d, extract_to + seq!['/']);
        assert forall|i: int| 0 <= i < d.len() implies t.subrange(0, d.len() as int)[i] == d[i] by {
            assert(t.subrange(0, y.len() as int)[i] == y[i]);
            assert(y.subrange(0, d.len() as int)[i] == d[i]);
        }
        assert(t.subrange(0, d.len() as int) =~= d);
    }
}

/// Unpacking and copying meet: the directory an archive is unpacked into
/// is the very directory the copy into the game directory starts walking,
/// for the same data directory and temporary directory.
pub proof fn law_extraction_meets_copy(data_dir: Seq<char>, extract_to: Seq<char>)
    ensures
        spec_extraction_target(data_dir, extract_to) == spec_copy_source_dir(
            Some(data_dir),
            extract_to,
            Seq::empty(),
        ),
{
    let y = spec_join(data_dir, extract_to + seq!['/']);
    let x = spec_join(y, extracted_word());
    assert(x.len() > 0);
    assert(x.last() == 'd') by {
        if y.len() > 0 && y.last() != '/' {
            assert(x =~= y + seq!['/'] + extracted_word());
        } else {
            assert(x =~= y + extracted_word());
        }
    }
    assert(spec_join(x, Seq::empty()) =~= x + seq!['/']);
    if y.len() > 0 && y.last() != '/' {
        assert(spec_join(y, extracted_word() + seq!['/']) =~= x + seq!['/']);
    } else {
        assert(spec_join(y, extracted_word() + seq!['/']) =~= x + seq!['/']);
    }
}

/// The extractor an extension selects.
pub fn extractor_for(ext: &str) -> (r: Extractor)
    ensures
        r == spec_extractor(ext@),
{
    let e = chars_of(ext);
    if same_chars(&e, &vec!['z', 'i', 'p']) {
        Extractor::Zip
    } else if same_chars(&e, &vec!['r', 'a', 'r']) {
        Extractor::Rar
    } else if same_chars(&e, &vec!['7', 'z']) {
        Extractor::SevenZ
    } else {
        Extractor::Unsupported
    }
}

/// Whether a file with this extension is one of the archives that are
/// unpacked ("zip", "rar" or "7z").
pub fn is_supported_archive(ext: &str) -> (r: bool)
    ensures
        r == spec_is_supported_archive(ext@),
{
    let e = chars_of(ext);
    same_chars(&e, &vec!['z', 'i', 'p']) || same_chars(&e, &vec!['r', 'a', 'r'])
        || same_chars(&e, &vec!['7', 'z'])
}

/// The directory an archive is unpacked into.
pub fn extraction_target(data_dir: &str, extract_to: &str) -> (r: String)
    ensures
        r@ == spec_extraction_target(data_dir@, extract_to@),
{
    let dir = concat(&chars_of(extract_to), &vec!['/']);
    let base = join_chars(&chars_of(data_dir), &dir);
    let all = join_chars(&base, &vec!['e', 'x', 't', 'r', 'a', 'c', 't', 'e', 'd', '/']);
    string_of(&all)
}

/// What unpacking `archive_path` into `extract_to` does, given the data
/// directory: nothing when the path has no extension; otherwise the
/// extractor its extension selects and the target directory.
pub fn plan_extraction_at(archive_path: &str, extract_to: &str, data_dir: Option<&str>) -> (r:
    Option<ExtractionPlan>)
    ensures
        spec_plan_matches(
            r,
            archive_path@,
            extract_to@,
            match data_dir {
                Some(d) => Some(d@),
                None => None,
            },
        ),
{
    let ext = match file_name_chars(&chars_of(archive_path)) {
        Some(n) => extension_of_name_chars(&n),
        None => None,
    };
    match ext {
        None => None,
        Some(e) => {
            let e = string_of(&e);
            let target = match data_dir {
                Some(dir) => extraction_target(dir, extract_to),
                None => {
                    let word = vec!['e', 'x', 't', 'r', 'a', 'c', 't', 'e', 'd'];
                    let rooted = concat(&vec!['/'], &chars_of(extract_to));
                    let all = concat(&rooted, &word);
                    assert(word@ =~= extracted_word());
                    assert(all@ =~= spec_target_without_data_dir(extract_to@));
                    string_of(&all)
                },
            };
            Some(
                ExtractionPlan {
                    extractor: extractor_for(e.as_str()),
                    archive: archive_path.to_owned(),
                    target,
                },
            )
        },
    }
}

/// What unpacking `archive_path` into `extract_to` does, with the user's
/// data directory as it is found at the time of the call.
pub fn plan_extraction(archive_path: &str, extract_to: &str) -> (r: Option<ExtractionPlan>)
    ensures
        exists|d: Option<Seq<char>>| spec_plan_matches(r, archive_path@, extract_to@, d),
{
    let found = data_dir();
    match found {
        Some(d) => plan_extraction_at(archive_path, extract_to, Some(d.as_str())),
        None => plan_extraction_at(archive_path, extract_to, None),
    }
}

/// What is done with a zip entry called `name` whose sanitized name
/// (`ZipFile::enclosed_name`) is `enclosed`: it is skipped when there is
/// none; a name ending in '/' is a directory; anything else is a file.
/// The path is the sanitized name joined onto `extract_to`.
pub fn zip_entry_action(extract_to: &str, name: &str, enclosed: Option<&str>) -> (r:
    ZipEntryAction)
    ensures
        enclosed is None ==> r == ZipEntryAction::Skip,
        enclosed matches Some(e) ==> {
            let out = spec_join(extract_to@, e@);
            if name@.len() > 0 && name@.last() == '/' {
                r matches ZipEntryAction::CreateDir(p) && p@ == out
            } else {
                r matches ZipEntryAction::WriteFile(p) && p@ == out
            }
        },
{
    match enclosed {
        None => ZipEntryAction::Skip,
        Some(e) => {
            let out = string_of(&join_chars(&chars_of(extract_to), &chars_of(e)));
            let n = chars_of(name);
            if n.len() > 0 && n[n.len() - 1] == '/' {
                ZipEntryAction::CreateDir(out)
            } else {
                ZipEntryAction::WriteFile(out)
            }
        },
    }
}

/// Whether `path` lies inside `dir`: it is `dir`, then at most one
/// separator, then a name that `ZipFile::enclosed_name` can give (relative,
/// made of plain name pieces, no "..").
pub open spec fn lands_inside(dir: Seq<char>, path: Seq<char>) -> bool {
    let rest = path.skip(dir.len() as int);
    &&& path.len() >= dir.len()
    &&& path.take(dir.len() as int) == dir
    &&& (is_enclosed(rest) || (rest.len() > 0 && rest[0] == '/' && is_enclosed(rest.drop_first())))
}

proof fn lemma_split_leading_sep(s: Seq<char>, sep: char)
    requires
        s.len() >= 1,
        s[0] == sep,
    ensures
        split_on(s, sep).len() >= 2,
        split_on(s, sep)[0].len() == 0,
    decreases s.len(),
{
    if s.len() == 1 {
        assert(s.drop_last() =~= Seq::<char>::empty());
    } else {
        lemma_split_leading_sep(s.drop_last(), sep);
    }
}

/// A zip entry lands inside the target directory: joining a sanitized name
/// (which `ZipFile::enclosed_name` gives relative and free of "..") onto
/// `extract_to` gives `extract_to`, at most one separator, and that name,
/// so nothing is written outside `extract_to`.
pub proof fn law_zip_entry_stays_inside(extract_to: Seq<char>, enclosed: Seq<char>)
    requires
        is_enclosed(enclosed),
    ensures
        lands_inside(extract_to, spec_join(extract_to, enclosed)),
{
    let out = spec_join(extract_to, enclosed);
    if enclosed.len() > 0 && enclosed[0] == '/' {
        lemma_split_leading_sep(enclosed, '/');
        assert(is_named(split_on(enclosed, '/')[0]));
    }
    if extract_to.len() > 0 && extract_to.last() != '/' {
        assert(out.take(extract_to.len() as int) =~= extract_to);
        assert(out.skip(extract_to.len() as int) =~= seq!['/'] + enclosed);
        assert((seq!['/'] + enclosed).drop_first() =~= enclosed);
    } else {
        assert(out.take(extract_to.len() as int) =~= extract_to);
        assert(out.skip(extract_to.len() as int) =~= enclosed);
    }
}

/// What unpacking a zip entry writes.
#[derive(PartialEq, Eq, Debug)]
pub enum ZipStep {
    /// Create this directory (and any missing parents).
    CreateDir(String),
    /// Write these bytes to a file at this path (creating missing parents).
    WriteFile { path: String, data: Vec<u8> },
}

/// The mathematical value of a `ZipStep`.
pub enum ZipStepView {
    CreateDir(Seq<char>),
    WriteFile { path: Seq<char>, data: Seq<u8> },
}

impl View for ZipStep {
    type V = ZipStepView;

    open spec fn view(&self) -> ZipStepView {
        match self {
            ZipStep::CreateDir(p) => ZipStepView::CreateDir(p@),
            ZipStep::WriteFile { path, data } => ZipStepView::WriteFile { path: path@, data: data@ },
        }
    }
}

/// The path a step writes to.
pub open spec fn zip_step_path(s: ZipStepView) -> Seq<char> {
    match s {
        ZipStepView::CreateDir(p) => p,
        ZipStepView::WriteFile { path, .. } => path,
    }
}

pub open spec fn zip_step_views(v: Seq<ZipStep>) -> Seq<ZipStepView> {
    v.map_values(|z: ZipStep| z@)
}

/// Unpacking a whole zip archive: the steps, in order, and whether every
/// entry could be read.
#[derive(PartialEq, Eq, Debug)]
pub struct ZipPlan {
    pub steps: Vec<ZipStep>,
    pub complete: bool,
}

/// The steps for one readable entry (see `zip_entry_action`): none when it
/// has no sanitized name; a directory for a name ending in '/'; else a
/// file with the entry's bytes. The path is the sanitized name joined onto
/// `extract_to`.
pub open spec fn spec_zip_entry_steps(
    extract_to: Seq<char>,
    entry: (Seq<char>, Option<Seq<char>>, Seq<u8>),
) -> Seq<ZipStepView> {
    match entry.1 {
        None => Seq::empty(),
        Some(e) => {
            let out = spec_join(extract_to, e);
            if entry.0.len() > 0 && entry.0.last() == '/' {
                seq![ZipStepView::CreateDir(out)]
            } else {
                seq![ZipStepView::WriteFile { path: out, data: entry.2 }]
            }
        },
    }
}

/// Unpacking these entries in order: the steps of each entry up to the
/// first one that cannot be read, and whether there was none.
pub open spec fn spec_zip_plan(
    entries: Seq<Option<(Seq<char>, Option<Seq<char>>, Seq<u8>)>>,
    extract_to: Seq<char>,
) -> (Seq<ZipStepView>, bool)
    decreases entries.len(),
{
    if entries.len() == 0 {
        (Seq::empty(), true)
    } else {
        let pre = spec_zip_plan(entries.drop_last(), extract_to);
        if !pre.1 {
            pre
        } else {
            match entries.last() {
                None => (pre.0, false),
                Some(e) => (pre.0 + spec_zip_entry_steps(extract_to, e), true),
            }
        }
    }
}

proof fn lemma_zip_plan_step(
    entries: Seq<Option<(Seq<char>, Option<Seq<char>>, Seq<u8>)>>,
    extract_to: Seq<char>,
    i: int,
)
    requires
        0 <= i < entries.len(),
    ensures
        spec_zip_plan(entries.take(i + 1), extract_to) == ({
            let pre = spec_zip_plan(entries.take(i), extract_to);
            if !pre.1 {
                pre
            } else {
                match entries[i] {
                    None => (pre.0, false),
                    Some(e) => (pre.0 + spec_zip_entry_steps(extract_to, e), true),
                }
            }
        }),
{
    assert(entries.take(i + 1).drop_last() =~= entries.take(i));
}

proof fn lemma_zip_plan_stopped(
    entries: Seq<Option<(Seq<char>, Option<Seq<char>>, Seq<u8>)>>,
    extract_to: Seq<char>,
    j: int,
    k: int,
)
    requires
        0 <= j <= k <= entries.len(),
        !spec_zip_plan(entries.take(j), extract_to).1,
    ensures
        spec_zip_plan(entries.take(k), extract_to) == spec_zip_plan(entries.take(j), extract_to),
    decreases k - j,
{
    if k > j {
        lemma_zip_plan_stopped(entries, extract_to, j, k - 1);
        lemma_zip_plan_step(entries, extract_to, k - 1);
    }
}

/// Unpacking the zip archive held in `bytes` into `extract_to`: nothing
/// when the bytes are not a zip archive; otherwise the steps of its
/// entries in order, up to the first entry that cannot be read, and
/// whether every entry was read. Every step writes inside `extract_to`.
pub fn plan_zip(bytes: Vec<u8>, extract_to: &str) -> (r: Option<ZipPlan>)
    ensures
        r is Some == zip_parse(bytes@) is Some,
        r matches Some(p) ==> (zip_step_views(p.steps@), p.complete) == spec_zip_plan(
            zip_parse(bytes@)->0,
            extract_to@,
        ),
        r matches Some(p) ==> forall|k: int|
            0 <= k < p.steps@.len() ==> lands_inside(extract_to@, zip_step_path(#[trigger] p.steps@[k]@)),
{
    let ghost source = bytes@;
    let mut archive = match zip_open(bytes) {
        Some(a) => a,
        None => return None,
    };
    let ghost entries = zip_contents(archive);
    let n = zip_len(&archive);
    let mut steps: Vec<ZipStep> = Vec::new();
    let mut i: usize = 0;
    proof {
        assert(entries.take(0) =~= Seq::<Option<(Seq<char>, Option<Seq<char>>, Seq<u8>)>>::empty());
        assert(zip_step_views(steps@) =~= Seq::<ZipStepView>::empty());
    }
    #[verifier::loop_isolation(false)]
    while i < n
        invariant
            zip_parse(source) == Some(entries),
            zip_contents(archive) == entries,
            n == entries.len(),
            i <= n,
            (zip_step_views(steps@), true) == spec_zip_plan(entries.take(i as int), extract_to@),
            forall|k: int|
                0 <= k < steps@.len() ==> lands_inside(extract_to@, zip_step_path(#[trigger] steps@[k]@)),
        decreases n - i,
    {
        proof {
            lemma_zip_plan_step(entries, extract_to@, i as int);
        }
        let ghost before = zip_step_views(steps@);
        match zip_read(&mut archive, i) {
            None => {
                proof {
                    lemma_zip_plan_stopped(entries, extract_to@, i + 1, n as int);
                    assert(entries.take(n as int) =~= entries);
                }
                return Some(ZipPlan { steps, complete: false });
            },
            Some(entry) => {
                let ghost ev = entry_view(entry);
                let ZipEntry { name, enclosed, data } = entry;
                let enc: Option<&str> = match &enclosed {
                    Some(e) => Some(e.as_str()),
                    None => None,
                };
                match zip_entry_action(extract_to, name.as_str(), enc) {
                    ZipEntryAction::Skip => {
                        assert(spec_zip_entry_steps(extract_to@, ev) =~= Seq::<ZipStepView>::empty());
                        assert(before + Seq::<ZipStepView>::empty() =~= before);
                    },
                    ZipEntryAction::CreateDir(p) => {
                        proof {
                            law_zip_entry_stays_inside(extract_to@, ev.1->0);
                        }
                        steps.push(ZipStep::CreateDir(p));
                        assert(zip_step_views(steps@) =~= before + spec_zip_entry_steps(extract_to@, ev));
                    },
                    ZipEntryAction::WriteFile(p) => {
                        proof {
                            law_zip_entry_stays_inside(extract_to@, ev.1->0);
                        }
                        steps.push(ZipStep::WriteFile { path: p, data });
                        assert(zip_step_views(steps@) =~= before + spec_zip_entry_steps(extract_to@, ev));
                    },
                }
            },
        }
        i = i + 1;
    }
    proof {
        assert(entries.take(n as int) =~= entries);
    }
    Some(ZipPlan { steps, complete: true })
}

/// What is done with a RAR entry: files are extracted, everything else
/// is skipped.
pub fn rar_entry_action(is_file: bool) -> (r: RarEntryAction)
    ensures
        r == (if is_file {
            RarEntryAction::Extract
        } else {
            RarEntryAction::Skip
        }),
{
    if is_file {
        RarEntryAction::Extract
    } else {
        RarEntryAction::Skip
    }
}

} // verus!
