//! Moving unpacked files into the game directory: where they are read
//! from, where a replaced file is backed up, and the steps taken for each
//! entry of the unpacked tree.
use vstd::prelude::*;
use crate::environment::data_dir;
use crate::paths::{lemma_join_relative, spec_file_name, spec_join, file_name_chars, join_chars};
use crate::text::{spec_split_once, chars_of, string_of, concat, split_once};
use crate::archive::extracted_word;

verus! {

/// What a directory entry is, as its own metadata (not following links)
/// says.
#[derive(PartialEq, Eq, Structural, Debug, Clone, Copy)]
pub enum EntryKind {
    Directory,
    File,
    Symlink,
    Other,
}

/// One step of moving an unpacked entry into the game directory.
#[derive(PartialEq, Eq, Debug)]
pub enum CopyAction {
    /// Create this directory; one that already exists is fine, any other
    /// failure stops the copy.
    CreateDir(String),
    /// Copy the unpacked directory `source` into `target`, entry by entry.
    Descend { target: String, source: String },
    /// Move the file at `from` to the backup location `to`, creating the
    /// backup's parent directories first.
    Backup { from: String, to: String },
    /// Append this line to the log of replaced files.
    AppendLog(String),
    /// Copy the file `from` to `to`.
    CopyFile { from: String, to: String },
    /// Remove the file at this path if one is there.
    RemoveIfPresent(String),
    /// Create a symbolic link at `link` that points to `original`.
    Symlink { original: String, link: String },
}

/// The mathematical value of a `CopyAction`.
pub enum CopyStep {
    CreateDir(Seq<char>),
    Descend { target: Seq<char>, source: Seq<char> },
    Backup { from: Seq<char>, to: Seq<char> },
    AppendLog(Seq<char>),
    CopyFile { from: Seq<char>, to: Seq<char> },
    RemoveIfPresent(Seq<char>),
    Symlink { original: Seq<char>, link: Seq<char> },
}

impl View for CopyAction {
    type V = CopyStep;

    open spec fn view(&self) -> CopyStep {
        match self {
            CopyAction::CreateDir(p) => CopyStep::CreateDir(p@),
            CopyAction::Descend { target, source } => CopyStep::Descend {
                target: target@,
                source: source@,
            },
            CopyAction::Backup { from, to } => CopyStep::Backup { from: from@, to: to@ },
            CopyAction::AppendLog(l) => CopyStep::AppendLog(l@),
            CopyAction::CopyFile { from, to } => CopyStep::CopyFile { from: from@, to: to@ },
            CopyAction::RemoveIfPresent(p) => CopyStep::RemoveIfPresent(p@),
            CopyAction::Symlink { original, link } => CopyStep::Symlink {
                original: original@,
                link: link@,
            },
        }
    }
}

/// What is done with an entry while symbolic links are swept out of the
/// game directory.
#[derive(PartialEq, Eq, Structural, Debug, Clone, Copy)]
pub enum SweepAction {
    /// Sweep the directory's own entries.
    Descend,
    /// Remove the link.
    Remove,
    /// Leave the entry alone.
    Keep,
}

pub open spec fn bak_word() -> Seq<char> {
    seq!['b', 'a', 'k']
}

/// A line of the log of replaced files.
pub open spec fn spec_log_line(path: Seq<char>) -> Seq<char> {
    path + seq!['\n']
}

/// Where a file that is about to be replaced is kept:
/// "<data dir>/<profile>bak<rest>", where <rest> is what follows the first
/// occurrence of the profile's file name in the file's path. There is no
/// such place when the profile has no file name or the path does not
/// contain it.
pub open spec fn spec_backup_path(data_dir: Seq<char>, profile: Seq<char>, path: Seq<char>) -> Option<
    Seq<char>,
> {
    match spec_file_name(profile) {
        None => None,
        Some(n) => match spec_split_once(path, n) {
            None => None,
            Some((_, rest)) => Some(data_dir + seq!['/'] + profile + bak_word() + rest),
        },
    }
}

/// The unpacked directory that is copied: "<data dir>" joined with
/// "<profile>/", "extracted" and the start point; "" when there is no data
/// directory.
pub open spec fn spec_copy_source_dir(data_dir: Option<Seq<char>>, profile: Seq<char>, start: Seq<char>) -> Seq<
    char,
> {
    match data_dir {
        None => Seq::empty(),
        Some(d) => spec_join(
            spec_join(spec_join(d, profile + seq!['/']), extracted_word()),
            start,
        ),
    }
}

/// A found data directory is never passed over: the directory walked for
/// a found data directory `d` is never empty, while without one it is
/// empty; and when the profile directory is a non-empty relative path and
/// the start point is relative, it lies under `d` (it starts with `d`).
pub proof fn law_found_data_dir_walked(d: Seq<char>, profile: Seq<char>, start: Seq<char>)
    ensures
        spec_copy_source_dir(Some(d), profile, start).len() > 0,
        spec_copy_source_dir(None, profile, start).len() == 0,
        profile.len() > 0 && profile[0] != '/' && !(start.len() > 0 && start[0] == '/')
            ==> spec_copy_source_dir(Some(d), profile, start).subrange(0, d.len() as int) == d,
{
    let y = spec_join(d, profile + seq!['/']);
    let x = spec_join(y, extracted_word());
    let w = spec_copy_source_dir(Some(d), profile, start);
    lemma_join_relative(y, extracted_word());
    if !(start.len() > 0 && start[0] == '/') {
        lemma_join_relative(x, start);
    }
    if profile.len() > 0 && profile[0] != '/' && !(start.len() > 0 && start[0] == '/') {
        assert((profile + seq!['/'])[0] == profile[0]);
        lemma_join_relative(d, profile + seq!['/']);
        assert forall|i: int| 0 <= i < d.len() implies w.subrange(0, d.len() as int)[i] == d[i] by {
            assert(w.subrange(0, x.len() as int)[i] == x[i]);
            assert(x.subrange(0, y.len() as int)[i] == y[i]);
            assert(y.subrange(0, d.len() as int)[i] == d[i]);
        }
        assert(w.subrange(0, d.len() as int) =~= d);
    }
}

/// How the file at `source` is put at `target`: a link, or a copy.
pub open spec fn spec_place(source: Seq<char>, target: Seq<char>, symlink: bool) -> Seq<CopyStep> {
    if symlink {
        seq![
            CopyStep::RemoveIfPresent(target),
            CopyStep::Symlink { original: source, link: target },
        ]
    } else {
        seq![CopyStep::CopyFile { from: source, to: target }]
    }
}

/// The steps for the entry `name` of the unpacked directory `walk_dir`,
/// copied into `copy_to`. A directory is created and copied into. A file
/// that already exists in the game directory stays as it is unless
/// `overwrite` is set; when it is, the existing file is first moved to its
/// backup location and logged, then replaced. A file is placed as a link
/// when `symlink` is set, else as a copy; anything else is left alone.
/// `None` when an existing file that is to be replaced has no backup
/// location.
pub open spec fn spec_copy_entry(
    copy_to: Seq<char>,
    walk_dir: Seq<char>,
    profile: Seq<char>,
    data_dir: Seq<char>,
    name: Seq<char>,
    kind: EntryKind,
    target_exists: bool,
    overwrite: bool,
    symlink: bool,
) -> Option<Seq<CopyStep>> {
    let target = spec_join(copy_to, name);
    let source = spec_join(walk_dir, name);
    match kind {
        EntryKind::Directory => Some(
            seq![CopyStep::CreateDir(target), CopyStep::Descend { target, source }],
        ),
        EntryKind::File => if target_exists {
            if !overwrite {
                Some(Seq::empty())
            } else {
                match spec_backup_path(data_dir, profile, target) {
                    None => None,
                    Some(b) => Some(
                        seq![
                            CopyStep::Backup { from: target, to: b },
                            CopyStep::AppendLog(spec_log_line(target)),
                        ] + spec_place(source, target, symlink),
                    ),
                }
            }
        } else {
            Some(spec_place(source, target, symlink))
        },
        _ => Some(Seq::empty()),
    }
}

pub open spec fn step_views(v: Seq<CopyAction>) -> Seq<CopyStep> {
    v.map_values(|a: CopyAction| a@)
}

/// The backup location of the file at `path` (see `spec_backup_path`),
/// with the data directory given.
pub fn backup_path_at(data_dir: &str, profile: &str, path: &str) -> (r: Option<String>)
    ensures
        r is Some == spec_backup_path(data_dir@, profile@, path@) is Some,
        r matches Some(b) ==> spec_backup_path(data_dir@, profile@, path@) == Some(b@),
{
    let name = match file_name_chars(&chars_of(profile)) {
        Some(n) => n,
        None => return None,
    };
    match split_once(&chars_of(path), &name) {
        None => None,
        Some((_, rest)) => {
            let a = concat(&chars_of(data_dir), &vec!['/']);
            let b = concat(&a, &chars_of(profile));
            let c = concat(&b, &vec!['b', 'a', 'k']);
            let d = concat(&c, &rest);
            Some(string_of(&d))
        },
    }
}

/// The backup location of the file at `path`, under the user's data
/// directory as found at the time of the call ("" when there is none).
pub fn split_path(path: &str, profile: &str) -> (r: Option<String>)
    ensures
        exists|d: Seq<char>|
            {
                &&& r is Some == spec_backup_path(d, profile@, path@) is Some
                &&& r matches Some(b) ==> spec_backup_path(d, profile@, path@) == Some(b@)
            },
{
    let found = data_dir();
    let d = match found {
        Some(d) => d,
        None => String::new(),
    };
    backup_path_at(d.as_str(), profile, path)
}

/// The unpacked directory that is copied (see `spec_copy_source_dir`).
pub fn copy_source_dir_at(data_dir: Option<&str>, profile: &str, start_point: &str) -> (r: String)
    ensures
        r@ == spec_copy_source_dir(
            match data_dir {
                Some(d) => Some(d@),
                None => None,
            },
            profile@,
            start_point@,
        ),
{
    match data_dir {
        None => String::new(),
        Some(d) => {
            let with_slash = concat(&chars_of(profile), &vec!['/']);
            let a = join_chars(&chars_of(d), &with_slash);
            let b = join_chars(&a, &vec!['e', 'x', 't', 'r', 'a', 'c', 't', 'e', 'd']);
            let c = join_chars(&b, &chars_of(start_point));
            string_of(&c)
        },
    }
}

/// The unpacked directory that is copied, under the user's data directory
/// as found at the time of the call.
pub fn copy_source_dir(profile: &str, start_point: &str) -> (r: String)
    ensures
        exists|d: Option<Seq<char>>| r@ == spec_copy_source_dir(d, profile@, start_point@),
{
    let found = data_dir();
    match found {
        Some(d) => copy_source_dir_at(Some(d.as_str()), profile, start_point),
        None => copy_source_dir_at(None, profile, start_point),
    }
}

fn push_place(r: &mut Vec<CopyAction>, source: &Vec<char>, target: &Vec<char>, symlink: bool)
    ensures
        step_views(final(r)@) == step_views(old(r)@) + spec_place(source@, target@, symlink),
{
    let ghost before = step_views(r@);
    if symlink {
        r.push(CopyAction::RemoveIfPresent(string_of(target)));
        r.push(CopyAction::Symlink { original: string_of(source), link: string_of(target) });
    } else {
        r.push(CopyAction::CopyFile { from: string_of(source), to: string_of(target) });
    }
    assert(step_views(r@) =~= before + spec_place(source@, target@, symlink));
}

/// The steps for one entry of the unpacked tree (see `spec_copy_entry`),
/// with backups kept under the data directory given.
pub fn plan_copy_entry_at(
    copy_to: &str,
    walk_dir: &str,
    profile: &str,
    data_dir: &str,
    name: &str,
    kind: EntryKind,
    target_exists: bool,
    overwrite: bool,
    symlink: bool,
) -> (r: Option<Vec<CopyAction>>)
    ensures
        r is Some == spec_copy_entry(
            copy_to@,
            walk_dir@,
            profile@,
            data_dir@,
            name@,
            kind,
            target_exists,
            overwrite,
            symlink,
        ) is Some,
        r matches Some(v) ==> spec_copy_entry(
            copy_to@,
            walk_dir@,
            profile@,
            data_dir@,
            name@,
            kind,
            target_exists,
            overwrite,
            symlink,
        ) == Some(step_views(v@)),
{
    let n = chars_of(name);
    let target = join_chars(&chars_of(copy_to), &n);
    let source = join_chars(&chars_of(walk_dir), &n);
    match kind {
        EntryKind::Directory => {
            let mut r: Vec<CopyAction> = Vec::new();
            r.push(CopyAction::CreateDir(string_of(&target)));
            r.push(CopyAction::Descend { target: string_of(&target), source: string_of(&source) });
            assert(step_views(r@) =~= seq![
                CopyStep::CreateDir(target@),
                CopyStep::Descend { target: target@, source: source@ },
            ]);
            Some(r)
        },
        EntryKind::File => {
            if target_exists && !overwrite {
                let r: Vec<CopyAction> = Vec::new();
                assert(step_views(r@) =~= Seq::<CopyStep>::empty());
                Some(r)
            } else if target_exists {
                let target_text = string_of(&target);
                match backup_path_at(data_dir, profile, target_text.as_str()) {
                    None => None,
                    Some(b) => {
                        let mut r: Vec<CopyAction> = Vec::new();
                        r.push(CopyAction::Backup { from: string_of(&target), to: b });
                        let newline = vec!['\n'];
                        let line = string_of(&concat(&target, &newline));
                        assert(line@ =~= spec_log_line(target@));
                        r.push(CopyAction::AppendLog(line));
                        let ghost head = step_views(r@);
                        proof {
                            assert(r@[0]@ == CopyStep::Backup { from: target@, to: b@ });
                            assert(r@[1]@ == CopyStep::AppendLog(spec_log_line(target@)));
                            assert(head =~= seq![
                                CopyStep::Backup { from: target@, to: b@ },
                                CopyStep::AppendLog(spec_log_line(target@)),
                            ]);
                        }
                        push_place(&mut r, &source, &target, symlink);
                        Some(r)
                    },
                }
            } else {
                let mut r: Vec<CopyAction> = Vec::new();
                push_place(&mut r, &source, &target, symlink);
                assert(step_views(r@) =~= spec_place(source@, target@, symlink));
                Some(r)
            }
        },
        _ => {
            let r: Vec<CopyAction> = Vec::new();
            assert(step_views(r@) =~= Seq::<CopyStep>::empty());
            Some(r)
        },
    }
}

/// The steps for one entry of the unpacked tree, with backups kept under
/// the user's data directory as found at the time of the call ("" when
/// there is none).
pub fn plan_copy_entry(
    copy_to: &str,
    walk_dir: &str,
    profile: &str,
    name: &str,
    kind: EntryKind,
    target_exists: bool,
    overwrite: bool,
    symlink: bool,
) -> (r: Option<Vec<CopyAction>>)
    ensures
        exists|d: Seq<char>|
            {
                &&& r is Some == spec_copy_entry(
                    copy_to@,
                    walk_dir@,
                    profile@,
                    d,
                    name@,
                    kind,
                    target_exists,
                    overwrite,
                    symlink,
                ) is Some
                &&& r matches Some(v) ==> spec_copy_entry(
                    copy_to@,
                    walk_dir@,
                    profile@,
                    d,
                    name@,
                    kind,
                    target_exists,
                    overwrite,
                    symlink,
                ) == Some(step_views(v@))
            },
{
    let found = data_dir();
    let d = match found {
        Some(d) => d,
        None => String::new(),
    };
    plan_copy_entry_at(copy_to, walk_dir, profile, d.as_str(), name, kind, target_exists, overwrite, symlink)
}

/// Whether a step changes what is at `path` in the game directory.
pub open spec fn writes_to(step: CopyStep, path: Seq<char>) -> bool {
    match step {
        CopyStep::CopyFile { to, .. } => to == path,
        CopyStep::RemoveIfPresent(p) => p == path,
        CopyStep::Symlink { link, .. } => link == path,
        _ => false,
    }
}

/// An existing file in the game directory is left in place, untouched and
/// unlogged, when overwriting is off. When it is on, the file is never
/// changed before it has been moved to its backup location and logged: the
/// plan opens with those two steps and then puts the new file in place.
/// So a backup is only ever taken of a file that is being replaced.
pub proof fn law_existing_file_kept_or_backed_up_first(
    copy_to: Seq<char>,
    walk_dir: Seq<char>,
    profile: Seq<char>,
    data_dir: Seq<char>,
    name: Seq<char>,
    overwrite: bool,
    symlink: bool,
)
    requires
        spec_copy_entry(copy_to, walk_dir, profile, data_dir, name, EntryKind::File, true, overwrite, symlink) is Some,
    ensures
        ({
            let steps = spec_copy_entry(copy_to, walk_dir, profile, data_dir, name, EntryKind::File, true, overwrite, symlink)->0;
            let target = spec_join(copy_to, name);
            let source = spec_join(walk_dir, name);
            &&& !overwrite ==> steps.len() == 0
            &&& overwrite ==> {
                &&& steps.len() >= 3
                &&& steps[0] == CopyStep::Backup { from: target, to: spec_backup_path(data_dir, profile, target)->0 }
                &&& steps[1] == CopyStep::AppendLog(spec_log_line(target))
                &&& steps.skip(2) == spec_place(source, target, symlink)
                &&& forall|i: int| 0 <= i < steps.len() && #[trigger] writes_to(steps[i], target) ==> 2 <= i
            }
        }),
{
    if overwrite {
        let steps = spec_copy_entry(copy_to, walk_dir, profile, data_dir, name, EntryKind::File, true, overwrite, symlink)->0;
        let target = spec_join(copy_to, name);
        let source = spec_join(walk_dir, name);
        let b = spec_backup_path(data_dir, profile, target)->0;
        let head = seq![CopyStep::Backup { from: target, to: b }, CopyStep::AppendLog(spec_log_line(target))];
        let tail = spec_place(source, target, symlink);
        assert(steps == head + tail);
        assert(steps.skip(2) =~= tail);
        assert forall|i: int| 0 <= i < steps.len() && #[trigger] writes_to(steps[i], target) implies 2 <= i by {
            if i < 2 {
                assert(steps[i] == head[i]);
            }
        }
    }
}

/// With links chosen, no file is copied into the game directory: every
/// file placed there is a link to the unpacked file.
pub proof fn law_links_never_copy(
    copy_to: Seq<char>,
    walk_dir: Seq<char>,
    profile: Seq<char>,
    data_dir: Seq<char>,
    name: Seq<char>,
    kind: EntryKind,
    target_exists: bool,
    overwrite: bool,
)
    requires
        spec_copy_entry(copy_to, walk_dir, profile, data_dir, name, kind, target_exists, overwrite, true) is Some,
    ensures
        ({
            let steps = spec_copy_entry(copy_to, walk_dir, profile, data_dir, name, kind, target_exists, overwrite, true)->0;
            forall|i: int| 0 <= i < steps.len() ==> !(#[trigger] steps[i] is CopyFile)
        }),
{
    let steps = spec_copy_entry(copy_to, walk_dir, profile, data_dir, name, kind, target_exists, overwrite, true)->0;
    let target = spec_join(copy_to, name);
    let source = spec_join(walk_dir, name);
    assert forall|i: int| 0 <= i < steps.len() implies !(#[trigger] steps[i] is CopyFile) by {
        if kind == EntryKind::File && target_exists && overwrite {
            let b = spec_backup_path(data_dir, profile, target)->0;
            let head = seq![CopyStep::Backup { from: target, to: b }, CopyStep::AppendLog(spec_log_line(target))];
            let tail = spec_place(source, target, true);
            assert(steps == head + tail);
            if i >= 2 {
                assert(steps[i] == tail[i - 2]);
            }
        }
    }
}

/// What is done with an entry while links are swept out of the game
/// directory: directories are swept in turn, links are removed, anything
/// else stays.
pub fn sweep_action(kind: EntryKind) -> (r: SweepAction)
    ensures
        r == (match kind {
            EntryKind::Directory => SweepAction::Descend,
            EntryKind::Symlink => SweepAction::Remove,
            _ => SweepAction::Keep,
        }),
{
    match kind {
        EntryKind::Directory => SweepAction::Descend,
        EntryKind::Symlink => SweepAction::Remove,
        _ => SweepAction::Keep,
    }
}

} // verus!
