//! The log of replaced files and the plan that puts the backed-up files
//! back: the log's first line names the game directory, every further
//! line a file that was moved aside.
use vstd::prelude::*;
use crate::paths::{spec_file_name, file_name_chars};
use crate::text::{
    spec_lines, spec_split_once, split_on, strip_cr, views, chars_of, string_of, concat, lines_of,
    split_once,
};
use crate::transfer::{spec_backup_path, spec_log_line, bak_word, spec_copy_entry, CopyStep, EntryKind};
use crate::paths::spec_join;

verus! {

/// A file that is put back: moved from `from` (its backup) to `to`.
#[derive(PartialEq, Eq, Debug)]
pub struct Rename {
    pub from: String,
    pub to: String,
}

/// What restoring a profile does: the backups that are moved back, in log
/// order, and the game directory whose links are then swept out.
#[derive(PartialEq, Eq, Debug)]
pub struct RestorePlan {
    pub renames: Vec<Rename>,
    pub game_dir: Option<String>,
}

/// The text of a log made of these lines, each ended by a newline.
pub open spec fn spec_log_text(lines: Seq<Seq<char>>) -> Seq<char>
    decreases lines.len(),
{
    if lines.len() == 0 {
        Seq::empty()
    } else {
        spec_log_text(lines.drop_last()) + spec_log_line(lines.last())
    }
}

/// The backup of a logged file and where it goes back to: the backup is
/// "<profile>bak<rest>", <rest> being what follows the first occurrence of
/// the profile's file name `name` in the logged path. Lines that do not
/// contain the name are passed over.
pub open spec fn spec_restore_pair(line: Seq<char>, name: Seq<char>, profile: Seq<char>) -> Option<
    (Seq<char>, Seq<char>),
> {
    match spec_split_once(line, name) {
        Some((_, rest)) => Some((profile + bak_word() + rest, line)),
        None => None,
    }
}

pub open spec fn spec_renames(lines: Seq<Seq<char>>, name: Seq<char>, profile: Seq<char>) -> Seq<
    (Seq<char>, Seq<char>),
> {
    lines.filter_map(|l: Seq<char>| spec_restore_pair(l, name, profile))
}

/// Restoring with the log text `content` for the profile directory
/// `profile`: `None` when the profile has no file name; otherwise the
/// renames for every line after the first, and the first line as the game
/// directory.
pub open spec fn spec_restore_plan(content: Seq<char>, profile: Seq<char>) -> Option<
    (Seq<(Seq<char>, Seq<char>)>, Option<Seq<char>>),
> {
    match spec_file_name(profile) {
        None => None,
        Some(name) => {
            let ls = spec_lines(content);
            if ls.len() == 0 {
                Some((Seq::empty(), None))
            } else {
                Some((spec_renames(ls.drop_first(), name, profile), Some(ls[0])))
            }
        },
    }
}

pub open spec fn rename_views(v: Seq<Rename>) -> Seq<(Seq<char>, Seq<char>)> {
    v.map_values(|r: Rename| (r.from@, r.to@))
}

pub open spec fn plan_view(p: RestorePlan) -> (Seq<(Seq<char>, Seq<char>)>, Option<Seq<char>>) {
    (
        rename_views(p.renames@),
        match p.game_dir {
            Some(g) => Some(g@),
            None => None,
        },
    )
}

/// A path that fits on one line of the log and reads back unchanged: no
/// newline in it, and no carriage return at its end.
pub open spec fn is_loggable(l: Seq<char>) -> bool {
    &&& forall|j: int| 0 <= j < l.len() ==> l[j] != '\n'
    &&& !(l.len() > 0 && l.last() == '\r')
}

/// The first line of the log: the game directory.
pub fn log_header(game_path: &str) -> (r: String)
    ensures
        r@ == spec_log_line(game_path@),
{
    let newline = vec!['\n'];
    string_of(&concat(&chars_of(game_path), &newline))
}

proof fn lemma_filter_map_push(
    s: Seq<Seq<char>>,
    x: Seq<char>,
    f: spec_fn(Seq<char>) -> Option<(Seq<char>, Seq<char>)>,
)
    ensures
        s.push(x).filter_map(f) == (match f(x) {
            Some(y) => s.filter_map(f) + seq![y],
            None => s.filter_map(f),
        }),
{
    assert(s.push(x).drop_last() =~= s);
}

/// The plan for restoring a profile from its log (see `spec_restore_plan`).
pub fn plan_restore(content: &str, profile: &str) -> (r: Option<RestorePlan>)
    ensures
        r is Some == spec_restore_plan(content@, profile@) is Some,
        r matches Some(p) ==> spec_restore_plan(content@, profile@) == Some(plan_view(p)),
{
    let name = match file_name_chars(&chars_of(profile)) {
        Some(n) => n,
        None => return None,
    };
    let ls = lines_of(&chars_of(content));
    let ghost lv = views(ls@);
    if ls.len() == 0 {
        let renames: Vec<Rename> = Vec::new();
        assert(rename_views(renames@) =~= Seq::<(Seq<char>, Seq<char>)>::empty());
        return Some(RestorePlan { renames, game_dir: None });
    }
    let p = chars_of(profile);
    let bak = vec!['b', 'a', 'k'];
    let ghost f = |l: Seq<char>| spec_restore_pair(l, name@, profile@);
    let mut renames: Vec<Rename> = Vec::new();
    let mut i: usize = 1;
    proof {
        assert(lv.subrange(1, 1) =~= Seq::<Seq<char>>::empty());
    }
    while i < ls.len()
        invariant
            1 <= i <= ls.len(),
            lv == views(ls@),
            lv == spec_lines(content@),
            p@ == profile@,
            bak@ == bak_word(),
            f == (|l: Seq<char>| spec_restore_pair(l, name@, profile@)),
            rename_views(renames@) == lv.subrange(1, i as int).filter_map(f),
        decreases ls.len() - i,
    {
        let ghost before = rename_views(renames@);
        let line = &ls[i];
        assert(line@ == lv[i as int]);
        proof {
            assert(lv.subrange(1, i + 1) =~= lv.subrange(1, i as int).push(lv[i as int]));
            lemma_filter_map_push(lv.subrange(1, i as int), lv[i as int], f);
        }
        match split_once(line, &name) {
            Some((_, rest)) => {
                let from = concat(&concat(&p, &bak), &rest);
                renames.push(Rename { from: string_of(&from), to: string_of(line) });
                assert(rename_views(renames@) =~= before + seq![(from@, line@)]);
            },
            None => {
                assert(rename_views(renames@) =~= before);
            },
        }
        i = i + 1;
    }
    proof {
        assert(lv.subrange(1, lv.len() as int) =~= lv.drop_first());
    }
    Some(RestorePlan { renames, game_dir: Some(string_of(&ls[0])) })
}

proof fn lemma_split_append(t: Seq<char>, w: Seq<char>, sep: char)
    requires
        forall|j: int| 0 <= j < w.len() ==> w[j] != sep,
    ensures
        split_on(t + w, sep) == ({
            let p = split_on(t, sep);
            p.update(p.len() - 1, p.last() + w)
        }),
    decreases w.len(),
{
    crate::text::lemma_split_on_nonempty(t, sep);
    let p = split_on(t, sep);
    if w.len() == 0 {
        assert(t + w =~= t);
        assert(p.last() + w =~= p.last());
        assert(p.update(p.len() - 1, p.last() + w) =~= p);
    } else {
        let w2 = w.drop_last();
        lemma_split_append(t, w2, sep);
        assert((t + w).drop_last() =~= t + w2);
        assert((t + w).last() == w.last());
        let q = p.update(p.len() - 1, p.last() + w2);
        assert((p.last() + w2).push(w.last()) =~= p.last() + w);
        assert(q.update(q.len() - 1, q.last().push(w.last())) =~= p.update(
            p.len() - 1,
            p.last() + w,
        ));
    }
}

proof fn lemma_split_log(ls: Seq<Seq<char>>)
    requires
        forall|i: int| 0 <= i < ls.len() ==> #[trigger] is_loggable(ls[i]),
    ensures
        split_on(spec_log_text(ls), '\n') == ls.push(Seq::empty()),
    decreases ls.len(),
{
    if ls.len() == 0 {
        assert(split_on(Seq::<char>::empty(), '\n') =~= seq![Seq::<char>::empty()]);
    } else {
        let pre = ls.drop_last();
        assert forall|i: int| 0 <= i < pre.len() implies #[trigger] is_loggable(pre[i]) by {
            assert(pre[i] == ls[i]);
        }
        lemma_split_log(pre);
        let l = ls.last();
        assert(is_loggable(ls[ls.len() - 1]));
        let t = spec_log_text(pre);
        lemma_split_append(t, l, '\n');
        let tl = t + l;
        assert(spec_log_text(ls) =~= tl.push('\n'));
        assert(tl.push('\n').drop_last() =~= tl);
        assert(pre.push(Seq::empty()).update(pre.len() as int, Seq::<char>::empty() + l) =~= ls);
    }
}

/// Reading a log back line by line gives exactly the lines it was written
/// from, as long as none of them holds a newline or ends in a carriage
/// return.
pub proof fn law_log_reads_back(ls: Seq<Seq<char>>)
    requires
        forall|i: int| 0 <= i < ls.len() ==> #[trigger] is_loggable(ls[i]),
    ensures
        spec_lines(spec_log_text(ls)) == ls,
{
    lemma_split_log(ls);
    let parts = ls.push(Seq::<char>::empty());
    assert(parts.take(ls.len() as int) =~= ls);
    assert forall|i: int| 0 <= i < ls.len() implies strip_cr(#[trigger] ls[i]) == ls[i] by {
        assert(is_loggable(ls[i]));
    }
    assert(ls.map_values(|l: Seq<char>| strip_cr(l)) =~= ls);
}

/// Restore does not look for a backup where it was written: both places
/// are found by splitting the file's path at the first occurrence of the
/// profile's file name, but the backup is written under the data directory
/// ("<data dir>/<profile>bak<rest>") while restore moves the file back from
/// "<profile>bak<rest>", without that prefix. The place restore moves it
/// back to is the path that was replaced.
pub proof fn law_restore_source_lacks_data_dir(data_dir: Seq<char>, profile: Seq<char>, path: Seq<char>)
    ensures
        spec_backup_path(data_dir, profile, path) == (match spec_file_name(profile) {
            None => None,
            Some(name) => match spec_restore_pair(path, name, profile) {
                Some((from, to)) => Some(data_dir + seq!['/'] + from),
                None => None,
            },
        }),
        spec_file_name(profile) matches Some(name) ==> (spec_restore_pair(path, name, profile) matches Some(
            (_, to),
        ) ==> to == path),
{
    if let Some(name) = spec_file_name(profile) {
        if let Some((_, rest)) = spec_split_once(path, name) {
            assert(data_dir + seq!['/'] + profile + bak_word() + rest =~= data_dir + seq!['/'] + (
            profile + bak_word() + rest));
        }
    }
}

/// Restoring from the log written while copying (the game directory, then
/// each replaced file) moves back, in order, every logged file whose path
/// contains the profile's file name, and sweeps the game directory.
pub proof fn law_restore_reads_copy_log(game: Seq<char>, replaced: Seq<Seq<char>>, profile: Seq<char>)
    requires
        spec_file_name(profile) is Some,
        is_loggable(game),
        forall|i: int| 0 <= i < replaced.len() ==> #[trigger] is_loggable(replaced[i]),
    ensures
        spec_restore_plan(spec_log_text(seq![game] + replaced), profile) == Some(
            (spec_renames(replaced, spec_file_name(profile)->0, profile), Some(game)),
        ),
{
    let ls = seq![game] + replaced;
    assert forall|i: int| 0 <= i < ls.len() implies #[trigger] is_loggable(ls[i]) by {
        if i > 0 {
            assert(ls[i] == replaced[i - 1]);
        }
    }
    law_log_reads_back(ls);
    assert(ls.drop_first() =~= replaced);
}

/// What restoring does with a file replaced while copying (overwriting
/// on): the plan for it backs it up and logs its path; restoring from the
/// log written for the game directory and that file plans one rename back
/// to that path, from the backup location with the data-directory prefix
/// left out, so it does not read the backup that was written.
pub proof fn law_replaced_file_restore_source(
    copy_to: Seq<char>,
    walk_dir: Seq<char>,
    profile: Seq<char>,
    data_dir: Seq<char>,
    name: Seq<char>,
    symlink: bool,
    game: Seq<char>,
)
    requires
        spec_copy_entry(copy_to, walk_dir, profile, data_dir, name, EntryKind::File, true, true, symlink) is Some,
        is_loggable(game),
        is_loggable(spec_join(copy_to, name)),
    ensures
        ({
            let target = spec_join(copy_to, name);
            let steps = spec_copy_entry(copy_to, walk_dir, profile, data_dir, name, EntryKind::File, true, true, symlink)->0;
            &&& steps[0] matches CopyStep::Backup { from, to } && from == target
            &&& steps[1] == CopyStep::AppendLog(spec_log_line(target))
            &&& spec_restore_plan(spec_log_text(seq![game, target]), profile) matches Some((renames, g))
            &&& g == Some(game)
            &&& renames.len() == 1
            &&& renames[0].1 == target
            &&& steps[0]->Backup_to == data_dir + seq!['/'] + renames[0].0
        }),
{
    let target = spec_join(copy_to, name);
    let n = spec_file_name(profile)->0;
    law_restore_source_lacks_data_dir(data_dir, profile, target);
    law_restore_reads_copy_log(game, seq![target], profile);
    assert(seq![game] + seq![target] =~= seq![game, target]);
    let f = |l: Seq<char>| spec_restore_pair(l, n, profile);
    assert(seq![target].drop_last() =~= Seq::<Seq<char>>::empty());
    assert(spec_renames(seq![target], n, profile) == seq![target].filter_map(f));
    assert(spec_backup_path(data_dir, profile, target) is Some);
    assert(f(target) is Some);
    assert(Seq::<Seq<char>>::empty().filter_map(f) =~= Seq::<(Seq<char>, Seq<char>)>::empty());
    assert(seq![target].last() == target);
    assert(seq![target].filter_map(f) =~= seq![f(target)->0]);
}

} // verus!
