//! The places a modding run works in: the temporary directory for a game,
//! the log of replaced files, and the leftover directory that is cleared
//! before unpacking.
use vstd::prelude::*;
use crate::environment::data_dir;
use crate::paths::{lemma_join_relative, spec_file_name, spec_join, file_name_chars, join};
use crate::text::{chars_of, string_of, concat};

verus! {

/// The temporary directory of a game, relative to the data directory:
/// "oxide/.temp/<game's file name>/", or "oxide/.temp/Unknown/" when the
/// game path has no file name.
pub open spec fn spec_temp_dir_name(game_path: Seq<char>) -> Seq<char> {
    match spec_file_name(game_path) {
        Some(n) => "oxide/.temp/"@ + n + seq!['/'],
        None => "oxide/.temp/Unknown/"@,
    }
}

/// See `spec_temp_dir_name`.
pub fn temp_dir_name(game_path: &str) -> (r: String)
    ensures
        r@ == spec_temp_dir_name(game_path@),
{
    match file_name_chars(&chars_of(game_path)) {
        Some(n) => {
            let a = concat(&chars_of("oxide/.temp/"), &n);
            string_of(&concat(&a, &vec!['/']))
        },
        None => "oxide/.temp/Unknown/".to_owned(),
    }
}

/// A found data directory is never passed over: the temporary directory
/// of a game under a found data directory `d` starts with `d` and ends with
/// "oxide/.temp/<game>/", so it is never the empty path that stands for a
/// missing data directory.
pub proof fn law_found_data_dir_holds_temp_dir(d: Seq<char>, game_path: Seq<char>)
    ensures
        spec_join(d, spec_temp_dir_name(game_path)).len() > 0,
        spec_join(d, spec_temp_dir_name(game_path)).subrange(0, d.len() as int) == d,
        spec_join(d, spec_temp_dir_name(game_path)).subrange(
            spec_join(d, spec_temp_dir_name(game_path)).len() - spec_temp_dir_name(game_path).len(),
            spec_join(d, spec_temp_dir_name(game_path)).len() as int,
        ) == spec_temp_dir_name(game_path),
{
    reveal_strlit("oxide/.temp/");
    reveal_strlit("oxide/.temp/Unknown/");
    let n = spec_temp_dir_name(game_path);
    assert(n.len() > 0 && n[0] == 'o');
    lemma_join_relative(d, n);
}

/// The absolute temporary directory of a game: its name joined onto the
/// data directory, or "" when there is no data directory.
pub fn extract_dir_at(data_dir: Option<&str>, game_path: &str) -> (r: String)
    ensures
        data_dir is None ==> r@ == Seq::<char>::empty(),
        data_dir matches Some(d) ==> r@ == spec_join(d@, spec_temp_dir_name(game_path@)),
{
    match data_dir {
        None => String::new(),
        Some(d) => {
            let name = temp_dir_name(game_path);
            join(d, name.as_str())
        },
    }
}

/// The absolute temporary directory of a game, under the user's data
/// directory as found at the time of the call.
pub fn extract_dir(game_path: &str) -> (r: String)
    ensures
        r@ == Seq::<char>::empty() || exists|d: Seq<char>| r@ == spec_join(
            d,
            spec_temp_dir_name(game_path@),
        ),
{
    let found = data_dir();
    match found {
        Some(d) => extract_dir_at(Some(d.as_str()), game_path),
        None => extract_dir_at(None, game_path),
    }
}

/// The log of replaced files kept in a temporary directory.
pub fn log_file_in(dir: &str) -> (r: String)
    ensures
        r@ == spec_join(dir@, "existing.txt"@),
{
    join(dir, "existing.txt")
}

/// The path whose existence decides which directory is cleared before
/// unpacking: the temporary directory joined onto the data directory;
/// none when there is no data directory.
pub fn stale_dir_probe_at(data_dir: Option<&str>, extract_dir: &str) -> (r: Option<String>)
    ensures
        data_dir is None ==> r is None,
        data_dir matches Some(d) ==> (r matches Some(p) && p@ == spec_join(d@, extract_dir@)),
{
    match data_dir {
        None => None,
        Some(d) => Some(join(d, extract_dir)),
    }
}

/// The probe path, under the user's data directory as found at the time
/// of the call.
pub fn stale_dir_probe(extract_dir: &str) -> (r: Option<String>)
    ensures
        r matches Some(p) ==> exists|d: Seq<char>| p@ == spec_join(d, extract_dir@),
{
    let found = data_dir();
    match found {
        Some(d) => stale_dir_probe_at(Some(d.as_str()), extract_dir),
        None => stale_dir_probe_at(None, extract_dir),
    }
}

/// The directory removed before unpacking: the temporary directory when
/// the probe path was checked and found missing, else "" (whose removal
/// fails and is ignored).
pub fn stale_dir_to_remove(probe_exists: Option<bool>, extract_dir: &str) -> (r: String)
    ensures
        probe_exists == Some(false) ==> r@ == extract_dir@,
        probe_exists != Some(false) ==> r@ == Seq::<char>::empty(),
{
    match probe_exists {
        Some(false) => extract_dir.to_owned(),
        _ => String::new(),
    }
}

} // verus!
