//! Profiles: the INI record saved for a modded game, what is read back
//! from it, and where profile files and cover images live.
use vstd::prelude::*;
use ini::Ini;
use crate::environment::data_dir;
use crate::ini_store::{ini_sections, ini_values, ini_parse, ini_new, ini_set, ini_has_section, ini_get, ini_load};
use crate::paths::{lemma_join_relative, spec_join, join};
use crate::text::{chars_of, string_of, concat};

verus! {

/// A profile as the profile list shows it.
#[derive(PartialEq, Eq, Debug)]
pub struct ProfileRecord {
    pub title: String,
    pub cover_image: String,
    pub year: String,
    pub path_to_profile: String,
    pub temp_path: String,
    pub name: String,
}

/// The mathematical value of a `ProfileRecord`.
pub struct ProfileView {
    pub title: Seq<char>,
    pub cover_image: Seq<char>,
    pub year: Seq<char>,
    pub path_to_profile: Seq<char>,
    pub temp_path: Seq<char>,
    pub name: Seq<char>,
}

impl View for ProfileRecord {
    type V = ProfileView;

    open spec fn view(&self) -> ProfileView {
        ProfileView {
            title: self.title@,
            cover_image: self.cover_image@,
            year: self.year@,
            path_to_profile: self.path_to_profile@,
            temp_path: self.temp_path@,
            name: self.name@,
        }
    }
}

/// The value of `key` in the "profile" section of a document with these
/// values, or `default`.
pub open spec fn profile_value_in(
    values: Map<(Option<Seq<char>>, Seq<char>), Seq<char>>,
    key: Seq<char>,
    default: Seq<char>,
) -> Seq<char> {
    if values.contains_key((Some("profile"@), key)) {
        values[(Some("profile"@), key)]
    } else {
        default
    }
}

/// The value of `key` in the "profile" section, or `default`.
pub open spec fn profile_value_or(ini: Ini, key: Seq<char>, default: Seq<char>) -> Seq<char> {
    profile_value_in(ini_values(ini), key, default)
}

/// What the profile list shows for a document: nothing when it has no
/// "profile" section; otherwise each field from its key, with "Unknown"
/// standing in for a missing title, cover image, year or name, and
/// "Not found?" for a missing path.
pub open spec fn spec_profile_in(
    sections: Set<Option<Seq<char>>>,
    values: Map<(Option<Seq<char>>, Seq<char>), Seq<char>>,
) -> Option<ProfileView> {
    if sections.contains(Some("profile"@)) {
        Some(
            ProfileView {
                title: profile_value_in(values, "title"@, "Unknown"@),
                cover_image: profile_value_in(values, "cover_image"@, "Unknown"@),
                year: profile_value_in(values, "year"@, "Unknown"@),
                path_to_profile: profile_value_in(values, "path_profile"@, "Not found?"@),
                temp_path: profile_value_in(values, "temp_path"@, "Not found?"@),
                name: profile_value_in(values, "name"@, "Unknown"@),
            },
        )
    } else {
        None
    }
}

/// What the profile list shows for a document (see `spec_profile_in`).
pub open spec fn spec_read_profile(ini: Ini) -> Option<ProfileView> {
    spec_profile_in(ini_sections(ini), ini_values(ini))
}

/// What the profile list shows for a profile file's text: nothing when
/// the text does not parse as INI, else what it shows for the document.
pub open spec fn spec_read_profile_text(text: Seq<char>) -> Option<ProfileView> {
    match ini_parse(text) {
        Some((sections, values)) => spec_profile_in(sections, values),
        None => None,
    }
}

/// The sections of a saved profile document.
pub open spec fn saved_sections() -> Set<Option<Seq<char>>> {
    set![None, Some("profile"@)]
}

/// The values of a saved profile document: title, temp path and game path
/// as given, an empty cover image and an empty year.
pub open spec fn saved_values(title: Seq<char>, temp_path: Seq<char>, path_profile: Seq<char>) -> Map<
    (Option<Seq<char>>, Seq<char>),
    Seq<char>,
> {
    Map::empty().insert((Some("profile"@), "title"@), title).insert(
        (Some("profile"@), "temp_path"@),
        temp_path,
    ).insert((Some("profile"@), "path_profile"@), path_profile).insert(
        (Some("profile"@), "cover_image"@),
        ""@,
    ).insert((Some("profile"@), "year"@), ""@)
}

fn value_or(ini: &Ini, key: &str, default: &str) -> (r: String)
    ensures
        r@ == profile_value_or(*ini, key@, default@),
{
    match ini_get(ini, "profile", key) {
        Some(v) => v,
        None => default.to_owned(),
    }
}

/// The profile document saved for a game.
pub fn profile_ini(title: &str, temp_path: &str, path_profile: &str) -> (r: Ini)
    ensures
        ini_sections(r) == saved_sections(),
        ini_values(r) == saved_values(title@, temp_path@, path_profile@),
{
    let mut data = ini_new();
    ini_set(&mut data, "profile", "title", title);
    ini_set(&mut data, "profile", "temp_path", temp_path);
    ini_set(&mut data, "profile", "path_profile", path_profile);
    ini_set(&mut data, "profile", "cover_image", "");
    ini_set(&mut data, "profile", "year", "");
    assert(ini_sections(data) =~= saved_sections());
    data
}

/// What the profile list shows for a document (see `spec_read_profile`).
pub fn read_profile(ini: &Ini) -> (r: Option<ProfileRecord>)
    ensures
        r is Some == spec_read_profile(*ini) is Some,
        r matches Some(p) ==> spec_read_profile(*ini) == Some(p@),
{
    if !ini_has_section(ini, "profile") {
        return None;
    }
    Some(
        ProfileRecord {
            title: value_or(ini, "title", "Unknown"),
            cover_image: value_or(ini, "cover_image", "Unknown"),
            year: value_or(ini, "year", "Unknown"),
            path_to_profile: value_or(ini, "path_profile", "Not found?"),
            temp_path: value_or(ini, "temp_path", "Not found?"),
            name: value_or(ini, "name", "Unknown"),
        },
    )
}

/// What the profile list shows for a profile file's text (see
/// `spec_read_profile_text`).
pub fn read_profile_text(text: &str) -> (r: Option<ProfileRecord>)
    ensures
        r is Some == spec_read_profile_text(text@) is Some,
        r matches Some(p) ==> spec_read_profile_text(text@) == Some(p@),
{
    match ini_load(text) {
        Some(ini) => read_profile(&ini),
        None => None,
    }
}

/// The directory a restore request's file names, from the file's text:
/// nothing when the text does not parse as INI; otherwise its
/// "temp_path" in the "profile" section, or "".
pub fn restore_target_text(text: &str) -> (r: Option<String>)
    ensures
        r is Some == ini_parse(text@) is Some,
        r matches Some(t) ==> t@ == profile_value_in((ini_parse(text@)->0).1, "temp_path"@, ""@),
{
    match ini_load(text) {
        Some(ini) => Some(restore_target(&ini)),
        None => None,
    }
}

/// The directory a profile is restored from: its "temp_path", or "".
pub fn restore_target(ini: &Ini) -> (r: String)
    ensures
        r@ == profile_value_or(*ini, "temp_path"@, ""@),
{
    value_or(ini, "temp_path", "")
}

/// A saved profile reads back as it was saved: the given title, temp path
/// and game path, an empty cover image and year, and "Unknown" as its name;
/// and restoring it starts from the saved temp path.
pub proof fn law_saved_profile_reads_back(
    ini: Ini,
    title: Seq<char>,
    temp_path: Seq<char>,
    path_profile: Seq<char>,
)
    requires
        ini_sections(ini) == saved_sections(),
        ini_values(ini) == saved_values(title, temp_path, path_profile),
    ensures
        spec_read_profile(ini) == Some(
            ProfileView {
                title,
                cover_image: ""@,
                year: ""@,
                path_to_profile: path_profile,
                temp_path,
                name: "Unknown"@,
            },
        ),
        profile_value_or(ini, "temp_path"@, ""@) == temp_path,
{
    reveal_strlit("title");
    reveal_strlit("temp_path");
    reveal_strlit("path_profile");
    reveal_strlit("cover_image");
    reveal_strlit("year");
    reveal_strlit("name");
    reveal_strlit("profile");
    assert("title"@.len() == 5);
    assert("temp_path"@.len() == 9);
    assert("path_profile"@.len() == 12);
    assert("cover_image"@.len() == 11);
    assert("year"@.len() == 4);
    assert("name"@.len() == 4);
    assert("name"@ != "year"@) by {
        assert("name"@[0] != "year"@[0]);
    }
    assert(saved_sections().contains(Some("profile"@)));
    let m = ini_values(ini);
    assert(!m.contains_key((Some("profile"@), "name"@)));
    assert(m[(Some("profile"@), "title"@)] == title);
    assert(m[(Some("profile"@), "temp_path"@)] == temp_path);
    assert(m[(Some("profile"@), "path_profile"@)] == path_profile);
    assert(m[(Some("profile"@), "cover_image"@)] == ""@);
    assert(m[(Some("profile"@), "year"@)] == ""@);
}

/// Concatenation of two strings.
fn concat_str(a: &str, b: &str) -> (r: String)
    ensures
        r@ == a@ + b@,
{
    string_of(&concat(&chars_of(a), &chars_of(b)))
}

/// A found data directory is never passed over: under a found, non-empty
/// data directory `d`, the profiles directory and the kept cover image of
/// any title start with `d`, end with "oxide/profiles" and
/// "oxide/profiles/<title>.png", and so differ from the paths used when no
/// data directory is found (those same relative paths on their own).
pub proof fn law_found_data_dir_holds_profiles(d: Seq<char>, title: Seq<char>)
    requires
        d.len() > 0,
    ensures
        spec_join(d, "oxide/profiles"@).subrange(0, d.len() as int) == d,
        spec_join(d, "oxide/profiles"@).subrange(
            spec_join(d, "oxide/profiles"@).len() - "oxide/profiles"@.len(),
            spec_join(d, "oxide/profiles"@).len() as int,
        ) == "oxide/profiles"@,
        spec_join(d, "oxide/profiles"@) != spec_join(""@, "oxide/profiles"@),
        spec_join(d, "oxide/profiles/"@ + title + ".png"@).subrange(0, d.len() as int) == d,
        spec_join(d, "oxide/profiles/"@ + title + ".png"@).subrange(
            spec_join(d, "oxide/profiles/"@ + title + ".png"@).len() - ("oxide/profiles/"@ + title
                + ".png"@).len(),
            spec_join(d, "oxide/profiles/"@ + title + ".png"@).len() as int,
        ) == "oxide/profiles/"@ + title + ".png"@,
        spec_join(d, "oxide/profiles/"@ + title + ".png"@) != spec_join(
            ""@,
            "oxide/profiles/"@ + title + ".png"@,
        ),
{
    reveal_strlit("oxide/profiles");
    reveal_strlit("oxide/profiles/");
    reveal_strlit("");
    let a = "oxide/profiles"@;
    let b = "oxide/profiles/"@ + title + ".png"@;
    assert(a[0] == 'o');
    assert(b[0] == 'o');
    lemma_join_relative(d, a);
    lemma_join_relative(d, b);
    lemma_join_relative(""@, a);
    lemma_join_relative(""@, b);
}

/// The directory profile documents are kept in: "oxide/profiles" joined
/// onto the data directory ("" when there is none).
pub fn profiles_dir_at(data_dir: Option<&str>) -> (r: String)
    ensures
        r@ == spec_join(
            match data_dir {
                Some(d) => d@,
                None => ""@,
            },
            "oxide/profiles"@,
        ),
{
    match data_dir {
        Some(d) => join(d, "oxide/profiles"),
        None => join("", "oxide/profiles"),
    }
}

/// The directory profile documents are kept in, under the user's data
/// directory as found at the time of the call.
pub fn profiles_dir() -> (r: String)
    ensures
        exists|d: Seq<char>| r@ == spec_join(d, "oxide/profiles"@),
{
    let found = data_dir();
    match found {
        Some(d) => profiles_dir_at(Some(d.as_str())),
        None => profiles_dir_at(None),
    }
}

/// The document of the profile `title` in the profile directory `dir`:
/// "<title>.ini" joined onto it.
pub fn profile_file_in(dir: &str, title: &str) -> (r: String)
    ensures
        r@ == spec_join(dir@, title@ + ".ini"@),
{
    let file = concat_str(title, ".ini");
    join(dir, file.as_str())
}

/// The document a restore request for `name` reads: "profiles/<name>.ini",
/// relative to the working directory.
pub fn restore_request_file(name: &str) -> (r: String)
    ensures
        r@ == "profiles/"@ + name@ + ".ini"@,
{
    let a = concat_str("profiles/", name);
    concat_str(a.as_str(), ".ini")
}

/// The cover image kept for the profile `title`:
/// "oxide/profiles/<title>.png" joined onto the data directory ("" when
/// there is none).
pub fn cover_png_path_at(data_dir: Option<&str>, title: &str) -> (r: String)
    ensures
        r@ == spec_join(
            match data_dir {
                Some(d) => d@,
                None => ""@,
            },
            "oxide/profiles/"@ + title@ + ".png"@,
        ),
{
    let a = concat_str("oxide/profiles/", title);
    let rel = concat_str(a.as_str(), ".png");
    match data_dir {
        Some(d) => join(d, rel.as_str()),
        None => join("", rel.as_str()),
    }
}

/// The cover image kept for the profile `title`, under the user's data
/// directory as found at the time of the call.
pub fn cover_png_path(title: &str) -> (r: String)
    ensures
        exists|d: Seq<char>| r@ == spec_join(d, "oxide/profiles/"@ + title@ + ".png"@),
{
    let found = data_dir();
    match found {
        Some(d) => cover_png_path_at(Some(d.as_str()), title),
        None => cover_png_path_at(None, title),
    }
}

} // verus!
