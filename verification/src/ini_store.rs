//! The INI documents that profiles are stored in (rust-ini's `Ini`), held
//! behind a few trusted calls. A document is seen through two names: the
//! sections it has, and the value that a lookup of a key in a section
//! finds (the first value of the key in the first section of that name).
use vstd::prelude::*;
use ini::Ini;

verus! {

#[verifier::external_type_specification]
#[verifier::external_body]
pub struct DeclaredIni(Ini);

/// The sections a document has (`None` is the general section).
pub uninterp spec fn ini_sections(ini: Ini) -> Set<Option<Seq<char>>>;

/// The value `Ini::get_from` finds for a section and key.
pub uninterp spec fn ini_values(ini: Ini) -> Map<(Option<Seq<char>>, Seq<char>), Seq<char>>;

pub open spec fn general_only() -> Set<Option<Seq<char>>> {
    Set::empty().insert(None)
}

pub open spec fn no_values() -> Map<(Option<Seq<char>>, Seq<char>), Seq<char>> {
    Map::empty()
}

/// What `Ini::load_from_str` makes of a text: nothing when the text does
/// not parse; otherwise the sections and the values of the document it
/// builds (in the sense of `ini_sections` and `ini_values`).
pub uninterp spec fn ini_parse(text: Seq<char>) -> Option<
    (Set<Option<Seq<char>>>, Map<(Option<Seq<char>>, Seq<char>), Seq<char>>),
>;

/// `Ini::load_from_str`: parses a document from its text (with the
/// default options: escapes on, no inline comments). The document it gives
/// has the sections and values that `ini_parse` names; a parse error gives
/// nothing.
#[verifier::external_body]
pub(crate) fn ini_load(text: &str) -> (r: Option<Ini>)
    ensures
        r is Some == ini_parse(text@) is Some,
        r matches Some(i) ==> ini_parse(text@) == Some((ini_sections(i), ini_values(i))),
{
    Ini::load_from_str(text).ok()
}

/// `Ini::new`: a document with only the general section, which is empty
/// (its `Default` impl inserts that one section and nothing else).
#[verifier::external_body]
pub(crate) fn ini_new() -> (r: Ini)
    ensures
        ini_sections(r) == general_only(),
        ini_values(r) == no_values(),
{
    Ini::new()
}

/// `Ini::with_section(Some(section)).set(key, value)`: the section is
/// created if missing, and in its first occurrence every value of `key` is
/// replaced by `value`; nothing else changes.
#[verifier::external_body]
pub(crate) fn ini_set(ini: &mut Ini, section: &str, key: &str, value: &str)
    ensures
        ini_sections(*final(ini)) == ini_sections(*old(ini)).insert(Some(section@)),
        ini_values(*final(ini)) == ini_values(*old(ini)).insert((Some(section@), key@), value@),
{
    ini.with_section(Some(section)).set(key, value);
}

/// `Ini::section(Some(section)).is_some()`: whether the section exists.
#[verifier::external_body]
pub(crate) fn ini_has_section(ini: &Ini, section: &str) -> (r: bool)
    ensures
        r == ini_sections(*ini).contains(Some(section@)),
{
    ini.section(Some(section)).is_some()
}

/// `Ini::get_from(Some(section), key)`: the first value of `key` in the
/// first section of that name, if any.
#[verifier::external_body]
pub(crate) fn ini_get(ini: &Ini, section: &str, key: &str) -> (r: Option<String>)
    ensures
        r is Some == ini_values(*ini).contains_key((Some(section@), key@)),
        r matches Some(v) ==> v@ == ini_values(*ini)[(Some(section@), key@)],
{
    match ini.get_from(Some(section), key) {
        Some(v) => Some(v.to_string()),
        None => None,
    }
}

} // verus!
