//! The one fact the library takes from the running system: where the
//! user's data directory is.
use vstd::prelude::*;

verus! {

/// `dirs::data_dir`, with the path turned into a string as `Path::display`
/// shows it. Which directory comes back (or whether one does) depends on
/// the environment (`XDG_DATA_HOME`, `HOME`), so no clause is stated about
/// the result; every caller is verified for each value it may take.
#[verifier::external_body]
pub(crate) fn data_dir() -> (r: Option<String>) {
    match dirs::data_dir() {
        Some(p) => Some(p.display().to_string()),
        None => None,
    }
}

} // verus!
