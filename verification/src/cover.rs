//! Cover images: which image a profile shows, and the choices made while
//! fetching one from SteamGridDB (which game, which image, whether the
//! download succeeded).
use vstd::prelude::*;
use crate::text::{chars_of, same_chars};
use image::DynamicImage;

verus! {

#[verifier::external_type_specification]
#[verifier::external_body]
pub struct DeclaredImage(DynamicImage);

/// What `image::load_from_memory` gives for these bytes: the decoded
/// image, or `None` where they do not decode. It is a function of the bytes
/// alone.
pub uninterp spec fn decoded_image(bytes: Seq<u8>) -> Option<DynamicImage>;

/// `image::load_from_memory`: guesses the format from the bytes and
/// decodes them (with the formats this build enables: PNG and JPEG). The
/// result is the one that `decoded_image` names for these bytes; which
/// pixels that image holds is not spelled out here.
#[verifier::external_body]
fn decode_image(bytes: &[u8]) -> (r: Option<DynamicImage>)
    ensures
        r == decoded_image(bytes@),
{
    image::load_from_memory(bytes).ok()
}

/// Which image a profile shows.
#[derive(PartialEq, Eq, Structural, Debug, Clone, Copy)]
pub enum CoverChoice {
    /// The image named in the profile document.
    IniImage,
    /// The image kept under the profile directory for this title.
    CachedImage,
    /// Fetch the image for this title, then decide again.
    Download,
    /// The bundled "not found" image.
    Fallback,
}

/// Why fetching a cover image stopped.
#[derive(PartialEq, Eq, Debug)]
pub enum DownloadError {
    /// The search found no game.
    NoGamesFound,
    /// The first game found is not the one asked for (its title is kept).
    GameNotFound(String),
    /// The game has no grid image.
    NoImagesFound,
    /// The image server answered with this non-success status code.
    BadStatus(u16),
    /// The downloaded bytes are not an image.
    NotAnImage,
}

/// A game that a search found.
#[derive(PartialEq, Eq, Debug)]
pub struct GameHit {
    pub id: usize,
    pub name: String,
}

/// The first choice for a profile's cover: the image named in the
/// document if it exists, else the kept image for the title if it exists,
/// else a download when the document names an image at all, else the
/// fallback.
pub fn cover_choice(ini_image: &str, ini_image_exists: bool, cached_exists: bool) -> (r:
    CoverChoice)
    ensures
        r == (if ini_image_exists {
            CoverChoice::IniImage
        } else if cached_exists {
            CoverChoice::CachedImage
        } else if ini_image@.len() > 0 {
            CoverChoice::Download
        } else {
            CoverChoice::Fallback
        }),
{
    if ini_image_exists {
        CoverChoice::IniImage
    } else if cached_exists {
        CoverChoice::CachedImage
    } else if ini_image.is_empty() {
        CoverChoice::Fallback
    } else {
        CoverChoice::Download
    }
}

/// The choice after a download: the kept image once it succeeded, else
/// the fallback.
pub fn cover_after_download(downloaded: bool) -> (r: CoverChoice)
    ensures
        r == (if downloaded {
            CoverChoice::CachedImage
        } else {
            CoverChoice::Fallback
        }),
{
    if downloaded {
        CoverChoice::CachedImage
    } else {
        CoverChoice::Fallback
    }
}

/// The game whose images are fetched for `title`: the first search hit,
/// which must carry exactly that title.
pub fn select_game(games: &Vec<GameHit>, title: &str) -> (r: Result<usize, DownloadError>)
    ensures
        games@.len() == 0 ==> r == Err::<usize, DownloadError>(DownloadError::NoGamesFound),
        games@.len() > 0 && games@[0].name@ == title@ ==> r == Ok::<usize, DownloadError>(
            games@[0].id,
        ),
        games@.len() > 0 && games@[0].name@ != title@ ==> (r matches Err(
            DownloadError::GameNotFound(t),
        ) && t@ == title@),
{
    if games.len() == 0 {
        return Err(DownloadError::NoGamesFound);
    }
    let first = &games[0];
    if same_chars(&chars_of(first.name.as_str()), &chars_of(title)) {
        Ok(first.id)
    } else {
        Err(DownloadError::GameNotFound(title.to_owned()))
    }
}

/// The image that is downloaded: the first one offered.
pub fn select_image(urls: &Vec<String>) -> (r: Result<String, DownloadError>)
    ensures
        urls@.len() == 0 ==> r == Err::<String, DownloadError>(DownloadError::NoImagesFound),
        urls@.len() > 0 ==> (r matches Ok(u) && u@ == urls@[0]@),
{
    if urls.len() == 0 {
        return Err(DownloadError::NoImagesFound);
    }
    Ok(urls[0].clone())
}

/// Whether the image server's answer can be used: any status from 200 to
/// 299 (`StatusCode::is_success`); anything else is an error that carries
/// the code.
pub fn check_status(code: u16) -> (r: Result<(), DownloadError>)
    ensures
        200 <= code <= 299 ==> r == Ok::<(), DownloadError>(()),
        !(200 <= code <= 299) ==> r == Err::<(), DownloadError>(DownloadError::BadStatus(code)),
{
    if 200 <= code && code <= 299 {
        Ok(())
    } else {
        Err(DownloadError::BadStatus(code))
    }
}

/// The cover made from the image server's answer: an error carrying the
/// status when it is not a success (200 to 299); otherwise the image that
/// the bytes decode to, or an error when they do not decode.
pub fn cover_from_download(status: u16, bytes: &[u8]) -> (r: Result<DynamicImage, DownloadError>)
    ensures
        !(200 <= status <= 299) ==> (r matches Err(DownloadError::BadStatus(code)) && code == status),
        200 <= status <= 299 ==> (r is Ok == decoded_image(bytes@) is Some),
        200 <= status <= 299 ==> (r matches Ok(i) ==> decoded_image(bytes@) == Some(i)),
        200 <= status <= 299 && r is Err ==> r matches Err(DownloadError::NotAnImage),
{
    match check_status(status) {
        Err(e) => Err(e),
        Ok(()) => match decode_image(bytes) {
            Some(img) => Ok(img),
            None => Err(DownloadError::NotAnImage),
        },
    }
}

/// The names a title search offers: all of them, in order, once at least
/// one game was found.
pub fn search_results(names: Vec<String>) -> (r: Result<Vec<String>, DownloadError>)
    ensures
        names@.len() == 0 ==> r == Err::<Vec<String>, DownloadError>(DownloadError::NoGamesFound),
        names@.len() > 0 ==> r == Ok::<Vec<String>, DownloadError>(names),
{
    if names.len() == 0 {
        Err(DownloadError::NoGamesFound)
    } else {
        Ok(names)
    }
}

} // verus!
