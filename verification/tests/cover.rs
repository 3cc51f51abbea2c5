use oxide_manager::{
    check_status, cover_after_download, cover_choice, cover_from_download, search_results, select_game, select_image,
    CoverChoice, DownloadError, GameHit,
};

#[test]
fn cover_choices() {
    assert_eq!(cover_choice("c.png", true, true), CoverChoice::IniImage);
    assert_eq!(cover_choice("c.png", false, true), CoverChoice::CachedImage);
    assert_eq!(cover_choice("c.png", false, false), CoverChoice::Download);
    assert_eq!(cover_choice("", false, false), CoverChoice::Fallback);
    assert_eq!(cover_after_download(true), CoverChoice::CachedImage);
    assert_eq!(cover_after_download(false), CoverChoice::Fallback);
}

#[test]
fn game_selection() {
    assert_eq!(select_game(&vec![], "Game"), Err(DownloadError::NoGamesFound));
    let hits = vec![
        GameHit { id: 7, name: "Game".to_string() },
        GameHit { id: 8, name: "Other".to_string() },
    ];
    assert_eq!(select_game(&hits, "Game"), Ok(7));
    assert_eq!(
        select_game(&hits, "Other"),
        Err(DownloadError::GameNotFound("Other".to_string()))
    );
}

#[test]
fn image_selection() {
    assert_eq!(select_image(&vec![]), Err(DownloadError::NoImagesFound));
    let urls = vec!["https://a/1.png".to_string(), "https://a/2.png".to_string()];
    assert_eq!(select_image(&urls), Ok("https://a/1.png".to_string()));
}

#[test]
fn status_codes() {
    assert_eq!(check_status(200), Ok(()));
    assert_eq!(check_status(299), Ok(()));
    assert_eq!(check_status(199), Err(DownloadError::BadStatus(199)));
    assert_eq!(check_status(300), Err(DownloadError::BadStatus(300)));
    assert_eq!(check_status(404), Err(DownloadError::BadStatus(404)));
}

#[test]
fn search_names() {
    assert_eq!(search_results(vec![]), Err(DownloadError::NoGamesFound));
    let names = vec!["A".to_string(), "B".to_string()];
    assert_eq!(search_results(names.clone()), Ok(names));
}

#[test]
fn cover_from_answer() {
    assert!(matches!(cover_from_download(404, b"x"), Err(DownloadError::BadStatus(404))));
    assert!(matches!(cover_from_download(200, b"not an image"), Err(DownloadError::NotAnImage)));
    let pixels = image::RgbImage::from_fn(2, 3, |x, y| image::Rgb([(x * 100) as u8, (y * 50) as u8, 7]));
    let img = image::DynamicImage::ImageRgb8(pixels.clone());
    let mut png = std::io::Cursor::new(Vec::new());
    img.write_to(&mut png, image::ImageFormat::Png).unwrap();
    let decoded = cover_from_download(200, png.get_ref()).unwrap();
    assert_eq!((decoded.width(), decoded.height()), (2, 3));
    assert_eq!(decoded.to_rgb8(), pixels);
    assert_eq!(decoded, image::load_from_memory(png.get_ref()).unwrap());
    assert!(matches!(cover_from_download(500, png.get_ref()), Err(DownloadError::BadStatus(500))));
}
