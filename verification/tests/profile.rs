use ini::Ini;
use oxide_manager::{
    cover_png_path_at, profile_file_in, profile_ini, profiles_dir_at, read_profile,
    read_profile_text, restore_request_file, restore_target, restore_target_text, ProfileRecord,
};

fn s(x: &str) -> String {
    x.to_string()
}

#[test]
fn saved_profile_reads_back() {
    let ini = profile_ini("Game", "/d/oxide/.temp/Game/", "/games/Game");
    assert_eq!(
        read_profile(&ini),
        Some(ProfileRecord {
            title: s("Game"),
            cover_image: s(""),
            year: s(""),
            path_to_profile: s("/games/Game"),
            temp_path: s("/d/oxide/.temp/Game/"),
            name: s("Unknown"),
        })
    );
    assert_eq!(restore_target(&ini), "/d/oxide/.temp/Game/");
}

#[test]
fn saved_profile_document() {
    let ini = profile_ini("Game", "/t", "/g");
    assert_eq!(ini.get_from(Some("profile"), "title"), Some("Game"));
    assert_eq!(ini.get_from(Some("profile"), "temp_path"), Some("/t"));
    assert_eq!(ini.get_from(Some("profile"), "path_profile"), Some("/g"));
    assert_eq!(ini.get_from(Some("profile"), "cover_image"), Some(""));
    assert_eq!(ini.get_from(Some("profile"), "year"), Some(""));
    let mut bytes: Vec<u8> = Vec::new();
    ini.write_to(&mut bytes).unwrap();
    let text = String::from_utf8(bytes).unwrap();
    let reloaded = Ini::load_from_str(&text).unwrap();
    assert_eq!(read_profile(&reloaded), read_profile(&ini));
}

#[test]
fn profile_without_section() {
    let ini = Ini::new();
    assert_eq!(read_profile(&ini), None);
    assert_eq!(restore_target(&ini), "");
}

#[test]
fn profile_defaults() {
    let ini = Ini::load_from_str("[profile]\n").unwrap();
    assert_eq!(
        read_profile(&ini),
        Some(ProfileRecord {
            title: s("Unknown"),
            cover_image: s("Unknown"),
            year: s("Unknown"),
            path_to_profile: s("Not found?"),
            temp_path: s("Not found?"),
            name: s("Unknown"),
        })
    );
    assert_eq!(restore_target(&ini), "");
}

#[test]
fn profile_with_name_and_year() {
    let ini = Ini::load_from_str("[profile]\ntitle=T\nyear=1999\nname=N\ncover_image=c.png\n")
        .unwrap();
    let p = read_profile(&ini).unwrap();
    assert_eq!(p.title, "T");
    assert_eq!(p.year, "1999");
    assert_eq!(p.name, "N");
    assert_eq!(p.cover_image, "c.png");
}

#[test]
fn profile_locations() {
    assert_eq!(profiles_dir_at(Some("/d")), "/d/oxide/profiles");
    assert_eq!(profiles_dir_at(None), "oxide/profiles");
    assert_eq!(profile_file_in("/d/oxide/profiles", "Game"), "/d/oxide/profiles/Game.ini");
    assert_eq!(restore_request_file("Game"), "profiles/Game.ini");
    assert_eq!(cover_png_path_at(Some("/d"), "Game"), "/d/oxide/profiles/Game.png");
    assert_eq!(cover_png_path_at(None, "Game"), "oxide/profiles/Game.png");
}

#[test]
fn profile_from_text() {
    let text = "[profile]\ntitle=Game\ntemp_path=/t\npath_profile=/g\ncover_image=\nyear=\n";
    let p = read_profile_text(text).unwrap();
    assert_eq!(p.title, "Game");
    assert_eq!(p.temp_path, "/t");
    assert_eq!(p.year, "");
    assert_eq!(p.name, "Unknown");
    assert_eq!(restore_target_text(text), Some(s("/t")));
    assert_eq!(read_profile_text("[other]\na=b\n"), None);
    assert_eq!(restore_target_text("[other]\na=b\n"), Some(s("")));
}

#[test]
fn profile_text_that_does_not_parse() {
    assert_eq!(read_profile_text("[profile\ntitle=x\n"), None);
    assert_eq!(restore_target_text("[profile\ntitle=x\n"), None);
}

#[test]
fn saved_profile_reads_back_through_text() {
    let ini = profile_ini("Game", "/d/oxide/.temp/Game/", "/games/Game");
    let mut bytes: Vec<u8> = Vec::new();
    ini.write_to(&mut bytes).unwrap();
    let text = String::from_utf8(bytes).unwrap();
    assert_eq!(read_profile_text(&text), read_profile(&ini));
    assert_eq!(read_profile_text(&text).unwrap().temp_path, "/d/oxide/.temp/Game/");
}
