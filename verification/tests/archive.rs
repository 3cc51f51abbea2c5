use oxide_manager::{
    extraction_target, extractor_for, is_supported_archive, plan_extraction, plan_extraction_at,
    rar_entry_action, zip_entry_action, Extractor, RarEntryAction, ZipEntryAction,
};

#[test]
fn extractors_by_extension() {
    assert_eq!(extractor_for("zip"), Extractor::Zip);
    assert_eq!(extractor_for("rar"), Extractor::Rar);
    assert_eq!(extractor_for("7z"), Extractor::SevenZ);
    assert_eq!(extractor_for("tar"), Extractor::Unsupported);
    assert_eq!(extractor_for("ZIP"), Extractor::Unsupported);
    assert_eq!(extractor_for(""), Extractor::Unsupported);
}

#[test]
fn supported_archives() {
    assert!(is_supported_archive("zip"));
    assert!(is_supported_archive("rar"));
    assert!(is_supported_archive("7z"));
    assert!(!is_supported_archive("gz"));
    assert!(!is_supported_archive("zipx"));
}

#[test]
fn target_directory() {
    assert_eq!(
        extraction_target("/home/u/.local/share", "/home/u/.local/share/oxide/.temp/Game/"),
        "/home/u/.local/share/oxide/.temp/Game//extracted/"
    );
    assert_eq!(extraction_target("/d", "rel"), "/d/rel/extracted/");
    assert_eq!(extraction_target("", "x/"), "x//extracted/");
}

#[test]
fn plan_for_zip() {
    let plan = plan_extraction_at("/mods/pack.zip", "/d/oxide/.temp/Game/", Some("/d")).unwrap();
    assert_eq!(plan.extractor, Extractor::Zip);
    assert_eq!(plan.archive, "/mods/pack.zip");
    assert_eq!(plan.target, "/d/oxide/.temp/Game//extracted/");
}

#[test]
fn plan_for_seven_zip_and_rar() {
    let p7 = plan_extraction_at("/mods/pack.7z", "t/", Some("/d")).unwrap();
    assert_eq!(p7.extractor, Extractor::SevenZ);
    assert_eq!(p7.target, "/d/t//extracted/");
    let pr = plan_extraction_at("/mods/pack.rar", "t/", Some("/d")).unwrap();
    assert_eq!(pr.extractor, Extractor::Rar);
    let pu = plan_extraction_at("/mods/pack.tar", "t/", Some("/d")).unwrap();
    assert_eq!(pu.extractor, Extractor::Unsupported);
}

#[test]
fn plan_without_extension() {
    assert_eq!(plan_extraction_at("/mods/README", "t/", Some("/d")), None);
    assert_eq!(plan_extraction_at("/mods/.zip", "t/", Some("/d")), None);
    assert_eq!(plan_extraction("/mods/README", "t/"), None);
}

#[test]
fn plan_without_data_dir() {
    let plan = plan_extraction_at("/mods/pack.zip", "t/", None).unwrap();
    assert_eq!(plan.extractor, Extractor::Zip);
    assert_eq!(plan.archive, "/mods/pack.zip");
    assert_eq!(plan.target, "/t/extracted");
    let temp = plan_extraction_at("/mods/pack.rar", "oxide/.temp/Game/", None).unwrap();
    assert_eq!(temp.target, "/oxide/.temp/Game/extracted");
    assert_eq!(plan_extraction_at("/mods/README", "t/", None), None);
}

#[test]
fn extraction_meets_copy() {
    let profile = "/d/oxide/.temp/Game/";
    let plan = plan_extraction_at("/mods/pack.zip", profile, Some("/d")).unwrap();
    assert_eq!(plan.target, oxide_manager::copy_source_dir_at(Some("/d"), profile, ""));
    assert_eq!(extraction_target("/d", "rel"), oxide_manager::copy_source_dir_at(Some("/d"), "rel", ""));
}

#[test]
fn plan_with_found_data_dir() {
    let plan = plan_extraction("/mods/pack.rar", "t/").unwrap();
    assert_eq!(plan.extractor, Extractor::Rar);
    assert!(plan.target.ends_with("/t//extracted/") || plan.target == "/t/extracted");
}

#[test]
fn zip_entries() {
    assert_eq!(
        zip_entry_action("/t", "dir/", Some("dir")),
        ZipEntryAction::CreateDir("/t/dir".to_string())
    );
    assert_eq!(
        zip_entry_action("/t", "dir/f.txt", Some("dir/f.txt")),
        ZipEntryAction::WriteFile("/t/dir/f.txt".to_string())
    );
    assert_eq!(zip_entry_action("/t", "../evil", None), ZipEntryAction::Skip);
    assert_eq!(
        zip_entry_action("/t/", "a/b.txt", Some("a/b.txt")),
        ZipEntryAction::WriteFile("/t/a/b.txt".to_string())
    );
}

#[test]
fn rar_entries() {
    assert_eq!(rar_entry_action(true), RarEntryAction::Extract);
    assert_eq!(rar_entry_action(false), RarEntryAction::Skip);
}
