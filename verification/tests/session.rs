use oxide_manager::{
    extract_dir, extract_dir_at, stale_dir_probe_at, stale_dir_to_remove, sweep_action,
    temp_dir_name, EntryKind, SweepAction,
};

#[test]
fn temporary_directories() {
    assert_eq!(temp_dir_name("/games/Game"), "oxide/.temp/Game/");
    assert_eq!(temp_dir_name("/games/Game/"), "oxide/.temp/Game/");
    assert_eq!(temp_dir_name("/"), "oxide/.temp/Unknown/");
    assert_eq!(extract_dir_at(Some("/d"), "/games/Game"), "/d/oxide/.temp/Game/");
    assert_eq!(extract_dir_at(None, "/games/Game"), "");
    let found = extract_dir("/games/Game");
    assert!(found.is_empty() || found.ends_with("oxide/.temp/Game/"));
}

#[test]
fn stale_directory() {
    assert_eq!(
        stale_dir_probe_at(Some("/d"), "/d/oxide/.temp/Game/"),
        Some("/d/oxide/.temp/Game/".to_string())
    );
    assert_eq!(stale_dir_probe_at(Some("/d"), "rel/"), Some("/d/rel/".to_string()));
    assert_eq!(stale_dir_probe_at(None, "rel/"), None);
    assert_eq!(stale_dir_to_remove(Some(false), "/x/"), "/x/");
    assert_eq!(stale_dir_to_remove(Some(true), "/x/"), "");
    assert_eq!(stale_dir_to_remove(None, "/x/"), "");
}

#[test]
fn sweep_keeps_files() {
    assert_eq!(sweep_action(EntryKind::File), SweepAction::Keep);
}
