use oxide_manager::{
    backup_path_at, copy_source_dir_at, plan_copy_entry_at, sweep_action, CopyAction, EntryKind,
    SweepAction,
};

const GAME: &str = "/games/Game";
const WALK: &str = "/d/oxide/.temp/Game//extracted/";
const PROFILE: &str = "/d/oxide/.temp/Game/";

fn s(x: &str) -> String {
    x.to_string()
}

#[test]
fn backup_locations() {
    assert_eq!(
        backup_path_at("/d", PROFILE, "/games/Game/mod.pak"),
        Some(s("/d//d/oxide/.temp/Game/bak/mod.pak"))
    );
    // Split at the first occurrence of the profile's name.
    assert_eq!(
        backup_path_at("", "/p/Ga/", "/x/Ga/Ga/f"),
        Some(s("//p/Ga/bak/Ga/f"))
    );
    assert_eq!(backup_path_at("/d", PROFILE, "/other/mod.pak"), None);
    assert_eq!(backup_path_at("/d", "/", "/games/Game/mod.pak"), None);
}

#[test]
fn source_directories() {
    assert_eq!(copy_source_dir_at(Some("/d"), PROFILE, ""), "/d/oxide/.temp/Game//extracted/");
    assert_eq!(
        copy_source_dir_at(Some("/d"), PROFILE, "/d/oxide/.temp/Game//extracted/sub"),
        "/d/oxide/.temp/Game//extracted/sub"
    );
    assert_eq!(copy_source_dir_at(Some("/d"), "rel", "x"), "/d/rel/extracted/x");
    assert_eq!(copy_source_dir_at(None, PROFILE, ""), "");
}

#[test]
fn directory_entry() {
    let plan = plan_copy_entry_at(GAME, WALK, PROFILE, "/d", "sub", EntryKind::Directory, false, false, false);
    assert_eq!(
        plan,
        Some(vec![
            CopyAction::CreateDir(s("/games/Game/sub")),
            CopyAction::Descend {
                target: s("/games/Game/sub"),
                source: s("/d/oxide/.temp/Game//extracted/sub"),
            },
        ])
    );
}

#[test]
fn new_file_is_copied_or_linked() {
    let copied = plan_copy_entry_at(GAME, WALK, PROFILE, "/d", "m.pak", EntryKind::File, false, false, false);
    assert_eq!(
        copied,
        Some(vec![CopyAction::CopyFile {
            from: s("/d/oxide/.temp/Game//extracted/m.pak"),
            to: s("/games/Game/m.pak"),
        }])
    );
    let linked = plan_copy_entry_at(GAME, WALK, PROFILE, "/d", "m.pak", EntryKind::File, false, true, true);
    assert_eq!(
        linked,
        Some(vec![
            CopyAction::RemoveIfPresent(s("/games/Game/m.pak")),
            CopyAction::Symlink {
                original: s("/d/oxide/.temp/Game//extracted/m.pak"),
                link: s("/games/Game/m.pak"),
            },
        ])
    );
}

#[test]
fn existing_file_is_backed_up_then_replaced() {
    let plan = plan_copy_entry_at(GAME, WALK, PROFILE, "/d", "m.pak", EntryKind::File, true, true, true);
    assert_eq!(
        plan,
        Some(vec![
            CopyAction::Backup {
                from: s("/games/Game/m.pak"),
                to: s("/d//d/oxide/.temp/Game/bak/m.pak"),
            },
            CopyAction::AppendLog(s("/games/Game/m.pak\n")),
            CopyAction::RemoveIfPresent(s("/games/Game/m.pak")),
            CopyAction::Symlink {
                original: s("/d/oxide/.temp/Game//extracted/m.pak"),
                link: s("/games/Game/m.pak"),
            },
        ])
    );
}

#[test]
fn existing_file_kept_without_overwrite() {
    let plan = plan_copy_entry_at(GAME, WALK, PROFILE, "/d", "m.pak", EntryKind::File, true, false, false);
    assert_eq!(plan, Some(vec![]));
    let linked = plan_copy_entry_at(GAME, WALK, PROFILE, "/d", "m.pak", EntryKind::File, true, false, true);
    assert_eq!(linked, Some(vec![]));
    // Without overwriting, no backup location is needed.
    let elsewhere = plan_copy_entry_at("/other", WALK, PROFILE, "/d", "m.pak", EntryKind::File, true, false, false);
    assert_eq!(elsewhere, Some(vec![]));
}

#[test]
fn existing_file_with_copy() {
    let plan = plan_copy_entry_at(GAME, WALK, PROFILE, "", "m.pak", EntryKind::File, true, true, false);
    assert_eq!(
        plan,
        Some(vec![
            CopyAction::Backup {
                from: s("/games/Game/m.pak"),
                to: s("//d/oxide/.temp/Game/bak/m.pak"),
            },
            CopyAction::AppendLog(s("/games/Game/m.pak\n")),
            CopyAction::CopyFile {
                from: s("/d/oxide/.temp/Game//extracted/m.pak"),
                to: s("/games/Game/m.pak"),
            },
        ])
    );
}

#[test]
fn existing_file_without_backup_location() {
    assert_eq!(
        plan_copy_entry_at("/other", WALK, PROFILE, "/d", "m.pak", EntryKind::File, true, true, false),
        None
    );
    assert_eq!(
        plan_copy_entry_at(GAME, WALK, "/", "/d", "m.pak", EntryKind::File, true, true, false),
        None
    );
}

#[test]
fn links_and_others_are_left_alone() {
    assert_eq!(
        plan_copy_entry_at(GAME, WALK, PROFILE, "/d", "l", EntryKind::Symlink, true, true, true),
        Some(vec![])
    );
    assert_eq!(
        plan_copy_entry_at(GAME, WALK, PROFILE, "/d", "o", EntryKind::Other, false, true, true),
        Some(vec![])
    );
}

#[test]
fn sweeping_links() {
    assert_eq!(sweep_action(EntryKind::Directory), SweepAction::Descend);
    assert_eq!(sweep_action(EntryKind::Symlink), SweepAction::Remove);
    assert_eq!(sweep_action(EntryKind::File), SweepAction::Keep);
    assert_eq!(sweep_action(EntryKind::Other), SweepAction::Keep);
}

#[test]
fn copy_plan_with_found_data_dir() {
    let plan = oxide_manager::plan_copy_entry(GAME, WALK, PROFILE, "sub", EntryKind::Directory, false, false, false);
    assert_eq!(
        plan,
        Some(vec![
            CopyAction::CreateDir(s("/games/Game/sub")),
            CopyAction::Descend {
                target: s("/games/Game/sub"),
                source: s("/d/oxide/.temp/Game//extracted/sub"),
            },
        ])
    );
    let kept = oxide_manager::plan_copy_entry(GAME, WALK, PROFILE, "m.pak", EntryKind::File, true, false, false);
    assert_eq!(kept, Some(vec![]));
    let existing = oxide_manager::plan_copy_entry(GAME, WALK, PROFILE, "m.pak", EntryKind::File, true, true, false)
        .unwrap();
    assert_eq!(existing.len(), 3);
    match &existing[0] {
        CopyAction::Backup { from, to } => {
            assert_eq!(from, "/games/Game/m.pak");
            assert!(to.ends_with("/d/oxide/.temp/Game/bak/m.pak"));
        }
        other => panic!("unexpected first step {:?}", other),
    }
}
