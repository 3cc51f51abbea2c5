use oxide_manager::{
    backup_path_at, log_file_in, log_header, plan_copy_entry_at, plan_restore, CopyAction, EntryKind,
    Rename, RestorePlan,
};

const PROFILE: &str = "/d/oxide/.temp/Game/";

fn s(x: &str) -> String {
    x.to_string()
}

#[test]
fn header_line() {
    assert_eq!(log_header("/games/Game"), "/games/Game\n");
    assert_eq!(log_header(""), "\n");
}

#[test]
fn log_location() {
    assert_eq!(log_file_in(PROFILE), "/d/oxide/.temp/Game/existing.txt");
}

#[test]
fn restore_plan_from_log() {
    let content = "/games/Game\n/games/Game/mod.pak\n/other/x\n/games/Game/sub/t.dat\n";
    let plan = plan_restore(content, PROFILE).unwrap();
    assert_eq!(
        plan,
        RestorePlan {
            renames: vec![
                Rename { from: s("/d/oxide/.temp/Game/bak/mod.pak"), to: s("/games/Game/mod.pak") },
                Rename {
                    from: s("/d/oxide/.temp/Game/bak/sub/t.dat"),
                    to: s("/games/Game/sub/t.dat"),
                },
            ],
            game_dir: Some(s("/games/Game")),
        }
    );
}

#[test]
fn restore_plan_edge_cases() {
    assert_eq!(
        plan_restore("", PROFILE),
        Some(RestorePlan { renames: vec![], game_dir: None })
    );
    assert_eq!(
        plan_restore("/games/Game", PROFILE),
        Some(RestorePlan { renames: vec![], game_dir: Some(s("/games/Game")) })
    );
    // A profile without a file name cannot be restored.
    assert_eq!(plan_restore("/games/Game\n/games/Game/a\n", "/"), None);
    // Windows line endings read the same.
    assert_eq!(
        plan_restore("g\r\nx/Game/a\r\n", PROFILE),
        Some(RestorePlan {
            renames: vec![Rename { from: s("/d/oxide/.temp/Game/bak/a"), to: s("x/Game/a") }],
            game_dir: Some(s("g")),
        })
    );
    // A last line without a newline still counts; a lone '\r' at its end stays.
    assert_eq!(
        plan_restore("g\nx/Game/a\r", PROFILE),
        Some(RestorePlan {
            renames: vec![Rename { from: s("/d/oxide/.temp/Game/bak/a\r"), to: s("x/Game/a\r") }],
            game_dir: Some(s("g")),
        })
    );
}

#[test]
fn log_reads_back() {
    let lines = ["/games/Game", "", "/games/Game/a b", "/games/Game/c"];
    let mut content = String::new();
    for l in lines.iter() {
        content.push_str(&log_header(l));
    }
    let plan = plan_restore(&content, PROFILE).unwrap();
    assert_eq!(plan.game_dir, Some(s("/games/Game")));
    let restored: Vec<String> = plan.renames.iter().map(|r| r.to.clone()).collect();
    assert_eq!(restored, vec![s("/games/Game/a b"), s("/games/Game/c")]);
}

#[test]
fn replaced_file_restore_source_lacks_data_dir() {
    let plan = plan_copy_entry_at(
        "/games/Game",
        "/d/oxide/.temp/Game//extracted/",
        PROFILE,
        "/d",
        "mod.pak",
        EntryKind::File,
        true,
        true,
        false,
    )
    .unwrap();
    let (backup, line) = match (&plan[0], &plan[1]) {
        (CopyAction::Backup { to, .. }, CopyAction::AppendLog(l)) => (to.clone(), l.clone()),
        _ => panic!("an existing file is backed up and logged first"),
    };
    let content = format!("{}{}", log_header("/games/Game"), line);
    let restore = plan_restore(&content, PROFILE).unwrap();
    assert_eq!(restore.renames.len(), 1);
    assert_eq!(restore.renames[0].to, "/games/Game/mod.pak");
    // Restore reads the backup location without the data-directory prefix.
    assert_eq!(format!("/d/{}", restore.renames[0].from), backup);
    assert_ne!(restore.renames[0].from, backup);
    assert_eq!(
        backup_path_at("/d", PROFILE, "/games/Game/mod.pak"),
        Some(format!("/d/{}", restore.renames[0].from))
    );
}

#[test]
fn lines_agree_with_std() {
    let samples = [
        "", "\n", "a", "a\n", "a\nb", "a\r\nb\r\n", "a\r", "\r\n", "a\n\nb\n", "g\nx/Game/a\r",
        "g\r\n\r\nx/Game/b",
    ];
    for content in samples.iter() {
        let lines: Vec<&str> = content.lines().collect();
        let plan = plan_restore(content, PROFILE).unwrap();
        assert_eq!(plan.game_dir, lines.first().map(|l| l.to_string()), "{:?}", content);
        let expected: Vec<String> = lines
            .iter()
            .skip(1)
            .filter_map(|l| l.split_once("Game").map(|(_, rest)| format!("{}bak{}", PROFILE, rest)))
            .collect();
        let got: Vec<String> = plan.renames.iter().map(|r| r.from.clone()).collect();
        assert_eq!(got, expected, "{:?}", content);
    }
}
