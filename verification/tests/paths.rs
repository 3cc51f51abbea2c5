use oxide_manager::{extension, file_name, join};
use std::path::Path;

const SAMPLES: [&str; 16] = [
    "", "/", ".", "..", "a", "a/b", "a/b/", "a/b/.", "a/..", "./a", ".hidden", "a//b//",
    "/games/Game", "dir/x.tar.gz", "x.", "a.b/c",
];

#[test]
fn join_examples() {
    assert_eq!(join("a", "b"), "a/b");
    assert_eq!(join("a/", "b"), "a/b");
    assert_eq!(join("", "b"), "b");
    assert_eq!(join("a", "/b"), "/b");
    assert_eq!(join("a", ""), "a/");
    assert_eq!(join("/d", "oxide/profiles"), "/d/oxide/profiles");
}

#[test]
fn join_agrees_with_std() {
    for base in SAMPLES.iter() {
        for p in SAMPLES.iter() {
            let expected = Path::new(base).join(p).to_string_lossy().into_owned();
            assert_eq!(join(base, p), expected, "join({:?}, {:?})", base, p);
        }
    }
}

#[test]
fn file_name_examples() {
    assert_eq!(file_name("a/b"), Some("b".to_string()));
    assert_eq!(file_name("a/b/"), Some("b".to_string()));
    assert_eq!(file_name("a/b/."), Some("b".to_string()));
    assert_eq!(file_name("a/.."), None);
    assert_eq!(file_name("/"), None);
    assert_eq!(file_name(""), None);
    assert_eq!(file_name("."), None);
    assert_eq!(file_name("./a"), Some("a".to_string()));
    assert_eq!(file_name("/games/Game"), Some("Game".to_string()));
}

#[test]
fn file_name_agrees_with_std() {
    for s in SAMPLES.iter() {
        let expected = Path::new(s).file_name().map(|n| n.to_string_lossy().into_owned());
        assert_eq!(file_name(s), expected, "file_name({:?})", s);
    }
}

#[test]
fn extension_examples() {
    assert_eq!(extension("x.zip"), Some("zip".to_string()));
    assert_eq!(extension("dir/x.tar.gz"), Some("gz".to_string()));
    assert_eq!(extension(".zip"), None);
    assert_eq!(extension("x."), Some("".to_string()));
    assert_eq!(extension("x"), None);
    assert_eq!(extension("a.b/c"), None);
    assert_eq!(extension("x.7z/"), Some("7z".to_string()));
    assert_eq!(extension("a/.."), None);
}

#[test]
fn extension_agrees_with_std() {
    let more = ["x.zip", ".zip", "x.7z/", "..x", "a/.b.c", "a.b.", "..."];
    for s in SAMPLES.iter().chain(more.iter()) {
        let expected = Path::new(s).extension().map(|n| n.to_string_lossy().into_owned());
        assert_eq!(extension(s), expected, "extension({:?})", s);
    }
}
