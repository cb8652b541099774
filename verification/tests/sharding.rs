//! The name-sharding scheme: section and subsection derivation and
//! location computation, with no directory access.

use vmatrix::paths::RepoPath;
use vmatrix::{CrateDir, CrateDirError};

fn dir() -> CrateDir {
    CrateDir::new(&RepoPath::from_segment("root"), "crates-")
}

fn segs(p: &RepoPath) -> Vec<String> {
    p.segments().clone()
}

#[test]
fn section_is_first_character() {
    let d = dir();
    assert_eq!(d.crate_first("serde").unwrap(), "s");
    assert_eq!(d.crate_first("a").unwrap(), "a");
}

#[test]
fn section_name_carries_prefix() {
    let d = dir();
    assert_eq!(d.section_name("serde").unwrap(), "crates-s");
}

#[test]
fn subsection_is_first_one_or_two_characters() {
    let d = dir();
    assert_eq!(d.subsection_name("a").unwrap(), "a");
    assert_eq!(d.subsection_name("ab").unwrap(), "ab");
    assert_eq!(d.subsection_name("abc").unwrap(), "ab");
    assert_eq!(d.subsection_name("serde").unwrap(), "se");
}

#[test]
fn subsection_is_a_prefix_of_the_name() {
    let d = dir();
    for name in ["a", "ab", "abc", "serde", "tokio-util", "x11"] {
        let section = d.crate_first(name).unwrap();
        let subsection = d.subsection_name(name).unwrap();
        assert_eq!(section.chars().count(), 1);
        assert!(subsection.chars().count() == 1 || subsection.chars().count() == 2);
        assert!(name.starts_with(&subsection));
        assert!(name.starts_with(&section));
    }
}

#[test]
fn location_is_root_prefix_section_subsection_name() {
    let d = dir();
    let p = d.abs_path_to("serde").unwrap();
    assert_eq!(segs(&p), vec!["root", "crates-s", "se", "serde"]);
    let q = d.abs_path_to_file("serde", "results.json").unwrap();
    assert_eq!(segs(&q), vec!["root", "crates-s", "se", "serde", "results.json"]);
}

#[test]
fn relative_path_omits_the_root() {
    let d = dir();
    let p = d.path_to("x").unwrap();
    assert_eq!(segs(&p), vec!["crates-x", "x", "x"]);
    let q = d.path_to_file("x", "index.html").unwrap();
    assert_eq!(segs(&q), vec!["crates-x", "x", "x", "index.html"]);
}

#[test]
fn empty_name_is_rejected_everywhere() {
    let d = dir();
    assert!(matches!(d.crate_first(""), Err(CrateDirError::BadCrateName(n)) if n.is_empty()));
    assert!(matches!(d.section_name(""), Err(CrateDirError::BadCrateName(_))));
    assert!(matches!(d.subsection_name(""), Err(CrateDirError::BadCrateName(_))));
    assert!(matches!(d.path_to(""), Err(CrateDirError::BadCrateName(_))));
    assert!(matches!(d.abs_path_to(""), Err(CrateDirError::BadCrateName(_))));
    assert!(matches!(d.abs_path_to_file("", "results.json"), Err(CrateDirError::BadCrateName(_))));
}

#[test]
fn multibyte_names_shard_by_characters() {
    let d = dir();
    assert_eq!(d.subsection_name("\u{e9}clair").unwrap(), "\u{e9}c");
    assert_eq!(d.section_name("\u{e9}clair").unwrap(), "crates-\u{e9}");
}

#[test]
fn path_join_appends_segments() {
    let p = RepoPath::empty().join("a").join("b");
    assert_eq!(segs(&p), vec!["a", "b"]);
    let q = p.concat(&RepoPath::from_segment("c"));
    assert_eq!(segs(&q), vec!["a", "b", "c"]);
    assert_eq!(q.len(), 3);
}
