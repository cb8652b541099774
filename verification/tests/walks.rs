//! Depth-first walks of a whole repository tree, driven against
//! in-memory listings, and name collection over their items.

use vmatrix::paths::RepoPath;
use vmatrix::stream::Step;
use vmatrix::walk::CrateWalk;
use vmatrix::{CrateDir, CrateDirError, EntryName, IoErrorKind, StatsRepoError};
use vmatrix::config::{Config, StatsRepoConfig};
use vmatrix::StatsRepo;

type Tree<'a> = Vec<(&'a str, Result<Vec<&'a str>, IoErrorKind>)>;

fn listing_for(tree: &Tree, path: &RepoPath) -> Result<Vec<EntryName>, IoErrorKind> {
    let key = path.segments().join("/");
    for (p, listing) in tree {
        if *p == key {
            return match listing {
                Ok(entries) => Ok(
                    entries.iter().map(|e| EntryName::Unicode(e.to_string())).collect(),
                ),
                Err(k) => Err(*k),
            };
        }
    }
    Err(IoErrorKind::NotFound)
}

fn drive(walk: &mut CrateWalk, tree: &Tree) -> Vec<Result<String, CrateDirError>> {
    let mut items = Vec::new();
    loop {
        match walk.next() {
            Step::NeedListing(p) => {
                assert!(walk.wants_listing());
                walk.provide_listing(listing_for(tree, &p));
            },
            Step::Item(x) => items.push(x),
            Step::End => return items,
        }
    }
}

fn repo() -> StatsRepo {
    StatsRepo::from_config(
        Config { stats_repo: StatsRepoConfig { root: RepoPath::from_segment("root") }, targets: None },
    )
}

#[test]
fn full_tree_walk_finds_every_crate_and_reports_the_rogue_file() {
    let tree: Tree = vec![
        ("root", Ok(vec!["crates-a", "crates-b", "README"])),
        ("root/crates-a", Ok(vec!["ab"])),
        ("root/crates-a/ab", Ok(vec!["abc"])),
        ("root/crates-b", Ok(vec!["bc"])),
        ("root/crates-b/bc", Ok(vec!["bcc"])),
    ];
    let mut walk = CrateDir::new(&RepoPath::from_segment("root"), "crates-").crate_ids();
    let items = drive(&mut walk, &tree);
    assert_eq!(items.len(), 3);
    assert!(matches!(&items[0], Ok(n) if n == "abc"));
    assert!(matches!(&items[1], Ok(n) if n == "bcc"));
    assert!(matches!(&items[2], Err(CrateDirError::NonSection(EntryName::Unicode(n), _, _)) if n == "README"));
}

#[test]
fn crate_names_drops_the_rogue_file_and_sorts() {
    let tree: Tree = vec![
        ("root", Ok(vec!["crates-b", "README", "crates-a"])),
        ("root/crates-a", Ok(vec!["ab"])),
        ("root/crates-a/ab", Ok(vec!["abc"])),
        ("root/crates-b", Ok(vec!["bc"])),
        ("root/crates-b/bc", Ok(vec!["bcc"])),
    ];
    let r = repo();
    let mut walk = r.crate_names_iterator();
    let items = drive(&mut walk, &tree);
    let names = r.crate_names(items).unwrap();
    assert_eq!(names, vec!["abc", "bcc"]);
}

#[test]
fn misfiled_crate_is_a_bad_crate_error_and_never_a_name() {
    let tree: Tree = vec![
        ("root", Ok(vec!["crates-a"])),
        ("root/crates-a", Ok(vec!["ab"])),
        ("root/crates-a/ab", Ok(vec!["abb", "acc"])),
    ];
    let r = repo();
    let mut walk = r.crate_names_iterator();
    let items = drive(&mut walk, &tree);
    assert!(matches!(&items[0], Ok(n) if n == "abb"));
    assert!(
        matches!(&items[1], Err(CrateDirError::BadCrate(EntryName::Unicode(n), p, _)) if n == "acc" && p == "ab")
    );
    match r.crate_names(items) {
        Err(StatsRepoError::CrateDirError(CrateDirError::BadCrate(EntryName::Unicode(n), _, _))) => {
            assert_eq!(n, "acc");
        },
        other => panic!("expected the misfiled crate to abort collection, got {:?}", other),
    }
}

#[test]
fn unreadable_section_stops_only_that_branch() {
    let tree: Tree = vec![
        ("root", Ok(vec!["crates-a", "crates-b"])),
        ("root/crates-a", Err(IoErrorKind::PermissionDenied)),
        ("root/crates-b", Ok(vec!["bc"])),
        ("root/crates-b/bc", Ok(vec!["bcc"])),
    ];
    let mut walk = CrateDir::new(&RepoPath::from_segment("root"), "crates-").crate_ids();
    let items = drive(&mut walk, &tree);
    assert_eq!(items.len(), 2);
    assert!(matches!(&items[0], Err(CrateDirError::IoError(IoErrorKind::PermissionDenied))));
    assert!(matches!(&items[1], Ok(n) if n == "bcc"));
}

#[test]
fn subsection_walk_lists_every_subsection() {
    let tree: Tree = vec![
        ("root", Ok(vec!["crates-a"])),
        ("root/crates-a", Ok(vec!["a", "ab"])),
    ];
    let mut walk = CrateDir::new(&RepoPath::from_segment("root"), "crates-").subsection_ids();
    let mut ids = Vec::new();
    loop {
        match walk.next() {
            Step::NeedListing(p) => walk.provide_listing(listing_for(&tree, &p)),
            Step::Item(x) => ids.push(x),
            Step::End => break,
        }
    }
    assert_eq!(ids.len(), 2);
    assert!(matches!(&ids[0], Ok(n) if n == "a"));
    assert!(matches!(&ids[1], Ok(n) if n == "ab"));
}

#[test]
fn section_names_walk_keeps_the_prefix() {
    let tree: Tree = vec![("root", Ok(vec!["crates-a", "crates-b"]))];
    let d = CrateDir::new(&RepoPath::from_segment("root"), "crates-");
    let mut it = d.section_names();
    let mut out = Vec::new();
    loop {
        match it.next() {
            Step::NeedListing(p) => it.provide_listing(listing_for(&tree, &p)),
            Step::Item(x) => out.push(x.unwrap()),
            Step::End => break,
        }
    }
    assert_eq!(out, vec!["crates-a", "crates-b"]);

    let mut ids = d.section_ids();
    let mut out_ids = Vec::new();
    loop {
        match ids.next() {
            Step::NeedListing(p) => ids.provide_listing(listing_for(&tree, &p)),
            Step::Item(x) => out_ids.push(x.unwrap()),
            Step::End => break,
        }
    }
    assert_eq!(out_ids, vec!["a", "b"]);
}
