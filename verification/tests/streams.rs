//! The in-band directory stream and the per-level validators.

use vmatrix::levels::{crates_in, sections_in, subsections_in, SectionIterator, SubSectionIterator};
use vmatrix::paths::RepoPath;
use vmatrix::stream::{InBandDirIterator, Step};
use vmatrix::{CrateDirError, EntryName, IoErrorKind};

fn names(v: &[&str]) -> Vec<EntryName> {
    v.iter().map(|s| EntryName::Unicode(s.to_string())).collect()
}

#[test]
fn failed_listing_yields_exactly_one_error_then_end() {
    let mut it = InBandDirIterator::new(&RepoPath::from_segment("root"));
    assert!(it.wants_listing());
    assert!(matches!(it.next(), Step::NeedListing(_)));
    it.provide_listing(Err(IoErrorKind::PermissionDenied));
    assert!(matches!(it.next(), Step::Item(Err(IoErrorKind::PermissionDenied))));
    assert!(matches!(it.next(), Step::End));
    assert!(matches!(it.next(), Step::End));
}

#[test]
fn successful_listing_yields_entries_in_order_then_end() {
    let mut it = InBandDirIterator::new(&RepoPath::from_segment("root"));
    assert!(matches!(it.next(), Step::NeedListing(_)));
    it.provide_listing(Ok(names(&["one", "two"])));
    assert!(matches!(it.next(), Step::Item(Ok(EntryName::Unicode(s))) if s == "one"));
    assert!(matches!(it.next(), Step::Item(Ok(EntryName::Unicode(s))) if s == "two"));
    assert!(matches!(it.next(), Step::End));
    assert!(matches!(it.next(), Step::End));
}

#[test]
fn the_listing_request_names_the_right_directory() {
    let mut it = InBandDirIterator::new(&RepoPath::from_segment("root").join("crates-a"));
    match it.next() {
        Step::NeedListing(p) => assert_eq!(p.segments().clone(), vec!["root", "crates-a"]),
        _ => panic!("expected a listing request"),
    }
}

#[test]
fn section_entries_are_classified() {
    let mut it = SectionIterator::new(&RepoPath::from_segment("root"), "crates-");
    assert!(matches!(it.next(), Step::NeedListing(_)));
    let mut entries = names(&["crates-a", "crates-xy", "README"]);
    entries.push(EntryName::NonUnicode(vec![0xff, 0xfe]));
    it.provide_listing(Ok(entries));
    assert!(matches!(it.next(), Step::Item(Ok(id)) if id == "a"));
    assert!(matches!(it.next(), Step::Item(Err(CrateDirError::BadSection(_, p, _))) if p == "crates-"));
    assert!(matches!(it.next(), Step::Item(Err(CrateDirError::NonSection(_, _, _)))));
    assert!(matches!(it.next(), Step::Item(Err(CrateDirError::NotUnicode(_)))));
    assert!(matches!(it.next(), Step::End));
}

#[test]
fn section_errors_carry_the_listed_directory() {
    let mut it = SectionIterator::new(&RepoPath::from_segment("top"), "crates-");
    it.next();
    it.provide_listing(Ok(names(&["README"])));
    match it.next() {
        Step::Item(Err(CrateDirError::NonSection(EntryName::Unicode(n), prefix, root))) => {
            assert_eq!(n, "README");
            assert_eq!(prefix, "crates-");
            assert_eq!(root.segments().clone(), vec!["top"]);
        },
        _ => panic!("expected a NonSection error"),
    }
}

#[test]
fn subsection_entries_are_classified() {
    let root = RepoPath::from_segment("root").join("crates-a");
    let mut it = SubSectionIterator::new(&root, "a");
    assert!(matches!(it.next(), Step::NeedListing(_)));
    it.provide_listing(Ok(names(&["a", "ab", "aay", "bx"])));
    assert!(matches!(it.next(), Step::Item(Ok(id)) if id == "a"));
    assert!(matches!(it.next(), Step::Item(Ok(id)) if id == "ab"));
    assert!(matches!(it.next(), Step::Item(Err(CrateDirError::BadSubSection(_, _, _)))));
    assert!(matches!(it.next(), Step::Item(Err(CrateDirError::BadSubSection(_, _, _)))));
    assert!(matches!(it.next(), Step::End));
}

#[test]
fn io_error_while_reading_is_delivered_in_band() {
    let mut it = SubSectionIterator::new(&RepoPath::from_segment("gone"), "a");
    it.next();
    it.provide_listing(Err(IoErrorKind::NotFound));
    assert!(matches!(it.next(), Step::Item(Err(CrateDirError::IoError(IoErrorKind::NotFound)))));
    assert!(matches!(it.next(), Step::End));
}

#[test]
fn strict_section_scan_skips_foreign_entries_and_stops_on_violations() {
    let root = RepoPath::from_segment("root");
    let ok = sections_in(&names(&["crates-a", "README", "crates-b"]), "crates-", &root).unwrap();
    assert_eq!(ok, vec!["a", "b"]);
    let err = sections_in(&names(&["crates-a", "crates-xy"]), "crates-", &root);
    assert!(matches!(err, Err(CrateDirError::BadSection(_, _, _))));
}

#[test]
fn strict_subsection_scan_stops_on_the_first_violation() {
    let root = RepoPath::from_segment("root").join("crates-a");
    let ok = subsections_in(&names(&["a", "ab"]), "a", &root).unwrap();
    assert_eq!(ok, vec!["a", "ab"]);
    let err = subsections_in(&names(&["a", "bx", "ab"]), "a", &root);
    assert!(matches!(err, Err(CrateDirError::BadSubSection(_, _, _))));
}

#[test]
fn strict_crate_scan_stops_on_the_first_violation() {
    let root = RepoPath::from_segment("root").join("crates-a").join("ab");
    let ok = crates_in(&names(&["ab", "abc"]), "ab", &root).unwrap();
    assert_eq!(ok, vec!["ab", "abc"]);
    let err = crates_in(&names(&["abc", "bcc"]), "ab", &root);
    assert!(matches!(err, Err(CrateDirError::BadCrate(_, _, _))));
}
