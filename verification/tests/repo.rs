//! The repository view: configuration, per-crate file paths, document
//! loading, error messages, and the index page data.

use vmatrix::config::{Config, StatsRepoConfig, TargetsConfig};
use vmatrix::pages::IndexPage;
use vmatrix::paths::RepoPath;
use vmatrix::{
    CrateDirError, IoErrorKind, ResultList, ResultsError, StatsRepo, StatsRepoError, VersionList,
    VersionsError,
};

fn config(rustcs: Option<Vec<&str>>) -> Config {
    Config {
        stats_repo: StatsRepoConfig { root: RepoPath::from_segment("root").join("stats") },
        targets: rustcs.map(|v| TargetsConfig {
            rustc: Some(v.into_iter().map(|s| s.to_string()).collect()),
        }),
    }
}

#[test]
fn config_getters_expose_root_and_targets() {
    let c = config(Some(vec!["1.0.0", "1.1.0"]));
    assert_eq!(c.root().segments().clone(), vec!["root", "stats"]);
    assert_eq!(c.rustc().unwrap(), &vec!["1.0.0".to_string(), "1.1.0".to_string()]);
    let bare = config(None);
    assert!(bare.rustc().is_none());
    let empty = Config {
        stats_repo: StatsRepoConfig { root: RepoPath::from_segment("root") },
        targets: Some(TargetsConfig { rustc: None }),
    };
    assert!(empty.rustc().is_none());
}

#[test]
fn the_target_list_defaults_to_empty() {
    let repo = StatsRepo::from_config(config(None));
    assert!(repo.rustcs().is_empty());
    let repo = StatsRepo::from_config(config(Some(vec!["1.2.3"])));
    assert_eq!(repo.rustcs(), &vec!["1.2.3".to_string()]);
}

#[test]
fn per_crate_file_paths() {
    let repo = StatsRepo::from_config(config(None));
    let segs = |p: Result<RepoPath, StatsRepoError>| p.unwrap().segments().clone();
    assert_eq!(segs(repo.crate_path("serde")), vec!["root", "stats", "crates-s", "se", "serde"]);
    assert_eq!(
        segs(repo.crate_versions_path("serde")),
        vec!["root", "stats", "crates-s", "se", "serde", "versions.json"],
    );
    assert_eq!(
        segs(repo.crate_results_path("serde")),
        vec!["root", "stats", "crates-s", "se", "serde", "results.json"],
    );
    assert_eq!(
        segs(repo.crate_index_path("serde")),
        vec!["root", "stats", "crates-s", "se", "serde", "index.html"],
    );
    assert_eq!(
        segs(repo.crate_file_path("serde", "log.txt")),
        vec!["root", "stats", "crates-s", "se", "serde", "log.txt"],
    );
}

#[test]
fn empty_names_cannot_derive_paths() {
    let repo = StatsRepo::from_config(config(None));
    assert!(matches!(
        repo.crate_path(""),
        Err(StatsRepoError::CrateDirError(CrateDirError::BadCrateName(_)))
    ));
    assert!(matches!(
        repo.crate_results(
            "",
            Ok(ResultList::new(Vec::new())),
        ),
        Err(StatsRepoError::CrateDirError(CrateDirError::BadCrateName(_)))
    ));
}

#[test]
fn loaded_documents_pass_through() {
    let repo = StatsRepo::from_config(config(None));
    let ok = repo.crate_results("serde", Ok(ResultList::new(Vec::new()))).unwrap();
    assert_eq!(ok.len(), 0);
    let err = repo.crate_results(
        "serde",
        Err(ResultsError::IoError(IoErrorKind::NotFound)),
    );
    assert!(matches!(
        err,
        Err(StatsRepoError::ResultsError(ResultsError::IoError(IoErrorKind::NotFound)))
    ));
    let ok = repo.crate_versions("serde", Ok(VersionList::new(Vec::new()))).unwrap();
    assert_eq!(ok.len(), 0);
    let err = repo.crate_versions(
        "serde",
        Err(VersionsError::DecodeError("bad json".to_string())),
    );
    assert!(matches!(
        err,
        Err(StatsRepoError::VersionsError(VersionsError::DecodeError(m))) if m == "bad json"
    ));
}

#[test]
fn error_messages_name_the_problem() {
    let bad_name = CrateDirError::BadCrateName("".to_string());
    assert_eq!(bad_name.message(), "crate name  is illegal, must have at least one character");
    let io = CrateDirError::IoError(IoErrorKind::NotFound);
    assert_eq!(io.message(), "IO error in stats repo directory: not found");
    let bad_crate = CrateDirError::BadCrate(
        vmatrix::EntryName::Unicode("acc".to_string()),
        "ab".to_string(),
        RepoPath::from_segment("root"),
    );
    assert_eq!(
        bad_crate.message(),
        "crate does not satisfy the layout scheme (should start with ab)",
    );
}

#[test]
fn index_page_data_is_fixed() {
    let page = IndexPage::new();
    assert_eq!(page.contributing.todo_time, "Sun Nov 15 13:58:18 2020");
    assert_eq!(page.contributing.todo_crates, 1551);
    assert_eq!(page.contributing.todo_targets, 1487182);
    assert!(page.contributing.low_estimate.starts_with("80.76 days"));
    assert!(page.contributing.high_estimate.starts_with("2.83 years"));
}
