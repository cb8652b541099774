//! The memoizing cache: positive caching, negative caching of
//! not-found, and no caching of other failures.

use vmatrix::config::{Config, StatsRepoConfig, TargetsConfig};
use vmatrix::paths::RepoPath;
use vmatrix::{
    IoErrorKind, ResultInfo, ResultList, ResultsError, StatsRepo, StatsRepoCache,
    StatsRepoCacheError, StatsRepoError, VersionList, VersionsError,
};

fn repo() -> StatsRepo {
    StatsRepo::from_config(
        Config {
            stats_repo: StatsRepoConfig { root: RepoPath::from_segment("root") },
            targets: Some(TargetsConfig { rustc: Some(vec!["1.50.0".to_string()]) }),
        },
    )
}

fn results_not_found() -> StatsRepoError {
    StatsRepoError::ResultsError(ResultsError::IoError(IoErrorKind::NotFound))
}

fn results_permission_denied() -> StatsRepoError {
    StatsRepoError::ResultsError(ResultsError::IoError(IoErrorKind::PermissionDenied))
}

fn one_record_list() -> ResultList {
    ResultList::new(vec![
        ResultInfo::new(
            "foo".to_string(),
            "1.0.0".to_string(),
            Vec::new(),
            vec!["1.50.0".to_string()],
        ),
    ])
}

#[test]
fn not_found_is_cached_and_the_repo_is_not_consulted_again() {
    let r = repo();
    let mut cache = StatsRepoCache::for_repo(&r);
    let first = cache.crate_results("foo", Err(results_not_found()));
    assert!(matches!(first, Err(StatsRepoCacheError::ResultNotExists(n)) if n == "foo"));
    // The second lookup hands in a successful outcome; a consulted
    // repository would yield it, a cached absence must not.
    let second = cache.crate_results("foo", Ok(one_record_list()));
    assert!(matches!(second, Err(StatsRepoCacheError::ResultNotExists(n)) if n == "foo"));
}

#[test]
fn other_failures_are_not_cached_and_the_lookup_retries() {
    let r = repo();
    let mut cache = StatsRepoCache::for_repo(&r);
    let first = cache.crate_results("bar", Err(results_permission_denied()));
    assert!(matches!(first, Err(StatsRepoCacheError::StatsRepoError(_))));
    // A retried lookup consults the repository again and can succeed.
    let second = cache.crate_results("bar", Ok(one_record_list())).unwrap();
    assert_eq!(second.len(), 1);
}

#[test]
fn successful_results_are_cached() {
    let r = repo();
    let mut cache = StatsRepoCache::for_repo(&r);
    let first = cache.crate_results("foo", Ok(one_record_list())).unwrap();
    assert_eq!(first.len(), 1);
    // The second lookup hands in a not-found outcome; the cached
    // value must win.
    let second = cache.crate_results("foo", Err(results_not_found())).unwrap();
    assert_eq!(second.len(), 1);
}

#[test]
fn version_lookups_cache_not_found_the_same_way() {
    let r = repo();
    let mut cache = StatsRepoCache::for_repo(&r);
    let nf = StatsRepoError::VersionsError(VersionsError::IoError(IoErrorKind::NotFound));
    let first = cache.crate_versions("foo", Err(nf));
    assert!(matches!(first, Err(StatsRepoCacheError::VersionNotExists(n)) if n == "foo"));
    let second = cache.crate_versions("foo", Ok(VersionList::new(Vec::new())));
    assert!(matches!(second, Err(StatsRepoCacheError::VersionNotExists(n)) if n == "foo"));
    // An independent key is unaffected.
    let other = cache.crate_versions("baz", Ok(VersionList::new(Vec::new()))).unwrap();
    assert_eq!(other.len(), 0);
}

#[test]
fn paths_are_cached_and_derivation_failures_are_not() {
    let r = repo();
    let mut cache = StatsRepoCache::for_repo(&r);
    let p = cache.crate_path("serde").unwrap();
    assert_eq!(p.segments().clone(), vec!["root", "crates-s", "se", "serde"]);
    let again = cache.crate_path("serde").unwrap();
    assert_eq!(again.segments().clone(), vec!["root", "crates-s", "se", "serde"]);
    assert!(matches!(cache.crate_path(""), Err(StatsRepoCacheError::StatsRepoError(_))));
    assert!(matches!(cache.crate_path(""), Err(StatsRepoCacheError::StatsRepoError(_))));
}

#[test]
fn the_enumeration_is_computed_at_most_once() {
    let r = repo();
    let mut cache = StatsRepoCache::for_repo(&r);
    assert!(!cache.has_crate_names());
    let first = cache.crate_names(Ok(vec!["abc".to_string(), "bcc".to_string()])).unwrap();
    assert_eq!(first, vec!["abc", "bcc"]);
    assert!(cache.has_crate_names());
    // A second call hands in a failure; the cached list must win.
    let fetched: Result<Vec<String>, StatsRepoError> = Err(results_permission_denied());
    let second = cache.crate_names(fetched).unwrap();
    assert_eq!(second, vec!["abc", "bcc"]);
}

#[test]
fn a_failed_enumeration_is_not_cached() {
    let r = repo();
    let mut cache = StatsRepoCache::for_repo(&r);
    let first = cache.crate_names(Err(results_permission_denied()));
    assert!(matches!(first, Err(StatsRepoCacheError::StatsRepoError(_))));
    assert!(!cache.has_crate_names());
    let second = cache.crate_names(Ok(vec!["abc".to_string()])).unwrap();
    assert_eq!(second, vec!["abc"]);
}

#[test]
fn rustcs_comes_from_the_repository() {
    let r = repo();
    let cache = StatsRepoCache::for_repo(&r);
    assert_eq!(cache.rustcs(), vec!["1.50.0"]);
}
