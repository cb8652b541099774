//! A memoizing layer over one [`StatsRepo`], for a reporting session
//! that asks about the same crates many times.
//!
//! Each kind of lookup has its own cache keyed by crate name, with
//! three states per key: not yet looked up, confirmed present, and
//! confirmed absent. A "file not found" failure is cached as
//! confirmed absent, so the next lookup answers without touching the
//! repository again; any other failure is not cached, and the next
//! lookup retries. The crate-name enumeration is computed at most
//! once. Path derivation is pure and cannot fail with "not found",
//! so the path cache has no negative state.
//!
//! The repository fetches themselves are input/output, which the
//! verified logic does not perform: a lookup that misses is given the
//! outcome the repository returned for it.

use crate::crate_dir::{spec_rel_path, CrateDirError, CrateDirErrorView};
use crate::entry::IoErrorKind;
use crate::paths::RepoPath;
use crate::result_list::{ResultInfoView, ResultList, ResultsErrorView};
use crate::stats_repo::{StatsRepo, StatsRepoError, StatsRepoErrorView, StatsRepoView};
use crate::strutil::{clone_string_vec, str_eq};
use crate::version_list::{VersionInfoView, VersionList, VersionsErrorView};
use vstd::prelude::*;

verus! {

/// Errors from [`StatsRepoCache`].
#[derive(Debug)]
pub enum StatsRepoCacheError {
    /// A lookup for this crate's results is confirmed absent, without
    /// the original error context.
    ResultNotExists(String),
    /// A lookup for this crate's versions is confirmed absent,
    /// without the original error context.
    VersionNotExists(String),
    /// An underlying error from the repository, passed through.
    StatsRepoError(StatsRepoError),
}

/// What a [`StatsRepoCacheError`] is, mathematically.
pub enum StatsRepoCacheErrorView {
    ResultNotExists(Seq<char>),
    VersionNotExists(Seq<char>),
    StatsRepoError(StatsRepoErrorView),
}

impl View for StatsRepoCacheError {
    type V = StatsRepoCacheErrorView;

    open spec fn view(&self) -> StatsRepoCacheErrorView {
        match self {
            StatsRepoCacheError::ResultNotExists(n) => StatsRepoCacheErrorView::ResultNotExists(
                n@,
            ),
            StatsRepoCacheError::VersionNotExists(n) => StatsRepoCacheErrorView::VersionNotExists(
                n@,
            ),
            StatsRepoCacheError::StatsRepoError(e) => StatsRepoCacheErrorView::StatsRepoError(e@),
        }
    }
}

/// The stored view of one version-cache entry.
pub open spec fn versions_entry_view(v: Option<VersionList>) -> Option<Seq<VersionInfoView>> {
    match v {
        Some(l) => Some(l@),
        None => None,
    }
}

/// The stored view of one result-cache entry.
pub open spec fn results_entry_view(v: Option<ResultList>) -> Option<Seq<ResultInfoView>> {
    match v {
        Some(l) => Some(l@),
        None => None,
    }
}

/// The path cache's entries as a map from crate name to path: later
/// entries override earlier ones, and the code only ever adds a key
/// once.
pub open spec fn paths_map(s: Seq<(String, RepoPath)>) -> Map<Seq<char>, Seq<Seq<char>>>
    decreases s.len(),
{
    if s.len() == 0 {
        Map::empty()
    } else {
        paths_map(s.drop_last()).insert(s.last().0@, s.last().1@)
    }
}

/// The version cache's entries as a map from crate name to entry.
pub open spec fn versions_map(s: Seq<(String, Option<VersionList>)>) -> Map<
    Seq<char>,
    Option<Seq<VersionInfoView>>,
>
    decreases s.len(),
{
    if s.len() == 0 {
        Map::empty()
    } else {
        versions_map(s.drop_last()).insert(s.last().0@, versions_entry_view(s.last().1))
    }
}

/// The result cache's entries as a map from crate name to entry.
pub open spec fn results_map(s: Seq<(String, Option<ResultList>)>) -> Map<
    Seq<char>,
    Option<Seq<ResultInfoView>>,
>
    decreases s.len(),
{
    if s.len() == 0 {
        Map::empty()
    } else {
        results_map(s.drop_last()).insert(s.last().0@, results_entry_view(s.last().1))
    }
}

/// Entries whose keys all differ from `name` do not affect what the
/// path map holds at `name`.
proof fn lemma_paths_map_skip(s: Seq<(String, RepoPath)>, i: int, name: Seq<char>)
    requires
        0 <= i <= s.len(),
        forall|j: int| i <= j < s.len() ==> (#[trigger] s[j]).0@ != name,
    ensures
        paths_map(s).contains_key(name) == paths_map(s.take(i)).contains_key(name),
        paths_map(s).contains_key(name) ==> paths_map(s)[name] == paths_map(s.take(i))[name],
    decreases s.len(),
{
    if i < s.len() {
        assert(s.drop_last().take(i) =~= s.take(i));
        assert(forall|j: int|
            i <= j < s.drop_last().len() ==> (#[trigger] s.drop_last()[j]).0@ != name);
        lemma_paths_map_skip(s.drop_last(), i, name);
    } else {
        assert(s.take(i) =~= s);
    }
}

/// Entries whose keys all differ from `name` do not affect what the
/// version map holds at `name`.
proof fn lemma_versions_map_skip(s: Seq<(String, Option<VersionList>)>, i: int, name: Seq<char>)
    requires
        0 <= i <= s.len(),
        forall|j: int| i <= j < s.len() ==> (#[trigger] s[j]).0@ != name,
    ensures
        versions_map(s).contains_key(name) == versions_map(s.take(i)).contains_key(name),
        versions_map(s).contains_key(name) ==> versions_map(s)[name] == versions_map(s.take(i))[name],
    decreases s.len(),
{
    if i < s.len() {
        assert(s.drop_last().take(i) =~= s.take(i));
        assert(forall|j: int|
            i <= j < s.drop_last().len() ==> (#[trigger] s.drop_last()[j]).0@ != name);
        lemma_versions_map_skip(s.drop_last(), i, name);
    } else {
        assert(s.take(i) =~= s);
    }
}

/// Entries whose keys all differ from `name` do not affect what the
/// result map holds at `name`.
proof fn lemma_results_map_skip(s: Seq<(String, Option<ResultList>)>, i: int, name: Seq<char>)
    requires
        0 <= i <= s.len(),
        forall|j: int| i <= j < s.len() ==> (#[trigger] s[j]).0@ != name,
    ensures
        results_map(s).contains_key(name) == results_map(s.take(i)).contains_key(name),
        results_map(s).contains_key(name) ==> results_map(s)[name] == results_map(s.take(i))[name],
    decreases s.len(),
{
    if i < s.len() {
        assert(s.drop_last().take(i) =~= s.take(i));
        assert(forall|j: int|
            i <= j < s.drop_last().len() ==> (#[trigger] s.drop_last()[j]).0@ != name);
        lemma_results_map_skip(s.drop_last(), i, name);
    } else {
        assert(s.take(i) =~= s);
    }
}

/// What a [`StatsRepoCache`] is, mathematically: the repository it
/// decorates and its four caches.
pub struct CacheModel {
    pub repo: StatsRepoView,
    /// The one-shot enumeration cache.
    pub names: Option<Seq<Seq<char>>>,
    /// Resolved paths by crate name; no negative state.
    pub paths: Map<Seq<char>, Seq<Seq<char>>>,
    /// Parsed version lists by crate name; `None` is confirmed
    /// absent.
    pub versions: Map<Seq<char>, Option<Seq<VersionInfoView>>>,
    /// Parsed result lists by crate name; `None` is confirmed absent.
    pub results: Map<Seq<char>, Option<Seq<ResultInfoView>>>,
}

/// The view of a fetched version-list outcome.
pub open spec fn fetched_versions_view(r: Result<VersionList, StatsRepoError>) -> Result<
    Seq<VersionInfoView>,
    StatsRepoErrorView,
> {
    match r {
        Ok(v) => Ok(v@),
        Err(e) => Err(e@),
    }
}

/// The view of a fetched result-list outcome.
pub open spec fn fetched_results_view(r: Result<ResultList, StatsRepoError>) -> Result<
    Seq<ResultInfoView>,
    StatsRepoErrorView,
> {
    match r {
        Ok(v) => Ok(v@),
        Err(e) => Err(e@),
    }
}

/// The view of a fetched enumeration outcome.
pub open spec fn fetched_names_view(r: Result<Vec<String>, StatsRepoError>) -> Result<
    Seq<Seq<char>>,
    StatsRepoErrorView,
> {
    match r {
        Ok(v) => Ok(v.deep_view()),
        Err(e) => Err(e@),
    }
}

/// A repository failure counts as "versions not found" exactly when
/// it is the version loader's file-not-found.
pub open spec fn versions_not_found(e: StatsRepoErrorView) -> bool {
    e == StatsRepoErrorView::VersionsError(VersionsErrorView::IoError(IoErrorKind::NotFound))
}

/// A repository failure counts as "results not found" exactly when it
/// is the result loader's file-not-found.
pub open spec fn results_not_found(e: StatsRepoErrorView) -> bool {
    e == StatsRepoErrorView::ResultsError(ResultsErrorView::IoError(IoErrorKind::NotFound))
}

/// The transition one enumeration lookup makes: a cached list is
/// returned as it is; otherwise a successful enumeration is stored
/// and returned, and a failure is passed through uncached.
pub open spec fn spec_names_step(m: CacheModel, fetched: Result<Seq<Seq<char>>, StatsRepoErrorView>)
    -> (CacheModel, Result<Seq<Seq<char>>, StatsRepoCacheErrorView>) {
    match m.names {
        Some(ns) => (m, Ok(ns)),
        None => match fetched {
            Ok(ns) => (CacheModel { names: Some(ns), ..m }, Ok(ns)),
            Err(e) => (m, Err(StatsRepoCacheErrorView::StatsRepoError(e))),
        },
    }
}

/// The transition one path lookup makes: a cached path is returned as
/// it is; otherwise derivation either fails (an empty name, not
/// cached) or the derived path is stored and returned.
pub open spec fn spec_path_step(m: CacheModel, name: Seq<char>) -> (
    CacheModel,
    Result<Seq<Seq<char>>, StatsRepoCacheErrorView>,
) {
    if m.paths.contains_key(name) {
        (m, Ok(m.paths[name]))
    } else if name.len() == 0 {
        (
            m,
            Err(
                StatsRepoCacheErrorView::StatsRepoError(
                    StatsRepoErrorView::CrateDirError(CrateDirErrorView::BadCrateName(name)),
                ),
            ),
        )
    } else {
        let p = m.repo.root + spec_rel_path(m.repo.prefix, name);
        (CacheModel { paths: m.paths.insert(name, p), ..m }, Ok(p))
    }
}

/// The transition one version lookup makes: a present entry is
/// returned, a confirmed-absent entry answers "not exists" without
/// consulting the fetched outcome, and a missing entry consults it —
/// success is stored, file-not-found is stored as confirmed absent,
/// and any other failure is passed through uncached so the next
/// lookup retries.
pub open spec fn spec_versions_step(
    m: CacheModel,
    name: Seq<char>,
    fetched: Result<Seq<VersionInfoView>, StatsRepoErrorView>,
) -> (CacheModel, Result<Seq<VersionInfoView>, StatsRepoCacheErrorView>) {
    if m.versions.contains_key(name) {
        match m.versions[name] {
            Some(v) => (m, Ok(v)),
            None => (m, Err(StatsRepoCacheErrorView::VersionNotExists(name))),
        }
    } else {
        match fetched {
            Ok(v) => (CacheModel { versions: m.versions.insert(name, Some(v)), ..m }, Ok(v)),
            Err(e) => if versions_not_found(e) {
                (
                    CacheModel { versions: m.versions.insert(name, None), ..m },
                    Err(StatsRepoCacheErrorView::VersionNotExists(name)),
                )
            } else {
                (m, Err(StatsRepoCacheErrorView::StatsRepoError(e)))
            },
        }
    }
}

/// The transition one result lookup makes; see
/// [`spec_versions_step`].
pub open spec fn spec_results_step(
    m: CacheModel,
    name: Seq<char>,
    fetched: Result<Seq<ResultInfoView>, StatsRepoErrorView>,
) -> (CacheModel, Result<Seq<ResultInfoView>, StatsRepoCacheErrorView>) {
    if m.results.contains_key(name) {
        match m.results[name] {
            Some(v) => (m, Ok(v)),
            None => (m, Err(StatsRepoCacheErrorView::ResultNotExists(name))),
        }
    } else {
        match fetched {
            Ok(v) => (CacheModel { results: m.results.insert(name, Some(v)), ..m }, Ok(v)),
            Err(e) => if results_not_found(e) {
                (
                    CacheModel { results: m.results.insert(name, None), ..m },
                    Err(StatsRepoCacheErrorView::ResultNotExists(name)),
                )
            } else {
                (m, Err(StatsRepoCacheErrorView::StatsRepoError(e)))
            },
        }
    }
}

/// Once a key is confirmed absent, a result lookup for it neither
/// consults the repository's outcome nor changes the cache: any two
/// outcomes give the same "not exists" answer and leave the state as
/// it was.
pub proof fn lemma_results_negative_cache_stable(
    m: CacheModel,
    name: Seq<char>,
    f1: Result<Seq<ResultInfoView>, StatsRepoErrorView>,
    f2: Result<Seq<ResultInfoView>, StatsRepoErrorView>,
)
    requires
        m.results.contains_key(name),
        m.results[name] is None,
    ensures
        spec_results_step(m, name, f1) == spec_results_step(m, name, f2),
        spec_results_step(m, name, f1) == (
            m,
            Err::<Seq<ResultInfoView>, StatsRepoCacheErrorView>(
                StatsRepoCacheErrorView::ResultNotExists(name),
            ),
        ),
{
}

/// A failure other than file-not-found is never cached: the lookup
/// leaves the cache exactly as it was, so the next lookup for the
/// same key consults the repository again.
pub proof fn lemma_results_error_not_cached(
    m: CacheModel,
    name: Seq<char>,
    e: StatsRepoErrorView,
)
    requires
        !m.results.contains_key(name),
        !results_not_found(e),
    ensures
        spec_results_step(m, name, Err(e)).0 == m,
        spec_results_step(m, name, Err(e)).1 == Err::<
            Seq<ResultInfoView>,
            StatsRepoCacheErrorView,
        >(StatsRepoCacheErrorView::StatsRepoError(e)),
{
}

/// The corresponding stability law for version lookups.
pub proof fn lemma_versions_negative_cache_stable(
    m: CacheModel,
    name: Seq<char>,
    f1: Result<Seq<VersionInfoView>, StatsRepoErrorView>,
    f2: Result<Seq<VersionInfoView>, StatsRepoErrorView>,
)
    requires
        m.versions.contains_key(name),
        m.versions[name] is None,
    ensures
        spec_versions_step(m, name, f1) == spec_versions_step(m, name, f2),
        spec_versions_step(m, name, f1) == (
            m,
            Err::<Seq<VersionInfoView>, StatsRepoCacheErrorView>(
                StatsRepoCacheErrorView::VersionNotExists(name),
            ),
        ),
{
}

/// What one cache lookup found before any repository work: nothing,
/// a confirmed absence, or the stored value.
enum CacheLookup<T> {
    Absent,
    Negative,
    Value(T),
}

/// A memoizing decorator over one [`StatsRepo`].
#[derive(Debug)]
pub struct StatsRepoCache {
    repo: StatsRepo,
    crate_names: Option<Vec<String>>,
    crate_paths: Vec<(String, RepoPath)>,
    crate_versions: Vec<(String, Option<VersionList>)>,
    crate_results: Vec<(String, Option<ResultList>)>,
}

impl View for StatsRepoCache {
    type V = CacheModel;

    closed spec fn view(&self) -> CacheModel {
        CacheModel {
            repo: self.repo@,
            names: match self.crate_names {
                Some(v) => Some(v.deep_view()),
                None => None,
            },
            paths: paths_map(self.crate_paths@),
            versions: versions_map(self.crate_versions@),
            results: results_map(self.crate_results@),
        }
    }
}

/// Look one name up in the path cache.
fn lookup_path(entries: &Vec<(String, RepoPath)>, name: &str) -> (r: Option<RepoPath>)
    ensures
        ({
            let m = paths_map(entries@);
            match r {
                Some(p) => m.contains_key(name@) && p@ == m[name@],
                None => !m.contains_key(name@),
            }
        }),
{
    let mut i: usize = entries.len();
    while i > 0
        invariant
            i <= entries@.len(),
            forall|j: int| i <= j < entries@.len() ==> (#[trigger] entries@[j]).0@ != name@,
        decreases i,
    {
        i = i - 1;
        if str_eq(entries[i].0.as_str(), name) {
            let p = entries[i].1.clone();
            proof {
                lemma_paths_map_skip(entries@, i + 1, name@);
                assert(entries@.take(i + 1 as int).drop_last() =~= entries@.take(i as int));
                assert(entries@.take(i + 1 as int).last() == entries@[i as int]);
            }
            return Some(p);
        }
    }
    proof {
        lemma_paths_map_skip(entries@, 0, name@);
        assert(entries@.take(0) =~= Seq::<(String, RepoPath)>::empty());
    }
    None
}

/// Look one name up in the version cache.
fn lookup_versions(entries: &Vec<(String, Option<VersionList>)>, name: &str) -> (r: CacheLookup<
    VersionList,
>)
    ensures
        ({
            let m = versions_map(entries@);
            match r {
                CacheLookup::Absent => !m.contains_key(name@),
                CacheLookup::Negative => m.contains_key(name@) && m[name@] is None,
                CacheLookup::Value(v) => m.contains_key(name@) && m[name@] == Some(v@),
            }
        }),
{
    let mut i: usize = entries.len();
    while i > 0
        invariant
            i <= entries@.len(),
            forall|j: int| i <= j < entries@.len() ==> (#[trigger] entries@[j]).0@ != name@,
        decreases i,
    {
        i = i - 1;
        if str_eq(entries[i].0.as_str(), name) {
            proof {
                lemma_versions_map_skip(entries@, i + 1, name@);
                assert(entries@.take(i + 1 as int).drop_last() =~= entries@.take(i as int));
                assert(entries@.take(i + 1 as int).last() == entries@[i as int]);
            }
            match &entries[i].1 {
                Some(l) => {
                    return CacheLookup::Value(l.clone());
                },
                None => {
                    return CacheLookup::Negative;
                },
            }
        }
    }
    proof {
        lemma_versions_map_skip(entries@, 0, name@);
        assert(entries@.take(0) =~= Seq::<(String, Option<VersionList>)>::empty());
    }
    CacheLookup::Absent
}

/// Look one name up in the result cache.
fn lookup_results(entries: &Vec<(String, Option<ResultList>)>, name: &str) -> (r: CacheLookup<
    ResultList,
>)
    ensures
        ({
            let m = results_map(entries@);
            match r {
                CacheLookup::Absent => !m.contains_key(name@),
                CacheLookup::Negative => m.contains_key(name@) && m[name@] is None,
                CacheLookup::Value(v) => m.contains_key(name@) && m[name@] == Some(v@),
            }
        }),
{
    let mut i: usize = entries.len();
    while i > 0
        invariant
            i <= entries@.len(),
            forall|j: int| i <= j < entries@.len() ==> (#[trigger] entries@[j]).0@ != name@,
        decreases i,
    {
        i = i - 1;
        if str_eq(entries[i].0.as_str(), name) {
            proof {
                lemma_results_map_skip(entries@, i + 1, name@);
                assert(entries@.take(i + 1 as int).drop_last() =~= entries@.take(i as int));
                assert(entries@.take(i + 1 as int).last() == entries@[i as int]);
            }
            match &entries[i].1 {
                Some(l) => {
                    return CacheLookup::Value(l.clone());
                },
                None => {
                    return CacheLookup::Negative;
                },
            }
        }
    }
    proof {
        lemma_results_map_skip(entries@, 0, name@);
        assert(entries@.take(0) =~= Seq::<(String, Option<ResultList>)>::empty());
    }
    CacheLookup::Absent
}

impl StatsRepoCache {
    /// A fresh cache decorating `repo`: nothing looked up yet.
    pub fn for_repo(repo: &StatsRepo) -> (r: StatsRepoCache)
        ensures
            r@ == (CacheModel {
                repo: repo@,
                names: None,
                paths: Map::empty(),
                versions: Map::empty(),
                results: Map::empty(),
            }),
    {
        let r = StatsRepoCache {
            repo: repo.clone(),
            crate_names: None,
            crate_paths: Vec::new(),
            crate_versions: Vec::new(),
            crate_results: Vec::new(),
        };
        r
    }

    /// The configured rust targets of the underlying repository.
    pub fn rustcs(&self) -> (r: Vec<String>)
        ensures
            r.deep_view() == self@.repo.rustcs,
    {
        let r = clone_string_vec(self.repo.rustcs());
        proof {
            assert(r.deep_view() =~= self@.repo.rustcs);
        }
        r
    }

    /// Whether the crate-name enumeration has been computed already;
    /// when it has, [`Self::crate_names`] will not consult the
    /// outcome it is given.
    pub fn has_crate_names(&self) -> (r: bool)
        ensures
            r == (self@.names is Some),
    {
        self.crate_names.is_some()
    }

    /// A possibly cached list of all crate names. On the first call
    /// the caller enumerates the repository (see
    /// [`StatsRepo::crate_names`]) and hands the outcome in; once a
    /// list is cached the outcome is ignored.
    pub fn crate_names(&mut self, fetched: Result<Vec<String>, StatsRepoError>) -> (r: Result<
        Vec<String>,
        StatsRepoCacheError,
    >)
        ensures
            final(self)@ == spec_names_step(old(self)@, fetched_names_view(fetched)).0,
            ({
                let y = spec_names_step(old(self)@, fetched_names_view(fetched)).1;
                match y {
                    Ok(ns) => r matches Ok(v) && v.deep_view() == ns,
                    Err(e) => r matches Err(err) && err@ == e,
                }
            }),
    {
        match &self.crate_names {
            Some(cached) => Ok(clone_string_vec(cached)),
            None => match fetched {
                Ok(names) => {
                    let out = clone_string_vec(&names);
                    self.crate_names = Some(names);
                    proof {
                        assert(out.deep_view() =~= final(self)@.names.unwrap());
                    }
                    Ok(out)
                },
                Err(e) => Err(StatsRepoCacheError::StatsRepoError(e)),
            },
        }
    }

    /// A possibly cached path to the named crate. Derivation is pure,
    /// so a failure (the empty name) is never cached and is reported
    /// afresh each time.
    pub fn crate_path(&mut self, my_crate: &str) -> (r: Result<RepoPath, StatsRepoCacheError>)
        ensures
            final(self)@ == spec_path_step(old(self)@, my_crate@).0,
            ({
                let y = spec_path_step(old(self)@, my_crate@).1;
                match y {
                    Ok(p) => r matches Ok(v) && v@ == p,
                    Err(e) => r matches Err(err) && err@ == e,
                }
            }),
    {
        match lookup_path(&self.crate_paths, my_crate) {
            Some(p) => Ok(p),
            None => {
                match self.repo.crate_path(my_crate) {
                    Ok(p) => {
                        let out = p.clone();
                        let ghost pre = self.crate_paths@;
                        self.crate_paths.push((String::from_str(my_crate), p));
                        proof {
                            assert(self.crate_paths@.drop_last() =~= pre);
                        }
                        Ok(out)
                    },
                    Err(e) => Err(StatsRepoCacheError::StatsRepoError(e)),
                }
            },
        }
    }

    /// Whether a version lookup for this crate is already settled,
    /// present or confirmed absent; when it is, [`Self::crate_versions`]
    /// will not consult the outcome it is given.
    pub fn has_versions_entry(&self, my_crate: &str) -> (r: bool)
        ensures
            r == self@.versions.contains_key(my_crate@),
    {
        match lookup_versions(&self.crate_versions, my_crate) {
            CacheLookup::Absent => false,
            CacheLookup::Negative => true,
            CacheLookup::Value(_) => true,
        }
    }

    /// Whether a result lookup for this crate is already settled,
    /// present or confirmed absent; when it is, [`Self::crate_results`]
    /// will not consult the outcome it is given.
    pub fn has_results_entry(&self, my_crate: &str) -> (r: bool)
        ensures
            r == self@.results.contains_key(my_crate@),
    {
        match lookup_results(&self.crate_results, my_crate) {
            CacheLookup::Absent => false,
            CacheLookup::Negative => true,
            CacheLookup::Value(_) => true,
        }
    }

    /// A possibly cached version list for the named crate. On a miss
    /// the caller loads the document (see
    /// [`StatsRepo::crate_versions`]) and hands the outcome in; a
    /// cached entry, present or confirmed absent, answers without
    /// consulting it.
    pub fn crate_versions(&mut self, my_crate: &str, fetched: Result<VersionList, StatsRepoError>)
        -> (r: Result<VersionList, StatsRepoCacheError>)
        ensures
            final(self)@ == spec_versions_step(
                old(self)@,
                my_crate@,
                fetched_versions_view(fetched),
            ).0,
            ({
                let y = spec_versions_step(old(self)@, my_crate@, fetched_versions_view(fetched)).1;
                match y {
                    Ok(v) => r matches Ok(l) && l@ == v,
                    Err(e) => r matches Err(err) && err@ == e,
                }
            }),
    {
        match lookup_versions(&self.crate_versions, my_crate) {
            CacheLookup::Value(l) => Ok(l),
            CacheLookup::Negative => Err(
                StatsRepoCacheError::VersionNotExists(String::from_str(my_crate)),
            ),
            CacheLookup::Absent => match fetched {
                Ok(l) => {
                    let out = l.clone();
                    let ghost pre = self.crate_versions@;
                    self.crate_versions.push((String::from_str(my_crate), Some(l)));
                    proof {
                        assert(self.crate_versions@.drop_last() =~= pre);
                    }
                    Ok(out)
                },
                Err(e) => {
                    let not_found = match &e {
                        StatsRepoError::VersionsError(
                            crate::version_list::VersionsError::IoError(IoErrorKind::NotFound),
                        ) => true,
                        _ => false,
                    };
                    if not_found {
                        let ghost pre = self.crate_versions@;
                        self.crate_versions.push((String::from_str(my_crate), None));
                        proof {
                            assert(self.crate_versions@.drop_last() =~= pre);
                        }
                        Err(StatsRepoCacheError::VersionNotExists(String::from_str(my_crate)))
                    } else {
                        Err(StatsRepoCacheError::StatsRepoError(e))
                    }
                },
            },
        }
    }

    /// A possibly cached result list for the named crate. On a miss
    /// the caller loads the document (see
    /// [`StatsRepo::crate_results`]) and hands the outcome in; a
    /// cached entry, present or confirmed absent, answers without
    /// consulting it.
    pub fn crate_results(&mut self, my_crate: &str, fetched: Result<ResultList, StatsRepoError>)
        -> (r: Result<ResultList, StatsRepoCacheError>)
        ensures
            final(self)@ == spec_results_step(
                old(self)@,
                my_crate@,
                fetched_results_view(fetched),
            ).0,
            ({
                let y = spec_results_step(old(self)@, my_crate@, fetched_results_view(fetched)).1;
                match y {
                    Ok(v) => r matches Ok(l) && l@ == v,
                    Err(e) => r matches Err(err) && err@ == e,
                }
            }),
    {
        match lookup_results(&self.crate_results, my_crate) {
            CacheLookup::Value(l) => Ok(l),
            CacheLookup::Negative => Err(
                StatsRepoCacheError::ResultNotExists(String::from_str(my_crate)),
            ),
            CacheLookup::Absent => match fetched {
                Ok(l) => {
                    let out = l.clone();
                    let ghost pre = self.crate_results@;
                    self.crate_results.push((String::from_str(my_crate), Some(l)));
                    proof {
                        assert(self.crate_results@.drop_last() =~= pre);
                    }
                    Ok(out)
                },
                Err(e) => {
                    let not_found = match &e {
                        StatsRepoError::ResultsError(
                            crate::result_list::ResultsError::IoError(IoErrorKind::NotFound),
                        ) => true,
                        _ => false,
                    };
                    if not_found {
                        let ghost pre = self.crate_results@;
                        self.crate_results.push((String::from_str(my_crate), None));
                        proof {
                            assert(self.crate_results@.drop_last() =~= pre);
                        }
                        Err(StatsRepoCacheError::ResultNotExists(String::from_str(my_crate)))
                    } else {
                        Err(StatsRepoCacheError::StatsRepoError(e))
                    }
                },
            },
        }
    }
}

} // verus!
