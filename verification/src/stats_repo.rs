//! The higher level view of a stats repository: the configured root,
//! the configured rust targets, and per-crate paths, enumeration and
//! document loading.

use crate::config::Config;
use crate::crate_dir::{
    spec_rel_path, CrateDir, CrateDirError, CrateDirErrorView,
};
use crate::paths::RepoPath;
use crate::result_list::{ResultList, ResultsError, ResultsErrorView};
use crate::strutil::{
    clone_string_vec, lemma_str_le_total, lemma_str_le_transitive,
    str_le, str_le_exec,
};
use crate::version_list::{VersionList, VersionsError, VersionsErrorView};
use crate::walk::{fresh_level, CrateWalk, CrateWalkModel, SubWalkModel};
use vstd::prelude::*;
use vstd::seq_lib::group_seq_properties;

verus! {

/// Errors from [`StatsRepo`].
#[derive(Debug)]
pub enum StatsRepoError {
    /// Errors from mapping to or from the crate directory layout, or
    /// from walking it.
    CrateDirError(CrateDirError),
    /// Errors from loading a crate's results.
    ResultsError(ResultsError),
    /// Errors from loading a crate's versions.
    VersionsError(VersionsError),
}

/// What a [`StatsRepoError`] is, mathematically.
pub enum StatsRepoErrorView {
    CrateDirError(CrateDirErrorView),
    ResultsError(ResultsErrorView),
    VersionsError(VersionsErrorView),
}

impl View for StatsRepoError {
    type V = StatsRepoErrorView;

    open spec fn view(&self) -> StatsRepoErrorView {
        match self {
            StatsRepoError::CrateDirError(e) => StatsRepoErrorView::CrateDirError(e@),
            StatsRepoError::ResultsError(e) => StatsRepoErrorView::ResultsError(e@),
            StatsRepoError::VersionsError(e) => StatsRepoErrorView::VersionsError(e@),
        }
    }
}

impl Clone for StatsRepoError {
    fn clone(&self) -> (r: Self)
        ensures
            r@ == self@,
    {
        match self {
            StatsRepoError::CrateDirError(e) => StatsRepoError::CrateDirError(e.clone()),
            StatsRepoError::ResultsError(e) => StatsRepoError::ResultsError(e.clone()),
            StatsRepoError::VersionsError(e) => StatsRepoError::VersionsError(e.clone()),
        }
    }
}

/// The general read-only interface to one stats repository.
#[derive(Debug)]
pub struct StatsRepo {
    crate_dir: CrateDir,
    rustcs: Vec<String>,
}

/// What a [`StatsRepo`] is, mathematically: a crate directory and the
/// configured targets.
pub struct StatsRepoView {
    pub root: Seq<Seq<char>>,
    pub prefix: Seq<char>,
    pub rustcs: Seq<Seq<char>>,
}

impl View for StatsRepo {
    type V = StatsRepoView;

    closed spec fn view(&self) -> StatsRepoView {
        StatsRepoView {
            root: self.crate_dir@.root,
            prefix: self.crate_dir@.prefix,
            rustcs: self.rustcs.deep_view(),
        }
    }
}

impl Clone for StatsRepo {
    fn clone(&self) -> (r: Self)
        ensures
            r@ == self@,
    {
        let r = StatsRepo {
            crate_dir: self.crate_dir.clone(),
            rustcs: clone_string_vec(&self.rustcs),
        };
        proof {
            assert(r@.rustcs =~= self@.rustcs);
        }
        r
    }
}

/// An in-band enumeration item is fatal when it is an error other
/// than `NonSection`: those are expected noise at the repository root
/// and are filtered out, everything else aborts name collection.
pub open spec fn is_fatal(r: Result<Seq<char>, CrateDirErrorView>) -> bool {
    r matches Err(e) && !(e is NonSection)
}

/// The names among the in-band items, in order.
pub open spec fn ok_names(s: Seq<Result<Seq<char>, CrateDirErrorView>>) -> Seq<Seq<char>>
    decreases s.len(),
{
    if s.len() == 0 {
        Seq::empty()
    } else {
        ok_names(s.drop_last()) + (match s.last() {
            Ok(n) => seq![n],
            Err(_) => Seq::empty(),
        })
    }
}

/// The first fatal error among the in-band items, if any.
pub open spec fn first_fatal(s: Seq<Result<Seq<char>, CrateDirErrorView>>) -> Option<
    CrateDirErrorView,
>
    decreases s.len(),
{
    if s.len() == 0 {
        None
    } else if first_fatal(s.drop_last()) is Some {
        first_fatal(s.drop_last())
    } else if is_fatal(s.last()) {
        match s.last() {
            Err(e) => Some(e),
            Ok(_) => None,
        }
    } else {
        None
    }
}

/// A fatal error in a prefix of the items is the fatal error of the
/// whole: later items cannot displace an earlier one.
proof fn lemma_first_fatal_prefix(s: Seq<Result<Seq<char>, CrateDirErrorView>>, k: int)
    requires
        0 <= k <= s.len(),
        first_fatal(s.take(k)) is Some,
    ensures
        first_fatal(s) == first_fatal(s.take(k)),
    decreases s.len(),
{
    if k < s.len() {
        assert(s.drop_last().take(k) =~= s.take(k));
        lemma_first_fatal_prefix(s.drop_last(), k);
    } else {
        assert(s.take(k) =~= s);
    }
}

/// The views of a vector of in-band items.
pub open spec fn items_view(items: Seq<Result<String, CrateDirError>>) -> Seq<
    Result<Seq<char>, CrateDirErrorView>,
> {
    items.map_values(
        |r: Result<String, CrateDirError>|
            match r {
                Ok(s) => Ok(s@),
                Err(e) => Err(e@),
            },
    )
}

/// The names are sorted, non-strictly, in lexicographic code-point
/// order.
pub open spec fn sorted_names(s: Seq<Seq<char>>) -> bool {
    forall|i: int, j: int| 0 <= i < j < s.len() ==> str_le(#[trigger] s[i], #[trigger] s[j])
}

/// Sort names in lexicographic code-point order, by selection: the
/// result is sorted and holds exactly the given names.
fn sort_names(names: Vec<String>) -> (r: Vec<String>)
    ensures
        sorted_names(r.deep_view()),
        r.deep_view().to_multiset() == names.deep_view().to_multiset(),
{
    broadcast use vstd::seq_lib::group_to_multiset_ensures;
    broadcast use vstd::multiset::group_multiset_axioms;

    let mut rest = names;
    let mut out: Vec<String> = Vec::new();
    proof {
        assert(out.deep_view().to_multiset().add(rest.deep_view().to_multiset())
            =~= names.deep_view().to_multiset()) by {
            assert(out.deep_view() =~= Seq::<Seq<char>>::empty());
        }
    }
    while rest.len() > 0
        invariant
            sorted_names(out.deep_view()),
            forall|i: int, j: int|
                0 <= i < out.deep_view().len() && 0 <= j < rest.deep_view().len() ==> str_le(
                    #[trigger] out.deep_view()[i],
                    #[trigger] rest.deep_view()[j],
                ),
            out.deep_view().to_multiset().add(rest.deep_view().to_multiset())
                == names.deep_view().to_multiset(),
        decreases rest.len(),
    {
        let mut min_idx: usize = 0;
        let mut k: usize = 1;
        proof {
            lemma_str_le_total(rest.deep_view()[0], rest.deep_view()[0]);
        }
        while k < rest.len()
            invariant
                min_idx < rest.len(),
                k <= rest.len(),
                forall|j: int|
                    0 <= j < k ==> str_le(
                        rest.deep_view()[min_idx as int],
                        #[trigger] rest.deep_view()[j],
                    ),
            decreases rest.len() - k,
        {
            proof {
                lemma_str_le_total(rest.deep_view()[k as int], rest.deep_view()[min_idx as int]);
            }
            if str_le_exec(rest[k].as_str(), rest[min_idx].as_str()) {
                proof {
                    assert forall|j: int| 0 <= j < k + 1 implies str_le(
                        rest.deep_view()[k as int],
                        #[trigger] rest.deep_view()[j],
                    ) by {
                        if j < k {
                            lemma_str_le_transitive(
                                rest.deep_view()[k as int],
                                rest.deep_view()[min_idx as int],
                                rest.deep_view()[j],
                            );
                        } else {
                            lemma_str_le_total(
                                rest.deep_view()[k as int],
                                rest.deep_view()[k as int],
                            );
                        }
                    }
                }
                min_idx = k;
            }
            k = k + 1;
        }
        let ghost pre_rest = rest.deep_view();
        let ghost pre_out = out.deep_view();
        let chosen = rest.remove(min_idx);
        proof {
            assert(rest.deep_view() =~= pre_rest.remove(min_idx as int));
            assert(chosen@ == pre_rest[min_idx as int]);
            vstd::seq_lib::to_multiset_remove(pre_rest, min_idx as int);
            assert(rest.deep_view().to_multiset() == pre_rest.to_multiset().remove(chosen@));
        }
        out.push(chosen);
        proof {
            assert(out.deep_view() =~= pre_out.push(chosen@));
            vstd::seq_lib::to_multiset_build(pre_out, chosen@);
            assert(out.deep_view().to_multiset() == pre_out.to_multiset().insert(chosen@));
            assert(out.deep_view().to_multiset().add(rest.deep_view().to_multiset())
                =~= names.deep_view().to_multiset()) by {
                assert(pre_out.to_multiset().insert(chosen@).add(
                    pre_rest.to_multiset().remove(chosen@),
                ) =~= pre_out.to_multiset().add(pre_rest.to_multiset())) by {
                    assert(pre_rest.to_multiset().count(chosen@) >= 1) by {
                        vstd::seq_lib::to_multiset_contains(pre_rest, chosen@);
                        assert(pre_rest.contains(chosen@)) by {
                            assert(pre_rest[min_idx as int] == chosen@);
                        }
                    }
                }
            }
            assert forall|i: int, j: int|
                0 <= i < out.deep_view().len() && 0 <= j < rest.deep_view().len() implies str_le(
                #[trigger] out.deep_view()[i],
                #[trigger] rest.deep_view()[j],
            ) by {
                if i < pre_out.len() {
                    if j < min_idx {
                        assert(rest.deep_view()[j] == pre_rest[j]);
                    } else {
                        assert(rest.deep_view()[j] == pre_rest[j + 1]);
                    }
                } else {
                    if j < min_idx {
                        assert(rest.deep_view()[j] == pre_rest[j]);
                    } else {
                        assert(rest.deep_view()[j] == pre_rest[j + 1]);
                    }
                }
            }
            assert(sorted_names(out.deep_view())) by {
                assert forall|i: int, j: int|
                    0 <= i < j < out.deep_view().len() implies str_le(
                    #[trigger] out.deep_view()[i],
                    #[trigger] out.deep_view()[j],
                ) by {
                    if j < pre_out.len() {
                        assert(str_le(pre_out[i], pre_out[j]));
                    } else {
                        assert(out.deep_view()[j] == chosen@);
                        assert(str_le(pre_out[i], pre_rest[min_idx as int]));
                    }
                }
            }
        }
    }
    proof {
        assert(rest.deep_view() =~= Seq::<Seq<char>>::empty());
        assert(out.deep_view().to_multiset().add(rest.deep_view().to_multiset())
            =~= out.deep_view().to_multiset());
    }
    out
}

impl StatsRepo {
    /// Build the repository view from configuration, with the fixed
    /// `crates-` section prefix; the target list defaults to empty
    /// when not configured.
    pub fn from_config(c: Config) -> (r: StatsRepo)
        ensures
            r@.root == c.stats_repo.root@,
            r@.prefix == "crates-"@,
            r@.rustcs == match c.targets {
                Some(t) => match t.rustc {
                    Some(v) => v.deep_view(),
                    None => Seq::<Seq<char>>::empty(),
                },
                None => Seq::<Seq<char>>::empty(),
            },
    {
        let rustcs: Vec<String> = match c.rustc() {
            Some(v) => clone_string_vec(v),
            None => Vec::new(),
        };
        let r = StatsRepo { crate_dir: CrateDir::new(c.root(), "crates-"), rustcs };
        proof {
            match c.targets {
                Some(t) => match t.rustc {
                    Some(v) => {
                        assert(r@.rustcs =~= v.deep_view());
                    },
                    None => {
                        assert(r@.rustcs =~= Seq::<Seq<char>>::empty());
                    },
                },
                None => {
                    assert(r@.rustcs =~= Seq::<Seq<char>>::empty());
                },
            }
        }
        r
    }

    /// The configured list of rust targets.
    pub fn rustcs(&self) -> (r: &Vec<String>)
        ensures
            r.deep_view() == self@.rustcs,
    {
        &self.rustcs
    }

    /// A walk that traverses every crate name in the repository; the
    /// caller drives it by serving its listing requests.
    pub fn crate_names_iterator(&self) -> (r: CrateWalk)
        ensures
            r@ == (CrateWalkModel {
                root: self@.root,
                prefix: self@.prefix,
                subs: SubWalkModel {
                    root: self@.root,
                    prefix: self@.prefix,
                    sections: fresh_level(self@.root, self@.prefix),
                    current: None,
                },
                current: None,
            }),
    {
        self.crate_dir.crate_ids()
    }

    /// Collect the crate names from a drained enumeration: discard
    /// the benign `NonSection` items, stop at the first other error,
    /// and sort the names.
    pub fn crate_names(&self, items: Vec<Result<String, CrateDirError>>) -> (r: Result<
        Vec<String>,
        StatsRepoError,
    >)
        ensures
            match first_fatal(items_view(items@)) {
                Some(e) => r matches Err(StatsRepoError::CrateDirError(err)) && err@ == e,
                None => r matches Ok(v) && sorted_names(v.deep_view())
                    && v.deep_view().to_multiset() == ok_names(items_view(items@)).to_multiset(),
            },
    {
        broadcast use group_seq_properties;

        let ghost iv = items_view(items@);
        let mut names: Vec<String> = Vec::new();
        let mut i: usize = 0;
        proof {
            assert(iv.take(0) =~= Seq::<Result<Seq<char>, CrateDirErrorView>>::empty());
            assert(names.deep_view() =~= ok_names(iv.take(0)));
        }
        while i < items.len()
            invariant
                i <= items.len(),
                iv == items_view(items@),
                iv.len() == items@.len(),
                first_fatal(iv.take(i as int)) is None,
                names.deep_view() =~= ok_names(iv.take(i as int)),
            decreases items.len() - i,
        {
            proof {
                assert(iv.take(i + 1 as int).drop_last() =~= iv.take(i as int));
                assert(iv[i as int] == (match items@[i as int] {
                    Ok(s) => Ok::<Seq<char>, CrateDirErrorView>(s@),
                    Err(e) => Err::<Seq<char>, CrateDirErrorView>(e@),
                }));
            }
            match &items[i] {
                Ok(s) => {
                    names.push(s.clone());
                    proof {
                        assert(names.deep_view() =~= ok_names(iv.take(i + 1 as int)));
                    }
                },
                Err(e) => {
                    let fatal = match e {
                        CrateDirError::NonSection(_, _, _) => false,
                        _ => true,
                    };
                    if fatal {
                        let err = e.clone();
                        proof {
                            assert(first_fatal(iv.take(i + 1 as int)) == Some(err@));
                            lemma_first_fatal_prefix(iv, i + 1 as int);
                        }
                        return Err(StatsRepoError::CrateDirError(err));
                    }
                    proof {
                        assert(names.deep_view() =~= ok_names(iv.take(i + 1 as int)));
                    }
                },
            }
            i = i + 1;
        }
        proof {
            assert(iv.take(items@.len() as int) =~= iv);
        }
        let sorted = sort_names(names);
        Ok(sorted)
    }

    /// The absolute path of the named crate's directory.
    pub fn crate_path(&self, my_crate: &str) -> (r: Result<RepoPath, StatsRepoError>)
        ensures
            my_crate@.len() == 0 ==> (r matches Err(StatsRepoError::CrateDirError(e)) && e@
                == CrateDirErrorView::BadCrateName(my_crate@)),
            my_crate@.len() > 0 ==> (r matches Ok(p) && p@ == self@.root + spec_rel_path(
                self@.prefix,
                my_crate@,
            )),
    {
        match self.crate_dir.abs_path_to(my_crate) {
            Ok(p) => Ok(p),
            Err(e) => Err(StatsRepoError::CrateDirError(e)),
        }
    }

    /// The absolute path of a file under the named crate's directory.
    pub fn crate_file_path(&self, my_crate: &str, file: &str) -> (r: Result<
        RepoPath,
        StatsRepoError,
    >)
        ensures
            my_crate@.len() == 0 ==> (r matches Err(StatsRepoError::CrateDirError(e)) && e@
                == CrateDirErrorView::BadCrateName(my_crate@)),
            my_crate@.len() > 0 ==> (r matches Ok(p) && p@ == (self@.root + spec_rel_path(
                self@.prefix,
                my_crate@,
            )).push(file@)),
    {
        match self.crate_dir.abs_path_to_file(my_crate, file) {
            Ok(p) => Ok(p),
            Err(e) => Err(StatsRepoError::CrateDirError(e)),
        }
    }

    /// The absolute path of the named crate's `versions.json`.
    pub fn crate_versions_path(&self, my_crate: &str) -> (r: Result<RepoPath, StatsRepoError>)
        ensures
            my_crate@.len() == 0 ==> (r matches Err(StatsRepoError::CrateDirError(e)) && e@
                == CrateDirErrorView::BadCrateName(my_crate@)),
            my_crate@.len() > 0 ==> (r matches Ok(p) && p@ == (self@.root + spec_rel_path(
                self@.prefix,
                my_crate@,
            )).push("versions.json"@)),
    {
        self.crate_file_path(my_crate, "versions.json")
    }

    /// The absolute path of the named crate's `results.json`.
    pub fn crate_results_path(&self, my_crate: &str) -> (r: Result<RepoPath, StatsRepoError>)
        ensures
            my_crate@.len() == 0 ==> (r matches Err(StatsRepoError::CrateDirError(e)) && e@
                == CrateDirErrorView::BadCrateName(my_crate@)),
            my_crate@.len() > 0 ==> (r matches Ok(p) && p@ == (self@.root + spec_rel_path(
                self@.prefix,
                my_crate@,
            )).push("results.json"@)),
    {
        self.crate_file_path(my_crate, "results.json")
    }

    /// The absolute path of the named crate's `index.html`.
    pub fn crate_index_path(&self, my_crate: &str) -> (r: Result<RepoPath, StatsRepoError>)
        ensures
            my_crate@.len() == 0 ==> (r matches Err(StatsRepoError::CrateDirError(e)) && e@
                == CrateDirErrorView::BadCrateName(my_crate@)),
            my_crate@.len() > 0 ==> (r matches Ok(p) && p@ == (self@.root + spec_rel_path(
                self@.prefix,
                my_crate@,
            )).push("index.html"@)),
    {
        self.crate_file_path(my_crate, "index.html")
    }

    /// The named crate's version list: the name must derive a path,
    /// and then the loaded document — which the caller reads from
    /// [`Self::crate_versions_path`] — is passed through, with its
    /// error wrapped.
    pub fn crate_versions(&self, my_crate: &str, loaded: Result<VersionList, VersionsError>) -> (r:
        Result<VersionList, StatsRepoError>)
        ensures
            my_crate@.len() == 0 ==> (r matches Err(StatsRepoError::CrateDirError(e)) && e@
                == CrateDirErrorView::BadCrateName(my_crate@)),
            my_crate@.len() > 0 ==> match loaded {
                Ok(v) => r matches Ok(rv) && rv@ == v@,
                Err(e) => r matches Err(StatsRepoError::VersionsError(re)) && re@ == e@,
            },
    {
        if let Err(e) = self.crate_versions_path(my_crate) {
            return Err(e);
        }
        match loaded {
            Ok(v) => Ok(v),
            Err(e) => Err(StatsRepoError::VersionsError(e)),
        }
    }

    /// The named crate's result list: the name must derive a path,
    /// and then the loaded document — which the caller reads from
    /// [`Self::crate_results_path`] — is passed through, with its
    /// error wrapped.
    pub fn crate_results(&self, my_crate: &str, loaded: Result<ResultList, ResultsError>) -> (r:
        Result<ResultList, StatsRepoError>)
        ensures
            my_crate@.len() == 0 ==> (r matches Err(StatsRepoError::CrateDirError(e)) && e@
                == CrateDirErrorView::BadCrateName(my_crate@)),
            my_crate@.len() > 0 ==> match loaded {
                Ok(v) => r matches Ok(rv) && rv@ == v@,
                Err(e) => r matches Err(StatsRepoError::ResultsError(re)) && re@ == e@,
            },
    {
        if let Err(e) = self.crate_results_path(my_crate) {
            return Err(e);
        }
        match loaded {
            Ok(v) => Ok(v),
            Err(e) => Err(StatsRepoError::ResultsError(e)),
        }
    }
}

} // verus!
