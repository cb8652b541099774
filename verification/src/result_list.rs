//! Build-result records for the versions of one crate, and the point
//! query over them.
//!
//! The on-disk `results.json` document decodes into a list of
//! [`ResultInfo`] records, one per version, each naming the compilers
//! the build passed on and the ones it failed on. The list is
//! expected sorted by version so the point query can use binary
//! search.

use crate::entry::IoErrorKind;
use crate::strutil::{
    clone_string_vec, contains_str, lemma_str_le_antisymmetric, lemma_str_le_total,
    lemma_str_le_transitive, str_eq, str_le, str_le_exec, str_lt,
};
use core::cmp::Ordering;
use vstd::prelude::*;

verus! {

/// Errors from loading a crate's result document.
#[derive(Debug)]
pub enum ResultsError {
    /// Reading the document failed.
    IoError(IoErrorKind),
    /// The document did not decode as result records; the decoder's
    /// description is kept.
    DecodeError(String),
}

/// What a [`ResultsError`] is, mathematically.
pub enum ResultsErrorView {
    IoError(IoErrorKind),
    DecodeError(Seq<char>),
}

impl View for ResultsError {
    type V = ResultsErrorView;

    open spec fn view(&self) -> ResultsErrorView {
        match self {
            ResultsError::IoError(k) => ResultsErrorView::IoError(*k),
            ResultsError::DecodeError(m) => ResultsErrorView::DecodeError(m@),
        }
    }
}

impl Clone for ResultsError {
    fn clone(&self) -> (r: Self)
        ensures
            r@ == self@,
    {
        match self {
            ResultsError::IoError(k) => ResultsError::IoError(*k),
            ResultsError::DecodeError(m) => ResultsError::DecodeError(m.clone()),
        }
    }
}

/// The build result for a single version of a crate on a single
/// compiler.
#[derive(Debug, Clone, Copy, PartialEq, Eq, Structural)]
pub enum ResultType {
    /// The build passed.
    Pass,
    /// The build failed.
    Fail,
    /// No known status for the build.
    Unknown,
}

/// Build result information for a single version of one crate.
#[derive(Debug)]
pub struct ResultInfo {
    crate_name: String,
    num: String,
    rustc_fail: Vec<String>,
    rustc_pass: Vec<String>,
}

/// What a [`ResultInfo`] is, mathematically.
pub struct ResultInfoView {
    pub crate_name: Seq<char>,
    pub num: Seq<char>,
    pub rustc_fail: Seq<Seq<char>>,
    pub rustc_pass: Seq<Seq<char>>,
}

impl View for ResultInfo {
    type V = ResultInfoView;

    closed spec fn view(&self) -> ResultInfoView {
        ResultInfoView {
            crate_name: self.crate_name@,
            num: self.num@,
            rustc_fail: self.rustc_fail.deep_view(),
            rustc_pass: self.rustc_pass.deep_view(),
        }
    }
}

impl DeepView for ResultInfo {
    type V = ResultInfoView;

    open spec fn deep_view(&self) -> ResultInfoView {
        self.view()
    }
}

impl Clone for ResultInfo {
    fn clone(&self) -> (r: Self)
        ensures
            r@ == self@,
    {
        let r = ResultInfo {
            crate_name: self.crate_name.clone(),
            num: self.num.clone(),
            rustc_fail: clone_string_vec(&self.rustc_fail),
            rustc_pass: clone_string_vec(&self.rustc_pass),
        };
        proof {
            assert(r@.rustc_fail =~= self@.rustc_fail);
            assert(r@.rustc_pass =~= self@.rustc_pass);
        }
        r
    }
}

/// The result one record reports for one compiler: `Fail` when the
/// compiler is in the failed list, else `Pass` when it is in the
/// passed list, else `Unknown`.
pub open spec fn spec_rustc_result(info: ResultInfoView, rustc: Seq<char>) -> ResultType {
    if info.rustc_fail.contains(rustc) {
        ResultType::Fail
    } else if info.rustc_pass.contains(rustc) {
        ResultType::Pass
    } else {
        ResultType::Unknown
    }
}

impl ResultInfo {
    /// A record from its parts: the crate's name, the version number,
    /// and the compilers the build failed and passed on.
    pub fn new(crate_name: String, num: String, rustc_fail: Vec<String>, rustc_pass: Vec<String>)
        -> (r: ResultInfo)
        ensures
            r@.crate_name == crate_name@,
            r@.num == num@,
            r@.rustc_fail == rustc_fail.deep_view(),
            r@.rustc_pass == rustc_pass.deep_view(),
    {
        ResultInfo { crate_name, num, rustc_fail, rustc_pass }
    }

    /// The result of this version's build on the given compiler.
    pub fn rustc_result(&self, rustc: &str) -> (r: ResultType)
        ensures
            r == spec_rustc_result(self@, rustc@),
    {
        if contains_str(&self.rustc_fail, rustc) {
            ResultType::Fail
        } else if contains_str(&self.rustc_pass, rustc) {
            ResultType::Pass
        } else {
            ResultType::Unknown
        }
    }

    /// How this record's version number compares with `version`, in
    /// lexicographic code-point order.
    pub fn version_cmp(&self, version: &str) -> (r: Ordering)
        ensures
            r == Ordering::Equal <==> self@.num == version@,
            r == Ordering::Less <==> str_lt(self@.num, version@),
            r == Ordering::Greater <==> str_lt(version@, self@.num),
    {
        proof {
            lemma_str_le_total(self@.num, version@);
            if str_le(self@.num, version@) && str_le(version@, self@.num) {
                lemma_str_le_antisymmetric(self@.num, version@);
            }
        }
        if str_eq(self.num.as_str(), version) {
            Ordering::Equal
        } else if str_le_exec(self.num.as_str(), version) {
            Ordering::Less
        } else {
            Ordering::Greater
        }
    }

    /// The crate version this record is for.
    pub fn version(&self) -> (r: &String)
        ensures
            r@ == self@.num,
    {
        &self.num
    }
}

/// The records of one crate's `results.json`, in file order.
#[derive(Debug)]
pub struct ResultList {
    records: Vec<ResultInfo>,
}

impl View for ResultList {
    type V = Seq<ResultInfoView>;

    closed spec fn view(&self) -> Seq<ResultInfoView> {
        self.records.deep_view()
    }
}

impl Clone for ResultList {
    fn clone(&self) -> (r: Self)
        ensures
            r@ == self@,
    {
        let mut records: Vec<ResultInfo> = Vec::new();
        let mut i: usize = 0;
        while i < self.records.len()
            invariant
                i <= self.records.len(),
                records.deep_view() =~= self@.take(i as int),
            decreases self.records.len() - i,
        {
            let item = self.records[i].clone();
            proof {
                assert(item@ == self@[i as int]);
            }
            records.push(item);
            proof {
                assert(records.deep_view() =~= self@.take(i as int).push(self@[i as int]));
                assert(self@.take(i as int).push(self@[i as int]) =~= self@.take(i + 1 as int));
            }
            i = i + 1;
        }
        proof {
            assert(self@.take(self@.len() as int) =~= self@);
        }
        ResultList { records }
    }
}

/// The records are sorted by version number, non-strictly, in
/// lexicographic code-point order.
pub open spec fn sorted_by_version(s: Seq<ResultInfoView>) -> bool {
    forall|i: int, j: int| 0 <= i < j < s.len() ==> str_le(#[trigger] s[i].num, #[trigger] s[j].num)
}

impl ResultList {
    /// A result list from its records, which callers are expected to
    /// supply sorted by version.
    pub fn new(records: Vec<ResultInfo>) -> (r: ResultList)
        ensures
            r@ == records.deep_view(),
    {
        ResultList { records }
    }

    /// How many records the list holds.
    pub fn len(&self) -> (r: usize)
        ensures
            r == self@.len(),
    {
        self.records.len()
    }

    /// The record at one position.
    pub fn get(&self, i: usize) -> (r: &ResultInfo)
        requires
            i < self@.len(),
        ensures
            r@ == self@[i as int],
    {
        &self.records[i]
    }

    /// The result of building `version` with `rustc`, found by binary
    /// search over the version numbers: when the records are sorted,
    /// the matching record's answer, or `Unknown` when no record
    /// matches.
    pub fn rustc_result(&self, version: &str, rustc: &str) -> (r: ResultType)
        ensures
            sorted_by_version(self@) ==> if exists|i: int|
                0 <= i < self@.len() && (#[trigger] self@[i].num) == version@ {
                exists|i: int|
                    0 <= i < self@.len() && (#[trigger] self@[i].num) == version@ && r
                        == spec_rustc_result(self@[i], rustc@)
            } else {
                r == ResultType::Unknown
            },
    {
        let mut lo: usize = 0;
        let mut hi: usize = self.records.len();
        while lo < hi
            invariant
                lo <= hi <= self@.len(),
                sorted_by_version(self@) ==> forall|i: int|
                    0 <= i < lo ==> str_lt(#[trigger] self@[i].num, version@),
                sorted_by_version(self@) ==> forall|i: int|
                    hi <= i < self@.len() ==> str_lt(version@, #[trigger] self@[i].num),
            decreases hi - lo,
        {
            let mid = lo + (hi - lo) / 2;
            match self.records[mid].version_cmp(version) {
                Ordering::Equal => {
                    let res = self.records[mid].rustc_result(rustc);
                    proof {
                        assert(0 <= mid < self@.len() && (#[trigger] self@[mid as int].num)
                            == version@ && res == spec_rustc_result(self@[mid as int], rustc@));
                    }
                    return res;
                },
                Ordering::Less => {
                    proof {
                        if sorted_by_version(self@) {
                            assert forall|i: int| 0 <= i < mid + 1 implies str_lt(
                                #[trigger] self@[i].num,
                                version@,
                            ) by {
                                if i < mid {
                                    lemma_str_le_transitive(
                                        self@[i].num,
                                        self@[mid as int].num,
                                        version@,
                                    );
                                    if self@[i].num == version@ {
                                        lemma_str_le_antisymmetric(
                                            self@[mid as int].num,
                                            self@[i].num,
                                        );
                                    }
                                }
                            }
                        }
                    }
                    lo = mid + 1;
                },
                Ordering::Greater => {
                    proof {
                        if sorted_by_version(self@) {
                            assert forall|i: int| mid <= i < self@.len() implies str_lt(
                                version@,
                                #[trigger] self@[i].num,
                            ) by {
                                if i > mid {
                                    lemma_str_le_transitive(
                                        version@,
                                        self@[mid as int].num,
                                        self@[i].num,
                                    );
                                    if self@[i].num == version@ {
                                        lemma_str_le_antisymmetric(
                                            self@[i].num,
                                            self@[mid as int].num,
                                        );
                                    }
                                }
                            }
                        }
                    }
                    hi = mid;
                },
            }
        }
        ResultType::Unknown
    }
}

} // verus!
