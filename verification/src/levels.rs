//! Per-level validation of directory entries against the shard
//! naming scheme, and the streams that apply it while walking one
//! directory level.
//!
//! A validation failure never stops a stream: each raw entry, valid
//! or not, becomes one `Result` item and the walk goes on with the
//! next entry. Only the failure to list the directory at all ends a
//! stream early (see [`crate::stream`]).

use crate::crate_dir::{id_result_view, CrateDirError, CrateDirErrorView};
use crate::entry::{EntryName, EntryNameView, IoErrorKind};
use crate::paths::RepoPath;
use crate::stream::{spec_stream_next, InBandDirIterator, Step, StepView, StreamModel};
use crate::strutil::{is_prefix_of, str_starts_with};
use vstd::prelude::*;

verus! {

/// How one raw entry of the repository root is judged: the section id
/// after the prefix when the entry is `<prefix><one character>`,
/// `BadSection` when the prefix is followed by any other number of
/// characters, `NonSection` when the prefix is missing entirely, and
/// `NotUnicode` when the name did not decode.
pub open spec fn spec_classify_section(
    n: EntryNameView,
    prefix: Seq<char>,
    root: Seq<Seq<char>>,
) -> Result<Seq<char>, CrateDirErrorView> {
    match n {
        EntryNameView::NonUnicode(_) => Err(CrateDirErrorView::NotUnicode(n)),
        EntryNameView::Unicode(s) => if is_prefix_of(prefix, s) {
            if s.len() == prefix.len() + 1 {
                Ok(s.skip(prefix.len() as int))
            } else {
                Err(CrateDirErrorView::BadSection(n, prefix, root))
            }
        } else {
            Err(CrateDirErrorView::NonSection(n, prefix, root))
        },
    }
}

/// How one raw entry of a section directory is judged: the entry name
/// itself when it is one or two characters starting with the
/// section's id, else `BadSubSection`.
pub open spec fn spec_classify_subsection(
    n: EntryNameView,
    prefix: Seq<char>,
    root: Seq<Seq<char>>,
) -> Result<Seq<char>, CrateDirErrorView> {
    match n {
        EntryNameView::NonUnicode(_) => Err(CrateDirErrorView::NotUnicode(n)),
        EntryNameView::Unicode(s) => if s.len() <= 2 && is_prefix_of(prefix, s) {
            Ok(s)
        } else {
            Err(CrateDirErrorView::BadSubSection(n, prefix, root))
        },
    }
}

/// How one raw entry of a subsection directory is judged: the entry
/// name itself when it starts with the subsection's id, else
/// `BadCrate`.
pub open spec fn spec_classify_crate(
    n: EntryNameView,
    prefix: Seq<char>,
    root: Seq<Seq<char>>,
) -> Result<Seq<char>, CrateDirErrorView> {
    match n {
        EntryNameView::NonUnicode(_) => Err(CrateDirErrorView::NotUnicode(n)),
        EntryNameView::Unicode(s) => if is_prefix_of(prefix, s) {
            Ok(s)
        } else {
            Err(CrateDirErrorView::BadCrate(n, prefix, root))
        },
    }
}

/// The executable result matches what the section classifier says.
pub open spec fn section_classified(
    n: EntryNameView,
    prefix: Seq<char>,
    root: Seq<Seq<char>>,
    r: Result<String, CrateDirError>,
) -> bool {
    id_result_view(r) == spec_classify_section(n, prefix, root)
}

/// The executable result matches what the subsection classifier says.
pub open spec fn subsection_classified(
    n: EntryNameView,
    prefix: Seq<char>,
    root: Seq<Seq<char>>,
    r: Result<String, CrateDirError>,
) -> bool {
    id_result_view(r) == spec_classify_subsection(n, prefix, root)
}

/// The executable result matches what the crate classifier says.
pub open spec fn crate_classified(
    n: EntryNameView,
    prefix: Seq<char>,
    root: Seq<Seq<char>>,
    r: Result<String, CrateDirError>,
) -> bool {
    id_result_view(r) == spec_classify_crate(n, prefix, root)
}

/// Judge one raw entry of the repository root.
pub fn classify_section(entry: EntryName, prefix: &str, root: &RepoPath) -> (r: Result<
    String,
    CrateDirError,
>)
    ensures
        section_classified(entry@, prefix@, root@, r),
{
    match entry {
        EntryName::NonUnicode(b) => Err(
            CrateDirError::NotUnicode(EntryName::NonUnicode(b)),
        ),
        EntryName::Unicode(s) => {
            if str_starts_with(s.as_str(), prefix) {
                let s_len = s.as_str().unicode_len();
                let p_len = prefix.unicode_len();
                if s_len - p_len == 1 {
                    Ok(String::from_str(s.as_str().substring_char(p_len, s_len)))
                } else {
                    Err(
                        CrateDirError::BadSection(
                            EntryName::Unicode(s),
                            String::from_str(prefix),
                            root.clone(),
                        ),
                    )
                }
            } else {
                Err(
                    CrateDirError::NonSection(
                        EntryName::Unicode(s),
                        String::from_str(prefix),
                        root.clone(),
                    ),
                )
            }
        },
    }
}

/// Judge one raw entry of a section directory.
pub fn classify_subsection(entry: EntryName, prefix: &str, root: &RepoPath) -> (r: Result<
    String,
    CrateDirError,
>)
    ensures
        subsection_classified(entry@, prefix@, root@, r),
{
    match entry {
        EntryName::NonUnicode(b) => Err(
            CrateDirError::NotUnicode(EntryName::NonUnicode(b)),
        ),
        EntryName::Unicode(s) => {
            if s.as_str().unicode_len() <= 2 && str_starts_with(s.as_str(), prefix) {
                Ok(s)
            } else {
                Err(
                    CrateDirError::BadSubSection(
                        EntryName::Unicode(s),
                        String::from_str(prefix),
                        root.clone(),
                    ),
                )
            }
        },
    }
}

/// Judge one raw entry of a subsection directory.
pub fn classify_crate(entry: EntryName, prefix: &str, root: &RepoPath) -> (r: Result<
    String,
    CrateDirError,
>)
    ensures
        crate_classified(entry@, prefix@, root@, r),
{
    match entry {
        EntryName::NonUnicode(b) => Err(
            CrateDirError::NotUnicode(EntryName::NonUnicode(b)),
        ),
        EntryName::Unicode(s) => {
            if str_starts_with(s.as_str(), prefix) {
                Ok(s)
            } else {
                Err(
                    CrateDirError::BadCrate(
                        EntryName::Unicode(s),
                        String::from_str(prefix),
                        root.clone(),
                    ),
                )
            }
        },
    }
}

/// The state of one validating level stream, mathematically.
pub struct LevelModel {
    /// The expected prefix at this level.
    pub prefix: Seq<char>,
    /// The directory being walked, kept for error reporting.
    pub root: Seq<Seq<char>>,
    /// The raw stream underneath.
    pub inner: StreamModel,
}

/// What one pull from a validating (or composing) walk yields,
/// mathematically.
pub enum WalkYield {
    NeedListing(Seq<Seq<char>>),
    Item(Result<Seq<char>, CrateDirErrorView>),
    End,
}

/// The transition one pull of a validating level stream makes: the
/// raw stream takes one step, the level's own prefix and directory
/// stay as they are, and a raw entry is judged by `classify`.
pub open spec fn spec_level_next(
    m: LevelModel,
    classify: spec_fn(EntryNameView, Seq<char>, Seq<Seq<char>>) -> Result<
        Seq<char>,
        CrateDirErrorView,
    >,
) -> (LevelModel, WalkYield) {
    let (m1, s1) = spec_stream_next(m.inner);
    let post = LevelModel { prefix: m.prefix, root: m.root, inner: m1 };
    let y = match s1 {
        StepView::NeedListing(p) => WalkYield::NeedListing(p),
        StepView::Item(Ok(n)) => WalkYield::Item(classify(n, m.prefix, m.root)),
        StepView::Item(Err(k)) => WalkYield::Item(Err(CrateDirErrorView::IoError(k))),
        StepView::End => WalkYield::End,
    };
    (post, y)
}

/// An executable step yields exactly what the model yield says.
pub open spec fn walk_yield_matches(r: Step<Result<String, CrateDirError>>, y: WalkYield) -> bool {
    match y {
        WalkYield::NeedListing(p) => r matches Step::NeedListing(q) && q@ == p,
        WalkYield::Item(x) => r matches Step::Item(res) && id_result_view(res) == x,
        WalkYield::End => r is End,
    }
}

/// Walks the repository root, yielding each entry's section id or its
/// classification error.
#[derive(Debug)]
pub struct SectionIterator {
    root: RepoPath,
    prefix: String,
    inner: InBandDirIterator,
}

impl View for SectionIterator {
    type V = LevelModel;

    closed spec fn view(&self) -> LevelModel {
        LevelModel { prefix: self.prefix@, root: self.root@, inner: self.inner@ }
    }
}

impl SectionIterator {
    /// A not-yet-started walk of the entries of `root`, validated as
    /// sections with the given prefix.
    pub fn new(root: &RepoPath, prefix: &str) -> (r: SectionIterator)
        ensures
            r@.prefix == prefix@,
            r@.root == root@,
            r@.inner == (StreamModel { root: root@, listing: None, pos: 0 }),
    {
        SectionIterator {
            root: root.clone(),
            prefix: String::from_str(prefix),
            inner: InBandDirIterator::new(root),
        }
    }

    /// Whether the walk is waiting for its directory listing.
    pub fn wants_listing(&self) -> (r: bool)
        ensures
            r == (self@.inner.listing is None),
    {
        self.inner.wants_listing()
    }

    /// Hand the walk the outcome of listing its directory.
    pub fn provide_listing(&mut self, outcome: Result<Vec<EntryName>, IoErrorKind>)
        requires
            old(self)@.inner.listing is None,
        ensures
            final(self)@.prefix == old(self)@.prefix,
            final(self)@.root == old(self)@.root,
            final(self)@.inner == (StreamModel {
                root: old(self)@.inner.root,
                listing: match outcome {
                    Ok(entries) => Some(Ok(entries.deep_view())),
                    Err(e) => Some(Err(e)),
                },
                pos: 0,
            }),
    {
        self.inner.provide_listing(outcome);
    }

    /// The prefix this walk validates against, as an owned string.
    pub fn prefix_string(&self) -> (r: String)
        ensures
            r@ == self@.prefix,
    {
        self.prefix.clone()
    }

    /// Pull the next judged section entry.
    pub fn next(&mut self) -> (r: Step<Result<String, CrateDirError>>)
        ensures
            final(self)@ == spec_level_next(old(self)@, |n, p, rt| spec_classify_section(n, p, rt)).0,
            walk_yield_matches(
                r,
                spec_level_next(old(self)@, |n, p, rt| spec_classify_section(n, p, rt)).1,
            ),
    {
        match self.inner.next() {
            Step::NeedListing(p) => Step::NeedListing(p),
            Step::End => Step::End,
            Step::Item(Err(k)) => Step::Item(Err(CrateDirError::IoError(k))),
            Step::Item(Ok(entry)) => Step::Item(
                classify_section(entry, self.prefix.as_str(), &self.root),
            ),
        }
    }
}

/// Walks one section directory, yielding each entry's subsection id
/// or its classification error.
#[derive(Debug)]
pub struct SubSectionIterator {
    root: RepoPath,
    prefix: String,
    inner: InBandDirIterator,
}

impl View for SubSectionIterator {
    type V = LevelModel;

    closed spec fn view(&self) -> LevelModel {
        LevelModel { prefix: self.prefix@, root: self.root@, inner: self.inner@ }
    }
}

impl SubSectionIterator {
    /// A not-yet-started walk of the entries of `root`, validated as
    /// subsections of the section `prefix`.
    pub fn new(root: &RepoPath, prefix: &str) -> (r: SubSectionIterator)
        ensures
            r@.prefix == prefix@,
            r@.root == root@,
            r@.inner == (StreamModel { root: root@, listing: None, pos: 0 }),
    {
        SubSectionIterator {
            root: root.clone(),
            prefix: String::from_str(prefix),
            inner: InBandDirIterator::new(root),
        }
    }

    /// Whether the walk is waiting for its directory listing.
    pub fn wants_listing(&self) -> (r: bool)
        ensures
            r == (self@.inner.listing is None),
    {
        self.inner.wants_listing()
    }

    /// Hand the walk the outcome of listing its directory.
    pub fn provide_listing(&mut self, outcome: Result<Vec<EntryName>, IoErrorKind>)
        requires
            old(self)@.inner.listing is None,
        ensures
            final(self)@.prefix == old(self)@.prefix,
            final(self)@.root == old(self)@.root,
            final(self)@.inner == (StreamModel {
                root: old(self)@.inner.root,
                listing: match outcome {
                    Ok(entries) => Some(Ok(entries.deep_view())),
                    Err(e) => Some(Err(e)),
                },
                pos: 0,
            }),
    {
        self.inner.provide_listing(outcome);
    }

    /// Pull the next judged subsection entry.
    pub fn next(&mut self) -> (r: Step<Result<String, CrateDirError>>)
        ensures
            final(self)@ == spec_level_next(
                old(self)@,
                |n, p, rt| spec_classify_subsection(n, p, rt),
            ).0,
            walk_yield_matches(
                r,
                spec_level_next(old(self)@, |n, p, rt| spec_classify_subsection(n, p, rt)).1,
            ),
    {
        match self.inner.next() {
            Step::NeedListing(p) => Step::NeedListing(p),
            Step::End => Step::End,
            Step::Item(Err(k)) => Step::Item(Err(CrateDirError::IoError(k))),
            Step::Item(Ok(entry)) => Step::Item(
                classify_subsection(entry, self.prefix.as_str(), &self.root),
            ),
        }
    }
}

/// Walks one subsection directory, yielding each entry's crate name
/// or its classification error.
#[derive(Debug)]
pub struct CrateIterator {
    root: RepoPath,
    prefix: String,
    inner: InBandDirIterator,
}

impl View for CrateIterator {
    type V = LevelModel;

    closed spec fn view(&self) -> LevelModel {
        LevelModel { prefix: self.prefix@, root: self.root@, inner: self.inner@ }
    }
}

impl CrateIterator {
    /// A not-yet-started walk of the entries of `root`, validated as
    /// crates of the subsection `prefix`.
    pub fn new(root: &RepoPath, prefix: &str) -> (r: CrateIterator)
        ensures
            r@.prefix == prefix@,
            r@.root == root@,
            r@.inner == (StreamModel { root: root@, listing: None, pos: 0 }),
    {
        CrateIterator {
            root: root.clone(),
            prefix: String::from_str(prefix),
            inner: InBandDirIterator::new(root),
        }
    }

    /// Whether the walk is waiting for its directory listing.
    pub fn wants_listing(&self) -> (r: bool)
        ensures
            r == (self@.inner.listing is None),
    {
        self.inner.wants_listing()
    }

    /// Hand the walk the outcome of listing its directory.
    pub fn provide_listing(&mut self, outcome: Result<Vec<EntryName>, IoErrorKind>)
        requires
            old(self)@.inner.listing is None,
        ensures
            final(self)@.prefix == old(self)@.prefix,
            final(self)@.root == old(self)@.root,
            final(self)@.inner == (StreamModel {
                root: old(self)@.inner.root,
                listing: match outcome {
                    Ok(entries) => Some(Ok(entries.deep_view())),
                    Err(e) => Some(Err(e)),
                },
                pos: 0,
            }),
    {
        self.inner.provide_listing(outcome);
    }

    /// Pull the next judged crate entry.
    pub fn next(&mut self) -> (r: Step<Result<String, CrateDirError>>)
        ensures
            final(self)@ == spec_level_next(old(self)@, |n, p, rt| spec_classify_crate(n, p, rt)).0,
            walk_yield_matches(
                r,
                spec_level_next(old(self)@, |n, p, rt| spec_classify_crate(n, p, rt)).1,
            ),
    {
        match self.inner.next() {
            Step::NeedListing(p) => Step::NeedListing(p),
            Step::End => Step::End,
            Step::Item(Err(k)) => Step::Item(Err(CrateDirError::IoError(k))),
            Step::Item(Ok(entry)) => Step::Item(
                classify_crate(entry, self.prefix.as_str(), &self.root),
            ),
        }
    }
}

/// The transition one pull of the section-names stream makes: like
/// the section stream, but an `Ok` section id is yielded with the
/// prefix back in front — the full directory name, e.g. `crates-a`.
pub open spec fn spec_section_names_next(m: LevelModel) -> (LevelModel, WalkYield) {
    let (m1, y) = spec_level_next(m, |n, p, rt| spec_classify_section(n, p, rt));
    let y2 = match y {
        WalkYield::Item(Ok(id)) => WalkYield::Item(Ok(m.prefix + id)),
        _ => y,
    };
    (m1, y2)
}

/// Walks the repository root, yielding each valid entry's full
/// section directory name (prefix included) or its classification
/// error.
#[derive(Debug)]
pub struct SectionNamesIterator {
    inner: SectionIterator,
}

impl View for SectionNamesIterator {
    type V = LevelModel;

    closed spec fn view(&self) -> LevelModel {
        self.inner@
    }
}

impl SectionNamesIterator {
    /// A not-yet-started walk of the entries of `root`, yielding full
    /// section names with the given prefix.
    pub fn new(root: &RepoPath, prefix: &str) -> (r: SectionNamesIterator)
        ensures
            r@.prefix == prefix@,
            r@.root == root@,
            r@.inner == (StreamModel { root: root@, listing: None, pos: 0 }),
    {
        SectionNamesIterator { inner: SectionIterator::new(root, prefix) }
    }

    /// Whether the walk is waiting for its directory listing.
    pub fn wants_listing(&self) -> (r: bool)
        ensures
            r == (self@.inner.listing is None),
    {
        self.inner.wants_listing()
    }

    /// Hand the walk the outcome of listing its directory.
    pub fn provide_listing(&mut self, outcome: Result<Vec<EntryName>, IoErrorKind>)
        requires
            old(self)@.inner.listing is None,
        ensures
            final(self)@.prefix == old(self)@.prefix,
            final(self)@.root == old(self)@.root,
            final(self)@.inner == (StreamModel {
                root: old(self)@.inner.root,
                listing: match outcome {
                    Ok(entries) => Some(Ok(entries.deep_view())),
                    Err(e) => Some(Err(e)),
                },
                pos: 0,
            }),
    {
        self.inner.provide_listing(outcome);
    }

    /// Pull the next judged section entry, as a full directory name.
    pub fn next(&mut self) -> (r: Step<Result<String, CrateDirError>>)
        ensures
            final(self)@ == spec_section_names_next(old(self)@).0,
            walk_yield_matches(r, spec_section_names_next(old(self)@).1),
    {
        let prefix = self.inner.prefix_string();
        match self.inner.next() {
            Step::NeedListing(p) => Step::NeedListing(p),
            Step::End => Step::End,
            Step::Item(Err(e)) => Step::Item(Err(e)),
            Step::Item(Ok(id)) => Step::Item(Ok(prefix.concat(id.as_str()))),
        }
    }
}

/// What a strict scan of the repository root yields: the section ids
/// in order, stopping at the first entry that is undecodable or that
/// carries the prefix with other than one character after it; entries
/// without the prefix are silently skipped.
pub open spec fn spec_sections_in(
    s: Seq<EntryNameView>,
    prefix: Seq<char>,
    root: Seq<Seq<char>>,
) -> Result<Seq<Seq<char>>, CrateDirErrorView>
    decreases s.len(),
{
    if s.len() == 0 {
        Ok(Seq::empty())
    } else {
        match spec_sections_in(s.drop_last(), prefix, root) {
            Err(e) => Err(e),
            Ok(ids) => match s.last() {
                EntryNameView::NonUnicode(_) => Err(CrateDirErrorView::NotUnicode(s.last())),
                EntryNameView::Unicode(n) => if is_prefix_of(prefix, n) {
                    if n.len() == prefix.len() + 1 {
                        Ok(ids.push(n.skip(prefix.len() as int)))
                    } else {
                        Err(CrateDirErrorView::BadSection(s.last(), prefix, root))
                    }
                } else {
                    Ok(ids)
                },
            },
        }
    }
}

/// What a strict scan of one section yields: the subsection ids in
/// order, stopping at the first entry that is not a valid subsection.
pub open spec fn spec_subsections_in(
    s: Seq<EntryNameView>,
    prefix: Seq<char>,
    root: Seq<Seq<char>>,
) -> Result<Seq<Seq<char>>, CrateDirErrorView>
    decreases s.len(),
{
    if s.len() == 0 {
        Ok(Seq::empty())
    } else {
        match spec_subsections_in(s.drop_last(), prefix, root) {
            Err(e) => Err(e),
            Ok(ids) => match spec_classify_subsection(s.last(), prefix, root) {
                Ok(id) => Ok(ids.push(id)),
                Err(e) => Err(e),
            },
        }
    }
}

/// What a strict scan of one subsection yields: the crate names in
/// order, stopping at the first entry that is not a valid crate of
/// it.
pub open spec fn spec_crates_in(
    s: Seq<EntryNameView>,
    prefix: Seq<char>,
    root: Seq<Seq<char>>,
) -> Result<Seq<Seq<char>>, CrateDirErrorView>
    decreases s.len(),
{
    if s.len() == 0 {
        Ok(Seq::empty())
    } else {
        match spec_crates_in(s.drop_last(), prefix, root) {
            Err(e) => Err(e),
            Ok(ids) => match spec_classify_crate(s.last(), prefix, root) {
                Ok(id) => Ok(ids.push(id)),
                Err(e) => Err(e),
            },
        }
    }
}

/// A strict scan that already failed on a prefix of the entries fails
/// the same way on all of them.
proof fn lemma_sections_in_prefix(
    s: Seq<EntryNameView>,
    prefix: Seq<char>,
    root: Seq<Seq<char>>,
    k: int,
)
    requires
        0 <= k <= s.len(),
        spec_sections_in(s.take(k), prefix, root) is Err,
    ensures
        spec_sections_in(s, prefix, root) == spec_sections_in(s.take(k), prefix, root),
    decreases s.len(),
{
    if k < s.len() {
        assert(s.drop_last().take(k) =~= s.take(k));
        lemma_sections_in_prefix(s.drop_last(), prefix, root, k);
    } else {
        assert(s.take(k) =~= s);
    }
}

/// See [`lemma_sections_in_prefix`].
proof fn lemma_subsections_in_prefix(
    s: Seq<EntryNameView>,
    prefix: Seq<char>,
    root: Seq<Seq<char>>,
    k: int,
)
    requires
        0 <= k <= s.len(),
        spec_subsections_in(s.take(k), prefix, root) is Err,
    ensures
        spec_subsections_in(s, prefix, root) == spec_subsections_in(s.take(k), prefix, root),
    decreases s.len(),
{
    if k < s.len() {
        assert(s.drop_last().take(k) =~= s.take(k));
        lemma_subsections_in_prefix(s.drop_last(), prefix, root, k);
    } else {
        assert(s.take(k) =~= s);
    }
}

/// See [`lemma_sections_in_prefix`].
proof fn lemma_crates_in_prefix(
    s: Seq<EntryNameView>,
    prefix: Seq<char>,
    root: Seq<Seq<char>>,
    k: int,
)
    requires
        0 <= k <= s.len(),
        spec_crates_in(s.take(k), prefix, root) is Err,
    ensures
        spec_crates_in(s, prefix, root) == spec_crates_in(s.take(k), prefix, root),
    decreases s.len(),
{
    if k < s.len() {
        assert(s.drop_last().take(k) =~= s.take(k));
        lemma_crates_in_prefix(s.drop_last(), prefix, root, k);
    } else {
        assert(s.take(k) =~= s);
    }
}

/// Scan one listing of the repository root strictly: every section id
/// in order, or the first hard violation; entries without the prefix
/// are skipped.
pub fn sections_in(entries: &Vec<EntryName>, prefix: &str, root: &RepoPath) -> (r: Result<
    Vec<String>,
    CrateDirError,
>)
    ensures
        ({
            let y = spec_sections_in(entries.deep_view(), prefix@, root@);
            match y {
                Ok(ids) => r matches Ok(v) && v.deep_view() == ids,
                Err(e) => r matches Err(err) && err@ == e,
            }
        }),
{
    let ghost all = entries.deep_view();
    let mut out: Vec<String> = Vec::new();
    let mut i: usize = 0;
    proof {
        assert(all.take(0) =~= Seq::<EntryNameView>::empty());
        assert(out.deep_view() =~= Seq::<Seq<char>>::empty());
    }
    while i < entries.len()
        invariant
            i <= entries@.len(),
            all == entries.deep_view(),
            all.len() == entries@.len(),
            spec_sections_in(all.take(i as int), prefix@, root@) == Ok::<
                Seq<Seq<char>>,
                CrateDirErrorView,
            >(out.deep_view()),
        decreases entries@.len() - i,
    {
        let ghost pre_out = out.deep_view();
        let entry = entries[i].clone();
        proof {
            assert(entry@ == all[i as int]);
            assert(all.take(i + 1 as int).drop_last() =~= all.take(i as int));
        }
        match classify_section(entry, prefix, root) {
            Ok(id) => {
                out.push(id);
                proof {
                    assert(out.deep_view() =~= pre_out.push(out.deep_view().last()));
                }
            },
            Err(e) => {
                let keep_scanning = match &e {
                    CrateDirError::NonSection(_, _, _) => true,
                    _ => false,
                };
                if !keep_scanning {
                    proof {
                        assert(spec_sections_in(all.take(i + 1 as int), prefix@, root@) == Err::<
                            Seq<Seq<char>>,
                            CrateDirErrorView,
                        >(e@));
                        lemma_sections_in_prefix(all, prefix@, root@, i + 1 as int);
                    }
                    return Err(e);
                }
            },
        }
        i = i + 1;
    }
    proof {
        assert(all.take(all.len() as int) =~= all);
    }
    Ok(out)
}

/// Scan one listing of a section strictly: every subsection id in
/// order, or the first violation.
pub fn subsections_in(entries: &Vec<EntryName>, prefix: &str, root: &RepoPath) -> (r: Result<
    Vec<String>,
    CrateDirError,
>)
    ensures
        ({
            let y = spec_subsections_in(entries.deep_view(), prefix@, root@);
            match y {
                Ok(ids) => r matches Ok(v) && v.deep_view() == ids,
                Err(e) => r matches Err(err) && err@ == e,
            }
        }),
{
    let ghost all = entries.deep_view();
    let mut out: Vec<String> = Vec::new();
    let mut i: usize = 0;
    proof {
        assert(all.take(0) =~= Seq::<EntryNameView>::empty());
        assert(out.deep_view() =~= Seq::<Seq<char>>::empty());
    }
    while i < entries.len()
        invariant
            i <= entries@.len(),
            all == entries.deep_view(),
            all.len() == entries@.len(),
            spec_subsections_in(all.take(i as int), prefix@, root@) == Ok::<
                Seq<Seq<char>>,
                CrateDirErrorView,
            >(out.deep_view()),
        decreases entries@.len() - i,
    {
        let ghost pre_out = out.deep_view();
        let entry = entries[i].clone();
        proof {
            assert(entry@ == all[i as int]);
            assert(all.take(i + 1 as int).drop_last() =~= all.take(i as int));
        }
        match classify_subsection(entry, prefix, root) {
            Ok(id) => {
                out.push(id);
                proof {
                    assert(out.deep_view() =~= pre_out.push(out.deep_view().last()));
                }
            },
            Err(e) => {
                proof {
                    assert(spec_subsections_in(all.take(i + 1 as int), prefix@, root@) == Err::<
                        Seq<Seq<char>>,
                        CrateDirErrorView,
                    >(e@));
                    lemma_subsections_in_prefix(all, prefix@, root@, i + 1 as int);
                }
                return Err(e);
            },
        }
        i = i + 1;
    }
    proof {
        assert(all.take(all.len() as int) =~= all);
    }
    Ok(out)
}

/// Scan one listing of a subsection strictly: every crate name in
/// order, or the first violation.
pub fn crates_in(entries: &Vec<EntryName>, prefix: &str, root: &RepoPath) -> (r: Result<
    Vec<String>,
    CrateDirError,
>)
    ensures
        ({
            let y = spec_crates_in(entries.deep_view(), prefix@, root@);
            match y {
                Ok(ids) => r matches Ok(v) && v.deep_view() == ids,
                Err(e) => r matches Err(err) && err@ == e,
            }
        }),
{
    let ghost all = entries.deep_view();
    let mut out: Vec<String> = Vec::new();
    let mut i: usize = 0;
    proof {
        assert(all.take(0) =~= Seq::<EntryNameView>::empty());
        assert(out.deep_view() =~= Seq::<Seq<char>>::empty());
    }
    while i < entries.len()
        invariant
            i <= entries@.len(),
            all == entries.deep_view(),
            all.len() == entries@.len(),
            spec_crates_in(all.take(i as int), prefix@, root@) == Ok::<
                Seq<Seq<char>>,
                CrateDirErrorView,
            >(out.deep_view()),
        decreases entries@.len() - i,
    {
        let ghost pre_out = out.deep_view();
        let entry = entries[i].clone();
        proof {
            assert(entry@ == all[i as int]);
            assert(all.take(i + 1 as int).drop_last() =~= all.take(i as int));
        }
        match classify_crate(entry, prefix, root) {
            Ok(id) => {
                out.push(id);
                proof {
                    assert(out.deep_view() =~= pre_out.push(out.deep_view().last()));
                }
            },
            Err(e) => {
                proof {
                    assert(spec_crates_in(all.take(i + 1 as int), prefix@, root@) == Err::<
                        Seq<Seq<char>>,
                        CrateDirErrorView,
                    >(e@));
                    lemma_crates_in_prefix(all, prefix@, root@, i + 1 as int);
                }
                return Err(e);
            },
        }
        i = i + 1;
    }
    proof {
        assert(all.take(all.len() as int) =~= all);
    }
    Ok(out)
}

} // verus!
