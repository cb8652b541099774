//! Depth-first composition of the level streams: every subsection in
//! the repository, and every crate in the repository.
//!
//! An error item from an outer level is yielded as-is and that branch
//! is not expanded; an `Ok` id from an outer level opens the next
//! level underneath it. Results come in depth-first
//! directory-enumeration order, which is operating-system dependent
//! and not sorted.

use crate::crate_dir::{CrateDirError, CrateDirErrorView};
use crate::entry::{EntryName, EntryNameView, IoErrorKind};
use crate::levels::{
    spec_classify_crate, spec_classify_section, spec_classify_subsection, spec_level_next,
    walk_yield_matches, CrateIterator, LevelModel, SectionIterator, SubSectionIterator, WalkYield,
};
use crate::paths::RepoPath;
use crate::stream::{listing_outcome_view, Step, StreamModel};
use vstd::prelude::*;

verus! {

/// The state of a walk over every subsection of the repository.
pub struct SubWalkModel {
    /// The repository root.
    pub root: Seq<Seq<char>>,
    /// The configured section prefix.
    pub prefix: Seq<char>,
    /// The walk over the repository root's entries.
    pub sections: LevelModel,
    /// The walk over the current section's entries, if one is open.
    pub current: Option<LevelModel>,
}

/// A fresh, not-yet-started level stream over `root` with `prefix`.
pub open spec fn fresh_level(root: Seq<Seq<char>>, prefix: Seq<char>) -> LevelModel {
    LevelModel {
        prefix: prefix,
        root: root,
        inner: StreamModel { root: root, listing: None, pos: 0 },
    }
}

/// The transition one pull of the subsection walk makes. While the
/// current section still yields, its items pass through. When it
/// ends, or none is open, the section stream is pulled: an `Ok`
/// section id opens that section's directory underneath (asking for
/// its listing); anything else passes through.
pub open spec fn spec_sub_walk_next(m: SubWalkModel) -> (SubWalkModel, WalkYield) {
    let sub_classify = |n, p, rt| spec_classify_subsection(n, p, rt);
    match m.current {
        Some(c) => {
            let (c1, y) = spec_level_next(c, sub_classify);
            if !(y is End) {
                (SubWalkModel { current: Some(c1), ..m }, y)
            } else {
                spec_sub_walk_outer(m)
            }
        },
        None => spec_sub_walk_outer(m),
    }
}

/// The outer phase of the subsection walk: pull the section stream
/// and descend into an `Ok` section.
pub open spec fn spec_sub_walk_outer(m: SubWalkModel) -> (SubWalkModel, WalkYield) {
    let sec_classify = |n, p, rt| spec_classify_section(n, p, rt);
    let (s1, y) = spec_level_next(m.sections, sec_classify);
    match y {
        WalkYield::Item(Ok(id)) => {
            let child_root = m.root.push(m.prefix + id);
            (
                SubWalkModel { sections: s1, current: Some(fresh_level(child_root, id)), ..m },
                WalkYield::NeedListing(child_root),
            )
        },
        _ => (SubWalkModel { sections: s1, current: None, ..m }, y),
    }
}

/// Whether the subsection walk is waiting for a directory listing.
pub open spec fn spec_sub_walk_wants(m: SubWalkModel) -> bool {
    match m.current {
        Some(c) => c.inner.listing is None,
        None => m.sections.inner.listing is None,
    }
}

/// The state after a listing outcome is handed to the subsection
/// walk: it goes to the current section's stream if one is waiting,
/// else to the section stream.
pub open spec fn spec_sub_walk_provide(
    m: SubWalkModel,
    outcome: Result<Seq<EntryNameView>, IoErrorKind>,
) -> SubWalkModel {
    match m.current {
        Some(c) => SubWalkModel {
            current: Some(
                LevelModel {
                    inner: StreamModel { root: c.inner.root, listing: Some(outcome), pos: 0 },
                    ..c
                },
            ),
            ..m
        },
        None => SubWalkModel {
            sections: LevelModel {
                inner: StreamModel {
                    root: m.sections.inner.root,
                    listing: Some(outcome),
                    pos: 0,
                },
                ..m.sections
            },
            ..m
        },
    }
}

/// A depth-first walk yielding every subsection id in the repository,
/// with each level's classification errors in-band.
#[derive(Debug)]
pub struct SubSectionWalk {
    root: RepoPath,
    prefix: String,
    sections: SectionIterator,
    current: Option<SubSectionIterator>,
}

impl View for SubSectionWalk {
    type V = SubWalkModel;

    closed spec fn view(&self) -> SubWalkModel {
        SubWalkModel {
            root: self.root@,
            prefix: self.prefix@,
            sections: self.sections@,
            current: match self.current {
                Some(c) => Some(c@),
                None => None,
            },
        }
    }
}

impl SubSectionWalk {
    /// A not-yet-started walk of every subsection under `root` with
    /// the given section prefix.
    pub fn new(root: &RepoPath, prefix: &str) -> (r: SubSectionWalk)
        ensures
            r@ == (SubWalkModel {
                root: root@,
                prefix: prefix@,
                sections: fresh_level(root@, prefix@),
                current: None,
            }),
    {
        SubSectionWalk {
            root: root.clone(),
            prefix: String::from_str(prefix),
            sections: SectionIterator::new(root, prefix),
            current: None,
        }
    }

    /// Whether the walk is waiting for a directory listing.
    pub fn wants_listing(&self) -> (r: bool)
        ensures
            r == spec_sub_walk_wants(self@),
    {
        match &self.current {
            Some(c) => c.wants_listing(),
            None => self.sections.wants_listing(),
        }
    }

    /// Hand the walk the outcome of listing the directory it asked
    /// for.
    pub fn provide_listing(&mut self, outcome: Result<Vec<EntryName>, IoErrorKind>)
        requires
            spec_sub_walk_wants(old(self)@),
        ensures
            final(self)@ == spec_sub_walk_provide(old(self)@, listing_outcome_view(outcome)),
    {
        match self.current.take() {
            Some(mut c) => {
                c.provide_listing(outcome);
                self.current = Some(c);
            },
            None => {
                self.sections.provide_listing(outcome);
            },
        }
    }

    /// Pull the next subsection id, classification error, or request
    /// for a listing.
    pub fn next(&mut self) -> (r: Step<Result<String, CrateDirError>>)
        ensures
            final(self)@ == spec_sub_walk_next(old(self)@).0,
            walk_yield_matches(r, spec_sub_walk_next(old(self)@).1),
    {
        match self.current.take() {
            Some(mut c) => {
                let step = c.next();
                match step {
                    Step::End => {},
                    other => {
                        self.current = Some(c);
                        return other;
                    },
                }
            },
            None => {},
        }
        match self.sections.next() {
            Step::NeedListing(p) => Step::NeedListing(p),
            Step::End => Step::End,
            Step::Item(Err(e)) => Step::Item(Err(e)),
            Step::Item(Ok(id)) => {
                let name = self.prefix.clone().concat(id.as_str());
                let child_root = self.root.join(name.as_str());
                self.current = Some(SubSectionIterator::new(&child_root, id.as_str()));
                Step::NeedListing(child_root)
            },
        }
    }
}

/// The state of a walk over every crate of the repository.
pub struct CrateWalkModel {
    /// The repository root.
    pub root: Seq<Seq<char>>,
    /// The configured section prefix.
    pub prefix: Seq<char>,
    /// The walk over every subsection.
    pub subs: SubWalkModel,
    /// The walk over the current subsection's entries, if one is
    /// open.
    pub current: Option<LevelModel>,
}

/// The transition one pull of the crate walk makes. While the current
/// subsection still yields, its items pass through. When it ends, or
/// none is open, the subsection walk is pulled: an `Ok` subsection id
/// opens that subsection's directory underneath (asking for its
/// listing) — unless the id is empty, which no section can be derived
/// from; anything else passes through.
pub open spec fn spec_crate_walk_next(m: CrateWalkModel) -> (CrateWalkModel, WalkYield) {
    let crate_classify = |n, p, rt| spec_classify_crate(n, p, rt);
    match m.current {
        Some(c) => {
            let (c1, y) = spec_level_next(c, crate_classify);
            if !(y is End) {
                (CrateWalkModel { current: Some(c1), ..m }, y)
            } else {
                spec_crate_walk_outer(m)
            }
        },
        None => spec_crate_walk_outer(m),
    }
}

/// The outer phase of the crate walk: pull the subsection walk and
/// descend into an `Ok` subsection.
pub open spec fn spec_crate_walk_outer(m: CrateWalkModel) -> (CrateWalkModel, WalkYield) {
    let (sw1, y) = spec_sub_walk_next(m.subs);
    match y {
        WalkYield::Item(Ok(id)) => if id.len() == 0 {
            (
                CrateWalkModel { subs: sw1, current: None, ..m },
                WalkYield::Item(Err(CrateDirErrorView::BadCrateName(id))),
            )
        } else {
            let child_root = m.root.push(m.prefix + id.take(1)).push(id);
            (
                CrateWalkModel { subs: sw1, current: Some(fresh_level(child_root, id)), ..m },
                WalkYield::NeedListing(child_root),
            )
        },
        _ => (CrateWalkModel { subs: sw1, current: None, ..m }, y),
    }
}

/// Whether the crate walk is waiting for a directory listing.
pub open spec fn spec_crate_walk_wants(m: CrateWalkModel) -> bool {
    match m.current {
        Some(c) => c.inner.listing is None,
        None => spec_sub_walk_wants(m.subs),
    }
}

/// The state after a listing outcome is handed to the crate walk: it
/// goes to the current subsection's stream if one is open, else down
/// to the subsection walk.
pub open spec fn spec_crate_walk_provide(
    m: CrateWalkModel,
    outcome: Result<Seq<EntryNameView>, IoErrorKind>,
) -> CrateWalkModel {
    match m.current {
        Some(c) => CrateWalkModel {
            current: Some(
                LevelModel {
                    inner: StreamModel { root: c.inner.root, listing: Some(outcome), pos: 0 },
                    ..c
                },
            ),
            ..m
        },
        None => CrateWalkModel { subs: spec_sub_walk_provide(m.subs, outcome), ..m },
    }
}

/// A depth-first walk yielding every crate name in the repository,
/// with each level's classification errors in-band.
#[derive(Debug)]
pub struct CrateWalk {
    root: RepoPath,
    prefix: String,
    subs: SubSectionWalk,
    current: Option<CrateIterator>,
}

impl View for CrateWalk {
    type V = CrateWalkModel;

    closed spec fn view(&self) -> CrateWalkModel {
        CrateWalkModel {
            root: self.root@,
            prefix: self.prefix@,
            subs: self.subs@,
            current: match self.current {
                Some(c) => Some(c@),
                None => None,
            },
        }
    }
}

impl CrateWalk {
    /// A not-yet-started walk of every crate under `root` with the
    /// given section prefix.
    pub fn new(root: &RepoPath, prefix: &str) -> (r: CrateWalk)
        ensures
            r@ == (CrateWalkModel {
                root: root@,
                prefix: prefix@,
                subs: SubWalkModel {
                    root: root@,
                    prefix: prefix@,
                    sections: fresh_level(root@, prefix@),
                    current: None,
                },
                current: None,
            }),
    {
        CrateWalk {
            root: root.clone(),
            prefix: String::from_str(prefix),
            subs: SubSectionWalk::new(root, prefix),
            current: None,
        }
    }

    /// Whether the walk is waiting for a directory listing.
    pub fn wants_listing(&self) -> (r: bool)
        ensures
            r == spec_crate_walk_wants(self@),
    {
        match &self.current {
            Some(c) => c.wants_listing(),
            None => self.subs.wants_listing(),
        }
    }

    /// Hand the walk the outcome of listing the directory it asked
    /// for.
    pub fn provide_listing(&mut self, outcome: Result<Vec<EntryName>, IoErrorKind>)
        requires
            spec_crate_walk_wants(old(self)@),
        ensures
            final(self)@ == spec_crate_walk_provide(old(self)@, listing_outcome_view(outcome)),
    {
        match self.current.take() {
            Some(mut c) => {
                c.provide_listing(outcome);
                self.current = Some(c);
            },
            None => {
                self.subs.provide_listing(outcome);
            },
        }
    }

    /// Pull the next crate name, classification error, or request for
    /// a listing.
    pub fn next(&mut self) -> (r: Step<Result<String, CrateDirError>>)
        ensures
            final(self)@ == spec_crate_walk_next(old(self)@).0,
            walk_yield_matches(r, spec_crate_walk_next(old(self)@).1),
    {
        match self.current.take() {
            Some(mut c) => {
                let step = c.next();
                match step {
                    Step::End => {},
                    other => {
                        self.current = Some(c);
                        return other;
                    },
                }
            },
            None => {},
        }
        match self.subs.next() {
            Step::NeedListing(p) => Step::NeedListing(p),
            Step::End => Step::End,
            Step::Item(Err(e)) => Step::Item(Err(e)),
            Step::Item(Ok(id)) => {
                if id.as_str().unicode_len() == 0 {
                    Step::Item(Err(CrateDirError::BadCrateName(id)))
                } else {
                    let first = id.as_str().substring_char(0, 1);
                    let name = self.prefix.clone().concat(first);
                    let child_root = self.root.join(name.as_str()).join(id.as_str());
                    self.current = Some(CrateIterator::new(&child_root, id.as_str()));
                    Step::NeedListing(child_root)
                }
            },
        }
    }
}

} // verus!
