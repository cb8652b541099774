//! A directory listing as a lazy, fallible stream.
//!
//! Instead of returning `Result<Iterator<Item = Result<_, E>>, E>`,
//! the failure to list a directory at all is returned **inside** the
//! stream: the first pull after a failed listing yields that single
//! error, and every later pull yields end-of-stream. Per-entry items
//! and the one in-band error flow down to consumers alike.
//!
//! The listing itself is input/output, which the verified logic does
//! not perform: the stream asks for it with [`Step::NeedListing`],
//! and the caller hands the outcome back through
//! [`InBandDirIterator::provide_listing`]. The listing is thereby
//! still obtained lazily, on the first pull, as consumers of a
//! held-but-never-polled stream expect.

use crate::entry::{EntryName, EntryNameView, IoErrorKind};
use crate::paths::RepoPath;
use vstd::prelude::*;

verus! {

/// One pull from a stream whose input arrives on demand.
#[derive(Debug)]
pub enum Step<T> {
    /// The stream cannot go on until the directory at this path has
    /// been listed and the outcome handed back.
    NeedListing(RepoPath),
    /// One element of the stream.
    Item(T),
    /// The stream is exhausted.
    End,
}

/// The state of an [`InBandDirIterator`], mathematically.
pub struct StreamModel {
    /// The path whose listing the stream walks.
    pub root: Seq<Seq<char>>,
    /// `None` until a listing outcome has been provided.
    pub listing: Option<Result<Seq<EntryNameView>, IoErrorKind>>,
    /// Entries already yielded; after a failed listing, whether the
    /// error has been yielded.
    pub pos: nat,
}

/// What one pull yields, mathematically.
pub enum StepView {
    NeedListing(Seq<Seq<char>>),
    Item(Result<EntryNameView, IoErrorKind>),
    End,
}

/// The view of a listing outcome: the entry names' views, or the
/// failure unchanged.
pub open spec fn listing_outcome_view(outcome: Result<Vec<EntryName>, IoErrorKind>) -> Result<
    Seq<EntryNameView>,
    IoErrorKind,
> {
    match outcome {
        Ok(entries) => Ok(entries.deep_view()),
        Err(e) => Err(e),
    }
}

/// The transition one pull makes: the state afterwards and what it
/// yields. A stream that still wants its listing asks for it; a
/// failed listing yields its error exactly once and then
/// end-of-stream forever; a successful listing yields its entries in
/// order and then end-of-stream.
pub open spec fn spec_stream_next(m: StreamModel) -> (StreamModel, StepView) {
    match m.listing {
        None => (m, StepView::NeedListing(m.root)),
        Some(Err(e)) => if m.pos == 0 {
            (StreamModel { pos: 1, ..m }, StepView::Item(Err(e)))
        } else {
            (m, StepView::End)
        },
        Some(Ok(entries)) => if m.pos < entries.len() {
            (StreamModel { pos: m.pos + 1, ..m }, StepView::Item(Ok(entries[m.pos as int])))
        } else {
            (m, StepView::End)
        },
    }
}

/// A directory whose listing fails yields exactly one error item and
/// then terminates: re-polling gives end-of-stream with the state
/// unchanged, never the error again.
pub proof fn lemma_failed_listing_yields_one_error(m: StreamModel, e: IoErrorKind)
    requires
        m.listing == Some(Err::<Seq<EntryNameView>, IoErrorKind>(e)),
        m.pos == 0,
    ensures
        spec_stream_next(m).1 == StepView::Item(Err::<EntryNameView, IoErrorKind>(e)),
        spec_stream_next(spec_stream_next(m).0) == (spec_stream_next(m).0, StepView::End),
{
}

/// A lazily started walk over the entries of one directory, with the
/// listing failure delivered in-band.
#[derive(Debug)]
pub struct InBandDirIterator {
    root: RepoPath,
    listing: Option<Result<Vec<EntryName>, IoErrorKind>>,
    pos: usize,
}

impl View for InBandDirIterator {
    type V = StreamModel;

    closed spec fn view(&self) -> StreamModel {
        StreamModel {
            root: self.root@,
            listing: match self.listing {
                None => None,
                Some(Ok(entries)) => Some(Ok(entries.deep_view())),
                Some(Err(e)) => Some(Err(e)),
            },
            pos: self.pos as nat,
        }
    }
}

impl InBandDirIterator {
    /// A stream over the directory at `root`, not yet started: no
    /// listing is attempted before the first pull.
    pub fn new(root: &RepoPath) -> (r: InBandDirIterator)
        ensures
            r@ == (StreamModel {
                root: root@,
                listing: None,
                pos: 0,
            }),
    {
        InBandDirIterator { root: root.clone(), listing: None, pos: 0 }
    }

    /// Whether the stream is waiting for its listing.
    pub fn wants_listing(&self) -> (r: bool)
        ensures
            r == (self@.listing is None),
    {
        self.listing.is_none()
    }

    /// Hand the stream the outcome of listing its directory.
    pub fn provide_listing(&mut self, outcome: Result<Vec<EntryName>, IoErrorKind>)
        requires
            old(self)@.listing is None,
        ensures
            final(self)@ == (StreamModel {
                root: old(self)@.root,
                listing: match outcome {
                    Ok(entries) => Some(Ok(entries.deep_view())),
                    Err(e) => Some(Err(e)),
                },
                pos: 0,
            }),
    {
        self.listing = Some(outcome);
        self.pos = 0;
    }

    /// Pull once: ask for the listing, yield the next element or the
    /// single in-band error, or signal the end.
    pub fn next(&mut self) -> (r: Step<Result<EntryName, IoErrorKind>>)
        ensures
            final(self)@ == spec_stream_next(old(self)@).0,
            step_matches(r, spec_stream_next(old(self)@).1),
    {
        match &self.listing {
            None => Step::NeedListing(self.root.clone()),
            Some(Err(e)) => {
                let e = *e;
                if self.pos == 0 {
                    self.pos = 1;
                    Step::Item(Err(e))
                } else {
                    Step::End
                }
            },
            Some(Ok(entries)) => {
                if self.pos < entries.len() {
                    let item = entries[self.pos].clone();
                    self.pos = self.pos + 1;
                    Step::Item(Ok(item))
                } else {
                    Step::End
                }
            },
        }
    }
}

/// An executable [`Step`] yields exactly what the model step says.
pub open spec fn step_matches(r: Step<Result<EntryName, IoErrorKind>>, v: StepView) -> bool {
    match v {
        StepView::NeedListing(p) => r matches Step::NeedListing(q) && q@ == p,
        StepView::Item(Ok(n)) => r matches Step::Item(Ok(e)) && e@ == n,
        StepView::Item(Err(k)) => r matches Step::Item(Err(e)) && e == k,
        StepView::End => r is End,
    }
}

} // verus!
