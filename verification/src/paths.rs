//! A repository path modelled as a list of segments.
//!
//! The sharded layout only ever builds paths by joining well-formed
//! segments onto a root, so a path is held as its segments; turning a
//! `RepoPath` into an operating-system path is the embedding code's
//! concern.

use crate::strutil::clone_string_vec;
use vstd::prelude::*;

verus! {

/// A path below (or including) the repository root, as a sequence of
/// segments joined in order.
#[derive(Debug)]
pub struct RepoPath {
    segments: Vec<String>,
}

impl View for RepoPath {
    type V = Seq<Seq<char>>;

    closed spec fn view(&self) -> Seq<Seq<char>> {
        self.segments.deep_view()
    }
}

impl Clone for RepoPath {
    fn clone(&self) -> (r: Self)
        ensures
            r@ == self@,
    {
        RepoPath { segments: clone_string_vec(&self.segments) }
    }
}

impl RepoPath {
    /// The empty path, with no segments.
    pub fn empty() -> (r: RepoPath)
        ensures
            r@ == Seq::<Seq<char>>::empty(),
    {
        let r = RepoPath { segments: Vec::new() };
        proof {
            assert(r@ =~= Seq::<Seq<char>>::empty());
        }
        r
    }

    /// A path of a single segment.
    pub fn from_segment(seg: &str) -> (r: RepoPath)
        ensures
            r@ =~= seq![seg@],
    {
        let mut segments: Vec<String> = Vec::new();
        segments.push(String::from_str(seg));
        RepoPath { segments }
    }

    /// This path with one more segment appended.
    pub fn join(&self, seg: &str) -> (r: RepoPath)
        ensures
            r@ =~= self@.push(seg@),
    {
        let mut segments = clone_string_vec(&self.segments);
        segments.push(String::from_str(seg));
        proof {
            assert(segments.deep_view() =~= self@.push(seg@));
        }
        RepoPath { segments }
    }

    /// This path extended by every segment of `other`, in order.
    pub fn concat(&self, other: &RepoPath) -> (r: RepoPath)
        ensures
            r@ =~= self@ + other@,
    {
        let mut segments = clone_string_vec(&self.segments);
        let mut i: usize = 0;
        while i < other.segments.len()
            invariant
                i <= other.segments.len(),
                segments.deep_view() =~= self@ + other@.take(i as int),
            decreases other.segments.len() - i,
        {
            let seg = other.segments[i].clone();
            proof {
                assert(seg@ == other@[i as int]);
            }
            segments.push(seg);
            proof {
                assert(segments.deep_view() =~= (self@ + other@.take(i as int)).push(
                    other@[i as int],
                ));
                assert((self@ + other@.take(i as int)).push(other@[i as int]) =~= self@
                    + other@.take(i as int + 1));
            }
            i = i + 1;
        }
        proof {
            assert(other@.take(other.segments.len() as int) =~= other@);
        }
        RepoPath { segments }
    }

    /// The number of segments.
    pub fn len(&self) -> (r: usize)
        ensures
            r == self@.len(),
    {
        self.segments.len()
    }

    /// The segments themselves, for embedding code that renders the
    /// path in the operating system's form.
    pub fn segments(&self) -> (r: &Vec<String>)
        ensures
            r.deep_view() == self@,
    {
        &self.segments
    }
}

} // verus!
