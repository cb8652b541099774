//! Models of the raw values a directory scan hands back: an entry
//! name that may or may not be valid Unicode, and the kind of an I/O
//! failure.
//!
//! Embedding code converts the operating system's entry names and
//! errors into these before handing them to the verified logic.

use crate::strutil::clone_byte_vec;
use vstd::prelude::*;

verus! {

/// A raw directory entry name. Operating systems may hand back names
/// that are not valid Unicode; those arrive as their raw bytes.
#[derive(Debug)]
pub enum EntryName {
    /// A name that decoded as text.
    Unicode(String),
    /// A name that did not decode; its raw bytes are kept for error
    /// reporting.
    NonUnicode(Vec<u8>),
}

/// What an entry name is, mathematically: either its characters or
/// its raw bytes.
pub enum EntryNameView {
    Unicode(Seq<char>),
    NonUnicode(Seq<u8>),
}

impl View for EntryName {
    type V = EntryNameView;

    open spec fn view(&self) -> EntryNameView {
        match self {
            EntryName::Unicode(s) => EntryNameView::Unicode(s@),
            EntryName::NonUnicode(b) => EntryNameView::NonUnicode(b@),
        }
    }
}

impl DeepView for EntryName {
    type V = EntryNameView;

    open spec fn deep_view(&self) -> EntryNameView {
        self.view()
    }
}

impl Clone for EntryName {
    fn clone(&self) -> (r: Self)
        ensures
            r@ == self@,
    {
        match self {
            EntryName::Unicode(s) => EntryName::Unicode(s.clone()),
            EntryName::NonUnicode(b) => EntryName::NonUnicode(clone_byte_vec(b)),
        }
    }
}

/// The kind of an I/O failure, as far as this library's logic reads
/// it: the cache layer treats "not found" specially and every other
/// kind alike.
#[derive(Debug, Clone, Copy, PartialEq, Eq, Structural)]
pub enum IoErrorKind {
    /// The file or directory does not exist.
    NotFound,
    /// Access was denied.
    PermissionDenied,
    /// Any other failure.
    Other,
}

} // verus!
