//! Mapping and discovering crate directory paths.
//!
//! A crate directory layout is a three-level structure designed to
//! keep any single directory's entry count small at crate-registry
//! scale:
//!
//! ```text
//! <ROOT>
//!     /<PREFIX><CRATENAME[0]>   # section
//!         /<CRATENAME[0..1]>    # subsection
//!             /<CRATENAME>      # crate
//!                 /<FILES>      # crate files
//! ```
//!
//! [`CrateDir`] derives the location of a crate that is assumed to
//! exist, with no directory access at all, and builds the streams
//! that discover what actually exists.

use crate::entry::{EntryName, EntryNameView, IoErrorKind};
use crate::levels::{CrateIterator, SectionIterator, SectionNamesIterator, SubSectionIterator};
use crate::paths::RepoPath;
use crate::strutil::is_prefix_of;
use crate::walk::{fresh_level, CrateWalk, CrateWalkModel, SubSectionWalk, SubWalkModel};
use vstd::prelude::*;

verus! {

/// Errors from crate directory handling.
#[derive(Debug)]
pub enum CrateDirError {
    /// A directory entry name could not be decoded as Unicode.
    NotUnicode(EntryName),
    /// A directory traversal induced I/O failure.
    IoError(IoErrorKind),
    /// An entry in the root starts with the section prefix but has
    /// other than one character after it.
    BadSection(EntryName, String, RepoPath),
    /// An entry in the root does not start with the section prefix at
    /// all; usually benign and filtered out by consumers.
    NonSection(EntryName, String, RepoPath),
    /// An entry in a section is not one or two characters starting
    /// with the section's character.
    BadSubSection(EntryName, String, RepoPath),
    /// An entry in a subsection does not start with the subsection's
    /// characters: a crate directory filed in the wrong place.
    BadCrate(EntryName, String, RepoPath),
    /// A crate name with no characters, for which no location can be
    /// derived.
    BadCrateName(String),
}

/// What a [`CrateDirError`] is, mathematically: the same
/// classification over the views of its payloads.
pub enum CrateDirErrorView {
    NotUnicode(EntryNameView),
    IoError(IoErrorKind),
    BadSection(EntryNameView, Seq<char>, Seq<Seq<char>>),
    NonSection(EntryNameView, Seq<char>, Seq<Seq<char>>),
    BadSubSection(EntryNameView, Seq<char>, Seq<Seq<char>>),
    BadCrate(EntryNameView, Seq<char>, Seq<Seq<char>>),
    BadCrateName(Seq<char>),
}

impl View for CrateDirError {
    type V = CrateDirErrorView;

    open spec fn view(&self) -> CrateDirErrorView {
        match self {
            CrateDirError::NotUnicode(e) => CrateDirErrorView::NotUnicode(e@),
            CrateDirError::IoError(k) => CrateDirErrorView::IoError(*k),
            CrateDirError::BadSection(e, p, rt) => CrateDirErrorView::BadSection(e@, p@, rt@),
            CrateDirError::NonSection(e, p, rt) => CrateDirErrorView::NonSection(e@, p@, rt@),
            CrateDirError::BadSubSection(e, p, rt) => CrateDirErrorView::BadSubSection(
                e@,
                p@,
                rt@,
            ),
            CrateDirError::BadCrate(e, p, rt) => CrateDirErrorView::BadCrate(e@, p@, rt@),
            CrateDirError::BadCrateName(n) => CrateDirErrorView::BadCrateName(n@),
        }
    }
}

impl DeepView for CrateDirError {
    type V = CrateDirErrorView;

    open spec fn deep_view(&self) -> CrateDirErrorView {
        self.view()
    }
}

impl Clone for CrateDirError {
    fn clone(&self) -> (r: Self)
        ensures
            r@ == self@,
    {
        match self {
            CrateDirError::NotUnicode(e) => CrateDirError::NotUnicode(e.clone()),
            CrateDirError::IoError(k) => CrateDirError::IoError(*k),
            CrateDirError::BadSection(e, p, rt) => CrateDirError::BadSection(
                e.clone(),
                p.clone(),
                rt.clone(),
            ),
            CrateDirError::NonSection(e, p, rt) => CrateDirError::NonSection(
                e.clone(),
                p.clone(),
                rt.clone(),
            ),
            CrateDirError::BadSubSection(e, p, rt) => CrateDirError::BadSubSection(
                e.clone(),
                p.clone(),
                rt.clone(),
            ),
            CrateDirError::BadCrate(e, p, rt) => CrateDirError::BadCrate(
                e.clone(),
                p.clone(),
                rt.clone(),
            ),
            CrateDirError::BadCrateName(n) => CrateDirError::BadCrateName(n.clone()),
        }
    }
}

/// A short description of an I/O failure kind.
pub open spec fn spec_io_kind_text(k: IoErrorKind) -> Seq<char> {
    match k {
        IoErrorKind::NotFound => "not found"@,
        IoErrorKind::PermissionDenied => "permission denied"@,
        IoErrorKind::Other => "other"@,
    }
}

/// The human-readable description of a [`CrateDirError`].
pub open spec fn spec_message(e: CrateDirErrorView) -> Seq<char> {
    match e {
        CrateDirErrorView::NotUnicode(_) => "could not decode directory entry as Unicode"@,
        CrateDirErrorView::IoError(k) => "IO error in stats repo directory: "@ + spec_io_kind_text(
            k,
        ),
        CrateDirErrorView::BadSection(_, p, _) =>
        "directory section does not satisfy the layout scheme (should be one character after prefix "@
            + p + ")"@,
        CrateDirErrorView::NonSection(_, p, _) =>
        "directory section does not satisfy the layout scheme (does not start with prefix "@ + p
            + ")"@,
        CrateDirErrorView::BadSubSection(_, p, _) =>
        "subsection does not satisfy the layout scheme (should be 1 or 2 characters and start with "@
            + p + ")"@,
        CrateDirErrorView::BadCrate(_, p, _) =>
        "crate does not satisfy the layout scheme (should start with "@ + p + ")"@,
        CrateDirErrorView::BadCrateName(n) => "crate name "@ + n
            + " is illegal, must have at least one character"@,
    }
}

impl CrateDirError {
    /// Describe this error in words.
    pub fn message(&self) -> (r: String)
        ensures
            r@ == spec_message(self@),
    {
        match self {
            CrateDirError::NotUnicode(_) => String::from_str(
                "could not decode directory entry as Unicode",
            ),
            CrateDirError::IoError(k) => {
                let kind_text = match k {
                    IoErrorKind::NotFound => "not found",
                    IoErrorKind::PermissionDenied => "permission denied",
                    IoErrorKind::Other => "other",
                };
                String::from_str("IO error in stats repo directory: ").concat(kind_text)
            },
            CrateDirError::BadSection(_, p, _) => String::from_str(
                "directory section does not satisfy the layout scheme (should be one character after prefix ",
            ).concat(p.as_str()).concat(")"),
            CrateDirError::NonSection(_, p, _) => String::from_str(
                "directory section does not satisfy the layout scheme (does not start with prefix ",
            ).concat(p.as_str()).concat(")"),
            CrateDirError::BadSubSection(_, p, _) => String::from_str(
                "subsection does not satisfy the layout scheme (should be 1 or 2 characters and start with ",
            ).concat(p.as_str()).concat(")"),
            CrateDirError::BadCrate(_, p, _) => String::from_str(
                "crate does not satisfy the layout scheme (should start with ",
            ).concat(p.as_str()).concat(")"),
            CrateDirError::BadCrateName(n) => String::from_str("crate name ").concat(
                n.as_str(),
            ).concat(" is illegal, must have at least one character"),
        }
    }
}

/// The view of a per-entry result: the yielded name's characters or
/// the error's view.
pub open spec fn id_result_view(r: Result<String, CrateDirError>) -> Result<
    Seq<char>,
    CrateDirErrorView,
> {
    match r {
        Ok(s) => Ok(s@),
        Err(e) => Err(e@),
    }
}

/// The first character of a crate name: its section id.
pub open spec fn spec_section_of(name: Seq<char>) -> Seq<char> {
    name.take(1)
}

/// The first one or two characters of a crate name: its subsection id.
pub open spec fn spec_subsection_of(name: Seq<char>) -> Seq<char> {
    if name.len() >= 2 {
        name.take(2)
    } else {
        name
    }
}

/// The name of a crate's section directory: prefix plus section id.
pub open spec fn spec_section_name(prefix: Seq<char>, name: Seq<char>) -> Seq<char> {
    prefix + spec_section_of(name)
}

/// The path of a crate's directory relative to the repository root.
pub open spec fn spec_rel_path(prefix: Seq<char>, name: Seq<char>) -> Seq<Seq<char>> {
    seq![spec_section_name(prefix, name), spec_subsection_of(name), name]
}

/// For all non-empty names the section id is one character, and the
/// subsection id is one or two characters and a prefix of the name.
pub proof fn lemma_shard_shape(name: Seq<char>)
    requires
        name.len() >= 1,
    ensures
        spec_section_of(name).len() == 1,
        1 <= spec_subsection_of(name).len() <= 2,
        is_prefix_of(spec_section_of(name), name),
        is_prefix_of(spec_subsection_of(name), name),
{
    if name.len() < 2 {
        assert(name.take(name.len() as int) =~= name);
    }
}

/// A crate's location is always the root joined with the prefixed
/// section directory, then the subsection directory, then the crate's
/// own name.
pub proof fn lemma_location_structure(root: Seq<Seq<char>>, prefix: Seq<char>, name: Seq<char>)
    requires
        name.len() >= 1,
    ensures
        root + spec_rel_path(prefix, name) == root.push(prefix + spec_section_of(name)).push(
            spec_subsection_of(name),
        ).push(name),
{
    assert(root + spec_rel_path(prefix, name) =~= root.push(prefix + spec_section_of(name)).push(
        spec_subsection_of(name),
    ).push(name));
}

/// Maps and discovers crate directory paths for one repository root
/// and one section prefix.
#[derive(Debug)]
pub struct CrateDir {
    root: RepoPath,
    prefix: String,
}

impl Clone for CrateDir {
    fn clone(&self) -> (r: Self)
        ensures
            r@ == self@,
    {
        CrateDir { root: self.root.clone(), prefix: self.prefix.clone() }
    }
}

/// What a [`CrateDir`] is, mathematically: a root path and a prefix.
pub struct CrateDirView {
    pub root: Seq<Seq<char>>,
    pub prefix: Seq<char>,
}

impl View for CrateDir {
    type V = CrateDirView;

    closed spec fn view(&self) -> CrateDirView {
        CrateDirView { root: self.root@, prefix: self.prefix@ }
    }
}

impl CrateDir {
    /// Construct a [`CrateDir`] for traversing `root`, using `prefix`
    /// to build the section segment.
    pub fn new(root: &RepoPath, prefix: &str) -> (r: Self)
        ensures
            r@.root == root@,
            r@.prefix == prefix@,
    {
        CrateDir { root: root.clone(), prefix: String::from_str(prefix) }
    }

    /// The repository root this directory was built over.
    pub fn root(&self) -> (r: &RepoPath)
        ensures
            r@ == self@.root,
    {
        &self.root
    }

    /// The configured section prefix.
    pub fn prefix(&self) -> (r: &str)
        ensures
            r@ == self@.prefix,
    {
        self.prefix.as_str()
    }

    /// The section id of a crate name: its first character, or
    /// [`CrateDirError::BadCrateName`] if the name is empty.
    pub fn crate_first(&self, crate_name: &str) -> (r: Result<String, CrateDirError>)
        ensures
            crate_name@.len() == 0 ==> (r matches Err(CrateDirError::BadCrateName(n)) && n@
                == crate_name@),
            crate_name@.len() > 0 ==> (r matches Ok(s) && s@ == spec_section_of(crate_name@)),
    {
        if crate_name.unicode_len() == 0 {
            Err(CrateDirError::BadCrateName(String::from_str(crate_name)))
        } else {
            Ok(String::from_str(crate_name.substring_char(0, 1)))
        }
    }

    /// The name of the section directory for a crate: the prefix
    /// followed by the crate's first character.
    pub fn section_name(&self, crate_name: &str) -> (r: Result<String, CrateDirError>)
        ensures
            crate_name@.len() == 0 ==> (r matches Err(CrateDirError::BadCrateName(n)) && n@
                == crate_name@),
            crate_name@.len() > 0 ==> (r matches Ok(s) && s@ == spec_section_name(
                self@.prefix,
                crate_name@,
            )),
    {
        match self.crate_first(crate_name) {
            Err(e) => Err(e),
            Ok(first) => Ok(self.prefix.clone().concat(first.as_str())),
        }
    }

    /// The name of the subsection directory for a crate: its first
    /// character, or first two characters if it has at least two.
    pub fn subsection_name(&self, crate_name: &str) -> (r: Result<String, CrateDirError>)
        ensures
            crate_name@.len() == 0 ==> (r matches Err(CrateDirError::BadCrateName(n)) && n@
                == crate_name@),
            crate_name@.len() > 0 ==> (r matches Ok(s) && s@ == spec_subsection_of(crate_name@)),
    {
        let len = crate_name.unicode_len();
        if len == 0 {
            Err(CrateDirError::BadCrateName(String::from_str(crate_name)))
        } else if len >= 2 {
            Ok(String::from_str(crate_name.substring_char(0, 2)))
        } else {
            proof {
                assert(crate_name@.take(crate_name@.len() as int) =~= crate_name@);
            }
            Ok(String::from_str(crate_name))
        }
    }

    /// The path of a crate's directory relative to the root:
    /// `<prefix><c0>/<c0[c1]>/<crate-name>`.
    pub fn path_to(&self, crate_name: &str) -> (r: Result<RepoPath, CrateDirError>)
        ensures
            crate_name@.len() == 0 ==> (r matches Err(CrateDirError::BadCrateName(n)) && n@
                == crate_name@),
            crate_name@.len() > 0 ==> (r matches Ok(p) && p@ == spec_rel_path(
                self@.prefix,
                crate_name@,
            )),
    {
        let sname = match self.section_name(crate_name) {
            Err(e) => {
                return Err(e);
            },
            Ok(s) => s,
        };
        let ssname = match self.subsection_name(crate_name) {
            Err(e) => {
                return Err(e);
            },
            Ok(s) => s,
        };
        let p = RepoPath::from_segment(sname.as_str()).join(ssname.as_str()).join(crate_name);
        proof {
            if crate_name@.len() > 0 {
                assert(p@ =~= spec_rel_path(self@.prefix, crate_name@));
            }
        }
        Ok(p)
    }

    /// The relative path of a file stored under a crate's directory.
    pub fn path_to_file(&self, crate_name: &str, file_name: &str) -> (r: Result<
        RepoPath,
        CrateDirError,
    >)
        ensures
            crate_name@.len() == 0 ==> (r matches Err(CrateDirError::BadCrateName(n)) && n@
                == crate_name@),
            crate_name@.len() > 0 ==> (r matches Ok(p) && p@ == spec_rel_path(
                self@.prefix,
                crate_name@,
            ).push(file_name@)),
    {
        match self.path_to(crate_name) {
            Err(e) => Err(e),
            Ok(p) => Ok(p.join(file_name)),
        }
    }

    /// The absolute path of a crate's directory: the root followed by
    /// the relative path.
    pub fn abs_path_to(&self, crate_name: &str) -> (r: Result<RepoPath, CrateDirError>)
        ensures
            crate_name@.len() == 0 ==> (r matches Err(CrateDirError::BadCrateName(n)) && n@
                == crate_name@),
            crate_name@.len() > 0 ==> (r matches Ok(p) && p@ == self@.root + spec_rel_path(
                self@.prefix,
                crate_name@,
            )),
    {
        match self.path_to(crate_name) {
            Err(e) => Err(e),
            Ok(p) => Ok(self.root.concat(&p)),
        }
    }

    /// An iterator of crate section ids, without the prefix: the
    /// entries of the repository root, judged.
    pub fn section_ids(&self) -> (r: SectionIterator)
        ensures
            r@ == fresh_level(self@.root, self@.prefix),
    {
        SectionIterator::new(&self.root, self.prefix.as_str())
    }

    /// An iterator of crate section directory names, with the prefix.
    pub fn section_names(&self) -> (r: SectionNamesIterator)
        ensures
            r@ == fresh_level(self@.root, self@.prefix),
    {
        SectionNamesIterator::new(&self.root, self.prefix.as_str())
    }

    /// An iterator of the subsection ids inside one section.
    pub fn subsections_in(&self, section_id: &str) -> (r: SubSectionIterator)
        ensures
            r@ == fresh_level(self@.root.push(self@.prefix + section_id@), section_id@),
    {
        let name = self.prefix.clone().concat(section_id);
        let child_root = self.root.join(name.as_str());
        SubSectionIterator::new(&child_root, section_id)
    }

    /// An iterator of the crate names inside one subsection.
    pub fn crates_in(&self, section_id: &str, subsection_id: &str) -> (r: CrateIterator)
        ensures
            r@ == fresh_level(
                self@.root.push(self@.prefix + section_id@).push(subsection_id@),
                subsection_id@,
            ),
    {
        let name = self.prefix.clone().concat(section_id);
        let child_root = self.root.join(name.as_str()).join(subsection_id);
        CrateIterator::new(&child_root, subsection_id)
    }

    /// A walk of every subsection id in the repository, depth first.
    pub fn subsection_ids(&self) -> (r: SubSectionWalk)
        ensures
            r@ == (SubWalkModel {
                root: self@.root,
                prefix: self@.prefix,
                sections: fresh_level(self@.root, self@.prefix),
                current: None,
            }),
    {
        SubSectionWalk::new(&self.root, self.prefix.as_str())
    }

    /// A walk of every crate identifier in the repository, depth
    /// first.
    pub fn crate_ids(&self) -> (r: CrateWalk)
        ensures
            r@ == (CrateWalkModel {
                root: self@.root,
                prefix: self@.prefix,
                subs: SubWalkModel {
                    root: self@.root,
                    prefix: self@.prefix,
                    sections: fresh_level(self@.root, self@.prefix),
                    current: None,
                },
                current: None,
            }),
    {
        CrateWalk::new(&self.root, self.prefix.as_str())
    }

    /// The absolute path of a file stored under a crate's directory.
    pub fn abs_path_to_file(&self, crate_name: &str, file_name: &str) -> (r: Result<
        RepoPath,
        CrateDirError,
    >)
        ensures
            crate_name@.len() == 0 ==> (r matches Err(CrateDirError::BadCrateName(n)) && n@
                == crate_name@),
            crate_name@.len() > 0 ==> (r matches Ok(p) && p@ == (self@.root + spec_rel_path(
                self@.prefix,
                crate_name@,
            )).push(file_name@)),
    {
        match self.abs_path_to(crate_name) {
            Err(e) => Err(e),
            Ok(p) => Ok(p.join(file_name)),
        }
    }
}

} // verus!
