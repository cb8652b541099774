//! Published version metadata records for one crate, as decoded from
//! its `versions.json` document.
//!
//! The core never interprets these fields; they are carried for the
//! report generator. Conversion from the on-disk JSON happens in
//! embedding code, which hands the decoded records in.

use crate::entry::IoErrorKind;
use crate::strutil::clone_string_vec;
use vstd::prelude::*;

verus! {

/// Errors from loading a crate's version document.
#[derive(Debug)]
pub enum VersionsError {
    /// Reading the document failed.
    IoError(IoErrorKind),
    /// The document did not decode as version records; the decoder's
    /// description is kept.
    DecodeError(String),
}

/// What a [`VersionsError`] is, mathematically.
pub enum VersionsErrorView {
    IoError(IoErrorKind),
    DecodeError(Seq<char>),
}

impl View for VersionsError {
    type V = VersionsErrorView;

    open spec fn view(&self) -> VersionsErrorView {
        match self {
            VersionsError::IoError(k) => VersionsErrorView::IoError(*k),
            VersionsError::DecodeError(m) => VersionsErrorView::DecodeError(m@),
        }
    }
}

impl Clone for VersionsError {
    fn clone(&self) -> (r: Self)
        ensures
            r@ == self@,
    {
        match self {
            VersionsError::IoError(k) => VersionsError::IoError(*k),
            VersionsError::DecodeError(m) => VersionsError::DecodeError(m.clone()),
        }
    }
}

/// One audit event recorded against a version.
#[derive(Debug)]
pub struct AuditAction {
    pub action: String,
    pub time: String,
    pub user: User,
}

/// Authorship information for a version.
#[derive(Debug)]
pub struct AuthorInfo {
}

/// One dependency declared by a version.
#[derive(Debug)]
pub struct Dependency {
    pub crate_id: String,
    pub default_features: bool,
    pub downloads: u64,
    pub features: Vec<String>,
    pub id: u64,
    pub kind: String,
    pub optional: bool,
    pub req: String,
    pub target: Option<String>,
    pub version_id: u64,
}

/// A registry user referenced by version metadata.
#[derive(Debug)]
pub struct User {
    pub avatar: String,
    pub id: u64,
    pub login: String,
    pub name: Option<String>,
    pub url: String,
}

/// Published metadata for a single version of one crate.
#[derive(Debug)]
pub struct VersionInfo {
    pub audit_actions: Vec<AuditAction>,
    pub authors: AuthorInfo,
    pub crate_name: String,
    pub crate_size: Option<u64>,
    pub created_at: String,
    pub dependencies: Vec<Dependency>,
    pub dl_path: String,
    pub downloads: u64,
    pub features: Vec<(String, Vec<String>)>,
    pub id: u64,
    pub license: Option<String>,
    pub links: Vec<(String, String)>,
    pub num: String,
    pub published_by: Option<User>,
    pub readme_path: String,
    pub updated_at: String,
    pub yanked: bool,
}

/// What an [`AuditAction`] is, mathematically.
pub struct AuditActionView {
    pub action: Seq<char>,
    pub time: Seq<char>,
    pub user: UserView,
}

/// What a [`Dependency`] is, mathematically.
pub struct DependencyView {
    pub crate_id: Seq<char>,
    pub default_features: bool,
    pub downloads: u64,
    pub features: Seq<Seq<char>>,
    pub id: u64,
    pub kind: Seq<char>,
    pub optional: bool,
    pub req: Seq<char>,
    pub target: Option<Seq<char>>,
    pub version_id: u64,
}

/// What a [`User`] is, mathematically.
pub struct UserView {
    pub avatar: Seq<char>,
    pub id: u64,
    pub login: Seq<char>,
    pub name: Option<Seq<char>>,
    pub url: Seq<char>,
}

/// What a [`VersionInfo`] is, mathematically.
pub struct VersionInfoView {
    pub audit_actions: Seq<AuditActionView>,
    pub crate_name: Seq<char>,
    pub crate_size: Option<u64>,
    pub created_at: Seq<char>,
    pub dependencies: Seq<DependencyView>,
    pub dl_path: Seq<char>,
    pub downloads: u64,
    pub features: Seq<(Seq<char>, Seq<Seq<char>>)>,
    pub id: u64,
    pub license: Option<Seq<char>>,
    pub links: Seq<(Seq<char>, Seq<char>)>,
    pub num: Seq<char>,
    pub published_by: Option<UserView>,
    pub readme_path: Seq<char>,
    pub updated_at: Seq<char>,
    pub yanked: bool,
}

impl View for User {
    type V = UserView;

    open spec fn view(&self) -> UserView {
        UserView {
            avatar: self.avatar@,
            id: self.id,
            login: self.login@,
            name: self.name.deep_view(),
            url: self.url@,
        }
    }
}

impl DeepView for User {
    type V = UserView;

    open spec fn deep_view(&self) -> UserView {
        self.view()
    }
}

impl Clone for User {
    fn clone(&self) -> (r: Self)
        ensures
            r@ == self@,
    {
        User {
            avatar: self.avatar.clone(),
            id: self.id,
            login: self.login.clone(),
            name: clone_string_option(&self.name),
            url: self.url.clone(),
        }
    }
}

impl View for AuditAction {
    type V = AuditActionView;

    open spec fn view(&self) -> AuditActionView {
        AuditActionView { action: self.action@, time: self.time@, user: self.user@ }
    }
}

impl DeepView for AuditAction {
    type V = AuditActionView;

    open spec fn deep_view(&self) -> AuditActionView {
        self.view()
    }
}

impl Clone for AuditAction {
    fn clone(&self) -> (r: Self)
        ensures
            r@ == self@,
    {
        AuditAction {
            action: self.action.clone(),
            time: self.time.clone(),
            user: self.user.clone(),
        }
    }
}

impl View for Dependency {
    type V = DependencyView;

    open spec fn view(&self) -> DependencyView {
        DependencyView {
            crate_id: self.crate_id@,
            default_features: self.default_features,
            downloads: self.downloads,
            features: self.features.deep_view(),
            id: self.id,
            kind: self.kind@,
            optional: self.optional,
            req: self.req@,
            target: self.target.deep_view(),
            version_id: self.version_id,
        }
    }
}

impl DeepView for Dependency {
    type V = DependencyView;

    open spec fn deep_view(&self) -> DependencyView {
        self.view()
    }
}

impl Clone for Dependency {
    fn clone(&self) -> (r: Self)
        ensures
            r@ == self@,
    {
        let r = Dependency {
            crate_id: self.crate_id.clone(),
            default_features: self.default_features,
            downloads: self.downloads,
            features: clone_string_vec(&self.features),
            id: self.id,
            kind: self.kind.clone(),
            optional: self.optional,
            req: self.req.clone(),
            target: clone_string_option(&self.target),
            version_id: self.version_id,
        };
        proof {
            assert(r@.features =~= self@.features);
        }
        r
    }
}

impl View for VersionInfo {
    type V = VersionInfoView;

    open spec fn view(&self) -> VersionInfoView {
        VersionInfoView {
            audit_actions: self.audit_actions.deep_view(),
            crate_name: self.crate_name@,
            crate_size: self.crate_size,
            created_at: self.created_at@,
            dependencies: self.dependencies.deep_view(),
            dl_path: self.dl_path@,
            downloads: self.downloads,
            features: self.features.deep_view(),
            id: self.id,
            license: self.license.deep_view(),
            links: self.links.deep_view(),
            num: self.num@,
            published_by: self.published_by.deep_view(),
            readme_path: self.readme_path@,
            updated_at: self.updated_at@,
            yanked: self.yanked,
        }
    }
}

impl DeepView for VersionInfo {
    type V = VersionInfoView;

    open spec fn deep_view(&self) -> VersionInfoView {
        self.view()
    }
}

impl Clone for VersionInfo {
    fn clone(&self) -> (r: Self)
        ensures
            r@ == self@,
    {
        let r = VersionInfo {
            audit_actions: clone_audit_actions(&self.audit_actions),
            authors: AuthorInfo {  },
            crate_name: self.crate_name.clone(),
            crate_size: self.crate_size,
            created_at: self.created_at.clone(),
            dependencies: clone_dependencies(&self.dependencies),
            dl_path: self.dl_path.clone(),
            downloads: self.downloads,
            features: clone_features(&self.features),
            id: self.id,
            license: clone_string_option(&self.license),
            links: clone_links(&self.links),
            num: self.num.clone(),
            published_by: match &self.published_by {
                Some(u) => Some(u.clone()),
                None => None,
            },
            readme_path: self.readme_path.clone(),
            updated_at: self.updated_at.clone(),
            yanked: self.yanked,
        };
        proof {
            assert(r@.audit_actions =~= self@.audit_actions);
            assert(r@.dependencies =~= self@.dependencies);
            assert(r@.features =~= self@.features);
            assert(r@.links =~= self@.links);
        }
        r
    }
}

/// A view-equal copy of an optional string.
fn clone_string_option(v: &Option<String>) -> (r: Option<String>)
    ensures
        r.deep_view() == v.deep_view(),
{
    match v {
        Some(s) => Some(s.clone()),
        None => None,
    }
}

/// A view-equal copy of a list of audit actions.
fn clone_audit_actions(v: &Vec<AuditAction>) -> (r: Vec<AuditAction>)
    ensures
        r.deep_view() == v.deep_view(),
{
    let mut r: Vec<AuditAction> = Vec::new();
    let mut i: usize = 0;
    while i < v.len()
        invariant
            i <= v.len(),
            r.deep_view() =~= v.deep_view().take(i as int),
        decreases v.len() - i,
    {
        let item = v[i].clone();
        proof {
            assert(item@ == v.deep_view()[i as int]);
        }
        r.push(item);
        proof {
            assert(r.deep_view() =~= v.deep_view().take(i as int).push(v.deep_view()[i as int]));
            assert(v.deep_view().take(i as int).push(v.deep_view()[i as int]) =~= v.deep_view().take(
                i + 1 as int,
            ));
        }
        i = i + 1;
    }
    proof {
        assert(v.deep_view().take(v@.len() as int) =~= v.deep_view());
    }
    r
}

/// A view-equal copy of a list of dependencies.
fn clone_dependencies(v: &Vec<Dependency>) -> (r: Vec<Dependency>)
    ensures
        r.deep_view() == v.deep_view(),
{
    let mut r: Vec<Dependency> = Vec::new();
    let mut i: usize = 0;
    while i < v.len()
        invariant
            i <= v.len(),
            r.deep_view() =~= v.deep_view().take(i as int),
        decreases v.len() - i,
    {
        let item = v[i].clone();
        proof {
            assert(item@ == v.deep_view()[i as int]);
        }
        r.push(item);
        proof {
            assert(r.deep_view() =~= v.deep_view().take(i as int).push(v.deep_view()[i as int]));
            assert(v.deep_view().take(i as int).push(v.deep_view()[i as int]) =~= v.deep_view().take(
                i + 1 as int,
            ));
        }
        i = i + 1;
    }
    proof {
        assert(v.deep_view().take(v@.len() as int) =~= v.deep_view());
    }
    r
}

/// A view-equal copy of a feature table.
fn clone_features(v: &Vec<(String, Vec<String>)>) -> (r: Vec<(String, Vec<String>)>)
    ensures
        r.deep_view() == v.deep_view(),
{
    let mut r: Vec<(String, Vec<String>)> = Vec::new();
    let mut i: usize = 0;
    while i < v.len()
        invariant
            i <= v.len(),
            r.deep_view() =~= v.deep_view().take(i as int),
        decreases v.len() - i,
    {
        let item = (v[i].0.clone(), clone_string_vec(&v[i].1));
        proof {
            assert(item.deep_view() =~= v.deep_view()[i as int]);
        }
        r.push(item);
        proof {
            assert(r.deep_view() =~= v.deep_view().take(i as int).push(v.deep_view()[i as int]));
            assert(v.deep_view().take(i as int).push(v.deep_view()[i as int]) =~= v.deep_view().take(
                i + 1 as int,
            ));
        }
        i = i + 1;
    }
    proof {
        assert(v.deep_view().take(v@.len() as int) =~= v.deep_view());
    }
    r
}

/// A view-equal copy of a link table.
fn clone_links(v: &Vec<(String, String)>) -> (r: Vec<(String, String)>)
    ensures
        r.deep_view() == v.deep_view(),
{
    let mut r: Vec<(String, String)> = Vec::new();
    let mut i: usize = 0;
    while i < v.len()
        invariant
            i <= v.len(),
            r.deep_view() =~= v.deep_view().take(i as int),
        decreases v.len() - i,
    {
        let item = (v[i].0.clone(), v[i].1.clone());
        proof {
            assert(item.deep_view() =~= v.deep_view()[i as int]);
        }
        r.push(item);
        proof {
            assert(r.deep_view() =~= v.deep_view().take(i as int).push(v.deep_view()[i as int]));
            assert(v.deep_view().take(i as int).push(v.deep_view()[i as int]) =~= v.deep_view().take(
                i + 1 as int,
            ));
        }
        i = i + 1;
    }
    proof {
        assert(v.deep_view().take(v@.len() as int) =~= v.deep_view());
    }
    r
}

/// The records of one crate's `versions.json`, in file order.
#[derive(Debug)]
pub struct VersionList {
    records: Vec<VersionInfo>,
}

impl View for VersionList {
    type V = Seq<VersionInfoView>;

    closed spec fn view(&self) -> Seq<VersionInfoView> {
        self.records.deep_view()
    }
}

impl Clone for VersionList {
    fn clone(&self) -> (r: Self)
        ensures
            r@ == self@,
    {
        let mut records: Vec<VersionInfo> = Vec::new();
        let mut i: usize = 0;
        while i < self.records.len()
            invariant
                i <= self.records.len(),
                records.deep_view() =~= self@.take(i as int),
            decreases self.records.len() - i,
        {
            let item = self.records[i].clone();
            proof {
                assert(item@ == self@[i as int]);
            }
            records.push(item);
            proof {
                assert(records.deep_view() =~= self@.take(i as int).push(self@[i as int]));
                assert(self@.take(i as int).push(self@[i as int]) =~= self@.take(i + 1 as int));
            }
            i = i + 1;
        }
        proof {
            assert(self@.take(self@.len() as int) =~= self@);
        }
        VersionList { records }
    }
}

impl VersionList {
    /// A version list from its records.
    pub fn new(records: Vec<VersionInfo>) -> (r: VersionList)
        ensures
            r@ == records.deep_view(),
    {
        VersionList { records }
    }

    /// How many records the list holds.
    pub fn len(&self) -> (r: usize)
        ensures
            r == self@.len(),
    {
        self.records.len()
    }

    /// The record at one position.
    pub fn get(&self, i: usize) -> (r: &VersionInfo)
        requires
            i < self@.len(),
        ensures
            r@ == self@[i as int],
    {
        &self.records[i]
    }
}

} // verus!
