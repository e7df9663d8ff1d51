//! The validated manifest model: manifests, workspaces, dependencies,
//! sources, metadata and profiles.
use std::collections::BTreeMap;
use std::path::PathBuf;

use vstd::prelude::*;

use crate::v1::git::{GitReference, GitRepository};
use crate::v1::url_text::Url;

verus! {

/// Declares `semver::VersionReq` so that registry dependencies can carry
/// their requirement.
#[verifier::external_type_specification]
#[verifier::external_body]
pub struct ExVersionReq(semver::VersionReq);

/// Lets verified code copy a `semver::VersionReq` through its `Clone`
/// impl; nothing is claimed of the copy.
pub assume_specification[ <semver::VersionReq as std::clone::Clone>::clone ](
    r: &semver::VersionReq,
) -> semver::VersionReq;

/// Lets verified code copy a `PathBuf` through its `Clone` impl; claims
/// that the copy is the same path, as `Clone` documents ("returns a copy of
/// the value").
pub assume_specification[ <std::path::PathBuf as std::clone::Clone>::clone ](
    p: &std::path::PathBuf,
) -> (res: std::path::PathBuf)
    ensures
        res == *p,
;

/// Where a dependency comes from.
#[derive(Clone, Debug, PartialEq)]
pub enum Dependency {
    Git(GitRepository),
    LocalPath(PathBuf),
    CustomRegistry(String),
    /// A requirement on crates.io.
    DefaultRegistry(semver::VersionReq),
    Directory(PathBuf),
}

/// The problems that validation reports.
#[derive(Debug, PartialEq)]
pub enum ValidationError {
    InvalidDependencyName(String),
}

/// A list that stays absent until its first item arrives.
#[derive(Debug, PartialEq)]
pub struct OptionVec<T>(Option<Vec<T>>);

impl<T> View for OptionVec<T> {
    type V = Option<Seq<T>>;

    closed spec fn view(&self) -> Option<Seq<T>> {
        match &self.0 {
            Some(v) => Some(v@),
            None => None,
        }
    }
}

impl<T> OptionVec<T> {
    /// An absent list.
    pub fn new() -> (res: Self)
        ensures
            res@ is None,
    {
        OptionVec(None)
    }

    /// Appends an item, creating the list on the first one.
    pub fn push(&mut self, item: T)
        ensures
            final(self)@ == Some(
                match old(self)@ {
                    Some(s) => s.push(item),
                    None => seq![item],
                },
            ),
    {
        match &mut self.0 {
            Some(list) => {
                list.push(item);
            },
            None => {
                let mut v: Vec<T> = Vec::new();
                v.push(item);
                self.0 = Some(v);
            },
        }
    }

    /// The items, absent while none has been pushed.
    pub fn as_option(&self) -> (res: &Option<Vec<T>>)
        ensures
            match res {
                Some(v) => self@ == Some(v@),
                None => self@ is None,
            },
    {
        &self.0
    }
}

/// Law: a list that has had an item pushed is present, one item longer
/// than before, and ends with that item.
pub proof fn law_push_appends<T>(before: Option<Seq<T>>, after: Option<Seq<T>>, item: T)
    requires
        after == Some(
            match before {
                Some(s) => s.push(item),
                None => seq![item],
            },
        ),
    ensures
        after is Some,
        after->0.len() == (match before {
            Some(s) => s.len(),
            None => 0,
        }) + 1,
        after->0.last() == item,
{
}

/// A check of a value that collects every problem it finds.
pub trait Validator {
    type Error;

    fn validate(&self) -> OptionVec<Self::Error>;
}

impl Validator for Dependency {
    type Error = ValidationError;

    /// No kind of dependency has a rule yet, so no problem is reported.
    fn validate(&self) -> (res: OptionVec<ValidationError>)
        ensures
            res@ is None,
    {
        let errors = OptionVec::new();
        match self {
            Dependency::Git(_) => {},
            Dependency::LocalPath(_) => {},
            Dependency::CustomRegistry(_) => {},
            Dependency::DefaultRegistry(_) => {},
            Dependency::Directory(_) => {},
        }
        errors
    }
}

/// The members of a workspace.
#[derive(Clone, Debug, PartialEq)]
pub struct Workspace {
    pub members: Option<Vec<String>>,
    pub default_members: Option<Vec<String>>,
    pub exclude: Option<Vec<String>>,
}

/// A manifest: the root of a workspace, or a project.
#[derive(Clone, Debug, PartialEq)]
pub enum Manifest {
    Workspace(Workspace),
    Project,
}

/// A compilation profile.
#[derive(Clone, Debug, PartialEq)]
pub struct Profile {}

/// Where a package is found.
#[derive(Debug, Clone, PartialEq, Eq, PartialOrd, Ord, Hash)]
pub enum Source {
    /// A git repository.
    Git {
        reference: GitReference,
        /// For example, the exact Git revision of the specified branch.
        precise: Option<String>,
    },
    /// A local path.
    Path,
    /// A remote registry.
    RemoteRegistry,
    /// A local filesystem-based registry.
    LocalRegistry,
    /// A directory-based registry.
    Directory,
}

/// General metadata about a package.
///
/// These fields are not validated, but rather accept any valid TOML
/// specification values.
#[derive(PartialEq, Clone, Debug)]
pub struct Metadata {
    pub authors: Vec<String>,
    pub keywords: Vec<String>,
    pub categories: Vec<String>,
    pub license: Option<String>,
    pub license_file: Option<String>,
    pub description: Option<String>,
    /// Path to readme not content.
    pub readme: Option<String>,
    pub homepage: Option<Url>,
    pub repository: Option<Url>,
    pub documentation: Option<Url>,
    pub badges: BTreeMap<String, BTreeMap<String, String>>,
    pub links: Option<String>,
}

} // verus!
