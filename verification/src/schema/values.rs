//! The small value types that manifest fields take: strings or booleans,
//! lists or booleans, paths, dependency specifications and profile package
//! selectors.
use std::path::PathBuf;

use vstd::prelude::*;

use crate::text::{copy_optional_strings, copy_strings, str_eq};

verus! {

/// A field that is either a string or a boolean.
#[derive(Debug, PartialEq, Eq)]
pub enum StringOrBool {
    String(String),
    Bool(bool),
}

impl Clone for StringOrBool {
    /// An equal copy.
    fn clone(&self) -> (res: Self)
        ensures
            res == *self,
    {
        match self {
            StringOrBool::String(s) => StringOrBool::String(s.clone()),
            StringOrBool::Bool(b) => StringOrBool::Bool(*b),
        }
    }
}

/// A field that is either a list of strings or a boolean.
#[derive(Debug, PartialEq, Eq)]
pub enum VecStringOrBool {
    VecString(Vec<String>),
    Bool(bool),
}

/// Whether two list-or-boolean fields hold the same value.
pub open spec fn same_vec_string_or_bool(a: VecStringOrBool, b: VecStringOrBool) -> bool {
    match (a, b) {
        (VecStringOrBool::VecString(x), VecStringOrBool::VecString(y)) => x.deep_view()
            == y.deep_view(),
        (VecStringOrBool::Bool(x), VecStringOrBool::Bool(y)) => x == y,
        _ => false,
    }
}

impl Clone for VecStringOrBool {
    /// A copy holding the same value.
    fn clone(&self) -> (res: Self)
        ensures
            same_vec_string_or_bool(res, *self),
    {
        match self {
            VecStringOrBool::VecString(v) => VecStringOrBool::VecString(copy_strings(v)),
            VecStringOrBool::Bool(b) => VecStringOrBool::Bool(*b),
        }
    }
}

/// A field written either as one string or as a list of strings; one
/// string stands for the list holding it.
#[derive(Debug, PartialEq, Eq)]
pub struct StringOrVec(pub Vec<String>);

impl Clone for StringOrVec {
    /// A copy holding the same strings.
    fn clone(&self) -> (res: Self)
        ensures
            res.0.deep_view() == self.0.deep_view(),
    {
        StringOrVec(copy_strings(&self.0))
    }
}

/// A field that is either an unsigned integer or a boolean.
#[derive(Clone, Copy, Debug, PartialEq, Eq)]
pub enum U32OrBool {
    U32(u32),
    Bool(bool),
}

/// A path given in a manifest.
#[derive(Debug, PartialEq, Eq)]
pub struct PathValue(pub PathBuf);

impl Clone for PathValue {
    /// An equal copy.
    fn clone(&self) -> (res: Self)
        ensures
            res == *self,
    {
        PathValue(self.0.clone())
    }
}

/// The packages that a profile override applies to: the packages that a
/// package id specification selects, or all of them (`*`).
#[derive(Clone, Debug, PartialEq, Eq, PartialOrd, Ord, Hash)]
pub enum ProfilePackageSpec {
    Spec(String),
    All,
}

/// The text by which a selector is written, `*` for all packages.
pub open spec fn package_spec_text(p: ProfilePackageSpec) -> Seq<char> {
    match p {
        ProfilePackageSpec::Spec(s) => s@,
        ProfilePackageSpec::All => "*"@,
    }
}

/// The key by which two selectors are told apart.
pub open spec fn package_spec_key(p: ProfilePackageSpec) -> Option<Seq<char>> {
    match p {
        ProfilePackageSpec::Spec(s) => Some(s@),
        ProfilePackageSpec::All => None,
    }
}

impl ProfilePackageSpec {
    /// Reads a selector: `*` selects all packages, any other text is a
    /// package id specification.
    pub fn from_text(text: &str) -> (res: ProfilePackageSpec)
        ensures
            text@ == "*"@ ==> res is All,
            text@ != "*"@ ==> (res matches ProfilePackageSpec::Spec(s) && s@ == text@),
    {
        if str_eq(text, "*") {
            ProfilePackageSpec::All
        } else {
            ProfilePackageSpec::Spec(String::from_str(text))
        }
    }

    /// The text by which the selector is written.
    pub fn text(&self) -> (res: String)
        ensures
            res@ == package_spec_text(*self),
    {
        match self {
            ProfilePackageSpec::Spec(s) => s.clone(),
            ProfilePackageSpec::All => String::from_str("*"),
        }
    }

    /// Whether the two selectors select the same packages by the same
    /// text.
    pub fn same_as(&self, other: &ProfilePackageSpec) -> (res: bool)
        ensures
            res == (package_spec_key(*self) == package_spec_key(*other)),
    {
        match (self, other) {
            (ProfilePackageSpec::Spec(a), ProfilePackageSpec::Spec(b)) => str_eq(
                a.as_str(),
                b.as_str(),
            ),
            (ProfilePackageSpec::All, ProfilePackageSpec::All) => true,
            _ => false,
        }
    }
}

/// How a dependency is given in a manifest: a version requirement alone, or
/// a table of details.
#[derive(Debug, PartialEq)]
pub enum Dependency {
    Simple(String),
    Detailed(DetailedDependency),
}

/// Whether two dependencies are given alike.
pub open spec fn same_dependency(a: Dependency, b: Dependency) -> bool {
    match (a, b) {
        (Dependency::Simple(x), Dependency::Simple(y)) => x == y,
        (Dependency::Detailed(x), Dependency::Detailed(y)) => same_detailed_dependency(x, y),
        _ => false,
    }
}

impl Clone for Dependency {
    /// A copy given alike.
    fn clone(&self) -> (res: Self)
        ensures
            same_dependency(res, *self),
    {
        match self {
            Dependency::Simple(s) => Dependency::Simple(s.clone()),
            Dependency::Detailed(d) => Dependency::Detailed(d.clone()),
        }
    }
}

/// Whether two dependency tables hold the same entries.
pub open spec fn same_detailed_dependency(a: DetailedDependency, b: DetailedDependency) -> bool {
    &&& a.version == b.version
    &&& a.registry == b.registry
    &&& a.registry_index == b.registry_index
    &&& a.path == b.path
    &&& a.git == b.git
    &&& a.branch == b.branch
    &&& a.tag == b.tag
    &&& a.rev == b.rev
    &&& a.features.deep_view() == b.features.deep_view()
    &&& a.optional == b.optional
    &&& a.default_features == b.default_features
    &&& a.package == b.package
}

impl Clone for DetailedDependency {
    /// A copy holding the same entries.
    fn clone(&self) -> (res: Self)
        ensures
            same_detailed_dependency(res, *self),
    {
        DetailedDependency {
            version: self.version.clone(),
            registry: self.registry.clone(),
            registry_index: self.registry_index.clone(),
            path: self.path.clone(),
            git: self.git.clone(),
            branch: self.branch.clone(),
            tag: self.tag.clone(),
            rev: self.rev.clone(),
            features: copy_optional_strings(&self.features),
            optional: self.optional,
            default_features: self.default_features,
            package: self.package.clone(),
        }
    }
}

/// The table form of a dependency.
#[derive(Debug, Default, PartialEq)]
pub struct DetailedDependency {
    pub version: Option<String>,
    pub registry: Option<String>,
    pub registry_index: Option<String>,
    pub path: Option<String>,
    pub git: Option<String>,
    pub branch: Option<String>,
    pub tag: Option<String>,
    pub rev: Option<String>,
    pub features: Option<Vec<String>>,
    pub optional: Option<bool>,
    pub default_features: Option<bool>,
    pub package: Option<String>,
}

} // verus!
