//! The tables of a manifest: package, targets, platforms, workspace and the
//! manifest as a whole.
use std::collections::BTreeMap;

use vstd::prelude::*;

use crate::schema::dependency_map::{same_table, DependencyMap};
use crate::schema::profile::{same_profiles, Profiles};
use crate::schema::values::{
    same_vec_string_or_bool, PathValue, StringOrBool, StringOrVec, VecStringOrBool,
};
use crate::text::copy_optional_strings;

verus! {

/// Declares `semver::Version` so that a package can carry its version.
#[verifier::external_type_specification]
#[verifier::external_body]
pub struct ExVersion(semver::Version);

/// Declares `toml::Value` so that a package can carry free-form metadata.
#[verifier::external_type_specification]
#[verifier::external_body]
pub struct ExTomlValue(toml::Value);

/// Lets verified code copy a `semver::Version` through its `Clone` impl,
/// which `derive` writes field by field; claims that the copy is the same
/// version.
pub assume_specification[ <semver::Version as std::clone::Clone>::clone ](
    v: &semver::Version,
) -> (res: semver::Version)
    ensures
        res == *v,
;

/// Lets verified code copy a `toml::Value` through its `Clone` impl, which
/// `derive` writes variant by variant; claims that the copy is the same
/// value.
pub assume_specification[ <toml::Value as std::clone::Clone>::clone ](
    v: &toml::Value,
) -> (res: toml::Value)
    ensures
        res == *v,
;

/// Whether two optional map tables are both absent, or hold the same
/// entries.
pub open spec fn same_optional_map<K, V>(a: Option<BTreeMap<K, V>>, b: Option<BTreeMap<K, V>>) -> bool {
    match (a, b) {
        (Some(x), Some(y)) => x@ == y@,
        (None, None) => true,
        _ => false,
    }
}

/// A copy of an optional map table.
fn clone_optional_map<K: Clone, V: Clone>(m: &Option<BTreeMap<K, V>>) -> (res: Option<BTreeMap<K, V>>)
    ensures
        same_optional_map(res, *m),
{
    match m {
        Some(x) => Some(x.clone()),
        None => None,
    }
}

/// Whether two optional dependency tables are both absent, or copies.
pub open spec fn same_optional_table(a: Option<DependencyMap>, b: Option<DependencyMap>) -> bool {
    match (a, b) {
        (Some(x), Some(y)) => same_table(x, y),
        (None, None) => true,
        _ => false,
    }
}

/// A copy of an optional dependency table.
fn clone_optional_table(m: &Option<DependencyMap>) -> (res: Option<DependencyMap>)
    ensures
        same_optional_table(res, *m),
{
    match m {
        Some(x) => Some(x.clone()),
        None => None,
    }
}

/// The `package`/`project` table of a manifest.
///
/// The order of the fields is the order in which they are written back to
/// TOML: no value may follow the table `metadata`.
#[derive(Debug, PartialEq)]
pub struct Project {
    pub edition: Option<String>,
    pub name: String,
    pub version: semver::Version,
    pub authors: Option<Vec<String>>,
    pub build: Option<StringOrBool>,
    pub metabuild: Option<StringOrVec>,
    pub links: Option<String>,
    pub exclude: Option<Vec<String>>,
    /// The `include` list of the package table.
    pub includes: Option<Vec<String>>,
    pub publish: Option<VecStringOrBool>,
    pub publish_lockfile: Option<bool>,
    pub workspace: Option<String>,
    pub autobins: Option<bool>,
    pub autoexamples: Option<bool>,
    pub autotests: Option<bool>,
    pub autobenches: Option<bool>,
    pub namespaced_features: Option<bool>,
    pub default_run: Option<String>,
    pub description: Option<String>,
    pub homepage: Option<String>,
    pub documentation: Option<String>,
    pub readme: Option<String>,
    pub keywords: Option<Vec<String>>,
    pub categories: Option<Vec<String>>,
    pub license: Option<String>,
    pub license_file: Option<String>,
    pub repository: Option<String>,
    pub metadata: Option<toml::Value>,
}

/// A build target: the library, a binary, an example, a test or a bench.
#[derive(Debug, Default, PartialEq)]
pub struct Target {
    pub name: Option<String>,
    pub crate_type: Option<Vec<String>>,
    pub path: Option<PathValue>,
    pub test: Option<bool>,
    pub doctest: Option<bool>,
    pub bench: Option<bool>,
    pub doc: Option<bool>,
    pub plugin: Option<bool>,
    pub proc_macro: Option<bool>,
    pub harness: Option<bool>,
    pub required_features: Option<Vec<String>>,
    pub edition: Option<String>,
}

/// The dependencies of one `target` entry (a platform).
#[derive(Debug, Default, PartialEq)]
pub struct Platform {
    pub dependencies: Option<DependencyMap>,
    pub build_dependencies: Option<DependencyMap>,
    pub dev_dependencies: Option<DependencyMap>,
}

/// The `workspace` table.
#[derive(Debug, Default, PartialEq)]
pub struct Workspace {
    pub members: Option<Vec<String>>,
    pub default_members: Option<Vec<String>>,
    pub exclude: Option<Vec<String>>,
}

/// A whole manifest file: every top-level table, each optional.
#[derive(Debug, Default, PartialEq)]
pub struct Manifest {
    pub cargo_features: Option<Vec<String>>,
    pub package: Option<Project>,
    pub project: Option<Project>,
    pub profile: Option<Profiles>,
    pub lib: Option<Target>,
    pub bin: Option<Vec<Target>>,
    pub example: Option<Vec<Target>>,
    pub test: Option<Vec<Target>>,
    pub bench: Option<Vec<Target>>,
    pub dependencies: Option<DependencyMap>,
    pub dev_dependencies: Option<DependencyMap>,
    pub build_dependencies: Option<DependencyMap>,
    pub features: Option<BTreeMap<String, Vec<String>>>,
    pub target: Option<BTreeMap<String, Platform>>,
    pub replace: Option<DependencyMap>,
    pub patch: Option<BTreeMap<String, DependencyMap>>,
    pub workspace: Option<Workspace>,
    pub badges: Option<BTreeMap<String, BTreeMap<String, String>>>,
}

/// Whether two packages hold the same entries.
pub open spec fn same_project(a: Project, b: Project) -> bool {
    &&& a.edition == b.edition
    &&& a.name == b.name
    &&& a.version == b.version
    &&& a.authors.deep_view() == b.authors.deep_view()
    &&& a.build == b.build
    &&& match (a.metabuild, b.metabuild) {
        (Some(x), Some(y)) => x.0.deep_view() == y.0.deep_view(),
        (None, None) => true,
        _ => false,
    }
    &&& a.links == b.links
    &&& a.exclude.deep_view() == b.exclude.deep_view()
    &&& a.includes.deep_view() == b.includes.deep_view()
    &&& match (a.publish, b.publish) {
        (Some(x), Some(y)) => same_vec_string_or_bool(x, y),
        (None, None) => true,
        _ => false,
    }
    &&& a.publish_lockfile == b.publish_lockfile
    &&& a.workspace == b.workspace
    &&& a.autobins == b.autobins
    &&& a.autoexamples == b.autoexamples
    &&& a.autotests == b.autotests
    &&& a.autobenches == b.autobenches
    &&& a.namespaced_features == b.namespaced_features
    &&& a.default_run == b.default_run
    &&& a.description == b.description
    &&& a.homepage == b.homepage
    &&& a.documentation == b.documentation
    &&& a.readme == b.readme
    &&& a.keywords.deep_view() == b.keywords.deep_view()
    &&& a.categories.deep_view() == b.categories.deep_view()
    &&& a.license == b.license
    &&& a.license_file == b.license_file
    &&& a.repository == b.repository
    &&& a.metadata == b.metadata
}

impl Clone for Project {
    /// A copy holding the same entries.
    fn clone(&self) -> (res: Self)
        ensures
            same_project(res, *self),
    {
        Project {
            edition: self.edition.clone(),
            name: self.name.clone(),
            version: self.version.clone(),
            authors: copy_optional_strings(&self.authors),
            build: match &self.build {
                Some(b) => Some(b.clone()),
                None => None,
            },
            metabuild: match &self.metabuild {
                Some(m) => Some(m.clone()),
                None => None,
            },
            links: self.links.clone(),
            exclude: copy_optional_strings(&self.exclude),
            includes: copy_optional_strings(&self.includes),
            publish: match &self.publish {
                Some(p) => Some(p.clone()),
                None => None,
            },
            publish_lockfile: self.publish_lockfile,
            workspace: self.workspace.clone(),
            autobins: self.autobins,
            autoexamples: self.autoexamples,
            autotests: self.autotests,
            autobenches: self.autobenches,
            namespaced_features: self.namespaced_features,
            default_run: self.default_run.clone(),
            description: self.description.clone(),
            homepage: self.homepage.clone(),
            documentation: self.documentation.clone(),
            readme: self.readme.clone(),
            keywords: copy_optional_strings(&self.keywords),
            categories: copy_optional_strings(&self.categories),
            license: self.license.clone(),
            license_file: self.license_file.clone(),
            repository: self.repository.clone(),
            metadata: match &self.metadata {
                Some(m) => Some(m.clone()),
                None => None,
            },
        }
    }
}

/// Whether two targets hold the same entries.
pub open spec fn same_target(a: Target, b: Target) -> bool {
    &&& a.name == b.name
    &&& a.crate_type.deep_view() == b.crate_type.deep_view()
    &&& a.path == b.path
    &&& a.test == b.test
    &&& a.doctest == b.doctest
    &&& a.bench == b.bench
    &&& a.doc == b.doc
    &&& a.plugin == b.plugin
    &&& a.proc_macro == b.proc_macro
    &&& a.harness == b.harness
    &&& a.required_features.deep_view() == b.required_features.deep_view()
    &&& a.edition == b.edition
}

impl Clone for Target {
    /// A copy holding the same entries.
    fn clone(&self) -> (res: Self)
        ensures
            same_target(res, *self),
    {
        Target {
            name: self.name.clone(),
            crate_type: copy_optional_strings(&self.crate_type),
            path: match &self.path {
                Some(p) => Some(p.clone()),
                None => None,
            },
            test: self.test,
            doctest: self.doctest,
            bench: self.bench,
            doc: self.doc,
            plugin: self.plugin,
            proc_macro: self.proc_macro,
            harness: self.harness,
            required_features: copy_optional_strings(&self.required_features),
            edition: self.edition.clone(),
        }
    }
}

/// Whether two optional targets are both absent, or copies.
pub open spec fn same_optional_target(a: Option<Target>, b: Option<Target>) -> bool {
    match (a, b) {
        (Some(x), Some(y)) => same_target(x, y),
        (None, None) => true,
        _ => false,
    }
}

/// Whether two optional lists of targets are both absent, or copies target
/// by target.
pub open spec fn same_target_list(a: Option<Vec<Target>>, b: Option<Vec<Target>>) -> bool {
    match (a, b) {
        (Some(x), Some(y)) => x@.len() == y@.len() && forall|j: int|
            0 <= j < x@.len() ==> same_target(#[trigger] x@[j], y@[j]),
        (None, None) => true,
        _ => false,
    }
}

/// A copy of an optional list of targets.
fn clone_target_list(src: &Option<Vec<Target>>) -> (res: Option<Vec<Target>>)
    ensures
        same_target_list(res, *src),
{
    match src {
        None => None,
        Some(v) => {
            let mut out: Vec<Target> = Vec::new();
            let mut i: usize = 0;
            while i < v.len()
                invariant
                    i <= v.len(),
                    out@.len() == i,
                    forall|j: int| 0 <= j < i ==> same_target(#[trigger] out@[j], v@[j]),
                decreases v.len() - i,
            {
                out.push(v[i].clone());
                i = i + 1;
            }
            Some(out)
        },
    }
}

/// Whether two platforms hold copies of the same dependency tables.
pub open spec fn same_platform(a: Platform, b: Platform) -> bool {
    &&& same_optional_table(a.dependencies, b.dependencies)
    &&& same_optional_table(a.build_dependencies, b.build_dependencies)
    &&& same_optional_table(a.dev_dependencies, b.dev_dependencies)
}

impl Clone for Platform {
    /// A copy holding copies of the same tables.
    fn clone(&self) -> (res: Self)
        ensures
            same_platform(res, *self),
    {
        Platform {
            dependencies: clone_optional_table(&self.dependencies),
            build_dependencies: clone_optional_table(&self.build_dependencies),
            dev_dependencies: clone_optional_table(&self.dev_dependencies),
        }
    }
}

/// Whether two workspace tables hold the same lists.
pub open spec fn same_workspace(a: Workspace, b: Workspace) -> bool {
    &&& a.members.deep_view() == b.members.deep_view()
    &&& a.default_members.deep_view() == b.default_members.deep_view()
    &&& a.exclude.deep_view() == b.exclude.deep_view()
}

impl Clone for Workspace {
    /// A copy holding the same lists.
    fn clone(&self) -> (res: Self)
        ensures
            same_workspace(res, *self),
    {
        Workspace {
            members: copy_optional_strings(&self.members),
            default_members: copy_optional_strings(&self.default_members),
            exclude: copy_optional_strings(&self.exclude),
        }
    }
}

/// Whether `a` is a copy of the manifest `b`: every table holds the same
/// entries.
pub open spec fn same_manifest(a: Manifest, b: Manifest) -> bool {
    &&& a.cargo_features.deep_view() == b.cargo_features.deep_view()
    &&& match (a.package, b.package) {
        (Some(x), Some(y)) => same_project(x, y),
        (None, None) => true,
        _ => false,
    }
    &&& match (a.project, b.project) {
        (Some(x), Some(y)) => same_project(x, y),
        (None, None) => true,
        _ => false,
    }
    &&& match (a.profile, b.profile) {
        (Some(x), Some(y)) => same_profiles(x, y),
        (None, None) => true,
        _ => false,
    }
    &&& same_optional_target(a.lib, b.lib)
    &&& same_target_list(a.bin, b.bin)
    &&& same_target_list(a.example, b.example)
    &&& same_target_list(a.test, b.test)
    &&& same_target_list(a.bench, b.bench)
    &&& same_optional_table(a.dependencies, b.dependencies)
    &&& same_optional_table(a.dev_dependencies, b.dev_dependencies)
    &&& same_optional_table(a.build_dependencies, b.build_dependencies)
    &&& same_optional_map(a.features, b.features)
    &&& same_optional_map(a.target, b.target)
    &&& same_optional_table(a.replace, b.replace)
    &&& same_optional_map(a.patch, b.patch)
    &&& match (a.workspace, b.workspace) {
        (Some(x), Some(y)) => same_workspace(x, y),
        (None, None) => true,
        _ => false,
    }
    &&& same_optional_map(a.badges, b.badges)
}

impl Clone for Manifest {
    /// A copy in which every table holds the same entries.
    fn clone(&self) -> (res: Self)
        ensures
            same_manifest(res, *self),
    {
        Manifest {
            cargo_features: copy_optional_strings(&self.cargo_features),
            package: match &self.package {
                Some(p) => Some(p.clone()),
                None => None,
            },
            project: match &self.project {
                Some(p) => Some(p.clone()),
                None => None,
            },
            profile: match &self.profile {
                Some(p) => Some(p.clone()),
                None => None,
            },
            lib: match &self.lib {
                Some(t) => Some(t.clone()),
                None => None,
            },
            bin: clone_target_list(&self.bin),
            example: clone_target_list(&self.example),
            test: clone_target_list(&self.test),
            bench: clone_target_list(&self.bench),
            dependencies: clone_optional_table(&self.dependencies),
            dev_dependencies: clone_optional_table(&self.dev_dependencies),
            build_dependencies: clone_optional_table(&self.build_dependencies),
            features: clone_optional_map(&self.features),
            target: clone_optional_map(&self.target),
            replace: clone_optional_table(&self.replace),
            patch: clone_optional_map(&self.patch),
            workspace: match &self.workspace {
                Some(w) => Some(w.clone()),
                None => None,
            },
            badges: clone_optional_map(&self.badges),
        }
    }
}

} // verus!
