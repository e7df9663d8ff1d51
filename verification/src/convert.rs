//! Conversion of a manifest read by the TOML schema into the validated
//! manifest model.
pub mod profile;

use vstd::prelude::*;

use crate::schema::manifest::{same_manifest, Manifest as SchemaManifest};
use crate::text::copy_optional_strings;
use crate::v1::model::{Manifest, Workspace};

verus! {

/// The result of a conversion: the value with the warnings that it
/// produced (absent when there are none), or the error that stopped it.
pub type ConvertResult<T, W, E> = std::result::Result<(T, Option<Vec<W>>), E>;

/// The warnings of a manifest conversion.
#[derive(Debug, PartialEq)]
pub enum Warning {
    /// The placeholder warning (written `none`).
    Nothing,
}

impl Warning {
    /// The human-readable description of the warning.
    pub fn message(&self) -> (res: String)
        ensures
            res@ == "none"@,
    {
        match self {
            Warning::Nothing => String::from_str("none"),
        }
    }
}

/// The errors of a manifest conversion.
#[derive(Debug, PartialEq)]
pub enum Error {
    /// The manifest has no form that the model supports; it is handed back.
    Unsupported(SchemaManifest),
}

/// The text that the derived `Debug` formatting (`{:?}`) gives for the
/// schema manifest `m`.
pub uninterp spec fn manifest_debug_text(m: SchemaManifest) -> Seq<char>;

/// Calls the derived `Debug` formatting of the schema manifest; claims that
/// the text is the value named `manifest_debug_text` of the manifest.
#[verifier::external_body]
fn manifest_debug(m: &SchemaManifest) -> (res: String)
    ensures
        res@ == manifest_debug_text(*m),
{
    format!("{:?}", m)
}

impl Error {
    /// The human-readable description of the error: `None: ` followed by
    /// the `Debug` text of the manifest.
    pub fn message(&self) -> (res: String)
        ensures
            match self {
                Error::Unsupported(m) => res@ == "None: "@ + manifest_debug_text(*m),
            },
    {
        match self {
            Error::Unsupported(m) => {
                let t = manifest_debug(m);
                let res = crate::text::concat2("None: ", t.as_str());
                assert(res@ == "None: "@ + t@);
                res
            },
        }
    }
}

/// The result type of manifest conversion.
pub type Result<T> = ConvertResult<T, Warning, Error>;

/// Converts a manifest: a manifest with a `workspace` table becomes the
/// root of that workspace, with the same members, default members and
/// exclusions and no warnings; any other manifest is refused and a copy of
/// it, every table holding the same entries, is handed back in the error.
pub fn convert(src: &SchemaManifest) -> (res: Result<Manifest>)
    ensures
        match src.workspace {
            Some(w) => match res {
                Ok((Manifest::Workspace(out), warnings)) => {
                    &&& warnings is None
                    &&& out.members.deep_view() == w.members.deep_view()
                    &&& out.default_members.deep_view() == w.default_members.deep_view()
                    &&& out.exclude.deep_view() == w.exclude.deep_view()
                },
                _ => false,
            },
            None => res matches Err(Error::Unsupported(m)) && same_manifest(m, *src),
        },
{
    if let Some(workspace) = &src.workspace {
        let workspace = Workspace {
            members: copy_optional_strings(&workspace.members),
            default_members: copy_optional_strings(&workspace.default_members),
            exclude: copy_optional_strings(&workspace.exclude),
        };
        return Ok((Manifest::Workspace(workspace), None));
    }
    Err(Error::Unsupported(src.clone()))
}

} // verus!
