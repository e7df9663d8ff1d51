//! Conversion of strings and paths into URLs.
use std::path::{Path, PathBuf};

use vstd::prelude::*;

use crate::text::starts_with;
use crate::v1::error::Error;
use crate::v1::url_text::{parsed_url, Url};

verus! {

/// Declares `std::path::Path` so that paths can be converted.
#[verifier::external_type_specification]
#[verifier::external_body]
pub struct ExPath(std::path::Path);

/// A type that can be converted to a URL.
pub trait IntoUrl {
    /// Performs the conversion.
    fn into_url(self) -> Result<Url, Error>;
}

impl<'a> IntoUrl for &'a str {
    /// Parses the text as an absolute URL; an error carries the text and
    /// the error that the parser reported.
    fn into_url(self) -> (res: Result<Url, Error>)
        ensures
            match (res, parsed_url(self@)) {
                (Ok(u), Ok(s)) => u@ == s,
                (Err(Error::InvalidStringUrl(s, e)), Err(pe)) => s@ == self@ && e == pe,
                _ => false,
            },
    {
        match Url::parse(self) {
            Ok(u) => Ok(u),
            Err(err) => Err(Error::InvalidStringUrl(String::from_str(self), err)),
        }
    }
}

impl IntoUrl for String {
    /// Parses the text as an absolute URL; an error carries the text and
    /// the error that the parser reported.
    fn into_url(self) -> (res: Result<Url, Error>)
        ensures
            match (res, parsed_url(self@)) {
                (Ok(u), Ok(s)) => u@ == s,
                (Err(Error::InvalidStringUrl(s, e)), Err(pe)) => s@ == self@ && e == pe,
                _ => false,
            },
    {
        match Url::parse(self.as_str()) {
            Ok(u) => Ok(u),
            Err(err) => Err(Error::InvalidStringUrl(self, err)),
        }
    }
}

/// Calls `url::Url::from_file_path`. Which URL comes back depends on the
/// path and on the platform, which the model does not hold; claimed is only
/// that every URL it builds is in the `file` scheme, its serialization
/// starting with `file://`.
#[verifier::external_body]
fn url_from_file_path(p: &Path) -> (res: Option<String>)
    ensures
        res matches Some(s) ==> starts_with(s@, "file://"@),
{
    let u = ::url::Url::from_file_path(p).ok()?;
    Some(u.into())
}

/// Calls `Path::to_path_buf`; nothing is claimed of the owned copy.
#[verifier::external_body]
fn owned_path(p: &Path) -> PathBuf {
    p.to_path_buf()
}

/// Calls `PathBuf::as_path`; nothing is claimed of the borrowed path.
#[verifier::external_body]
fn borrowed_path(p: &PathBuf) -> &Path {
    p.as_path()
}

impl<'a> IntoUrl for &'a Path {
    /// Converts an absolute file path into a `file:` URL; an error carries
    /// the path.
    fn into_url(self) -> (res: Result<Url, Error>)
        ensures
            res matches Err(e) ==> e is InvalidPathUrl,
            res matches Ok(u) ==> starts_with(u@, "file://"@),
    {
        match url_from_file_path(self) {
            Some(u) => Ok(Url::from_serialization(u)),
            None => Err(Error::InvalidPathUrl(owned_path(self))),
        }
    }
}

impl<'a> IntoUrl for &'a PathBuf {
    /// Converts an absolute file path into a `file:` URL; an error carries
    /// the path.
    fn into_url(self) -> (res: Result<Url, Error>)
        ensures
            res matches Err(e) ==> e is InvalidPathUrl,
            res matches Ok(u) ==> starts_with(u@, "file://"@),
    {
        borrowed_path(self).into_url()
    }
}

} // verus!
