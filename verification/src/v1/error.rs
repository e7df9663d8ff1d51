//! Errors of the validated manifest model.
use std::path::PathBuf;

use vstd::prelude::*;

use crate::text::concat2;
use crate::v1::url_text::Url;

verus! {

/// Declares `std::path::PathBuf` so that errors and dependencies can carry
/// paths.
#[verifier::external_type_specification]
#[verifier::external_body]
pub struct ExPathBuf(std::path::PathBuf);

/// The errors of the validated manifest model.
#[derive(Debug, PartialEq)]
pub enum Error {
    GitBaseUrlNotSupported(Url),
    InvalidDependencyName(String),
    InvalidPathUrl(PathBuf),
    InvalidStringUrl(String, ::url::ParseError),
}

/// The text that `{:?}` makes of a string: the string quoted and escaped.
pub uninterp spec fn debug_quoted(s: Seq<char>) -> Seq<char>;

/// Calls the `Debug` formatting of `str`; claims that the text is the value
/// named `debug_quoted` of the string.
#[verifier::external_body]
fn str_debug(s: &str) -> (res: String)
    ensures
        res@ == debug_quoted(s@),
{
    format!("{:?}", s)
}

/// Calls the `Debug` formatting of `PathBuf`. The text depends on the path
/// and the platform, which the model does not hold, so nothing is claimed
/// of it.
#[verifier::external_body]
fn path_debug(p: &PathBuf) -> String {
    format!("{:?}", p)
}

/// The text that the `Display` formatting of `url::ParseError` gives for
/// `e`: a fixed description per kind of error.
pub uninterp spec fn url_error_display(e: ::url::ParseError) -> Seq<char>;

/// Calls the `Display` formatting of `url::ParseError`; claims that the
/// text is the value named `url_error_display` of the error.
#[verifier::external_body]
fn url_error_text(e: &::url::ParseError) -> (res: String)
    ensures
        res@ == url_error_display(*e),
{
    format!("{}", e)
}

/// Whether `text` is the human-readable description of `e`.
pub open spec fn is_message(e: Error, text: Seq<char>) -> bool {
    match e {
        Error::GitBaseUrlNotSupported(u) => text == "invalid url `"@ + u@
            + "`: cannot-be-a-base-URLs are not supported"@,
        Error::InvalidDependencyName(k) => text == "invalid dependency name `"@ + k@ + "`"@,
        Error::InvalidPathUrl(_) => exists|t: Seq<char>| text == "invalid path url `"@ + t + "`"@,
        Error::InvalidStringUrl(u, pe) => text == "invalid url `"@ + debug_quoted(u@) + "`: "@
            + url_error_display(pe),
    }
}

impl Error {
    /// The human-readable description of the error.
    pub fn message(&self) -> (res: String)
        ensures
            is_message(*self, res@),
    {
        match self {
            Error::GitBaseUrlNotSupported(u) => {
                let a = concat2("invalid url `", u.as_str());
                concat2(a.as_str(), "`: cannot-be-a-base-URLs are not supported")
            },
            Error::InvalidDependencyName(k) => {
                let a = concat2("invalid dependency name `", k.as_str());
                concat2(a.as_str(), "`")
            },
            Error::InvalidPathUrl(p) => {
                let t = path_debug(p);
                let a = concat2("invalid path url `", t.as_str());
                let res = concat2(a.as_str(), "`");
                assert(res@ == "invalid path url `"@ + t@ + "`"@);
                res
            },
            Error::InvalidStringUrl(u, e) => {
                let q = str_debug(u.as_str());
                let a = concat2("invalid url `", q.as_str());
                let b = concat2(a.as_str(), "`: ");
                let t = url_error_text(e);
                let res = concat2(b.as_str(), t.as_str());
                assert(res@ == "invalid url `"@ + debug_quoted(u@) + "`: "@ + t@);
                res
            },
        }
    }
}

} // verus!
