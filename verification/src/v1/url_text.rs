//! URLs held by their serialization.
//!
//! A URL of the `url` crate compares, orders and displays exactly like its
//! serialization, so the model keeps that text and asks the `url` crate
//! for every component and every edit. Each operation below parses the
//! serialization it is given; its result is named as a function of that
//! text, and is `None` where the text is not a URL (or, for edits, where
//! the `url` crate refuses the edit).
use vstd::prelude::*;

verus! {

/// Declares the `url` crate's parse error so that errors can carry it.
#[verifier::external_type_specification]
#[verifier::external_body]
pub struct ExUrlParseError(::url::ParseError);

/// What `Url::parse` makes of `input`: the serialization of the URL, or
/// the error it reports.
pub uninterp spec fn parsed_url(input: Seq<char>) -> Result<Seq<char>, ::url::ParseError>;

/// Whether the URL that `s` parses to is a cannot-be-a-base URL.
pub uninterp spec fn url_cannot_be_a_base_of(s: Seq<char>) -> Option<bool>;

/// The (percent-encoded) path of the URL that `s` parses to.
pub uninterp spec fn url_path_of(s: Seq<char>) -> Option<Seq<char>>;

/// The host of the URL that `s` parses to, as `Url::host_str` gives it.
pub uninterp spec fn url_host_of(s: Seq<char>) -> Option<Option<Seq<char>>>;

/// The fragment of the URL that `s` parses to.
pub uninterp spec fn url_fragment_of(s: Seq<char>) -> Option<Option<Seq<char>>>;

/// The decoded key/value pairs of the query of the URL that `s` parses to.
pub uninterp spec fn url_query_pairs_of(s: Seq<char>) -> Option<Seq<(Seq<char>, Seq<char>)>>;

/// The serialization after `set_fragment(None)`.
pub uninterp spec fn url_without_fragment(s: Seq<char>) -> Option<Seq<char>>;

/// The serialization after `set_query(None)`.
pub uninterp spec fn url_without_query(s: Seq<char>) -> Option<Seq<char>>;

/// The serialization after `path_segments_mut().pop_if_empty()`.
pub uninterp spec fn url_after_pop_if_empty(s: Seq<char>) -> Option<Seq<char>>;

/// The serialization after `path_segments_mut().pop()`.
pub uninterp spec fn url_after_pop(s: Seq<char>) -> Option<Seq<char>>;

/// The serialization after `path_segments_mut().push(segment)`.
pub uninterp spec fn url_after_push(s: Seq<char>, segment: Seq<char>) -> Option<Seq<char>>;

/// The serialization after a successful `set_scheme(scheme)`.
pub uninterp spec fn url_with_scheme(s: Seq<char>, scheme: Seq<char>) -> Option<Seq<char>>;

/// The serialization after `set_path(path)`.
pub uninterp spec fn url_with_path(s: Seq<char>, path: Seq<char>) -> Option<Seq<char>>;

/// A URL, kept as its serialization.
#[derive(Clone, Debug, PartialEq, Eq, PartialOrd, Ord, Hash)]
pub struct Url {
    serialization: String,
}

impl View for Url {
    type V = Seq<char>;

    closed spec fn view(&self) -> Seq<char> {
        self.serialization@
    }
}

impl Url {
    /// Parses an absolute URL, as `url::Url::parse` does.
    pub fn parse(input: &str) -> (res: Result<Url, ::url::ParseError>)
        ensures
            match res {
                Ok(u) => parsed_url(input@) == Ok::<Seq<char>, ::url::ParseError>(u@),
                Err(e) => parsed_url(input@) == Err::<Seq<char>, ::url::ParseError>(e),
            },
    {
        match url_parse(input) {
            Ok(s) => Ok(Url { serialization: s }),
            Err(e) => Err(e),
        }
    }

    /// The serialization of this URL.
    pub fn as_str(&self) -> (res: &str)
        ensures
            res@ == self@,
    {
        self.serialization.as_str()
    }

    /// A URL of the given serialization, known to come from `url`.
    pub(crate) fn from_serialization(s: String) -> (res: Url)
        ensures
            res@ == s@,
    {
        Url { serialization: s }
    }
}

/// Calls `url::Url::parse`; claims that the serialization of the URL, or
/// the error reported, is the one named `parsed_url` of the input.
#[verifier::external_body]
fn url_parse(input: &str) -> (res: Result<String, ::url::ParseError>)
    ensures
        match res {
            Ok(s) => parsed_url(input@) == Ok::<Seq<char>, ::url::ParseError>(s@),
            Err(e) => parsed_url(input@) == Err::<Seq<char>, ::url::ParseError>(e),
        },
{
    ::url::Url::parse(input).map(String::from)
}

/// Calls `url::Url::cannot_be_a_base` on the URL that `s` parses to.
#[verifier::external_body]
pub(crate) fn url_cannot_be_a_base(s: &str) -> (res: Option<bool>)
    ensures
        res == url_cannot_be_a_base_of(s@),
{
    let u = ::url::Url::parse(s).ok()?;
    Some(u.cannot_be_a_base())
}

/// Calls `url::Url::path` on the URL that `s` parses to.
#[verifier::external_body]
pub(crate) fn url_path(s: &str) -> (res: Option<String>)
    ensures
        res.deep_view() == url_path_of(s@),
{
    let u = ::url::Url::parse(s).ok()?;
    Some(u.path().to_string())
}

/// Calls `url::Url::host_str` on the URL that `s` parses to.
#[verifier::external_body]
pub(crate) fn url_host_str(s: &str) -> (res: Option<Option<String>>)
    ensures
        res.deep_view() == url_host_of(s@),
{
    let u = ::url::Url::parse(s).ok()?;
    Some(u.host_str().map(String::from))
}

/// Calls `url::Url::fragment` on the URL that `s` parses to.
#[verifier::external_body]
pub(crate) fn url_fragment(s: &str) -> (res: Option<Option<String>>)
    ensures
        res.deep_view() == url_fragment_of(s@),
{
    let u = ::url::Url::parse(s).ok()?;
    Some(u.fragment().map(String::from))
}

/// Calls `url::Url::query_pairs` on the URL that `s` parses to and
/// collects the decoded pairs in order.
#[verifier::external_body]
pub(crate) fn url_query_pairs(s: &str) -> (res: Option<Vec<(String, String)>>)
    ensures
        res.deep_view() == url_query_pairs_of(s@),
{
    let u = ::url::Url::parse(s).ok()?;
    Some(u.query_pairs().map(|(k, v)| (k.into_owned(), v.into_owned())).collect())
}

/// Calls `url::Url::set_fragment(None)` on the URL that `s` parses to and
/// returns the new serialization. Also claims that the new URL is a
/// cannot-be-a-base URL exactly when the old one was: the edit only cuts
/// the serialization at the `#`, which stands after the path, and the
/// `url` crate holds that a serialization parses back to itself with the
/// same scheme end (`Url::check_invariants`), while whether a URL is
/// cannot-be-a-base is whether the text after the scheme's `:` does not
/// start with `/`.
#[verifier::external_body]
pub(crate) fn url_clear_fragment(s: &str) -> (res: Option<String>)
    ensures
        res.deep_view() == url_without_fragment(s@),
        res matches Some(t) ==> url_cannot_be_a_base_of(t@) == url_cannot_be_a_base_of(s@),
{
    match ::url::Url::parse(s) {
        Ok(mut u) => {
            u.set_fragment(None);
            Some(u.into())
        },
        Err(_) => None,
    }
}

/// Calls `url::Url::set_query(None)` on the URL that `s` parses to and
/// returns the new serialization. Also claims that the new URL is a
/// cannot-be-a-base URL exactly when the old one was, for the reason given
/// at `url_clear_fragment`: the edit only cuts out the part from the `?`,
/// which stands after the path.
#[verifier::external_body]
pub(crate) fn url_clear_query(s: &str) -> (res: Option<String>)
    ensures
        res.deep_view() == url_without_query(s@),
        res matches Some(t) ==> url_cannot_be_a_base_of(t@) == url_cannot_be_a_base_of(s@),
{
    match ::url::Url::parse(s) {
        Ok(mut u) => {
            u.set_query(None);
            Some(u.into())
        },
        Err(_) => None,
    }
}

/// Calls `url::PathSegmentsMut::pop_if_empty` on the URL that `s` parses
/// to; `None` also where `path_segments_mut` refuses.
#[verifier::external_body]
pub(crate) fn url_pop_if_empty(s: &str) -> (res: Option<String>)
    ensures
        res.deep_view() == url_after_pop_if_empty(s@),
{
    let mut u = ::url::Url::parse(s).ok()?;
    u.path_segments_mut().ok()?.pop_if_empty();
    Some(u.into())
}

/// Calls `url::PathSegmentsMut::pop` on the URL that `s` parses to; `None`
/// also where `path_segments_mut` refuses.
#[verifier::external_body]
pub(crate) fn url_pop_segment(s: &str) -> (res: Option<String>)
    ensures
        res.deep_view() == url_after_pop(s@),
{
    let mut u = ::url::Url::parse(s).ok()?;
    u.path_segments_mut().ok()?.pop();
    Some(u.into())
}

/// Calls `url::PathSegmentsMut::push(segment)` on the URL that `s` parses
/// to; `None` also where `path_segments_mut` refuses.
#[verifier::external_body]
pub(crate) fn url_push_segment(s: &str, segment: &str) -> (res: Option<String>)
    ensures
        res.deep_view() == url_after_push(s@, segment@),
{
    let mut u = ::url::Url::parse(s).ok()?;
    u.path_segments_mut().ok()?.push(segment);
    Some(u.into())
}

/// Calls `url::Url::set_scheme(scheme)` on the URL that `s` parses to;
/// `None` where the crate refuses the new scheme.
#[verifier::external_body]
pub(crate) fn url_set_scheme(s: &str, scheme: &str) -> (res: Option<String>)
    ensures
        res.deep_view() == url_with_scheme(s@, scheme@),
{
    match ::url::Url::parse(s) {
        Ok(mut u) => match u.set_scheme(scheme) {
            Ok(()) => Some(u.into()),
            Err(()) => None,
        },
        Err(_) => None,
    }
}

/// Calls `url::Url::set_path(path)` on the URL that `s` parses to.
#[verifier::external_body]
pub(crate) fn url_set_path(s: &str, path: &str) -> (res: Option<String>)
    ensures
        res.deep_view() == url_with_path(s@, path@),
{
    match ::url::Url::parse(s) {
        Ok(mut u) => {
            u.set_path(path);
            Some(u.into())
        },
        Err(_) => None,
    }
}

} // verus!
