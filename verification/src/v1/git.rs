//! Git repositories named by URL, and the canonical form of such URLs.
use vstd::prelude::*;

use crate::text::{chars_of, ends_with, starts_with, str_ends_with, str_eq, string_from_prefix};
use crate::v1::error::Error;
use crate::v1::into_url::IntoUrl;
use crate::v1::url_text::{
    parsed_url, url_after_pop, url_after_pop_if_empty, url_after_push, url_cannot_be_a_base,
    url_cannot_be_a_base_of, url_clear_fragment, url_clear_query, url_fragment, url_fragment_of,
    url_host_of, url_host_str, url_path, url_path_of, url_pop_if_empty, url_pop_segment,
    url_push_segment, url_query_pairs, url_query_pairs_of, url_set_path, url_set_scheme,
    url_with_path, url_with_scheme, url_without_fragment, url_without_query, Url,
};

verus! {

/// Information to find a specific commit in a Git repository.
#[derive(Debug, Clone, PartialEq, Eq, PartialOrd, Ord, Hash)]
pub enum GitReference {
    /// From a tag.
    Tag(String),
    /// From the HEAD of a branch.
    Branch(String),
    /// From a specific revision.
    Rev(String),
}

/// The mathematical value of a [`GitReference`].
pub enum GitReferenceView {
    Tag(Seq<char>),
    Branch(Seq<char>),
    Rev(Seq<char>),
}

impl View for GitReference {
    type V = GitReferenceView;

    open spec fn view(&self) -> GitReferenceView {
        match self {
            GitReference::Tag(s) => GitReferenceView::Tag(s@),
            GitReference::Branch(s) => GitReferenceView::Branch(s@),
            GitReference::Rev(s) => GitReferenceView::Rev(s@),
        }
    }
}

/// Information for referencing a specific git repository.
#[derive(Debug, Clone, PartialEq, Eq, PartialOrd, Ord, Hash)]
pub struct GitRepository {
    pub repo: Url,
    pub reference: GitReference,
    pub precise: Option<String>,
}

/// The mathematical value of a [`GitRepository`].
pub struct GitRepositoryView {
    pub repo: Seq<char>,
    pub reference: GitReferenceView,
    pub precise: Option<Seq<char>>,
}

impl View for GitRepository {
    type V = GitRepositoryView;

    open spec fn view(&self) -> GitRepositoryView {
        GitRepositoryView {
            repo: self.repo@,
            reference: self.reference@,
            precise: self.precise.deep_view(),
        }
    }
}

/// The reference that the query pairs of a repository URL select: the last
/// `branch`/`ref`, `rev` or `tag` pair wins, and the branch `master` is the
/// default.
pub open spec fn reference_from_pairs(pairs: Seq<(Seq<char>, Seq<char>)>) -> GitReferenceView
    decreases pairs.len(),
{
    if pairs.len() == 0 {
        GitReferenceView::Branch("master"@)
    } else {
        let (k, v) = pairs.last();
        let prior = reference_from_pairs(pairs.drop_last());
        if k == "branch"@ || k == "ref"@ {
            GitReferenceView::Branch(v)
        } else if k == "rev"@ {
            GitReferenceView::Rev(v)
        } else if k == "tag"@ {
            GitReferenceView::Tag(v)
        } else {
            prior
        }
    }
}

/// Whether a query key selects the reference.
pub open spec fn selects_reference(k: Seq<char>) -> bool {
    k == "branch"@ || k == "ref"@ || k == "rev"@ || k == "tag"@
}

/// Law: query pairs whose key selects no reference are ignored, wherever
/// they stand.
pub proof fn law_other_query_pairs_ignored(
    pairs: Seq<(Seq<char>, Seq<char>)>,
    i: int,
    pair: (Seq<char>, Seq<char>),
)
    requires
        0 <= i <= pairs.len(),
        !selects_reference(pair.0),
    ensures
        reference_from_pairs(pairs.insert(i, pair)) == reference_from_pairs(pairs),
    decreases pairs.len(),
{
    let inserted = pairs.insert(i, pair);
    if i == pairs.len() {
        assert(inserted.drop_last() =~= pairs);
    } else {
        law_other_query_pairs_ignored(pairs.drop_last(), i, pair);
        assert(inserted.drop_last() =~= pairs.drop_last().insert(i, pair));
        assert(inserted.last() == pairs.last());
    }
}

/// Law: the last pair that selects a reference decides it.
pub proof fn law_last_reference_pair_wins(
    pairs: Seq<(Seq<char>, Seq<char>)>,
    k: Seq<char>,
    v: Seq<char>,
)
    ensures
        (k == "branch"@ || k == "ref"@) ==> reference_from_pairs(pairs.push((k, v)))
            == GitReferenceView::Branch(v),
        k == "rev"@ ==> reference_from_pairs(pairs.push((k, v))) == GitReferenceView::Rev(v),
        k == "tag"@ ==> reference_from_pairs(pairs.push((k, v))) == GitReferenceView::Tag(v),
{
    reveal_strlit("branch");
    reveal_strlit("ref");
    reveal_strlit("rev");
    reveal_strlit("tag");
    assert("rev"@ != "branch"@) by {
        assert("rev"@.len() != "branch"@.len());
    }
    assert("tag"@ != "branch"@) by {
        assert("tag"@.len() != "branch"@.len());
    }
    assert("rev"@ != "ref"@) by {
        assert("rev"@[2] != "ref"@[2]);
    }
    assert("tag"@ != "ref"@) by {
        assert("tag"@[0] != "ref"@[0]);
    }
    assert("tag"@ != "rev"@) by {
        assert("tag"@[0] != "rev"@[0]);
    }
    assert(pairs.push((k, v)).drop_last() =~= pairs);
}

/// The text after the last `/` of a path (all of it when it has none).
pub open spec fn after_last_slash(p: Seq<char>) -> Seq<char>
    decreases p.len(),
{
    if p.len() == 0 {
        p
    } else if p.last() == '/' {
        Seq::empty()
    } else {
        after_last_slash(p.drop_last()).push(p.last())
    }
}

/// The last path segment, as `path_segments().next_back()` gives it: `None`
/// where the path does not start with `/`.
pub open spec fn last_path_segment(p: Seq<char>) -> Option<Seq<char>> {
    if starts_with(p, "/"@) {
        Some(after_last_slash(p))
    } else {
        None
    }
}

/// What the canonical URL step does: `None` where it cannot proceed (the
/// text does not parse, or the `url` crate refuses an edit that the step
/// makes unconditionally), `Err(u)` where the URL is a cannot-be-a-base URL
/// `u`, and `Ok` with the canonical serialization otherwise.
pub open spec fn canonical_url(s: Seq<char>) -> Option<Result<Seq<char>, Seq<char>>> {
    match url_cannot_be_a_base_of(s) {
        None => None,
        Some(true) => Some(Err(s)),
        Some(false) => match trailing_slash_step(s) {
            None => None,
            Some(s1) => match github_step(s1) {
                None => None,
                Some(s2) => match git_suffix_step(s2) {
                    None => None,
                    Some(s3) => Some(Ok(s3)),
                },
            },
        },
    }
}

/// Step one: a trailing slash is stripped.
pub open spec fn trailing_slash_step(s: Seq<char>) -> Option<Seq<char>> {
    match url_path_of(s) {
        None => None,
        Some(p) => if ends_with(p, "/"@) {
            url_after_pop_if_empty(s)
        } else {
            Some(s)
        },
    }
}

/// Step two: a GitHub URL gets the `https` scheme and a lower-case path.
pub open spec fn github_step(s: Seq<char>) -> Option<Seq<char>> {
    match url_host_of(s) {
        None => None,
        Some(host) => if host == Some("github.com"@) {
            match url_with_scheme(s, "https"@) {
                None => None,
                Some(s2) => match url_path_of(s2) {
                    None => None,
                    Some(p) => url_with_path(s2, lowercase(p)),
                },
            }
        } else {
            Some(s)
        },
    }
}

/// Step three: a `.git` extension of the last path segment is dropped.
pub open spec fn git_suffix_step(s: Seq<char>) -> Option<Seq<char>> {
    match url_path_of(s) {
        None => None,
        Some(p) => if ends_with(p, ".git"@) {
            match last_path_segment(p) {
                None => None,
                Some(last) => match url_after_pop(s) {
                    None => None,
                    Some(s2) => url_after_push(s2, last.subrange(0, last.len() - 4)),
                },
            }
        } else {
            Some(s)
        },
    }
}

/// Why building a repository from URL text is refused.
pub enum RepositoryRefusal {
    /// The text is not a URL; the error that the parser reported.
    NotAUrl(::url::ParseError),
    /// The URL, without its query and fragment, is this cannot-be-a-base URL.
    CannotBeABase(Seq<char>),
}

/// What building a repository from URL text yields: `None` where it cannot
/// proceed, `Err` with the reason where it is refused.
pub open spec fn repository_from_url(input: Seq<char>) -> Option<
    Result<GitRepositoryView, RepositoryRefusal>,
> {
    match parsed_url(input) {
        Err(e) => Some(Err(RepositoryRefusal::NotAUrl(e))),
        Ok(u0) => match (url_query_pairs_of(u0), url_fragment_of(u0)) {
            (Some(pairs), Some(precise)) => match url_without_fragment(u0) {
                None => None,
                Some(u1) => match url_without_query(u1) {
                    None => None,
                    Some(u2) => match canonical_url(u2) {
                        None => None,
                        Some(Err(u)) => Some(Err(RepositoryRefusal::CannotBeABase(u))),
                        Some(Ok(c)) => Some(
                            Ok(
                                GitRepositoryView {
                                    repo: c,
                                    reference: reference_from_pairs(pairs),
                                    precise,
                                },
                            ),
                        ),
                    },
                },
            },
            _ => None,
        },
    }
}

/// Law: a trailing slash is stripped from the path of every base URL,
/// whatever its host (GitHub included): canonicalization goes on from the
/// URL after `pop_if_empty`.
pub proof fn law_trailing_slash_stripped_for_every_host(s: Seq<char>, p: Seq<char>)
    requires
        url_cannot_be_a_base_of(s) == Some(false),
        url_path_of(s) == Some(p),
        ends_with(p, "/"@),
    ensures
        trailing_slash_step(s) == url_after_pop_if_empty(s),
        canonical_url(s) == match url_after_pop_if_empty(s) {
            None => None,
            Some(s1) => match github_step(s1) {
                None => None,
                Some(s2) => match git_suffix_step(s2) {
                    None => None,
                    Some(s3) => Some(Ok::<Seq<char>, Seq<char>>(s3)),
                },
            },
        },
{
}

/// Law: the repository URL is the canonical form of the URL without its
/// fragment and without its query, whatever the query holds; the fragment
/// is only ever the precise revision, and the query only selects the
/// reference.
pub proof fn law_repository_url_drops_fragment_and_query(
    input: Seq<char>,
    u0: Seq<char>,
    pairs: Seq<(Seq<char>, Seq<char>)>,
    precise: Option<Seq<char>>,
    u1: Seq<char>,
    u2: Seq<char>,
)
    requires
        parsed_url(input) == Ok::<Seq<char>, ::url::ParseError>(u0),
        url_query_pairs_of(u0) == Some(pairs),
        url_fragment_of(u0) == Some(precise),
        url_without_fragment(u0) == Some(u1),
        url_without_query(u1) == Some(u2),
    ensures
        repository_from_url(input) == match canonical_url(u2) {
            None => None,
            Some(Err(c)) => Some(Err(RepositoryRefusal::CannotBeABase(c))),
            Some(Ok(c)) => Some(
                Ok(
                    GitRepositoryView {
                        repo: c,
                        reference: reference_from_pairs(pairs),
                        precise,
                    },
                ),
            ),
        },
        canonical_url(u2) matches Some(Err(c)) ==> c == u2,
{
}

/// The lower-case form of `s`, as `str::to_lowercase` gives it.
pub uninterp spec fn lowercase(s: Seq<char>) -> Seq<char>;

/// Calls `str::to_lowercase`; claims only that the result is the value named
/// `lowercase` of the argument.
#[verifier::external_body]
fn to_lowercase(s: &str) -> (res: String)
    ensures
        res@ == lowercase(s@),
{
    s.to_lowercase()
}

proof fn lemma_after_last_slash_suffix(p: Seq<char>, suffix: Seq<char>)
    requires
        ends_with(p, suffix),
        forall|i: int| 0 <= i < suffix.len() ==> suffix[i] != '/',
    ensures
        ends_with(after_last_slash(p), suffix),
    decreases p.len(),
{
    if suffix.len() == 0 {
        assert(after_last_slash(p).subrange(
            after_last_slash(p).len() as int,
            after_last_slash(p).len() as int,
        ) =~= suffix);
    } else {
        let q = p.drop_last();
        let t = suffix.drop_last();
        assert(p.last() == suffix.last()) by {
            assert(p.subrange(p.len() - suffix.len(), p.len() as int)[suffix.len() - 1]
                == suffix[suffix.len() - 1]);
        }
        assert(p.last() != '/');
        assert(q.subrange(q.len() - t.len(), q.len() as int) =~= t) by {
            assert forall|i: int| 0 <= i < t.len() implies q.subrange(
                q.len() - t.len(),
                q.len() as int,
            )[i] == t[i] by {
                assert(p.subrange(p.len() - suffix.len(), p.len() as int)[i] == suffix[i]);
            }
        }
        lemma_after_last_slash_suffix(q, t);
        let a = after_last_slash(q);
        assert(after_last_slash(p) == a.push(p.last()));
        assert(a.push(p.last()).subrange(
            a.len() + 1 - suffix.len(),
            (a.len() + 1) as int,
        ) =~= t.push(suffix.last()));
        assert(t.push(suffix.last()) =~= suffix);
    }
}

/// The text after the last `/` of `path`.
fn text_after_last_slash(path: &str) -> (res: Vec<char>)
    ensures
        res@ == after_last_slash(path@),
{
    let chars = chars_of(path);
    let mut i: usize = chars.len();
    assert(chars@.subrange(0, i as int) =~= path@);
    assert(chars@.subrange(i as int, i as int) =~= Seq::<char>::empty());
    while i > 0 && chars[i - 1] != '/'
        invariant
            chars@ == path@,
            i <= chars.len(),
            after_last_slash(path@) == after_last_slash(chars@.subrange(0, i as int))
                + chars@.subrange(i as int, chars.len() as int),
        decreases i,
    {
        let ghost pre = chars@.subrange(0, i as int);
        assert(pre.drop_last() =~= chars@.subrange(0, i - 1));
        assert(chars@.subrange(i - 1, chars.len() as int) =~= seq![pre.last()]
            + chars@.subrange(i as int, chars.len() as int));
        i = i - 1;
        assert(after_last_slash(pre) == after_last_slash(chars@.subrange(0, i as int)).push(
            pre.last(),
        ));
        assert(after_last_slash(path@) =~= after_last_slash(chars@.subrange(0, i as int))
            + chars@.subrange(i as int, chars.len() as int));
    }
    let ghost pre = chars@.subrange(0, i as int);
    assert(after_last_slash(pre) =~= Seq::<char>::empty()) by {
        if i > 0 {
            assert(pre.last() == chars@[i - 1]);
        }
    }
    let mut out: Vec<char> = Vec::new();
    let mut j: usize = i;
    while j < chars.len()
        invariant
            i <= j <= chars.len(),
            out@ == chars@.subrange(i as int, j as int),
        decreases chars.len() - j,
    {
        out.push(chars[j]);
        j = j + 1;
        assert(out@ =~= chars@.subrange(i as int, j as int));
    }
    assert(after_last_slash(path@) =~= out@);
    out
}

/// The steps of canonicalizing a repository URL; `None` where the `url`
/// crate refuses one of the edits.
fn canonical_steps(url: &Url) -> (res: Option<Result<Url, Error>>)
    ensures
        match (res, canonical_url(url@)) {
            (None, None) => true,
            (Some(Ok(u)), Some(Ok(c))) => u@ == c,
            (Some(Err(Error::GitBaseUrlNotSupported(u))), Some(Err(c))) => u@ == c,
            _ => false,
        },
{
    let s = url.as_str();
    match url_cannot_be_a_base(s) {
        None => return None,
        Some(true) => {
            let same = Url::from_serialization(String::from_str(s));
            return Some(Err(Error::GitBaseUrlNotSupported(same)));
        },
        Some(false) => {},
    }
    // Strip a trailing slash.
    let s1: String = match url_path(s) {
        None => return None,
        Some(p) => if str_ends_with(p.as_str(), "/") {
            match url_pop_if_empty(s) {
                None => return None,
                Some(t) => t,
            }
        } else {
            String::from_str(s)
        },
    };
    proof {
        reveal_strlit("/");
    }
    assert(Some(s1@) == trailing_slash_step(url@));
    // GitHub URLs: the two spellings of a path hash differently, so the
    // scheme and the case of the path are normalized.
    let s2: String = match url_host_str(s1.as_str()) {
        None => return None,
        Some(host) => {
            let is_github = match &host {
                Some(h) => str_eq(h.as_str(), "github.com"),
                None => false,
            };
            proof {
                reveal_strlit("github.com");
            }
            if is_github {
                match url_set_scheme(s1.as_str(), "https") {
                    None => return None,
                    Some(t) => match url_path(t.as_str()) {
                        None => return None,
                        Some(p) => {
                            let lower = to_lowercase(p.as_str());
                            match url_set_path(t.as_str(), lower.as_str()) {
                                None => return None,
                                Some(t2) => t2,
                            }
                        },
                    },
                }
            } else {
                s1
            }
        },
    };
    assert(Some(s2@) == github_step(s1@));
    // Repositories can be reached with or without the `.git` extension.
    let s3: String = match url_path(s2.as_str()) {
        None => return None,
        Some(p) => {
            proof {
                reveal_strlit(".git");
            }
            if str_ends_with(p.as_str(), ".git") {
                let pchars = chars_of(p.as_str());
                proof {
                    reveal_strlit("/");
                }
                if pchars.len() == 0 || pchars[0] != '/' {
                    assert(!starts_with(p@, "/"@)) by {
                        if p@.len() >= 1 {
                            assert(p@.subrange(0, 1)[0] == p@[0]);
                        }
                    }
                    return None;
                }
                assert(starts_with(p@, "/"@)) by {
                    assert(p@.subrange(0, 1) =~= "/"@);
                }
                let last = text_after_last_slash(p.as_str());
                proof {
                    lemma_after_last_slash_suffix(p@, ".git"@);
                }
                let trimmed = string_from_prefix(&last, last.len() - 4);
                match url_pop_segment(s2.as_str()) {
                    None => return None,
                    Some(t) => match url_push_segment(t.as_str(), trimmed.as_str()) {
                        None => return None,
                        Some(t2) => t2,
                    },
                }
            } else {
                s2
            }
        },
    };
    assert(Some(s3@) == git_suffix_step(s2@));
    Some(Ok(Url::from_serialization(s3)))
}

/// Canonicalizes a repository URL: refuses cannot-be-a-base URLs, strips a
/// trailing slash, moves GitHub URLs to `https` with a lower-case path and
/// drops a `.git` extension.
pub fn canonicalize_url(url: &Url) -> (res: Result<Url, Error>)
    requires
        canonical_url(url@) is Some,
    ensures
        match (res, canonical_url(url@)) {
            (Ok(u), Some(Ok(c))) => u@ == c,
            (Err(Error::GitBaseUrlNotSupported(u)), Some(Err(c))) => u@ == c,
            _ => false,
        },
{
    match canonical_steps(url) {
        Some(r) => r,
        None => vstd::pervasive::unreached(),
    }
}

/// Canonicalizes a repository URL, or says where it cannot proceed.
///
/// Cannot-be-a-base URLs (such as `github.com:rust-lang/cargo.git`) are
/// refused; a trailing slash is stripped; GitHub URLs are moved to `https`
/// and lower-cased; a `.git` extension is dropped. `None` where the `url`
/// crate refuses one of these edits (such as the move to `https` of a
/// `git://github.com/...` URL); otherwise the result of `canonicalize_url`.
pub fn canonicalize_url_checked(url: &Url) -> (res: Option<Result<Url, Error>>)
    ensures
        match (res, canonical_url(url@)) {
            (None, None) => true,
            (Some(Ok(u)), Some(Ok(c))) => u@ == c,
            (Some(Err(Error::GitBaseUrlNotSupported(u))), Some(Err(c))) => u@ == c,
            _ => false,
        },
{
    match canonical_steps(url) {
        None => None,
        Some(_) => Some(canonicalize_url(url)),
    }
}

/// Selects the reference named by the query pairs of a repository URL.
fn reference_of_pairs(pairs: &Vec<(String, String)>) -> (res: GitReference)
    ensures
        res@ == reference_from_pairs(pairs.deep_view()),
{
    let mut reference = GitReference::Branch(String::from_str("master"));
    proof {
        reveal_strlit("master");
        reveal_strlit("branch");
        reveal_strlit("ref");
        reveal_strlit("rev");
        reveal_strlit("tag");
    }
    let mut i: usize = 0;
    while i < pairs.len()
        invariant
            i <= pairs.len(),
            reference@ == reference_from_pairs(pairs.deep_view().subrange(0, i as int)),
        decreases pairs.len() - i,
    {
        let ghost prefix = pairs.deep_view().subrange(0, i + 1);
        assert(prefix.drop_last() =~= pairs.deep_view().subrange(0, i as int));
        let k = &pairs[i].0;
        let v = &pairs[i].1;
        if str_eq(k.as_str(), "branch") || str_eq(k.as_str(), "ref") {
            reference = GitReference::Branch(v.clone());
        } else if str_eq(k.as_str(), "rev") {
            reference = GitReference::Rev(v.clone());
        } else if str_eq(k.as_str(), "tag") {
            reference = GitReference::Tag(v.clone());
        }
        i = i + 1;
    }
    assert(pairs.deep_view().subrange(0, pairs.len() as int) =~= pairs.deep_view());
    reference
}

impl GitRepository {
    /// The steps of building a repository from URL text; `None` where the
    /// `url` crate refuses one of the edits.
    fn build_repository(url: String) -> (res: Option<Result<GitRepository, Error>>)
        ensures
            match (res, repository_from_url(url@)) {
                (None, None) => true,
                (Some(Ok(r)), Some(Ok(v))) => r@ == v,
                (
                    Some(Err(Error::InvalidStringUrl(s, e))),
                    Some(Err(RepositoryRefusal::NotAUrl(pe))),
                ) => s@ == url@ && e == pe,
                (
                    Some(Err(Error::GitBaseUrlNotSupported(u))),
                    Some(Err(RepositoryRefusal::CannotBeABase(c))),
                ) => u@ == c,
                _ => false,
            },
            res matches Some(r) ==> (parsed_url(url@) matches Ok(u0) ==> (r is Err
                <==> url_cannot_be_a_base_of(u0) == Some(true))),
    {
        let u0 = match url.into_url() {
            Ok(u) => u,
            Err(e) => return Some(Err(e)),
        };
        let s0 = u0.as_str();
        let pairs = match url_query_pairs(s0) {
            None => return None,
            Some(p) => p,
        };
        let reference = reference_of_pairs(&pairs);
        let precise = match url_fragment(s0) {
            None => return None,
            Some(f) => f,
        };
        let s1 = match url_clear_fragment(s0) {
            None => return None,
            Some(t) => t,
        };
        let s2 = match url_clear_query(s1.as_str()) {
            None => return None,
            Some(t) => t,
        };
        let u2 = Url::from_serialization(s2);
        match canonical_steps(&u2) {
            None => None,
            Some(Err(e)) => Some(Err(e)),
            Some(Ok(repo)) => Some(Ok(GitRepository { repo, reference, precise })),
        }
    }

    /// Builds a repository from URL text: the query selects the reference
    /// (`branch`/`ref`, `rev` or `tag`, the branch `master` by default), the
    /// fragment is the precise revision, and the URL without both is
    /// canonicalized.
    pub fn from_url_string(url: String) -> (res: Result<GitRepository, Error>)
        requires
            repository_from_url(url@) is Some,
        ensures
            match (res, repository_from_url(url@)) {
                (Ok(r), Some(Ok(v))) => r@ == v,
                (Err(Error::InvalidStringUrl(s, e)), Some(Err(RepositoryRefusal::NotAUrl(pe)))) => s@
                    == url@ && e == pe,
                (
                    Err(Error::GitBaseUrlNotSupported(u)),
                    Some(Err(RepositoryRefusal::CannotBeABase(c))),
                ) => u@ == c,
                _ => false,
            },
            parsed_url(url@) matches Ok(u0) ==> (res is Err <==> url_cannot_be_a_base_of(u0)
                == Some(true)),
    {
        match GitRepository::build_repository(url) {
            Some(r) => r,
            None => vstd::pervasive::unreached(),
        }
    }

    /// Builds a repository from URL text, or says where it cannot proceed:
    /// `None` where the `url` crate refuses one of the edits of
    /// canonicalization, otherwise the result of `from_url_string`.
    pub fn from_url_string_checked(url: String) -> (res: Option<Result<GitRepository, Error>>)
        ensures
            match (res, repository_from_url(url@)) {
                (None, None) => true,
                (Some(Ok(r)), Some(Ok(v))) => r@ == v,
                (
                    Some(Err(Error::InvalidStringUrl(s, e))),
                    Some(Err(RepositoryRefusal::NotAUrl(pe))),
                ) => s@ == url@ && e == pe,
                (
                    Some(Err(Error::GitBaseUrlNotSupported(u))),
                    Some(Err(RepositoryRefusal::CannotBeABase(c))),
                ) => u@ == c,
                _ => false,
            },
            res matches Some(r) ==> (parsed_url(url@) matches Ok(u0) ==> (r is Err
                <==> url_cannot_be_a_base_of(u0) == Some(true))),
    {
        let probe = GitRepository::build_repository(url.clone());
        match probe {
            None => None,
            Some(_) => Some(GitRepository::from_url_string(url)),
        }
    }
}

} // verus!
