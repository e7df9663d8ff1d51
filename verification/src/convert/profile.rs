//! Conversion of compilation profiles, with the rules that profile
//! overrides obey.
use vstd::prelude::*;

use crate::convert::ConvertResult;
use crate::schema::profile::{copies, same_settings, Profile as SchemaProfile};
use crate::schema::values::ProfilePackageSpec;
use crate::text::{concat2, str_eq};
use crate::v1::error::{is_message, Error as ModelError};
use crate::v1::model::Profile;

verus! {

/// The errors of a profile conversion.
#[derive(Debug, PartialEq)]
pub enum Error {
    V1(ModelError),
    NestedProfileOverride,
    PanicNotAllowedInOverride,
    LtoNotAllowedInOverride,
    RPathNotAllowedInOverride,
    InvalidPanicSetting(String),
}

/// The kinds of the profile conversion errors, without their payloads.
pub enum ProfileProblem {
    NestedProfileOverride,
    PanicNotAllowedInOverride,
    LtoNotAllowedInOverride,
    RPathNotAllowedInOverride,
    InvalidPanicSetting(Seq<char>),
}

/// The problem that an error reports; `None` for an error of the model.
pub open spec fn problem_of(e: Error) -> Option<ProfileProblem> {
    match e {
        Error::V1(_) => None,
        Error::NestedProfileOverride => Some(ProfileProblem::NestedProfileOverride),
        Error::PanicNotAllowedInOverride => Some(ProfileProblem::PanicNotAllowedInOverride),
        Error::LtoNotAllowedInOverride => Some(ProfileProblem::LtoNotAllowedInOverride),
        Error::RPathNotAllowedInOverride => Some(ProfileProblem::RPathNotAllowedInOverride),
        Error::InvalidPanicSetting(s) => Some(ProfileProblem::InvalidPanicSetting(s@)),
    }
}

impl Error {
    /// The human-readable description of the error.
    pub fn message(&self) -> (res: String)
        ensures
            match self {
                Error::V1(e) => is_message(*e, res@),
                Error::NestedProfileOverride => res@ == "Profile overrides cannot be nested."@,
                Error::PanicNotAllowedInOverride => res@
                    == "`panic` may not be specified in a profile override."@,
                Error::LtoNotAllowedInOverride => res@
                    == "`lto` may not be specified in a profile override."@,
                Error::RPathNotAllowedInOverride => res@
                    == "`rpath` may not be specified in a profile override."@,
                Error::InvalidPanicSetting(s) => res@ == "`panic` setting of `"@ + s@
                    + "` is not a valid setting, must be `unwind` or `abort`"@,
            },
    {
        match self {
            Error::V1(e) => e.message(),
            Error::NestedProfileOverride => String::from_str("Profile overrides cannot be nested."),
            Error::PanicNotAllowedInOverride => String::from_str(
                "`panic` may not be specified in a profile override.",
            ),
            Error::LtoNotAllowedInOverride => String::from_str(
                "`lto` may not be specified in a profile override.",
            ),
            Error::RPathNotAllowedInOverride => String::from_str(
                "`rpath` may not be specified in a profile override.",
            ),
            Error::InvalidPanicSetting(s) => {
                let a = concat2("`panic` setting of `", s.as_str());
                concat2(a.as_str(), "` is not a valid setting, must be `unwind` or `abort`")
            },
        }
    }
}

impl From<ModelError> for Error {
    /// Wraps an error of the model.
    fn from(err: ModelError) -> (res: Error) {
        Error::V1(err)
    }
}

impl vstd::std_specs::convert::FromSpecImpl<ModelError> for Error {
    open spec fn obeys_from_spec() -> bool {
        true
    }

    open spec fn from_spec(err: ModelError) -> Error {
        Error::V1(err)
    }
}

/// The result type of profile conversion.
pub type Result<T> = ConvertResult<T, (), Error>;

/// What keeps a profile from serving as an override: overrides of its own,
/// then a `panic`, `lto` or `rpath` setting, in that order of precedence.
pub open spec fn override_problem(p: SchemaProfile) -> Option<ProfileProblem> {
    if p.overrides is Some || p.build_override is Some {
        Some(ProfileProblem::NestedProfileOverride)
    } else if p.panic is Some {
        Some(ProfileProblem::PanicNotAllowedInOverride)
    } else if p.lto is Some {
        Some(ProfileProblem::LtoNotAllowedInOverride)
    } else if p.rpath is Some {
        Some(ProfileProblem::RPathNotAllowedInOverride)
    } else {
        None
    }
}

/// The problem of the first override, in order, that has one.
pub open spec fn first_override_problem(entries: Seq<(ProfilePackageSpec, SchemaProfile)>) -> Option<
    ProfileProblem,
>
    decreases entries.len(),
{
    if entries.len() == 0 {
        None
    } else {
        match override_problem(entries[0].1) {
            Some(p) => Some(p),
            None => first_override_problem(entries.drop_first()),
        }
    }
}

/// Whether a `panic` setting is one of the two valid ones.
pub open spec fn valid_panic(s: Seq<char>) -> bool {
    s == "unwind"@ || s == "abort"@
}

/// What converting a profile reports: the problem of its build override,
/// else that of the first per-package override that has one, else an
/// invalid `panic` setting, else nothing.
pub open spec fn profile_problem(p: SchemaProfile) -> Option<ProfileProblem> {
    if p.build_override is Some && override_problem(*p.build_override->0) is Some {
        override_problem(*p.build_override->0)
    } else if p.overrides is Some && first_override_problem(p.overrides->0@) is Some {
        first_override_problem(p.overrides->0@)
    } else if p.panic is Some && !valid_panic(p.panic->0@) {
        Some(ProfileProblem::InvalidPanicSetting(p.panic->0@))
    } else {
        None
    }
}

/// Law: profile overrides cannot be nested: a build override with
/// overrides of its own makes the conversion report a nested override.
pub proof fn law_nested_build_override_refused(p: SchemaProfile)
    requires
        p.build_override is Some,
        (*p.build_override->0).overrides is Some || (*p.build_override->0).build_override is Some,
    ensures
        profile_problem(p) == Some(ProfileProblem::NestedProfileOverride),
{
}

proof fn lemma_no_first_problem(entries: Seq<(ProfilePackageSpec, SchemaProfile)>)
    requires
        first_override_problem(entries) is None,
    ensures
        forall|j: int| 0 <= j < entries.len() ==> override_problem(#[trigger] entries[j].1) is None,
    decreases entries.len(),
{
    if entries.len() > 0 {
        lemma_no_first_problem(entries.drop_first());
        assert forall|j: int| 0 <= j < entries.len() implies override_problem(
            #[trigger] entries[j].1,
        ) is None by {
            if j > 0 {
                assert(entries[j] == entries.drop_first()[j - 1]);
            }
        }
    }
}

/// Law: every override of a profile that converts is a plain override: no
/// nesting and no `panic`, `lto` or `rpath` setting; and its own `panic`
/// setting, if any, is `unwind` or `abort`.
pub proof fn law_convertible_profile_is_clean(p: SchemaProfile)
    requires
        profile_problem(p) is None,
    ensures
        p.build_override is Some ==> override_problem(*p.build_override->0) is None,
        p.overrides is Some ==> forall|j: int|
            0 <= j < p.overrides->0@.len() ==> override_problem(
                #[trigger] p.overrides->0@[j].1,
            ) is None,
        p.panic is Some ==> valid_panic(p.panic->0@),
{
    if p.overrides is Some {
        lemma_no_first_problem(p.overrides->0@);
    }
}

/// Law: a profile without overrides whose `panic` setting, if any, is
/// `unwind` or `abort` converts.
pub proof fn law_plain_profile_converts(p: SchemaProfile)
    requires
        p.build_override is None,
        p.overrides is None,
        p.panic is Some ==> valid_panic(p.panic->0@),
    ensures
        profile_problem(p) is None,
{
}

/// Whether a profile may stand as an override: no overrides or build
/// override of its own, and none of `panic`, `lto` or `rpath` set.
pub open spec fn plain_override(p: SchemaProfile) -> bool {
    &&& p.overrides is None
    &&& p.build_override is None
    &&& p.panic is None
    &&& p.lto is None
    &&& p.rpath is None
}

proof fn lemma_plain_overrides_no_first_problem(entries: Seq<(ProfilePackageSpec, SchemaProfile)>)
    requires
        forall|j: int| 0 <= j < entries.len() ==> plain_override(#[trigger] entries[j].1),
    ensures
        first_override_problem(entries) is None,
    decreases entries.len(),
{
    if entries.len() > 0 {
        assert(plain_override(entries[0].1));
        assert forall|j: int| 0 <= j < entries.drop_first().len() implies plain_override(
            #[trigger] entries.drop_first()[j].1,
        ) by {
            assert(entries.drop_first()[j] == entries[j + 1]);
        }
        lemma_plain_overrides_no_first_problem(entries.drop_first());
    }
}

/// Law: a profile converts exactly when its build override (if any) and
/// each per-package override are plain, setting nothing that an override
/// may not set and nesting nothing, and its `panic` setting (if any) is
/// `unwind` or `abort`. In particular a build override that only sets, say,
/// an optimization level is accepted.
pub proof fn law_profile_converts_exactly_when_clean(p: SchemaProfile)
    ensures
        profile_problem(p) is None <==> {
            &&& p.build_override is Some ==> plain_override(*p.build_override->0)
            &&& p.overrides is Some ==> forall|j: int|
                0 <= j < p.overrides->0@.len() ==> plain_override(
                    #[trigger] p.overrides->0@[j].1,
                )
            &&& p.panic is Some ==> (p.panic->0@ == "unwind"@ || p.panic->0@ == "abort"@)
        },
{
    if profile_problem(p) is None {
        law_convertible_profile_is_clean(p);
    }
    if p.overrides is Some && (forall|j: int|
        0 <= j < p.overrides->0@.len() ==> plain_override(#[trigger] p.overrides->0@[j].1)) {
        lemma_plain_overrides_no_first_problem(p.overrides->0@);
    }
}

proof fn lemma_same_first_problem(
    a: Seq<(ProfilePackageSpec, SchemaProfile)>,
    b: Seq<(ProfilePackageSpec, SchemaProfile)>,
)
    requires
        a.len() == b.len(),
        forall|j: int| 0 <= j < a.len() ==> same_settings(#[trigger] a[j].1, b[j].1),
    ensures
        first_override_problem(a) == first_override_problem(b),
    decreases a.len(),
{
    if a.len() > 0 {
        assert(same_settings(a[0].1, b[0].1));
        assert forall|j: int| 0 <= j < a.drop_first().len() implies same_settings(
            #[trigger] a.drop_first()[j].1,
            b.drop_first()[j].1,
        ) by {
            assert(same_settings(a[j + 1].1, b[j + 1].1));
        }
        lemma_same_first_problem(a.drop_first(), b.drop_first());
    }
}

/// Law: a copy of a profile converts exactly as the original does.
pub proof fn law_copy_converts_alike(copy: SchemaProfile, original: SchemaProfile)
    requires
        copies(copy, original),
    ensures
        profile_problem(copy) == profile_problem(original),
{
    if copy.overrides is Some {
        lemma_same_first_problem(copy.overrides->0@, original.overrides->0@);
    }
}

/// Checks whether a profile may serve as an override.
fn validate_profile(src: &SchemaProfile) -> (res: Option<Error>)
    ensures
        match res {
            Some(e) => problem_of(e) is Some && problem_of(e) == override_problem(*src),
            None => override_problem(*src) is None,
        },
{
    if src.overrides.is_some() || src.build_override.is_some() {
        Some(Error::NestedProfileOverride)
    } else if src.panic.is_some() {
        Some(Error::PanicNotAllowedInOverride)
    } else if src.lto.is_some() {
        Some(Error::LtoNotAllowedInOverride)
    } else if src.rpath.is_some() {
        Some(Error::RPathNotAllowedInOverride)
    } else {
        None
    }
}

/// Converts a profile. Overrides may not nest, nor set `panic`, `lto` or
/// `rpath`; the build override is checked first, then the per-package
/// overrides in order; `panic` must be `unwind` or `abort`.
pub fn convert_profile(src: SchemaProfile) -> (res: Result<Profile>)
    ensures
        match res {
            Ok((_, warnings)) => warnings is None && profile_problem(src) is None,
            Err(e) => problem_of(e) is Some && problem_of(e) == profile_problem(src),
        },
{
    if let Some(b) = &src.build_override {
        if let Some(err) = validate_profile(&**b) {
            return Err(err);
        }
    }
    if let Some(o) = &src.overrides {
        let mut i: usize = 0;
        assert(o@.subrange(0, o@.len() as int) =~= o@);
        while i < o.len()
            invariant
                i <= o@.len(),
                src.build_override is Some ==> override_problem(*src.build_override->0) is None,
                src.overrides == Some(*o),
                first_override_problem(o@) == first_override_problem(o@.subrange(
                    i as int,
                    o@.len() as int,
                )),
            decreases o@.len() - i,
        {
            let ghost rest = o@.subrange(i as int, o@.len() as int);
            assert(rest.drop_first() =~= o@.subrange(i + 1, o@.len() as int));
            let entry = o.entry(i);
            if let Some(err) = validate_profile(&entry.1) {
                return Err(err);
            }
            i = i + 1;
        }
        assert(o@.subrange(i as int, o@.len() as int) =~= Seq::<
            (ProfilePackageSpec, SchemaProfile),
        >::empty());
    }
    if let Some(panic) = &src.panic {
        proof {
            reveal_strlit("unwind");
            reveal_strlit("abort");
        }
        if !str_eq(panic.as_str(), "unwind") && !str_eq(panic.as_str(), "abort") {
            return Err(Error::InvalidPanicSetting(panic.clone()));
        }
    }
    Ok((Profile {  }, None))
}

} // verus!
