//! Compilation profiles as a manifest writes them, with their per-package
//! overrides.
use vstd::prelude::*;

use crate::schema::opt_level::OptLevel;
use crate::schema::values::{package_spec_key, ProfilePackageSpec, StringOrBool, U32OrBool};
use crate::text::{compare_text, lemma_text_lt_irreflexive, lemma_text_lt_total, lemma_text_lt_transitive, text_lt, TextOrder};

verus! {

/// A `[profile.*]` table.
#[derive(Debug, Default, Eq, PartialEq)]
pub struct Profile {
    pub opt_level: Option<OptLevel>,
    pub lto: Option<StringOrBool>,
    pub codegen_units: Option<u32>,
    pub debug: Option<U32OrBool>,
    pub debug_assertions: Option<bool>,
    pub rpath: Option<bool>,
    pub panic: Option<String>,
    pub overflow_checks: Option<bool>,
    pub incremental: Option<bool>,
    pub overrides: Option<ProfileOverrides>,
    pub build_override: Option<Box<Profile>>,
}

/// The selectors of a list of override entries, in order.
pub open spec fn override_keys(entries: Seq<(ProfilePackageSpec, Profile)>) -> Seq<
    Option<Seq<char>>,
> {
    entries.map_values(|e: (ProfilePackageSpec, Profile)| package_spec_key(e.0))
}

/// The order of selectors by their keys: package id specifications by
/// their text, all of them before the selector of all packages.
pub open spec fn key_lt(a: Option<Seq<char>>, b: Option<Seq<char>>) -> bool {
    match (a, b) {
        (Some(x), Some(y)) => text_lt(x, y),
        (Some(_), None) => true,
        _ => false,
    }
}

/// Each key comes before every later one.
pub open spec fn keys_ascending(keys: Seq<Option<Seq<char>>>) -> bool {
    forall|i: int, j: int| 0 <= i < j < keys.len() ==> key_lt(#[trigger] keys[i], #[trigger] keys[j])
}

proof fn lemma_key_lt_irreflexive(a: Option<Seq<char>>)
    ensures
        !key_lt(a, a),
{
    if let Some(x) = a {
        lemma_text_lt_irreflexive(x);
    }
}

proof fn lemma_key_lt_transitive(a: Option<Seq<char>>, b: Option<Seq<char>>, c: Option<Seq<char>>)
    requires
        key_lt(a, b),
        key_lt(b, c),
    ensures
        key_lt(a, c),
{
    if let (Some(x), Some(y), Some(z)) = (a, b, c) {
        lemma_text_lt_transitive(x, y, z);
    }
}

proof fn lemma_key_lt_total(a: Option<Seq<char>>, b: Option<Seq<char>>)
    ensures
        a != b ==> (key_lt(a, b) || key_lt(b, a)),
        !(key_lt(a, b) && key_lt(b, a)),
{
    if let (Some(x), Some(y)) = (a, b) {
        lemma_text_lt_total(x, y);
    }
}

/// Whether the selector `a` comes before `b`.
fn selector_before(a: &ProfilePackageSpec, b: &ProfilePackageSpec) -> (res: bool)
    ensures
        res == key_lt(package_spec_key(*a), package_spec_key(*b)),
{
    match (a, b) {
        (ProfilePackageSpec::Spec(x), ProfilePackageSpec::Spec(y)) => {
            match compare_text(x.as_str(), y.as_str()) {
                TextOrder::Before => true,
                _ => false,
            }
        },
        (ProfilePackageSpec::Spec(_), ProfilePackageSpec::All) => true,
        _ => false,
    }
}

/// Where every key before `p` is before `key`, and the key at `p` (if any)
/// is neither before `key` nor `key`, `key` is absent and inserting it at
/// `p` keeps the keys ascending.
proof fn lemma_key_insertion_point(keys: Seq<Option<Seq<char>>>, key: Option<Seq<char>>, p: int)
    requires
        keys_ascending(keys),
        0 <= p <= keys.len(),
        forall|j: int| 0 <= j < p ==> key_lt(#[trigger] keys[j], key),
        p < keys.len() ==> !key_lt(keys[p], key) && keys[p] != key,
    ensures
        !keys.contains(key),
        keys_ascending(keys.insert(p, key)),
{
    assert forall|j: int| p <= j < keys.len() implies key_lt(key, #[trigger] keys[j]) by {
        lemma_key_lt_total(keys[p], key);
        if j > p {
            lemma_key_lt_transitive(key, keys[p], keys[j]);
        }
    }
    if keys.contains(key) {
        let j = keys.index_of(key);
        assert(keys[j] == key);
        lemma_key_lt_irreflexive(key);
        if j < p {
            assert(key_lt(keys[j], key));
        } else {
            assert(key_lt(key, keys[j]));
        }
    }
    let s = keys.insert(p, key);
    assert forall|i: int, j: int| 0 <= i < j < s.len() implies key_lt(
        #[trigger] s[i],
        #[trigger] s[j],
    ) by {
        if j < p {
            assert(s[i] == keys[i] && s[j] == keys[j]);
        } else if j == p {
            assert(s[i] == keys[i] && s[j] == key);
        } else if i < p {
            assert(s[i] == keys[i] && s[j] == keys[j - 1]);
        } else if i == p {
            assert(s[i] == key && s[j] == keys[j - 1]);
        } else {
            assert(s[i] == keys[i - 1] && s[j] == keys[j - 1]);
        }
    }
}

/// Per-package overrides of a profile: selectors mapped to profiles, each
/// selector at most once, kept in ascending order of their selectors.
#[derive(Debug, Eq, PartialEq)]
pub struct ProfileOverrides {
    entries: Vec<(ProfilePackageSpec, Profile)>,
}

impl View for ProfileOverrides {
    type V = Seq<(ProfilePackageSpec, Profile)>;

    /// The entries, in ascending order of their selectors.
    closed spec fn view(&self) -> Seq<(ProfilePackageSpec, Profile)> {
        self.entries@
    }
}

proof fn lemma_override_keys_push(
    s: Seq<(ProfilePackageSpec, Profile)>,
    e: (ProfilePackageSpec, Profile),
)
    ensures
        override_keys(s.push(e)) == override_keys(s).push(package_spec_key(e.0)),
{
    assert(override_keys(s.push(e)) =~= override_keys(s).push(package_spec_key(e.0)));
}

impl ProfileOverrides {
    /// The selectors are kept in ascending order, so none occurs twice.
    #[verifier::type_invariant]
    closed spec fn keys_in_order(&self) -> bool {
        keys_ascending(override_keys(self.entries@))
    }

    /// No overrides.
    pub fn new() -> (res: ProfileOverrides)
        ensures
            res@ == Seq::<(ProfilePackageSpec, Profile)>::empty(),
    {
        ProfileOverrides { entries: Vec::new() }
    }

    /// The number of overrides.
    pub fn len(&self) -> (res: usize)
        ensures
            res == self@.len(),
    {
        self.entries.len()
    }

    /// The override at position `i`.
    pub fn entry(&self, i: usize) -> (res: &(ProfilePackageSpec, Profile))
        requires
            i < self@.len(),
        ensures
            *res == self@[i as int],
    {
        &self.entries[i]
    }

    /// The first position whose selector is not before `spec`.
    fn first_not_before(&self, spec: &ProfilePackageSpec) -> (res: usize)
        ensures
            res <= self@.len(),
            forall|j: int|
                0 <= j < res ==> key_lt(
                    #[trigger] override_keys(self@)[j],
                    package_spec_key(*spec),
                ),
            res < self@.len() ==> !key_lt(override_keys(self@)[res as int], package_spec_key(*spec)),
    {
        let mut i: usize = 0;
        while i < self.entries.len()
            invariant
                i <= self.entries.len(),
                forall|j: int|
                    0 <= j < i ==> key_lt(
                        #[trigger] override_keys(self.entries@)[j],
                        package_spec_key(*spec),
                    ),
            decreases self.entries.len() - i,
        {
            if !selector_before(&self.entries[i].0, spec) {
                return i;
            }
            i = i + 1;
        }
        i
    }

    /// Sets the profile for `spec`; returns the profile it replaces. The
    /// selectors stay in ascending order.
    pub fn insert(&mut self, spec: ProfilePackageSpec, profile: Profile) -> (res: Option<Profile>)
        ensures
            match res {
                Some(p) => exists|i: int|
                    0 <= i < old(self)@.len() && package_spec_key(old(self)@[i].0)
                        == package_spec_key(spec) && old(self)@[i].1 == p && final(self)@
                        == old(self)@.update(i, (spec, profile)),
                None => (forall|i: int|
                    0 <= i < old(self)@.len() ==> package_spec_key(old(self)@[i].0)
                        != package_spec_key(spec)) && exists|i: int|
                    0 <= i <= old(self)@.len() && final(self)@ == old(self)@.insert(
                        i,
                        (spec, profile),
                    ),
            },
            keys_ascending(override_keys(final(self)@)),
    {
        proof {
            use_type_invariant(&*self);
        }
        let ghost old_keys = override_keys(self.entries@);
        let ghost key = package_spec_key(spec);
        let p = self.first_not_before(&spec);
        let present = p < self.entries.len() && self.entries[p].0.same_as(&spec);
        if present {
            let mut entries: Vec<(ProfilePackageSpec, Profile)> = Vec::new();
            std::mem::swap(&mut entries, &mut self.entries);
            let ghost before = entries@;
            let old_entry = entries.remove(p);
            entries.insert(p, (spec, profile));
            assert(entries@ =~= before.update(p as int, (spec, profile)));
            assert(package_spec_key(before[p as int].0) == package_spec_key(spec));
            assert(override_keys(entries@) =~= override_keys(before));
            std::mem::swap(&mut entries, &mut self.entries);
            assert(old_entry == before[p as int]);
            assert(self@ == old(self)@.update(p as int, (spec, profile)));
            Some(old_entry.1)
        } else {
            proof {
                lemma_key_insertion_point(old_keys, key, p as int);
            }
            let mut entries: Vec<(ProfilePackageSpec, Profile)> = Vec::new();
            std::mem::swap(&mut entries, &mut self.entries);
            let ghost before = entries@;
            entries.insert(p, (spec, profile));
            proof {
                assert(override_keys(entries@) =~= old_keys.insert(p as int, key));
                assert forall|i: int| 0 <= i < before.len() implies package_spec_key(
                    #[trigger] before[i].0,
                ) != key by {
                    assert(old_keys[i] == package_spec_key(before[i].0));
                }
            }
            std::mem::swap(&mut entries, &mut self.entries);
            assert(self@ == old(self)@.insert(p as int, (spec, profile)));
            None
        }
    }
}

/// Whether two profiles hold the same settings, overrides aside; of the
/// overrides, only whether they are present.
pub open spec fn same_settings(a: Profile, b: Profile) -> bool {
    &&& a.opt_level == b.opt_level
    &&& a.lto == b.lto
    &&& a.codegen_units == b.codegen_units
    &&& a.debug == b.debug
    &&& a.debug_assertions == b.debug_assertions
    &&& a.rpath == b.rpath
    &&& a.panic == b.panic
    &&& a.overflow_checks == b.overflow_checks
    &&& a.incremental == b.incremental
    &&& (a.overrides is Some <==> b.overrides is Some)
    &&& (a.build_override is Some <==> b.build_override is Some)
}

/// Whether `a` is a copy of `b`: the same settings, its build override
/// the same settings as that of `b`, and its overrides the same selectors in
/// the same order, each with the same settings.
pub open spec fn copies(a: Profile, b: Profile) -> bool {
    &&& same_settings(a, b)
    &&& a.build_override is Some ==> same_settings(*a.build_override->0, *b.build_override->0)
    &&& a.overrides is Some ==> {
        &&& override_keys(a.overrides->0@) == override_keys(b.overrides->0@)
        &&& a.overrides->0@.len() == b.overrides->0@.len()
        &&& forall|j: int|
            0 <= j < a.overrides->0@.len() ==> same_settings(
                #[trigger] a.overrides->0@[j].1,
                b.overrides->0@[j].1,
            )
    }
}

/// Whether `a` is a copy of `b` all the way down: the same settings, a
/// build override that is a copy of that of `b`, and overrides with the
/// same selectors in the same order, each profile a copy of that of `b`.
pub open spec fn same_profile(a: Profile, b: Profile) -> bool
    decreases a,
{
    &&& same_settings(a, b)
    &&& match (a.build_override, b.build_override) {
        (Some(x), Some(y)) => same_profile(*x, *y),
        _ => true,
    }
    &&& match (a.overrides, b.overrides) {
        (Some(x), Some(y)) => {
            &&& override_keys(x@) == override_keys(y@)
            &&& x@.len() == y@.len()
            &&& forall|j: int| 0 <= j < x@.len() ==> same_profile(#[trigger] x@[j].1, y@[j].1)
        },
        _ => true,
    }
}

impl Clone for Profile {
    /// A copy of every setting, overrides included, all the way down.
    fn clone(&self) -> (res: Self)
        ensures
            copies(res, *self),
            same_profile(res, *self),
        decreases self,
    {
        let overrides = match &self.overrides {
            None => None,
            Some(o) => {
                proof {
                    use_type_invariant(o);
                }
                let mut entries: Vec<(ProfilePackageSpec, Profile)> = Vec::new();
                let mut i: usize = 0;
                while i < o.entries.len()
                    invariant
                        self.overrides == Some(*o),
                        i <= o.entries.len(),
                        entries@.len() == i,
                        override_keys(entries@) == override_keys(o.entries@).subrange(0, i as int),
                        forall|j: int|
                            0 <= j < i ==> same_settings(
                                #[trigger] entries@[j].1,
                                o.entries@[j].1,
                            ),
                        forall|j: int|
                            0 <= j < i ==> same_profile(
                                #[trigger] entries@[j].1,
                                o.entries@[j].1,
                            ),
                    decreases o.entries.len() - i,
                {
                    let key = match &o.entries[i].0 {
                        ProfilePackageSpec::Spec(s) => ProfilePackageSpec::Spec(s.clone()),
                        ProfilePackageSpec::All => ProfilePackageSpec::All,
                    };
                    assert(decreases_to!(*self => o.entries@[i as int].1)) by {
                        assert(decreases_to!(*self => self.overrides));
                        assert(decreases_to!(self.overrides => self.overrides->0));
                        assert(self.overrides->0 == *o);
                        assert(decreases_to!(*o => o.entries));
                        assert(decreases_to!(o.entries => o.entries@));
                        assert(decreases_to!(o.entries@ => o.entries@[i as int]));
                        assert(decreases_to!(o.entries@[i as int] => o.entries@[i as int].1));
                    }
                    let profile = o.entries[i].1.clone();
                    let ghost prev = entries@;
                    entries.push((key, profile));
                    proof {
                        lemma_override_keys_push(prev, (key, profile));
                        assert(override_keys(o.entries@).subrange(0, i + 1) =~= override_keys(
                            o.entries@,
                        ).subrange(0, i as int).push(package_spec_key(key)));
                    }
                    i = i + 1;
                }
                assert(override_keys(o.entries@).subrange(0, i as int) =~= override_keys(
                    o.entries@,
                ));
                Some(ProfileOverrides { entries })
            },
        };
        let build_override = match &self.build_override {
            None => None,
            Some(b) => Some(Box::new((&**b).clone())),
        };
        Profile {
            opt_level: self.opt_level.clone(),
            lto: self.lto.clone(),
            codegen_units: self.codegen_units,
            debug: self.debug.clone(),
            debug_assertions: self.debug_assertions,
            rpath: self.rpath,
            panic: self.panic.clone(),
            overflow_checks: self.overflow_checks,
            incremental: self.incremental,
            overrides,
            build_override,
        }
    }
}

/// Whether two optional profiles are both absent, or copies.
pub open spec fn same_optional_profile(a: Option<Profile>, b: Option<Profile>) -> bool {
    match (a, b) {
        (Some(x), Some(y)) => same_profile(x, y),
        (None, None) => true,
        _ => false,
    }
}

/// A copy of an optional profile.
fn clone_optional_profile(p: &Option<Profile>) -> (res: Option<Profile>)
    ensures
        same_optional_profile(res, *p),
{
    match p {
        Some(x) => Some(x.clone()),
        None => None,
    }
}

/// Whether two `[profile]` tables hold copies of the same profiles.
pub open spec fn same_profiles(a: Profiles, b: Profiles) -> bool {
    &&& same_optional_profile(a.test, b.test)
    &&& same_optional_profile(a.doc, b.doc)
    &&& same_optional_profile(a.bench, b.bench)
    &&& same_optional_profile(a.dev, b.dev)
    &&& same_optional_profile(a.release, b.release)
}

impl Clone for Profiles {
    /// A copy of every profile.
    fn clone(&self) -> (res: Self)
        ensures
            same_profiles(res, *self),
    {
        Profiles {
            test: clone_optional_profile(&self.test),
            doc: clone_optional_profile(&self.doc),
            bench: clone_optional_profile(&self.bench),
            dev: clone_optional_profile(&self.dev),
            release: clone_optional_profile(&self.release),
        }
    }
}

/// The `[profile]` table: one profile per build kind.
#[derive(Debug, Default, PartialEq)]
pub struct Profiles {
    pub test: Option<Profile>,
    pub doc: Option<Profile>,
    pub bench: Option<Profile>,
    pub dev: Option<Profile>,
    pub release: Option<Profile>,
}

} // verus!
