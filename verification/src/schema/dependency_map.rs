//! The dependency tables of a manifest: names mapped to dependency
//! specifications, each name at most once, the names kept in ascending
//! order.
use vstd::prelude::*;

use crate::schema::values::{same_dependency, Dependency};
use vstd::std_specs::cmp::PartialEqSpec;
use crate::text::{compare_text, lemma_text_lt_irreflexive, lemma_text_lt_total, lemma_text_lt_transitive, str_eq, text_lt, TextOrder};

verus! {

/// Dependency names mapped to how each dependency is given.
#[derive(Debug)]
pub struct DependencyMap {
    entries: Vec<(String, Dependency)>,
}

impl Clone for DependencyMap {
    /// A copy with the same names in the same order, each dependency given
    /// alike.
    fn clone(&self) -> (res: Self)
        ensures
            res.names() == self.names(),
            same_table(res, *self),
    {
        proof {
            use_type_invariant(self);
        }
        let mut entries: Vec<(String, Dependency)> = Vec::new();
        let mut i: usize = 0;
        while i < self.entries.len()
            invariant
                i <= self.entries.len(),
                entries@.len() == i,
                entry_names(entries@) == entry_names(self.entries@).subrange(0, i as int),
                forall|j: int|
                    0 <= j < i ==> same_dependency(#[trigger] entries@[j].1, self.entries@[j].1),
            decreases self.entries.len() - i,
        {
            let k = self.entries[i].0.clone();
            let d = self.entries[i].1.clone();
            let ghost prev = entries@;
            entries.push((k, d));
            proof {
                lemma_entry_names_push(prev, (k, d));
                assert(entry_names(self.entries@).subrange(0, i + 1) =~= entry_names(
                    self.entries@,
                ).subrange(0, i as int).push(k@));
            }
            i = i + 1;
            assert(entry_names(entries@) =~= entry_names(self.entries@).subrange(0, i as int));
        }
        assert(entry_names(self.entries@).subrange(0, i as int) =~= entry_names(self.entries@));
        let res = DependencyMap { entries };
        proof {
            assert forall|k: Seq<char>| #[trigger] res.as_map().contains_key(k) implies same_dependency(
                res.as_map()[k],
                self.as_map()[k],
            ) by {
                let j = res.names().index_of(k);
                assert(res.names().contains(k));
                assert(res.names()[j] == k);
            }
        }
        res
    }
}

/// Whether two tables name the same dependencies in the same order, each
/// given alike.
pub open spec fn same_table(a: DependencyMap, b: DependencyMap) -> bool {
    &&& a.names() == b.names()
    &&& forall|k: Seq<char>| #[trigger]
        a.as_map().contains_key(k) ==> same_dependency(a.as_map()[k], b.as_map()[k])
}

impl PartialEq for DependencyMap {
    /// Two tables are equal when they name the same dependencies.
    fn eq(&self, other: &Self) -> (res: bool) {
        self.same_names(other)
    }
}

impl vstd::std_specs::cmp::PartialEqSpecImpl for DependencyMap {
    open spec fn obeys_eq_spec() -> bool {
        true
    }

    open spec fn eq_spec(&self, other: &DependencyMap) -> bool {
        self.key_set() == other.key_set()
    }
}

/// Each name comes before every later one, in the order of `text_lt`.
pub open spec fn ascending(names: Seq<Seq<char>>) -> bool {
    forall|i: int, j: int|
        0 <= i < j < names.len() ==> text_lt(#[trigger] names[i], #[trigger] names[j])
}

/// The names of a list of entries, in order.
pub open spec fn entry_names(entries: Seq<(String, Dependency)>) -> Seq<Seq<char>> {
    entries.map_values(|e: (String, Dependency)| e.0@)
}

impl DependencyMap {
    /// The names are kept in ascending order, so none occurs twice.
    #[verifier::type_invariant]
    closed spec fn names_ascending(&self) -> bool {
        ascending(entry_names(self.entries@))
    }

    /// The names, in ascending order.
    pub closed spec fn names(&self) -> Seq<Seq<char>> {
        entry_names(self.entries@)
    }

    /// The map from each name to its dependency.
    pub closed spec fn as_map(&self) -> Map<Seq<char>, Dependency> {
        Map::new(
            |k: Seq<char>| self.names().contains(k),
            |k: Seq<char>| self.entries@[self.names().index_of(k)].1,
        )
    }

    /// The set of names.
    pub open spec fn key_set(&self) -> Set<Seq<char>> {
        self.names().to_set()
    }

    /// An empty map.
    pub fn new() -> (res: DependencyMap)
        ensures
            res.names() == Seq::<Seq<char>>::empty(),
            res.as_map() == Map::<Seq<char>, Dependency>::empty(),
    {
        let res = DependencyMap { entries: Vec::new() };
        assert(res.as_map() =~= Map::<Seq<char>, Dependency>::empty());
        res
    }

    /// The number of names.
    pub fn len(&self) -> (res: usize)
        ensures
            res == self.names().len(),
    {
        self.entries.len()
    }

    /// The position of `name`, if present.
    fn position(&self, name: &str) -> (res: Option<usize>)
        ensures
            match res {
                Some(i) => i < self.names().len() && self.names()[i as int] == name@,
                None => !self.names().contains(name@),
            },
    {
        let mut i: usize = 0;
        while i < self.entries.len()
            invariant
                i <= self.entries.len(),
                forall|j: int| 0 <= j < i ==> self.names()[j] != name@,
            decreases self.entries.len() - i,
        {
            if str_eq(self.entries[i].0.as_str(), name) {
                return Some(i);
            }
            i = i + 1;
        }
        None
    }

    /// Whether `name` is present.
    pub fn contains_key(&self, name: &str) -> (res: bool)
        ensures
            res == self.as_map().contains_key(name@),
            res == self.key_set().contains(name@),
    {
        self.position(name).is_some()
    }

    /// The dependency of `name`, if present.
    pub fn get(&self, name: &str) -> (res: Option<&Dependency>)
        ensures
            match res {
                Some(d) => self.as_map().contains_key(name@) && self.as_map()[name@] == *d,
                None => !self.as_map().contains_key(name@),
            },
    {
        proof {
            use_type_invariant(self);
            lemma_ascending_unique(self.names());
        }
        match self.position(name) {
            Some(i) => {
                proof {
                    lemma_index_of(self.names(), i as int);
                }
                Some(&self.entries[i].1)
            },
            None => None,
        }
    }

    /// The names, in ascending order.
    pub fn keys(&self) -> (res: Vec<String>)
        ensures
            res.deep_view() == self.names(),
            ascending(res.deep_view()),
    {
        proof {
            use_type_invariant(self);
        }
        let mut out: Vec<String> = Vec::new();
        let mut i: usize = 0;
        while i < self.entries.len()
            invariant
                i <= self.entries.len(),
                out.deep_view() == self.names().subrange(0, i as int),
            decreases self.entries.len() - i,
        {
            let k = self.entries[i].0.clone();
            assert(k@ == self.names()[i as int]);
            let ghost prev = out@;
            out.push(k);
            assert(out@ == prev.push(k));
            assert(out.deep_view() =~= prev.map_values(|s: String| s@).push(k@));
            assert(self.names().subrange(0, i + 1) =~= self.names().subrange(0, i as int).push(
                k@,
            ));
            i = i + 1;
            assert(out.deep_view() =~= self.names().subrange(0, i as int));
        }
        assert(self.names().subrange(0, i as int) =~= self.names());
        out
    }

    /// The first position whose name is not before `name`.
    fn first_not_before(&self, name: &str) -> (res: usize)
        ensures
            res <= self.names().len(),
            forall|j: int| 0 <= j < res ==> text_lt(#[trigger] self.names()[j], name@),
            res < self.names().len() ==> !text_lt(self.names()[res as int], name@),
    {
        let mut i: usize = 0;
        while i < self.entries.len()
            invariant
                i <= self.entries.len(),
                forall|j: int| 0 <= j < i ==> text_lt(#[trigger] self.names()[j], name@),
            decreases self.entries.len() - i,
        {
            match compare_text(self.entries[i].0.as_str(), name) {
                TextOrder::Before => {},
                _ => {
                    return i;
                },
            }
            i = i + 1;
        }
        i
    }

    /// Maps `name` to `dependency`; returns the dependency that `name` had.
    /// The names stay in ascending order.
    pub fn insert(&mut self, name: String, dependency: Dependency) -> (res: Option<Dependency>)
        ensures
            final(self).as_map() == old(self).as_map().insert(name@, dependency),
            res is Some <==> old(self).as_map().contains_key(name@),
            res matches Some(d) ==> d == old(self).as_map()[name@],
            final(self).key_set() == old(self).key_set().insert(name@),
            ascending(final(self).names()),
    {
        proof {
            use_type_invariant(&*self);
            lemma_ascending_unique(self.names());
        }
        let ghost old_names = self.names();
        let ghost old_map = self.as_map();
        let ghost n = name@;
        let p = self.first_not_before(name.as_str());
        let present = p < self.entries.len() && str_eq(self.entries[p].0.as_str(), name.as_str());
        if present {
            proof {
                lemma_index_of(old_names, p as int);
            }
            let mut entries: Vec<(String, Dependency)> = Vec::new();
            std::mem::swap(&mut entries, &mut self.entries);
            let ghost before = entries@;
            let old_entry = entries.remove(p);
            entries.insert(p, (name, dependency));
            assert(entries@ =~= before.update(p as int, (entries@[p as int].0, dependency)));
            assert(entry_names(entries@) =~= entry_names(before));
            std::mem::swap(&mut entries, &mut self.entries);
            proof {
                assert(self.names() == old_names);
                assert forall|k: Seq<char>| #![auto] self.names().contains(k) implies
                    self.as_map()[k] == old_map.insert(n, dependency)[k] by {
                    let j = self.names().index_of(k);
                    assert(self.names()[j] == k);
                    lemma_index_of(self.names(), j);
                    if k != n {
                        assert(j != p);
                    }
                }
                assert(self.as_map() =~= old_map.insert(n, dependency));
                assert(self.key_set() =~= old_names.to_set().insert(n));
            }
            Some(old_entry.1)
        } else {
            proof {
                lemma_insertion_point(old_names, n, p as int);
            }
            let mut entries: Vec<(String, Dependency)> = Vec::new();
            std::mem::swap(&mut entries, &mut self.entries);
            let ghost before = entries@;
            entries.insert(p, (name, dependency));
            proof {
                assert(entry_names(entries@) =~= old_names.insert(p as int, n));
            }
            std::mem::swap(&mut entries, &mut self.entries);
            proof {
                let names = self.names();
                assert(names =~= old_names.insert(p as int, n));
                lemma_ascending_unique(names);
                assert(names[p as int] == n);
                assert forall|k: Seq<char>| #![auto] names.contains(k) <==> (old_names.contains(k)
                    || k == n) by {
                    if names.contains(k) && k != n {
                        let j = names.index_of(k);
                        assert(names[j] == k);
                        if j < p {
                            assert(old_names[j] == k);
                        } else {
                            assert(j > p);
                            assert(old_names[j - 1] == k);
                        }
                    }
                    if old_names.contains(k) {
                        let j = old_names.index_of(k);
                        assert(old_names[j] == k);
                        if j < p {
                            assert(names[j] == k);
                        } else {
                            assert(names[j + 1] == k);
                        }
                    }
                }
                assert forall|k: Seq<char>| #![auto] names.contains(k) implies self.as_map()[k]
                    == old_map.insert(n, dependency)[k] by {
                    let j = names.index_of(k);
                    assert(names[j] == k);
                    lemma_index_of(names, j);
                    if k == n {
                        lemma_index_of(names, p as int);
                    } else {
                        let oj = if j < p {
                            j
                        } else {
                            j - 1
                        };
                        assert(old_names[oj] == k);
                        lemma_index_of(old_names, oj);
                        assert(self.entries@[j] == before[oj]);
                    }
                }
                assert(self.as_map() =~= old_map.insert(n, dependency));
                assert(self.key_set() =~= old_names.to_set().insert(n));
            }
            None
        }
    }

    /// Whether the two maps name the same dependencies: the same number of
    /// names, and every name of `other` present in `self`. The dependency
    /// specifications themselves are not compared.
    pub fn same_names(&self, other: &DependencyMap) -> (res: bool)
        ensures
            res == (self.key_set() == other.key_set()),
    {
        proof {
            use_type_invariant(self);
            use_type_invariant(other);
            lemma_ascending_unique(self.names());
            lemma_ascending_unique(other.names());
        }
        let len = self.entries.len();
        if other.entries.len() != len {
            proof {
                self.names().unique_seq_to_set();
                other.names().unique_seq_to_set();
            }
            return false;
        }
        if len == 0 {
            assert(self.key_set() =~= other.key_set());
            return true;
        }
        let mut i: usize = 0;
        while i < other.entries.len()
            invariant
                i <= other.entries.len(),
                other.entries.len() == len,
                self.entries.len() == len,
                forall|j: int| 0 <= j < i ==> self.names().contains(#[trigger] other.names()[j]),
            decreases other.entries.len() - i,
        {
            if !self.contains_key(other.entries[i].0.as_str()) {
                assert(other.key_set().contains(other.names()[i as int]));
                return false;
            }
            i = i + 1;
        }
        proof {
            lemma_same_names(self.names(), other.names());
        }
        true
    }
}

proof fn lemma_entry_names_push(s: Seq<(String, Dependency)>, e: (String, Dependency))
    ensures
        entry_names(s.push(e)) == entry_names(s).push(e.0@),
{
    assert(entry_names(s.push(e)) =~= entry_names(s).push(e.0@));
}

/// Law: equality of dependency tables is an equivalence relation: it is
/// reflexive, symmetric and transitive.
pub proof fn law_equality_is_equivalence(a: DependencyMap, b: DependencyMap, c: DependencyMap)
    ensures
        a.eq_spec(&a),
        a.eq_spec(&b) == b.eq_spec(&a),
        a.eq_spec(&b) && b.eq_spec(&c) ==> a.eq_spec(&c),
        vstd::laws_eq::obeys_eq::<DependencyMap>(),
{
    reveal(vstd::laws_eq::obeys_eq_spec_properties);
}

/// Law: two tables that name the same dependencies are equal, whatever the
/// dependencies are given as.
pub proof fn law_equality_ignores_specifications(a: DependencyMap, b: DependencyMap)
    requires
        a.as_map().dom() == b.as_map().dom(),
    ensures
        a.eq_spec(&b),
{
    assert(a.key_set() =~= b.key_set()) by {
        assert forall|k: Seq<char>| a.key_set().contains(k) <==> b.key_set().contains(k) by {
            assert(a.as_map().dom().contains(k) == a.names().contains(k));
            assert(b.as_map().dom().contains(k) == b.names().contains(k));
        }
    }
}

/// Law: after `insert(name, d)` the table gives `d` for `name`, gives what
/// it gave before for every other name, and names exactly what it named
/// before and `name`.
pub proof fn law_insert_then_get(
    before: DependencyMap,
    after: DependencyMap,
    name: Seq<char>,
    d: Dependency,
    other: Seq<char>,
)
    requires
        after.as_map() == before.as_map().insert(name, d),
        other != name,
    ensures
        after.as_map().contains_key(name),
        after.as_map()[name] == d,
        after.as_map().contains_key(other) == before.as_map().contains_key(other),
        before.as_map().contains_key(other) ==> after.as_map()[other] == before.as_map()[other],
        after.key_set() == before.key_set().insert(name),
{
    assert forall|k: Seq<char>| after.key_set().contains(k) <==> before.key_set().insert(
        name,
    ).contains(k) by {
        assert(after.as_map().dom().contains(k) == after.names().contains(k));
        assert(before.as_map().dom().contains(k) == before.names().contains(k));
    }
    assert(after.key_set() =~= before.key_set().insert(name));
}

/// Law: the order in which a table gives its names depends only on which
/// names it holds, not on the order in which they were inserted: two valid
/// tables with the same names list them alike.
pub proof fn law_names_order_follows_contents(a: DependencyMap, b: DependencyMap)
    requires
        ascending(a.names()),
        ascending(b.names()),
        a.key_set() == b.key_set(),
    ensures
        a.names() == b.names(),
{
    lemma_ascending_determined(a.names(), b.names());
}

/// Two ascending lists with the same elements are the same list.
proof fn lemma_ascending_determined(x: Seq<Seq<char>>, y: Seq<Seq<char>>)
    requires
        ascending(x),
        ascending(y),
        x.to_set() == y.to_set(),
    ensures
        x == y,
    decreases x.len(),
{
    lemma_ascending_unique(x);
    lemma_ascending_unique(y);
    x.unique_seq_to_set();
    y.unique_seq_to_set();
    if x.len() == 0 {
        assert(y.len() == 0);
        assert(x =~= y);
    } else {
        assert(y.len() == x.len());
        assert(x[0] == y[0]) by {
            assert(x.to_set().contains(x[0]));
            assert(y.contains(x[0]));
            let k = y.index_of(x[0]);
            assert(y[k] == x[0]);
            assert(y.to_set().contains(y[0]));
            assert(x.contains(y[0]));
            let m = x.index_of(y[0]);
            assert(x[m] == y[0]);
            if k > 0 {
                assert(text_lt(y[0], x[0]));
                if m > 0 {
                    assert(text_lt(x[0], y[0]));
                    lemma_text_lt_total(x[0], y[0]);
                } else {
                    lemma_text_lt_irreflexive(x[0]);
                }
            }
        }
        let xr = x.drop_first();
        let yr = y.drop_first();
        assert(ascending(xr)) by {
            assert forall|i: int, j: int| 0 <= i < j < xr.len() implies text_lt(
                #[trigger] xr[i],
                #[trigger] xr[j],
            ) by {
                assert(xr[i] == x[i + 1] && xr[j] == x[j + 1]);
            }
        }
        assert(ascending(yr)) by {
            assert forall|i: int, j: int| 0 <= i < j < yr.len() implies text_lt(
                #[trigger] yr[i],
                #[trigger] yr[j],
            ) by {
                assert(yr[i] == y[i + 1] && yr[j] == y[j + 1]);
            }
        }
        assert(xr.to_set() =~= yr.to_set()) by {
            assert forall|e: Seq<char>| xr.to_set().contains(e) <==> yr.to_set().contains(e) by {
                if xr.contains(e) {
                    let i = xr.index_of(e);
                    assert(x[i + 1] == e);
                    assert(x.to_set().contains(e));
                    assert(y.contains(e));
                    let j = y.index_of(e);
                    assert(y[j] == e);
                    if j == 0 {
                        assert(x[0] == x[i + 1]);
                    }
                    assert(yr[j - 1] == e);
                }
                if yr.contains(e) {
                    let i = yr.index_of(e);
                    assert(y[i + 1] == e);
                    assert(y.to_set().contains(e));
                    assert(x.contains(e));
                    let j = x.index_of(e);
                    assert(x[j] == e);
                    if j == 0 {
                        assert(y[0] == y[i + 1]);
                    }
                    assert(xr[j - 1] == e);
                }
            }
        }
        lemma_ascending_determined(xr, yr);
        assert(x =~= y) by {
            assert forall|i: int| 0 <= i < x.len() implies x[i] == y[i] by {
                if i > 0 {
                    assert(x[i] == xr[i - 1] && y[i] == yr[i - 1]);
                }
            }
        }
    }
}

/// Names in ascending order hold no name twice.
proof fn lemma_ascending_unique(names: Seq<Seq<char>>)
    requires
        ascending(names),
    ensures
        names.no_duplicates(),
{
    assert forall|i: int, j: int| 0 <= i < names.len() && 0 <= j < names.len() && i != j implies
        names[i] != names[j] by {
        if i < j {
            lemma_text_lt_irreflexive(names[i]);
        } else {
            lemma_text_lt_irreflexive(names[j]);
        }
    }
}

/// Where every name before `p` is before `name`, and the name at `p` (if
/// any) is neither before `name` nor `name`, `name` is absent and inserting
/// it at `p` keeps the names ascending.
proof fn lemma_insertion_point(names: Seq<Seq<char>>, name: Seq<char>, p: int)
    requires
        ascending(names),
        0 <= p <= names.len(),
        forall|j: int| 0 <= j < p ==> text_lt(#[trigger] names[j], name),
        p < names.len() ==> !text_lt(names[p], name) && names[p] != name,
    ensures
        !names.contains(name),
        ascending(names.insert(p, name)),
{
    assert forall|j: int| p <= j < names.len() implies text_lt(name, #[trigger] names[j]) by {
        lemma_text_lt_total(names[p], name);
        if j > p {
            lemma_text_lt_transitive(name, names[p], names[j]);
        }
    }
    if names.contains(name) {
        let j = names.index_of(name);
        assert(names[j] == name);
        lemma_text_lt_irreflexive(name);
        if j < p {
            assert(text_lt(names[j], name));
        } else {
            assert(text_lt(name, names[j]));
        }
    }
    let s = names.insert(p, name);
    assert forall|i: int, j: int| 0 <= i < j < s.len() implies text_lt(#[trigger] s[i], #[trigger] s[j]) by {
        if j < p {
            assert(s[i] == names[i] && s[j] == names[j]);
        } else if j == p {
            assert(s[i] == names[i] && s[j] == name);
        } else if i < p {
            assert(s[i] == names[i] && s[j] == names[j - 1]);
        } else if i == p {
            assert(s[i] == name && s[j] == names[j - 1]);
        } else {
            assert(s[i] == names[i - 1] && s[j] == names[j - 1]);
        }
    }
}

/// In a duplicate-free list, the first position of the item at `i` is `i`.
proof fn lemma_index_of(names: Seq<Seq<char>>, i: int)
    requires
        names.no_duplicates(),
        0 <= i < names.len(),
    ensures
        names.index_of(names[i]) == i,
{
    let k = names.index_of(names[i]);
    assert(names.contains(names[i]));
    assert(names[k] == names[i]);
}

/// Two duplicate-free name lists of the same length, where every name of the
/// second is in the first, hold the same set of names.
proof fn lemma_same_names(a: Seq<Seq<char>>, b: Seq<Seq<char>>)
    requires
        a.no_duplicates(),
        b.no_duplicates(),
        a.len() == b.len(),
        forall|j: int| 0 <= j < b.len() ==> a.contains(#[trigger] b[j]),
    ensures
        a.to_set() == b.to_set(),
{
    a.unique_seq_to_set();
    b.unique_seq_to_set();
    assert(b.to_set().subset_of(a.to_set())) by {
        assert forall|x: Seq<char>| b.to_set().contains(x) implies a.to_set().contains(x) by {
            let j = b.index_of(x);
            assert(b.contains(x));
            assert(b[j] == x);
        }
    }
    vstd::set_lib::lemma_subset_equality(b.to_set(), a.to_set());
}

} // verus!
