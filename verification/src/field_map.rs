//! Maps from field names to values, with each name held once and the names
//! in ascending order.

use crate::json::{JsonValue, JsonView};
use crate::order::{
    lemma_name_less_irreflexive, lemma_name_less_total, lemma_name_less_transitive, name_before,
    name_less,
};
use vstd::prelude::*;

verus! {

/// What a `FieldMap` can hold: values with a mathematical model, an equality
/// over the models and a way to copy.
pub trait FieldValue: Sized {
    /// What a value stands for.
    type Model;

    spec fn model(&self) -> Self::Model;

    /// When two values count as the same.
    spec fn equal(a: Self::Model, b: Self::Model) -> bool;

    fn value_same(&self, other: &Self) -> (r: bool)
        ensures
            r == Self::equal(self.model(), other.model()),
    ;

    fn value_copy(&self) -> (r: Self)
        ensures
            r.model() == self.model(),
    ;
}

impl FieldValue for u32 {
    type Model = u32;

    open spec fn model(&self) -> u32 {
        *self
    }

    open spec fn equal(a: u32, b: u32) -> bool {
        a == b
    }

    fn value_same(&self, other: &u32) -> (r: bool) {
        *self == *other
    }

    fn value_copy(&self) -> (r: u32) {
        *self
    }
}

impl FieldValue for JsonValue {
    type Model = JsonView;

    open spec fn model(&self) -> JsonView {
        self@
    }

    open spec fn equal(a: JsonView, b: JsonView) -> bool {
        a.equivalent(b)
    }

    fn value_same(&self, other: &JsonValue) -> (r: bool) {
        self.same(other)
    }

    fn value_copy(&self) -> (r: JsonValue) {
        self.duplicate()
    }
}

/// Entries as mathematical values: names and models, in their order.
pub type Entries<M> = Seq<(Seq<char>, M)>;

/// No name occurs twice.
pub open spec fn distinct_names<M>(entries: Entries<M>) -> bool {
    forall|i: int, j: int|
        0 <= i < j < entries.len() ==> (#[trigger] entries[i]).0 != (#[trigger] entries[j]).0
}

/// Whether some entry has the name `name`.
pub open spec fn has_name<M>(entries: Entries<M>, name: Seq<char>) -> bool {
    exists|i: int| 0 <= i < entries.len() && (#[trigger] entries[i]).0 == name
}

/// The place of the entry named `name`, if `has_name` holds.
pub open spec fn place_of<M>(entries: Entries<M>, name: Seq<char>) -> int {
    choose|i: int| 0 <= i < entries.len() && (#[trigger] entries[i]).0 == name
}

/// The entries after `name` was set to `value`: an entry of that name keeps
/// its place and takes the value, a new name goes to the end.
pub open spec fn with_entry<M>(entries: Entries<M>, name: Seq<char>, value: M) -> Entries<M> {
    if has_name(entries, name) {
        entries.update(place_of(entries, name), (name, value))
    } else {
        entries.push((name, value))
    }
}

/// The names go up from entry to entry.
pub open spec fn ascending<M>(entries: Entries<M>) -> bool {
    forall|i: int, j: int|
        0 <= i < j < entries.len() ==> name_less(
            (#[trigger] entries[i]).0,
            (#[trigger] entries[j]).0,
        )
}

/// The number of entries whose name comes before `name`.
pub open spec fn names_before<M>(entries: Entries<M>, name: Seq<char>) -> int
    decreases entries.len(),
{
    if entries.len() == 0 {
        0
    } else {
        names_before(entries.drop_last(), name) + if name_less(entries.last().0, name) {
            1int
        } else {
            0int
        }
    }
}

/// The entries of an ordered map after `name` was set to `value`: an entry
/// of that name takes the value, a new name goes behind the names that
/// come before it.
pub open spec fn placed<M>(entries: Entries<M>, name: Seq<char>, value: M) -> Entries<M> {
    if has_name(entries, name) {
        entries.update(place_of(entries, name), (name, value))
    } else {
        entries.insert(names_before(entries, name), (name, value))
    }
}

/// Names that go up are distinct.
pub proof fn lemma_ascending_distinct<M>(entries: Entries<M>)
    requires
        ascending(entries),
    ensures
        distinct_names(entries),
{
    assert forall|i: int, j: int| 0 <= i < j < entries.len() implies (#[trigger] entries[i]).0 != (
    #[trigger] entries[j]).0 by {
        lemma_name_less_irreflexive(entries[i].0);
    }
}

/// In entries whose names go up, the names that come before `name` are the
/// first ones.
pub proof fn lemma_names_before<M>(entries: Entries<M>, name: Seq<char>)
    requires
        ascending(entries),
    ensures
        0 <= names_before(entries, name) <= entries.len(),
        forall|k: int|
            0 <= k < entries.len() ==> (k < names_before(entries, name) <==> name_less(
                (#[trigger] entries[k]).0,
                name,
            )),
    decreases entries.len(),
{
    if entries.len() > 0 {
        let rest = entries.drop_last();
        let last = entries.len() - 1;
        assert forall|i: int, j: int| 0 <= i < j < rest.len() implies name_less(
            (#[trigger] rest[i]).0,
            (#[trigger] rest[j]).0,
        ) by {
            assert(rest[i] == entries[i]);
            assert(rest[j] == entries[j]);
        }
        lemma_names_before(rest, name);
        let before_rest = names_before(rest, name);
        if name_less(entries[last].0, name) {
            assert forall|k: int| 0 <= k < last implies name_less(
                (#[trigger] entries[k]).0,
                name,
            ) by {
                assert(name_less(entries[k].0, entries[last].0));
                lemma_name_less_transitive(entries[k].0, entries[last].0, name);
            }
            if last > 0 {
                assert(rest[last - 1] == entries[last - 1]);
                assert(name_less(rest[last - 1].0, name));
                assert(last - 1 < before_rest);
            }
            assert(before_rest == last);
            assert(names_before(entries, name) == entries.len());
        } else {
            assert(names_before(entries, name) == before_rest);
            assert forall|k: int| 0 <= k < entries.len() implies (k < names_before(entries, name)
                <==> name_less((#[trigger] entries[k]).0, name)) by {
                if k < last {
                    assert(rest[k] == entries[k]);
                }
            }
        }
    }
}

/// Setting an entry of an ordered map keeps the names going up.
pub proof fn lemma_placed_ascending<M>(entries: Entries<M>, name: Seq<char>, value: M)
    requires
        ascending(entries),
    ensures
        ascending(placed(entries, name, value)),
{
    let after = placed(entries, name, value);
    if has_name(entries, name) {
        assert forall|i: int, j: int| 0 <= i < j < after.len() implies name_less(
            (#[trigger] after[i]).0,
            (#[trigger] after[j]).0,
        ) by {
            assert(after[i].0 == entries[i].0);
            assert(after[j].0 == entries[j].0);
        }
    } else {
        let p = names_before(entries, name);
        lemma_names_before(entries, name);
        assert forall|i: int, j: int| 0 <= i < j < after.len() implies name_less(
            (#[trigger] after[i]).0,
            (#[trigger] after[j]).0,
        ) by {
            if j < p {
                assert(after[i] == entries[i] && after[j] == entries[j]);
            } else if j == p {
                assert(after[i] == entries[i]);
                assert(name_less(entries[i].0, name));
            } else if i < p {
                assert(after[i] == entries[i] && after[j] == entries[j - 1]);
                if i < j - 1 {
                } else {
                }
                assert(name_less(entries[i].0, name));
                assert(!name_less(entries[j - 1].0, name));
                lemma_name_less_total(entries[j - 1].0, name);
                lemma_name_less_transitive(entries[i].0, name, entries[j - 1].0);
            } else if i == p {
                assert(after[j] == entries[j - 1]);
                assert(!name_less(entries[j - 1].0, name));
                lemma_name_less_total(entries[j - 1].0, name);
            } else {
                assert(after[i] == entries[i - 1] && after[j] == entries[j - 1]);
            }
        }
    }
}

/// A name that comes behind every name of an ordered map goes to its end.
pub proof fn lemma_placed_last<M>(entries: Entries<M>, name: Seq<char>, value: M)
    requires
        ascending(entries),
        forall|k: int| 0 <= k < entries.len() ==> name_less((#[trigger] entries[k]).0, name),
    ensures
        placed(entries, name, value) == entries.push((name, value)),
{
    lemma_names_before(entries, name);
    lemma_name_less_irreflexive(name);
    if entries.len() > 0 {
        assert(name_less(entries[entries.len() - 1].0, name));
    }
    assert(entries.insert(entries.len() as int, (name, value)) =~= entries.push((name, value)));
}

/// The names of the entries.
pub open spec fn names_of<M>(entries: Entries<M>) -> Seq<Seq<char>> {
    Seq::new(entries.len(), |i: int| entries[i].0)
}

/// Entries with distinct names have a list of names without repetitions.
pub proof fn lemma_names_distinct<M>(entries: Entries<M>)
    ensures
        distinct_names(entries) <==> names_of(entries).no_duplicates(),
{
    let names = names_of(entries);
    if distinct_names(entries) {
        assert forall|i: int, j: int|
            0 <= i < names.len() && 0 <= j < names.len() && i != j implies names[i]
            != names[j] by {
            if i < j {
                assert(entries[i].0 != entries[j].0);
            } else {
                assert(entries[j].0 != entries[i].0);
            }
        }
    }
    if names.no_duplicates() {
        assert forall|i: int, j: int| 0 <= i < j < entries.len() implies (#[trigger] entries[i]).0
            != (#[trigger] entries[j]).0 by {
            assert(names[i] != names[j]);
        }
    }
}

/// A map from field names to values, ordered by name: no name occurs twice
/// and the entries stand in ascending order of their names, as the
/// standard library orders strings.
#[derive(Debug)]
pub struct FieldMap<T: FieldValue> {
    entries: Vec<(String, T)>,
}

impl<T: FieldValue> View for FieldMap<T> {
    type V = Entries<T::Model>;

    closed spec fn view(&self) -> Entries<T::Model> {
        FieldMap::<T>::listed(self.entries@)
    }
}

impl<T: FieldValue> FieldMap<T> {
    #[verifier::type_invariant]
    pub closed spec fn wf(self) -> bool {
        ascending(self@)
    }

    /// Two maps are the same when they have the same number of entries and
    /// each entry of the first has its name and an equal value in the
    /// second.
    pub open spec fn equivalent(a: Entries<T::Model>, b: Entries<T::Model>) -> bool {
        &&& a.len() == b.len()
        &&& forall|i: int| 0 <= i < a.len() ==> Self::has_entry(b, #[trigger] a[i])
    }

    /// Whether `entries` holds one named as `entry` with an equal value.
    pub open spec fn has_entry(entries: Entries<T::Model>, entry: (Seq<char>, T::Model)) -> bool {
        exists|j: int|
            0 <= j < entries.len() && (#[trigger] entries[j]).0 == entry.0 && T::equal(
                entry.1,
                entries[j].1,
            )
    }

    /// The equivalence of a map with distinct names with another goes both
    /// ways, where the equality of each of its values does.
    pub proof fn lemma_equivalent_symmetric(a: Entries<T::Model>, b: Entries<T::Model>)
        requires
            distinct_names(a),
            Self::equivalent(a, b),
            forall|i: int, y: T::Model|
                0 <= i < a.len() && #[trigger] T::equal(a[i].1, y) ==> T::equal(y, a[i].1),
        ensures
            Self::equivalent(b, a),
            distinct_names(b),
    {
        let names_a = names_of(a);
        let names_b = names_of(b);
        lemma_names_distinct(a);
        assert forall|i: int| 0 <= i < names_a.len() implies names_b.contains(
            #[trigger] names_a[i],
        ) by {
            assert(Self::has_entry(b, a[i]));
            let j = choose|j: int|
                0 <= j < b.len() && (#[trigger] b[j]).0 == a[i].0 && T::equal(a[i].1, b[j].1);
            assert(names_b[j] == names_a[i]);
        }
        crate::sequences::lemma_contained_both_ways(names_a, names_b);
        lemma_names_distinct(b);
        assert forall|j: int| 0 <= j < b.len() implies Self::has_entry(a, #[trigger] b[j]) by {
            assert(names_a.contains(names_b[j]));
            let i = choose|i: int| 0 <= i < names_a.len() && names_a[i] == names_b[j];
            assert(Self::has_entry(b, a[i]));
            let k = choose|k: int|
                0 <= k < b.len() && (#[trigger] b[k]).0 == a[i].0 && T::equal(a[i].1, b[k].1);
            assert(names_b[k] == names_b[j]);
            assert(k == j);
            assert(T::equal(b[j].1, a[i].1));
            assert(a[i].0 == b[j].0);
        }
    }

    /// The names of a well-formed map go up, and so are distinct.
    pub proof fn lemma_ascending(self)
        requires
            self.wf(),
        ensures
            ascending(self@),
            distinct_names(self@),
    {
        lemma_ascending_distinct(self@);
    }

    /// The empty map.
    pub fn new() -> (m: FieldMap<T>)
        ensures
            m@ == Seq::<(Seq<char>, T::Model)>::empty(),
            m.wf(),
    {
        let entries: Vec<(String, T)> = Vec::new();
        assert(Self::listed(entries@) =~= Seq::<(Seq<char>, T::Model)>::empty());
        FieldMap { entries }
    }

    /// The number of entries.
    pub fn len(&self) -> (n: usize)
        ensures
            n == self@.len(),
    {
        self.entries.len()
    }

    pub fn is_empty(&self) -> (r: bool)
        ensures
            r == (self@.len() == 0),
    {
        self.entries.len() == 0
    }

    /// The name of the entry at `i`.
    pub fn name_at(&self, i: usize) -> (name: &String)
        requires
            i < self@.len(),
        ensures
            name@ == self@[i as int].0,
    {
        &self.entries[i].0
    }

    /// The value of the entry at `i`.
    pub fn value_at(&self, i: usize) -> (value: &T)
        requires
            i < self@.len(),
        ensures
            value.model() == self@[i as int].1,
    {
        &self.entries[i].1
    }

    /// The place of the entry named `name`.
    pub fn find(&self, name: &String) -> (r: Option<usize>)
        ensures
            r is Some <==> has_name(self@, name@),
            r matches Some(i) ==> i < self@.len() && self@[i as int].0 == name@,
    {
        let mut i: usize = 0;
        while i < self.entries.len()
            invariant
                i <= self.entries.len(),
                forall|k: int| 0 <= k < i ==> (#[trigger] self@[k]).0 != name@,
            decreases self.entries.len() - i,
        {
            if self.entries[i].0 == *name {
                assert(self@[i as int].0 == name@);
                return Some(i);
            }
            i += 1;
        }
        None
    }

    /// The value held under `name`.
    pub fn get(&self, name: &String) -> (r: Option<&T>)
        ensures
            r is Some <==> has_name(self@, name@),
            r matches Some(v) ==> exists|i: int|
                0 <= i < self@.len() && (#[trigger] self@[i]).0 == name@ && self@[i].1
                    == v.model(),
    {
        match self.find(name) {
            Some(i) => Some(&self.entries[i].1),
            None => None,
        }
    }

    /// The map with `name` set to `value`.
    pub fn with(self, name: String, value: T) -> (m: FieldMap<T>)
        ensures
            m@ == placed(self@, name@, value.model()),
            m.wf(),
    {
        proof {
            use_type_invariant(&self);
        }
        let ghost before = self@;
        let mut entries = self.entries;
        let n = entries.len();
        let mut i: usize = 0;
        let mut stop = false;
        while i < n && !stop
            invariant
                i <= n,
                n == entries.len(),
                Self::listed(entries@) == before,
                forall|k: int| 0 <= k < i ==> name_less((#[trigger] before[k]).0, name@),
                stop ==> i < n && !name_less(before[i as int].0, name@),
            decreases n - i + if stop { 0int } else { 1int },
        {
            assert(before[i as int].0 == entries[i as int].0@);
            if name_before(entries[i].0.as_str(), name.as_str()) {
                i += 1;
            } else {
                stop = true;
            }
        }
        proof {
            lemma_names_before(before, name@);
            lemma_placed_ascending(before, name@, value.model());
            lemma_ascending_distinct(before);
        }
        if i < n && entries[i].0 == name {
            proof {
                assert(before[i as int].0 == name@);
                let p = place_of(before, name@);
                assert(p == i) by {
                    if p < i {
                        assert(before[p].0 != before[i as int].0);
                    } else if i < p {
                        assert(before[i as int].0 != before[p].0);
                    }
                }
            }
            entries.set(i, (name, value));
            assert(Self::listed(entries@) =~= placed(before, name@, value.model()));
        } else {
            proof {
                assert(!has_name(before, name@)) by {
                    assert forall|k: int| 0 <= k < before.len() implies (#[trigger] before[k]).0
                        != name@ by {
                        lemma_name_less_irreflexive(name@);
                        if k > i {
                            assert(name_less(before[i as int].0, before[k].0));
                            lemma_name_less_total(before[i as int].0, name@);
                        }
                    }
                }
                assert(names_before(before, name@) == i) by {
                    if i < n {
                        assert(!(i < names_before(before, name@)));
                    }
                    if i > 0 {
                        assert(name_less(before[i - 1].0, name@));
                        assert(i - 1 < names_before(before, name@));
                    }
                }
            }
            entries.insert(i, (name, value));
            assert(Self::listed(entries@) =~= placed(before, name@, value.model()));
        }
        FieldMap { entries }
    }

    /// The map of `entries`, set one after the other: where a name occurs
    /// again, its last value stays.
    pub fn from_entries(entries: Vec<(String, T)>) -> (m: FieldMap<T>)
        ensures
            m.wf(),
            m@ == Self::collected(Self::listed(entries@), entries@.len() as int),
    {
        let mut m: FieldMap<T> = FieldMap::new();
        let ghost all = Self::listed(entries@);
        for entry in it: entries
            invariant
                it.seq() == entries@,
                all == Self::listed(entries@),
                m.wf(),
                m@ == Self::collected(all, it.index() as int),
        {
            let (name, value) = entry;
            m = m.with(name, value);
        }
        m
    }

    /// The names and models of a list of entries.
    pub open spec fn listed(entries: Seq<(String, T)>) -> Entries<T::Model> {
        Seq::new(entries.len(), |i: int| (entries[i].0@, entries[i].1.model()))
    }

    /// The map after the first `n` of `entries` were set in turn.
    pub open spec fn collected(entries: Entries<T::Model>, n: int) -> Entries<T::Model>
        decreases n,
    {
        if n <= 0 {
            Seq::empty()
        } else {
            placed(Self::collected(entries, n - 1), entries[n - 1].0, entries[n - 1].1)
        }
    }

    /// Whether the map holds an entry named as `name` with a value equal to
    /// `value`.
    pub fn holds(&self, name: &String, value: &T) -> (r: bool)
        ensures
            r == Self::has_entry(self@, (name@, value.model())),
    {
        let mut j: usize = 0;
        while j < self.entries.len()
            invariant
                j <= self.entries.len(),
                forall|k: int|
                    0 <= k < j ==> !((#[trigger] self@[k]).0 == name@ && T::equal(
                        value.model(),
                        self@[k].1,
                    )),
            decreases self.entries.len() - j,
        {
            if self.entries[j].0 == *name && value.value_same(&self.entries[j].1) {
                assert(self@[j as int].0 == name@);
                return true;
            }
            j += 1;
        }
        false
    }

    /// Whether two maps hold the same values under the same names.
    pub fn same(&self, other: &FieldMap<T>) -> (r: bool)
        ensures
            r == Self::equivalent(self@, other@),
    {
        if self.entries.len() != other.entries.len() {
            return false;
        }
        let mut i: usize = 0;
        while i < self.entries.len()
            invariant
                i <= self.entries.len(),
                self@.len() == other@.len(),
                forall|k: int| 0 <= k < i ==> Self::has_entry(other@, #[trigger] self@[k]),
            decreases self.entries.len() - i,
        {
            if !other.holds(&self.entries[i].0, &self.entries[i].1) {
                assert(!Self::has_entry(other@, self@[i as int]));
                return false;
            }
            i += 1;
        }
        true
    }

    /// The entries of the map, in ascending order of their names.
    pub fn into_entries(self) -> (entries: Vec<(String, T)>)
        ensures
            Self::listed(entries@) == self@,
    {
        self.entries
    }

    /// A copy of the map.
    pub fn duplicate(&self) -> (m: FieldMap<T>)
        ensures
            m@ == self@,
            m.wf(),
    {
        proof {
            use_type_invariant(self);
        }
        let mut out: Vec<(String, T)> = Vec::new();
        let mut i: usize = 0;
        while i < self.entries.len()
            invariant
                i <= self.entries.len(),
                out.len() == i,
                forall|k: int|
                    0 <= k < i ==> (#[trigger] out[k]).0@ == self.entries[k].0@ && out[k].1.model()
                        == self.entries[k].1.model(),
            decreases self.entries.len() - i,
        {
            out.push((self.entries[i].0.clone(), self.entries[i].1.value_copy()));
            i += 1;
        }
        assert(Self::listed(out@) =~= self@);
        FieldMap { entries: out }
    }
}

impl<T: FieldValue> Clone for FieldMap<T> {
    fn clone(&self) -> (m: FieldMap<T>)
        ensures
            m@ == self@,
    {
        self.duplicate()
    }
}

} // verus!
