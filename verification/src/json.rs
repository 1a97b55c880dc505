//! JSON values, as the resource carries them in free-form fields.

use crate::double::Double;
use vstd::prelude::*;

verus! {

/// A JSON number: a non-negative integer, a negative integer or a finite
/// double.
#[derive(Clone, Copy, Debug)]
pub enum JsonNumber {
    PosInt(u64),
    NegInt(i64),
    Float(Double),
}

impl JsonNumber {
    /// Numbers of different kinds are never equal; doubles are compared
    /// numerically.
    pub open spec fn equivalent(self, other: JsonNumber) -> bool {
        match (self, other) {
            (JsonNumber::PosInt(a), JsonNumber::PosInt(b)) => a == b,
            (JsonNumber::NegInt(a), JsonNumber::NegInt(b)) => a == b,
            (JsonNumber::Float(a), JsonNumber::Float(b)) => a.equals(b),
            _ => false,
        }
    }

    /// A negative integer is below zero and a double is finite.
    pub open spec fn valid(self) -> bool {
        match self {
            JsonNumber::PosInt(_) => true,
            JsonNumber::NegInt(n) => n < 0,
            JsonNumber::Float(d) => d.is_finite(),
        }
    }

    pub fn same(&self, other: &JsonNumber) -> (r: bool)
        ensures
            r == self.equivalent(*other),
    {
        match (self, other) {
            (JsonNumber::PosInt(a), JsonNumber::PosInt(b)) => *a == *b,
            (JsonNumber::NegInt(a), JsonNumber::NegInt(b)) => *a == *b,
            (JsonNumber::Float(a), JsonNumber::Float(b)) => a.same(b),
            _ => false,
        }
    }
}

/// A JSON value. An object is the list of its members.
#[derive(Debug)]
pub enum JsonValue {
    Null,
    Bool(bool),
    Number(JsonNumber),
    String(String),
    Array(Vec<JsonValue>),
    Object(Vec<(String, JsonValue)>),
}

/// The mathematical value of a `JsonValue`.
pub enum JsonView {
    Null,
    Bool(bool),
    Number(JsonNumber),
    String(Seq<char>),
    Array(Seq<JsonView>),
    Object(Seq<(Seq<char>, JsonView)>),
}

impl View for JsonValue {
    type V = JsonView;

    open spec fn view(&self) -> JsonView
        decreases self,
    {
        match self {
            JsonValue::Null => JsonView::Null,
            JsonValue::Bool(b) => JsonView::Bool(*b),
            JsonValue::Number(n) => JsonView::Number(*n),
            JsonValue::String(s) => JsonView::String(s@),
            JsonValue::Array(items) => JsonView::Array(JsonValue::view_items(items@)),
            JsonValue::Object(members) => JsonView::Object(JsonValue::view_members(members@)),
        }
    }
}

impl JsonValue {
    /// The values of the items of an array.
    pub open spec fn view_items(items: Seq<JsonValue>) -> Seq<JsonView>
        decreases items,
    {
        Seq::new(
            items.len(),
            |i: int|
                if 0 <= i < items.len() {
                    items[i].view()
                } else {
                    JsonView::Null
                },
        )
    }

    /// The names and values of the members of an object.
    pub open spec fn view_members(members: Seq<(String, JsonValue)>) -> Seq<(Seq<char>, JsonView)>
        decreases members,
    {
        Seq::new(
            members.len(),
            |i: int|
                if 0 <= i < members.len() {
                    (members[i].0@, members[i].1.view())
                } else {
                    (Seq::empty(), JsonView::Null)
                },
        )
    }

    /// Whether two values are equal as JSON.
    #[verifier::loop_isolation(false)]
    pub fn same(&self, other: &JsonValue) -> (r: bool)
        ensures
            r == self@.equivalent(other@),
        decreases self, 0nat,
    {
        match (self, other) {
            (JsonValue::Null, JsonValue::Null) => true,
            (JsonValue::Bool(a), JsonValue::Bool(b)) => *a == *b,
            (JsonValue::Number(a), JsonValue::Number(b)) => a.same(b),
            (JsonValue::String(a), JsonValue::String(b)) => *a == *b,
            (JsonValue::Array(a), JsonValue::Array(b)) => {
                assert(Self::view_items(a@).len() == a.len());
                assert(Self::view_items(b@).len() == b.len());
                if a.len() != b.len() {
                    return false;
                }
                let mut i: usize = 0;
                while i < a.len()
                    invariant
                        i <= a.len(),
                        a.len() == b.len(),
                        forall|k: int| 0 <= k < i ==> (#[trigger] a[k])@.equivalent(b[k]@),
                    decreases a.len() - i,
                {
                    if !a[i].same(&b[i]) {
                        assert(!Self::view_items(a@)[i as int].equivalent(
                            Self::view_items(b@)[i as int],
                        ));
                        return false;
                    }
                    i += 1;
                }
                assert forall|k: int| 0 <= k < a.len() implies (#[trigger] Self::view_items(
                    a@,
                )[k]).equivalent(Self::view_items(b@)[k]) by {
                    assert(a[k]@.equivalent(b[k]@));
                }
                true
            },
            (JsonValue::Object(a), JsonValue::Object(b)) => {
                assert(Self::view_members(a@).len() == a.len());
                assert(Self::view_members(b@).len() == b.len());
                if a.len() != b.len() {
                    return false;
                }
                let mut i: usize = 0;
                while i < a.len()
                    invariant
                        i <= a.len(),
                        a.len() == b.len(),
                        forall|k: int|
                            0 <= k < i ==> JsonView::has_member(
                                Self::view_members(b@),
                                #[trigger] Self::view_members(a@)[k],
                            ),
                    decreases a.len() - i,
                {
                    if !Self::holds_member(b, &a[i]) {
                        assert(!JsonView::has_member(
                            Self::view_members(b@),
                            Self::view_members(a@)[i as int],
                        ));
                        return false;
                    }
                    i += 1;
                }
                true
            },
            _ => false,
        }
    }

    /// Whether `members` holds one named as `member` with an equal value.
    #[verifier::loop_isolation(false)]
    pub fn holds_member(members: &Vec<(String, JsonValue)>, member: &(String, JsonValue)) -> (r:
        bool)
        ensures
            r == JsonView::has_member(Self::view_members(members@), (member.0@, member.1@)),
        decreases member.1, 1nat,
    {
        let mut j: usize = 0;
        while j < members.len()
            invariant
                j <= members.len(),
                forall|k: int|
                    0 <= k < j ==> !((#[trigger] Self::view_members(members@)[k]).0 == member.0@
                        && member.1@.equivalent(Self::view_members(members@)[k].1)),
            decreases members.len() - j,
        {
            if members[j].0 == member.0 && member.1.same(&members[j].1) {
                assert(Self::view_members(members@)[j as int].0 == member.0@);
                return true;
            }
            j += 1;
        }
        false
    }

    /// A copy of the value.
    #[verifier::loop_isolation(false)]
    pub fn duplicate(&self) -> (r: JsonValue)
        ensures
            r@ == self@,
        decreases self,
    {
        match self {
            JsonValue::Null => JsonValue::Null,
            JsonValue::Bool(b) => JsonValue::Bool(*b),
            JsonValue::Number(n) => JsonValue::Number(*n),
            JsonValue::String(s) => JsonValue::String(s.clone()),
            JsonValue::Array(items) => {
                let mut out: Vec<JsonValue> = Vec::new();
                let mut i: usize = 0;
                while i < items.len()
                    invariant
                        i <= items.len(),
                        out.len() == i,
                        forall|k: int| 0 <= k < i ==> (#[trigger] out[k])@ == items[k]@,
                    decreases items.len() - i,
                {
                    out.push(items[i].duplicate());
                    i += 1;
                }
                assert(Self::view_items(out@) =~= Self::view_items(items@));
                JsonValue::Array(out)
            },
            JsonValue::Object(members) => {
                let mut out: Vec<(String, JsonValue)> = Vec::new();
                let mut i: usize = 0;
                while i < members.len()
                    invariant
                        i <= members.len(),
                        out.len() == i,
                        forall|k: int|
                            0 <= k < i ==> (#[trigger] out[k]).0@ == members[k].0@ && out[k].1@
                                == members[k].1@,
                    decreases members.len() - i,
                {
                    out.push((members[i].0.clone(), members[i].1.duplicate()));
                    i += 1;
                }
                assert(Self::view_members(out@) =~= Self::view_members(members@));
                JsonValue::Object(out)
            },
        }
    }
}

impl Clone for JsonValue {
    fn clone(&self) -> (r: JsonValue)
        ensures
            r@ == self@,
    {
        self.duplicate()
    }
}

impl JsonView {
    /// Equality of two JSON values. Arrays are compared item by item.
    /// Objects are compared as maps: they have the same number of members
    /// and each member of the first has its name and an equivalent value in
    /// the second.
    pub open spec fn equivalent(self, other: JsonView) -> bool
        decreases self,
    {
        match (self, other) {
            (JsonView::Null, JsonView::Null) => true,
            (JsonView::Bool(a), JsonView::Bool(b)) => a == b,
            (JsonView::Number(a), JsonView::Number(b)) => a.equivalent(b),
            (JsonView::String(a), JsonView::String(b)) => a == b,
            (JsonView::Array(a), JsonView::Array(b)) => {
                &&& a.len() == b.len()
                &&& forall|i: int| 0 <= i < a.len() ==> (#[trigger] a[i]).equivalent(b[i])
            },
            (JsonView::Object(a), JsonView::Object(b)) => {
                &&& a.len() == b.len()
                &&& forall|i: int| 0 <= i < a.len() ==> Self::has_member(b, #[trigger] a[i])
            },
            _ => false,
        }
    }

    /// Whether `members` holds one named as `member` with an equivalent
    /// value.
    pub open spec fn has_member(
        members: Seq<(Seq<char>, JsonView)>,
        member: (Seq<char>, JsonView),
    ) -> bool
        decreases member,
    {
        exists|j: int|
            0 <= j < members.len() && (#[trigger] members[j]).0 == member.0
                && member.1.equivalent(members[j].1)
    }

    /// The names of the members of an object.
    pub open spec fn names(members: Seq<(Seq<char>, JsonView)>) -> Seq<Seq<char>> {
        Seq::new(members.len(), |i: int| members[i].0)
    }

    /// Every number in the value is valid and no object has two members of
    /// one name.
    pub open spec fn valid(self) -> bool
        decreases self,
    {
        match self {
            JsonView::Number(n) => n.valid(),
            JsonView::Array(a) => forall|i: int| 0 <= i < a.len() ==> (#[trigger] a[i]).valid(),
            JsonView::Object(a) => {
                &&& Self::names(a).no_duplicates()
                &&& forall|i: int| 0 <= i < a.len() ==> (#[trigger] a[i]).1.valid()
            },
            _ => true,
        }
    }

    /// The equivalence of a valid value with another goes both ways.
    pub proof fn lemma_equivalent_symmetric(self, other: JsonView)
        requires
            self.valid(),
            self.equivalent(other),
        ensures
            other.equivalent(self),
        decreases self,
    {
        match (self, other) {
            (JsonView::Array(a), JsonView::Array(b)) => {
                assert forall|i: int| 0 <= i < b.len() implies (#[trigger] b[i]).equivalent(
                    a[i],
                ) by {
                    assert(a[i].equivalent(b[i]));
                    a[i].lemma_equivalent_symmetric(b[i]);
                }
            },
            (JsonView::Object(a), JsonView::Object(b)) => {
                let names_a = Self::names(a);
                let names_b = Self::names(b);
                assert forall|i: int| 0 <= i < names_a.len() implies names_b.contains(
                    #[trigger] names_a[i],
                ) by {
                    assert(Self::has_member(b, a[i]));
                    let j = choose|j: int|
                        0 <= j < b.len() && (#[trigger] b[j]).0 == a[i].0 && a[i].1.equivalent(
                            b[j].1,
                        );
                    assert(names_b[j] == names_a[i]);
                }
                crate::sequences::lemma_contained_both_ways(names_a, names_b);
                assert forall|j: int| 0 <= j < b.len() implies Self::has_member(
                    a,
                    #[trigger] b[j],
                ) by {
                    assert(names_a.contains(names_b[j]));
                    let i = choose|i: int| 0 <= i < names_a.len() && names_a[i] == names_b[j];
                    assert(Self::has_member(b, a[i]));
                    let k = choose|k: int|
                        0 <= k < b.len() && (#[trigger] b[k]).0 == a[i].0 && a[i].1.equivalent(
                            b[k].1,
                        );
                    assert(names_b[k] == names_b[j]);
                    assert(k == j);
                    a[i].1.lemma_equivalent_symmetric(b[j].1);
                    assert(a[i].0 == b[j].0 && b[j].1.equivalent(a[i].1));
                }
            },
            _ => {},
        }
    }

    /// A valid value is equivalent to itself.
    pub proof fn lemma_equivalent_reflexive(self)
        requires
            self.valid(),
        ensures
            self.equivalent(self),
        decreases self,
    {
        match self {
            JsonView::Number(n) => {
                match n {
                    JsonNumber::Float(d) => {
                        d.lemma_finite_is_no_nan();
                    },
                    _ => {},
                }
            },
            JsonView::Array(a) => {
                assert forall|i: int| 0 <= i < a.len() implies (#[trigger] a[i]).equivalent(
                    a[i],
                ) by {
                    a[i].lemma_equivalent_reflexive();
                }
            },
            JsonView::Object(a) => {
                assert forall|i: int| 0 <= i < a.len() implies Self::has_member(
                    a,
                    #[trigger] a[i],
                ) by {
                    a[i].1.lemma_equivalent_reflexive();
                }
            },
            _ => {},
        }
    }
}

} // verus!
