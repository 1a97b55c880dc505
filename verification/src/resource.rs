//! The desired state of a collection and its indexes, and the rules by which
//! a declared index and an index that the database reports count as the same.

use crate::collation::{Collation, CollationView};
use crate::double::Double;
use crate::field_map::{ascending, Entries, FieldMap, FieldValue, lemma_ascending_distinct};
use crate::json::{JsonValue, JsonView};
use crate::text::{is_literal, text};
use vstd::prelude::*;
use vstd::std_specs::cmp::PartialEqSpecImpl;
use vstd::string::StringExecFns;

verus! {

/// Sort direction of a B-tree key; written as 1 and -1.
#[derive(Clone, Copy, Debug, PartialEq, Eq, Structural)]
pub enum Direction {
    Ascending,
    Descending,
}

/// Bucket granularity of a time-series collection.
#[derive(Clone, Copy, Debug, PartialEq, Eq, Structural)]
pub enum Granularity {
    Hours,
    Minutes,
    Seconds,
}

/// The kind of a key that is not a B-tree key; written as `hashed`, `text`,
/// `2d` and `2dsphere`.
#[derive(Clone, Copy, Debug, PartialEq, Eq, Structural)]
pub enum IndexType {
    Hashed,
    Text,
    TwoDimensional,
    TwoDimensionalSphere,
}

/// What the database does with a document that fails validation.
#[derive(Clone, Copy, Debug, PartialEq, Eq, Structural)]
pub enum ValidationAction {
    Error,
    Warn,
}

/// How strictly the database applies the validation rules.
#[derive(Clone, Copy, Debug, PartialEq, Eq, Structural)]
pub enum ValidationLevel {
    Moderate,
    Off,
    Strict,
}

/// Whether a path is part of a wildcard index; written as 0 and 1.
#[derive(Clone, Copy, Debug, PartialEq, Eq, Structural)]
pub enum WildcardProjection {
    Exclude,
    Include,
}

impl FieldValue for WildcardProjection {
    type Model = WildcardProjection;

    open spec fn model(&self) -> WildcardProjection {
        *self
    }

    open spec fn equal(a: WildcardProjection, b: WildcardProjection) -> bool {
        a == b
    }

    fn value_same(&self, other: &WildcardProjection) -> (r: bool) {
        *self == *other
    }

    fn value_copy(&self) -> (r: WildcardProjection) {
        *self
    }
}

/// The language of a text index that names none.
pub open spec fn default_language() -> Seq<char> {
    "english"@
}

/// The language override field of a text index that names none.
pub open spec fn default_language_override() -> Seq<char> {
    "language"@
}

/// The bits of the double 180, the default upper bound of a `2d` index.
pub const DEFAULT_MAX_BITS: u64 = 0x4066_8000_0000_0000;

/// The bits of the double -180, the default lower bound of a `2d` index.
pub const DEFAULT_MIN_BITS: u64 = 0xc066_8000_0000_0000;

/// The default precision of a `2d` index.
pub const DEFAULT_BITS: u32 = 26;

/// One field of an index.
#[derive(Clone, Debug)]
pub struct Key {
    pub direction: Option<Direction>,
    pub field: String,
    pub index_type: Option<IndexType>,
}

/// What a key is compared by.
pub struct KeyView {
    pub direction: Option<Direction>,
    pub field: Seq<char>,
    pub index_type: Option<IndexType>,
}

impl View for Key {
    type V = KeyView;

    open spec fn view(&self) -> KeyView {
        KeyView { direction: self.direction, field: self.field@, index_type: self.index_type }
    }
}

impl KeyView {
    /// A key may have a direction or an index type, not both.
    pub open spec fn is_invalid(self) -> bool {
        self.direction is Some && self.index_type is Some
    }

    pub open spec fn is_text(self) -> bool {
        self.index_type == Some(IndexType::Text)
    }

    /// A key has exactly one of a direction and an index type.
    pub open spec fn well_formed(self) -> bool {
        (self.direction is Some) != (self.index_type is Some)
    }
}

/// No field is named by two keys.
pub open spec fn distinct_fields(keys: Seq<KeyView>) -> bool {
    forall|i: int, j: int|
        0 <= i < j < keys.len() ==> (#[trigger] keys[i]).field != (#[trigger] keys[j]).field
}

impl Key {
    /// Whether two keys agree in field, direction and index type.
    pub fn same(&self, other: &Key) -> (r: bool)
        ensures
            r == (self@ == other@),
    {
        self.direction == other.direction && self.field == other.field && self.index_type
            == other.index_type
    }

    /// A copy of the key.
    pub fn duplicate(&self) -> (k: Key)
        ensures
            k@ == self@,
    {
        Key { direction: self.direction, field: self.field.clone(), index_type: self.index_type }
    }
}

impl PartialEq for Key {
    fn eq(&self, other: &Key) -> (r: bool) {
        self.same(other)
    }
}

impl PartialEqSpecImpl for Key {
    open spec fn obeys_eq_spec() -> bool {
        true
    }

    open spec fn eq_spec(&self, other: &Key) -> bool {
        self@ == other@
    }
}

/// The view of an optional key.
pub open spec fn key_view(k: Option<Key>) -> Option<KeyView> {
    match k {
        Some(v) => Some(v@),
        None => None,
    }
}

/// The views of a list of keys.
pub open spec fn key_views(keys: Seq<Key>) -> Seq<KeyView> {
    Seq::new(keys.len(), |i: int| keys[i]@)
}

/// The two lists have the same length and every key of the first occurs in
/// the second.
pub open spec fn same_key_set(v1: Seq<KeyView>, v2: Seq<KeyView>) -> bool {
    &&& v1.len() == v2.len()
    &&& forall|i: int| 0 <= i < v1.len() ==> v2.contains(#[trigger] v1[i])
}

/// Whether `keys` holds a key equal to `key`.
pub fn contains_key(keys: &[Key], key: &Key) -> (r: bool)
    ensures
        r == key_views(keys@).contains(key@),
{
    let mut j: usize = 0;
    while j < keys.len()
        invariant
            j <= keys.len(),
            forall|k: int| 0 <= k < j ==> (#[trigger] key_views(keys@)[k]) != key@,
        decreases keys.len() - j,
    {
        if keys[j].same(key) {
            assert(key_views(keys@)[j as int] == key@);
            return true;
        }
        j += 1;
    }
    false
}

/// Whether two key lists hold the same keys, in any order.
pub fn same_keys(v1: &[Key], v2: &[Key]) -> (r: bool)
    ensures
        r == same_key_set(key_views(v1@), key_views(v2@)),
{
    if v1.len() != v2.len() {
        return false;
    }
    let mut i: usize = 0;
    while i < v1.len()
        invariant
            i <= v1.len(),
            v1.len() == v2.len(),
            forall|k: int| 0 <= k < i ==> key_views(v2@).contains(#[trigger] key_views(v1@)[k]),
        decreases v1.len() - i,
    {
        if !contains_key(v2, &v1[i]) {
            assert(!key_views(v2@).contains(key_views(v1@)[i as int]));
            return false;
        }
        i += 1;
    }
    true
}

/// One side of a comparison against a default: `None` where the value is
/// absent, else whether it is at its default.
pub open spec fn default_comparison(d1: Option<bool>, d2: Option<bool>) -> bool {
    ||| (d1 is None && d2 == Some(true))
    ||| (d2 is None && d1 == Some(true))
    ||| (d1 == Some(true) && d2 == Some(true))
}

/// Whether two optional values are the same because each is either absent
/// or at its default, and at least one is present. `is_default` says
/// whether a value is at its default; it is asked once for each value that
/// is present.
pub fn is_default_comparison<T, F: Fn(&T) -> bool>(
    v1: Option<&T>,
    v2: Option<&T>,
    is_default: F,
) -> (r: bool)
    requires
        forall|t: &T| #[trigger] is_default.requires((t,)),
    ensures
        exists|d1: Option<bool>, d2: Option<bool>|
            {
                &&& r == default_comparison(d1, d2)
                &&& d1 is Some == v1 is Some
                &&& d2 is Some == v2 is Some
                &&& (v1 matches Some(a) ==> is_default.ensures((a,), d1->0))
                &&& (v2 matches Some(b) ==> is_default.ensures((b,), d2->0))
            },
{
    let d1 = match v1 {
        Some(a) => Some(is_default(a)),
        None => None,
    };
    let d2 = match v2 {
        Some(b) => Some(is_default(b)),
        None => None,
    };
    let r = match (d1, d2) {
        (None, Some(b)) => b,
        (Some(a), None) => a,
        (Some(a), Some(b)) => a && b,
        (None, None) => false,
    };
    assert(r == default_comparison(d1, d2));
    r
}

/// What `default_comparison` is given for an optional string.
pub open spec fn at_default(v: Option<Seq<char>>, default: Seq<char>) -> Option<bool> {
    match v {
        Some(s) => Some(s == default),
        None => None,
    }
}

/// Whether a language is the default one.
pub fn is_english(v: &String) -> (r: bool)
    ensures
        r == (v@ == default_language()),
{
    is_literal(v, "english")
}

/// Whether a language override field is the default one.
pub fn is_language(v: &String) -> (r: bool)
    ensures
        r == (v@ == default_language_override()),
{
    is_literal(v, "language")
}

/// Whether two optional languages agree because each is absent or
/// `english`, and at least one is present.
pub fn is_default_language(v1: &Option<String>, v2: &Option<String>) -> (r: bool)
    ensures
        r == default_comparison(
            at_default(text(*v1), default_language()),
            at_default(text(*v2), default_language()),
        ),
{
    is_default_comparison(v1.as_ref(), v2.as_ref(), is_english)
}

/// Whether two optional language override fields agree because each is
/// absent or `language`, and at least one is present.
pub fn is_default_language_override(v1: &Option<String>, v2: &Option<String>) -> (r: bool)
    ensures
        r == default_comparison(
            at_default(text(*v1), default_language_override()),
            at_default(text(*v2), default_language_override()),
        ),
{
    is_default_comparison(v1.as_ref(), v2.as_ref(), is_language)
}

/// The options of an index. Every field is optional; an absent field leaves
/// the choice to the database.
#[derive(Clone, Debug)]
pub struct Options {
    pub bits: Option<u32>,
    pub collation: Option<Collation>,
    pub default_language: Option<String>,
    pub expire_after_seconds: Option<u64>,
    pub hidden: Option<bool>,
    pub language_override: Option<String>,
    pub max: Option<Double>,
    pub min: Option<Double>,
    pub name: Option<String>,
    pub partial_filter_expression: Option<FieldMap<JsonValue>>,
    pub sparse: Option<bool>,
    pub sphere_index_version: Option<u32>,
    pub text_index_version: Option<u32>,
    pub unique: Option<bool>,
    pub weights: Option<FieldMap<u32>>,
    pub wildcard_projection: Option<FieldMap<WildcardProjection>>,
}

/// The mathematical value of `Options`.
pub struct OptionsView {
    pub bits: Option<u32>,
    pub collation: Option<CollationView>,
    pub default_language: Option<Seq<char>>,
    pub expire_after_seconds: Option<u64>,
    pub hidden: Option<bool>,
    pub language_override: Option<Seq<char>>,
    pub max: Option<Double>,
    pub min: Option<Double>,
    pub name: Option<Seq<char>>,
    pub partial_filter_expression: Option<Entries<JsonView>>,
    pub sparse: Option<bool>,
    pub sphere_index_version: Option<u32>,
    pub text_index_version: Option<u32>,
    pub unique: Option<bool>,
    pub weights: Option<Entries<u32>>,
    pub wildcard_projection: Option<Entries<WildcardProjection>>,
}

/// The entries of an optional map.
pub open spec fn entries_of<T: FieldValue>(m: Option<FieldMap<T>>) -> Option<Entries<T::Model>> {
    match m {
        Some(v) => Some(v@),
        None => None,
    }
}

/// The view of an optional collation.
pub open spec fn collation_view(c: Option<Collation>) -> Option<CollationView> {
    match c {
        Some(v) => Some(v@),
        None => None,
    }
}

impl View for Options {
    type V = OptionsView;

    open spec fn view(&self) -> OptionsView {
        OptionsView {
            bits: self.bits,
            collation: collation_view(self.collation),
            default_language: text(self.default_language),
            expire_after_seconds: self.expire_after_seconds,
            hidden: self.hidden,
            language_override: text(self.language_override),
            max: self.max,
            min: self.min,
            name: text(self.name),
            partial_filter_expression: entries_of(self.partial_filter_expression),
            sparse: self.sparse,
            sphere_index_version: self.sphere_index_version,
            text_index_version: self.text_index_version,
            unique: self.unique,
            weights: entries_of(self.weights),
            wildcard_projection: entries_of(self.wildcard_projection),
        }
    }
}

/// Two optional doubles are equal when both are absent or both are present
/// and numerically equal.
pub open spec fn doubles_equal(a: Option<Double>, b: Option<Double>) -> bool {
    match (a, b) {
        (None, None) => true,
        (Some(x), Some(y)) => x.equals(y),
        _ => false,
    }
}

/// Two optional maps are equal when both are absent or both are present and
/// hold the same values under the same names.
pub open spec fn maps_equal<T: FieldValue>(
    a: Option<Entries<T::Model>>,
    b: Option<Entries<T::Model>>,
) -> bool {
    match (a, b) {
        (None, None) => true,
        (Some(x), Some(y)) => FieldMap::<T>::equivalent(x, y),
        _ => false,
    }
}

/// Equal, or one side leaves the choice to the database.
pub open spec fn equal_or_unset(a: Option<u32>, b: Option<u32>) -> bool {
    a == b || a is None || b is None
}

/// Equal, or each side is absent or `default` and at least one is present.
pub open spec fn equal_or_default(
    a: Option<Seq<char>>,
    b: Option<Seq<char>>,
    default: Seq<char>,
) -> bool {
    a == b || default_comparison(at_default(a, default), at_default(b, default))
}

impl OptionsView {
    /// Every field but the name is absent or at its documented default.
    pub open spec fn is_default(self) -> bool {
        &&& (self.bits matches Some(v) ==> v == DEFAULT_BITS)
        &&& self.collation is None
        &&& (self.default_language matches Some(v) ==> v == default_language())
        &&& self.expire_after_seconds is None
        &&& (self.hidden matches Some(v) ==> !v)
        &&& (self.language_override matches Some(v) ==> v == default_language_override())
        &&& (self.max matches Some(v) ==> v.equals(Double { bits: DEFAULT_MAX_BITS }))
        &&& (self.min matches Some(v) ==> v.equals(Double { bits: DEFAULT_MIN_BITS }))
        &&& self.partial_filter_expression is None
        &&& (self.sparse matches Some(v) ==> !v)
        &&& self.sphere_index_version is None
        &&& self.text_index_version is None
        &&& (self.unique matches Some(v) ==> !v)
        &&& self.weights is None
        &&& self.wildcard_projection is None
    }

    /// The equivalence of two option blocks. The name is left out, because
    /// the database may have generated it. An absent language or language
    /// override equals the default one; the two index versions and the
    /// weights, which the database fills in, are equal where one side has
    /// none; every other field must be equal.
    pub open spec fn equivalent(self, other: OptionsView) -> bool {
        &&& self.bits == other.bits
        &&& self.collation == other.collation
        &&& equal_or_default(self.default_language, other.default_language, default_language())
        &&& self.expire_after_seconds == other.expire_after_seconds
        &&& self.hidden == other.hidden
        &&& equal_or_default(
            self.language_override,
            other.language_override,
            default_language_override(),
        )
        &&& doubles_equal(self.max, other.max)
        &&& doubles_equal(self.min, other.min)
        &&& maps_equal::<JsonValue>(
            self.partial_filter_expression,
            other.partial_filter_expression,
        )
        &&& self.sparse == other.sparse
        &&& equal_or_unset(self.sphere_index_version, other.sphere_index_version)
        &&& equal_or_unset(self.text_index_version, other.text_index_version)
        &&& self.unique == other.unique
        &&& (maps_equal::<u32>(self.weights, other.weights) || self.weights is None
            || other.weights is None)
        &&& maps_equal::<WildcardProjection>(self.wildcard_projection, other.wildcard_projection)
    }
}

impl OptionsView {
    /// What holds of every option block that a resource or the database
    /// can give: the bounds are numbers, each map is ordered by name, and
    /// the values of the partial filter expression are valid.
    pub open spec fn valid(self) -> bool {
        &&& (self.max matches Some(d) ==> !d.is_nan())
        &&& (self.min matches Some(d) ==> !d.is_nan())
        &&& (self.partial_filter_expression matches Some(m) ==> ascending(m) && forall|
            i: int,
        | 0 <= i < m.len() ==> (#[trigger] m[i]).1.valid())
        &&& (self.weights matches Some(m) ==> ascending(m))
        &&& (self.wildcard_projection matches Some(m) ==> ascending(m))
    }

    /// The equivalence of a valid option block with another goes both
    /// ways.
    pub proof fn lemma_equivalent_symmetric(self, other: OptionsView)
        requires
            self.valid(),
            self.equivalent(other),
        ensures
            other.equivalent(self),
    {
        if let (Some(a), Some(b)) = (self.max, other.max) {
            a.lemma_equals_symmetric(b);
        }
        if let (Some(a), Some(b)) = (self.min, other.min) {
            a.lemma_equals_symmetric(b);
        }
        if let (Some(a), Some(b)) = (
            self.partial_filter_expression,
            other.partial_filter_expression,
        ) {
            assert forall|i: int, y: JsonView|
                0 <= i < a.len() && #[trigger] a[i].1.equivalent(y) implies y.equivalent(
                a[i].1,
            ) by {
                a[i].1.lemma_equivalent_symmetric(y);
            }
            lemma_ascending_distinct(a);
            FieldMap::<JsonValue>::lemma_equivalent_symmetric(a, b);
        }
        if let (Some(a), Some(b)) = (self.weights, other.weights) {
            if FieldMap::<u32>::equivalent(a, b) {
                lemma_ascending_distinct(a);
                FieldMap::<u32>::lemma_equivalent_symmetric(a, b);
            }
        }
        if let (Some(a), Some(b)) = (self.wildcard_projection, other.wildcard_projection) {
            lemma_ascending_distinct(a);
            FieldMap::<WildcardProjection>::lemma_equivalent_symmetric(a, b);
        }
    }

    /// A valid option block is equivalent to itself.
    pub proof fn lemma_equivalent_reflexive(self)
        requires
            self.valid(),
        ensures
            self.equivalent(self),
    {
        if let Some(m) = self.partial_filter_expression {
            assert forall|i: int| 0 <= i < m.len() implies FieldMap::<JsonValue>::has_entry(
                m,
                #[trigger] m[i],
            ) by {
                m[i].1.lemma_equivalent_reflexive();
            }
        }
        if let Some(m) = self.weights {
            assert forall|i: int| 0 <= i < m.len() implies FieldMap::<u32>::has_entry(
                m,
                #[trigger] m[i],
            ) by {}
        }
        if let Some(m) = self.wildcard_projection {
            assert forall|i: int| 0 <= i < m.len() implies FieldMap::<
                WildcardProjection,
            >::has_entry(m, #[trigger] m[i]) by {}
        }
    }
}

/// Whether two optional strings hold the same text.
pub fn same_text(a: &Option<String>, b: &Option<String>) -> (r: bool)
    ensures
        r == (text(*a) == text(*b)),
{
    match (a, b) {
        (None, None) => true,
        (Some(x), Some(y)) => *x == *y,
        _ => false,
    }
}

/// Whether two optional doubles are both absent or numerically equal.
pub fn same_double(a: &Option<Double>, b: &Option<Double>) -> (r: bool)
    ensures
        r == doubles_equal(*a, *b),
{
    match (a, b) {
        (None, None) => true,
        (Some(x), Some(y)) => x.same(y),
        _ => false,
    }
}

/// Whether two optional collations are both absent or agree in every
/// setting.
pub fn same_collation(a: &Option<Collation>, b: &Option<Collation>) -> (r: bool)
    ensures
        r == (collation_view(*a) == collation_view(*b)),
{
    match (a, b) {
        (None, None) => true,
        (Some(x), Some(y)) => x.same(y),
        _ => false,
    }
}

/// Whether two optional maps are both absent or hold the same entries.
pub fn same_map<T: FieldValue>(a: &Option<FieldMap<T>>, b: &Option<FieldMap<T>>) -> (r: bool)
    ensures
        r == maps_equal::<T>(entries_of(*a), entries_of(*b)),
{
    match (a, b) {
        (None, None) => true,
        (Some(x), Some(y)) => x.same(y),
        _ => false,
    }
}

impl Options {
    /// Options that set nothing.
    pub fn new() -> (o: Options)
        ensures
            o@ == Options::unset(),
    {
        Options {
            bits: None,
            collation: None,
            default_language: None,
            expire_after_seconds: None,
            hidden: None,
            language_override: None,
            max: None,
            min: None,
            name: None,
            partial_filter_expression: None,
            sparse: None,
            sphere_index_version: None,
            text_index_version: None,
            unique: None,
            weights: None,
            wildcard_projection: None,
        }
    }

    /// The options that set nothing.
    pub open spec fn unset() -> OptionsView {
        OptionsView {
            bits: None,
            collation: None,
            default_language: None,
            expire_after_seconds: None,
            hidden: None,
            language_override: None,
            max: None,
            min: None,
            name: None,
            partial_filter_expression: None,
            sparse: None,
            sphere_index_version: None,
            text_index_version: None,
            unique: None,
            weights: None,
            wildcard_projection: None,
        }
    }

    /// Whether every field but the name is absent or at its documented
    /// default.
    pub fn is_default(&self) -> (r: bool)
        ensures
            r == self@.is_default(),
    {
        (match self.bits {
            Some(v) => v == DEFAULT_BITS,
            None => true,
        }) && self.collation.is_none() && (match &self.default_language {
            Some(v) => is_literal(v, "english"),
            None => true,
        }) && self.expire_after_seconds.is_none() && (match self.hidden {
            Some(v) => !v,
            None => true,
        }) && (match &self.language_override {
            Some(v) => is_literal(v, "language"),
            None => true,
        }) && (match &self.max {
            Some(v) => v.same(&Double::from_bits(DEFAULT_MAX_BITS)),
            None => true,
        }) && (match &self.min {
            Some(v) => v.same(&Double::from_bits(DEFAULT_MIN_BITS)),
            None => true,
        }) && self.partial_filter_expression.is_none() && (match self.sparse {
            Some(v) => !v,
            None => true,
        }) && self.sphere_index_version.is_none() && self.text_index_version.is_none() && (
        match self.unique {
            Some(v) => !v,
            None => true,
        }) && self.weights.is_none() && self.wildcard_projection.is_none()
    }

    /// Whether two option blocks are equivalent.
    pub fn same(&self, other: &Options) -> (r: bool)
        ensures
            r == self@.equivalent(other@),
    {
        self.bits == other.bits && same_collation(&self.collation, &other.collation) && (same_text(
            &self.default_language,
            &other.default_language,
        ) || is_default_language(&self.default_language, &other.default_language))
            && self.expire_after_seconds == other.expire_after_seconds && self.hidden
            == other.hidden && (same_text(&self.language_override, &other.language_override)
            || is_default_language_override(&self.language_override, &other.language_override))
            && same_double(&self.max, &other.max) && same_double(&self.min, &other.min)
            && same_map(&self.partial_filter_expression, &other.partial_filter_expression)
            && self.sparse == other.sparse && (self.sphere_index_version
            == other.sphere_index_version || self.sphere_index_version.is_none()
            || other.sphere_index_version.is_none()) && (self.text_index_version
            == other.text_index_version || self.text_index_version.is_none()
            || other.text_index_version.is_none()) && self.unique == other.unique && (same_map(
            &self.weights,
            &other.weights,
        ) || self.weights.is_none() || other.weights.is_none()) && same_map(
            &self.wildcard_projection,
            &other.wildcard_projection,
        )
    }
}

impl PartialEq for Options {
    fn eq(&self, other: &Options) -> (r: bool) {
        self.same(other)
    }
}

impl PartialEqSpecImpl for Options {
    open spec fn obeys_eq_spec() -> bool {
        true
    }

    open spec fn eq_spec(&self, other: &Options) -> bool {
        self@.equivalent(other@)
    }
}

/// A declared or an observed index.
#[derive(Clone, Debug)]
pub struct Index {
    pub keys: Vec<Key>,
    pub options: Option<Options>,
}

/// The mathematical value of an `Index`.
pub struct IndexView {
    pub keys: Seq<KeyView>,
    pub options: Option<OptionsView>,
}

/// The view of an optional option block.
pub open spec fn options_view(o: Option<Options>) -> Option<OptionsView> {
    match o {
        Some(v) => Some(v@),
        None => None,
    }
}

impl View for Index {
    type V = IndexView;

    open spec fn view(&self) -> IndexView {
        IndexView { keys: key_views(self.keys@), options: options_view(self.options) }
    }
}

/// Both blocks are absent, or both are present and equivalent.
pub open spec fn options_equal(a: Option<OptionsView>, b: Option<OptionsView>) -> bool {
    match (a, b) {
        (None, None) => true,
        (Some(x), Some(y)) => x.equivalent(y),
        _ => false,
    }
}

/// What `default_comparison` is given for an optional option block.
pub open spec fn options_at_default(o: Option<OptionsView>) -> Option<bool> {
    match o {
        Some(v) => Some(v.is_default()),
        None => None,
    }
}

impl IndexView {
    /// Two indexes are the same when they have the same key set and their
    /// options are equivalent, or each option block is absent or at its
    /// defaults and at least one is present.
    pub open spec fn equivalent(self, other: IndexView) -> bool {
        &&& same_key_set(self.keys, other.keys)
        &&& (options_equal(self.options, other.options) || default_comparison(
            options_at_default(self.options),
            options_at_default(other.options),
        ))
    }

    /// The name in the options, if there are options with a name.
    pub open spec fn name(self) -> Option<Seq<char>> {
        match self.options {
            Some(o) => o.name,
            None => None,
        }
    }
}

impl IndexView {
    /// No key occurs twice, and the options, if there are any, are valid.
    pub open spec fn valid(self) -> bool {
        &&& self.keys.no_duplicates()
        &&& (self.options matches Some(o) ==> o.valid())
    }

    /// The equivalence of a valid index with another goes both ways.
    pub proof fn lemma_equivalent_symmetric(self, other: IndexView)
        requires
            self.valid(),
            self.equivalent(other),
        ensures
            other.equivalent(self),
    {
        crate::sequences::lemma_contained_both_ways(self.keys, other.keys);
        if let (Some(a), Some(b)) = (self.options, other.options) {
            if a.equivalent(b) {
                a.lemma_equivalent_symmetric(b);
            }
        }
    }

    /// A valid index is equivalent to itself.
    pub proof fn lemma_equivalent_reflexive(self)
        requires
            self.valid(),
        ensures
            self.equivalent(self),
    {
        lemma_same_key_set_reflexive(self.keys);
        if let Some(o) = self.options {
            o.lemma_equivalent_reflexive();
        }
    }
}

/// Every list of keys holds the same keys as itself.
pub proof fn lemma_same_key_set_reflexive(keys: Seq<KeyView>)
    ensures
        same_key_set(keys, keys),
{
}

/// An index whose options are all at their documented defaults is
/// equivalent to an index with the same keys and no options, whichever of
/// the two is the declared one.
pub proof fn lemma_default_options_equal_absent(
    keys: Seq<KeyView>,
    other_keys: Seq<KeyView>,
    options: OptionsView,
)
    requires
        options.is_default(),
        same_key_set(keys, other_keys),
        same_key_set(other_keys, keys),
    ensures
        (IndexView { keys, options: Some(options) }).equivalent(
            IndexView { keys: other_keys, options: None },
        ),
        (IndexView { keys: other_keys, options: None }).equivalent(
            IndexView { keys, options: Some(options) },
        ),
{
}

/// Whether two optional option blocks agree because each is absent or at
/// its defaults, and at least one is present.
pub fn is_default_option(v1: &Option<Options>, v2: &Option<Options>) -> (r: bool)
    ensures
        r == default_comparison(
            options_at_default(options_view(*v1)),
            options_at_default(options_view(*v2)),
        ),
{
    is_default_comparison(v1.as_ref(), v2.as_ref(), options_are_default)
}

/// Whether every field of the options but the name is absent or at its
/// documented default.
pub fn options_are_default(options: &Options) -> (r: bool)
    ensures
        r == options@.is_default(),
{
    options.is_default()
}

/// Whether two optional option blocks are both absent or equivalent.
pub fn same_options(a: &Option<Options>, b: &Option<Options>) -> (r: bool)
    ensures
        r == options_equal(options_view(*a), options_view(*b)),
{
    match (a, b) {
        (None, None) => true,
        (Some(x), Some(y)) => x.same(y),
        _ => false,
    }
}

impl Index {
    /// Whether two indexes are equivalent.
    pub fn same(&self, other: &Index) -> (r: bool)
        ensures
            r == self@.equivalent(other@),
    {
        same_keys(self.keys.as_slice(), other.keys.as_slice()) && (same_options(
            &self.options,
            &other.options,
        ) || is_default_option(&self.options, &other.options))
    }
}

impl PartialEq for Index {
    fn eq(&self, other: &Index) -> (r: bool) {
        self.same(other)
    }
}

impl PartialEqSpecImpl for Index {
    open spec fn obeys_eq_spec() -> bool {
        true
    }

    open spec fn eq_spec(&self, other: &Index) -> bool {
        self@.equivalent(other@)
    }
}

/// The time-series configuration of a collection.
#[derive(Clone, Debug)]
pub struct TimeSeries {
    pub bucket_max_span_seconds: Option<u64>,
    pub bucket_rounding_seconds: Option<u64>,
    pub granularity: Option<Granularity>,
    pub meta_field: Option<String>,
    pub time_field: String,
}

/// The mathematical value of a time-series configuration.
pub struct TimeSeriesView {
    pub bucket_max_span_seconds: Option<u64>,
    pub bucket_rounding_seconds: Option<u64>,
    pub granularity: Option<Granularity>,
    pub meta_field: Option<Seq<char>>,
    pub time_field: Seq<char>,
}

impl View for TimeSeries {
    type V = TimeSeriesView;

    open spec fn view(&self) -> TimeSeriesView {
        TimeSeriesView {
            bucket_max_span_seconds: self.bucket_max_span_seconds,
            bucket_rounding_seconds: self.bucket_rounding_seconds,
            granularity: self.granularity,
            meta_field: text(self.meta_field),
            time_field: self.time_field@,
        }
    }
}

/// The desired state of a collection: how to create it where it is absent,
/// and the indexes it is to have.
#[derive(Clone, Debug)]
pub struct MongoCollectionSpec {
    pub capped: Option<bool>,
    pub change_stream_pre_and_post_images: Option<bool>,
    pub clustered: Option<bool>,
    pub collation: Option<Collation>,
    pub expire_after_seconds: Option<u64>,
    pub indexes: Option<Vec<Index>>,
    pub max: Option<u64>,
    pub name: Option<String>,
    pub size: Option<u64>,
    pub time_series: Option<TimeSeries>,
    pub validator: Option<FieldMap<JsonValue>>,
    pub validation_action: Option<ValidationAction>,
    pub validation_level: Option<ValidationLevel>,
}

/// The mathematical value of a `MongoCollectionSpec`.
pub struct MongoCollectionSpecView {
    pub capped: Option<bool>,
    pub change_stream_pre_and_post_images: Option<bool>,
    pub clustered: Option<bool>,
    pub collation: Option<CollationView>,
    pub expire_after_seconds: Option<u64>,
    pub indexes: Option<Seq<IndexView>>,
    pub max: Option<u64>,
    pub name: Option<Seq<char>>,
    pub size: Option<u64>,
    pub time_series: Option<TimeSeriesView>,
    pub validator: Option<Entries<JsonView>>,
    pub validation_action: Option<ValidationAction>,
    pub validation_level: Option<ValidationLevel>,
}

/// The views of a list of indexes.
pub open spec fn index_views(indexes: Seq<Index>) -> Seq<IndexView> {
    Seq::new(indexes.len(), |i: int| indexes[i]@)
}

impl View for MongoCollectionSpec {
    type V = MongoCollectionSpecView;

    open spec fn view(&self) -> MongoCollectionSpecView {
        MongoCollectionSpecView {
            capped: self.capped,
            change_stream_pre_and_post_images: self.change_stream_pre_and_post_images,
            clustered: self.clustered,
            collation: collation_view(self.collation),
            expire_after_seconds: self.expire_after_seconds,
            indexes: match self.indexes {
                Some(i) => Some(index_views(i@)),
                None => None,
            },
            max: self.max,
            name: text(self.name),
            size: self.size,
            time_series: match self.time_series {
                Some(t) => Some(t@),
                None => None,
            },
            validator: entries_of(self.validator),
            validation_action: self.validation_action,
            validation_level: self.validation_level,
        }
    }
}

impl MongoCollectionSpec {
    /// A description that sets nothing.
    pub fn new() -> (s: MongoCollectionSpec)
        ensures
            s.capped is None,
            s.change_stream_pre_and_post_images is None,
            s.clustered is None,
            s.collation is None,
            s.expire_after_seconds is None,
            s.indexes is None,
            s.max is None,
            s.name is None,
            s.size is None,
            s.time_series is None,
            s.validator is None,
            s.validation_action is None,
            s.validation_level is None,
    {
        MongoCollectionSpec {
            capped: None,
            change_stream_pre_and_post_images: None,
            clustered: None,
            collation: None,
            expire_after_seconds: None,
            indexes: None,
            max: None,
            name: None,
            size: None,
            time_series: None,
            validator: None,
            validation_action: None,
            validation_level: None,
        }
    }
}

} // verus!
