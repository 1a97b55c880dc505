//! Weights and wildcard projections: maps in the resource, documents in
//! the driver.

use crate::driver::{
    Bson, BsonView, document_entries, document_entry, document_insert, document_len, document_new,
};
use crate::field_map::{
    ascending, distinct_names, Entries, FieldMap, FieldValue, has_name, lemma_ascending_distinct,
    lemma_placed_last, placed, with_entry,
};
use crate::resource::WildcardProjection;
use mongodb::bson::Document;
use vstd::prelude::*;

verus! {

/// Two to the power 32.
pub const TWO_TO_32: i64 = 0x1_0000_0000;

/// The low 32 bits of an integer, read as an unsigned number.
pub open spec fn low_32_bits(v: int) -> u32 {
    (v % 0x1_0000_0000) as u32
}

/// A weight is written as a 32-bit integer where it fits in one, else as a
/// 64-bit integer.
pub open spec fn weight_bson(w: u32) -> BsonView {
    if w <= i32::MAX {
        BsonView::Int32(w as i32)
    } else {
        BsonView::Int64(w as i64)
    }
}

/// Only integers are weights.
pub open spec fn bson_is_weight(b: BsonView) -> bool {
    b is Int32 || b is Int64
}

/// The weight that a value stands for: the low 32 bits of an integer, zero
/// for anything else.
pub open spec fn bson_weight(b: BsonView) -> u32 {
    match b {
        BsonView::Int32(v) => low_32_bits(v as int),
        BsonView::Int64(v) => low_32_bits(v as int),
        _ => 0,
    }
}

pub open spec fn projection_bson(w: WildcardProjection) -> BsonView {
    match w {
        WildcardProjection::Exclude => BsonView::Int32(0),
        WildcardProjection::Include => BsonView::Int32(1),
    }
}

/// Only the integers 0 and 1 are wildcard projections.
pub open spec fn bson_is_projection(b: BsonView) -> bool {
    match b {
        BsonView::Int32(v) => v == 0 || v == 1,
        BsonView::Int64(v) => v == 0 || v == 1,
        _ => false,
    }
}

/// One includes, every other number excludes.
pub open spec fn projection_of(v: u32) -> WildcardProjection {
    if v == 1 {
        WildcardProjection::Include
    } else {
        WildcardProjection::Exclude
    }
}

/// The projection that a value stands for, by the low 32 bits of an
/// integer; anything else excludes.
pub open spec fn bson_projection(b: BsonView) -> WildcardProjection {
    match b {
        BsonView::Int32(v) => projection_of(low_32_bits(v as int)),
        BsonView::Int64(v) => projection_of(low_32_bits(v as int)),
        _ => WildcardProjection::Exclude,
    }
}

/// The low 32 bits of a 64-bit integer.
pub fn low_bits(v: i64) -> (r: u32)
    ensures
        r == low_32_bits(v as int),
{
    if v >= 0 {
        let r: i64 = v % TWO_TO_32;
        r as u32
    } else {
        // -(v + 1) is in 0 ..= i64::MAX
        let m: i64 = (-(v + 1)) % TWO_TO_32;
        let r: i64 = TWO_TO_32 - 1 - m;
        assert(r == (v as int) % 0x1_0000_0000) by {
            let q = (-(v + 1)) / 0x1_0000_0000;
            assert(-(v + 1) == q * 0x1_0000_0000 + m);
            assert(v as int == (-q - 1) * 0x1_0000_0000 + r);
            vstd::arithmetic::div_mod::lemma_fundamental_div_mod_converse(
                v as int,
                0x1_0000_0000,
                -q - 1,
                r as int,
            );
        }
        r as u32
    }
}

pub fn weight_to_bson(w: u32) -> (b: Bson)
    ensures
        b@ == weight_bson(w),
{
    if w <= 0x7fff_ffff {
        Bson::Int32(w as i32)
    } else {
        Bson::Int64(w as i64)
    }
}

pub fn is_weight(value: &Bson) -> (r: bool)
    ensures
        r == bson_is_weight(value@),
{
    match value {
        Bson::Int32(_) => true,
        Bson::Int64(_) => true,
        _ => false,
    }
}

pub fn bson_to_weight(bson: &Bson) -> (r: u32)
    ensures
        r == bson_weight(bson@),
{
    match bson {
        Bson::Int32(v) => low_bits(*v as i64),
        Bson::Int64(v) => low_bits(*v),
        _ => 0,
    }
}

pub fn wildcard_projection_to_bson(w: &WildcardProjection) -> (b: Bson)
    ensures
        b@ == projection_bson(*w),
{
    match w {
        WildcardProjection::Exclude => Bson::Int32(0),
        WildcardProjection::Include => Bson::Int32(1),
    }
}

pub fn is_wildcard_projection(value: &Bson) -> (r: bool)
    ensures
        r == bson_is_projection(value@),
{
    match value {
        Bson::Int32(v) => *v == 0 || *v == 1,
        Bson::Int64(v) => *v == 0 || *v == 1,
        _ => false,
    }
}

pub fn value_to_wildcard_projection(v: u32) -> (r: WildcardProjection)
    ensures
        r == projection_of(v),
{
    if v == 1 {
        WildcardProjection::Include
    } else {
        WildcardProjection::Exclude
    }
}

pub fn bson_to_wildcard_projection(bson: &Bson) -> (r: WildcardProjection)
    ensures
        r == bson_projection(bson@),
{
    match bson {
        Bson::Int32(v) => value_to_wildcard_projection(low_bits(*v as i64)),
        Bson::Int64(v) => value_to_wildcard_projection(low_bits(*v)),
        _ => WildcardProjection::Exclude,
    }
}

/// A weight comes back from the document as it went in.
pub proof fn lemma_weight_round_trip(w: u32)
    ensures
        bson_is_weight(weight_bson(w)),
        bson_weight(weight_bson(w)) == w,
{
    assert((w as int) % 0x1_0000_0000 == w);
}

/// A wildcard projection comes back from the document as it went in.
pub proof fn lemma_projection_round_trip(w: WildcardProjection)
    ensures
        bson_is_projection(projection_bson(w)),
        bson_projection(projection_bson(w)) == w,
{
    assert(0int % 0x1_0000_0000 == 0);
    assert(1int % 0x1_0000_0000 == 1);
}

/// Values that a map hands to a document.
pub trait ToBson: FieldValue {
    /// What a value is written as.
    spec fn encoded(v: Self::Model) -> BsonView;

    fn encode(&self) -> (b: Bson)
        ensures
            b@ == Self::encoded(self.model()),
            !(b is Other),
    ;
}

/// Values that a map takes from a document.
pub trait FromBson: FieldValue {
    /// Which values of a document are taken; the others are left out.
    spec fn accepted(b: BsonView) -> bool;

    /// What a value of a document is read as.
    spec fn decoded(b: BsonView) -> Self::Model;

    fn accepts(b: &Bson) -> (r: bool)
        ensures
            r == Self::accepted(b@),
    ;

    fn decode(b: &Bson) -> (r: Self)
        ensures
            r.model() == Self::decoded(b@),
    ;
}

impl ToBson for u32 {
    open spec fn encoded(v: u32) -> BsonView {
        weight_bson(v)
    }

    fn encode(&self) -> (b: Bson) {
        weight_to_bson(*self)
    }
}

impl FromBson for u32 {
    open spec fn accepted(b: BsonView) -> bool {
        bson_is_weight(b)
    }

    open spec fn decoded(b: BsonView) -> u32 {
        bson_weight(b)
    }

    fn accepts(b: &Bson) -> (r: bool) {
        is_weight(b)
    }

    fn decode(b: &Bson) -> (r: u32) {
        bson_to_weight(b)
    }
}

impl ToBson for WildcardProjection {
    open spec fn encoded(v: WildcardProjection) -> BsonView {
        projection_bson(v)
    }

    fn encode(&self) -> (b: Bson) {
        wildcard_projection_to_bson(self)
    }
}

impl FromBson for WildcardProjection {
    open spec fn accepted(b: BsonView) -> bool {
        bson_is_projection(b)
    }

    open spec fn decoded(b: BsonView) -> WildcardProjection {
        bson_projection(b)
    }

    fn accepts(b: &Bson) -> (r: bool) {
        is_wildcard_projection(b)
    }

    fn decode(b: &Bson) -> (r: WildcardProjection) {
        bson_to_wildcard_projection(b)
    }
}

/// The document of the first `n` entries of a map: each entry is set in
/// turn, under its name, to what its value is written as.
pub open spec fn encoded_entries<T: ToBson>(map: Entries<T::Model>, n: int) -> Entries<BsonView>
    decreases n,
{
    if n <= 0 {
        Seq::empty()
    } else {
        with_entry(encoded_entries::<T>(map, n - 1), map[n - 1].0, T::encoded(map[n - 1].1))
    }
}

/// The map of the first `n` entries of a document: each accepted entry is
/// set in turn, under its name, to what its value is read as. The map
/// holds its entries in ascending order of their names.
pub open spec fn decoded_entries<T: FromBson>(document: Entries<BsonView>, n: int) -> Entries<
    T::Model,
>
    decreases n,
{
    if n <= 0 {
        Seq::empty()
    } else if T::accepted(document[n - 1].1) {
        placed(
            decoded_entries::<T>(document, n - 1),
            document[n - 1].0,
            T::decoded(document[n - 1].1),
        )
    } else {
        decoded_entries::<T>(document, n - 1)
    }
}

/// The predicate that takes every entry.
pub fn all_entries<T>(name: &String, value: &T) -> (r: bool)
    ensures
        r,
{
    true
}

/// The document of a map: every entry, in the map's order, which is the
/// ascending order of the names.
pub fn map_to_document<T: ToBson>(map: &FieldMap<T>) -> (document: Document)
    ensures
        document_entries(document) == encoded_entries::<T>(map@, map@.len() as int),
{
    let mut document = document_new();
    let mut i: usize = 0;
    while i < map.len()
        invariant
            i <= map@.len(),
            document_entries(document) == encoded_entries::<T>(map@, i as int),
        decreases map@.len() - i,
    {
        if all_entries(map.name_at(i), map.value_at(i)) {
            document_insert(&mut document, map.name_at(i).clone(), map.value_at(i).encode());
        }
        i += 1;
    }
    document
}

/// The map of a document: the accepted entries, in the document's order.
pub fn document_to_map<T: FromBson>(document: &Document) -> (map: FieldMap<T>)
    ensures
        map@ == decoded_entries::<T>(
            document_entries(*document),
            document_entries(*document).len() as int,
        ),
        map.wf(),
{
    let n = document_len(document);
    let mut map: FieldMap<T> = FieldMap::new();
    let mut i: usize = 0;
    while i < n
        invariant
            i <= n,
            n == document_entries(*document).len(),
            map.wf(),
            map@ == decoded_entries::<T>(document_entries(*document), i as int),
        decreases n - i,
    {
        let (name, value) = document_entry(document, i);
        if T::accepts(&value) {
            map = map.with(name, T::decode(&value));
        }
        i += 1;
    }
    map
}

/// Each entry of a map with distinct names is written to its own entry of
/// the document, in the map's order.
pub proof fn lemma_encoded_entries<T: ToBson>(map: Entries<T::Model>, n: int)
    requires
        distinct_names(map),
        0 <= n <= map.len(),
    ensures
        encoded_entries::<T>(map, n).len() == n,
        forall|i: int|
            0 <= i < n ==> #[trigger] encoded_entries::<T>(map, n)[i] == (
                map[i].0,
                T::encoded(map[i].1),
            ),
    decreases n,
{
    if n > 0 {
        lemma_encoded_entries::<T>(map, n - 1);
        let rest = encoded_entries::<T>(map, n - 1);
        let name = map[n - 1].0;
        assert(!has_name(rest, name)) by {
            assert forall|i: int| 0 <= i < rest.len() implies (#[trigger] rest[i]).0 != name by {
                assert(rest[i].0 == map[i].0);
                assert(map[i].0 != map[n - 1].0);
            }
        }
    }
}

/// The map of a document holds its entries in ascending order of their
/// names, whatever the order of the document.
pub proof fn lemma_decoded_entries_ascending<T: FromBson>(document: Entries<BsonView>, n: int)
    ensures
        ascending(decoded_entries::<T>(document, n)),
    decreases n,
{
    if n > 0 {
        lemma_decoded_entries_ascending::<T>(document, n - 1);
        if T::accepted(document[n - 1].1) {
            crate::field_map::lemma_placed_ascending(
                decoded_entries::<T>(document, n - 1),
                document[n - 1].0,
                T::decoded(document[n - 1].1),
            );
        }
    }
}

/// An ordered map comes back from its document as it went in, where each
/// value does.
pub proof fn lemma_entries_round_trip<T: ToBson + FromBson>(map: Entries<T::Model>, n: int)
    requires
        ascending(map),
        0 <= n <= map.len(),
        forall|v: T::Model|
            T::accepted(#[trigger] T::encoded(v)) && T::decoded(T::encoded(v)) == v,
    ensures
        decoded_entries::<T>(encoded_entries::<T>(map, map.len() as int), n) == map.subrange(0, n),
    decreases n,
{
    let document = encoded_entries::<T>(map, map.len() as int);
    lemma_ascending_distinct(map);
    lemma_encoded_entries::<T>(map, map.len() as int);
    if n > 0 {
        lemma_entries_round_trip::<T>(map, n - 1);
        let rest = decoded_entries::<T>(document, n - 1);
        assert(document[n - 1] == (map[n - 1].0, T::encoded(map[n - 1].1)));
        let name = map[n - 1].0;
        assert(ascending(rest)) by {
            assert forall|i: int, j: int| 0 <= i < j < rest.len() implies crate::order::name_less(
                (#[trigger] rest[i]).0,
                (#[trigger] rest[j]).0,
            ) by {
                assert(rest[i] == map[i] && rest[j] == map[j]);
            }
        }
        assert forall|k: int| 0 <= k < rest.len() implies crate::order::name_less(
            (#[trigger] rest[k]).0,
            name,
        ) by {
            assert(rest[k] == map[k]);
        }
        lemma_placed_last(rest, name, map[n - 1].1);
        assert(T::accepted(T::encoded(map[n - 1].1)));
        assert(decoded_entries::<T>(document, n) =~= map.subrange(0, n));
    } else {
        assert(decoded_entries::<T>(document, n) =~= map.subrange(0, n));
    }
}

} // verus!
