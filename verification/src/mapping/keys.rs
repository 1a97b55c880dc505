//! Keys: the list of keys of an index and the driver's document of keys.

use crate::driver::{
    Bson, BsonView, document_entries, document_entry, document_insert, document_len, document_new,
};
use crate::field_map::{ascending, Entries, has_name, with_entry};
use crate::order::name_less;
use crate::resource::{
    Direction, distinct_fields, IndexType, Key, key_view, key_views, KeyView, Options, OptionsView,
};
use crate::text::same_str;
use mongodb::bson::Document;
use vstd::prelude::*;
use vstd::string::StringExecFns;

verus! {

/// The direction that a number stands for.
pub open spec fn direction_of(v: i32) -> Option<Direction> {
    if v == -1 {
        Some(Direction::Descending)
    } else if v == 1 {
        Some(Direction::Ascending)
    } else {
        None
    }
}

/// The name under which the database knows an index type.
pub open spec fn index_type_name(t: IndexType) -> Seq<char> {
    match t {
        IndexType::Hashed => "hashed"@,
        IndexType::Text => "text"@,
        IndexType::TwoDimensional => "2d"@,
        IndexType::TwoDimensionalSphere => "2dsphere"@,
    }
}

/// The index type of a name.
pub open spec fn index_type_of(v: Seq<char>) -> Option<IndexType> {
    if v == "hashed"@ {
        Some(IndexType::Hashed)
    } else if v == "text"@ {
        Some(IndexType::Text)
    } else if v == "2d"@ {
        Some(IndexType::TwoDimensional)
    } else if v == "2dsphere"@ {
        Some(IndexType::TwoDimensionalSphere)
    } else {
        None
    }
}

/// The four names are different, so each index type comes back from its
/// name.
pub proof fn lemma_index_type_round_trip(t: IndexType)
    ensures
        index_type_of(index_type_name(t)) == Some(t),
{
    reveal_strlit("hashed");
    reveal_strlit("text");
    reveal_strlit("2d");
    reveal_strlit("2dsphere");
    assert("hashed"@.len() == 6);
    assert("text"@.len() == 4);
    assert("2d"@.len() == 2);
    assert("2dsphere"@.len() == 8);
}

pub fn direction(v: i32) -> (r: Option<Direction>)
    ensures
        r == direction_of(v),
{
    if v == -1 {
        Some(Direction::Descending)
    } else if v == 1 {
        Some(Direction::Ascending)
    } else {
        None
    }
}

pub fn index_type(v: &str) -> (r: Option<IndexType>)
    ensures
        r == index_type_of(v@),
{
    if same_str(v, "hashed") {
        Some(IndexType::Hashed)
    } else if same_str(v, "text") {
        Some(IndexType::Text)
    } else if same_str(v, "2d") {
        Some(IndexType::TwoDimensional)
    } else if same_str(v, "2dsphere") {
        Some(IndexType::TwoDimensionalSphere)
    } else {
        None
    }
}

/// What a key is written as in a document of keys: 1 or -1 for a
/// direction, which goes first; else the name of the index type; null for a
/// key with neither.
pub open spec fn key_bson(key: KeyView) -> BsonView {
    match key.direction {
        Some(Direction::Ascending) => BsonView::Int32(1),
        Some(Direction::Descending) => BsonView::Int32(-1i32),
        None => match key.index_type {
            Some(t) => BsonView::String(index_type_name(t)),
            None => BsonView::Null,
        },
    }
}

/// The key that an entry of a document of keys stands for: a 32-bit
/// integer gives a direction, a string an index type; other values give no
/// key.
pub open spec fn entry_key(field: Seq<char>, value: BsonView) -> Option<KeyView> {
    match value {
        BsonView::Int32(v) => Some(KeyView { direction: direction_of(v), field, index_type: None }),
        BsonView::String(v) => Some(
            KeyView { direction: None, field, index_type: index_type_of(v) },
        ),
        _ => None,
    }
}

pub fn key_to_bson(key: &Key) -> (r: Bson)
    ensures
        r@ == key_bson(key@),
        !(r is Other),
{
    match key.direction {
        Some(Direction::Ascending) => Bson::Int32(1),
        Some(Direction::Descending) => Bson::Int32(-1),
        None => match key.index_type {
            Some(IndexType::Hashed) => Bson::String(String::from_str("hashed")),
            Some(IndexType::Text) => Bson::String(String::from_str("text")),
            Some(IndexType::TwoDimensional) => Bson::String(String::from_str("2d")),
            Some(IndexType::TwoDimensionalSphere) => Bson::String(String::from_str("2dsphere")),
            None => Bson::Null,
        },
    }
}

pub fn bson_entry_to_key(field: &String, value: &Bson) -> (r: Option<Key>)
    ensures
        key_view(r) == entry_key(field@, value@),
{
    match value {
        Bson::Int32(v) => Some(
            Key { field: field.clone(), direction: direction(*v), index_type: None },
        ),
        Bson::String(v) => Some(
            Key { field: field.clone(), direction: None, index_type: index_type(v.as_str()) },
        ),
        _ => None,
    }
}

pub fn invalid_key(key: &Key) -> (r: bool)
    ensures
        r == key@.is_invalid(),
{
    key.direction.is_some() && key.index_type.is_some()
}

pub fn is_text_index(key: &Key) -> (r: bool)
    ensures
        r == key@.is_text(),
{
    match key.index_type {
        Some(IndexType::Text) => true,
        _ => false,
    }
}

/// Whether some key is a text key.
pub open spec fn any_text(keys: Seq<KeyView>) -> bool {
    exists|i: int| 0 <= i < keys.len() && (#[trigger] keys[i]).is_text()
}

pub fn any_text_index(s: &[Key]) -> (r: bool)
    ensures
        r == any_text(key_views(s@)),
{
    let mut i: usize = 0;
    while i < s.len()
        invariant
            i <= s.len(),
            forall|k: int| 0 <= k < i ==> !(#[trigger] key_views(s@)[k]).is_text(),
        decreases s.len() - i,
    {
        if is_text_index(&s[i]) {
            assert(key_views(s@)[i as int].is_text());
            return true;
        }
        i += 1;
    }
    false
}

/// The document of the first `n` keys: each key is set in turn, under its
/// field, to what it is written as. A field that occurs again keeps its
/// place and takes the later key.
pub open spec fn keys_document(keys: Seq<KeyView>, n: int) -> Entries<BsonView>
    decreases n,
{
    if n <= 0 {
        Seq::empty()
    } else {
        with_entry(keys_document(keys, n - 1), keys[n - 1].field, key_bson(keys[n - 1]))
    }
}

pub fn keys_to_document(keys: &[Key]) -> (document: Document)
    ensures
        document_entries(document) == keys_document(key_views(keys@), keys@.len() as int),
{
    let mut document = document_new();
    let mut i: usize = 0;
    while i < keys.len()
        invariant
            i <= keys@.len(),
            document_entries(document) == keys_document(key_views(keys@), i as int),
        decreases keys@.len() - i,
    {
        document_insert(&mut document, keys[i].field.clone(), key_to_bson(&keys[i]));
        i += 1;
    }
    document
}

/// The keys that the first `n` entries of a document of keys stand for, in
/// the document's order.
pub open spec fn entry_keys(document: Entries<BsonView>, n: int) -> Seq<KeyView>
    decreases n,
{
    if n <= 0 {
        Seq::empty()
    } else {
        match entry_key(document[n - 1].0, document[n - 1].1) {
            Some(k) => entry_keys(document, n - 1).push(k),
            None => entry_keys(document, n - 1),
        }
    }
}

/// The fields go up from key to key, as the standard library orders
/// strings.
pub open spec fn fields_ascending(keys: Seq<KeyView>) -> bool {
    forall|i: int, j: int|
        0 <= i < j < keys.len() ==> name_less(
            (#[trigger] keys[i]).field,
            (#[trigger] keys[j]).field,
        )
}

/// A text key for each weighted field, in the order of the weights, which
/// is the ascending order of the fields.
pub open spec fn text_keys(weights: Entries<u32>) -> Seq<KeyView> {
    Seq::new(
        weights.len(),
        |i: int|
            KeyView { direction: None, field: weights[i].0, index_type: Some(IndexType::Text) },
    )
}

/// The keys of an observed index. The database reports a text index with
/// made-up keys; where some key is a text key and the options have
/// weights, the keys are a text key for each weighted field, in ascending
/// order of the fields. Else they are the keys that the document's entries
/// stand for.
pub open spec fn document_keys(document: Entries<BsonView>, options: Option<OptionsView>) -> Seq<
    KeyView,
> {
    let raw = entry_keys(document, document.len() as int);
    match options {
        Some(o) => if any_text(raw) && o.weights is Some {
            text_keys(o.weights->0)
        } else {
            raw
        },
        None => raw,
    }
}

/// The text keys of weights that are ordered by name go up by their
/// fields.
pub proof fn lemma_text_keys_ascending(weights: Entries<u32>)
    requires
        ascending(weights),
    ensures
        fields_ascending(text_keys(weights)),
{
    assert forall|i: int, j: int| 0 <= i < j < text_keys(weights).len() implies name_less(
        (#[trigger] text_keys(weights)[i]).field,
        (#[trigger] text_keys(weights)[j]).field,
    ) by {
        assert(name_less(weights[i].0, weights[j].0));
    }
}

/// The keys of a text index as its weights give them: a text key for each
/// weighted field, in ascending order of the fields.
pub fn text_index_keys(options: &Options) -> (r: Option<Vec<Key>>)
    ensures
        r is Some == options@.weights is Some,
        r matches Some(keys) ==> key_views(keys@) == text_keys(options@.weights->0)
            && fields_ascending(key_views(keys@)),
{
    match &options.weights {
        Some(w) => {
            proof {
                use_type_invariant(w);
                w.lemma_ascending();
                lemma_text_keys_ascending(w@);
            }
            let mut keys: Vec<Key> = Vec::new();
            let mut i: usize = 0;
            while i < w.len()
                invariant
                    i <= w@.len(),
                    keys@.len() == i,
                    forall|k: int| 0 <= k < i ==> (#[trigger] keys[k])@ == text_keys(w@)[k],
                decreases w@.len() - i,
            {
                keys.push(
                    Key {
                        direction: None,
                        index_type: Some(IndexType::Text),
                        field: w.name_at(i).clone(),
                    },
                );
                i += 1;
            }
            assert(key_views(keys@) =~= text_keys(w@));
            Some(keys)
        },
        None => None,
    }
}

pub fn document_to_keys(keys: &Document, options: Option<&Options>) -> (r: Vec<Key>)
    ensures
        key_views(r@) == document_keys(
            document_entries(*keys),
            match options {
                Some(o) => Some(o@),
                None => None,
            },
        ),
        options matches Some(o) && o@.weights is Some && any_text(
            entry_keys(document_entries(*keys), document_entries(*keys).len() as int),
        ) ==> fields_ascending(key_views(r@)),
{
    let n = document_len(keys);
    let mut raw: Vec<Key> = Vec::new();
    let mut i: usize = 0;
    while i < n
        invariant
            i <= n,
            n == document_entries(*keys).len(),
            key_views(raw@) == entry_keys(document_entries(*keys), i as int),
        decreases n - i,
    {
        let ghost before = raw@;
        let (field, value) = document_entry(keys, i);
        match bson_entry_to_key(&field, &value) {
            Some(k) => {
                raw.push(k);
                assert(key_views(raw@) =~= key_views(before).push(k@));
            },
            None => {},
        }
        i += 1;
    }
    match options {
        Some(o) => {
            if any_text_index(raw.as_slice()) {
                match text_index_keys(o) {
                    Some(recovered) => recovered,
                    None => raw,
                }
            } else {
                raw
            }
        },
        None => raw,
    }
}

/// A key with exactly one of a direction and an index type comes back from
/// its entry in the document of keys.
pub proof fn lemma_key_round_trip(key: KeyView)
    requires
        key.well_formed(),
    ensures
        entry_key(key.field, key_bson(key)) == Some(key),
{
    if let Some(t) = key.index_type {
        lemma_index_type_round_trip(t);
    }
}

/// Keys on distinct fields are each written to their own entry of the
/// document of keys, in their order.
pub proof fn lemma_keys_document(keys: Seq<KeyView>, n: int)
    requires
        distinct_fields(keys),
        0 <= n <= keys.len(),
    ensures
        keys_document(keys, n).len() == n,
        forall|i: int|
            0 <= i < n ==> #[trigger] keys_document(keys, n)[i] == (
                keys[i].field,
                key_bson(keys[i]),
            ),
    decreases n,
{
    if n > 0 {
        lemma_keys_document(keys, n - 1);
        let rest = keys_document(keys, n - 1);
        let name = keys[n - 1].field;
        assert(!has_name(rest, name)) by {
            assert forall|i: int| 0 <= i < rest.len() implies (#[trigger] rest[i]).0 != name by {
                assert(rest[i].0 == keys[i].field);
                assert(keys[i].field != keys[n - 1].field);
            }
        }
    }
}

/// Well-formed keys on distinct fields come back from their document as
/// they went in.
pub proof fn lemma_keys_round_trip(keys: Seq<KeyView>, n: int)
    requires
        distinct_fields(keys),
        forall|i: int| 0 <= i < keys.len() ==> (#[trigger] keys[i]).well_formed(),
        0 <= n <= keys.len(),
    ensures
        entry_keys(keys_document(keys, keys.len() as int), n) == keys.subrange(0, n),
    decreases n,
{
    let document = keys_document(keys, keys.len() as int);
    lemma_keys_document(keys, keys.len() as int);
    if n > 0 {
        lemma_keys_round_trip(keys, n - 1);
        assert(document[n - 1] == (keys[n - 1].field, key_bson(keys[n - 1])));
        assert(keys[n - 1].well_formed());
        lemma_key_round_trip(keys[n - 1]);
        assert(entry_keys(document, n) =~= keys.subrange(0, n));
    } else {
        assert(entry_keys(document, n) =~= keys.subrange(0, n));
    }
}

} // verus!
