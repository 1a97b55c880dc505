//! Indexes: declared ones as the driver's descriptions, and the driver's
//! descriptions of observed ones as indexes of the resource.

use crate::driver;
use crate::field_map::has_name;
use crate::mapping::keys::{
    any_text, direction, document_keys, document_to_keys, entry_keys, fields_ascending,
    keys_document, keys_to_document, lemma_keys_document, lemma_keys_round_trip,
    lemma_text_keys_ascending, text_keys,
};
use crate::mapping::values::lemma_decoded_entries_ascending;
use crate::mapping::options::{
    lemma_options_round_trip_exact, model_to_options, options_model, options_of, options_to_model,
};
use crate::resource::{
    distinct_fields, Index, index_views, IndexView, KeyView, lemma_same_key_set_reflexive,
    same_key_set,
};
use crate::text::same_str;
use vstd::prelude::*;

verus! {

/// The driver's description of an index of the resource.
pub open spec fn index_model(index: IndexView) -> driver::IndexModelView {
    driver::IndexModelView {
        keys: keys_document(index.keys, index.keys.len() as int),
        options: match index.options {
            Some(o) => Some(options_model(o)),
            None => None,
        },
    }
}

/// The index of the resource for the driver's description of one.
pub open spec fn index_of(model: driver::IndexModelView) -> IndexView {
    let options = match model.options {
        Some(o) => Some(options_of(o)),
        None => None,
    };
    IndexView { keys: document_keys(model.keys, options), options }
}

pub fn index_to_model(index: &Index) -> (r: driver::IndexModel)
    ensures
        r@ == index_model(index@),
{
    driver::IndexModel {
        keys: keys_to_document(index.keys.as_slice()),
        options: match &index.options {
            Some(o) => Some(options_to_model(o)),
            None => None,
        },
    }
}

pub fn index_model_to_index(index_model: &driver::IndexModel) -> (r: Index)
    ensures
        r@ == index_of(index_model@),
{
    let options = match &index_model.options {
        Some(o) => Some(model_to_options(o)),
        None => None,
    };
    Index { keys: document_to_keys(&index_model.keys, options.as_ref()), options }
}

/// The name that the database gives to the index on `_id`.
pub open spec fn clustered_name() -> Seq<char> {
    "_id_"@
}

/// Whether an index is any other than the one on `_id`, which is known by
/// its name.
pub open spec fn not_clustered(index: IndexView) -> bool {
    index.name() != Some(clustered_name())
}

pub fn is_not_clustered(index: &Index) -> (r: bool)
    ensures
        r == not_clustered(index@),
{
    match &index.options {
        Some(o) => match &o.name {
            Some(n) => !same_str(n.as_str(), "_id_"),
            None => true,
        },
        None => true,
    }
}

/// The name of an index, or the empty string where it has none.
pub fn index_name(index: &Index) -> (r: String)
    ensures
        r@ == match index@.name() {
            Some(n) => n,
            None => Seq::<char>::empty(),
        },
{
    match &index.options {
        Some(o) => match &o.name {
            Some(n) => n.clone(),
            None => String::new(),
        },
        None => String::new(),
    }
}

/// The indexes that the first `n` of the driver's descriptions stand for,
/// without the index on `_id`.
pub open spec fn observed_indexes(models: Seq<driver::IndexModelView>, n: int) -> Seq<IndexView>
    decreases n,
{
    if n <= 0 {
        Seq::empty()
    } else if not_clustered(index_of(models[n - 1])) {
        observed_indexes(models, n - 1).push(index_of(models[n - 1]))
    } else {
        observed_indexes(models, n - 1)
    }
}

/// The views of a list of the driver's descriptions.
pub open spec fn model_views(models: Seq<driver::IndexModel>) -> Seq<driver::IndexModelView> {
    Seq::new(models.len(), |i: int| models[i]@)
}

pub fn index_models_to_indexes(index_models: &[driver::IndexModel]) -> (r: Vec<Index>)
    ensures
        index_views(r@) == observed_indexes(model_views(index_models@), index_models@.len() as int),
{
    let mut out: Vec<Index> = Vec::new();
    let mut i: usize = 0;
    while i < index_models.len()
        invariant
            i <= index_models@.len(),
            index_views(out@) == observed_indexes(model_views(index_models@), i as int),
        decreases index_models@.len() - i,
    {
        let ghost before = out@;
        let index = index_model_to_index(&index_models[i]);
        if is_not_clustered(&index) {
            out.push(index);
            assert(index_views(out@) =~= index_views(before).push(index@));
        }
        i += 1;
    }
    out
}

/// Handing an index to the driver and reading it back gives an equivalent
/// index. This holds of an index with valid options whose keys are well
/// formed and name each field once; where it has a text key and weights,
/// the weighted fields must be its keys, since the keys of a text index
/// are read back from the weights.
pub proof fn lemma_index_round_trip(index: IndexView)
    requires
        index.valid(),
        distinct_fields(index.keys),
        forall|i: int| 0 <= i < index.keys.len() ==> (#[trigger] index.keys[i]).well_formed(),
        index.options matches Some(o) ==> (any_text(index.keys) && o.weights is Some
            ==> same_key_set(text_keys(o.weights->0), index.keys)),
    ensures
        index_of(index_model(index)).equivalent(index),
{
    let model = index_model(index);
    let back = index_of(model);
    lemma_keys_round_trip(index.keys, index.keys.len() as int);
    assert(index.keys.subrange(0, index.keys.len() as int) =~= index.keys);
    lemma_same_key_set_reflexive(index.keys);
    let raw = entry_keys(model.keys, model.keys.len() as int);
    lemma_keys_document(index.keys, index.keys.len() as int);
    assert(raw == index.keys);
    match index.options {
        Some(o) => {
            lemma_options_round_trip_exact(o);
            o.lemma_equivalent_reflexive();
            assert(model.options == Some(options_model(o)));
            assert(back.options == Some(o));
            assert(back.keys == document_keys(model.keys, Some(o)));
            if any_text(index.keys) && o.weights is Some {
                assert(back.keys == text_keys(o.weights->0));
            } else {
                assert(back.keys == index.keys);
            }
        },
        None => {
            assert(back.options is None);
            assert(back.keys == index.keys);
        },
    }
}

/// The keys of a text index are read back from its weights. Where the
/// database reports some text key and weights that give an integer to
/// exactly the declared fields, the keys read back are the declared text
/// keys, in ascending order of their fields.
pub proof fn lemma_text_keys_recovered(declared: Seq<KeyView>, model: driver::IndexModelView)
    requires
        model.options is Some,
        model.options->0.weights is Some,
        any_text(entry_keys(model.keys, model.keys.len() as int)),
        forall|i: int|
            0 <= i < declared.len() ==> (#[trigger] declared[i]).is_text() && declared[i].direction
                is None,
        options_of(model.options->0).weights->0.len() == declared.len(),
        forall|i: int|
            0 <= i < declared.len() ==> has_name(
                options_of(model.options->0).weights->0,
                (#[trigger] declared[i]).field,
            ),
    ensures
        index_of(model).keys == text_keys(options_of(model.options->0).weights->0),
        same_key_set(declared, index_of(model).keys),
        fields_ascending(index_of(model).keys),
{
    let document = model.options->0.weights->0;
    lemma_decoded_entries_ascending::<u32>(document, document.len() as int);
    lemma_text_keys_ascending(options_of(model.options->0).weights->0);
    let weights = options_of(model.options->0).weights->0;
    let recovered = text_keys(weights);
    assert forall|i: int| 0 <= i < declared.len() implies recovered.contains(
        #[trigger] declared[i],
    ) by {
        let j = choose|j: int|
            0 <= j < weights.len() && (#[trigger] weights[j]).0 == declared[i].field;
        assert(recovered[j] == declared[i]);
    }
}

} // verus!
