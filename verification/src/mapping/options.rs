//! Index options: the resource's block and the driver's, each as the other.

use crate::driver;
use crate::mapping::filters::{filter_to_map, json_members};
use crate::field_map::{ascending, lemma_ascending_distinct};
use crate::mapping::collation::{
    collation_model, collation_of, collation_to_model, lemma_collation_round_trip,
    model_to_collation,
};
use crate::mapping::values::{
    decoded_entries, document_to_map, encoded_entries, FromBson, lemma_encoded_entries,
    lemma_entries_round_trip, lemma_projection_round_trip, lemma_weight_round_trip,
    map_to_document, ToBson,
};
use crate::mapping::versions::{
    lemma_version_round_trip, number_to_sphere_index_version, number_to_text_index_version,
    sphere_index_version_to_number, sphere_number, sphere_version, text_index_version_to_number,
    text_number, text_version,
};
use crate::resource::{default_language, Options, OptionsView, WildcardProjection};
use crate::text::copy_text;
use vstd::prelude::*;

verus! {

/// The driver's options for the options of the resource. Every field is
/// handed over: the collation in full, the index versions as the driver's
/// versions, the weights and the wildcard projection as documents.
pub open spec fn options_model(o: OptionsView) -> driver::IndexOptionsView {
    driver::IndexOptionsView {
        expire_after: o.expire_after_seconds,
        name: o.name,
        sparse: o.sparse,
        unique: o.unique,
        default_language: o.default_language,
        language_override: o.language_override,
        text_index_version: match o.text_index_version {
            Some(v) => Some(text_version(v)),
            None => None,
        },
        weights: match o.weights {
            Some(w) => Some(encoded_entries::<u32>(w, w.len() as int)),
            None => None,
        },
        sphere_2d_index_version: match o.sphere_index_version {
            Some(v) => Some(sphere_version(v)),
            None => None,
        },
        bits: o.bits,
        max: o.max,
        min: o.min,
        partial_filter_expression: match o.partial_filter_expression {
            Some(m) => Some(driver::PartialFilterView::Declared(m)),
            None => None,
        },
        collation: match o.collation {
            Some(c) => Some(collation_model(c)),
            None => None,
        },
        wildcard_projection: match o.wildcard_projection {
            Some(w) => Some(encoded_entries::<WildcardProjection>(w, w.len() as int)),
            None => None,
        },
        hidden: o.hidden,
    }
}

/// The options of the resource for the driver's options. The weights keep
/// the integer entries of their document, the wildcard projection the
/// entries that are 0 or 1, and a reported partial filter expression every
/// entry, with its value as JSON.
pub open spec fn options_of(m: driver::IndexOptionsView) -> OptionsView {
    OptionsView {
        bits: m.bits,
        collation: match m.collation {
            Some(c) => Some(collation_of(c)),
            None => None,
        },
        default_language: m.default_language,
        expire_after_seconds: m.expire_after,
        hidden: m.hidden,
        language_override: m.language_override,
        max: m.max,
        min: m.min,
        name: m.name,
        partial_filter_expression: match m.partial_filter_expression {
            Some(driver::PartialFilterView::Declared(f)) => Some(f),
            Some(driver::PartialFilterView::Reported(d)) => Some(
                json_members(d, d.len() as int),
            ),
            None => None,
        },
        sparse: m.sparse,
        sphere_index_version: match m.sphere_2d_index_version {
            Some(v) => Some(sphere_number(v)),
            None => None,
        },
        text_index_version: match m.text_index_version {
            Some(v) => Some(text_number(v)),
            None => None,
        },
        unique: m.unique,
        weights: match m.weights {
            Some(w) => Some(decoded_entries::<u32>(w, w.len() as int)),
            None => None,
        },
        wildcard_projection: match m.wildcard_projection {
            Some(w) => Some(decoded_entries::<WildcardProjection>(w, w.len() as int)),
            None => None,
        },
    }
}

/// The driver's options for the options of the resource.
pub fn options_to_model(options: &Options) -> (r: driver::IndexOptions)
    ensures
        r@ == options_model(options@),
{
    driver::IndexOptions {
        bits: options.bits,
        collation: match &options.collation {
            Some(c) => Some(collation_to_model(c)),
            None => None,
        },
        default_language: copy_text(&options.default_language),
        expire_after: options.expire_after_seconds,
        hidden: options.hidden,
        language_override: copy_text(&options.language_override),
        max: options.max,
        min: options.min,
        name: copy_text(&options.name),
        partial_filter_expression: match &options.partial_filter_expression {
            Some(m) => Some(driver::PartialFilter::Declared(m.duplicate())),
            None => None,
        },
        sparse: options.sparse,
        sphere_2d_index_version: match options.sphere_index_version {
            Some(v) => Some(number_to_sphere_index_version(v)),
            None => None,
        },
        text_index_version: match options.text_index_version {
            Some(v) => Some(number_to_text_index_version(v)),
            None => None,
        },
        unique: options.unique,
        weights: match &options.weights {
            Some(m) => Some(map_to_document(m)),
            None => None,
        },
        wildcard_projection: match &options.wildcard_projection {
            Some(m) => Some(map_to_document(m)),
            None => None,
        },
    }
}

/// The options of the resource for the driver's options.
pub fn model_to_options(options: &driver::IndexOptions) -> (r: Options)
    ensures
        r@ == options_of(options@),
{
    Options {
        bits: options.bits,
        collation: match &options.collation {
            Some(c) => Some(model_to_collation(c)),
            None => None,
        },
        default_language: copy_text(&options.default_language),
        expire_after_seconds: options.expire_after,
        hidden: options.hidden,
        language_override: copy_text(&options.language_override),
        max: options.max,
        min: options.min,
        name: copy_text(&options.name),
        partial_filter_expression: match &options.partial_filter_expression {
            Some(driver::PartialFilter::Declared(m)) => Some(m.duplicate()),
            Some(driver::PartialFilter::Reported(d)) => Some(filter_to_map(d)),
            None => None,
        },
        sparse: options.sparse,
        sphere_index_version: match options.sphere_2d_index_version {
            Some(v) => Some(sphere_index_version_to_number(v)),
            None => None,
        },
        text_index_version: match options.text_index_version {
            Some(v) => Some(text_index_version_to_number(v)),
            None => None,
        },
        unique: options.unique,
        weights: match &options.weights {
            Some(d) => Some(document_to_map(d)),
            None => None,
        },
        wildcard_projection: match &options.wildcard_projection {
            Some(d) => Some(document_to_map(d)),
            None => None,
        },
    }
}

/// The options that come back from the driver's options for a block are
/// the block itself, where its maps are ordered by name.
pub proof fn lemma_options_round_trip_exact(o: OptionsView)
    requires
        o.weights matches Some(m) ==> ascending(m),
        o.wildcard_projection matches Some(m) ==> ascending(m),
    ensures
        options_of(options_model(o)) == o,
{
    let back = options_of(options_model(o));
    if let Some(c) = o.collation {
        lemma_collation_round_trip(c);
    }
    if let Some(v) = o.sphere_index_version {
        lemma_version_round_trip(v);
    }
    if let Some(v) = o.text_index_version {
        lemma_version_round_trip(v);
    }
    if let Some(m) = o.weights {
        assert forall|v: u32|
            <u32 as FromBson>::accepted(#[trigger] <u32 as ToBson>::encoded(v)) && <u32 as
            FromBson>::decoded(<u32 as ToBson>::encoded(v)) == v by {
            lemma_weight_round_trip(v);
        }
        lemma_ascending_distinct(m);
        lemma_encoded_entries::<u32>(m, m.len() as int);
        lemma_entries_round_trip::<u32>(m, m.len() as int);
        assert(m.subrange(0, m.len() as int) =~= m);
    }
    if let Some(m) = o.wildcard_projection {
        assert forall|v: WildcardProjection|
            <WildcardProjection as FromBson>::accepted(
                #[trigger] <WildcardProjection as ToBson>::encoded(v),
            ) && <WildcardProjection as FromBson>::decoded(
                <WildcardProjection as ToBson>::encoded(v),
            ) == v by {
            lemma_projection_round_trip(v);
        }
        lemma_ascending_distinct(m);
        lemma_encoded_entries::<WildcardProjection>(m, m.len() as int);
        lemma_entries_round_trip::<WildcardProjection>(m, m.len() as int);
        assert(m.subrange(0, m.len() as int) =~= m);
    }
    assert(back.weights == o.weights);
    assert(back.wildcard_projection == o.wildcard_projection);
    assert(back.collation == o.collation);
}

/// Handing a valid option block to the driver and reading it back gives an
/// equivalent block.
pub proof fn lemma_options_round_trip(o: OptionsView)
    requires
        o.valid(),
    ensures
        options_of(options_model(o)).equivalent(o),
{
    lemma_options_round_trip_exact(o);
    o.lemma_equivalent_reflexive();
}

} // verus!
