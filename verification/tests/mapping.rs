use mongo_collections::collation::{
    Collation, CollationAlternate, CollationCaseFirst, CollationMaxVariable, CollationStrength,
};
use mongo_collections::double::Double;
use mongo_collections::driver::{
    Bson, FilterValue, PartialFilter, Sphere2DIndexVersion, TextIndexVersion,
};
use mongo_collections::driver;
use mongo_collections::field_map::FieldMap;
use mongo_collections::json::{JsonNumber, JsonValue};
use mongo_collections::mapping::collation::{
    collation_alternate_to_model, collation_case_first_to_model, collation_max_variable_to_model,
    collation_strength_to_model, collation_to_model, model_to_collation,
    model_to_collation_alternate, model_to_collation_case_first, model_to_collation_max_variable,
    model_to_collation_strength,
};
use mongo_collections::mapping::collections::{
    time_series, time_series_granularity, validation_action, validation_level,
};
use mongo_collections::mapping::filters::{
    bson_to_value, date_time_to_value, document_to_json_map, double_to_value, filter_to_map,
    integer_to_value, object_id_to_value,
};
use mongo_collections::mapping::indexes::{
    index_model_to_index, index_models_to_indexes, index_name, index_to_model, is_not_clustered,
};
use mongo_collections::mapping::keys::{
    any_text_index, bson_entry_to_key, direction, document_to_keys, index_type, invalid_key,
    is_text_index, key_to_bson, keys_to_document, text_index_keys,
};
use mongo_collections::mapping::options::{model_to_options, options_to_model};
use mongo_collections::mapping::values::{
    all_entries, bson_to_weight, bson_to_wildcard_projection, document_to_map, is_weight,
    is_wildcard_projection, low_bits, map_to_document, value_to_wildcard_projection,
    weight_to_bson, wildcard_projection_to_bson,
};
use mongo_collections::mapping::versions::{
    number_to_sphere_index_version, number_to_text_index_version, sphere_index_version_to_number,
    text_index_version_to_number,
};
use mongo_collections::resource::{
    Direction, Granularity, Index, IndexType, Key, Options, TimeSeries, ValidationAction,
    ValidationLevel, WildcardProjection,
};
use mongo_collections::text::{copy_map, copy_text, same_str};

fn asc(field: &str) -> Key {
    Key { direction: Some(Direction::Ascending), field: field.to_string(), index_type: None }
}

fn desc(field: &str) -> Key {
    Key { direction: Some(Direction::Descending), field: field.to_string(), index_type: None }
}

fn typed(field: &str, t: IndexType) -> Key {
    Key { direction: None, field: field.to_string(), index_type: Some(t) }
}

fn outside(value: Bson) -> mongodb::bson::Bson {
    match value {
        Bson::Int32(v) => mongodb::bson::Bson::Int32(v),
        Bson::Int64(v) => mongodb::bson::Bson::Int64(v),
        Bson::String(v) => mongodb::bson::Bson::String(v),
        Bson::Null => mongodb::bson::Bson::Null,
        Bson::Other => mongodb::bson::Bson::Boolean(true),
    }
}

fn document(entries: Vec<(&str, Bson)>) -> mongodb::bson::Document {
    let mut d = mongodb::bson::Document::new();
    for (k, v) in entries {
        d.insert(k, outside(v));
    }
    d
}

fn entries(d: &mongodb::bson::Document) -> Vec<(String, Bson)> {
    d.iter()
        .map(|(k, v)| {
            let v = match v {
                mongodb::bson::Bson::Int32(n) => Bson::Int32(*n),
                mongodb::bson::Bson::Int64(n) => Bson::Int64(*n),
                mongodb::bson::Bson::String(s) => Bson::String(s.clone()),
                mongodb::bson::Bson::Null => Bson::Null,
                _ => Bson::Other,
            };
            (k.clone(), v)
        })
        .collect()
}

fn is(b: &Bson, expected: &Bson) -> bool {
    b.same(expected)
}

fn no_options() -> driver::IndexOptions {
    options_to_model(&Options::new())
}

#[test]
fn strings_and_optional_values_are_copied() {
    assert!(same_str("a", "a"));
    assert!(!same_str("a", "b"));
    assert!(same_str("", ""));
    assert_eq!(copy_text(&Some("x".to_string())), Some("x".to_string()));
    assert_eq!(copy_text(&None), None);
    let m = Some(FieldMap::new().with("a".to_string(), 1u32));
    let c = copy_map(&m).unwrap();
    assert_eq!(c.len(), 1);
    assert_eq!(c.get(&"a".to_string()), Some(&1));
    assert!(copy_map::<u32>(&None).is_none());
}

#[test]
fn a_collation_is_handed_over_in_full() {
    let c = Collation {
        alternate: CollationAlternate::Shifted,
        backwards: true,
        case_first: CollationCaseFirst::Upper,
        case_level: false,
        locale: "nl".to_string(),
        max_variable: CollationMaxVariable::Space,
        normalization: true,
        numeric_ordering: false,
        strength: CollationStrength::Identical,
    };
    let m = collation_to_model(&c);
    assert_eq!(m.locale, "nl");
    assert_eq!(m.alternate, Some(driver::CollationAlternate::Shifted));
    assert_eq!(m.backwards, Some(true));
    assert_eq!(m.case_first, Some(driver::CollationCaseFirst::Upper));
    assert_eq!(m.case_level, Some(false));
    assert_eq!(m.max_variable, Some(driver::CollationMaxVariable::Space));
    assert_eq!(m.normalization, Some(true));
    assert_eq!(m.numeric_ordering, Some(false));
    assert_eq!(m.strength, Some(driver::CollationStrength::Identical));
    assert!(model_to_collation(&m).same(&c));
}

#[test]
fn each_collation_flag_is_read_from_its_own_field() {
    let m = driver::Collation {
        locale: "nl".to_string(),
        strength: None,
        case_level: Some(true),
        case_first: None,
        numeric_ordering: None,
        alternate: None,
        max_variable: None,
        normalization: Some(true),
        backwards: Some(false),
    };
    let c = model_to_collation(&m);
    assert!(c.case_level);
    assert!(c.normalization);
    assert!(!c.backwards);
    assert!(!c.numeric_ordering);
    let m = driver::Collation { numeric_ordering: Some(true), case_level: None, ..m };
    let c = model_to_collation(&m);
    assert!(c.numeric_ordering);
    assert!(!c.case_level);
}

#[test]
fn a_collation_that_the_driver_leaves_open_is_at_its_defaults() {
    let m = driver::Collation {
        locale: "fr".to_string(),
        strength: None,
        case_level: None,
        case_first: None,
        numeric_ordering: None,
        alternate: None,
        max_variable: None,
        normalization: None,
        backwards: None,
    };
    assert!(model_to_collation(&m).same(&Collation::new("fr".to_string())));
}

#[test]
fn collation_enums_are_mapped_both_ways() {
    assert_eq!(collation_alternate_to_model(CollationAlternate::NonIgnorable), driver::CollationAlternate::NonIgnorable);
    assert_eq!(collation_alternate_to_model(CollationAlternate::Shifted), driver::CollationAlternate::Shifted);
    assert_eq!(model_to_collation_alternate(Some(driver::CollationAlternate::Shifted)), CollationAlternate::Shifted);
    assert_eq!(model_to_collation_alternate(Some(driver::CollationAlternate::NonIgnorable)), CollationAlternate::NonIgnorable);
    assert_eq!(model_to_collation_alternate(None), CollationAlternate::NonIgnorable);
    assert_eq!(collation_case_first_to_model(CollationCaseFirst::Upper), driver::CollationCaseFirst::Upper);
    assert_eq!(collation_case_first_to_model(CollationCaseFirst::Lower), driver::CollationCaseFirst::Lower);
    assert_eq!(collation_case_first_to_model(CollationCaseFirst::Off), driver::CollationCaseFirst::Off);
    assert_eq!(model_to_collation_case_first(Some(driver::CollationCaseFirst::Upper)), CollationCaseFirst::Upper);
    assert_eq!(model_to_collation_case_first(Some(driver::CollationCaseFirst::Lower)), CollationCaseFirst::Lower);
    assert_eq!(model_to_collation_case_first(None), CollationCaseFirst::Off);
    assert_eq!(collation_max_variable_to_model(CollationMaxVariable::Punct), driver::CollationMaxVariable::Punct);
    assert_eq!(collation_max_variable_to_model(CollationMaxVariable::Space), driver::CollationMaxVariable::Space);
    assert_eq!(model_to_collation_max_variable(Some(driver::CollationMaxVariable::Space)), CollationMaxVariable::Space);
    assert_eq!(model_to_collation_max_variable(None), CollationMaxVariable::Punct);
    assert_eq!(collation_strength_to_model(CollationStrength::Primary), driver::CollationStrength::Primary);
    assert_eq!(collation_strength_to_model(CollationStrength::Secondary), driver::CollationStrength::Secondary);
    assert_eq!(collation_strength_to_model(CollationStrength::Tertiary), driver::CollationStrength::Tertiary);
    assert_eq!(collation_strength_to_model(CollationStrength::Quaternary), driver::CollationStrength::Quaternary);
    assert_eq!(collation_strength_to_model(CollationStrength::Identical), driver::CollationStrength::Identical);
    assert_eq!(model_to_collation_strength(Some(driver::CollationStrength::Primary)), CollationStrength::Primary);
    assert_eq!(model_to_collation_strength(Some(driver::CollationStrength::Quaternary)), CollationStrength::Quaternary);
    assert_eq!(model_to_collation_strength(None), CollationStrength::Tertiary);
}

#[test]
fn sphere_version_four_is_carried_as_a_custom_version() {
    assert_eq!(number_to_sphere_index_version(4), Sphere2DIndexVersion::Custom(4));
    assert_eq!(sphere_index_version_to_number(Sphere2DIndexVersion::Custom(4)), 4);
    assert_eq!(sphere_index_version_to_number(number_to_sphere_index_version(4)), 4);
    let mut declared = Options::new();
    declared.sphere_index_version = Some(4);
    let back = model_to_options(&options_to_model(&declared));
    assert_eq!(back.sphere_index_version, Some(4));
    assert!(back.same(&declared));
    let mut three = Options::new();
    three.sphere_index_version = Some(3);
    assert!(!back.same(&three));
}

#[test]
fn known_versions_are_named() {
    assert_eq!(number_to_sphere_index_version(2), Sphere2DIndexVersion::V2);
    assert_eq!(number_to_sphere_index_version(3), Sphere2DIndexVersion::V3);
    assert_eq!(number_to_sphere_index_version(1), Sphere2DIndexVersion::Custom(1));
    assert_eq!(number_to_sphere_index_version(0), Sphere2DIndexVersion::Custom(0));
    assert_eq!(sphere_index_version_to_number(Sphere2DIndexVersion::V2), 2);
    assert_eq!(sphere_index_version_to_number(Sphere2DIndexVersion::V3), 3);
    assert_eq!(number_to_text_index_version(1), TextIndexVersion::V1);
    assert_eq!(number_to_text_index_version(2), TextIndexVersion::V2);
    assert_eq!(number_to_text_index_version(3), TextIndexVersion::V3);
    assert_eq!(number_to_text_index_version(4), TextIndexVersion::Custom(4));
    assert_eq!(number_to_text_index_version(0), TextIndexVersion::Custom(0));
    assert_eq!(text_index_version_to_number(TextIndexVersion::V1), 1);
    assert_eq!(text_index_version_to_number(TextIndexVersion::V2), 2);
    assert_eq!(text_index_version_to_number(TextIndexVersion::V3), 3);
    assert_eq!(text_index_version_to_number(TextIndexVersion::Custom(9)), 9);
    for v in [0u32, 1, 2, 3, 4, 5, 26, u32::MAX] {
        assert_eq!(sphere_index_version_to_number(number_to_sphere_index_version(v)), v);
        assert_eq!(text_index_version_to_number(number_to_text_index_version(v)), v);
    }
}

#[test]
fn directions_and_index_types_are_read_from_numbers_and_names() {
    assert_eq!(direction(1), Some(Direction::Ascending));
    assert_eq!(direction(-1), Some(Direction::Descending));
    assert_eq!(direction(0), None);
    assert_eq!(direction(2), None);
    assert_eq!(index_type("hashed"), Some(IndexType::Hashed));
    assert_eq!(index_type("text"), Some(IndexType::Text));
    assert_eq!(index_type("2d"), Some(IndexType::TwoDimensional));
    assert_eq!(index_type("2dsphere"), Some(IndexType::TwoDimensionalSphere));
    assert_eq!(index_type("Text"), None);
    assert_eq!(index_type(""), None);
}

#[test]
fn keys_are_written_as_numbers_and_names() {
    assert!(is(&key_to_bson(&asc("a")), &Bson::Int32(1)));
    assert!(is(&key_to_bson(&desc("a")), &Bson::Int32(-1)));
    assert!(is(&key_to_bson(&typed("a", IndexType::Hashed)), &Bson::String("hashed".to_string())));
    assert!(is(&key_to_bson(&typed("a", IndexType::Text)), &Bson::String("text".to_string())));
    assert!(is(&key_to_bson(&typed("a", IndexType::TwoDimensional)), &Bson::String("2d".to_string())));
    assert!(is(
        &key_to_bson(&typed("a", IndexType::TwoDimensionalSphere)),
        &Bson::String("2dsphere".to_string())
    ));
    let neither = Key { direction: None, field: "a".to_string(), index_type: None };
    assert!(is(&key_to_bson(&neither), &Bson::Null));
    let both = Key {
        direction: Some(Direction::Descending),
        field: "a".to_string(),
        index_type: Some(IndexType::Hashed),
    };
    assert!(is(&key_to_bson(&both), &Bson::Int32(-1)));
}

#[test]
fn entries_of_a_document_of_keys_are_read_as_keys() {
    let f = "a".to_string();
    assert!(bson_entry_to_key(&f, &Bson::Int32(1)).unwrap().same(&asc("a")));
    assert!(bson_entry_to_key(&f, &Bson::Int32(-1)).unwrap().same(&desc("a")));
    let odd = bson_entry_to_key(&f, &Bson::Int32(7)).unwrap();
    assert!(odd.direction.is_none() && odd.index_type.is_none() && odd.field == "a");
    assert!(bson_entry_to_key(&f, &Bson::String("2dsphere".to_string()))
        .unwrap()
        .same(&typed("a", IndexType::TwoDimensionalSphere)));
    let unknown = bson_entry_to_key(&f, &Bson::String("geoHaystack".to_string())).unwrap();
    assert!(unknown.direction.is_none() && unknown.index_type.is_none());
    assert!(bson_entry_to_key(&f, &Bson::Int64(1)).is_none());
    assert!(bson_entry_to_key(&f, &Bson::Null).is_none());
    assert!(bson_entry_to_key(&f, &Bson::Other).is_none());
}

#[test]
fn keys_are_classified() {
    let both = Key {
        direction: Some(Direction::Ascending),
        field: "x".to_string(),
        index_type: Some(IndexType::Hashed),
    };
    assert!(invalid_key(&both));
    assert!(!invalid_key(&asc("x")));
    assert!(!invalid_key(&typed("x", IndexType::Text)));
    assert!(is_text_index(&typed("x", IndexType::Text)));
    assert!(!is_text_index(&typed("x", IndexType::Hashed)));
    assert!(!is_text_index(&asc("x")));
    assert!(any_text_index(&[asc("a"), typed("b", IndexType::Text)]));
    assert!(!any_text_index(&[asc("a"), typed("b", IndexType::Hashed)]));
    assert!(!any_text_index(&[]));
}

#[test]
fn keys_become_a_document_in_their_order() {
    let d = keys_to_document(&[desc("b"), asc("a"), typed("c", IndexType::Hashed)]);
    let e = entries(&d);
    assert_eq!(e.len(), 3);
    assert_eq!(e[0].0, "b");
    assert!(is(&e[0].1, &Bson::Int32(-1)));
    assert_eq!(e[1].0, "a");
    assert!(is(&e[1].1, &Bson::Int32(1)));
    assert_eq!(e[2].0, "c");
    assert!(is(&e[2].1, &Bson::String("hashed".to_string())));
    assert_eq!(keys_to_document(&[]).len(), 0);
}

#[test]
fn a_field_named_twice_keeps_its_place_and_takes_the_later_key() {
    let d = keys_to_document(&[asc("a"), asc("b"), desc("a")]);
    let e = entries(&d);
    assert_eq!(e.len(), 2);
    assert_eq!(e[0].0, "a");
    assert!(is(&e[0].1, &Bson::Int32(-1)));
    assert_eq!(e[1].0, "b");
}

#[test]
fn a_document_of_keys_is_read_back() {
    let d = document(vec![
        ("a", Bson::Int32(1)),
        ("skipped", Bson::Int64(1)),
        ("b", Bson::String("hashed".to_string())),
        ("c", Bson::Int32(-1)),
        ("other", Bson::Other),
    ]);
    let keys = document_to_keys(&d, None);
    assert_eq!(keys.len(), 3);
    assert!(keys[0].same(&asc("a")));
    assert!(keys[1].same(&typed("b", IndexType::Hashed)));
    assert!(keys[2].same(&desc("c")));
    let keys = document_to_keys(&d, Some(&Options::new()));
    assert_eq!(keys.len(), 3);
}

#[test]
fn values_of_other_kinds_give_no_key_weight_or_projection() {
    let mut d = mongodb::bson::Document::new();
    d.insert("a", 1.0);
    d.insert("b", true);
    d.insert("c", mongodb::bson::Bson::Array(vec![mongodb::bson::Bson::Int32(1)]));
    d.insert("d", mongodb::bson::Document::new());
    d.insert("e", -1);
    d.insert("f", 1i64);
    let keys = document_to_keys(&d, None);
    assert_eq!(keys.len(), 1);
    assert!(keys[0].same(&desc("e")));
    let w: FieldMap<u32> = document_to_map(&d);
    assert_eq!(w.len(), 2);
    assert_eq!(w.get(&"e".to_string()), Some(&u32::MAX));
    assert_eq!(w.get(&"f".to_string()), Some(&1));
    let p: FieldMap<WildcardProjection> = document_to_map(&d);
    assert_eq!(p.len(), 1);
    assert_eq!(p.get(&"f".to_string()), Some(&WildcardProjection::Include));
}

#[test]
fn a_document_keeps_each_name_once_in_the_order_of_first_insertion() {
    let d = keys_to_document(&[asc("z"), asc("a"), desc("z"), typed("m", IndexType::Text)]);
    let names: Vec<&String> = d.keys().collect();
    assert_eq!(names, vec!["z", "a", "m"]);
    assert_eq!(d.get("z"), Some(&mongodb::bson::Bson::Int32(-1)));
    assert_eq!(d.get("a"), Some(&mongodb::bson::Bson::Int32(1)));
    assert_eq!(d.get("m"), Some(&mongodb::bson::Bson::String("text".to_string())));
    let copy = driver::IndexModel { keys: d.clone(), options: None }.duplicate();
    assert_eq!(copy.keys, d);
}

#[test]
fn text_keys_are_recovered_from_the_weights() {
    let d = document(vec![("_fts", Bson::String("text".to_string())), ("_ftsx", Bson::Int32(1))]);
    let mut o = Options::new();
    o.weights = Some(FieldMap::from_entries(vec![
        ("title".to_string(), 1u32),
        ("body".to_string(), 1u32),
    ]));
    let keys = document_to_keys(&d, Some(&o));
    assert_eq!(keys.len(), 2);
    assert!(keys[0].same(&typed("body", IndexType::Text)));
    assert!(keys[1].same(&typed("title", IndexType::Text)));
    let recovered = text_index_keys(&o).unwrap();
    assert_eq!(recovered.len(), 2);
    assert!(recovered[0].same(&typed("body", IndexType::Text)));
    assert!(recovered[1].same(&typed("title", IndexType::Text)));
    assert!(text_index_keys(&Options::new()).is_none());
}

#[test]
fn a_reported_text_index_has_its_keys_in_ascending_order_of_the_fields() {
    let mut options = no_options();
    options.name = Some("title_text_body_text".to_string());
    let mut weights = mongodb::bson::Document::new();
    weights.insert("title", 1);
    weights.insert("body", 1);
    weights.insert("abstract", 3i64);
    options.weights = Some(weights);
    let model = driver::IndexModel {
        keys: document(vec![
            ("_fts", Bson::String("text".to_string())),
            ("_ftsx", Bson::Int32(1)),
        ]),
        options: Some(options),
    };
    let index = index_model_to_index(&model);
    let fields: Vec<&String> = index.keys.iter().map(|k| &k.field).collect();
    assert_eq!(fields, vec!["abstract", "body", "title"]);
    assert!(index.keys.iter().all(|k| k.direction.is_none()));
    assert!(index.keys.iter().all(|k| k.index_type == Some(IndexType::Text)));
    let read = index.options.as_ref().unwrap().weights.as_ref().unwrap();
    assert_eq!(read.name_at(0), "abstract");
    assert_eq!(*read.value_at(0), 3);
    assert_eq!(read.name_at(1), "body");
    assert_eq!(read.name_at(2), "title");
}

#[test]
fn raw_keys_are_kept_where_the_weights_are_missing_or_no_key_is_text() {
    let d = document(vec![("_fts", Bson::String("text".to_string())), ("_ftsx", Bson::Int32(1))]);
    let raw = document_to_keys(&d, Some(&Options::new()));
    assert_eq!(raw.len(), 2);
    assert!(raw[0].same(&typed("_fts", IndexType::Text)));
    assert!(raw[1].same(&asc("_ftsx")));
    let raw = document_to_keys(&d, None);
    assert_eq!(raw.len(), 2);
    let plain = document(vec![("a", Bson::Int32(1))]);
    let mut o = Options::new();
    o.weights = Some(FieldMap::from_entries(vec![("title".to_string(), 1u32)]));
    let keys = document_to_keys(&plain, Some(&o));
    assert_eq!(keys.len(), 1);
    assert!(keys[0].same(&asc("a")));
}

#[test]
fn weights_are_written_as_the_smallest_integer_that_holds_them() {
    assert!(is(&weight_to_bson(0), &Bson::Int32(0)));
    assert!(is(&weight_to_bson(10), &Bson::Int32(10)));
    assert!(is(&weight_to_bson(2147483647), &Bson::Int32(2147483647)));
    assert!(is(&weight_to_bson(2147483648), &Bson::Int64(2147483648)));
    assert!(is(&weight_to_bson(u32::MAX), &Bson::Int64(4294967295)));
}

#[test]
fn weights_are_read_from_integers_only() {
    assert!(is_weight(&Bson::Int32(1)));
    assert!(is_weight(&Bson::Int64(1)));
    assert!(!is_weight(&Bson::String("1".to_string())));
    assert!(!is_weight(&Bson::Null));
    assert!(!is_weight(&Bson::Other));
    assert_eq!(bson_to_weight(&Bson::Int32(5)), 5);
    assert_eq!(bson_to_weight(&Bson::Int64(5)), 5);
    assert_eq!(bson_to_weight(&Bson::Int32(-1)), u32::MAX);
    assert_eq!(bson_to_weight(&Bson::Int32(i32::MIN)), 2147483648);
    assert_eq!(bson_to_weight(&Bson::Int64(4294967296 + 7)), 7);
    assert_eq!(bson_to_weight(&Bson::Int64(-1)), u32::MAX);
    assert_eq!(bson_to_weight(&Bson::Int64(i64::MIN)), 0);
    assert_eq!(bson_to_weight(&Bson::Int64(i64::MAX)), u32::MAX);
    assert_eq!(bson_to_weight(&Bson::String("5".to_string())), 0);
    assert_eq!(bson_to_weight(&Bson::Other), 0);
    for w in [0u32, 1, 2147483647, 2147483648, u32::MAX] {
        assert!(is_weight(&weight_to_bson(w)));
        assert_eq!(bson_to_weight(&weight_to_bson(w)), w);
    }
}

#[test]
fn low_bits_are_the_low_thirty_two_bits() {
    assert_eq!(low_bits(0), 0);
    assert_eq!(low_bits(1), 1);
    assert_eq!(low_bits(-1), 0xffff_ffff);
    assert_eq!(low_bits(-2), 0xffff_fffe);
    assert_eq!(low_bits(0x1_0000_0000), 0);
    assert_eq!(low_bits(-0x1_0000_0000), 0);
    assert_eq!(low_bits(0x1234_5678_9abc_def0), 0x9abc_def0);
    for v in [i64::MIN, i64::MIN + 1, -4294967297, -5, 5, 4294967295, i64::MAX] {
        assert_eq!(low_bits(v), v as u64 as u32);
    }
}

#[test]
fn wildcard_projections_are_zero_and_one() {
    assert!(is(&wildcard_projection_to_bson(&WildcardProjection::Exclude), &Bson::Int32(0)));
    assert!(is(&wildcard_projection_to_bson(&WildcardProjection::Include), &Bson::Int32(1)));
    assert!(is_wildcard_projection(&Bson::Int32(0)));
    assert!(is_wildcard_projection(&Bson::Int32(1)));
    assert!(is_wildcard_projection(&Bson::Int64(0)));
    assert!(is_wildcard_projection(&Bson::Int64(1)));
    assert!(!is_wildcard_projection(&Bson::Int32(2)));
    assert!(!is_wildcard_projection(&Bson::Int32(-1)));
    assert!(!is_wildcard_projection(&Bson::Int64(2)));
    assert!(!is_wildcard_projection(&Bson::Int64(4294967297)));
    assert!(!is_wildcard_projection(&Bson::String("1".to_string())));
    assert!(!is_wildcard_projection(&Bson::Null));
    assert_eq!(value_to_wildcard_projection(1), WildcardProjection::Include);
    assert_eq!(value_to_wildcard_projection(0), WildcardProjection::Exclude);
    assert_eq!(value_to_wildcard_projection(2), WildcardProjection::Exclude);
    assert_eq!(bson_to_wildcard_projection(&Bson::Int32(1)), WildcardProjection::Include);
    assert_eq!(bson_to_wildcard_projection(&Bson::Int64(1)), WildcardProjection::Include);
    assert_eq!(bson_to_wildcard_projection(&Bson::Int32(0)), WildcardProjection::Exclude);
    assert_eq!(bson_to_wildcard_projection(&Bson::Int64(4294967297)), WildcardProjection::Include);
    assert_eq!(bson_to_wildcard_projection(&Bson::Null), WildcardProjection::Exclude);
}

#[test]
fn observed_wildcard_entries_other_than_zero_and_one_are_dropped() {
    let d = document(vec![
        ("a", Bson::Int32(1)),
        ("b", Bson::Int32(2)),
        ("c", Bson::Int64(0)),
        ("d", Bson::String("1".to_string())),
        ("e", Bson::Int32(-1)),
    ]);
    let m: FieldMap<WildcardProjection> = document_to_map(&d);
    assert_eq!(m.len(), 2);
    assert_eq!(m.name_at(0), "a");
    assert_eq!(*m.value_at(0), WildcardProjection::Include);
    assert_eq!(m.name_at(1), "c");
    assert_eq!(*m.value_at(1), WildcardProjection::Exclude);
}

#[test]
fn observed_weights_keep_their_integer_entries() {
    let d = document(vec![
        ("title", Bson::Int32(10)),
        ("junk", Bson::String("x".to_string())),
        ("body", Bson::Int64(3)),
        ("none", Bson::Null),
    ]);
    let m: FieldMap<u32> = document_to_map(&d);
    assert_eq!(m.len(), 2);
    assert_eq!(m.name_at(0), "body");
    assert_eq!(*m.value_at(0), 3);
    assert_eq!(m.name_at(1), "title");
    assert_eq!(*m.value_at(1), 10);
}

#[test]
fn maps_become_documents_entry_by_entry() {
    let w = FieldMap::from_entries(vec![
        ("body".to_string(), 1u32),
        ("title".to_string(), 3_000_000_000u32),
    ]);
    let d = map_to_document(&w);
    let e = entries(&d);
    assert_eq!(e.len(), 2);
    assert_eq!(e[0].0, "body");
    assert!(is(&e[0].1, &Bson::Int32(1)));
    assert_eq!(e[1].0, "title");
    assert!(is(&e[1].1, &Bson::Int64(3_000_000_000)));
    let p = FieldMap::from_entries(vec![
        ("a".to_string(), WildcardProjection::Include),
        ("b".to_string(), WildcardProjection::Exclude),
    ]);
    let e = entries(&map_to_document(&p));
    assert!(is(&e[0].1, &Bson::Int32(1)));
    assert!(is(&e[1].1, &Bson::Int32(0)));
    assert!(all_entries(&"a".to_string(), &1u32));
    let back: FieldMap<u32> = document_to_map(&d);
    assert!(back.same(&w));
}

fn rich_options() -> Options {
    let mut o = Options::new();
    o.bits = Some(30);
    o.collation = Some(Collation {
        alternate: CollationAlternate::Shifted,
        backwards: false,
        case_first: CollationCaseFirst::Lower,
        case_level: true,
        locale: "nl".to_string(),
        max_variable: CollationMaxVariable::Space,
        normalization: false,
        numeric_ordering: true,
        strength: CollationStrength::Secondary,
    });
    o.default_language = Some("dutch".to_string());
    o.expire_after_seconds = Some(3600);
    o.hidden = Some(true);
    o.language_override = Some("lang".to_string());
    o.max = Some(Double::from_bits(90.0f64.to_bits()));
    o.min = Some(Double::from_bits((-90.0f64).to_bits()));
    o.name = Some("rich".to_string());
    o.partial_filter_expression = Some(FieldMap::from_entries(vec![(
        "rating".to_string(),
        JsonValue::Object(vec![(
            "$gt".to_string(),
            JsonValue::Number(JsonNumber::Float(Double::from_bits(4.5f64.to_bits()))),
        )]),
    )]));
    o.sparse = Some(true);
    o.sphere_index_version = Some(3);
    o.text_index_version = Some(2);
    o.unique = Some(true);
    o.weights = Some(FieldMap::from_entries(vec![
        ("title".to_string(), 10u32),
        ("body".to_string(), u32::MAX),
    ]));
    o.wildcard_projection = Some(FieldMap::from_entries(vec![
        ("a".to_string(), WildcardProjection::Include),
        ("b".to_string(), WildcardProjection::Exclude),
    ]));
    o
}

#[test]
fn options_are_handed_to_the_driver_field_by_field() {
    let m = options_to_model(&rich_options());
    assert_eq!(m.bits, Some(30));
    assert_eq!(m.collation.as_ref().unwrap().locale, "nl");
    assert_eq!(m.collation.as_ref().unwrap().case_level, Some(true));
    assert_eq!(m.collation.as_ref().unwrap().numeric_ordering, Some(true));
    assert_eq!(m.collation.as_ref().unwrap().backwards, Some(false));
    assert_eq!(m.default_language, Some("dutch".to_string()));
    assert_eq!(m.expire_after, Some(3600));
    assert_eq!(m.hidden, Some(true));
    assert_eq!(m.language_override, Some("lang".to_string()));
    assert_eq!(m.max.unwrap().to_bits(), 90.0f64.to_bits());
    assert_eq!(m.min.unwrap().to_bits(), (-90.0f64).to_bits());
    assert_eq!(m.name, Some("rich".to_string()));
    match m.partial_filter_expression.as_ref().unwrap() {
        PartialFilter::Declared(filter) => {
            assert_eq!(filter.len(), 1);
            assert_eq!(filter.name_at(0), "rating");
        }
        PartialFilter::Reported(_) => panic!("a declared filter is handed over as declared"),
    }
    assert_eq!(m.sparse, Some(true));
    assert_eq!(m.sphere_2d_index_version, Some(Sphere2DIndexVersion::V3));
    assert_eq!(m.text_index_version, Some(TextIndexVersion::V2));
    assert_eq!(m.unique, Some(true));
    let w = entries(m.weights.as_ref().unwrap());
    assert_eq!(w[0].0, "body");
    assert!(is(&w[0].1, &Bson::Int64(4294967295)));
    assert_eq!(w[1].0, "title");
    assert!(is(&w[1].1, &Bson::Int32(10)));
    let p = entries(m.wildcard_projection.as_ref().unwrap());
    assert!(is(&p[0].1, &Bson::Int32(1)));
    assert!(is(&p[1].1, &Bson::Int32(0)));
}

#[test]
fn unset_options_hand_nothing_to_the_driver() {
    let m = no_options();
    assert!(m.bits.is_none() && m.collation.is_none() && m.default_language.is_none());
    assert!(m.expire_after.is_none() && m.hidden.is_none() && m.language_override.is_none());
    assert!(m.max.is_none() && m.min.is_none() && m.name.is_none());
    assert!(m.partial_filter_expression.is_none() && m.sparse.is_none());
    assert!(m.sphere_2d_index_version.is_none() && m.text_index_version.is_none());
    assert!(m.unique.is_none() && m.weights.is_none() && m.wildcard_projection.is_none());
}

#[test]
fn options_come_back_from_the_driver_as_they_went_in() {
    let o = rich_options();
    let back = model_to_options(&options_to_model(&o));
    assert!(back.same(&o));
    assert!(o.same(&back));
    assert_eq!(back.name, o.name);
    assert_eq!(back.sphere_index_version, Some(3));
    assert_eq!(back.text_index_version, Some(2));
    assert_eq!(back.expire_after_seconds, Some(3600));
    assert!(back.weights.as_ref().unwrap().same(o.weights.as_ref().unwrap()));
    assert!(back.collation.as_ref().unwrap().same(o.collation.as_ref().unwrap()));
    let empty = model_to_options(&no_options());
    assert!(empty.same(&Options::new()));
    assert!(empty.is_default());
}

#[test]
fn the_drivers_options_are_read_field_by_field() {
    let mut m = no_options();
    m.name = Some("email_1".to_string());
    m.unique = Some(true);
    m.expire_after = Some(60);
    m.text_index_version = Some(TextIndexVersion::V3);
    m.sphere_2d_index_version = Some(Sphere2DIndexVersion::Custom(7));
    m.weights = Some(document(vec![("title", Bson::Int32(2)), ("junk", Bson::Null)]));
    m.wildcard_projection = Some(document(vec![("a", Bson::Int32(1)), ("b", Bson::Int32(5))]));
    let o = model_to_options(&m);
    assert_eq!(o.name, Some("email_1".to_string()));
    assert_eq!(o.unique, Some(true));
    assert_eq!(o.expire_after_seconds, Some(60));
    assert_eq!(o.text_index_version, Some(3));
    assert_eq!(o.sphere_index_version, Some(7));
    assert_eq!(o.weights.as_ref().unwrap().len(), 1);
    assert_eq!(o.weights.as_ref().unwrap().get(&"title".to_string()), Some(&2));
    assert_eq!(o.wildcard_projection.as_ref().unwrap().len(), 1);
    assert_eq!(
        o.wildcard_projection.as_ref().unwrap().get(&"a".to_string()),
        Some(&WildcardProjection::Include)
    );
}

#[test]
fn an_index_comes_back_from_the_driver_as_it_went_in() {
    let mut o = rich_options();
    o.weights = None;
    let index = Index {
        keys: vec![asc("a"), desc("b"), typed("c", IndexType::TwoDimensionalSphere)],
        options: Some(o),
    };
    let model = index_to_model(&index);
    assert_eq!(model.keys.len(), 3);
    assert_eq!(model.keys.get("b"), Some(&mongodb::bson::Bson::Int32(-1)));
    let back = index_model_to_index(&model);
    assert!(back.same(&index));
    assert!(index.same(&back));
    assert_eq!(back.keys.len(), 3);
    assert!(back.keys[0].same(&asc("a")));
    assert!(back.keys[1].same(&desc("b")));
    let bare = Index { keys: vec![typed("h", IndexType::Hashed)], options: None };
    let back = index_model_to_index(&index_to_model(&bare));
    assert!(back.options.is_none());
    assert!(back.same(&bare));
}

#[test]
fn a_text_index_with_weights_on_its_keys_comes_back() {
    let mut o = Options::new();
    o.weights = Some(FieldMap::from_entries(vec![
        ("body".to_string(), 1u32),
        ("title".to_string(), 5u32),
    ]));
    let index = Index {
        keys: vec![typed("title", IndexType::Text), typed("body", IndexType::Text)],
        options: Some(o),
    };
    let back = index_model_to_index(&index_to_model(&index));
    assert!(back.same(&index));
}

#[test]
fn the_index_on_id_is_known_by_its_name() {
    let mut o = Options::new();
    o.name = Some("_id_".to_string());
    let clustered = Index { keys: vec![asc("_id")], options: Some(o) };
    assert!(!is_not_clustered(&clustered));
    assert_eq!(index_name(&clustered), "_id_");
    let mut o = Options::new();
    o.name = Some("_id_1".to_string());
    let other = Index { keys: vec![asc("_id")], options: Some(o) };
    assert!(is_not_clustered(&other));
    let unnamed = Index { keys: vec![asc("_id")], options: Some(Options::new()) };
    assert!(is_not_clustered(&unnamed));
    assert_eq!(index_name(&unnamed), "");
    let bare = Index { keys: vec![asc("_id")], options: None };
    assert!(is_not_clustered(&bare));
    assert_eq!(index_name(&bare), "");
}

#[test]
fn observed_indexes_leave_out_the_index_on_id() {
    let mut id = no_options();
    id.name = Some("_id_".to_string());
    let mut email = no_options();
    email.name = Some("email_1".to_string());
    email.unique = Some(true);
    let models = vec![
        driver::IndexModel { keys: document(vec![("_id", Bson::Int32(1))]), options: Some(id) },
        driver::IndexModel {
            keys: document(vec![("email", Bson::Int32(1))]),
            options: Some(email),
        },
    ];
    let indexes = index_models_to_indexes(&models);
    assert_eq!(indexes.len(), 1);
    assert_eq!(index_name(&indexes[0]), "email_1");
    assert!(indexes[0].keys[0].same(&asc("email")));
    assert_eq!(indexes[0].options.as_ref().unwrap().unique, Some(true));
    assert_eq!(index_models_to_indexes(&[]).len(), 0);
}

#[test]
fn collection_settings_are_mapped() {
    assert_eq!(time_series_granularity(Granularity::Hours), driver::TimeseriesGranularity::Hours);
    assert_eq!(
        time_series_granularity(Granularity::Minutes),
        driver::TimeseriesGranularity::Minutes
    );
    assert_eq!(
        time_series_granularity(Granularity::Seconds),
        driver::TimeseriesGranularity::Seconds
    );
    assert_eq!(validation_action(ValidationAction::Error), driver::ValidationAction::Error);
    assert_eq!(validation_action(ValidationAction::Warn), driver::ValidationAction::Warn);
    assert_eq!(validation_level(ValidationLevel::Moderate), driver::ValidationLevel::Moderate);
    assert_eq!(validation_level(ValidationLevel::Off), driver::ValidationLevel::Off);
    assert_eq!(validation_level(ValidationLevel::Strict), driver::ValidationLevel::Strict);
    let t = TimeSeries {
        bucket_max_span_seconds: Some(3600),
        bucket_rounding_seconds: Some(60),
        granularity: Some(Granularity::Minutes),
        meta_field: Some("sensor".to_string()),
        time_field: "at".to_string(),
    };
    let m = time_series(&t);
    assert_eq!(m.time_field, "at");
    assert_eq!(m.meta_field, Some("sensor".to_string()));
    assert_eq!(m.granularity, Some(driver::TimeseriesGranularity::Minutes));
    assert_eq!(m.bucket_max_span, Some(3600));
    assert_eq!(m.bucket_rounding, Some(60));
    let t = TimeSeries {
        bucket_max_span_seconds: None,
        bucket_rounding_seconds: None,
        granularity: None,
        meta_field: None,
        time_field: "ts".to_string(),
    };
    let m = time_series(&t);
    assert_eq!(m.time_field, "ts");
    assert!(m.meta_field.is_none() && m.granularity.is_none());
    assert!(m.bucket_max_span.is_none() && m.bucket_rounding.is_none());
}

fn float(v: f64) -> Double {
    Double::from_bits(v.to_bits())
}

#[test]
fn reported_scalars_are_rendered_as_json() {
    assert!(bson_to_value(&FilterValue::Boolean(true)).same(&JsonValue::Bool(true)));
    assert!(bson_to_value(&FilterValue::Null).same(&JsonValue::Null));
    assert!(bson_to_value(&FilterValue::Other).same(&JsonValue::Null));
    assert!(bson_to_value(&FilterValue::String("a".to_string()))
        .same(&JsonValue::String("a".to_string())));
    assert!(bson_to_value(&FilterValue::Int32(7)).same(&JsonValue::Number(JsonNumber::PosInt(7))));
    assert!(bson_to_value(&FilterValue::Int32(0)).same(&JsonValue::Number(JsonNumber::PosInt(0))));
    assert!(bson_to_value(&FilterValue::Int32(-7)).same(&JsonValue::Number(JsonNumber::NegInt(-7))));
    assert!(bson_to_value(&FilterValue::Int64(i64::MAX))
        .same(&JsonValue::Number(JsonNumber::PosInt(i64::MAX as u64))));
    assert!(bson_to_value(&FilterValue::Int64(i64::MIN))
        .same(&JsonValue::Number(JsonNumber::NegInt(i64::MIN))));
    assert!(bson_to_value(&FilterValue::Double(float(4.5)))
        .same(&JsonValue::Number(JsonNumber::Float(float(4.5)))));
    assert!(bson_to_value(&FilterValue::Double(float(f64::NAN))).same(&JsonValue::Null));
    assert!(bson_to_value(&FilterValue::Double(float(f64::INFINITY))).same(&JsonValue::Null));
    assert!(integer_to_value(-1).same(&JsonValue::Number(JsonNumber::NegInt(-1))));
    assert!(integer_to_value(1).same(&JsonValue::Number(JsonNumber::PosInt(1))));
    assert!(double_to_value(float(-0.0)).same(&JsonValue::Number(JsonNumber::Float(float(0.0)))));
    assert!(double_to_value(float(f64::NEG_INFINITY)).same(&JsonValue::Null));
}

#[test]
fn reported_dates_arrays_and_object_ids_are_taken_as_the_driver_renders_them() {
    let date = Some("2024-05-01T12:00:00Z".to_string());
    assert!(bson_to_value(&FilterValue::DateTime(date.clone()))
        .same(&JsonValue::String("2024-05-01T12:00:00Z".to_string())));
    assert!(date_time_to_value(&date).same(&JsonValue::String("2024-05-01T12:00:00Z".to_string())));
    assert!(bson_to_value(&FilterValue::DateTime(None)).same(&JsonValue::Null));
    assert!(date_time_to_value(&None).same(&JsonValue::Null));
    let rendered = JsonValue::Array(vec![JsonValue::Number(JsonNumber::PosInt(1)), JsonValue::Null]);
    assert!(bson_to_value(&FilterValue::Array(rendered.clone())).same(&rendered));
    assert!(bson_to_value(&FilterValue::ObjectId(None)).same(&JsonValue::Null));
    assert!(object_id_to_value(&None).same(&JsonValue::Null));
    let given = Some(vec![("$oid".to_string(), FilterValue::String("65f0".to_string()))]);
    let expected =
        JsonValue::Object(vec![("$oid".to_string(), JsonValue::String("65f0".to_string()))]);
    assert!(object_id_to_value(&given).same(&expected));
    assert!(bson_to_value(&FilterValue::ObjectId(given)).same(&expected));
}

#[test]
fn reported_documents_are_rendered_entry_by_entry() {
    let document = vec![
        ("rating".to_string(), FilterValue::Document(vec![
            ("$gt".to_string(), FilterValue::Double(float(4.5))),
            ("$lt".to_string(), FilterValue::Int32(10)),
        ])),
        ("archived".to_string(), FilterValue::Boolean(false)),
        ("rating".to_string(), FilterValue::Null),
    ];
    let members = document_to_json_map(&document);
    assert_eq!(members.len(), 2);
    assert_eq!(members[0].0, "archived");
    assert!(members[0].1.same(&JsonValue::Bool(false)));
    assert_eq!(members[1].0, "rating");
    assert!(members[1].1.same(&JsonValue::Null));
    let nested = bson_to_value(&document[0].1);
    assert!(nested.same(&JsonValue::Object(vec![
        ("$lt".to_string(), JsonValue::Number(JsonNumber::PosInt(10))),
        ("$gt".to_string(), JsonValue::Number(JsonNumber::Float(float(4.5)))),
    ])));
    let map = filter_to_map(&document);
    assert_eq!(map.len(), 2);
    assert!(map.get(&"archived".to_string()).unwrap().same(&JsonValue::Bool(false)));
    assert_eq!(document_to_json_map(&vec![]).len(), 0);
    let copy = FilterValue::Document(document).duplicate();
    assert!(bson_to_value(&copy).same(&JsonValue::Object(vec![
        ("archived".to_string(), JsonValue::Bool(false)),
        ("rating".to_string(), JsonValue::Null),
    ])));
}

#[test]
fn a_reported_partial_filter_expression_is_read_as_json() {
    let mut m = no_options();
    m.partial_filter_expression = Some(PartialFilter::Reported(vec![
        ("status".to_string(), FilterValue::String("active".to_string())),
        ("age".to_string(), FilterValue::Document(vec![
            ("$gte".to_string(), FilterValue::Int64(18)),
        ])),
    ]));
    let o = model_to_options(&m);
    let filter = o.partial_filter_expression.as_ref().unwrap();
    assert_eq!(filter.len(), 2);
    assert!(filter
        .get(&"status".to_string())
        .unwrap()
        .same(&JsonValue::String("active".to_string())));
    assert!(filter.get(&"age".to_string()).unwrap().same(&JsonValue::Object(vec![(
        "$gte".to_string(),
        JsonValue::Number(JsonNumber::PosInt(18)),
    )])));
    let mut declared = Options::new();
    declared.partial_filter_expression = Some(FieldMap::from_entries(vec![
        ("age".to_string(), JsonValue::Object(vec![(
            "$gte".to_string(),
            JsonValue::Number(JsonNumber::PosInt(18)),
        )])),
        ("status".to_string(), JsonValue::String("active".to_string())),
    ]));
    assert!(o.same(&declared));
    assert!(declared.same(&o));
    let handed = options_to_model(&declared);
    assert!(matches!(handed.partial_filter_expression, Some(PartialFilter::Declared(_))));
    let copy = m.duplicate();
    assert!(model_to_options(&copy).same(&declared));
}
