use mongo_collections::differ::{
    contains_index, create_new_indexes, drop_not_specified, reconcile_indexes,
};
use mongo_collections::driver::Bson;
use mongo_collections::driver;
use mongo_collections::field_map::FieldMap;
use mongo_collections::mapping::indexes::{index_model_to_index, index_to_model};
use mongo_collections::mapping::options::options_to_model;
use mongo_collections::resource::{Direction, Index, IndexType, Key, Options};

fn asc(field: &str) -> Key {
    Key { direction: Some(Direction::Ascending), field: field.to_string(), index_type: None }
}

fn text_key(field: &str) -> Key {
    Key { direction: None, field: field.to_string(), index_type: Some(IndexType::Text) }
}

fn named(name: &str, unique: Option<bool>) -> Options {
    let mut o = Options::new();
    o.name = Some(name.to_string());
    o.unique = unique;
    o
}

fn index(keys: Vec<Key>, options: Option<Options>) -> Index {
    Index { keys, options }
}

fn document(entries: Vec<(&str, Bson)>) -> mongodb::bson::Document {
    let mut d = mongodb::bson::Document::new();
    for (k, v) in entries {
        match v {
            Bson::Int32(n) => d.insert(k, n),
            Bson::Int64(n) => d.insert(k, n),
            Bson::String(s) => d.insert(k, s),
            _ => d.insert(k, mongodb::bson::Bson::Null),
        };
    }
    d
}

fn observed(keys: Vec<(&str, Bson)>, options: &Options) -> driver::IndexModel {
    driver::IndexModel { keys: document(keys), options: Some(options_to_model(options)) }
}

fn id_index() -> driver::IndexModel {
    observed(vec![("_id", Bson::Int32(1))], &named("_id_", None))
}

#[test]
fn an_index_is_found_by_equivalence() {
    let list = vec![
        index(vec![asc("a")], Some(named("a_1", None))),
        index(vec![asc("b")], Some(named("b_1", Some(true)))),
    ];
    assert!(contains_index(&list, &index(vec![asc("a")], None)));
    assert!(contains_index(&list, &index(vec![asc("b")], Some(named("other", Some(true))))));
    assert!(!contains_index(&list, &index(vec![asc("b")], None)));
    assert!(!contains_index(&list, &index(vec![asc("c")], None)));
    assert!(!contains_index(&[], &index(vec![asc("a")], None)));
}

#[test]
fn observed_indexes_without_a_declaration_are_dropped_by_name() {
    let specified = vec![index(vec![asc("a")], None)];
    let found = vec![
        index(vec![asc("a")], Some(named("a_1", None))),
        index(vec![asc("b")], Some(named("b_1", None))),
        index(vec![asc("c")], Some(Options::new())),
        index(vec![asc("d")], None),
        index(vec![asc("e")], Some(named("e_1", None))),
    ];
    let names = drop_not_specified(&specified, &found);
    assert_eq!(names, vec!["b_1".to_string(), "e_1".to_string()]);
    assert_eq!(drop_not_specified(&specified, &[]), Vec::<String>::new());
    assert_eq!(drop_not_specified(&[], &found).len(), 3);
}

#[test]
fn declared_indexes_without_an_observed_one_are_created() {
    let specified = vec![
        index(vec![asc("a")], None),
        index(vec![asc("b")], Some(named("b_uniq", Some(true)))),
        index(vec![asc("c")], None),
    ];
    let found = vec![index(vec![asc("a")], Some(named("a_1", None)))];
    let models = create_new_indexes(&specified, &found);
    assert_eq!(models.len(), 2);
    assert_eq!(models[0].keys.keys().next().unwrap(), "b");
    assert_eq!(models[0].options.as_ref().unwrap().name, Some("b_uniq".to_string()));
    assert_eq!(models[0].options.as_ref().unwrap().unique, Some(true));
    assert_eq!(models[1].keys.keys().next().unwrap(), "c");
    assert!(models[1].options.is_none());
    assert_eq!(create_new_indexes(&[], &found).len(), 0);
    assert_eq!(create_new_indexes(&specified, &[]).len(), 3);
}

#[test]
fn a_new_unique_index_is_created_and_then_left_alone() {
    let declared = vec![index(vec![asc("email")], Some(named("email_uniq", Some(true))))];
    let plan = reconcile_indexes(Some(&declared), &[id_index()]);
    assert!(plan.changed());
    assert_eq!(plan.drops.len(), 0);
    assert_eq!(plan.creates.len(), 1);
    assert_eq!(plan.creates[0].options.as_ref().unwrap().name, Some("email_uniq".to_string()));
    let stored = plan.creates[0].clone();
    let plan = reconcile_indexes(Some(&declared), &[id_index(), stored]);
    assert!(!plan.changed());
    assert_eq!(plan.drops.len(), 0);
    assert_eq!(plan.creates.len(), 0);
}

#[test]
fn an_index_with_changed_options_is_dropped_and_created_anew() {
    let declared = vec![index(vec![asc("email")], Some(named("X", Some(true))))];
    let found = vec![id_index(), observed(vec![("email", Bson::Int32(1))], &named("X", Some(false)))];
    let plan = reconcile_indexes(Some(&declared), &found);
    assert!(plan.changed());
    assert_eq!(plan.drops, vec!["X".to_string()]);
    assert_eq!(plan.creates.len(), 1);
    assert_eq!(plan.creates[0].options.as_ref().unwrap().name, Some("X".to_string()));
    assert_eq!(plan.creates[0].options.as_ref().unwrap().unique, Some(true));
}

#[test]
fn the_index_on_id_is_never_dropped() {
    let plan = reconcile_indexes(Some(&vec![]), &[id_index()]);
    assert!(!plan.changed());
    assert_eq!(plan.drops.len(), 0);
    let found = vec![id_index(), observed(vec![("a", Bson::Int32(1))], &named("a_1", None))];
    let plan = reconcile_indexes(Some(&vec![]), &found);
    assert_eq!(plan.drops, vec!["a_1".to_string()]);
    let declared = vec![index(vec![asc("b")], None)];
    let plan = reconcile_indexes(Some(&declared), &found);
    assert_eq!(plan.drops, vec!["a_1".to_string()]);
    assert!(!plan.drops.contains(&"_id_".to_string()));
}

#[test]
fn a_resource_without_a_list_of_indexes_declares_none() {
    let found = vec![
        id_index(),
        observed(vec![("a", Bson::Int32(1))], &named("a_1", None)),
        observed(vec![("b", Bson::Int32(1))], &Options::new()),
        observed(vec![("c", Bson::Int32(-1))], &named("c_-1", Some(true))),
    ];
    let plan = reconcile_indexes(None, &found);
    assert!(plan.changed());
    assert_eq!(plan.drops, vec!["a_1".to_string(), "c_-1".to_string()]);
    assert_eq!(plan.creates.len(), 0);
    let listed = reconcile_indexes(Some(&vec![]), &found);
    assert_eq!(listed.drops, plan.drops);
    assert_eq!(listed.creates.len(), 0);
    let plan = reconcile_indexes(None, &[id_index()]);
    assert!(!plan.changed());
    let plan = reconcile_indexes(None, &[]);
    assert!(!plan.changed());
}

#[test]
fn a_created_text_index_read_back_with_weights_causes_no_change() {
    let declared = vec![index(
        vec![text_key("title"), text_key("body")],
        Some(Options::new()),
    )];
    let mut reported = Options::new();
    reported.name = Some("title_text_body_text".to_string());
    reported.default_language = Some("english".to_string());
    reported.language_override = Some("language".to_string());
    reported.text_index_version = Some(3);
    reported.weights = Some(FieldMap::from_entries(vec![
        ("title".to_string(), 1u32),
        ("body".to_string(), 1u32),
    ]));
    let found = vec![
        id_index(),
        observed(
            vec![("_fts", Bson::String("text".to_string())), ("_ftsx", Bson::Int32(1))],
            &reported,
        ),
    ];
    let read = index_model_to_index(&found[1]);
    assert_eq!(read.keys.len(), 2);
    assert!(read.keys[0].same(&text_key("body")));
    assert!(read.keys[1].same(&text_key("title")));
    let plan = reconcile_indexes(Some(&declared), &found);
    assert!(!plan.changed());
    assert_eq!(plan.drops.len(), 0);
    assert_eq!(plan.creates.len(), 0);
}

#[test]
fn reported_text_options_are_not_the_documented_defaults() {
    let declared = vec![index(vec![text_key("title"), text_key("body")], None)];
    let mut reported = Options::new();
    reported.name = Some("title_text_body_text".to_string());
    reported.text_index_version = Some(3);
    reported.weights = Some(FieldMap::from_entries(vec![
        ("title".to_string(), 1u32),
        ("body".to_string(), 1u32),
    ]));
    let found = vec![observed(
        vec![("_fts", Bson::String("text".to_string())), ("_ftsx", Bson::Int32(1))],
        &reported,
    )];
    let plan = reconcile_indexes(Some(&declared), &found);
    assert!(plan.changed());
    assert_eq!(plan.drops, vec!["title_text_body_text".to_string()]);
    assert_eq!(plan.creates.len(), 1);
}

#[test]
fn a_second_plan_on_the_outcome_of_the_first_changes_nothing() {
    let declared = vec![
        index(vec![asc("a")], None),
        index(vec![asc("b"), asc("c")], Some(named("bc", Some(true)))),
    ];
    let found = vec![
        id_index(),
        observed(vec![("a", Bson::Int32(-1))], &named("a_-1", None)),
        observed(vec![("z", Bson::Int32(1))], &named("z_1", None)),
    ];
    let plan = reconcile_indexes(Some(&declared), &found);
    assert_eq!(plan.drops, vec!["a_-1".to_string(), "z_1".to_string()]);
    assert_eq!(plan.creates.len(), 2);
    let mut after = vec![id_index()];
    for (i, created) in plan.creates.iter().enumerate() {
        let mut stored = created.clone();
        if stored.options.is_none() {
            stored.options = Some(options_to_model(&Options::new()));
        }
        if stored.options.as_ref().unwrap().name.is_none() {
            stored.options.as_mut().unwrap().name = Some(format!("generated_{}", i));
        }
        after.push(stored);
    }
    let plan = reconcile_indexes(Some(&declared), &after);
    assert!(!plan.changed());
    assert_eq!(index_to_model(&declared[0]).keys.len(), 1);
}
