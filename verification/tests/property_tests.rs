use zellinotes_recipes::dao::recipes_from_documents;
use zellinotes_recipes::document::{Document, ObjectId, Value};
use zellinotes_recipes::model::difficulty::Difficulty;
use zellinotes_recipes::model::ingredients::Ingredient;
use zellinotes_recipes::model::measurement_unit::MeasurementUnit;
use zellinotes_recipes::model::recipe::Recipe;

fn oid(last: u8) -> ObjectId {
    ObjectId { bytes: vec![9, 8, 7, 6, 5, 4, 3, 2, 1, 0, 0, last] }
}

fn sample_recipe() -> Recipe {
    Recipe {
        _id: oid(1),
        cooking_time_in_minutes: 45,
        created: 1_599_000_000_000,
        last_modified: 1_599_500_000_000,
        ingredients: vec![
            Ingredient::new("0", 250, "Flour", MeasurementUnit::Gramm),
            Ingredient::new("1", 2, "Milk", MeasurementUnit::Liter),
        ],
        version: 3,
        difficulty: Difficulty::Medium,
        description: String::new(),
        title: "Pancakes".to_string(),
        tags: vec!["sweet".to_string(), "fast".to_string()],
        image_oid: None,
        instructions: vec!["mix".to_string(), "fry".to_string()],
        default_servings: 4,
    }
}

fn valid_doc() -> Document {
    sample_recipe().to_document()
}

#[test]
fn round_trip_preserves_every_field() {
    let recipe = sample_recipe();
    let back = Recipe::try_from(&recipe.to_document()).unwrap();
    assert_eq!(back, recipe);
}

#[test]
fn round_trip_preserves_image_reference() {
    let mut recipe = sample_recipe();
    recipe.image_oid = Some(oid(77));
    let back = Recipe::try_from(&recipe.to_document()).unwrap();
    assert_eq!(back.image_oid, Some(oid(77)));
    assert_eq!(back, recipe);
}

#[test]
fn clamping_is_idempotent() {
    let mut doc = valid_doc();
    doc.insert("cookingTimeInMinutes".to_string(), Value::Int32(-5));
    doc.insert("defaultServings".to_string(), Value::Int32(0));
    let first = Recipe::try_from(&doc).unwrap();
    assert_eq!(first.cooking_time_in_minutes, 0);
    assert_eq!(first.default_servings, 1);

    let second = Recipe::try_from(&first.to_document()).unwrap();
    assert_eq!(second.cooking_time_in_minutes, 0);
    assert_eq!(second.default_servings, 1);
    assert_eq!(second, first);
}

#[test]
fn negative_default_servings_clamp_to_one() {
    let mut doc = valid_doc();
    doc.insert("defaultServings".to_string(), Value::Int32(-8));
    assert_eq!(Recipe::try_from(&doc).unwrap().default_servings, 1);
}

#[test]
fn enum_parsing_is_strict() {
    assert!(Difficulty::try_from("easy").is_err());
    let parsed = Difficulty::try_from("Easy").unwrap();
    assert_eq!(parsed, Difficulty::Easy);
    assert_eq!(Difficulty::Easy.to_string(), "Easy");
}

#[test]
fn image_null_means_absent_and_round_trips_as_null() {
    let mut doc = valid_doc();
    doc.insert("image".to_string(), Value::Null);
    let recipe = Recipe::try_from(&doc).unwrap();
    assert_eq!(recipe.image_oid, None);

    let out = recipe.to_document();
    assert_eq!(out.get(&"image".to_string()), Some(&Value::Null));
}

#[test]
fn image_key_missing_fails_the_parse() {
    let mut doc = valid_doc();
    doc.remove(&"image".to_string());
    let result = Recipe::try_from(&doc);
    assert!(result.is_err());
    assert_eq!(result.unwrap_err().error, "Error getting image from document".to_string());
}

#[test]
fn one_bad_ingredient_fails_the_whole_recipe() {
    let mut bad = Document::new();
    bad.insert("id".to_string(), Value::Text("2".to_string()));
    bad.insert("title".to_string(), Value::Text("Sugar".to_string()));
    bad.insert("measurementUnit".to_string(), Value::Text("Gramm".to_string()));

    let mut doc = valid_doc();
    doc.insert(
        "ingredients".to_string(),
        Value::Array(vec![
            Ingredient::new("0", 100, "Flour", MeasurementUnit::Gramm).to_value(),
            Value::SubDoc(bad),
        ]),
    );
    assert!(Recipe::try_from(&doc).is_err());
}

#[test]
fn tags_with_a_null_fail_and_empty_tags_pass() {
    let mut doc = valid_doc();
    doc.insert(
        "tags".to_string(),
        Value::Array(vec![Value::Null, Value::Text("vegan".to_string())]),
    );
    assert!(Recipe::try_from(&doc).is_err());

    doc.insert("tags".to_string(), Value::Array(Vec::new()));
    let recipe = Recipe::try_from(&doc).unwrap();
    assert_eq!(recipe.tags, Vec::<String>::new());
}

#[test]
fn negative_version_is_reinterpreted_as_unsigned() {
    let mut doc = valid_doc();
    doc.insert("version".to_string(), Value::Int32(-5));
    let recipe = Recipe::try_from(&doc).unwrap();
    assert_eq!(recipe.version, 4_294_967_291);

    let back = Recipe::try_from(&recipe.to_document()).unwrap();
    assert_eq!(back.version, 4_294_967_291);
}

#[test]
fn missing_id_reports_the_id_field_first() {
    let mut doc = valid_doc();
    doc.remove(&"_id".to_string());
    doc.remove(&"title".to_string());
    let err = Recipe::try_from(&doc).unwrap_err();
    assert_eq!(err.error, "Error getting  Object Id document".to_string());
}

#[test]
fn field_errors_follow_extraction_order() {
    let mut doc = valid_doc();
    doc.insert("title".to_string(), Value::Null);
    doc.insert("defaultServings".to_string(), Value::Text("two".to_string()));
    let err = Recipe::try_from(&doc).unwrap_err();
    assert_eq!(err.error, "Error getting title from document".to_string());
}

#[test]
fn batch_validation_converts_every_document() {
    let docs = vec![valid_doc(), valid_doc(), valid_doc()];
    let recipes = recipes_from_documents(&docs).unwrap();
    assert_eq!(recipes.len(), 3);
    assert_eq!(recipes[0], sample_recipe());
}

#[test]
fn batch_validation_fails_on_the_first_bad_document() {
    let mut bad = valid_doc();
    bad.insert("difficulty".to_string(), Value::Int32(2));
    let docs = vec![valid_doc(), bad];
    let err = recipes_from_documents(&docs).unwrap_err();
    assert_eq!(err.error, "Error getting difficulty from document".to_string());
}
