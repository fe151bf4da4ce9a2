//! The recipe itself and its bidirectional document mapping: parsing a
//! loosely typed document field by field (failing on the first bad field,
//! in extraction order) and writing a recipe back in its canonical
//! document shape.

use vstd::prelude::*;

use crate::document::{
    array_at, datetime_at, int32_at, lookup, oid_at, text_at, values_view, Document, Entry, EntryV,
    ObjectId, Value, ValueV,
};
use crate::model::difficulty::{
    difficulty_error_text, difficulty_text, parse_difficulty, Difficulty,
};
use crate::model::ingredients::{ingredient_value, parse_ingredient, Ingredient, IngredientV};

verus! {

broadcast use crate::document::group_document_views;

/// A validation failure: names the field that could not be extracted and
/// what was expected of it.
#[derive(Debug)]
pub struct RecipeFormatError {
    pub error: String,
}

impl RecipeFormatError {
    pub fn from(error: &str) -> (e: Self)
        ensures
            e.error@ == error@,
    {
        RecipeFormatError { error: error.to_owned() }
    }
}

/// One dish entry. Timestamps are milliseconds since the epoch, as the
/// store keeps them; the identifier and the optional image reference are
/// opaque store identifiers.
#[derive(Debug, Clone, PartialEq)]
pub struct Recipe {
    pub _id: ObjectId,
    pub cooking_time_in_minutes: u32,
    pub created: i64,
    pub last_modified: i64,
    pub ingredients: Vec<Ingredient>,
    pub version: u32,
    pub difficulty: Difficulty,
    pub description: String,
    pub title: String,
    pub tags: Vec<String>,
    pub image_oid: Option<ObjectId>,
    pub instructions: Vec<String>,
    pub default_servings: u32,
}

/// The mathematical model of a recipe.
#[verifier::ext_equal]
pub struct RecipeV {
    pub _id: Seq<u8>,
    pub cooking_time_in_minutes: u32,
    pub created: i64,
    pub last_modified: i64,
    pub ingredients: Seq<IngredientV>,
    pub version: u32,
    pub difficulty: Difficulty,
    pub description: Seq<char>,
    pub title: Seq<char>,
    pub tags: Seq<Seq<char>>,
    pub image_oid: Option<Seq<u8>>,
    pub instructions: Seq<Seq<char>>,
    pub default_servings: u32,
}

/// The models of a sequence of strings, element by element.
pub open spec fn texts_view(items: Seq<String>) -> Seq<Seq<char>> {
    items.map_values(|s: String| s@)
}

/// The models of a sequence of ingredients, element by element.
pub open spec fn ingredients_view(items: Seq<Ingredient>) -> Seq<IngredientV> {
    items.map_values(|i: Ingredient| i@)
}

/// The model of an optional opaque identifier.
pub open spec fn image_view(image: Option<ObjectId>) -> Option<Seq<u8>> {
    match image {
        Some(o) => Some(o@),
        None => None,
    }
}

impl View for Recipe {
    type V = RecipeV;

    open spec fn view(&self) -> RecipeV {
        RecipeV {
            _id: self._id@,
            cooking_time_in_minutes: self.cooking_time_in_minutes,
            created: self.created,
            last_modified: self.last_modified,
            ingredients: ingredients_view(self.ingredients@),
            version: self.version,
            difficulty: self.difficulty,
            description: self.description@,
            title: self.title@,
            tags: texts_view(self.tags@),
            image_oid: image_view(self.image_oid),
            instructions: texts_view(self.instructions@),
            default_servings: self.default_servings,
        }
    }
}

impl RecipeV {
    /// The numeric invariants the parser establishes: the cooking time
    /// came from a non-negative 32-bit integer, and the default servings
    /// from a positive one.
    pub open spec fn wf(self) -> bool {
        &&& self.cooking_time_in_minutes <= i32::MAX
        &&& 1 <= self.default_servings <= i32::MAX
    }
}

/// A negative cooking time is clamped to zero, without an error.
pub open spec fn clamp_cooking_time(n: i32) -> u32 {
    if n < 0 {
        0
    } else {
        n as u32
    }
}

/// A default-servings value below one is clamped to one, without an error.
pub open spec fn clamp_servings(n: i32) -> u32 {
    if n < 1 {
        1
    } else {
        n as u32
    }
}

/// Every element of the sequence is text.
pub open spec fn all_text(items: Seq<ValueV>) -> bool {
    forall|i: int| 0 <= i < items.len() ==> items[i] is Text
}

/// The texts of a sequence of text values.
pub open spec fn texts_of(items: Seq<ValueV>) -> Seq<Seq<char>> {
    items.map_values(|v: ValueV| v->Text_0)
}

/// Every element of the sequence parses as an ingredient.
pub open spec fn all_ingredients(items: Seq<ValueV>) -> bool {
    forall|i: int| 0 <= i < items.len() ==> parse_ingredient(items[i]) is Ok
}

/// The ingredients of a sequence of well-formed ingredient values.
pub open spec fn ingredients_of(items: Seq<ValueV>) -> Seq<IngredientV> {
    items.map_values(|v: ValueV| parse_ingredient(v)->Ok_0)
}

/// The store identifier of the document, when present with its type.
pub open spec fn extracted_id(doc: Seq<EntryV>) -> Option<Seq<u8>> {
    oid_at(doc, "_id"@)
}

/// The cooking time, clamped to zero from below, when the field holds a
/// 32-bit integer.
pub open spec fn extracted_cooking_time(doc: Seq<EntryV>) -> Option<u32> {
    match int32_at(doc, "cookingTimeInMinutes"@) {
        Some(n) => Some(clamp_cooking_time(n)),
        None => None,
    }
}

/// The creation timestamp, when the field holds a timestamp.
pub open spec fn extracted_created(doc: Seq<EntryV>) -> Option<i64> {
    datetime_at(doc, "created"@)
}

/// The last-modified timestamp, when the field holds a timestamp.
pub open spec fn extracted_last_modified(doc: Seq<EntryV>) -> Option<i64> {
    datetime_at(doc, "lastModified"@)
}

/// The ingredient list, when the field holds an array and every element
/// parses as an ingredient: one malformed element invalidates the whole
/// list.
pub open spec fn extracted_ingredients(doc: Seq<EntryV>) -> Option<Seq<IngredientV>> {
    match array_at(doc, "ingredients"@) {
        Some(items) => if all_ingredients(items) {
            Some(ingredients_of(items))
        } else {
            None
        },
        None => None,
    }
}

/// The message for a failed ingredient list: a missing or mistyped array
/// names the field; a malformed element reports an empty message.
pub open spec fn ingredients_error(doc: Seq<EntryV>) -> Seq<char> {
    match array_at(doc, "ingredients"@) {
        Some(_) => ""@,
        None => "Error getting ingredients from document"@,
    }
}

/// The version, when the field holds a 32-bit integer. A negative stored
/// version is reinterpreted as its unsigned 32-bit counterpart rather
/// than rejected, as the storage layer has always done.
pub open spec fn extracted_version(doc: Seq<EntryV>) -> Option<u32> {
    match int32_at(doc, "version"@) {
        Some(n) => Some(n as u32),
        None => None,
    }
}

/// The difficulty, when the field holds text naming one exactly.
pub open spec fn extracted_difficulty(doc: Seq<EntryV>) -> Option<Difficulty> {
    match text_at(doc, "difficulty"@) {
        Some(s) => parse_difficulty(s),
        None => None,
    }
}

/// The message for a failed difficulty: a missing or mistyped field names
/// the field; text naming no difficulty reports the offending text.
pub open spec fn difficulty_error(doc: Seq<EntryV>) -> Seq<char> {
    match text_at(doc, "difficulty"@) {
        Some(s) => difficulty_error_text(s),
        None => "Error getting difficulty from document"@,
    }
}

/// The description, when the field holds text; empty text is allowed.
pub open spec fn extracted_description(doc: Seq<EntryV>) -> Option<Seq<char>> {
    text_at(doc, "description"@)
}

/// The title, when the field holds text; empty text is allowed.
pub open spec fn extracted_title(doc: Seq<EntryV>) -> Option<Seq<char>> {
    text_at(doc, "title"@)
}

/// The tags, when the field holds an array of texts: one element of any
/// other type invalidates the whole array.
pub open spec fn extracted_tags(doc: Seq<EntryV>) -> Option<Seq<Seq<char>>> {
    match array_at(doc, "tags"@) {
        Some(items) => if all_text(items) {
            Some(texts_of(items))
        } else {
            None
        },
        None => None,
    }
}

/// The optional image reference. The field is tri-state: explicit null
/// means no image, an opaque identifier means an image, and anything
/// else, a missing key included, is an error.
pub open spec fn extracted_image(doc: Seq<EntryV>) -> Option<Option<Seq<u8>>> {
    match lookup(doc, "image"@) {
        Some(ValueV::Null) => Some(None),
        Some(ValueV::Oid(b)) => Some(Some(b)),
        _ => None,
    }
}

/// The instructions, when the field holds an array of texts: one element
/// of any other type invalidates the whole array.
pub open spec fn extracted_instructions(doc: Seq<EntryV>) -> Option<Seq<Seq<char>>> {
    match array_at(doc, "instructions"@) {
        Some(items) => if all_text(items) {
            Some(texts_of(items))
        } else {
            None
        },
        None => None,
    }
}

/// The default servings, clamped to one from below, when the field holds
/// a 32-bit integer.
pub open spec fn extracted_default_servings(doc: Seq<EntryV>) -> Option<u32> {
    match int32_at(doc, "defaultServings"@) {
        Some(n) => Some(clamp_servings(n)),
        None => None,
    }
}

/// The message of the first field that fails to extract, in extraction
/// order, or nothing when every field extracts.
pub open spec fn recipe_error(doc: Seq<EntryV>) -> Option<Seq<char>> {
    if extracted_id(doc) is None {
        Some("Error getting  Object Id document"@)
    } else if extracted_cooking_time(doc) is None {
        Some("Error getting cooking timefrom document"@)
    } else if extracted_created(doc) is None {
        Some("Error getting created from document"@)
    } else if extracted_last_modified(doc) is None {
        Some("Error getting last modified from document"@)
    } else if extracted_ingredients(doc) is None {
        Some(ingredients_error(doc))
    } else if extracted_version(doc) is None {
        Some("Error getting version from document"@)
    } else if extracted_difficulty(doc) is None {
        Some(difficulty_error(doc))
    } else if extracted_description(doc) is None {
        Some("Error getting description from document"@)
    } else if extracted_title(doc) is None {
        Some("Error getting title from document"@)
    } else if extracted_tags(doc) is None {
        Some("Error getting tag from document"@)
    } else if extracted_image(doc) is None {
        Some("Error getting image from document"@)
    } else if extracted_instructions(doc) is None {
        Some("Error getting instructions from document"@)
    } else if extracted_default_servings(doc) is None {
        Some("Error getting default_servings from document"@)
    } else {
        None
    }
}

/// The recipe a fully valid document describes; meaningful when
/// `recipe_error` reports nothing.
pub open spec fn recipe_of(doc: Seq<EntryV>) -> RecipeV {
    RecipeV {
        _id: extracted_id(doc)->0,
        cooking_time_in_minutes: extracted_cooking_time(doc)->0,
        created: extracted_created(doc)->0,
        last_modified: extracted_last_modified(doc)->0,
        ingredients: extracted_ingredients(doc)->0,
        version: extracted_version(doc)->0,
        difficulty: extracted_difficulty(doc)->0,
        description: extracted_description(doc)->0,
        title: extracted_title(doc)->0,
        tags: extracted_tags(doc)->0,
        image_oid: extracted_image(doc)->0,
        instructions: extracted_instructions(doc)->0,
        default_servings: extracted_default_servings(doc)->0,
    }
}

/// The canonical document shape of a recipe: every field under its
/// canonical key, in order, with an absent image written as an explicit
/// null so that the tri-state survives a round trip.
pub open spec fn recipe_doc(r: RecipeV) -> Seq<EntryV> {
    seq![
        EntryV { key: "_id"@, value: ValueV::Oid(r._id) },
        EntryV {
            key: "cookingTimeInMinutes"@,
            value: ValueV::Int32(r.cooking_time_in_minutes as i32),
        },
        EntryV { key: "created"@, value: ValueV::DateTime(r.created) },
        EntryV { key: "lastModified"@, value: ValueV::DateTime(r.last_modified) },
        EntryV {
            key: "ingredients"@,
            value: ValueV::Array(r.ingredients.map_values(|i: IngredientV| ingredient_value(i))),
        },
        EntryV { key: "version"@, value: ValueV::Int32(r.version as i32) },
        EntryV { key: "difficulty"@, value: ValueV::Text(difficulty_text(r.difficulty)) },
        EntryV { key: "description"@, value: ValueV::Text(r.description) },
        EntryV { key: "title"@, value: ValueV::Text(r.title) },
        EntryV {
            key: "tags"@,
            value: ValueV::Array(r.tags.map_values(|t: Seq<char>| ValueV::Text(t))),
        },
        EntryV {
            key: "image"@,
            value: match r.image_oid {
                Some(b) => ValueV::Oid(b),
                None => ValueV::Null,
            },
        },
        EntryV {
            key: "instructions"@,
            value: ValueV::Array(r.instructions.map_values(|t: Seq<char>| ValueV::Text(t))),
        },
        EntryV { key: "defaultServings"@, value: ValueV::Int32(r.default_servings as i32) },
    ]
}

impl Recipe {
    pub fn extract_id(doc: &Document) -> (r: Result<ObjectId, RecipeFormatError>)
        ensures
            match r {
                Ok(o) => extracted_id(doc@) == Some(o@),
                Err(e) => extracted_id(doc@) is None && e.error@
                    == "Error getting  Object Id document"@,
            },
    {
        match doc.get_object_id(&"_id".to_owned()) {
            Some(o) => Ok(o.clone()),
            None => Err(RecipeFormatError::from("Error getting  Object Id document")),
        }
    }

    pub fn extract_cooking_time(doc: &Document) -> (r: Result<u32, RecipeFormatError>)
        ensures
            match r {
                Ok(n) => extracted_cooking_time(doc@) == Some(n),
                Err(e) => extracted_cooking_time(doc@) is None && e.error@
                    == "Error getting cooking timefrom document"@,
            },
    {
        match doc.get_i32(&"cookingTimeInMinutes".to_owned()) {
            Some(n) => Ok(
                if n < 0 {
                    0
                } else {
                    n as u32
                },
            ),
            None => Err(RecipeFormatError::from("Error getting cooking timefrom document")),
        }
    }

    pub fn extract_created(doc: &Document) -> (r: Result<i64, RecipeFormatError>)
        ensures
            match r {
                Ok(t) => extracted_created(doc@) == Some(t),
                Err(e) => extracted_created(doc@) is None && e.error@
                    == "Error getting created from document"@,
            },
    {
        match doc.get_datetime(&"created".to_owned()) {
            Some(t) => Ok(t),
            None => Err(RecipeFormatError::from("Error getting created from document")),
        }
    }

    pub fn extract_last_modified(doc: &Document) -> (r: Result<i64, RecipeFormatError>)
        ensures
            match r {
                Ok(t) => extracted_last_modified(doc@) == Some(t),
                Err(e) => extracted_last_modified(doc@) is None && e.error@
                    == "Error getting last modified from document"@,
            },
    {
        match doc.get_datetime(&"lastModified".to_owned()) {
            Some(t) => Ok(t),
            None => Err(RecipeFormatError::from("Error getting last modified from document")),
        }
    }

    pub fn extract_ingredients(doc: &Document) -> (r: Result<Vec<Ingredient>, RecipeFormatError>)
        ensures
            match r {
                Ok(v) => extracted_ingredients(doc@) == Some(ingredients_view(v@)),
                Err(e) => extracted_ingredients(doc@) is None && e.error@ == ingredients_error(
                    doc@,
                ),
            },
    {
        let items = match doc.get_array(&"ingredients".to_owned()) {
            Some(items) => items,
            None => {
                return Err(RecipeFormatError::from("Error getting ingredients from document"));
            },
        };
        let ghost itemsv = values_view(items@);
        let mut out: Vec<Ingredient> = Vec::new();
        let n = items.len();
        let mut i: usize = 0;
        while i < n
            invariant
                i <= n,
                n == items@.len(),
                itemsv == values_view(items@),
                extracted_ingredients(doc@) == (if all_ingredients(itemsv) {
                    Some(ingredients_of(itemsv))
                } else {
                    None::<Seq<IngredientV>>
                }),
                ingredients_error(doc@) == ""@,
                out@.len() == i,
                forall|j: int|
                    0 <= j < i ==> parse_ingredient(itemsv[j]) == Ok::<IngredientV, Seq<char>>(
                        #[trigger] out@[j]@,
                    ),
            decreases n - i,
        {
            proof {
                assert(values_view(items@)[i as int] == items@[i as int]@);
            }
            match Ingredient::try_from(&items[i]) {
                Ok(ing) => {
                    out.push(ing);
                },
                Err(_) => {
                    proof {
                        assert(!all_ingredients(itemsv));
                    }
                    return Err(RecipeFormatError::from(""));
                },
            }
            i += 1;
        }
        proof {
            assert forall|j: int| 0 <= j < itemsv.len() implies parse_ingredient(
                itemsv[j],
            ) is Ok by {
                assert(parse_ingredient(itemsv[j]) == Ok::<IngredientV, Seq<char>>(out@[j]@));
            }
            assert(ingredients_of(itemsv) =~= ingredients_view(out@));
        }
        Ok(out)
    }

    pub fn extract_version(doc: &Document) -> (r: Result<u32, RecipeFormatError>)
        ensures
            match r {
                Ok(n) => extracted_version(doc@) == Some(n),
                Err(e) => extracted_version(doc@) is None && e.error@
                    == "Error getting version from document"@,
            },
    {
        match doc.get_i32(&"version".to_owned()) {
            Some(n) => Ok(#[verifier::truncate] (n as u32)),
            None => Err(RecipeFormatError::from("Error getting version from document")),
        }
    }

    pub fn extract_difficulty(doc: &Document) -> (r: Result<Difficulty, RecipeFormatError>)
        ensures
            match r {
                Ok(d) => extracted_difficulty(doc@) == Some(d),
                Err(e) => extracted_difficulty(doc@) is None && e.error@ == difficulty_error(doc@),
            },
    {
        match doc.get_str(&"difficulty".to_owned()) {
            Some(s) => Difficulty::try_from(s.as_str()),
            None => Err(RecipeFormatError::from("Error getting difficulty from document")),
        }
    }

    pub fn extract_description(doc: &Document) -> (r: Result<String, RecipeFormatError>)
        ensures
            match r {
                Ok(s) => extracted_description(doc@) == Some(s@),
                Err(e) => extracted_description(doc@) is None && e.error@
                    == "Error getting description from document"@,
            },
    {
        match doc.get_str(&"description".to_owned()) {
            Some(s) => Ok(s.clone()),
            None => Err(RecipeFormatError::from("Error getting description from document")),
        }
    }

    pub fn extract_title(doc: &Document) -> (r: Result<String, RecipeFormatError>)
        ensures
            match r {
                Ok(s) => extracted_title(doc@) == Some(s@),
                Err(e) => extracted_title(doc@) is None && e.error@
                    == "Error getting title from document"@,
            },
    {
        match doc.get_str(&"title".to_owned()) {
            Some(s) => Ok(s.clone()),
            None => Err(RecipeFormatError::from("Error getting title from document")),
        }
    }

    pub fn extract_tags(doc: &Document) -> (r: Result<Vec<String>, RecipeFormatError>)
        ensures
            match r {
                Ok(v) => extracted_tags(doc@) == Some(texts_view(v@)),
                Err(e) => extracted_tags(doc@) is None && e.error@
                    == "Error getting tag from document"@,
            },
    {
        match Recipe::extract_texts(doc, &"tags".to_owned()) {
            Some(v) => Ok(v),
            None => Err(RecipeFormatError::from("Error getting tag from document")),
        }
    }

    pub fn extract_image(doc: &Document) -> (r: Result<Option<ObjectId>, RecipeFormatError>)
        ensures
            match r {
                Ok(img) => extracted_image(doc@) == Some(image_view(img)),
                Err(e) => extracted_image(doc@) is None && e.error@
                    == "Error getting image from document"@,
            },
    {
        match doc.get(&"image".to_owned()) {
            Some(Value::Null) => Ok(None),
            Some(Value::Oid(o)) => Ok(Some(o.clone())),
            _ => Err(RecipeFormatError::from("Error getting image from document")),
        }
    }

    pub fn extract_instructions(doc: &Document) -> (r: Result<Vec<String>, RecipeFormatError>)
        ensures
            match r {
                Ok(v) => extracted_instructions(doc@) == Some(texts_view(v@)),
                Err(e) => extracted_instructions(doc@) is None && e.error@
                    == "Error getting instructions from document"@,
            },
    {
        match Recipe::extract_texts(doc, &"instructions".to_owned()) {
            Some(v) => Ok(v),
            None => Err(RecipeFormatError::from("Error getting instructions from document")),
        }
    }

    pub fn extract_default_servings(doc: &Document) -> (r: Result<u32, RecipeFormatError>)
        ensures
            match r {
                Ok(n) => extracted_default_servings(doc@) == Some(n),
                Err(e) => extracted_default_servings(doc@) is None && e.error@
                    == "Error getting default_servings from document"@,
            },
    {
        match doc.get_i32(&"defaultServings".to_owned()) {
            Some(n) => Ok(
                if n < 1 {
                    1
                } else {
                    n as u32
                },
            ),
            None => Err(RecipeFormatError::from("Error getting default_servings from document")),
        }
    }

    /// The strings of an array of texts under `key`: nothing when the
    /// field is no array or any element is no text.
    fn extract_texts(doc: &Document, key: &String) -> (r: Option<Vec<String>>)
        ensures
            match r {
                Some(v) => {
                    &&& array_at(doc@, key@) matches Some(items)
                    &&& all_text(items)
                    &&& texts_of(items) == texts_view(v@)
                },
                None => array_at(doc@, key@) matches Some(items) ==> !all_text(items),
            },
    {
        let items = match doc.get_array(key) {
            Some(items) => items,
            None => {
                return None;
            },
        };
        let ghost itemsv = values_view(items@);
        let mut out: Vec<String> = Vec::new();
        let n = items.len();
        let mut i: usize = 0;
        while i < n
            invariant
                i <= n,
                n == items@.len(),
                itemsv == values_view(items@),
                array_at(doc@, key@) == Some(itemsv),
                out@.len() == i,
                forall|j: int| 0 <= j < i ==> itemsv[j] is Text,
                forall|j: int| 0 <= j < i ==> itemsv[j]->Text_0 == #[trigger] out@[j]@,
            decreases n - i,
        {
            proof {
                assert(values_view(items@)[i as int] == items@[i as int]@);
            }
            match &items[i] {
                Value::Text(s) => {
                    out.push(s.clone());
                },
                _ => {
                    proof {
                        assert(!all_text(itemsv));
                    }
                    return None;
                },
            }
            i += 1;
        }
        proof {
            assert forall|j: int| 0 <= j < itemsv.len() implies itemsv[j] is Text by {
                assert(itemsv[j]->Text_0 == out@[j]@);
            }
            assert(texts_of(itemsv) =~= texts_view(out@));
        }
        Some(out)
    }

    /// Parse a full recipe out of a document, field by field, returning
    /// the first field failure in extraction order.
    pub fn try_from(doc: &Document) -> (r: Result<Recipe, RecipeFormatError>)
        ensures
            match r {
                Ok(rec) => recipe_error(doc@) is None && rec@ == recipe_of(doc@),
                Err(e) => recipe_error(doc@) == Some(e.error@),
            },
    {
        let _id = match Recipe::extract_id(doc) {
            Ok(v) => v,
            Err(e) => {
                return Err(e);
            },
        };
        let cooking_time_in_minutes = match Recipe::extract_cooking_time(doc) {
            Ok(v) => v,
            Err(e) => {
                return Err(e);
            },
        };
        let created = match Recipe::extract_created(doc) {
            Ok(v) => v,
            Err(e) => {
                return Err(e);
            },
        };
        let last_modified = match Recipe::extract_last_modified(doc) {
            Ok(v) => v,
            Err(e) => {
                return Err(e);
            },
        };
        let ingredients = match Recipe::extract_ingredients(doc) {
            Ok(v) => v,
            Err(e) => {
                return Err(e);
            },
        };
        let version = match Recipe::extract_version(doc) {
            Ok(v) => v,
            Err(e) => {
                return Err(e);
            },
        };
        let difficulty = match Recipe::extract_difficulty(doc) {
            Ok(v) => v,
            Err(e) => {
                return Err(e);
            },
        };
        let description = match Recipe::extract_description(doc) {
            Ok(v) => v,
            Err(e) => {
                return Err(e);
            },
        };
        let title = match Recipe::extract_title(doc) {
            Ok(v) => v,
            Err(e) => {
                return Err(e);
            },
        };
        let tags = match Recipe::extract_tags(doc) {
            Ok(v) => v,
            Err(e) => {
                return Err(e);
            },
        };
        let image_oid = match Recipe::extract_image(doc) {
            Ok(v) => v,
            Err(e) => {
                return Err(e);
            },
        };
        let instructions = match Recipe::extract_instructions(doc) {
            Ok(v) => v,
            Err(e) => {
                return Err(e);
            },
        };
        let default_servings = match Recipe::extract_default_servings(doc) {
            Ok(v) => v,
            Err(e) => {
                return Err(e);
            },
        };
        Ok(
            Recipe {
                _id,
                cooking_time_in_minutes,
                created,
                last_modified,
                ingredients,
                version,
                difficulty,
                description,
                title,
                tags,
                image_oid,
                instructions,
                default_servings,
            },
        )
    }

    /// The canonical document values of the ingredient list.
    fn ingredient_values(items: &Vec<Ingredient>) -> (r: Vec<Value>)
        ensures
            r@.len() == items@.len(),
            forall|j: int|
                0 <= j < items@.len() ==> (#[trigger] r@[j])@ == ingredient_value(items@[j]@),
    {
        let mut out: Vec<Value> = Vec::new();
        let n = items.len();
        let mut i: usize = 0;
        while i < n
            invariant
                i <= n,
                n == items@.len(),
                out@.len() == i,
                forall|j: int| 0 <= j < i ==> (#[trigger] out@[j])@ == ingredient_value(
                    items@[j]@,
                ),
            decreases n - i,
        {
            out.push(items[i].to_value());
            i += 1;
        }
        out
    }

    /// The canonical document values of a string list.
    fn text_values(items: &Vec<String>) -> (r: Vec<Value>)
        ensures
            r@.len() == items@.len(),
            forall|j: int|
                0 <= j < items@.len() ==> (#[trigger] r@[j])@ == ValueV::Text(items@[j]@),
    {
        let mut out: Vec<Value> = Vec::new();
        let n = items.len();
        let mut i: usize = 0;
        while i < n
            invariant
                i <= n,
                n == items@.len(),
                out@.len() == i,
                forall|j: int| 0 <= j < i ==> (#[trigger] out@[j])@ == ValueV::Text(items@[j]@),
            decreases n - i,
        {
            out.push(Value::Text(items[i].clone()));
            i += 1;
        }
        out
    }

    /// Write this recipe in its canonical document shape. Total: every
    /// recipe has a document, and an absent image is written as an
    /// explicit null.
    pub fn to_document(&self) -> (d: Document)
        ensures
            d@ == recipe_doc(self@),
    {
        let ingredient_list = Value::Array(Recipe::ingredient_values(&self.ingredients));
        let tag_list = Value::Array(Recipe::text_values(&self.tags));
        let instruction_list = Value::Array(Recipe::text_values(&self.instructions));
        let image = match &self.image_oid {
            Some(o) => Value::Oid(o.clone()),
            None => Value::Null,
        };
        let mut entries: Vec<Entry> = Vec::new();
        entries.push(Entry { key: "_id".to_owned(), value: Value::Oid(self._id.clone()) });
        entries.push(
            Entry {
                key: "cookingTimeInMinutes".to_owned(),
                value: Value::Int32(#[verifier::truncate] (self.cooking_time_in_minutes as i32)),
            },
        );
        entries.push(Entry { key: "created".to_owned(), value: Value::DateTime(self.created) });
        entries.push(
            Entry { key: "lastModified".to_owned(), value: Value::DateTime(self.last_modified) },
        );
        entries.push(Entry { key: "ingredients".to_owned(), value: ingredient_list });
        entries.push(
            Entry {
                key: "version".to_owned(),
                value: Value::Int32(#[verifier::truncate] (self.version as i32)),
            },
        );
        entries.push(
            Entry { key: "difficulty".to_owned(), value: Value::Text(self.difficulty.to_string()) },
        );
        entries.push(
            Entry { key: "description".to_owned(), value: Value::Text(self.description.clone()) },
        );
        entries.push(Entry { key: "title".to_owned(), value: Value::Text(self.title.clone()) });
        entries.push(Entry { key: "tags".to_owned(), value: tag_list });
        entries.push(Entry { key: "image".to_owned(), value: image });
        entries.push(Entry { key: "instructions".to_owned(), value: instruction_list });
        entries.push(
            Entry {
                key: "defaultServings".to_owned(),
                value: Value::Int32(#[verifier::truncate] (self.default_servings as i32)),
            },
        );
        let d = Document { entries };
        proof {
            let m = self@;
            assert(values_view((ingredient_list->Array_0)@) =~= m.ingredients.map_values(
                |i: IngredientV| ingredient_value(i),
            ));
            assert(values_view((tag_list->Array_0)@) =~= m.tags.map_values(
                |t: Seq<char>| ValueV::Text(t),
            ));
            assert(values_view((instruction_list->Array_0)@) =~= m.instructions.map_values(
                |t: Seq<char>| ValueV::Text(t),
            ));
            assert(d@ =~= recipe_doc(m));
        }
        d
    }
}

/// The parse outcome of a whole document: the recipe it describes, or
/// the message of its first failing field. Opaque, so that facts about
/// many documents at once stay cheap; `recipe_error` and `recipe_of`
/// give the field-level detail.
#[verifier::opaque]
pub open spec fn parse_outcome(doc: Seq<EntryV>) -> Result<RecipeV, Seq<char>> {
    match recipe_error(doc) {
        Some(m) => Err(m),
        None => Ok(recipe_of(doc)),
    }
}

/// Whatever parses also satisfies the numeric invariants: a parsed
/// cooking time fits a non-negative 32-bit integer and parsed default
/// servings are at least one, because the parser clamps both.
pub proof fn lemma_parsed_recipe_is_clamped(doc: Seq<EntryV>)
    requires
        recipe_error(doc) is None,
    ensures
        recipe_of(doc).wf(),
{
}

/// Writing a well-formed recipe to its canonical document and parsing
/// that document back yields the recipe itself, field for field, with
/// ingredient, tag and instruction order preserved.
pub proof fn lemma_recipe_round_trip(r: RecipeV)
    requires
        r.wf(),
    ensures
        recipe_error(recipe_doc(r)) is None,
        recipe_of(recipe_doc(r)) == r,
{
    let doc = recipe_doc(r);
    reveal_strlit("_id");
    reveal_strlit("cookingTimeInMinutes");
    reveal_strlit("created");
    reveal_strlit("lastModified");
    reveal_strlit("ingredients");
    reveal_strlit("version");
    reveal_strlit("difficulty");
    reveal_strlit("description");
    reveal_strlit("title");
    reveal_strlit("tags");
    reveal_strlit("image");
    reveal_strlit("instructions");
    reveal_strlit("defaultServings");
    assert("_id"@.len() == 3 && "cookingTimeInMinutes"@.len() == 20 && "created"@.len() == 7
        && "lastModified"@.len() == 12 && "ingredients"@.len() == 11 && "version"@.len() == 7
        && "difficulty"@.len() == 10 && "description"@.len() == 11 && "title"@.len() == 5
        && "tags"@.len() == 4 && "image"@.len() == 5 && "instructions"@.len() == 12
        && "defaultServings"@.len() == 15);
    assert("created"@[0] == 'c' && "version"@[0] == 'v' && "ingredients"@[0] == 'i'
        && "description"@[0] == 'd' && "lastModified"@[0] == 'l' && "instructions"@[0] == 'i'
        && "lastModified"@[1] == 'a' && "instructions"@[1] == 'n' && "title"@[0] == 't'
        && "image"@[0] == 'i');
    reveal_with_fuel(lookup, 15);
    assert(lookup(doc, "_id"@) == Some(ValueV::Oid(r._id)));
    assert(lookup(doc, "cookingTimeInMinutes"@) == Some(
        ValueV::Int32(r.cooking_time_in_minutes as i32),
    ));
    assert(lookup(doc, "created"@) == Some(ValueV::DateTime(r.created)));
    assert(lookup(doc, "lastModified"@) == Some(ValueV::DateTime(r.last_modified)));
    let ingredient_items = r.ingredients.map_values(|i: IngredientV| ingredient_value(i));
    assert(lookup(doc, "ingredients"@) == Some(ValueV::Array(ingredient_items)));
    assert(lookup(doc, "version"@) == Some(ValueV::Int32(r.version as i32)));
    assert(lookup(doc, "difficulty"@) == Some(ValueV::Text(difficulty_text(r.difficulty))));
    assert(lookup(doc, "description"@) == Some(ValueV::Text(r.description)));
    assert(lookup(doc, "title"@) == Some(ValueV::Text(r.title)));
    let tag_items = r.tags.map_values(|t: Seq<char>| ValueV::Text(t));
    assert(lookup(doc, "tags"@) == Some(ValueV::Array(tag_items)));
    assert(lookup(doc, "image"@) == Some(
        match r.image_oid {
            Some(b) => ValueV::Oid(b),
            None => ValueV::Null,
        },
    ));
    let instruction_items = r.instructions.map_values(|t: Seq<char>| ValueV::Text(t));
    assert(lookup(doc, "instructions"@) == Some(ValueV::Array(instruction_items)));
    assert(lookup(doc, "defaultServings"@) == Some(ValueV::Int32(r.default_servings as i32)));

    assert(clamp_cooking_time(r.cooking_time_in_minutes as i32) == r.cooking_time_in_minutes);
    let v = r.version;
    assert(((v as i32) as u32) == v) by (bit_vector);
    assert(clamp_servings(r.default_servings as i32) == r.default_servings);

    assert forall|i: int| 0 <= i < ingredient_items.len() implies parse_ingredient(
        #[trigger] ingredient_items[i],
    ) is Ok by {
        crate::model::ingredients::lemma_ingredient_round_trip(r.ingredients[i]);
    }
    assert forall|i: int|
        0 <= i < ingredient_items.len() implies #[trigger] ingredients_of(ingredient_items)[i]
        == r.ingredients[i] by {
        crate::model::ingredients::lemma_ingredient_round_trip(r.ingredients[i]);
    }
    assert(ingredients_of(ingredient_items) =~= r.ingredients);

    crate::model::difficulty::lemma_difficulty_round_trip(r.difficulty);

    assert(all_text(tag_items));
    assert(texts_of(tag_items) =~= r.tags);
    assert(all_text(instruction_items));
    assert(texts_of(instruction_items) =~= r.instructions);

    assert(recipe_error(doc) is None);
    assert(recipe_of(doc) =~= r);
}

/// Parsing is stable under one round of serialisation: writing a parsed
/// recipe back out and parsing it again succeeds and yields the same
/// recipe, so the clamping done on the first parse never compounds.
pub proof fn lemma_reparse_stable(doc: Seq<EntryV>)
    requires
        recipe_error(doc) is None,
    ensures
        recipe_error(recipe_doc(recipe_of(doc))) is None,
        recipe_of(recipe_doc(recipe_of(doc))) == recipe_of(doc),
{
    lemma_parsed_recipe_is_clamped(doc);
    lemma_recipe_round_trip(recipe_of(doc));
}

} // verus!
