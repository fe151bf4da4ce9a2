//! One recipe line item and its document mapping: an ingredient is a
//! nested document with exactly four typed fields, and one bad field
//! invalidates the whole ingredient.

use vstd::prelude::*;

use crate::document::{lookup, text_at, Document, Entry, EntryV, Value, ValueV};
use crate::model::measurement_unit::{parse_unit, unit_text, MeasurementUnit};
use crate::model::recipe::RecipeFormatError;

verus! {

broadcast use crate::document::group_document_views;

#[derive(Debug, Clone, PartialEq)]
pub struct Ingredient {
    pub id: String,
    pub amount: i32,
    pub title: String,
    pub measurement_unit: MeasurementUnit,
}

/// The mathematical model of an ingredient.
#[verifier::ext_equal]
pub struct IngredientV {
    pub id: Seq<char>,
    pub amount: i32,
    pub title: Seq<char>,
    pub measurement_unit: MeasurementUnit,
}

impl View for Ingredient {
    type V = IngredientV;

    open spec fn view(&self) -> IngredientV {
        IngredientV {
            id: self.id@,
            amount: self.amount,
            title: self.title@,
            measurement_unit: self.measurement_unit,
        }
    }
}

/// The ingredient a document value describes, or the message of the first
/// field that fails, in the order id, amount, title, measurement unit. The
/// value must itself be a nested document; each field must be present with
/// its expected type, and the unit string must name a measurement unit.
pub open spec fn parse_ingredient(v: ValueV) -> Result<IngredientV, Seq<char>> {
    match v {
        ValueV::SubDoc(doc) => match text_at(doc, "id"@) {
            None => Err("Error getting id from ingredient from document"@),
            Some(id) => match lookup(doc, "amount"@) {
                Some(ValueV::Int32(amount)) => match text_at(doc, "title"@) {
                    None => Err("Error getting title from ingredient from document"@),
                    Some(title) => match text_at(doc, "measurementUnit"@) {
                        None => Err("Error converting measurement unit from ingredient to enum"@),
                        Some(unit_name) => match parse_unit(unit_name) {
                            None => Err(
                                "Error converting measurement unit from ingredient to enum"@,
                            ),
                            Some(measurement_unit) => Ok(
                                IngredientV { id, amount, title, measurement_unit },
                            ),
                        },
                    },
                },
                _ => Err("Error getting amount from ingredient from document"@),
            },
        },
        _ => Err("Error getting ingredients from document"@),
    }
}

/// The canonical document shape of an ingredient: its four fields under
/// their canonical keys, in order.
pub open spec fn ingredient_value(i: IngredientV) -> ValueV {
    ValueV::SubDoc(
        seq![
            EntryV { key: "id"@, value: ValueV::Text(i.id) },
            EntryV { key: "amount"@, value: ValueV::Int32(i.amount) },
            EntryV { key: "title"@, value: ValueV::Text(i.title) },
            EntryV { key: "measurementUnit"@, value: ValueV::Text(unit_text(i.measurement_unit)) },
        ],
    )
}

impl Ingredient {
    pub fn new(id: &str, amount: i32, title: &str, measurement_unit: MeasurementUnit) -> (r: Self)
        ensures
            r@ == (IngredientV { id: id@, amount, title: title@, measurement_unit }),
    {
        Self { id: id.to_owned(), amount, title: title.to_owned(), measurement_unit }
    }

    /// Parse an ingredient out of one element of a document's ingredient
    /// array, failing on the first missing or mistyped field.
    pub fn try_from(value: &Value) -> (r: Result<Ingredient, RecipeFormatError>)
        ensures
            match r {
                Ok(ing) => parse_ingredient(value@) == Ok::<IngredientV, Seq<char>>(ing@),
                Err(e) => parse_ingredient(value@) matches Err(m) && m == e.error@,
            },
    {
        let doc = match value {
            Value::SubDoc(doc) => doc,
            _ => {
                return Err(RecipeFormatError::from("Error getting ingredients from document"));
            },
        };
        let id = match doc.get_str(&"id".to_owned()) {
            Some(s) => s.clone(),
            None => {
                return Err(
                    RecipeFormatError::from("Error getting id from ingredient from document"),
                );
            },
        };
        let amount = match doc.get_i32(&"amount".to_owned()) {
            Some(n) => n,
            None => {
                return Err(
                    RecipeFormatError::from("Error getting amount from ingredient from document"),
                );
            },
        };
        let title = match doc.get_str(&"title".to_owned()) {
            Some(s) => s.clone(),
            None => {
                return Err(
                    RecipeFormatError::from("Error getting title from ingredient from document"),
                );
            },
        };
        let unit_name = match doc.get_str(&"measurementUnit".to_owned()) {
            Some(s) => s,
            None => {
                return Err(
                    RecipeFormatError::from(
                        "Error converting measurement unit from ingredient to enum",
                    ),
                );
            },
        };
        let measurement_unit = match MeasurementUnit::try_from(unit_name.as_str()) {
            Ok(u) => u,
            Err(_) => {
                return Err(
                    RecipeFormatError::from(
                        "Error converting measurement unit from ingredient to enum",
                    ),
                );
            },
        };
        Ok(Ingredient { id, amount, title, measurement_unit })
    }

    /// The canonical document shape of this ingredient.
    pub fn to_value(&self) -> (v: Value)
        ensures
            v@ == ingredient_value(self@),
    {
        let mut entries: Vec<Entry> = Vec::new();
        entries.push(Entry { key: "id".to_owned(), value: Value::Text(self.id.clone()) });
        entries.push(Entry { key: "amount".to_owned(), value: Value::Int32(self.amount) });
        entries.push(Entry { key: "title".to_owned(), value: Value::Text(self.title.clone()) });
        entries.push(
            Entry {
                key: "measurementUnit".to_owned(),
                value: Value::Text(self.measurement_unit.to_string()),
            },
        );
        let v = Value::SubDoc(Document { entries });
        proof {
            assert(v@ matches ValueV::SubDoc(d) && d =~= ingredient_value(self@)->SubDoc_0);
        }
        v
    }
}

/// Writing an ingredient to its document shape and parsing it back yields
/// the same ingredient, whatever its fields hold.
pub proof fn lemma_ingredient_round_trip(i: IngredientV)
    ensures
        parse_ingredient(ingredient_value(i)) == Ok::<IngredientV, Seq<char>>(i),
{
    reveal_strlit("id");
    reveal_strlit("amount");
    reveal_strlit("title");
    reveal_strlit("measurementUnit");
    reveal_with_fuel(lookup, 5);
    assert("id"@.len() == 2 && "amount"@.len() == 6 && "title"@.len() == 5
        && "measurementUnit"@.len() == 15);
    crate::model::measurement_unit::lemma_unit_round_trip(i.measurement_unit);
    let doc = ingredient_value(i)->SubDoc_0;
    assert(lookup(doc, "id"@) == Some(ValueV::Text(i.id)));
    assert(lookup(doc, "amount"@) == Some(ValueV::Int32(i.amount)));
    assert(lookup(doc, "title"@) == Some(ValueV::Text(i.title)));
    assert(lookup(doc, "measurementUnit"@) == Some(ValueV::Text(unit_text(i.measurement_unit))));
    assert(parse_ingredient(ingredient_value(i)) matches Ok(j) && j =~= i);
}

} // verus!
