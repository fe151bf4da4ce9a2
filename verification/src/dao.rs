//! What the storage-access layer computes, apart from the driver calls
//! themselves: its error type, and the validation of whole query results.

use vstd::prelude::*;

use crate::document::Document;
use crate::model::recipe::{parse_outcome, Recipe, RecipeFormatError, RecipeV};

verus! {

/// What went wrong while serving one storage request: the driver failed,
/// the document was not there, or a stored document did not validate.
#[derive(Debug, Clone, PartialEq, Eq)]
pub enum DaoError {
    DatabaseError(String),
    DocumentNotFound,
    RecipeFormatError(String),
}

/// One document of a query result, validated, with the outcome stated
/// abstractly so that reasoning over whole batches stays cheap.
fn parse_document(doc: &Document) -> (r: Result<Recipe, RecipeFormatError>)
    ensures
        match r {
            Ok(rec) => parse_outcome(doc@) == Ok::<RecipeV, Seq<char>>(rec@),
            Err(e) => parse_outcome(doc@) == Err::<RecipeV, Seq<char>>(e.error@),
        },
{
    proof {
        reveal(crate::model::recipe::parse_outcome);
    }
    Recipe::try_from(doc)
}

/// Validate the documents of one query result into recipes, in order,
/// stopping at the first document that fails, whose field error is
/// reported for the whole batch.
pub fn recipes_from_documents(docs: &Vec<Document>) -> (r: Result<
    Vec<Recipe>,
    RecipeFormatError,
>)
    ensures
        match r {
            Ok(recipes) => {
                &&& recipes@.len() == docs@.len()
                &&& forall|i: int|
                    0 <= i < docs@.len() ==> parse_outcome(docs@[i]@) == Ok::<RecipeV, Seq<char>>(
                        (#[trigger] recipes@[i])@,
                    )
            },
            Err(e) => exists|i: int|
                {
                    &&& 0 <= i < docs@.len()
                    &&& parse_outcome((#[trigger] docs@[i])@) == Err::<RecipeV, Seq<char>>(
                        e.error@,
                    )
                    &&& forall|j: int| 0 <= j < i ==> parse_outcome(docs@[j]@) is Ok
                },
        },
{
    let mut recipes: Vec<Recipe> = Vec::new();
    let n = docs.len();
    let mut i: usize = 0;
    while i < n
        invariant
            i <= n,
            n == docs@.len(),
            recipes@.len() == i,
            forall|j: int| 0 <= j < i ==> (#[trigger] parse_outcome(docs@[j]@)) is Ok,
            forall|j: int|
                0 <= j < i ==> parse_outcome(docs@[j]@) == Ok::<RecipeV, Seq<char>>(
                    (#[trigger] recipes@[j])@,
                ),
        decreases n - i,
    {
        match parse_document(&docs[i]) {
            Ok(rec) => {
                recipes.push(rec);
            },
            Err(e) => {
                return Err(e);
            },
        }
        i += 1;
    }
    Ok(recipes)
}

} // verus!
