//! The closed difficulty enumeration, parsed and written by exact,
//! case-sensitive match against its three canonical names.

use vstd::prelude::*;
use vstd::string::StringExecFns;

use crate::model::recipe::RecipeFormatError;

verus! {

#[derive(Debug, Clone, Copy, PartialEq, Eq, Structural)]
pub enum Difficulty {
    Easy,
    Medium,
    Hard,
}

/// The canonical name of a difficulty.
pub open spec fn difficulty_text(d: Difficulty) -> Seq<char> {
    match d {
        Difficulty::Easy => "Easy"@,
        Difficulty::Medium => "Medium"@,
        Difficulty::Hard => "Hard"@,
    }
}

/// The difficulty a string names: an exact match against one of the three
/// canonical names, with no trimming and no case folding.
pub open spec fn parse_difficulty(s: Seq<char>) -> Option<Difficulty> {
    if s == "Easy"@ {
        Some(Difficulty::Easy)
    } else if s == "Medium"@ {
        Some(Difficulty::Medium)
    } else if s == "Hard"@ {
        Some(Difficulty::Hard)
    } else {
        None
    }
}

/// The error message for a string that names no difficulty.
pub open spec fn difficulty_error_text(s: Seq<char>) -> Seq<char> {
    "Difficulty '"@ + s + "' does not match one predefined value"@
}

impl Difficulty {
    /// Parse the exact canonical name of a difficulty.
    pub fn try_from(value: &str) -> (r: Result<Difficulty, RecipeFormatError>)
        ensures
            match r {
                Ok(d) => parse_difficulty(value@) == Some(d),
                Err(e) => parse_difficulty(value@) is None && e.error@ == difficulty_error_text(
                    value@,
                ),
            },
    {
        let v = value.to_owned();
        if v == "Easy".to_owned() {
            Ok(Difficulty::Easy)
        } else if v == "Medium".to_owned() {
            Ok(Difficulty::Medium)
        } else if v == "Hard".to_owned() {
            Ok(Difficulty::Hard)
        } else {
            let message = "Difficulty '".to_owned().concat(value).concat(
                "' does not match one predefined value",
            );
            Err(RecipeFormatError { error: message })
        }
    }

    /// The canonical name, used both for storage and for display.
    pub fn to_string(&self) -> (s: String)
        ensures
            s@ == difficulty_text(*self),
    {
        match self {
            Difficulty::Easy => "Easy".to_owned(),
            Difficulty::Medium => "Medium".to_owned(),
            Difficulty::Hard => "Hard".to_owned(),
        }
    }
}

/// Writing a difficulty and parsing it back yields the same difficulty:
/// the canonical name is the exact inverse of the parser.
pub proof fn lemma_difficulty_round_trip(d: Difficulty)
    ensures
        parse_difficulty(difficulty_text(d)) == Some(d),
{
    reveal_strlit("Easy");
    reveal_strlit("Medium");
    reveal_strlit("Hard");
    assert("Easy"@.len() == 4 && "Medium"@.len() == 6 && "Hard"@.len() == 4);
    assert("Hard"@[0] == 'H' && "Easy"@[0] == 'E');
}

} // verus!
