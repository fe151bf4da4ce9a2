//! The closed measurement-unit enumeration, parsed and written by exact,
//! case-sensitive match against its six canonical names.

use vstd::prelude::*;
use vstd::string::StringExecFns;

use crate::model::recipe::RecipeFormatError;

verus! {

#[derive(Debug, Clone, Copy, PartialEq, Eq, Structural)]
pub enum MeasurementUnit {
    Kilogramm,
    Gramm,
    Milliliter,
    Liter,
    Piece,
    Pack,
}

/// The canonical name of a measurement unit.
pub open spec fn unit_text(u: MeasurementUnit) -> Seq<char> {
    match u {
        MeasurementUnit::Kilogramm => "Kilogramm"@,
        MeasurementUnit::Gramm => "Gramm"@,
        MeasurementUnit::Milliliter => "Milliliter"@,
        MeasurementUnit::Liter => "Liter"@,
        MeasurementUnit::Piece => "Piece"@,
        MeasurementUnit::Pack => "Pack"@,
    }
}

/// The measurement unit a string names: an exact match against one of the
/// six canonical names, with no trimming and no case folding.
pub open spec fn parse_unit(s: Seq<char>) -> Option<MeasurementUnit> {
    if s == "Kilogramm"@ {
        Some(MeasurementUnit::Kilogramm)
    } else if s == "Gramm"@ {
        Some(MeasurementUnit::Gramm)
    } else if s == "Milliliter"@ {
        Some(MeasurementUnit::Milliliter)
    } else if s == "Liter"@ {
        Some(MeasurementUnit::Liter)
    } else if s == "Piece"@ {
        Some(MeasurementUnit::Piece)
    } else if s == "Pack"@ {
        Some(MeasurementUnit::Pack)
    } else {
        None
    }
}

/// The error message for a string that names no measurement unit.
pub open spec fn unit_error_text(s: Seq<char>) -> Seq<char> {
    "Could not create MeasurementUnit from string: "@ + s
}

impl MeasurementUnit {
    /// Parse the exact canonical name of a measurement unit.
    pub fn try_from(value: &str) -> (r: Result<MeasurementUnit, RecipeFormatError>)
        ensures
            match r {
                Ok(u) => parse_unit(value@) == Some(u),
                Err(e) => parse_unit(value@) is None && e.error@ == unit_error_text(value@),
            },
    {
        let v = value.to_owned();
        if v == "Kilogramm".to_owned() {
            Ok(MeasurementUnit::Kilogramm)
        } else if v == "Gramm".to_owned() {
            Ok(MeasurementUnit::Gramm)
        } else if v == "Milliliter".to_owned() {
            Ok(MeasurementUnit::Milliliter)
        } else if v == "Liter".to_owned() {
            Ok(MeasurementUnit::Liter)
        } else if v == "Piece".to_owned() {
            Ok(MeasurementUnit::Piece)
        } else if v == "Pack".to_owned() {
            Ok(MeasurementUnit::Pack)
        } else {
            let message = "Could not create MeasurementUnit from string: ".to_owned().concat(value);
            Err(RecipeFormatError { error: message })
        }
    }

    /// The canonical name, used both for storage and for display.
    pub fn to_string(&self) -> (s: String)
        ensures
            s@ == unit_text(*self),
    {
        match self {
            MeasurementUnit::Kilogramm => "Kilogramm".to_owned(),
            MeasurementUnit::Gramm => "Gramm".to_owned(),
            MeasurementUnit::Milliliter => "Milliliter".to_owned(),
            MeasurementUnit::Liter => "Liter".to_owned(),
            MeasurementUnit::Piece => "Piece".to_owned(),
            MeasurementUnit::Pack => "Pack".to_owned(),
        }
    }
}

/// Writing a measurement unit and parsing it back yields the same unit:
/// the canonical name is the exact inverse of the parser.
pub proof fn lemma_unit_round_trip(u: MeasurementUnit)
    ensures
        parse_unit(unit_text(u)) == Some(u),
{
    reveal_strlit("Kilogramm");
    reveal_strlit("Gramm");
    reveal_strlit("Milliliter");
    reveal_strlit("Liter");
    reveal_strlit("Piece");
    reveal_strlit("Pack");
    assert("Kilogramm"@.len() == 9 && "Gramm"@.len() == 5 && "Milliliter"@.len() == 10
        && "Liter"@.len() == 5 && "Piece"@.len() == 5 && "Pack"@.len() == 4);
    assert("Gramm"@[0] == 'G' && "Liter"@[0] == 'L' && "Piece"@[0] == 'P');
}

} // verus!
