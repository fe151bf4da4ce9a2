//! The domain model: recipes, their ingredients, the closed value
//! enumerations, and the bidirectional mapping to the document shape.

pub mod difficulty;
pub mod ingredients;
pub mod measurement_unit;
pub mod recipe;
