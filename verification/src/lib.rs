//! Progression rules of a LitRPG world: attributes, grades, mastery ranks,
//! skill trees, characters and the libraries of skills, classes and
//! professions, with the decision logic of the terminal interface.

pub mod models;
pub mod text;
pub mod formulas;
pub mod ui;
pub mod commands;
pub mod collections;
