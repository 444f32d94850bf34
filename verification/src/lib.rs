//! A recipe-management core: validated ingredient and recipe entities,
//! partial-update changesets, and repositories that keep the store's
//! uniqueness and referential-integrity invariants.

pub mod db;
pub mod ids;
pub mod ingredient;
pub mod ingredient_commands;
pub mod ingredient_errors;
pub mod ingredient_postgres;
pub mod ingredient_repo;
pub mod models;
pub mod queries;
pub mod recipe;
pub mod recipe_commands;
pub mod recipe_errors;
pub mod recipe_repo;
pub mod session;
pub mod validation;
