//! The error taxonomy of the ingredient repositories, one enum per
//! operation, and the mapping of database-driver errors into it.

use vstd::prelude::*;

use crate::db::{spec_constraint_or_default, DbError};
use crate::ingredient_postgres::{constraint_to_field, spec_constraint_to_field};
use crate::validation::ValidationError;

verus! {

/// Failure of a lookup by id.
#[derive(PartialEq, Eq, Debug)]
pub enum GetIngredientByIdError {
    NotFound(u128),
    UnknownError(String),
}

/// Failure of fetching all ingredients, or all of a given id set.
#[derive(PartialEq, Eq, Debug)]
pub enum GetAllIngredientsError {
    /// The requested ids that are absent from the store, every one of them.
    MultipleIngredientsMissing(Vec<u128>),
    UnknownError(String),
}

/// Failure of an insert.
#[derive(PartialEq, Eq, Debug)]
pub enum InsertIngredientError {
    /// A uniqueness conflict, reported with the logical field name.
    Conflict(String),
    ValidationError(ValidationError),
    UnknownError(String),
}

/// Failure of an update.
#[derive(PartialEq, Eq, Debug)]
pub enum UpdateIngredientError {
    Get(GetIngredientByIdError),
    /// A uniqueness conflict, reported with the logical field name.
    Conflict(String),
    ValidationError(ValidationError),
    UnknownError(String),
}

/// Failure of a delete.
#[derive(PartialEq, Eq, Debug)]
pub enum DeleteIngredientError {
    Get(GetIngredientByIdError),
    UnknownError(String),
}

impl InsertIngredientError {
    /// How an insert statement's failure maps into the taxonomy: a
    /// uniqueness violation becomes `Conflict` with the logical field named
    /// by the violated constraint; everything else is opaque.
    pub fn from_db(e: DbError) -> (r: Self)
        ensures
            (e matches DbError::Database { unique_violation: true, constraint } ==> (
            r matches InsertIngredientError::Conflict(f) && f@ == spec_constraint_to_field(
                spec_constraint_or_default(constraint),
            ))),
            !(e matches DbError::Database { unique_violation: true, .. })
                ==> r is UnknownError,
    {
        match e {
            DbError::Database { unique_violation, constraint } => {
                if unique_violation {
                    let c: &str = match &constraint {
                        Some(s) => s.as_str(),
                        None => "",
                    };
                    InsertIngredientError::Conflict(constraint_to_field(c).to_owned())
                } else {
                    InsertIngredientError::UnknownError("database error".to_owned())
                }
            },
            DbError::RowNotFound => InsertIngredientError::UnknownError(
                "no row returned".to_owned(),
            ),
            DbError::Other(m) => InsertIngredientError::UnknownError(m),
        }
    }
}

impl GetIngredientByIdError {
    /// How a lookup's failure maps into the taxonomy: a missing row becomes
    /// `NotFound` with the requested id; everything else is opaque.
    pub fn from_db(id: u128, e: DbError) -> (r: Self)
        ensures
            e is RowNotFound ==> r == GetIngredientByIdError::NotFound(id),
            !(e is RowNotFound) ==> r is UnknownError,
    {
        match e {
            DbError::RowNotFound => GetIngredientByIdError::NotFound(id),
            DbError::Other(m) => GetIngredientByIdError::UnknownError(m),
            DbError::Database { .. } => GetIngredientByIdError::UnknownError(
                "database error".to_owned(),
            ),
        }
    }
}

impl UpdateIngredientError {
    /// Lifts a lookup failure into an update failure, keeping the
    /// `NotFound` distinction.
    pub fn from_get(e: GetIngredientByIdError) -> (r: Self)
        ensures
            r == UpdateIngredientError::Get(e),
    {
        UpdateIngredientError::Get(e)
    }
}

impl DeleteIngredientError {
    /// Lifts a lookup failure into a delete failure, keeping the
    /// `NotFound` distinction.
    pub fn from_get(e: GetIngredientByIdError) -> (r: Self)
        ensures
            r == DeleteIngredientError::Get(e),
    {
        DeleteIngredientError::Get(e)
    }
}

} // verus!
