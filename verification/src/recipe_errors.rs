//! The error taxonomy of the recipe repositories, and the mapping of
//! database-driver errors into it.

use vstd::prelude::*;

use crate::db::{spec_constraint_or_default, DbError};
use crate::validation::ValidationError;

verus! {

/// The logical field a uniqueness-constraint name stands for on the recipe
/// side of the schema; an unmapped name falls back to itself.
pub open spec fn spec_constraint_to_field(field: Seq<char>) -> Seq<char> {
    if field == "ingredients_name_key"@ {
        "ingredient name"@
    } else if field == "ingredients_pkey"@ {
        "ingredient id"@
    } else if field == "recipes_pkey"@ {
        "recipe id"@
    } else {
        field
    }
}

/// The database does not say which column a uniqueness violation hit, only
/// the constraint's name; this maps the constraints that exist in the
/// schema to logical field names.
pub fn constraint_to_field(field: &str) -> (r: &str)
    ensures
        r@ == spec_constraint_to_field(field@),
{
    let owned = field.to_owned();
    if owned == "ingredients_name_key".to_owned() {
        "ingredient name"
    } else if owned == "ingredients_pkey".to_owned() {
        "ingredient id"
    } else if owned == "recipes_pkey".to_owned() {
        "recipe id"
    } else {
        field
    }
}

/// Failure of a recipe lookup by id.
#[derive(PartialEq, Eq, Debug)]
pub enum GetRecipeByIdError {
    NotFound(u128),
    ValidationError(ValidationError),
    UnknownError(String),
}

impl GetRecipeByIdError {
    /// How a lookup statement's failure maps into the taxonomy: a missing
    /// row becomes `NotFound` with the requested id; everything else is
    /// opaque.
    pub fn with_id(id: u128, e: DbError) -> (r: Self)
        ensures
            e is RowNotFound ==> r == GetRecipeByIdError::NotFound(id),
            !(e is RowNotFound) ==> r is UnknownError,
    {
        match e {
            DbError::RowNotFound => GetRecipeByIdError::NotFound(id),
            DbError::Other(m) => GetRecipeByIdError::UnknownError(m),
            DbError::Database { .. } => GetRecipeByIdError::UnknownError(
                "database error".to_owned(),
            ),
        }
    }
}

/// Failure of a recipe insert.
#[derive(PartialEq, Eq, Debug)]
pub enum InsertRecipeError {
    /// A uniqueness conflict, reported with the logical field name.
    Conflict(String),
    Get(GetRecipeByIdError),
    ValidationError(ValidationError),
    InsertIngredient(AddIngredientIntoRecipeError),
    UnknownError(String),
}

impl InsertRecipeError {
    /// How an insert statement's failure maps into the taxonomy: a
    /// uniqueness violation becomes `Conflict` with the logical field
    /// named by the violated constraint; everything else is opaque.
    pub fn from_db(e: DbError) -> (r: Self)
        ensures
            (e matches DbError::Database { unique_violation: true, constraint } ==> (
            r matches InsertRecipeError::Conflict(f) && f@ == spec_constraint_to_field(
                spec_constraint_or_default(constraint),
            ))),
            !(e matches DbError::Database { unique_violation: true, .. }) ==> r is UnknownError,
    {
        match e {
            DbError::Database { unique_violation, constraint } => {
                if unique_violation {
                    let c: &str = match &constraint {
                        Some(s) => s.as_str(),
                        None => "",
                    };
                    InsertRecipeError::Conflict(constraint_to_field(c).to_owned())
                } else {
                    InsertRecipeError::UnknownError("database error".to_owned())
                }
            },
            DbError::RowNotFound => InsertRecipeError::UnknownError("no row returned".to_owned()),
            DbError::Other(m) => InsertRecipeError::UnknownError(m),
        }
    }
}

/// Failure of attaching an ingredient entry to a stored recipe.
#[derive(PartialEq, Eq, Debug)]
pub enum AddIngredientIntoRecipeError {
    /// A uniqueness conflict, reported with the logical field name.
    Conflict(String),
    UnknownError(String),
}

impl AddIngredientIntoRecipeError {
    /// How the linking statement's failure maps into the taxonomy, exactly
    /// as for a recipe insert: `Conflict` only for a uniqueness violation.
    pub fn from_db(e: DbError) -> (r: Self)
        ensures
            (e matches DbError::Database { unique_violation: true, constraint } ==> (
            r matches AddIngredientIntoRecipeError::Conflict(f) && f@ == spec_constraint_to_field(
                spec_constraint_or_default(constraint),
            ))),
            !(e matches DbError::Database { unique_violation: true, .. }) ==> r is UnknownError,
    {
        match e {
            DbError::Database { unique_violation, constraint } => {
                if unique_violation {
                    let c: &str = match &constraint {
                        Some(s) => s.as_str(),
                        None => "",
                    };
                    AddIngredientIntoRecipeError::Conflict(constraint_to_field(c).to_owned())
                } else {
                    AddIngredientIntoRecipeError::UnknownError("database error".to_owned())
                }
            },
            DbError::RowNotFound => AddIngredientIntoRecipeError::UnknownError(
                "no row returned".to_owned(),
            ),
            DbError::Other(m) => AddIngredientIntoRecipeError::UnknownError(m),
        }
    }
}

/// Failure of a recipe delete.
#[derive(PartialEq, Eq, Debug)]
pub enum DeleteRecipeError {
    NotFound(u128),
    UnknownError(String),
}

impl DeleteRecipeError {
    /// Lifts a lookup failure into a delete failure, keeping the
    /// `NotFound` distinction.
    pub fn from_get(e: GetRecipeByIdError) -> (r: Self)
        ensures
            (e matches GetRecipeByIdError::NotFound(id) ==> r == DeleteRecipeError::NotFound(id)),
            !(e is NotFound) ==> r is UnknownError,
    {
        match e {
            GetRecipeByIdError::NotFound(id) => DeleteRecipeError::NotFound(id),
            GetRecipeByIdError::UnknownError(m) => DeleteRecipeError::UnknownError(m),
            GetRecipeByIdError::ValidationError(_) => DeleteRecipeError::UnknownError(
                "validation failed".to_owned(),
            ),
        }
    }
}

/// Failure of a recipe update.
#[derive(PartialEq, Eq, Debug)]
pub enum UpdateRecipeError {
    Get(GetRecipeByIdError),
    ValidationError(ValidationError),
    UnknownError(String),
}

/// Failure of detaching an ingredient entry from a stored recipe.
#[derive(PartialEq, Eq, Debug)]
pub enum DeleteIngredientFromRecipeError {
    RecipeHasNoIngredientError(u128),
    ValidationError(ValidationError),
    UnknownError(String),
}

} // verus!
