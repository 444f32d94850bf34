//! Read-only use cases over the ingredient store.

use vstd::prelude::*;

use crate::ingredient::Ingredient;
use crate::ingredient_errors::GetAllIngredientsError as RepoGetAllIngredientsError;
use crate::ingredient_repo::{views_of, IngredientRepository};

verus! {

/// Failure of the get-all-ingredients query: every repository failure is
/// collapsed into one opaque variant.
#[derive(PartialEq, Eq, Debug)]
pub enum GetAllIngredientsError {
    Internal(String),
}

impl GetAllIngredientsError {
    /// Collapses a repository failure into the query's error.
    pub fn from_repo(e: RepoGetAllIngredientsError) -> (r: Self)
        ensures
            r is Internal,
    {
        match e {
            RepoGetAllIngredientsError::MultipleIngredientsMissing(_) => {
                GetAllIngredientsError::Internal("ingredients missing".to_owned())
            },
            RepoGetAllIngredientsError::UnknownError(m) => GetAllIngredientsError::Internal(m),
        }
    }
}

/// Returns every held ingredient; an empty store yields an empty
/// sequence, not an error.
pub fn get_all_ingredients<R: IngredientRepository>(repo: &R) -> (r: Result<
    Vec<Ingredient>,
    GetAllIngredientsError,
>)
    requires
        repo.inv(),
    ensures
        match r {
            Ok(v) => views_of(v@) == repo.entries(),
            Err(_) => false,
        },
{
    match repo.get_all() {
        Ok(v) => Ok(v),
        Err(e) => Err(GetAllIngredientsError::from_repo(e)),
    }
}

} // verus!
