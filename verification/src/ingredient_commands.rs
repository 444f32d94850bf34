//! The update-ingredient use case: a public patch object is re-validated
//! into the internal changeset and handed to the repository, and the
//! repository's failures are folded into the command's own error so that
//! callers can tell a missing id from a bad input.

use vstd::prelude::*;

use crate::ingredient::{
    apply_changeset, spec_which_diets, Ingredient, IngredientChangeset, IngredientChangesetV,
    IngredientDescription, IngredientName, WhichDiets,
};
use crate::ingredient_errors::{
    GetIngredientByIdError, UpdateIngredientError as RepoUpdateIngredientError,
};
use crate::ingredient_repo::{
    contains_id, index_of_id, name_taken_by_other, IngredientRepository,
};
use crate::validation::ValidationError;

verus! {

/// The mathematical value of a public ingredient patch.
pub struct UpdateIngredientV {
    pub name: Option<Seq<char>>,
    pub description: Option<Seq<char>>,
    pub diet_friendly: Option<Seq<String>>,
}

/// A public patch of an ingredient, as a request body carries it: plain
/// optional strings, none of them validated yet.
#[derive(PartialEq, Eq, Debug)]
pub struct UpdateIngredient {
    pub name: Option<String>,
    pub description: Option<String>,
    pub diet_friendly: Option<Vec<String>>,
}

impl View for UpdateIngredient {
    type V = UpdateIngredientV;

    open spec fn view(&self) -> UpdateIngredientV {
        UpdateIngredientV {
            name: match self.name {
                Some(n) => Some(n@),
                None => None,
            },
            description: match self.description {
                Some(d) => Some(d@),
                None => None,
            },
            diet_friendly: match self.diet_friendly {
                Some(v) => Some(v@),
                None => None,
            },
        }
    }
}

/// Whether every present field of the patch passes its smart constructor.
pub open spec fn valid_update(u: UpdateIngredientV) -> bool {
    &&& (u.name matches Some(n) ==> n.len() > 0)
    &&& (u.description matches Some(d) ==> d.len() > 0)
}

/// Whether the patch's name is present and empty (the first validation
/// failure the conversion reports).
pub open spec fn update_name_empty(u: UpdateIngredientV) -> bool {
    u.name matches Some(n) && n.len() == 0
}

/// The changeset a valid patch converts into.
pub open spec fn spec_changeset_of(u: UpdateIngredientV) -> IngredientChangesetV {
    IngredientChangesetV {
        name: u.name,
        description: u.description,
        diet_friendly: match u.diet_friendly {
            Some(v) => Some(spec_which_diets(v)),
            None => None,
        },
    }
}

impl IngredientChangeset {
    /// Re-validates a public patch into the internal changeset: each
    /// present field runs through its smart constructor again, and textual
    /// diet tags are parsed, dropping unrecognized ones.
    pub fn try_from_update(value: &UpdateIngredient) -> (r: Result<
        IngredientChangeset,
        ValidationError,
    >)
        ensures
            valid_update(value@) ==> (r matches Ok(c) && c@ == spec_changeset_of(value@)),
            !valid_update(value@) ==> (r matches Err(ValidationError::EmptyField(fs)) && fs@.len()
                == 1 && fs@[0]@ == (if update_name_empty(value@) {
                "name"@
            } else {
                "description"@
            })),
    {
        let name: Option<IngredientName> = match &value.name {
            Some(x) => match IngredientName::new(x.clone()) {
                Ok(n) => Some(n),
                Err(e) => {
                    return Err(e);
                },
            },
            None => None,
        };
        let description: Option<IngredientDescription> = match &value.description {
            Some(x) => match IngredientDescription::new(x.clone()) {
                Ok(d) => Some(d),
                Err(e) => {
                    return Err(e);
                },
            },
            None => None,
        };
        let diet_friendly: Option<WhichDiets> = match &value.diet_friendly {
            Some(x) => Some(WhichDiets::from_strings(x)),
            None => None,
        };
        Ok(IngredientChangeset { name, description, diet_friendly })
    }
}

/// Failure of the update-ingredient command. A missing id, a rejected
/// input and a uniqueness conflict each keep their identity, so callers
/// can answer not-found, bad-request and conflict apart from genuinely
/// internal failures.
#[derive(PartialEq, Eq, Debug)]
pub enum UpdateIngredientError {
    NotFound(u128),
    Validation(ValidationError),
    Conflict(String),
    Internal(String),
}

impl UpdateIngredientError {
    /// Lifts a validation failure into the command's error, keeping it
    /// distinguishable.
    pub fn from_validation(e: ValidationError) -> (r: Self)
        ensures
            r == UpdateIngredientError::Validation(e),
    {
        UpdateIngredientError::Validation(e)
    }

    /// Folds a repository failure into the command's error, keeping the
    /// `NotFound`, validation and conflict distinctions.
    pub fn from_repo(e: RepoUpdateIngredientError) -> (r: Self)
        ensures
            (e matches RepoUpdateIngredientError::Get(GetIngredientByIdError::NotFound(id)) ==> r
                == UpdateIngredientError::NotFound(id)),
            (e matches RepoUpdateIngredientError::ValidationError(v) ==> r
                == UpdateIngredientError::Validation(v)),
            (e matches RepoUpdateIngredientError::Conflict(f) ==> r
                == UpdateIngredientError::Conflict(f)),
            (e matches RepoUpdateIngredientError::Get(GetIngredientByIdError::UnknownError(_))
                || e matches RepoUpdateIngredientError::UnknownError(_)) ==> r is Internal,
    {
        match e {
            RepoUpdateIngredientError::Get(GetIngredientByIdError::NotFound(id)) => {
                UpdateIngredientError::NotFound(id)
            },
            RepoUpdateIngredientError::Get(GetIngredientByIdError::UnknownError(m)) => {
                UpdateIngredientError::Internal(m)
            },
            RepoUpdateIngredientError::Conflict(f) => UpdateIngredientError::Conflict(f),
            RepoUpdateIngredientError::ValidationError(v) => UpdateIngredientError::Validation(v),
            RepoUpdateIngredientError::UnknownError(m) => UpdateIngredientError::Internal(m),
        }
    }
}

/// Converts a public patch into the internal changeset and applies it to
/// the ingredient with the given id. A missing id surfaces as `NotFound`,
/// an invalid or all-absent patch as `Validation`, and a taken name as
/// `Conflict`; nothing else can fail.
pub fn update_ingredient<R: IngredientRepository>(
    repo: &mut R,
    id: u128,
    input: &UpdateIngredient,
) -> (r: Result<Ingredient, UpdateIngredientError>)
    requires
        old(repo).inv(),
    ensures
        final(repo).inv(),
        match r {
            Ok(out) => {
                &&& valid_update(input@)
                &&& !spec_changeset_of(input@).is_empty()
                &&& contains_id(old(repo).entries(), id)
                &&& out@ == apply_changeset(
                    old(repo).entries()[index_of_id(old(repo).entries(), id)],
                    spec_changeset_of(input@),
                )
                &&& final(repo).entries() == old(repo).entries().update(
                    index_of_id(old(repo).entries(), id),
                    out@,
                )
            },
            Err(UpdateIngredientError::NotFound(e)) => {
                &&& e == id
                &&& valid_update(input@)
                &&& !spec_changeset_of(input@).is_empty()
                &&& !contains_id(old(repo).entries(), id)
                &&& final(repo).entries() == old(repo).entries()
            },
            Err(UpdateIngredientError::Validation(ValidationError::EmptyField(fs))) => {
                &&& (!valid_update(input@) && fs@.len() == 1 && fs@[0]@ == (
                if update_name_empty(input@) {
                    "name"@
                } else {
                    "description"@
                })) || (valid_update(input@) && spec_changeset_of(input@).is_empty()
                    && crate::ingredient::empty_changeset_fields(fs@))
                &&& final(repo).entries() == old(repo).entries()
            },
            Err(UpdateIngredientError::Conflict(f)) => {
                &&& f@ == "name"@
                &&& valid_update(input@)
                &&& !spec_changeset_of(input@).is_empty()
                &&& contains_id(old(repo).entries(), id)
                &&& spec_changeset_of(input@).name is Some
                &&& name_taken_by_other(
                    old(repo).entries(),
                    id,
                    spec_changeset_of(input@).name->0,
                )
                &&& final(repo).entries() == old(repo).entries()
            },
            Err(UpdateIngredientError::Internal(_)) => false,
        },
{
    let changeset = match IngredientChangeset::try_from_update(input) {
        Ok(c) => c,
        Err(e) => {
            return Err(UpdateIngredientError::from_validation(e));
        },
    };
    match repo.update(id, changeset) {
        Ok(out) => Ok(out),
        Err(e) => Err(UpdateIngredientError::from_repo(e)),
    }
}

} // verus!
