//! The create-recipe use case: resolve every referenced ingredient in one
//! batched call, fail fast with the complete missing-id set, zip the
//! requested amounts back onto the fetched ingredients in input order,
//! mint a time-ordered id, validate the non-empty collections, and only
//! then insert. No write happens if resolution fails.

use vstd::prelude::*;

use crate::ids::{new_recipe_id, uuid_version};
use crate::ingredient_errors::GetAllIngredientsError as RepoGetAllIngredientsError;
use crate::ingredient_repo::{index_of_id, missing_from_store, IngredientRepository};
use crate::recipe::{
    IngredientAmountData, IngredientAmountDataV, IngredientWithAmount, Recipe, RecipeIngredients,
    RecipeSteps, RecipeTimes, ServingsType,
};
use crate::recipe_errors::InsertRecipeError;
use crate::recipe_repo::{recipe_contains_id, RecipeRepository};
use crate::validation::ValidationError;

verus! {

/// The mathematical value of a recipe request.
pub struct CreateRecipeV {
    pub name: Seq<char>,
    pub description: Seq<char>,
    pub steps: Seq<Seq<char>>,
    pub time: Seq<(Seq<char>, u64)>,
    pub ingredients: Seq<IngredientAmountDataV>,
    pub servings: ServingsType,
}

impl CreateRecipeV {
    /// The request's own validity: its phase mapping has unique names.
    pub open spec fn wf(&self) -> bool {
        crate::recipe::unique_phase_names(self.time)
    }
}

/// A recipe request: everything a recipe is built from, except its id.
#[derive(Debug)]
pub struct CreateRecipe<'a> {
    pub name: &'a str,
    pub description: &'a str,
    pub steps: Vec<String>,
    pub time: RecipeTimes,
    pub ingredients: Vec<IngredientAmountData>,
    pub servings: ServingsType,
}

impl<'a> View for CreateRecipe<'a> {
    type V = CreateRecipeV;

    open spec fn view(&self) -> CreateRecipeV {
        CreateRecipeV {
            name: self.name@,
            description: self.description@,
            steps: self.steps@.map_values(|s: String| s@),
            time: self.time@,
            ingredients: self.ingredients@.map_values(|d: IngredientAmountData| d@),
            servings: self.servings,
        }
    }
}

/// The ingredient ids a request references, in input order.
pub open spec fn requested_ids(s: Seq<IngredientAmountDataV>) -> Seq<u128> {
    s.map_values(|d: IngredientAmountDataV| d.ingredient_id)
}

/// Failure of the create-recipe command.
#[derive(PartialEq, Eq, Debug)]
pub enum CreateRecipeError {
    /// The referenced ingredient ids the store does not hold, all of them.
    IngredientsNotFound(Vec<u128>),
    Validation(ValidationError),
    Unknown(String),
}

impl CreateRecipeError {
    /// Folds a recipe-insert failure into the command's error, keeping
    /// validation failures apart from everything else.
    pub fn from_insert(e: InsertRecipeError) -> (r: Self)
        ensures
            (e matches InsertRecipeError::ValidationError(v) ==> r == CreateRecipeError::Validation(
                v,
            )),
            !(e is ValidationError) ==> r is Unknown,
    {
        match e {
            InsertRecipeError::ValidationError(v) => CreateRecipeError::Validation(v),
            InsertRecipeError::Conflict(f) => CreateRecipeError::Unknown(f),
            InsertRecipeError::Get(_) => CreateRecipeError::Unknown("lookup failed".to_owned()),
            InsertRecipeError::InsertIngredient(_) => CreateRecipeError::Unknown(
                "attaching an ingredient failed".to_owned(),
            ),
            InsertRecipeError::UnknownError(m) => CreateRecipeError::Unknown(m),
        }
    }

    /// Folds a batched-fetch failure into the command's error, keeping the
    /// complete missing-id set.
    pub fn from_get_all(e: RepoGetAllIngredientsError) -> (r: Self)
        ensures
            (e matches RepoGetAllIngredientsError::MultipleIngredientsMissing(m) ==> (
            r matches CreateRecipeError::IngredientsNotFound(m2) && m2@ == m@)),
            !(e is MultipleIngredientsMissing) ==> r is Unknown,
    {
        match e {
            RepoGetAllIngredientsError::MultipleIngredientsMissing(m) => {
                CreateRecipeError::IngredientsNotFound(m)
            },
            RepoGetAllIngredientsError::UnknownError(m) => CreateRecipeError::Unknown(m),
        }
    }
}

/// Creates a recipe from a request. The referenced ingredients are
/// resolved in one batched call before anything is written: if any id is
/// absent, the command fails with the complete missing-id set and the
/// recipe store is untouched. On success the stored recipe carries the
/// request's fields, the resolved ingredients zipped with their requested
/// amounts in input order, and a fresh time-ordered (version 7) id.
pub fn create_recipe<RR: RecipeRepository, IR: IngredientRepository>(
    recipe_repo: &mut RR,
    ingredient_repo: &IR,
    input: &CreateRecipe<'_>,
) -> (r: Result<Recipe, CreateRecipeError>)
    requires
        old(recipe_repo).inv(),
        ingredient_repo.inv(),
        input@.wf(),
    ensures
        final(recipe_repo).inv(),
        match r {
            Ok(out) => {
                &&& missing_from_store(
                    requested_ids(input@.ingredients),
                    ingredient_repo.entries(),
                ).len() == 0
                &&& input@.steps.len() > 0
                &&& input@.ingredients.len() > 0
                &&& out@.name == input@.name
                &&& out@.description == input@.description
                &&& out@.steps == input@.steps
                &&& out@.time == input@.time
                &&& out@.servings == input@.servings
                &&& out@.ingredients.len() == input@.ingredients.len()
                &&& forall|k: int|
                    0 <= k < input@.ingredients.len() ==> {
                        let e = #[trigger] out@.ingredients[k];
                        &&& e.amount == input@.ingredients[k].amount
                        &&& e.optional == input@.ingredients[k].optional
                        &&& e.notes == input@.ingredients[k].notes
                        &&& e.ingredient.id == input@.ingredients[k].ingredient_id
                        &&& e.ingredient == ingredient_repo.entries()[index_of_id(
                            ingredient_repo.entries(),
                            input@.ingredients[k].ingredient_id,
                        )]
                        &&& ingredient_repo.entries().contains(e.ingredient)
                    }
                &&& uuid_version(out@.id) == 7
                &&& !recipe_contains_id(old(recipe_repo).entries(), out@.id)
                &&& final(recipe_repo).entries() == old(recipe_repo).entries().push(out@)
            },
            Err(CreateRecipeError::IngredientsNotFound(m)) => {
                &&& m@ == missing_from_store(
                    requested_ids(input@.ingredients),
                    ingredient_repo.entries(),
                )
                &&& m@.len() > 0
                &&& final(recipe_repo).entries() == old(recipe_repo).entries()
            },
            Err(CreateRecipeError::Validation(ValidationError::EmptyField(fs))) => {
                &&& missing_from_store(
                    requested_ids(input@.ingredients),
                    ingredient_repo.entries(),
                ).len() == 0
                &&& fs@.len() == 1
                &&& (input@.steps.len() == 0 && fs@[0]@ == "steps"@) || (input@.steps.len() > 0
                    && input@.ingredients.len() == 0 && fs@[0]@ == "ingredients"@)
                &&& final(recipe_repo).entries() == old(recipe_repo).entries()
            },
            Err(CreateRecipeError::Unknown(_)) => {
                &&& missing_from_store(
                    requested_ids(input@.ingredients),
                    ingredient_repo.entries(),
                ).len() == 0
                &&& input@.steps.len() > 0
                &&& input@.ingredients.len() > 0
                &&& old(recipe_repo).entries().len() > 0
                &&& final(recipe_repo).entries() == old(recipe_repo).entries()
            },
        },
{
    let mut ids: Vec<u128> = Vec::new();
    let mut i: usize = 0;
    while i < input.ingredients.len()
        invariant
            i <= input.ingredients@.len(),
            ids@.len() == i,
            forall|j: int| 0 <= j < i ==> ids@[j] == input.ingredients@[j]@.ingredient_id,
        decreases input.ingredients@.len() - i,
    {
        ids.push(input.ingredients[i].ingredient_id);
        i = i + 1;
    }
    proof {
        assert(ids@ =~= requested_ids(input@.ingredients));
    }
    let fetched = match ingredient_repo.get_all_by_id(&ids) {
        Ok(v) => v,
        Err(e) => {
            return Err(CreateRecipeError::from_get_all(e));
        },
    };
    let mut entries: Vec<IngredientWithAmount> = Vec::new();
    let mut k: usize = 0;
    while k < fetched.len()
        invariant
            k <= fetched@.len(),
            fetched@.len() == input.ingredients@.len(),
            forall|j: int|
                0 <= j < fetched@.len() ==> (#[trigger] fetched@[j])@.id
                    == input.ingredients@[j]@.ingredient_id && fetched@[j]@
                    == ingredient_repo.entries()[index_of_id(
                    ingredient_repo.entries(),
                    input.ingredients@[j]@.ingredient_id,
                )] && ingredient_repo.entries().contains(fetched@[j]@),
            entries@.len() == k,
            forall|j: int|
                0 <= j < k ==> {
                    let e = (#[trigger] entries@[j])@;
                    &&& e.ingredient == fetched@[j]@
                    &&& e.amount == input.ingredients@[j]@.amount
                    &&& e.optional == input.ingredients@[j]@.optional
                    &&& e.notes == input.ingredients@[j]@.notes
                },
        decreases fetched@.len() - k,
    {
        let data = &input.ingredients[k];
        let notes: Option<String> = match &data.notes {
            Some(n) => Some(n.clone()),
            None => None,
        };
        entries.push(IngredientWithAmount {
            ingredient: fetched[k].clone(),
            amount: data.amount,
            optional: data.optional,
            notes,
        });
        k = k + 1;
    }
    let id = new_recipe_id();
    let mut steps_vec: Vec<String> = Vec::new();
    let mut s: usize = 0;
    while s < input.steps.len()
        invariant
            s <= input.steps@.len(),
            steps_vec@.len() == s,
            forall|j: int| 0 <= j < s ==> (#[trigger] steps_vec@[j])@ == input.steps@[j]@,
        decreases input.steps@.len() - s,
    {
        steps_vec.push(input.steps[s].clone());
        s = s + 1;
    }
    let steps = match RecipeSteps::try_from_vec(steps_vec) {
        Ok(st) => st,
        Err(e) => {
            return Err(CreateRecipeError::Validation(e));
        },
    };
    let ingredients = match RecipeIngredients::try_from_vec(entries) {
        Ok(ing) => ing,
        Err(e) => {
            return Err(CreateRecipeError::Validation(e));
        },
    };
    let recipe = Recipe {
        id,
        name: input.name.to_owned(),
        description: input.description.to_owned(),
        steps,
        ingredients,
        time: input.time.clone(),
        servings: input.servings,
    };
    proof {
        assert(recipe@.steps =~= input@.steps);
        assert(recipe@.wf());
    }
    match recipe_repo.insert(recipe) {
        Ok(out) => Ok(out),
        Err(e) => Err(CreateRecipeError::from_insert(e)),
    }
}

} // verus!
