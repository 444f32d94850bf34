//! The polymorphic recipe repository and its in-memory backend.

use vstd::prelude::*;

use crate::recipe::{
    apply_recipe_changeset, empty_recipe_changeset_field_names, empty_recipe_changeset_fields,
    IngredientWithAmount, IngredientWithAmountV, Recipe, RecipeChangeset, RecipeIngredients,
    RecipeV,
};
use crate::recipe_errors::{
    AddIngredientIntoRecipeError, DeleteIngredientFromRecipeError, DeleteRecipeError,
    GetRecipeByIdError, InsertRecipeError, UpdateRecipeError,
};
use crate::validation::ValidationError;

verus! {

/// Whether the store holds a recipe with the given id.
pub open spec fn recipe_contains_id(s: Seq<RecipeV>, id: u128) -> bool {
    exists|j: int| 0 <= j < s.len() && s[j].id == id
}

/// The position of the recipe with the given id; meaningful only when
/// `recipe_contains_id` holds, and unique under `recipe_store_inv`.
pub open spec fn recipe_index_of_id(s: Seq<RecipeV>, id: u128) -> int {
    choose|j: int| 0 <= j < s.len() && s[j].id == id
}

/// The store's invariant: every entry is well-formed and ids are unique.
pub open spec fn recipe_store_inv(s: Seq<RecipeV>) -> bool {
    &&& forall|j: int| 0 <= j < s.len() ==> (#[trigger] s[j]).wf()
    &&& forall|j: int, k: int| 0 <= j < k < s.len() ==> (#[trigger] s[j]).id != (#[trigger] s[k]).id
}

/// The mathematical contents of a sequence of recipes.
pub open spec fn recipe_views_of(s: Seq<Recipe>) -> Seq<RecipeV> {
    s.map_values(|r: Recipe| r@)
}

/// The mathematical contents of a sequence of ingredient entries.
pub open spec fn entry_views_of(s: Seq<IngredientWithAmount>) -> Seq<IngredientWithAmountV> {
    s.map_values(|e: IngredientWithAmount| e@)
}

/// A recipe with its ingredient entries replaced.
pub open spec fn with_ingredients(r: RecipeV, ing: Seq<IngredientWithAmountV>) -> RecipeV {
    RecipeV { ingredients: ing, ..r }
}

/// The entries that survive detaching one ingredient: those whose
/// ingredient id differs.
pub open spec fn without_ingredient(s: Seq<IngredientWithAmountV>, ingredient_id: u128) -> Seq<
    IngredientWithAmountV,
> {
    s.filter(|e: IngredientWithAmountV| e.ingredient.id != ingredient_id)
}

/// The capability set of a recipe store. Entries are modelled as the
/// sequence of held recipes in insertion order; every backend keeps
/// `recipe_store_inv` of it.
pub trait RecipeRepository: Sized {
    /// The recipes the store holds, in insertion order.
    spec fn entries(&self) -> Seq<RecipeV>;

    /// The backend's own invariant; it implies `recipe_store_inv` of the
    /// entries.
    spec fn inv(&self) -> bool;

    /// The invariant seen through the model.
    proof fn inv_store(&self)
        requires
            self.inv(),
        ensures
            recipe_store_inv(self.entries()),
    ;

    /// Adds a recipe. A taken id is `Conflict("recipe id")`; otherwise the
    /// recipe is appended and returned.
    fn insert(&mut self, input: Recipe) -> (r: Result<Recipe, InsertRecipeError>)
        requires
            old(self).inv(),
            input@.wf(),
        ensures
            final(self).inv(),
            match r {
                Ok(out) => {
                    &&& !recipe_contains_id(old(self).entries(), input@.id)
                    &&& out@ == input@
                    &&& final(self).entries() == old(self).entries().push(input@)
                },
                Err(InsertRecipeError::Conflict(f)) => {
                    &&& f@ == "recipe id"@
                    &&& recipe_contains_id(old(self).entries(), input@.id)
                    &&& final(self).entries() == old(self).entries()
                },
                Err(_) => false,
            },
    ;

    /// Looks a recipe up by id; fails with `NotFound` carrying that id.
    fn get_by_id(&self, id: u128) -> (r: Result<Recipe, GetRecipeByIdError>)
        requires
            self.inv(),
        ensures
            match r {
                Ok(out) => {
                    &&& recipe_contains_id(self.entries(), id)
                    &&& out@.id == id
                    &&& out@ == self.entries()[recipe_index_of_id(self.entries(), id)]
                    &&& self.entries().contains(out@)
                },
                Err(GetRecipeByIdError::NotFound(e)) => e == id && !recipe_contains_id(
                    self.entries(),
                    id,
                ),
                Err(_) => false,
            },
    ;

    /// Removes the recipe with the given id; a missing id is `NotFound`.
    fn delete(&mut self, id: u128) -> (r: Result<(), DeleteRecipeError>)
        requires
            old(self).inv(),
        ensures
            final(self).inv(),
            match r {
                Ok(_) => {
                    &&& recipe_contains_id(old(self).entries(), id)
                    &&& final(self).entries() == old(self).entries().remove(
                        recipe_index_of_id(old(self).entries(), id),
                    )
                },
                Err(DeleteRecipeError::NotFound(e)) => {
                    &&& e == id
                    &&& !recipe_contains_id(old(self).entries(), id)
                    &&& final(self).entries() == old(self).entries()
                },
                Err(_) => false,
            },
    ;

    /// Applies a changeset to the recipe with the given id: each present
    /// field replaces the stored one. An all-absent changeset is rejected
    /// before the id is even looked up.
    fn update(&mut self, id: u128, changeset: RecipeChangeset) -> (r: Result<
        Recipe,
        UpdateRecipeError,
    >)
        requires
            old(self).inv(),
            changeset@.wf(),
        ensures
            final(self).inv(),
            match r {
                Ok(out) => {
                    &&& !changeset@.is_empty()
                    &&& recipe_contains_id(old(self).entries(), id)
                    &&& out@ == apply_recipe_changeset(
                        old(self).entries()[recipe_index_of_id(old(self).entries(), id)],
                        changeset@,
                    )
                    &&& final(self).entries() == old(self).entries().update(
                        recipe_index_of_id(old(self).entries(), id),
                        out@,
                    )
                },
                Err(UpdateRecipeError::ValidationError(ValidationError::EmptyField(fs))) => {
                    &&& changeset@.is_empty()
                    &&& empty_recipe_changeset_fields(fs@)
                    &&& final(self).entries() == old(self).entries()
                },
                Err(UpdateRecipeError::Get(GetRecipeByIdError::NotFound(e))) => {
                    &&& e == id
                    &&& !changeset@.is_empty()
                    &&& !recipe_contains_id(old(self).entries(), id)
                    &&& final(self).entries() == old(self).entries()
                },
                Err(_) => false,
            },
    ;

    /// Attaches one ingredient entry to the stored recipe that has the
    /// given recipe's id; a recipe the store does not hold is opaque
    /// failure.
    fn add_ingredient(&mut self, recipe: &Recipe, ingredient: IngredientWithAmount) -> (r: Result<
        (),
        AddIngredientIntoRecipeError,
    >)
        requires
            old(self).inv(),
        ensures
            final(self).inv(),
            match r {
                Ok(_) => {
                    &&& recipe_contains_id(old(self).entries(), recipe@.id)
                    &&& final(self).entries() == old(self).entries().update(
                        recipe_index_of_id(old(self).entries(), recipe@.id),
                        with_ingredients(
                            old(self).entries()[recipe_index_of_id(
                                old(self).entries(),
                                recipe@.id,
                            )],
                            old(self).entries()[recipe_index_of_id(
                                old(self).entries(),
                                recipe@.id,
                            )].ingredients.push(ingredient@),
                        ),
                    )
                },
                Err(AddIngredientIntoRecipeError::UnknownError(_)) => {
                    &&& !recipe_contains_id(old(self).entries(), recipe@.id)
                    &&& final(self).entries() == old(self).entries()
                },
                Err(_) => false,
            },
    ;

    /// Detaches every entry bearing the given entry's ingredient id from
    /// the stored recipe that has the given recipe's id. Detaching the
    /// last entry would leave the recipe invalid and is rejected.
    fn delete_ingredient(&mut self, recipe: &Recipe, ingredient: &IngredientWithAmount) -> (r:
        Result<(), DeleteIngredientFromRecipeError>)
        requires
            old(self).inv(),
        ensures
            final(self).inv(),
            match r {
                Ok(_) => {
                    &&& recipe_contains_id(old(self).entries(), recipe@.id)
                    &&& without_ingredient(
                        old(self).entries()[recipe_index_of_id(
                            old(self).entries(),
                            recipe@.id,
                        )].ingredients,
                        ingredient@.ingredient.id,
                    ).len() > 0
                    &&& final(self).entries() == old(self).entries().update(
                        recipe_index_of_id(old(self).entries(), recipe@.id),
                        with_ingredients(
                            old(self).entries()[recipe_index_of_id(
                                old(self).entries(),
                                recipe@.id,
                            )],
                            without_ingredient(
                                old(self).entries()[recipe_index_of_id(
                                    old(self).entries(),
                                    recipe@.id,
                                )].ingredients,
                                ingredient@.ingredient.id,
                            ),
                        ),
                    )
                },
                Err(DeleteIngredientFromRecipeError::ValidationError(_)) => {
                    &&& recipe_contains_id(old(self).entries(), recipe@.id)
                    &&& without_ingredient(
                        old(self).entries()[recipe_index_of_id(
                            old(self).entries(),
                            recipe@.id,
                        )].ingredients,
                        ingredient@.ingredient.id,
                    ).len() == 0
                    &&& final(self).entries() == old(self).entries()
                },
                Err(DeleteIngredientFromRecipeError::UnknownError(_)) => {
                    &&& !recipe_contains_id(old(self).entries(), recipe@.id)
                    &&& final(self).entries() == old(self).entries()
                },
                Err(_) => false,
            },
    ;
}

/// The in-memory backend: a single growable sequence of recipes.
pub struct InMemoryRecipeRepository {
    pub items: Vec<Recipe>,
}

impl InMemoryRecipeRepository {
    /// An empty store.
    pub fn new() -> (r: Self)
        ensures
            r.inv(),
            r.entries() == Seq::<RecipeV>::empty(),
    {
        let r = InMemoryRecipeRepository { items: Vec::new() };
        proof {
            assert(r.entries() =~= Seq::<RecipeV>::empty());
        }
        r
    }

    /// The position of the entry with the given id, if any.
    fn find_index_by_id(&self, id: u128) -> (r: Option<usize>)
        ensures
            match r {
                Some(ix) => ix < self.items@.len() && self.items@[ix as int]@.id == id,
                None => forall|j: int| 0 <= j < self.items@.len() ==> self.items@[j]@.id != id,
            },
    {
        let mut i: usize = 0;
        while i < self.items.len()
            invariant
                i <= self.items@.len(),
                forall|j: int| 0 <= j < i ==> self.items@[j]@.id != id,
            decreases self.items@.len() - i,
        {
            if self.items[i].id == id {
                return Some(i);
            }
            i = i + 1;
        }
        None
    }
}

impl Default for InMemoryRecipeRepository {
    /// An empty store.
    fn default() -> (r: Self)
        ensures
            r.inv(),
            r.entries() == Seq::<RecipeV>::empty(),
    {
        InMemoryRecipeRepository::new()
    }
}

impl RecipeRepository for InMemoryRecipeRepository {
    open spec fn entries(&self) -> Seq<RecipeV> {
        recipe_views_of(self.items@)
    }

    open spec fn inv(&self) -> bool {
        recipe_store_inv(self.entries())
    }

    proof fn inv_store(&self) {
    }

    fn insert(&mut self, input: Recipe) -> (r: Result<Recipe, InsertRecipeError>) {
        match self.find_index_by_id(input.id) {
            Some(ix) => {
                proof {
                    assert(self.entries()[ix as int].id == input@.id);
                }
                Err(InsertRecipeError::Conflict("recipe id".to_owned()))
            },
            None => {
                let ghost before = self.entries();
                let stored = input.clone();
                self.items.push(stored);
                proof {
                    assert(self.entries() =~= before.push(input@));
                    assert forall|j: int, k: int|
                        0 <= j < k < self.entries().len() implies (
                    #[trigger] self.entries()[j]).id != (#[trigger] self.entries()[k]).id by {
                        if k == self.entries().len() - 1 {
                            assert(before[j].id != input@.id);
                        }
                    }
                }
                Ok(input)
            },
        }
    }

    fn get_by_id(&self, id: u128) -> (r: Result<Recipe, GetRecipeByIdError>) {
        match self.find_index_by_id(id) {
            Some(ix) => {
                let out = self.items[ix].clone();
                proof {
                    assert(self.entries()[ix as int] == out@);
                    let j = recipe_index_of_id(self.entries(), id);
                    assert(0 <= j < self.entries().len() && self.entries()[j].id == id);
                    if j != ix {
                        assert(self.entries()[j].id != self.entries()[ix as int].id);
                    }
                }
                Ok(out)
            },
            None => Err(GetRecipeByIdError::NotFound(id)),
        }
    }

    fn delete(&mut self, id: u128) -> (r: Result<(), DeleteRecipeError>) {
        match self.find_index_by_id(id) {
            Some(ix) => {
                let ghost before = self.entries();
                proof {
                    assert(before[ix as int].id == id);
                }
                self.items.remove(ix);
                proof {
                    let j = recipe_index_of_id(before, id);
                    assert(0 <= j < before.len() && before[j].id == id);
                    if j != ix {
                        assert(before[j].id != before[ix as int].id);
                    }
                    assert(self.entries() =~= before.remove(ix as int));
                }
                Ok(())
            },
            None => Err(DeleteRecipeError::NotFound(id)),
        }
    }

    fn update(&mut self, id: u128, changeset: RecipeChangeset) -> (r: Result<
        Recipe,
        UpdateRecipeError,
    >) {
        if changeset.is_empty() {
            return Err(UpdateRecipeError::ValidationError(ValidationError::EmptyField(
                empty_recipe_changeset_field_names(),
            )));
        }
        let ix = match self.find_index_by_id(id) {
            Some(ix) => ix,
            None => {
                return Err(UpdateRecipeError::Get(GetRecipeByIdError::NotFound(id)));
            },
        };
        let ghost before = self.entries();
        proof {
            assert(before[ix as int].id == id);
        }
        let mut updated = self.items[ix].clone();
        match changeset.name {
            Some(v) => {
                updated.name = v;
            },
            None => {},
        }
        match changeset.description {
            Some(v) => {
                updated.description = v;
            },
            None => {},
        }
        match changeset.steps {
            Some(v) => {
                updated.steps = v;
            },
            None => {},
        }
        match changeset.time {
            Some(v) => {
                updated.time = v;
            },
            None => {},
        }
        match changeset.servings {
            Some(v) => {
                updated.servings = v;
            },
            None => {},
        }
        proof {
            assert(updated@ == apply_recipe_changeset(before[ix as int], changeset@));
        }
        let out = updated.clone();
        self.items.remove(ix);
        self.items.insert(ix, updated);
        proof {
            let j = recipe_index_of_id(before, id);
            assert(0 <= j < before.len() && before[j].id == id);
            if j != ix {
                assert(before[j].id != before[ix as int].id);
            }
            assert(self.entries() =~= before.update(ix as int, out@));
        }
        Ok(out)
    }

    fn add_ingredient(&mut self, recipe: &Recipe, ingredient: IngredientWithAmount) -> (r: Result<
        (),
        AddIngredientIntoRecipeError,
    >) {
        let ix = match self.find_index_by_id(recipe.id) {
            Some(ix) => ix,
            None => {
                return Err(AddIngredientIntoRecipeError::UnknownError(
                    "recipe is not in the store".to_owned(),
                ));
            },
        };
        let ghost before = self.entries();
        proof {
            assert(before[ix as int].id == recipe@.id);
        }
        let mut updated = self.items[ix].clone();
        updated.ingredients.0.push(ingredient);
        proof {
            assert(updated@.ingredients =~= before[ix as int].ingredients.push(ingredient@));
            assert(updated@ == with_ingredients(
                before[ix as int],
                before[ix as int].ingredients.push(ingredient@),
            ));
        }
        self.items.remove(ix);
        self.items.insert(ix, updated);
        proof {
            let j = recipe_index_of_id(before, recipe@.id);
            assert(0 <= j < before.len() && before[j].id == recipe@.id);
            if j != ix {
                assert(before[j].id != before[ix as int].id);
            }
            assert(self.entries() =~= before.update(
                ix as int,
                with_ingredients(
                    before[ix as int],
                    before[ix as int].ingredients.push(ingredient@),
                ),
            ));
        }
        Ok(())
    }

    fn delete_ingredient(&mut self, recipe: &Recipe, ingredient: &IngredientWithAmount) -> (r:
        Result<(), DeleteIngredientFromRecipeError>) {
        let ix = match self.find_index_by_id(recipe.id) {
            Some(ix) => ix,
            None => {
                return Err(DeleteIngredientFromRecipeError::UnknownError(
                    "recipe is not in the store".to_owned(),
                ));
            },
        };
        let ghost before = self.entries();
        proof {
            assert(before[ix as int].id == recipe@.id);
        }
        let current = &self.items[ix];
        let target = ingredient.ingredient.id;
        let mut kept: Vec<IngredientWithAmount> = Vec::new();
        let mut i: usize = 0;
        let ghost held = current.ingredients@;
        proof {
            assert(held.subrange(0, 0).filter(
                |e: IngredientWithAmountV| e.ingredient.id != target,
            ) =~= Seq::<IngredientWithAmountV>::empty());
        }
        while i < current.ingredients.0.len()
            invariant
                i <= current.ingredients.0@.len(),
                held == current.ingredients@,
                held.len() == current.ingredients.0@.len(),
                entry_views_of(kept@) == without_ingredient(held.subrange(0, i as int), target),
            decreases current.ingredients.0@.len() - i,
        {
            proof {
                assert(held[i as int] == current.ingredients.0@[i as int]@);
            }
            if current.ingredients.0[i].ingredient.id != target {
                kept.push(current.ingredients.0[i].clone());
            }
            proof {
                broadcast use Seq::lemma_filter_push;

                assert(held.subrange(0, i + 1) =~= held.subrange(0, i as int).push(
                    held[i as int],
                ));
                assert(entry_views_of(kept@) =~= without_ingredient(
                    held.subrange(0, i + 1),
                    target,
                ));
            }
            i = i + 1;
        }
        proof {
            assert(held.subrange(0, held.len() as int) =~= held);
        }
        if kept.is_empty() {
            let mut fs: Vec<String> = Vec::new();
            fs.push("ingredients".to_owned());
            return Err(DeleteIngredientFromRecipeError::ValidationError(
                ValidationError::EmptyField(fs),
            ));
        }
        let mut updated = self.items[ix].clone();
        updated.ingredients = RecipeIngredients(kept);
        proof {
            assert(updated@ == with_ingredients(
                before[ix as int],
                without_ingredient(before[ix as int].ingredients, target),
            ));
        }
        self.items.remove(ix);
        self.items.insert(ix, updated);
        proof {
            let j = recipe_index_of_id(before, recipe@.id);
            assert(0 <= j < before.len() && before[j].id == recipe@.id);
            if j != ix {
                assert(before[j].id != before[ix as int].id);
            }
            assert(self.entries() =~= before.update(
                ix as int,
                with_ingredients(
                    before[ix as int],
                    without_ingredient(before[ix as int].ingredients, target),
                ),
            ));
        }
        Ok(())
    }
}

} // verus!
