//! Recipe entities: servings, ingredient amounts, the non-empty step and
//! ingredient sequences a recipe is built from, and the partial-update
//! changeset.

use vstd::prelude::*;

use crate::ingredient::{Ingredient, IngredientV};
use crate::validation::ValidationError;

verus! {

/// How many servings a recipe yields.
#[derive(Clone, Copy, PartialEq, Eq, Structural, Debug)]
pub enum ServingsType {
    Exact(u32),
    FromTo(u32, u32),
}

/// The amount of an ingredient, with its unit.
#[derive(Clone, Copy, PartialEq, Eq, Structural, Debug)]
pub enum IngredientUnit {
    Grams(u64),
    Milliliters(u64),
    Teaspoons(u64),
    Pieces(u64),
}

/// The mathematical value of one requested ingredient entry.
pub struct IngredientAmountDataV {
    pub ingredient_id: u128,
    pub amount: IngredientUnit,
    pub optional: bool,
    pub notes: Option<Seq<char>>,
}

/// One entry of a recipe request: which ingredient, how much of it,
/// whether it may be left out, and free-form notes.
#[derive(PartialEq, Eq, Debug)]
pub struct IngredientAmountData {
    pub ingredient_id: u128,
    pub amount: IngredientUnit,
    pub optional: bool,
    pub notes: Option<String>,
}

impl View for IngredientAmountData {
    type V = IngredientAmountDataV;

    open spec fn view(&self) -> IngredientAmountDataV {
        IngredientAmountDataV {
            ingredient_id: self.ingredient_id,
            amount: self.amount,
            optional: self.optional,
            notes: match self.notes {
                Some(n) => Some(n@),
                None => None,
            },
        }
    }
}

impl Clone for IngredientAmountData {
    fn clone(&self) -> (r: Self)
        ensures
            r@ == self@,
    {
        IngredientAmountData {
            ingredient_id: self.ingredient_id,
            amount: self.amount,
            optional: self.optional,
            notes: match &self.notes {
                Some(n) => Some(n.clone()),
                None => None,
            },
        }
    }
}

/// The mathematical value of one held ingredient entry.
pub struct IngredientWithAmountV {
    pub ingredient: IngredientV,
    pub amount: IngredientUnit,
    pub optional: bool,
    pub notes: Option<Seq<char>>,
}

/// One entry of a stored recipe: the resolved ingredient with its amount,
/// optional flag and notes.
#[derive(PartialEq, Eq, Debug)]
pub struct IngredientWithAmount {
    pub ingredient: Ingredient,
    pub amount: IngredientUnit,
    pub optional: bool,
    pub notes: Option<String>,
}

impl View for IngredientWithAmount {
    type V = IngredientWithAmountV;

    open spec fn view(&self) -> IngredientWithAmountV {
        IngredientWithAmountV {
            ingredient: self.ingredient@,
            amount: self.amount,
            optional: self.optional,
            notes: match self.notes {
                Some(n) => Some(n@),
                None => None,
            },
        }
    }
}

impl Clone for IngredientWithAmount {
    fn clone(&self) -> (r: Self)
        ensures
            r@ == self@,
    {
        IngredientWithAmount {
            ingredient: self.ingredient.clone(),
            amount: self.amount,
            optional: self.optional,
            notes: match &self.notes {
                Some(n) => Some(n.clone()),
                None => None,
            },
        }
    }
}

/// The ordered, non-empty steps of a recipe.
#[derive(PartialEq, Eq, Debug)]
pub struct RecipeSteps(pub Vec<String>);

impl View for RecipeSteps {
    type V = Seq<Seq<char>>;

    open spec fn view(&self) -> Seq<Seq<char>> {
        self.0@.map_values(|s: String| s@)
    }
}

impl Clone for RecipeSteps {
    fn clone(&self) -> (r: Self)
        ensures
            r@ == self@,
    {
        let mut v: Vec<String> = Vec::new();
        let mut i: usize = 0;
        while i < self.0.len()
            invariant
                i <= self.0@.len(),
                v@.len() == i,
                forall|j: int| 0 <= j < i ==> (#[trigger] v@[j])@ == self.0@[j]@,
            decreases self.0@.len() - i,
        {
            v.push(self.0[i].clone());
            i = i + 1;
        }
        let r = RecipeSteps(v);
        proof {
            assert(r@ =~= self@);
        }
        r
    }
}

impl RecipeSteps {
    /// Non-empty.
    pub open spec fn wf(&self) -> bool {
        self@.len() > 0
    }

    /// Accepts a non-empty sequence of steps; rejects an empty one.
    pub fn try_from_vec(steps: Vec<String>) -> (r: Result<RecipeSteps, ValidationError>)
        ensures
            steps@.len() > 0 ==> (r matches Ok(s) && s == RecipeSteps(steps)),
            steps@.len() == 0 ==> (r matches Err(ValidationError::EmptyField(fs)) && fs@.len() == 1
                && fs@[0]@ == "steps"@),
            r is Ok ==> r->Ok_0.wf(),
    {
        if steps.is_empty() {
            let mut fs: Vec<String> = Vec::new();
            fs.push("steps".to_owned());
            Err(ValidationError::EmptyField(fs))
        } else {
            Ok(RecipeSteps(steps))
        }
    }
}

/// The non-empty resolved ingredient entries of a recipe.
#[derive(PartialEq, Eq, Debug)]
pub struct RecipeIngredients(pub Vec<IngredientWithAmount>);

impl View for RecipeIngredients {
    type V = Seq<IngredientWithAmountV>;

    open spec fn view(&self) -> Seq<IngredientWithAmountV> {
        self.0@.map_values(|i: IngredientWithAmount| i@)
    }
}

impl Clone for RecipeIngredients {
    fn clone(&self) -> (r: Self)
        ensures
            r@ == self@,
    {
        let mut v: Vec<IngredientWithAmount> = Vec::new();
        let mut i: usize = 0;
        while i < self.0.len()
            invariant
                i <= self.0@.len(),
                v@.len() == i,
                forall|j: int| 0 <= j < i ==> (#[trigger] v@[j])@ == self.0@[j]@,
            decreases self.0@.len() - i,
        {
            v.push(self.0[i].clone());
            i = i + 1;
        }
        let r = RecipeIngredients(v);
        proof {
            assert(r@ =~= self@);
        }
        r
    }
}

impl RecipeIngredients {
    /// Non-empty.
    pub open spec fn wf(&self) -> bool {
        self@.len() > 0
    }

    /// Accepts a non-empty sequence of entries; rejects an empty one.
    pub fn try_from_vec(entries: Vec<IngredientWithAmount>) -> (r: Result<
        RecipeIngredients,
        ValidationError,
    >)
        ensures
            entries@.len() > 0 ==> (r matches Ok(s) && s == RecipeIngredients(entries)),
            entries@.len() == 0 ==> (r matches Err(ValidationError::EmptyField(fs)) && fs@.len()
                == 1 && fs@[0]@ == "ingredients"@),
            r is Ok ==> r->Ok_0.wf(),
    {
        if entries.is_empty() {
            let mut fs: Vec<String> = Vec::new();
            fs.push("ingredients".to_owned());
            Err(ValidationError::EmptyField(fs))
        } else {
            Ok(RecipeIngredients(entries))
        }
    }
}

/// Pairwise-distinct phase names.
pub open spec fn unique_phase_names(s: Seq<(Seq<char>, u64)>) -> bool {
    forall|j: int, k: int| 0 <= j < k < s.len() ==> (#[trigger] s[j]).0 != (#[trigger] s[k]).0
}

/// The named phases of a recipe (preparation, cooking, ...) with their
/// durations in seconds: a mapping, so phase names are unique.
#[derive(PartialEq, Eq, Debug)]
pub struct RecipeTimes(pub Vec<(String, u64)>);

impl View for RecipeTimes {
    type V = Seq<(Seq<char>, u64)>;

    open spec fn view(&self) -> Seq<(Seq<char>, u64)> {
        self.0@.map_values(|p: (String, u64)| (p.0@, p.1))
    }
}

impl Clone for RecipeTimes {
    fn clone(&self) -> (r: Self)
        ensures
            r@ == self@,
    {
        let mut v: Vec<(String, u64)> = Vec::new();
        let mut i: usize = 0;
        while i < self.0.len()
            invariant
                i <= self.0@.len(),
                v@.len() == i,
                forall|j: int|
                    0 <= j < i ==> (#[trigger] v@[j]).0@ == self.0@[j].0@ && v@[j].1
                        == self.0@[j].1,
            decreases self.0@.len() - i,
        {
            let name = self.0[i].0.clone();
            let secs = self.0[i].1;
            v.push((name, secs));
            i = i + 1;
        }
        let r = RecipeTimes(v);
        proof {
            assert(r@ =~= self@);
        }
        r
    }
}

impl RecipeTimes {
    /// Phase names are pairwise distinct.
    pub open spec fn wf(&self) -> bool {
        unique_phase_names(self@)
    }

    /// An empty mapping.
    pub fn new() -> (r: Self)
        ensures
            r@ == Seq::<(Seq<char>, u64)>::empty(),
            r.wf(),
    {
        let r = RecipeTimes(Vec::new());
        proof {
            assert(r@ =~= Seq::<(Seq<char>, u64)>::empty());
        }
        r
    }

    /// Builds the mapping from name-duration pairs; duplicate names are
    /// rejected.
    pub fn try_from_pairs(pairs: Vec<(String, u64)>) -> (r: Option<RecipeTimes>)
        ensures
            match r {
                Some(t) => t == RecipeTimes(pairs) && t.wf(),
                None => !unique_phase_names(RecipeTimes(pairs)@),
            },
    {
        let times = RecipeTimes(pairs);
        let mut i: usize = 0;
        while i < times.0.len()
            invariant
                times == RecipeTimes(pairs),
                i <= times.0@.len(),
                forall|j: int, k: int|
                    0 <= j < k < times.0@.len() && j < i ==> (#[trigger] times@[j]).0 != (
                    #[trigger] times@[k]).0,
            decreases times.0@.len() - i,
        {
            let mut k: usize = i + 1;
            while k < times.0.len()
                invariant
                    times == RecipeTimes(pairs),
                    i < times.0@.len(),
                    i + 1 <= k <= times.0@.len(),
                    forall|k2: int| i < k2 < k ==> (#[trigger] times@[k2]).0 != times@[i as int].0,
                decreases times.0@.len() - k,
            {
                if times.0[k].0 == times.0[i].0 {
                    proof {
                        assert(times@[k as int].0 == times@[i as int].0);
                        assert(times == RecipeTimes(pairs));
                        assert(!unique_phase_names(RecipeTimes(pairs)@)) by {
                            assert(0 <= i < k < RecipeTimes(pairs)@.len());
                            assert((RecipeTimes(pairs)@[i as int]).0 == (RecipeTimes(
                                pairs,
                            )@[k as int]).0);
                        }
                    }
                    return None;
                }
                k = k + 1;
            }
            i = i + 1;
        }
        Some(times)
    }
}

/// The mathematical value of a recipe.
pub struct RecipeV {
    pub id: u128,
    pub name: Seq<char>,
    pub description: Seq<char>,
    pub steps: Seq<Seq<char>>,
    pub ingredients: Seq<IngredientWithAmountV>,
    pub time: Seq<(Seq<char>, u64)>,
    pub servings: ServingsType,
}

impl RecipeV {
    /// Steps and ingredients are non-empty; phase names are unique.
    pub open spec fn wf(&self) -> bool {
        &&& self.steps.len() > 0
        &&& self.ingredients.len() > 0
        &&& unique_phase_names(self.time)
    }
}

/// A stored recipe.
#[derive(PartialEq, Eq, Debug)]
pub struct Recipe {
    pub id: u128,
    pub name: String,
    pub description: String,
    pub steps: RecipeSteps,
    pub ingredients: RecipeIngredients,
    pub time: RecipeTimes,
    pub servings: ServingsType,
}

impl View for Recipe {
    type V = RecipeV;

    open spec fn view(&self) -> RecipeV {
        RecipeV {
            id: self.id,
            name: self.name@,
            description: self.description@,
            steps: self.steps@,
            ingredients: self.ingredients@,
            time: self.time@,
            servings: self.servings,
        }
    }
}

impl Clone for Recipe {
    fn clone(&self) -> (r: Self)
        ensures
            r@ == self@,
    {
        Recipe {
            id: self.id,
            name: self.name.clone(),
            description: self.description.clone(),
            steps: self.steps.clone(),
            ingredients: self.ingredients.clone(),
            time: self.time.clone(),
            servings: self.servings,
        }
    }
}

/// The mathematical value of a recipe changeset.
pub struct RecipeChangesetV {
    pub name: Option<Seq<char>>,
    pub description: Option<Seq<char>>,
    pub steps: Option<Seq<Seq<char>>>,
    pub time: Option<Seq<(Seq<char>, u64)>>,
    pub servings: Option<ServingsType>,
}

impl RecipeChangesetV {
    /// Present fields satisfy the recipe's own invariants.
    pub open spec fn wf(&self) -> bool {
        &&& (self.steps matches Some(s) ==> s.len() > 0)
        &&& (self.time matches Some(t) ==> unique_phase_names(t))
    }

    /// Whether every field is absent.
    pub open spec fn is_empty(&self) -> bool {
        &&& self.name is None
        &&& self.description is None
        &&& self.steps is None
        &&& self.time is None
        &&& self.servings is None
    }
}

/// A partial update of a recipe: each field is independently optional.
#[derive(PartialEq, Eq, Debug)]
pub struct RecipeChangeset {
    pub name: Option<String>,
    pub description: Option<String>,
    pub steps: Option<RecipeSteps>,
    pub time: Option<RecipeTimes>,
    pub servings: Option<ServingsType>,
}

impl View for RecipeChangeset {
    type V = RecipeChangesetV;

    open spec fn view(&self) -> RecipeChangesetV {
        RecipeChangesetV {
            name: match self.name {
                Some(n) => Some(n@),
                None => None,
            },
            description: match self.description {
                Some(d) => Some(d@),
                None => None,
            },
            steps: match self.steps {
                Some(s) => Some(s@),
                None => None,
            },
            time: match self.time {
                Some(t) => Some(t@),
                None => None,
            },
            servings: self.servings,
        }
    }
}

impl RecipeChangeset {
    /// Whether every field is absent.
    pub fn is_empty(&self) -> (r: bool)
        ensures
            r == self@.is_empty(),
    {
        self.name.is_none() && self.description.is_none() && self.steps.is_none()
            && self.time.is_none() && self.servings.is_none()
    }
}

/// The field list reported when a recipe changeset has no present field.
pub open spec fn empty_recipe_changeset_fields(fs: Seq<String>) -> bool {
    &&& fs.len() == 5
    &&& fs[0]@ == "name"@
    &&& fs[1]@ == "description"@
    &&& fs[2]@ == "steps"@
    &&& fs[3]@ == "time"@
    &&& fs[4]@ == "servings"@
}

/// The field list reported when a recipe changeset has no present field.
pub fn empty_recipe_changeset_field_names() -> (r: Vec<String>)
    ensures
        empty_recipe_changeset_fields(r@),
{
    let mut fs: Vec<String> = Vec::new();
    fs.push("name".to_owned());
    fs.push("description".to_owned());
    fs.push("steps".to_owned());
    fs.push("time".to_owned());
    fs.push("servings".to_owned());
    fs
}

/// The recipe that results from applying a changeset: each present field
/// replaces the stored one; the id and the ingredient entries never change.
pub open spec fn apply_recipe_changeset(r: RecipeV, c: RecipeChangesetV) -> RecipeV {
    RecipeV {
        id: r.id,
        name: match c.name {
            Some(n) => n,
            None => r.name,
        },
        description: match c.description {
            Some(d) => d,
            None => r.description,
        },
        steps: match c.steps {
            Some(s) => s,
            None => r.steps,
        },
        ingredients: r.ingredients,
        time: match c.time {
            Some(t) => t,
            None => r.time,
        },
        servings: match c.servings {
            Some(s) => s,
            None => r.servings,
        },
    }
}

} // verus!
