//! Row models of the recipe tables as a database hands them back: the base
//! recipe row and its step rows.

use vstd::prelude::*;

verus! {

/// The base row of a stored recipe.
#[derive(PartialEq, Eq, Debug)]
pub struct RecipeBase {
    pub id: i32,
    pub name: String,
    pub description: String,
    pub user_id: i32,
}

/// One step row of a stored recipe.
#[derive(PartialEq, Eq, Debug)]
pub struct Step {
    pub index: i32,
    pub instructions: String,
}

/// The instructions of the given step rows, in row order; the transfer
/// shape of a recipe carries these instead of the rows.
pub fn step_instructions(steps: &Vec<Step>) -> (r: Vec<String>)
    ensures
        r@.len() == steps@.len(),
        forall|j: int| 0 <= j < r@.len() ==> (#[trigger] r@[j])@ == steps@[j].instructions@,
{
    let mut out: Vec<String> = Vec::new();
    let mut i: usize = 0;
    while i < steps.len()
        invariant
            i <= steps@.len(),
            out@.len() == i,
            forall|j: int| 0 <= j < i ==> (#[trigger] out@[j])@ == steps@[j].instructions@,
        decreases steps@.len() - i,
    {
        out.push(steps[i].instructions.clone());
        i = i + 1;
    }
    out
}

} // verus!
