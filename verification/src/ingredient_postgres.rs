//! The computational half of the database-backed ingredient repository:
//! mapping constraint names to logical field names, diffing requested
//! against fetched ids, and planning a read-modify-write update so that
//! only fields that actually differ are written.

use vstd::prelude::*;

use crate::ingredient::{
    apply_changeset, empty_changeset_field_names, empty_changeset_fields, Ingredient,
    IngredientChangeset, IngredientChangesetV, IngredientDescription, IngredientName,
    IngredientV, WhichDiets,
};
use crate::ingredient_errors::UpdateIngredientError;
use crate::validation::ValidationError;

verus! {

/// The logical field a uniqueness-constraint name stands for; an unmapped
/// name falls back to itself.
pub open spec fn spec_constraint_to_field(field: Seq<char>) -> Seq<char> {
    if field == "ingredients_name_key"@ {
        "name"@
    } else if field == "ingredients_pkey"@ {
        "id"@
    } else {
        field
    }
}

/// The database does not say which column a uniqueness violation hit, only
/// the constraint's name; this maps the constraints that exist in the
/// schema to logical field names.
pub fn constraint_to_field(field: &str) -> (r: &str)
    ensures
        r@ == spec_constraint_to_field(field@),
{
    let owned = field.to_owned();
    if owned == "ingredients_name_key".to_owned() {
        "name"
    } else if owned == "ingredients_pkey".to_owned() {
        "id"
    } else {
        field
    }
}

/// Whether a sequence of ids holds the given id.
fn vec_contains_id(v: &Vec<u128>, id: u128) -> (r: bool)
    ensures
        r == v@.contains(id),
{
    let mut i: usize = 0;
    while i < v.len()
        invariant
            i <= v.len(),
            forall|j: int| 0 <= j < i ==> v@[j] != id,
        decreases v.len() - i,
    {
        if v[i] == id {
            return true;
        }
        i = i + 1;
    }
    false
}

/// The requested ids that are not among the present ones, in request order,
/// duplicates kept.
pub open spec fn spec_missing_ids(requested: Seq<u128>, present: Seq<u128>) -> Seq<u128> {
    requested.filter(|id: u128| !present.contains(id))
}

/// Diffs a requested id set against the ids a batched fetch actually
/// returned: the result is the complete set of absent ids, not merely the
/// first, because a batched fetch signals nothing about which rows it
/// omitted.
pub fn missing_ids(requested: &Vec<u128>, found: &Vec<u128>) -> (r: Vec<u128>)
    ensures
        r@ == spec_missing_ids(requested@, found@),
{
    let mut out: Vec<u128> = Vec::new();
    let mut i: usize = 0;
    proof {
        assert(requested@.subrange(0, 0).filter(|id: u128| !found@.contains(id)) =~= Seq::<
            u128,
        >::empty());
    }
    while i < requested.len()
        invariant
            i <= requested.len(),
            out@ == spec_missing_ids(requested@.subrange(0, i as int), found@),
        decreases requested.len() - i,
    {
        let id = requested[i];
        let absent = !vec_contains_id(found, id);
        if absent {
            out.push(id);
        }
        proof {
            broadcast use Seq::lemma_filter_push;

            assert(requested@.subrange(0, i + 1) =~= requested@.subrange(0, i as int).push(
                requested@[i as int],
            ));
        }
        i = i + 1;
    }
    proof {
        assert(requested@.subrange(0, requested@.len() as int) =~= requested@);
    }
    out
}

/// Law: a changeset whose every present field equals the row's current
/// value changes nothing: applying it gives back the row itself. Combined
/// with the update plan's contract, such an update issues no write at all
/// and still returns the current row.
pub proof fn lemma_no_op_changeset_returns_the_current_row(
    current: IngredientV,
    changeset: IngredientChangesetV,
)
    requires
        changeset.name matches Some(n) ==> n == current.name,
        changeset.description matches Some(d) ==> d == current.description,
        changeset.diet_friendly matches Some(w) ==> w == current.diet_friendly,
    ensures
        apply_changeset(current, changeset) == current,
{
}

/// Rejects an all-absent changeset before anything else happens: the
/// database-backed update calls this ahead of its row fetch, so the
/// empty-changeset error is answered independently of whether the target
/// id exists.
pub fn reject_empty_changeset(changeset: &IngredientChangeset) -> (r: Result<
    (),
    UpdateIngredientError,
>)
    ensures
        changeset@.is_empty() ==> (r matches Err(UpdateIngredientError::ValidationError(
            ValidationError::EmptyField(fs),
        )) && empty_changeset_fields(fs@)),
        !changeset@.is_empty() ==> r is Ok,
{
    if changeset.is_empty() {
        Err(UpdateIngredientError::ValidationError(ValidationError::EmptyField(
            empty_changeset_field_names(),
        )))
    } else {
        Ok(())
    }
}

/// The update statements a read-modify-write ingredient update will issue:
/// one per field that is present in the changeset and differs from the
/// fetched row, and the row the transaction returns once they have run.
#[derive(PartialEq, Eq, Debug)]
pub struct IngredientUpdatePlan {
    /// The name to write, if the changeset's name differs from the row's.
    pub name: Option<IngredientName>,
    /// The description to write, if it differs from the row's.
    pub description: Option<IngredientDescription>,
    /// The labels to write, if they differ from the row's.
    pub diet_friendly: Option<WhichDiets>,
    /// The row as it stands after the last issued statement.
    pub result: Ingredient,
}

/// Plans a read-modify-write update against the row a lookup fetched: an
/// all-absent changeset is rejected; a present field equal to the row's
/// current value is not written but still returned.
pub fn plan_ingredient_update(current: &Ingredient, changeset: IngredientChangeset) -> (r: Result<
    IngredientUpdatePlan,
    UpdateIngredientError,
>)
    ensures
        changeset@.is_empty() ==> (r matches Err(UpdateIngredientError::ValidationError(
            ValidationError::EmptyField(fs),
        )) && empty_changeset_fields(fs@)),
        !changeset@.is_empty() ==> (r matches Ok(plan) && {
            &&& plan.result@ == apply_changeset(current@, changeset@)
            &&& (plan.name is Some <==> changeset@.name is Some && changeset@.name->0
                != current@.name)
            &&& (plan.name is Some ==> plan.name->0@ == changeset@.name->0)
            &&& (plan.description is Some <==> changeset@.description is Some
                && changeset@.description->0 != current@.description)
            &&& (plan.description is Some ==> plan.description->0@ == changeset@.description->0)
            &&& (plan.diet_friendly is Some <==> changeset@.diet_friendly is Some
                && changeset@.diet_friendly->0 != current@.diet_friendly)
            &&& (plan.diet_friendly is Some ==> plan.diet_friendly->0@
                == changeset@.diet_friendly->0)
        }),
{
    if changeset.is_empty() {
        return Err(UpdateIngredientError::ValidationError(ValidationError::EmptyField(
            empty_changeset_field_names(),
        )));
    }
    let mut result = current.clone();
    let name_write: Option<IngredientName> = match changeset.name {
        Some(n) => {
            if n.0 == result.name.0 {
                None
            } else {
                result.name = n.clone();
                Some(n)
            }
        },
        None => None,
    };
    let description_write: Option<IngredientDescription> = match changeset.description {
        Some(d) => {
            if d.0 == result.description.0 {
                None
            } else {
                result.description = d.clone();
                Some(d)
            }
        },
        None => None,
    };
    let diet_write: Option<WhichDiets> = match changeset.diet_friendly {
        Some(w) => {
            if w.eq_labels(&result.diet_friendly) {
                None
            } else {
                result.diet_friendly = w.clone();
                Some(w)
            }
        },
        None => None,
    };
    Ok(IngredientUpdatePlan {
        name: name_write,
        description: description_write,
        diet_friendly: diet_write,
        result,
    })
}

} // verus!
