//! The polymorphic ingredient repository: the capability set every backend
//! offers, stated once as a contract, and the in-memory backend that
//! implements it.

use vstd::prelude::*;

use crate::ingredient::{
    apply_changeset, empty_changeset_field_names, empty_changeset_fields, Ingredient,
    IngredientChangeset, IngredientV,
};
use crate::ingredient_errors::{
    DeleteIngredientError, GetAllIngredientsError, GetIngredientByIdError, InsertIngredientError,
    UpdateIngredientError,
};
use crate::validation::ValidationError;

verus! {

/// Whether the store holds an ingredient with the given id.
pub open spec fn contains_id(s: Seq<IngredientV>, id: u128) -> bool {
    exists|j: int| 0 <= j < s.len() && s[j].id == id
}

/// Whether the store holds an ingredient with the given name.
pub open spec fn contains_name(s: Seq<IngredientV>, name: Seq<char>) -> bool {
    exists|j: int| 0 <= j < s.len() && s[j].name == name
}

/// Whether some ingredient other than the one with the given id holds the
/// given name.
pub open spec fn name_taken_by_other(s: Seq<IngredientV>, id: u128, name: Seq<char>) -> bool {
    exists|j: int| 0 <= j < s.len() && s[j].id != id && s[j].name == name
}

/// The position of the ingredient with the given id; meaningful only when
/// `contains_id` holds, and unique under `store_inv`.
pub open spec fn index_of_id(s: Seq<IngredientV>, id: u128) -> int {
    choose|j: int| 0 <= j < s.len() && s[j].id == id
}

/// The store's invariant: every entry is well-formed and both ids and
/// names are unique across the store.
pub open spec fn store_inv(s: Seq<IngredientV>) -> bool {
    &&& forall|j: int| 0 <= j < s.len() ==> (#[trigger] s[j]).wf()
    &&& forall|j: int, k: int| 0 <= j < k < s.len() ==> (#[trigger] s[j]).id != (#[trigger] s[k]).id
    &&& forall|j: int, k: int|
        0 <= j < k < s.len() ==> (#[trigger] s[j]).name != (#[trigger] s[k]).name
}

/// The mathematical contents of a sequence of ingredients.
pub open spec fn views_of(s: Seq<Ingredient>) -> Seq<IngredientV> {
    s.map_values(|i: Ingredient| i@)
}

/// The requested ids that the store does not hold, in request order,
/// duplicates kept.
pub open spec fn missing_from_store(ids: Seq<u128>, s: Seq<IngredientV>) -> Seq<u128> {
    ids.filter(|id: u128| !contains_id(s, id))
}

/// What `insert` promises, as one predicate over the store before and
/// after the call, the inserted ingredient and the result.
pub open spec fn insert_post(
    before: Seq<IngredientV>,
    after: Seq<IngredientV>,
    ingredient: IngredientV,
    r: Result<Ingredient, InsertIngredientError>,
) -> bool {
    match r {
        Ok(out) => {
            &&& !contains_id(before, ingredient.id)
            &&& !contains_name(before, ingredient.name)
            &&& out@ == ingredient
            &&& after == before.push(ingredient)
        },
        Err(InsertIngredientError::Conflict(f)) => {
            &&& after == before
            &&& (f@ == "id"@ && contains_id(before, ingredient.id)) || (f@ == "name"@
                && !contains_id(before, ingredient.id) && contains_name(before, ingredient.name))
        },
        Err(_) => false,
    }
}

/// Law: inserting an ingredient whose name another stored entry already
/// holds fails with `Conflict("name")` and leaves the store unchanged,
/// whatever the backend: of the insert contract's outcomes, success
/// contradicts the taken name, and the id conflict contradicts the fresh
/// id.
pub proof fn lemma_insert_with_taken_name_is_a_name_conflict(
    before: Seq<IngredientV>,
    after: Seq<IngredientV>,
    ingredient: IngredientV,
    r: Result<Ingredient, InsertIngredientError>,
)
    requires
        insert_post(before, after, ingredient, r),
        contains_name(before, ingredient.name),
        !contains_id(before, ingredient.id),
    ensures
        r matches Err(InsertIngredientError::Conflict(f)) && f@ == "name"@,
        after == before,
{
}

/// The capability set of an ingredient store. Entries are modelled as the
/// sequence of held ingredients in insertion order; every backend keeps
/// `store_inv` of it.
pub trait IngredientRepository: Sized {
    /// The ingredients the store holds, in insertion order.
    spec fn entries(&self) -> Seq<IngredientV>;

    /// The backend's own invariant; it implies `store_inv` of the entries.
    spec fn inv(&self) -> bool;

    /// The invariant seen through the model.
    proof fn inv_store(&self)
        requires
            self.inv(),
        ensures
            store_inv(self.entries()),
    ;

    /// Adds an ingredient. Fails with `Conflict("id")` when the id is
    /// taken, else with `Conflict("name")` when the name is taken;
    /// otherwise appends the ingredient and returns it.
    fn insert(&mut self, ingredient: Ingredient) -> (r: Result<Ingredient, InsertIngredientError>)
        requires
            old(self).inv(),
            ingredient@.wf(),
        ensures
            final(self).inv(),
            insert_post(old(self).entries(), final(self).entries(), ingredient@, r),
    ;

    /// Looks an ingredient up by id; fails with `NotFound` carrying that id.
    fn get_by_id(&self, id: u128) -> (r: Result<Ingredient, GetIngredientByIdError>)
        requires
            self.inv(),
        ensures
            match r {
                Ok(out) => {
                    &&& contains_id(self.entries(), id)
                    &&& out@.id == id
                    &&& out@ == self.entries()[index_of_id(self.entries(), id)]
                    &&& self.entries().contains(out@)
                },
                Err(GetIngredientByIdError::NotFound(e)) => e == id && !contains_id(
                    self.entries(),
                    id,
                ),
                Err(_) => false,
            },
    ;

    /// Returns every held ingredient, in insertion order; an empty store
    /// yields an empty sequence, not an error.
    fn get_all(&self) -> (r: Result<Vec<Ingredient>, GetAllIngredientsError>)
        requires
            self.inv(),
        ensures
            match r {
                Ok(v) => views_of(v@) == self.entries(),
                Err(_) => false,
            },
    ;

    /// Returns the ingredients with the requested ids, in request order.
    /// If any id is absent, fails with the complete sequence of absent
    /// ids, not a truncated one.
    fn get_all_by_id(&self, ids: &Vec<u128>) -> (r: Result<
        Vec<Ingredient>,
        GetAllIngredientsError,
    >)
        requires
            self.inv(),
        ensures
            match r {
                Ok(v) => {
                    &&& missing_from_store(ids@, self.entries()).len() == 0
                    &&& v@.len() == ids@.len()
                    &&& forall|k: int|
                        0 <= k < v@.len() ==> (#[trigger] v@[k])@.id == ids@[k]
                            && v@[k]@ == self.entries()[index_of_id(self.entries(), ids@[k])]
                            && self.entries().contains(v@[k]@)
                },
                Err(GetAllIngredientsError::MultipleIngredientsMissing(m)) => {
                    &&& m@ == missing_from_store(ids@, self.entries())
                    &&& m@.len() > 0
                },
                Err(_) => false,
            },
    ;

    /// Applies a changeset to the ingredient with the given id. An
    /// all-absent changeset is rejected before the id is even looked up;
    /// a present id is required; a present name that another entry already
    /// holds is a conflict.
    fn update(&mut self, id: u128, changeset: IngredientChangeset) -> (r: Result<
        Ingredient,
        UpdateIngredientError,
    >)
        requires
            old(self).inv(),
            changeset@.wf(),
        ensures
            final(self).inv(),
            match r {
                Ok(out) => {
                    &&& !changeset@.is_empty()
                    &&& contains_id(old(self).entries(), id)
                    &&& out@ == apply_changeset(
                        old(self).entries()[index_of_id(old(self).entries(), id)],
                        changeset@,
                    )
                    &&& final(self).entries() == old(self).entries().update(
                        index_of_id(old(self).entries(), id),
                        out@,
                    )
                },
                Err(UpdateIngredientError::ValidationError(ValidationError::EmptyField(fs))) => {
                    &&& changeset@.is_empty()
                    &&& empty_changeset_fields(fs@)
                    &&& final(self).entries() == old(self).entries()
                },
                Err(UpdateIngredientError::Get(GetIngredientByIdError::NotFound(e))) => {
                    &&& e == id
                    &&& !changeset@.is_empty()
                    &&& !contains_id(old(self).entries(), id)
                    &&& final(self).entries() == old(self).entries()
                },
                Err(UpdateIngredientError::Conflict(f)) => {
                    &&& f@ == "name"@
                    &&& !changeset@.is_empty()
                    &&& contains_id(old(self).entries(), id)
                    &&& changeset@.name is Some
                    &&& name_taken_by_other(old(self).entries(), id, changeset@.name->0)
                    &&& final(self).entries() == old(self).entries()
                },
                Err(_) => false,
            },
    ;

    /// Removes the ingredient with the given id; a missing id is
    /// `NotFound`.
    fn delete(&mut self, id: u128) -> (r: Result<(), DeleteIngredientError>)
        requires
            old(self).inv(),
        ensures
            final(self).inv(),
            match r {
                Ok(_) => {
                    &&& contains_id(old(self).entries(), id)
                    &&& final(self).entries() == old(self).entries().remove(
                        index_of_id(old(self).entries(), id),
                    )
                },
                Err(DeleteIngredientError::Get(GetIngredientByIdError::NotFound(e))) => {
                    &&& e == id
                    &&& !contains_id(old(self).entries(), id)
                    &&& final(self).entries() == old(self).entries()
                },
                Err(_) => false,
            },
    ;
}

/// The in-memory backend: a single growable sequence of ingredients.
pub struct InMemoryIngredientRepository {
    pub items: Vec<Ingredient>,
}

impl InMemoryIngredientRepository {
    /// An empty store.
    pub fn new() -> (r: Self)
        ensures
            r.inv(),
            r.entries() == Seq::<IngredientV>::empty(),
    {
        let r = InMemoryIngredientRepository { items: Vec::new() };
        proof {
            assert(r.entries() =~= Seq::<IngredientV>::empty());
        }
        r
    }

    /// The position of the entry with the given id, if any.
    fn find_index_by_id(&self, id: u128) -> (r: Option<usize>)
        ensures
            match r {
                Some(ix) => ix < self.items@.len() && self.items@[ix as int]@.id == id,
                None => forall|j: int| 0 <= j < self.items@.len() ==> self.items@[j]@.id != id,
            },
    {
        let mut i: usize = 0;
        while i < self.items.len()
            invariant
                i <= self.items@.len(),
                forall|j: int| 0 <= j < i ==> self.items@[j]@.id != id,
            decreases self.items@.len() - i,
        {
            if self.items[i].id == id {
                return Some(i);
            }
            i = i + 1;
        }
        None
    }

    /// The position of an entry with the given name whose id differs from
    /// `except_id`, if any.
    fn find_other_with_name(&self, name: &String, except_id: u128) -> (r: Option<usize>)
        ensures
            match r {
                Some(ix) => ix < self.items@.len() && self.items@[ix as int]@.name == name@
                    && self.items@[ix as int]@.id != except_id,
                None => forall|j: int|
                    0 <= j < self.items@.len() ==> !(self.items@[j]@.name == name@
                        && self.items@[j]@.id != except_id),
            },
    {
        let mut i: usize = 0;
        while i < self.items.len()
            invariant
                i <= self.items@.len(),
                forall|j: int|
                    0 <= j < i ==> !(self.items@[j]@.name == name@ && self.items@[j]@.id
                        != except_id),
            decreases self.items@.len() - i,
        {
            if self.items[i].name.0 == *name && self.items[i].id != except_id {
                return Some(i);
            }
            i = i + 1;
        }
        None
    }
}

impl IngredientRepository for InMemoryIngredientRepository {
    open spec fn entries(&self) -> Seq<IngredientV> {
        views_of(self.items@)
    }

    open spec fn inv(&self) -> bool {
        store_inv(self.entries())
    }

    proof fn inv_store(&self) {
    }

    fn insert(&mut self, ingredient: Ingredient) -> (r: Result<Ingredient, InsertIngredientError>) {
        match self.find_index_by_id(ingredient.id) {
            Some(ix) => {
                proof {
                    assert(self.entries()[ix as int].id == ingredient@.id);
                }
                Err(InsertIngredientError::Conflict("id".to_owned()))
            },
            None => {
                match self.find_other_with_name(&ingredient.name.0, ingredient.id) {
                    Some(ix) => {
                        proof {
                            assert(self.entries()[ix as int].name == ingredient@.name);
                        }
                        Err(InsertIngredientError::Conflict("name".to_owned()))
                    },
                    None => {
                        let ghost before = self.entries();
                        let stored = ingredient.clone();
                        self.items.push(stored);
                        proof {
                            assert(self.entries() =~= before.push(ingredient@));
                            assert forall|j: int, k: int|
                                0 <= j < k < self.entries().len() implies (
                            #[trigger] self.entries()[j]).name != (
                            #[trigger] self.entries()[k]).name by {
                                if k == self.entries().len() - 1 {
                                    assert(before[j].name != ingredient@.name);
                                }
                            }
                            assert forall|j: int, k: int|
                                0 <= j < k < self.entries().len() implies (
                            #[trigger] self.entries()[j]).id != (
                            #[trigger] self.entries()[k]).id by {
                                if k == self.entries().len() - 1 {
                                    assert(before[j].id != ingredient@.id);
                                }
                            }
                        }
                        Ok(ingredient)
                    },
                }
            },
        }
    }

    fn get_by_id(&self, id: u128) -> (r: Result<Ingredient, GetIngredientByIdError>) {
        match self.find_index_by_id(id) {
            Some(ix) => {
                let out = self.items[ix].clone();
                proof {
                    assert(self.entries()[ix as int] == out@);
                    let j = index_of_id(self.entries(), id);
                    assert(0 <= j < self.entries().len() && self.entries()[j].id == id);
                    if j != ix {
                        assert(self.entries()[j].id != self.entries()[ix as int].id);
                    }
                }
                Ok(out)
            },
            None => Err(GetIngredientByIdError::NotFound(id)),
        }
    }

    fn get_all(&self) -> (r: Result<Vec<Ingredient>, GetAllIngredientsError>) {
        let mut out: Vec<Ingredient> = Vec::new();
        let mut i: usize = 0;
        while i < self.items.len()
            invariant
                i <= self.items@.len(),
                out@.len() == i,
                forall|j: int| 0 <= j < i ==> (#[trigger] out@[j])@ == self.items@[j]@,
            decreases self.items@.len() - i,
        {
            out.push(self.items[i].clone());
            i = i + 1;
        }
        proof {
            assert(views_of(out@) =~= self.entries());
        }
        Ok(out)
    }

    fn get_all_by_id(&self, ids: &Vec<u128>) -> (r: Result<
        Vec<Ingredient>,
        GetAllIngredientsError,
    >) {
        let mut found: Vec<Ingredient> = Vec::new();
        let mut missing: Vec<u128> = Vec::new();
        let mut i: usize = 0;
        proof {
            assert(missing_from_store(ids@.subrange(0, 0), self.entries()) =~= Seq::<
                u128,
            >::empty());
        }
        while i < ids.len()
            invariant
                i <= ids@.len(),
                self.inv(),
                missing@ == missing_from_store(ids@.subrange(0, i as int), self.entries()),
                missing@.len() == 0 ==> found@.len() == i,
                missing@.len() == 0 ==> forall|k: int|
                    0 <= k < found@.len() ==> (#[trigger] found@[k])@.id == ids@[k]
                        && found@[k]@ == self.entries()[index_of_id(self.entries(), ids@[k])]
                        && self.entries().contains(found@[k]@),
            decreases ids@.len() - i,
        {
            let id = ids[i];
            match self.find_index_by_id(id) {
                Some(ix) => {
                    let item = self.items[ix].clone();
                    proof {
                        assert(self.entries()[ix as int] == item@);
                        assert(contains_id(self.entries(), id));
                        let j = index_of_id(self.entries(), id);
                        assert(0 <= j < self.entries().len() && self.entries()[j].id == id);
                        if j != ix {
                            assert(self.entries()[j].id != self.entries()[ix as int].id);
                        }
                    }
                    found.push(item);
                },
                None => {
                    missing.push(id);
                },
            }
            proof {
                broadcast use Seq::lemma_filter_push;

                assert(ids@.subrange(0, i + 1) =~= ids@.subrange(0, i as int).push(
                    ids@[i as int],
                ));
            }
            i = i + 1;
        }
        proof {
            assert(ids@.subrange(0, ids@.len() as int) =~= ids@);
        }
        if missing.is_empty() {
            Ok(found)
        } else {
            Err(GetAllIngredientsError::MultipleIngredientsMissing(missing))
        }
    }

    fn update(&mut self, id: u128, changeset: IngredientChangeset) -> (r: Result<
        Ingredient,
        UpdateIngredientError,
    >) {
        if changeset.is_empty() {
            return Err(UpdateIngredientError::ValidationError(ValidationError::EmptyField(
                empty_changeset_field_names(),
            )));
        }
        let ix = match self.find_index_by_id(id) {
            Some(ix) => ix,
            None => {
                return Err(UpdateIngredientError::Get(GetIngredientByIdError::NotFound(id)));
            },
        };
        proof {
            assert(self.entries()[ix as int].id == id);
        }
        if let Some(n) = &changeset.name {
            match self.find_other_with_name(&n.0, id) {
                Some(jx) => {
                    proof {
                        assert(self.entries()[jx as int].name == changeset@.name->0);
                        assert(self.entries()[jx as int].id != id);
                    }
                    return Err(UpdateIngredientError::Conflict("name".to_owned()));
                },
                None => {},
            }
        }
        let ghost before = self.entries();
        let mut updated = self.items[ix].clone();
        match changeset.name {
            Some(n) => {
                updated.name = n;
            },
            None => {},
        }
        match changeset.description {
            Some(d) => {
                updated.description = d;
            },
            None => {},
        }
        match changeset.diet_friendly {
            Some(w) => {
                updated.diet_friendly = w;
            },
            None => {},
        }
        proof {
            assert(updated@ == apply_changeset(before[ix as int], changeset@));
        }
        let out = updated.clone();
        self.items.remove(ix);
        self.items.insert(ix, updated);
        proof {
            let j = index_of_id(before, id);
            assert(0 <= j < before.len() && before[j].id == id);
            if j != ix {
                assert(before[j].id != before[ix as int].id);
            }
            assert(j == ix);
            assert(self.entries() =~= before.update(ix as int, out@));
            assert forall|j2: int, k: int|
                0 <= j2 < k < self.entries().len() implies (#[trigger] self.entries()[j2]).name != (
            #[trigger] self.entries()[k]).name by {
                if changeset@.name is Some {
                    if j2 == ix {
                        assert(!(before[k].name == changeset@.name->0 && before[k].id != id));
                    }
                    if k == ix {
                        assert(!(before[j2].name == changeset@.name->0 && before[j2].id != id));
                    }
                } else {
                    assert(self.entries()[j2].name == before[j2].name);
                    assert(self.entries()[k].name == before[k].name);
                }
            }
        }
        Ok(out)
    }

    fn delete(&mut self, id: u128) -> (r: Result<(), DeleteIngredientError>) {
        match self.find_index_by_id(id) {
            Some(ix) => {
                let ghost before = self.entries();
                proof {
                    assert(before[ix as int].id == id);
                }
                self.items.remove(ix);
                proof {
                    let j = index_of_id(before, id);
                    assert(0 <= j < before.len() && before[j].id == id);
                    if j != ix {
                        assert(before[j].id != before[ix as int].id);
                    }
                    assert(self.entries() =~= before.remove(ix as int));
                }
                Ok(())
            },
            None => Err(DeleteIngredientError::Get(GetIngredientByIdError::NotFound(id))),
        }
    }
}

} // verus!
