//! Ingredient entities: validated field newtypes, diet tags, and the
//! partial-update changeset.

use vstd::prelude::*;

use crate::validation::ValidationError;

verus! {

/// A dietary-compatibility label attached to an ingredient.
#[derive(Clone, Copy, PartialEq, Eq, Structural, Debug)]
pub enum DietFriendly {
    Vegan,
    Vegetarian,
    GlutenFree,
}

/// Which diet label, if any, a textual tag stands for.
pub open spec fn spec_parse_diet(s: Seq<char>) -> Option<DietFriendly> {
    if s == "Vegan"@ {
        Some(DietFriendly::Vegan)
    } else if s == "Vegetarian"@ {
        Some(DietFriendly::Vegetarian)
    } else if s == "GlutenFree"@ {
        Some(DietFriendly::GlutenFree)
    } else {
        None
    }
}

/// The textual form of a diet label.
pub open spec fn spec_diet_string(d: DietFriendly) -> Seq<char> {
    match d {
        DietFriendly::Vegan => "Vegan"@,
        DietFriendly::Vegetarian => "Vegetarian"@,
        DietFriendly::GlutenFree => "GlutenFree"@,
    }
}

impl DietFriendly {
    /// Parses a textual tag; unrecognized tags yield `None`.
    pub fn parse(s: &String) -> (r: Option<DietFriendly>)
        ensures
            r == spec_parse_diet(s@),
    {
        if *s == "Vegan".to_owned() {
            Some(DietFriendly::Vegan)
        } else if *s == "Vegetarian".to_owned() {
            Some(DietFriendly::Vegetarian)
        } else if *s == "GlutenFree".to_owned() {
            Some(DietFriendly::GlutenFree)
        } else {
            None
        }
    }

    /// The textual form of this label.
    pub fn as_string(&self) -> (r: String)
        ensures
            r@ == spec_diet_string(*self),
    {
        match self {
            DietFriendly::Vegan => "Vegan".to_owned(),
            DietFriendly::Vegetarian => "Vegetarian".to_owned(),
            DietFriendly::GlutenFree => "GlutenFree".to_owned(),
        }
    }
}

/// The diet labels that a sequence of textual tags stands for, keeping the
/// recognized tags in order and dropping the rest.
pub open spec fn spec_which_diets(ss: Seq<String>) -> Seq<DietFriendly>
    decreases ss.len(),
{
    if ss.len() == 0 {
        Seq::empty()
    } else {
        let rest = spec_which_diets(ss.drop_last());
        match spec_parse_diet(ss.last()@) {
            Some(d) => rest.push(d),
            None => rest,
        }
    }
}

/// The set of diet labels attached to an ingredient.
#[derive(PartialEq, Eq, Debug)]
pub struct WhichDiets(pub Vec<DietFriendly>);

impl View for WhichDiets {
    type V = Seq<DietFriendly>;

    open spec fn view(&self) -> Seq<DietFriendly> {
        self.0@
    }
}

impl Clone for WhichDiets {
    fn clone(&self) -> (r: Self)
        ensures
            r@ == self@,
    {
        let mut v: Vec<DietFriendly> = Vec::new();
        let mut i: usize = 0;
        while i < self.0.len()
            invariant
                i <= self.0.len(),
                v@ == self.0@.subrange(0, i as int),
            decreases self.0.len() - i,
        {
            v.push(self.0[i]);
            proof {
                assert(self.0@.subrange(0, i as int).push(self.0@[i as int]) =~= self.0@.subrange(
                    0,
                    i + 1,
                ));
            }
            i = i + 1;
        }
        proof {
            assert(self.0@.subrange(0, self.0@.len() as int) =~= self.0@);
        }
        WhichDiets(v)
    }
}

impl WhichDiets {
    /// An empty set of labels.
    pub fn new() -> (r: Self)
        ensures
            r@ == Seq::<DietFriendly>::empty(),
    {
        WhichDiets(Vec::new())
    }

    /// Reads textual tags, keeping the recognized labels in order.
    pub fn from_strings(tags: &Vec<String>) -> (r: Self)
        ensures
            r@ == spec_which_diets(tags@),
    {
        let mut v: Vec<DietFriendly> = Vec::new();
        let mut i: usize = 0;
        while i < tags.len()
            invariant
                i <= tags.len(),
                v@ == spec_which_diets(tags@.subrange(0, i as int)),
            decreases tags.len() - i,
        {
            match DietFriendly::parse(&tags[i]) {
                Some(d) => v.push(d),
                None => (),
            }
            proof {
                assert(tags@.subrange(0, i + 1).drop_last() =~= tags@.subrange(0, i as int));
                assert(tags@.subrange(0, i + 1).last() == tags@[i as int]);
            }
            i = i + 1;
        }
        proof {
            assert(tags@.subrange(0, tags@.len() as int) =~= tags@);
        }
        WhichDiets(v)
    }

    /// Whether two label sets hold the same labels in the same order.
    pub fn eq_labels(&self, other: &WhichDiets) -> (r: bool)
        ensures
            r == (self@ == other@),
    {
        if self.0.len() != other.0.len() {
            proof {
                if self@ == other@ {
                    assert(self@.len() == other@.len());
                }
            }
            return false;
        }
        let mut i: usize = 0;
        while i < self.0.len()
            invariant
                i <= self.0.len(),
                self.0@.len() == other.0@.len(),
                forall|j: int| 0 <= j < i ==> self.0@[j] == other.0@[j],
            decreases self.0.len() - i,
        {
            if self.0[i] != other.0[i] {
                proof {
                    if self@ == other@ {
                        assert(self@[i as int] == other@[i as int]);
                    }
                }
                return false;
            }
            i = i + 1;
        }
        proof {
            assert(self@ =~= other@);
        }
        true
    }

    /// The textual forms of the labels, in order.
    pub fn to_strings(&self) -> (r: Vec<String>)
        ensures
            r@.len() == self@.len(),
            forall|i: int| 0 <= i < r@.len() ==> r@[i]@ == spec_diet_string(self@[i]),
    {
        let mut out: Vec<String> = Vec::new();
        let mut i: usize = 0;
        while i < self.0.len()
            invariant
                i <= self.0.len(),
                out@.len() == i,
                forall|j: int| 0 <= j < i ==> out@[j]@ == spec_diet_string(self.0@[j]),
            decreases self.0.len() - i,
        {
            out.push(self.0[i].as_string());
            i = i + 1;
        }
        out
    }
}

/// The validated, non-empty name of an ingredient.
#[derive(PartialEq, Eq, Debug)]
pub struct IngredientName(pub String);

impl View for IngredientName {
    type V = Seq<char>;

    open spec fn view(&self) -> Seq<char> {
        self.0@
    }
}

impl Clone for IngredientName {
    fn clone(&self) -> (r: Self)
        ensures
            r == *self,
    {
        IngredientName(self.0.clone())
    }
}

impl IngredientName {
    /// Non-empty text.
    pub open spec fn wf(&self) -> bool {
        self.0@.len() > 0
    }

    /// Accepts any non-empty text; rejects the empty string.
    pub fn new(value: String) -> (r: Result<IngredientName, ValidationError>)
        ensures
            value@.len() > 0 ==> r == Ok::<IngredientName, ValidationError>(IngredientName(value)),
            value@.len() == 0 ==> (r matches Err(ValidationError::EmptyField(fs))
                && fs@.len() == 1 && fs@[0]@ == "name"@),
            r is Ok ==> r->Ok_0.wf(),
    {
        if value.as_str().is_empty() {
            let mut fs: Vec<String> = Vec::new();
            fs.push("name".to_owned());
            Err(ValidationError::EmptyField(fs))
        } else {
            Ok(IngredientName(value))
        }
    }
}

/// The validated, non-empty description of an ingredient.
#[derive(PartialEq, Eq, Debug)]
pub struct IngredientDescription(pub String);

impl View for IngredientDescription {
    type V = Seq<char>;

    open spec fn view(&self) -> Seq<char> {
        self.0@
    }
}

impl Clone for IngredientDescription {
    fn clone(&self) -> (r: Self)
        ensures
            r == *self,
    {
        IngredientDescription(self.0.clone())
    }
}

impl IngredientDescription {
    /// Non-empty text.
    pub open spec fn wf(&self) -> bool {
        self.0@.len() > 0
    }

    /// Accepts any non-empty text; rejects the empty string.
    pub fn new(value: String) -> (r: Result<IngredientDescription, ValidationError>)
        ensures
            value@.len() > 0 ==> r == Ok::<IngredientDescription, ValidationError>(
                IngredientDescription(value),
            ),
            value@.len() == 0 ==> (r matches Err(ValidationError::EmptyField(fs))
                && fs@.len() == 1 && fs@[0]@ == "description"@),
            r is Ok ==> r->Ok_0.wf(),
    {
        if value.as_str().is_empty() {
            let mut fs: Vec<String> = Vec::new();
            fs.push("description".to_owned());
            Err(ValidationError::EmptyField(fs))
        } else {
            Ok(IngredientDescription(value))
        }
    }
}

/// The mathematical value of an ingredient: its fields as sequences.
pub struct IngredientV {
    pub id: u128,
    pub name: Seq<char>,
    pub description: Seq<char>,
    pub diet_friendly: Seq<DietFriendly>,
}

impl IngredientV {
    /// The field invariants the smart constructors establish.
    pub open spec fn wf(&self) -> bool {
        self.name.len() > 0 && self.description.len() > 0
    }
}

/// An ingredient held by the store. Its name is unique across the store;
/// the repositories maintain that invariant.
#[derive(PartialEq, Eq, Debug)]
pub struct Ingredient {
    pub id: u128,
    pub name: IngredientName,
    pub description: IngredientDescription,
    pub diet_friendly: WhichDiets,
}

impl View for Ingredient {
    type V = IngredientV;

    open spec fn view(&self) -> IngredientV {
        IngredientV {
            id: self.id,
            name: self.name@,
            description: self.description@,
            diet_friendly: self.diet_friendly@,
        }
    }
}

impl Clone for Ingredient {
    fn clone(&self) -> (r: Self)
        ensures
            r@ == self@,
    {
        Ingredient {
            id: self.id,
            name: self.name.clone(),
            description: self.description.clone(),
            diet_friendly: self.diet_friendly.clone(),
        }
    }
}

impl Ingredient {
    /// The field invariants the smart constructors establish.
    pub open spec fn wf(&self) -> bool {
        self@.wf()
    }
}

/// The mathematical value of a changeset.
pub struct IngredientChangesetV {
    pub name: Option<Seq<char>>,
    pub description: Option<Seq<char>>,
    pub diet_friendly: Option<Seq<DietFriendly>>,
}

impl IngredientChangesetV {
    /// All present fields satisfy their own invariants.
    pub open spec fn wf(&self) -> bool {
        &&& (self.name matches Some(n) ==> n.len() > 0)
        &&& (self.description matches Some(d) ==> d.len() > 0)
    }

    /// Whether every field is absent.
    pub open spec fn is_empty(&self) -> bool {
        self.name is None && self.description is None && self.diet_friendly is None
    }
}

/// The row shape of a stored ingredient, as a storage backend hands it
/// back: plain, not yet validated values.
#[derive(PartialEq, Eq, Debug)]
pub struct IngredientModel {
    pub id: u128,
    pub name: String,
    pub description: String,
    pub diet_friendly: Vec<String>,
}

/// Whether a row's values pass the entity's smart constructors.
pub open spec fn spec_model_valid(m: IngredientModel) -> bool {
    m.name@.len() > 0 && m.description@.len() > 0
}

impl Ingredient {
    /// Validates one stored row back into the entity: the name and the
    /// description run through their smart constructors, and the textual
    /// diet tags are parsed.
    pub fn try_from_model(m: &IngredientModel) -> (r: Result<Ingredient, ValidationError>)
        ensures
            spec_model_valid(*m) ==> (r matches Ok(i) && i@.id == m.id && i@.name == m.name@
                && i@.description == m.description@ && i@.diet_friendly == spec_which_diets(
                m.diet_friendly@,
            ) && i.wf()),
            !spec_model_valid(*m) ==> (r matches Err(ValidationError::EmptyField(fs)) && fs@.len()
                == 1 && fs@[0]@ == (if m.name@.len() == 0 {
                "name"@
            } else {
                "description"@
            })),
    {
        let name = match IngredientName::new(m.name.clone()) {
            Ok(n) => n,
            Err(e) => {
                return Err(e);
            },
        };
        let description = match IngredientDescription::new(m.description.clone()) {
            Ok(d) => d,
            Err(e) => {
                return Err(e);
            },
        };
        Ok(Ingredient {
            id: m.id,
            name,
            description,
            diet_friendly: WhichDiets::from_strings(&m.diet_friendly),
        })
    }
}

/// Validates a whole fetched row set back into entities, in row order. An
/// invalid row is an error, never silently dropped: a fetch that hands
/// back a row the entity rejects is a storage fault the caller must see.
pub fn ingredients_from_models(models: &Vec<IngredientModel>) -> (r: Result<
    Vec<Ingredient>,
    ValidationError,
>)
    ensures
        (forall|j: int| 0 <= j < models@.len() ==> spec_model_valid(#[trigger] models@[j])) ==> (
        r matches Ok(v) && v@.len() == models@.len() && forall|j: int|
            0 <= j < v@.len() ==> {
                let i = (#[trigger] v@[j])@;
                &&& i.id == models@[j].id
                &&& i.name == models@[j].name@
                &&& i.description == models@[j].description@
                &&& i.diet_friendly == spec_which_diets(models@[j].diet_friendly@)
            }),
        r is Err ==> exists|j: int|
            0 <= j < models@.len() && !spec_model_valid(#[trigger] models@[j]),
{
    let mut out: Vec<Ingredient> = Vec::new();
    let mut i: usize = 0;
    while i < models.len()
        invariant
            i <= models@.len(),
            out@.len() == i,
            forall|j: int| 0 <= j < i ==> spec_model_valid(#[trigger] models@[j]),
            forall|j: int|
                0 <= j < i ==> {
                    let e = (#[trigger] out@[j])@;
                    &&& e.id == models@[j].id
                    &&& e.name == models@[j].name@
                    &&& e.description == models@[j].description@
                    &&& e.diet_friendly == spec_which_diets(models@[j].diet_friendly@)
                },
        decreases models@.len() - i,
    {
        match Ingredient::try_from_model(&models[i]) {
            Ok(ing) => {
                out.push(ing);
            },
            Err(e) => {
                proof {
                    assert(!spec_model_valid(models@[i as int]));
                }
                return Err(e);
            },
        }
        i = i + 1;
    }
    Ok(out)
}

/// A partial update of an ingredient: each field is independently optional,
/// and an all-absent changeset is rejected by the repositories.
#[derive(PartialEq, Eq, Debug)]
pub struct IngredientChangeset {
    pub name: Option<IngredientName>,
    pub description: Option<IngredientDescription>,
    pub diet_friendly: Option<WhichDiets>,
}

impl View for IngredientChangeset {
    type V = IngredientChangesetV;

    open spec fn view(&self) -> IngredientChangesetV {
        IngredientChangesetV {
            name: match self.name {
                Some(n) => Some(n@),
                None => None,
            },
            description: match self.description {
                Some(d) => Some(d@),
                None => None,
            },
            diet_friendly: match self.diet_friendly {
                Some(w) => Some(w@),
                None => None,
            },
        }
    }
}

impl Clone for IngredientChangeset {
    fn clone(&self) -> (r: Self)
        ensures
            r@ == self@,
    {
        IngredientChangeset {
            name: match &self.name {
                Some(n) => Some(n.clone()),
                None => None,
            },
            description: match &self.description {
                Some(d) => Some(d.clone()),
                None => None,
            },
            diet_friendly: match &self.diet_friendly {
                Some(w) => Some(w.clone()),
                None => None,
            },
        }
    }
}

impl IngredientChangeset {
    /// All present fields satisfy their own invariants.
    pub open spec fn wf(&self) -> bool {
        self@.wf()
    }

    /// Whether every field is absent.
    pub fn is_empty(&self) -> (r: bool)
        ensures
            r == self@.is_empty(),
    {
        self.name.is_none() && self.description.is_none() && self.diet_friendly.is_none()
    }
}

/// The ingredient that results from applying a changeset: each present field
/// replaces the stored one, each absent field keeps it; the id never changes.
pub open spec fn apply_changeset(i: IngredientV, c: IngredientChangesetV) -> IngredientV {
    IngredientV {
        id: i.id,
        name: match c.name {
            Some(n) => n,
            None => i.name,
        },
        description: match c.description {
            Some(d) => d,
            None => i.description,
        },
        diet_friendly: match c.diet_friendly {
            Some(w) => w,
            None => i.diet_friendly,
        },
    }
}

/// The field list reported when a changeset has no present field.
pub open spec fn empty_changeset_fields(fs: Seq<String>) -> bool {
    &&& fs.len() == 3
    &&& fs[0]@ == "name"@
    &&& fs[1]@ == "description"@
    &&& fs[2]@ == "diet_friendly"@
}

/// The field list reported when a changeset has no present field.
pub fn empty_changeset_field_names() -> (r: Vec<String>)
    ensures
        empty_changeset_fields(r@),
{
    let mut fs: Vec<String> = Vec::new();
    fs.push("name".to_owned());
    fs.push("description".to_owned());
    fs.push("diet_friendly".to_owned());
    fs
}

} // verus!
