use recipe_store::ingredient::{
    DietFriendly, Ingredient, IngredientChangeset, IngredientDescription, IngredientName,
    WhichDiets,
};
use recipe_store::ingredient_errors::{
    DeleteIngredientError, GetAllIngredientsError, GetIngredientByIdError, InsertIngredientError,
    UpdateIngredientError,
};
use recipe_store::ingredient_repo::{IngredientRepository, InMemoryIngredientRepository};
use recipe_store::queries::get_all_ingredients;
use recipe_store::validation::ValidationError;

fn ingredient(id: u128, name: &str, description: &str, diets: Vec<DietFriendly>) -> Ingredient {
    Ingredient {
        id,
        name: IngredientName(name.to_string()),
        description: IngredientDescription(description.to_string()),
        diet_friendly: WhichDiets(diets),
    }
}

#[test]
fn returns_empty_vec_when_no_items_inside() {
    let repo = InMemoryIngredientRepository::new();

    let result = get_all_ingredients(&repo).unwrap();

    assert_eq!(result, Vec::<Ingredient>::new());
}

#[test]
fn returns_vec_of_items_inside() {
    let mut repo = InMemoryIngredientRepository::new();
    let given_1 = Ingredient {
        id: uuid::Uuid::now_v7().as_u128(),
        name: IngredientName("Tomato".into()),
        description: IngredientDescription("Description of a tomato".into()),
        diet_friendly: WhichDiets(vec![DietFriendly::Vegan, DietFriendly::Vegetarian]),
    };

    let given_2 = Ingredient {
        id: uuid::Uuid::now_v7().as_u128(),
        name: IngredientName("Meat fries".into()),
        description: IngredientDescription(
            "Description of meat fries (whatever they are)".into(),
        ),
        diet_friendly: WhichDiets::new(),
    };

    repo.insert(given_1.clone()).unwrap();
    repo.insert(given_2.clone()).unwrap();

    let mut result = get_all_ingredients(&repo).unwrap();
    result.sort_by_key(|k| k.id);

    let mut expected = vec![given_1, given_2];
    expected.sort_by_key(|k| k.id);

    assert_eq!(result, expected);
}

#[test]
fn insert_with_taken_name_is_a_name_conflict() {
    let mut repo = InMemoryIngredientRepository::new();
    repo.insert(ingredient(1, "Tomato", "A tomato", vec![DietFriendly::Vegan])).unwrap();

    let err = repo.insert(ingredient(2, "Tomato", "Another tomato", vec![])).unwrap_err();

    assert_eq!(err, InsertIngredientError::Conflict("name".to_string()));
}

#[test]
fn insert_with_taken_id_is_an_id_conflict() {
    let mut repo = InMemoryIngredientRepository::new();
    repo.insert(ingredient(1, "Tomato", "A tomato", vec![])).unwrap();

    let err = repo.insert(ingredient(1, "Cucumber", "A cucumber", vec![])).unwrap_err();

    assert_eq!(err, InsertIngredientError::Conflict("id".to_string()));
}

#[test]
fn get_by_id_returns_the_stored_ingredient() {
    let mut repo = InMemoryIngredientRepository::new();
    let given = ingredient(7, "Basil", "A herb", vec![DietFriendly::Vegan]);
    repo.insert(given.clone()).unwrap();

    assert_eq!(repo.get_by_id(7).unwrap(), given);
}

#[test]
fn get_by_id_of_absent_id_is_not_found() {
    let repo = InMemoryIngredientRepository::new();

    let err = repo.get_by_id(99).unwrap_err();

    assert_eq!(err, GetIngredientByIdError::NotFound(99));
}

#[test]
fn get_all_by_id_lists_exactly_the_absent_ids() {
    let mut repo = InMemoryIngredientRepository::new();
    repo.insert(ingredient(1, "Tomato", "A tomato", vec![])).unwrap();
    repo.insert(ingredient(2, "Cucumber", "A cucumber", vec![])).unwrap();

    let err = repo.get_all_by_id(&vec![1, 5, 2]).unwrap_err();

    assert_eq!(err, GetAllIngredientsError::MultipleIngredientsMissing(vec![5]));
}

#[test]
fn get_all_by_id_returns_items_in_request_order() {
    let mut repo = InMemoryIngredientRepository::new();
    repo.insert(ingredient(1, "Tomato", "A tomato", vec![])).unwrap();
    repo.insert(ingredient(2, "Cucumber", "A cucumber", vec![])).unwrap();

    let found = repo.get_all_by_id(&vec![2, 1]).unwrap();

    assert_eq!(found.len(), 2);
    assert_eq!(found[0].id, 2);
    assert_eq!(found[1].id, 1);
}

#[test]
fn update_with_all_absent_changeset_fails_even_when_id_exists() {
    let mut repo = InMemoryIngredientRepository::new();
    repo.insert(ingredient(1, "Tomato", "A tomato", vec![])).unwrap();

    let empty = IngredientChangeset { name: None, description: None, diet_friendly: None };
    let err = repo.update(1, empty).unwrap_err();

    assert_eq!(
        err,
        UpdateIngredientError::ValidationError(ValidationError::EmptyField(vec![
            "name".to_string(),
            "description".to_string(),
            "diet_friendly".to_string(),
        ]))
    );
}

#[test]
fn update_with_all_absent_changeset_fails_when_id_is_absent_too() {
    let mut repo = InMemoryIngredientRepository::new();

    let empty = IngredientChangeset { name: None, description: None, diet_friendly: None };
    let err = repo.update(42, empty).unwrap_err();

    assert_eq!(
        err,
        UpdateIngredientError::ValidationError(ValidationError::EmptyField(vec![
            "name".to_string(),
            "description".to_string(),
            "diet_friendly".to_string(),
        ]))
    );
}

#[test]
fn update_of_absent_id_with_present_field_is_not_found() {
    let mut repo = InMemoryIngredientRepository::new();

    let changeset = IngredientChangeset {
        name: None,
        description: Some(IngredientDescription("New description".to_string())),
        diet_friendly: None,
    };
    let err = repo.update(42, changeset).unwrap_err();

    assert_eq!(err, UpdateIngredientError::Get(GetIngredientByIdError::NotFound(42)));
}

#[test]
fn update_applies_only_present_fields() {
    let mut repo = InMemoryIngredientRepository::new();
    repo.insert(ingredient(1, "Tomato", "A tomato", vec![DietFriendly::Vegan])).unwrap();

    let changeset = IngredientChangeset {
        name: None,
        description: Some(IngredientDescription("A red tomato".to_string())),
        diet_friendly: None,
    };
    let updated = repo.update(1, changeset).unwrap();

    assert_eq!(
        updated,
        ingredient(1, "Tomato", "A red tomato", vec![DietFriendly::Vegan])
    );
    assert_eq!(repo.get_by_id(1).unwrap(), updated);
}

#[test]
fn update_to_a_name_held_by_another_entry_is_a_conflict() {
    let mut repo = InMemoryIngredientRepository::new();
    repo.insert(ingredient(1, "Tomato", "A tomato", vec![])).unwrap();
    repo.insert(ingredient(2, "Cucumber", "A cucumber", vec![])).unwrap();

    let changeset = IngredientChangeset {
        name: Some(IngredientName("Tomato".to_string())),
        description: None,
        diet_friendly: None,
    };
    let err = repo.update(2, changeset).unwrap_err();

    assert_eq!(err, UpdateIngredientError::Conflict("name".to_string()));
}

#[test]
fn update_keeping_the_own_name_is_accepted() {
    let mut repo = InMemoryIngredientRepository::new();
    repo.insert(ingredient(1, "Tomato", "A tomato", vec![])).unwrap();

    let changeset = IngredientChangeset {
        name: Some(IngredientName("Tomato".to_string())),
        description: None,
        diet_friendly: None,
    };
    let updated = repo.update(1, changeset).unwrap();

    assert_eq!(updated.name, IngredientName("Tomato".to_string()));
}

#[test]
fn delete_removes_the_ingredient() {
    let mut repo = InMemoryIngredientRepository::new();
    repo.insert(ingredient(1, "Tomato", "A tomato", vec![])).unwrap();
    repo.insert(ingredient(2, "Cucumber", "A cucumber", vec![])).unwrap();

    repo.delete(1).unwrap();

    assert_eq!(
        repo.get_by_id(1).unwrap_err(),
        GetIngredientByIdError::NotFound(1)
    );
    assert_eq!(repo.get_by_id(2).unwrap().id, 2);
}

#[test]
fn delete_of_absent_id_is_not_found() {
    let mut repo = InMemoryIngredientRepository::new();

    let err = repo.delete(3).unwrap_err();

    assert_eq!(err, DeleteIngredientError::Get(GetIngredientByIdError::NotFound(3)));
}
