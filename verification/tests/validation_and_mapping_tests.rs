use recipe_store::db::DbError;
use recipe_store::ingredient::{
    ingredients_from_models, DietFriendly, Ingredient, IngredientChangeset,
    IngredientDescription, IngredientModel, IngredientName, WhichDiets,
};
use recipe_store::ingredient_commands::{update_ingredient, UpdateIngredient, UpdateIngredientError};
use recipe_store::ingredient_errors::{GetIngredientByIdError, InsertIngredientError};
use recipe_store::ingredient_postgres::{
    constraint_to_field, missing_ids, plan_ingredient_update, reject_empty_changeset,
};
use recipe_store::ingredient_repo::{IngredientRepository, InMemoryIngredientRepository};
use recipe_store::models::{step_instructions, RecipeBase, Step};
use recipe_store::recipe::{RecipeIngredients, RecipeSteps, RecipeTimes};
use recipe_store::recipe_errors;
use recipe_store::session::{validate_session, SessionValidationError};
use recipe_store::validation::ValidationError;

fn tomato() -> Ingredient {
    Ingredient {
        id: 1,
        name: IngredientName("Tomato".to_string()),
        description: IngredientDescription("A tomato".to_string()),
        diet_friendly: WhichDiets(vec![DietFriendly::Vegan]),
    }
}

#[test]
fn diet_tags_parse_and_print() {
    assert_eq!(
        DietFriendly::parse(&"Vegan".to_string()),
        Some(DietFriendly::Vegan)
    );
    assert_eq!(
        DietFriendly::parse(&"Vegetarian".to_string()),
        Some(DietFriendly::Vegetarian)
    );
    assert_eq!(
        DietFriendly::parse(&"GlutenFree".to_string()),
        Some(DietFriendly::GlutenFree)
    );
    assert_eq!(DietFriendly::parse(&"Carnivore".to_string()), None);
    assert_eq!(DietFriendly::Vegan.as_string(), "Vegan");
}

#[test]
fn which_diets_keeps_recognized_tags_in_order() {
    let tags = vec![
        "GlutenFree".to_string(),
        "Carnivore".to_string(),
        "Vegan".to_string(),
    ];
    let diets = WhichDiets::from_strings(&tags);
    assert_eq!(
        diets,
        WhichDiets(vec![DietFriendly::GlutenFree, DietFriendly::Vegan])
    );
    assert_eq!(
        diets.to_strings(),
        vec!["GlutenFree".to_string(), "Vegan".to_string()]
    );
}

#[test]
fn empty_name_and_description_are_rejected() {
    assert_eq!(
        IngredientName::new("".to_string()).unwrap_err(),
        ValidationError::EmptyField(vec!["name".to_string()])
    );
    assert_eq!(
        IngredientDescription::new("".to_string()).unwrap_err(),
        ValidationError::EmptyField(vec!["description".to_string()])
    );
    assert_eq!(
        IngredientName::new("Tomato".to_string()).unwrap(),
        IngredientName("Tomato".to_string())
    );
}

#[test]
fn changeset_conversion_revalidates_each_present_field() {
    let patch = UpdateIngredient {
        name: Some("Tomato".to_string()),
        description: None,
        diet_friendly: Some(vec!["Vegan".to_string(), "Nonsense".to_string()]),
    };
    let changeset = IngredientChangeset::try_from_update(&patch).unwrap();
    assert_eq!(changeset.name, Some(IngredientName("Tomato".to_string())));
    assert_eq!(changeset.description, None);
    assert_eq!(
        changeset.diet_friendly,
        Some(WhichDiets(vec![DietFriendly::Vegan]))
    );

    let bad = UpdateIngredient {
        name: Some("".to_string()),
        description: Some("fine".to_string()),
        diet_friendly: None,
    };
    assert_eq!(
        IngredientChangeset::try_from_update(&bad).unwrap_err(),
        ValidationError::EmptyField(vec!["name".to_string()])
    );
}

#[test]
fn update_ingredient_command_distinguishes_not_found_from_bad_input() {
    let mut repo = InMemoryIngredientRepository::new();
    repo.insert(tomato()).unwrap();

    let patch = UpdateIngredient {
        name: None,
        description: Some("A red tomato".to_string()),
        diet_friendly: None,
    };
    let updated = update_ingredient(&mut repo, 1, &patch).unwrap();
    assert_eq!(
        updated.description,
        IngredientDescription("A red tomato".to_string())
    );

    let missing = update_ingredient(&mut repo, 9, &patch).unwrap_err();
    assert_eq!(missing, UpdateIngredientError::NotFound(9));

    let empty = UpdateIngredient { name: None, description: None, diet_friendly: None };
    let err = update_ingredient(&mut repo, 1, &empty).unwrap_err();
    assert_eq!(
        err,
        UpdateIngredientError::Validation(ValidationError::EmptyField(vec![
            "name".to_string(),
            "description".to_string(),
            "diet_friendly".to_string(),
        ]))
    );

    let blank_name = UpdateIngredient {
        name: Some("".to_string()),
        description: None,
        diet_friendly: None,
    };
    let err = update_ingredient(&mut repo, 1, &blank_name).unwrap_err();
    assert_eq!(
        err,
        UpdateIngredientError::Validation(ValidationError::EmptyField(vec!["name".to_string()]))
    );
}

#[test]
fn update_ingredient_command_reports_a_taken_name_as_a_conflict() {
    let mut repo = InMemoryIngredientRepository::new();
    repo.insert(tomato()).unwrap();
    repo.insert(Ingredient {
        id: 2,
        name: IngredientName("Cucumber".to_string()),
        description: IngredientDescription("A cucumber".to_string()),
        diet_friendly: WhichDiets::new(),
    })
    .unwrap();

    let patch = UpdateIngredient {
        name: Some("Tomato".to_string()),
        description: None,
        diet_friendly: None,
    };
    let err = update_ingredient(&mut repo, 2, &patch).unwrap_err();
    assert_eq!(err, UpdateIngredientError::Conflict("name".to_string()));
}

#[test]
fn ingredient_constraints_map_to_field_names() {
    assert_eq!(constraint_to_field("ingredients_name_key"), "name");
    assert_eq!(constraint_to_field("ingredients_pkey"), "id");
    assert_eq!(constraint_to_field("something_else"), "something_else");
}

#[test]
fn recipe_constraints_map_to_field_names() {
    assert_eq!(
        recipe_errors::constraint_to_field("ingredients_name_key"),
        "ingredient name"
    );
    assert_eq!(
        recipe_errors::constraint_to_field("ingredients_pkey"),
        "ingredient id"
    );
    assert_eq!(
        recipe_errors::constraint_to_field("recipes_pkey"),
        "recipe id"
    );
    assert_eq!(
        recipe_errors::constraint_to_field("unmapped"),
        "unmapped"
    );
}

#[test]
fn unique_violations_map_to_conflicts() {
    let e = InsertIngredientError::from_db(DbError::Database {
        unique_violation: true,
        constraint: Some("ingredients_name_key".to_string()),
    });
    assert_eq!(e, InsertIngredientError::Conflict("name".to_string()));

    let e = InsertIngredientError::from_db(DbError::Database {
        unique_violation: false,
        constraint: None,
    });
    assert!(matches!(e, InsertIngredientError::UnknownError(_)));

    let e = InsertIngredientError::from_db(DbError::Other("timeout".to_string()));
    assert_eq!(e, InsertIngredientError::UnknownError("timeout".to_string()));
}

#[test]
fn missing_rows_map_to_not_found() {
    assert_eq!(
        GetIngredientByIdError::from_db(4, DbError::RowNotFound),
        GetIngredientByIdError::NotFound(4)
    );
    assert_eq!(
        recipe_errors::GetRecipeByIdError::with_id(6, DbError::RowNotFound),
        recipe_errors::GetRecipeByIdError::NotFound(6)
    );
    assert!(matches!(
        recipe_errors::GetRecipeByIdError::with_id(6, DbError::Other("boom".to_string())),
        recipe_errors::GetRecipeByIdError::UnknownError(_)
    ));
}

#[test]
fn non_unique_database_errors_are_not_conflicts_on_the_recipe_side() {
    let e = recipe_errors::InsertRecipeError::from_db(DbError::Database {
        unique_violation: false,
        constraint: Some("recipes_user_id_fkey".to_string()),
    });
    assert!(matches!(e, recipe_errors::InsertRecipeError::UnknownError(_)));

    let e = recipe_errors::AddIngredientIntoRecipeError::from_db(DbError::Database {
        unique_violation: false,
        constraint: None,
    });
    assert!(matches!(
        e,
        recipe_errors::AddIngredientIntoRecipeError::UnknownError(_)
    ));
}

#[test]
fn recipe_insert_errors_name_the_violated_field() {
    let e = recipe_errors::InsertRecipeError::from_db(DbError::Database {
        unique_violation: true,
        constraint: Some("recipes_pkey".to_string()),
    });
    assert_eq!(
        e,
        recipe_errors::InsertRecipeError::Conflict("recipe id".to_string())
    );

    let e = recipe_errors::AddIngredientIntoRecipeError::from_db(DbError::Database {
        unique_violation: true,
        constraint: Some("ingredients_pkey".to_string()),
    });
    assert_eq!(
        e,
        recipe_errors::AddIngredientIntoRecipeError::Conflict("ingredient id".to_string())
    );

    let e = recipe_errors::DeleteRecipeError::from_get(recipe_errors::GetRecipeByIdError::NotFound(
        3,
    ));
    assert_eq!(e, recipe_errors::DeleteRecipeError::NotFound(3));
}

#[test]
fn missing_ids_diffs_requested_against_found() {
    assert_eq!(missing_ids(&vec![1, 2, 3, 2], &vec![2]), vec![1, 3]);
    assert_eq!(missing_ids(&vec![1, 2], &vec![1, 2]), Vec::<u128>::new());
    assert_eq!(missing_ids(&vec![], &vec![1]), Vec::<u128>::new());
}

#[test]
fn update_plan_skips_fields_equal_to_the_current_row() {
    let current = tomato();
    let changeset = IngredientChangeset {
        name: Some(IngredientName("Tomato".to_string())),
        description: Some(IngredientDescription("A riper tomato".to_string())),
        diet_friendly: None,
    };

    let plan = plan_ingredient_update(&current, changeset).unwrap();

    assert_eq!(plan.name, None);
    assert_eq!(
        plan.description,
        Some(IngredientDescription("A riper tomato".to_string()))
    );
    assert_eq!(plan.diet_friendly, None);
    assert_eq!(plan.result.name, IngredientName("Tomato".to_string()));
    assert_eq!(
        plan.result.description,
        IngredientDescription("A riper tomato".to_string())
    );
}

#[test]
fn update_plan_writes_a_diet_set_that_differs() {
    let current = tomato();
    let changeset = IngredientChangeset {
        name: None,
        description: None,
        diet_friendly: Some(WhichDiets(vec![
            DietFriendly::Vegan,
            DietFriendly::GlutenFree,
        ])),
    };

    let plan = plan_ingredient_update(&current, changeset).unwrap();

    assert_eq!(
        plan.diet_friendly,
        Some(WhichDiets(vec![DietFriendly::Vegan, DietFriendly::GlutenFree]))
    );
    assert_eq!(
        plan.result.diet_friendly,
        WhichDiets(vec![DietFriendly::Vegan, DietFriendly::GlutenFree])
    );
    assert_eq!(plan.result.name, IngredientName("Tomato".to_string()));
}

#[test]
fn update_plan_with_all_fields_equal_issues_no_write_and_returns_the_row() {
    let current = tomato();
    let changeset = IngredientChangeset {
        name: Some(IngredientName("Tomato".to_string())),
        description: Some(IngredientDescription("A tomato".to_string())),
        diet_friendly: Some(WhichDiets(vec![DietFriendly::Vegan])),
    };

    let plan = plan_ingredient_update(&current, changeset).unwrap();

    assert_eq!(plan.name, None);
    assert_eq!(plan.description, None);
    assert_eq!(plan.diet_friendly, None);
    assert_eq!(plan.result, tomato());
}

#[test]
fn empty_changeset_is_rejected_before_any_lookup() {
    let empty = IngredientChangeset { name: None, description: None, diet_friendly: None };
    let err = reject_empty_changeset(&empty).unwrap_err();
    assert_eq!(
        err,
        recipe_store::ingredient_errors::UpdateIngredientError::ValidationError(
            ValidationError::EmptyField(vec![
                "name".to_string(),
                "description".to_string(),
                "diet_friendly".to_string(),
            ])
        )
    );

    let present = IngredientChangeset {
        name: None,
        description: Some(IngredientDescription("fine".to_string())),
        diet_friendly: None,
    };
    assert!(reject_empty_changeset(&present).is_ok());
}

#[test]
fn row_models_validate_back_into_entities_or_error() {
    let good = IngredientModel {
        id: 3,
        name: "Basil".to_string(),
        description: "A herb".to_string(),
        diet_friendly: vec!["Vegan".to_string(), "Nonsense".to_string()],
    };
    let entity = Ingredient::try_from_model(&good).unwrap();
    assert_eq!(entity.id, 3);
    assert_eq!(entity.name, IngredientName("Basil".to_string()));
    assert_eq!(entity.diet_friendly, WhichDiets(vec![DietFriendly::Vegan]));

    let bad = IngredientModel {
        id: 4,
        name: "".to_string(),
        description: "A herb".to_string(),
        diet_friendly: vec![],
    };
    assert_eq!(
        Ingredient::try_from_model(&bad).unwrap_err(),
        ValidationError::EmptyField(vec!["name".to_string()])
    );

    let all = ingredients_from_models(&vec![good]).unwrap();
    assert_eq!(all.len(), 1);
    assert_eq!(all[0].id, 3);

    let bad_rows = vec![
        IngredientModel {
            id: 3,
            name: "Basil".to_string(),
            description: "A herb".to_string(),
            diet_friendly: vec![],
        },
        IngredientModel {
            id: 5,
            name: "Mint".to_string(),
            description: "".to_string(),
            diet_friendly: vec![],
        },
    ];
    assert_eq!(
        ingredients_from_models(&bad_rows).unwrap_err(),
        ValidationError::EmptyField(vec!["description".to_string()])
    );
}

#[test]
fn update_plan_rejects_an_all_absent_changeset() {
    let current = tomato();
    let changeset = IngredientChangeset { name: None, description: None, diet_friendly: None };

    let err = plan_ingredient_update(&current, changeset).unwrap_err();

    assert_eq!(
        err,
        recipe_store::ingredient_errors::UpdateIngredientError::ValidationError(
            ValidationError::EmptyField(vec![
                "name".to_string(),
                "description".to_string(),
                "diet_friendly".to_string(),
            ])
        )
    );
}

#[test]
fn non_empty_collections_reject_empty_input() {
    assert_eq!(
        RecipeSteps::try_from_vec(vec![]).unwrap_err(),
        ValidationError::EmptyField(vec!["steps".to_string()])
    );
    assert_eq!(
        RecipeIngredients::try_from_vec(vec![]).unwrap_err(),
        ValidationError::EmptyField(vec!["ingredients".to_string()])
    );
    assert!(RecipeSteps::try_from_vec(vec!["Mix".to_string()]).is_ok());
}

#[test]
fn recipe_times_reject_duplicate_phase_names() {
    assert!(RecipeTimes::try_from_pairs(vec![
        ("Prep time".to_string(), 60),
        ("Prep time".to_string(), 90),
    ])
    .is_none());
    let times = RecipeTimes::try_from_pairs(vec![
        ("Prep time".to_string(), 60),
        ("Cook time".to_string(), 90),
    ])
    .unwrap();
    assert_eq!(times.0.len(), 2);
}

#[test]
fn session_validation_decides_from_the_stored_user_id() {
    assert_eq!(validate_session(Ok(Some(12))), Ok(12));
    assert_eq!(
        validate_session(Ok(None)),
        Err(SessionValidationError::NotLoggedIn)
    );
    assert_eq!(
        validate_session(Err("store unreachable".to_string())),
        Err(SessionValidationError::UnexpectedError(
            "store unreachable".to_string()
        ))
    );
}

#[test]
fn step_instructions_keep_row_order() {
    let steps = vec![
        Step { index: 0, instructions: "Chop".to_string() },
        Step { index: 1, instructions: "Fry".to_string() },
    ];
    assert_eq!(
        step_instructions(&steps),
        vec!["Chop".to_string(), "Fry".to_string()]
    );
    let base = RecipeBase {
        id: 1,
        name: "Soup".to_string(),
        description: "A soup".to_string(),
        user_id: 2,
    };
    assert_eq!(base.name, "Soup");
}
