//! Commands on recipes, their field rules and the catalogue rows they lead to.

use imkitchen::projection::recipes_view;
use imkitchen::projection::recipes_view::{ListQuery, Rating, RecipeRow, RecipesQuery};
use imkitchen::recipe::{
    agg_on_deleted, agg_on_drafted, current_version, default_emoji_if_blank, delete_recipe,
    draft_recipe, drop_blank_ingredients, drop_blank_steps, recategorize_recipe, redescribe_recipe,
    rename_recipe, replace_ingredients, replace_steps, retag_recipe, retime_recipe, AppendEvent,
    CreateEvent, DeleteRecipe, DraftRecipe, IngredientFact, MealType, Provenance, Quantity, Recipe,
    RecategorizeRecipe, RecipeAggregate, RecipeError, RedescribeRecipe, RenameRecipe,
    ReplaceIngredients, ReplaceSteps, RetagRecipe, RetimeRecipe, StepFact, Unit, MEAL_TYPES,
};

fn quantity(n: f32) -> Option<Quantity> {
    Some(Quantity { bits: n.to_bits() })
}

fn good_cmd() -> DraftRecipe {
    good_draft("u1")
}

fn good_draft(owner_id: &str) -> DraftRecipe {
    DraftRecipe {
        owner_id: owner_id.to_owned(),
        title: "Lentil Stew".into(),
        meal_type: MealType::Main,
        cuisine: "Lebanese".into(),
        emoji: "🍲".into(),
        prep_minutes: 10,
        cook_minutes: 25,
        servings: 4,
        difficulty: "Easy".into(),
        description: "Warming weeknight stew.".into(),
        tags: vec!["Vegan".into()],
        ingredients: vec![IngredientFact {
            name: "Red lentils".into(),
            quantity: quantity(1.0),
            unit: Unit::Cup,
        }],
        steps: vec![StepFact {
            wait_minutes: 5,
            text: "Soften onion and garlic in olive oil.".into(),
        }],
        provenance: Provenance::manual(),
    }
}

/// One recipe: its log, the state folded from it and its catalogue row.
struct Kitchen {
    id: String,
    log: Vec<Recipe>,
    agg: Option<RecipeAggregate>,
    row: Option<RecipeRow>,
}

impl Kitchen {
    fn draft(id: &str, cmd: DraftRecipe) -> Kitchen {
        let CreateEvent { event, .. } = draft_recipe(cmd).expect("draft");
        let mut kitchen = Kitchen { id: id.into(), log: Vec::new(), agg: None, row: None };
        kitchen.take(Recipe::RecipeDrafted(event));
        kitchen
    }

    fn take(&mut self, event: Recipe) {
        let row = self.row.take();
        self.row = match &event {
            Recipe::RecipeDrafted(e) => {
                let mut agg = self.agg.take().unwrap_or_default();
                agg_on_drafted(e, &mut agg);
                self.agg = Some(agg);
                Some(recipes_view::apply_drafted(row, &self.id, 1_700_000_000, e))
            }
            Recipe::RecipeRenamed(e) => recipes_view::apply_renamed(row, e),
            Recipe::RecipeRecategorized(e) => recipes_view::apply_recategorized(row, e),
            Recipe::RecipeRetimed(e) => recipes_view::apply_retimed(row, e),
            Recipe::RecipeRedescribed(e) => recipes_view::apply_redescribed(row, e),
            Recipe::RecipeRetagged(e) => recipes_view::apply_retagged(row, e),
            Recipe::IngredientsReplaced(e) => recipes_view::apply_ingredients_replaced(row, e),
            Recipe::StepsReplaced(e) => recipes_view::apply_steps_replaced(row, e),
            Recipe::RecipeDeleted => {
                let mut agg = self.agg.take().unwrap_or_default();
                agg_on_deleted(&mut agg);
                self.agg = Some(agg);
                recipes_view::apply_deleted(row)
            }
        };
        self.log.push(event);
    }

    fn version(&self) -> u16 {
        current_version(self.log.len().checked_sub(1).map(|n| n as u16))
    }

    fn append(&mut self, append: Result<AppendEvent, RecipeError>, what: &str) {
        let append = append.expect(what);
        assert_eq!(append.original_version, self.version());
        assert_eq!(append.recipe_id, self.id);
        self.take(append.event);
    }

    fn row_of(&self, owner_id: &str) -> Option<RecipeRow> {
        self.row.clone().filter(|r| r.owner_id == owner_id)
    }
}

fn rename(kitchen: &Kitchen, owner_id: &str, new_title: &str) -> Result<AppendEvent, RecipeError> {
    rename_recipe(
        RenameRecipe {
            recipe_id: kitchen.id.clone(),
            owner_id: owner_id.into(),
            new_title: new_title.into(),
        },
        kitchen.agg.clone(),
        kitchen.version(),
    )
}

fn delete(kitchen: &Kitchen, owner_id: &str) -> Result<Option<AppendEvent>, RecipeError> {
    delete_recipe(
        DeleteRecipe { recipe_id: kitchen.id.clone(), owner_id: owner_id.into() },
        kitchen.agg.clone(),
        kitchen.version(),
    )
}

#[test]
fn valid_command_produces_event() {
    let evt = good_cmd().into_event().expect("valid command");
    assert_eq!(evt.title, "Lentil Stew");
    assert_eq!(evt.meal_type, "main");
    assert_eq!(evt.ingredients.len(), 1);
    assert_eq!(evt.steps.len(), 1);
}

#[test]
fn drops_blank_rows() {
    let mut cmd = good_cmd();
    cmd.ingredients.push(IngredientFact::default());
    cmd.steps.push(StepFact::default());

    let evt = cmd.into_event().expect("valid command");
    assert_eq!(evt.ingredients.len(), 1);
    assert_eq!(evt.steps.len(), 1);
}

#[test]
fn rejects_empty_title() {
    let mut cmd = good_cmd();
    cmd.title = "  ".into();
    assert!(cmd.into_event().is_err());
}

#[test]
fn rejects_no_ingredients() {
    let mut cmd = good_cmd();
    cmd.ingredients.clear();
    assert!(cmd.into_event().is_err());
}

#[test]
fn rejects_no_steps() {
    let mut cmd = good_cmd();
    cmd.steps.clear();
    assert!(cmd.into_event().is_err());
}

#[test]
fn rejects_zero_servings() {
    let mut cmd = good_cmd();
    cmd.servings = 0;
    assert!(cmd.into_event().is_err());
}

#[test]
fn defaults_emoji_from_meal_type() {
    let mut cmd = good_cmd();
    cmd.emoji = String::new();
    let evt = cmd.into_event().expect("valid command");
    assert_eq!(evt.emoji, MealType::Main.default_emoji());
}

#[test]
fn rename_rejects_blank_title() {
    let cmd = RenameRecipe { recipe_id: "r".into(), owner_id: "u".into(), new_title: "  ".into() };
    let trimmed = cmd.new_title.trim();
    assert!(trimmed.is_empty());
    assert_eq!(rename_recipe(cmd, None, 0).unwrap_err(), RecipeError::TitleRequired);
}

#[test]
fn recategorize_defaults_emoji_from_meal_type() {
    assert_eq!(
        default_emoji_if_blank(String::new(), MealType::Dessert),
        MealType::Dessert.default_emoji()
    );
    assert_eq!(default_emoji_if_blank("🥕".into(), MealType::Dessert), "🥕");
}

#[test]
fn retime_servings_minimum() {
    let cmd = RetimeRecipe {
        recipe_id: "r".into(),
        owner_id: "u".into(),
        prep_minutes: 0,
        cook_minutes: 0,
        servings: 0,
        difficulty: "Easy".into(),
    };
    assert!(cmd.servings < 1);
    assert_eq!(retime_recipe(cmd, None, 0).unwrap_err(), RecipeError::ServingsTooLow);
}

#[test]
fn replace_ingredients_drops_blanks_and_requires_one() {
    let with_blanks = vec![
        IngredientFact::default(),
        IngredientFact { name: "Salt".into(), quantity: None, unit: Unit::Pinch },
        IngredientFact::default(),
    ];
    let dropped = drop_blank_ingredients(with_blanks);
    assert_eq!(dropped.len(), 1);
    assert_eq!(dropped[0].name, "Salt");

    let all_blank = vec![IngredientFact::default(); 3];
    assert!(!all_blank.iter().any(|i| !i.name.trim().is_empty()));
    let cmd = ReplaceIngredients {
        recipe_id: "r".into(),
        owner_id: "u".into(),
        ingredients: all_blank,
    };
    assert_eq!(replace_ingredients(cmd, None, 0).unwrap_err(), RecipeError::IngredientRequired);
}

#[test]
fn replace_steps_drops_blanks_and_requires_one() {
    let with_blanks = vec![
        StepFact::default(),
        StepFact { wait_minutes: 0, text: "Combine and stir.".into() },
    ];
    let dropped = drop_blank_steps(with_blanks);
    assert_eq!(dropped.len(), 1);

    let all_blank = vec![StepFact::default(); 3];
    assert!(!all_blank.iter().any(|s| !s.text.trim().is_empty()));
    let cmd = ReplaceSteps { recipe_id: "r".into(), owner_id: "u".into(), steps: all_blank };
    assert_eq!(replace_steps(cmd, None, 0).unwrap_err(), RecipeError::StepRequired);
}

#[test]
fn edit_commands_propagate_to_projection() {
    let owner = "u-edit";
    let mut kitchen = Kitchen::draft("r-1", good_draft(owner));

    let row = kitchen.row_of(owner).expect("draft row not in projection");
    assert_eq!(row.title, "Lentil Stew");
    assert_eq!(row.meal_type, "main");
    assert_eq!(row.created_at, 1_700_000_000);
    assert_eq!(row.rating, Rating { bits: 0.0_f64.to_bits() });

    let append = rename(&kitchen, owner, "  Spicy Lentil Stew  ");
    kitchen.append(append, "rename");
    let row = kitchen.row_of(owner).expect("rename not propagated");
    assert_eq!(row.title, "Spicy Lentil Stew");

    let append = recategorize_recipe(
        RecategorizeRecipe {
            recipe_id: kitchen.id.clone(),
            owner_id: owner.into(),
            meal_type: MealType::Dessert,
            cuisine: "French".into(),
            emoji: String::new(),
        },
        kitchen.agg.clone(),
        kitchen.version(),
    );
    kitchen.append(append, "recategorize");
    let row = kitchen.row_of(owner).expect("recategorize not propagated");
    assert_eq!(row.meal_type, "dessert");
    assert_eq!(row.cuisine, "French");
    assert_eq!(row.emoji, MealType::Dessert.default_emoji());

    let append = retime_recipe(
        RetimeRecipe {
            recipe_id: kitchen.id.clone(),
            owner_id: owner.into(),
            prep_minutes: 5,
            cook_minutes: 40,
            servings: 6,
            difficulty: "Hard".into(),
        },
        kitchen.agg.clone(),
        kitchen.version(),
    );
    kitchen.append(append, "retime");
    let row = kitchen.row_of(owner).expect("retime not propagated");
    assert_eq!(row.time_minutes, 45);
    assert_eq!(row.servings, 6);
    assert_eq!(row.difficulty, "Hard");

    let append = redescribe_recipe(
        RedescribeRecipe {
            recipe_id: kitchen.id.clone(),
            owner_id: owner.into(),
            description: "Reworked weeknight version.".into(),
        },
        kitchen.agg.clone(),
        kitchen.version(),
    );
    kitchen.append(append, "redescribe");
    let row = kitchen.row_of(owner).expect("redescribe not propagated");
    assert_eq!(row.description, "Reworked weeknight version.");

    let append = retag_recipe(
        RetagRecipe {
            recipe_id: kitchen.id.clone(),
            owner_id: owner.into(),
            tags: vec!["Vegetarian".into(), "One-pot".into()],
        },
        kitchen.agg.clone(),
        kitchen.version(),
    );
    kitchen.append(append, "retag");
    let row = kitchen.row_of(owner).expect("retag not propagated");
    let tags = row.tags();
    assert_eq!(tags.len(), 2);
    assert!(tags.contains(&"Vegetarian".to_string()));
    assert!(tags.contains(&"One-pot".to_string()));

    let append = replace_ingredients(
        ReplaceIngredients {
            recipe_id: kitchen.id.clone(),
            owner_id: owner.into(),
            ingredients: vec![
                IngredientFact::default(),
                IngredientFact {
                    name: "Coconut milk".into(),
                    quantity: quantity(400.0),
                    unit: Unit::Ml,
                },
                IngredientFact::default(),
            ],
        },
        kitchen.agg.clone(),
        kitchen.version(),
    );
    kitchen.append(append, "replace_ingredients");
    let row = kitchen.row_of(owner).expect("ingredients not propagated");
    let ings = row.ingredients();
    assert_eq!(ings.len(), 1);
    assert_eq!(ings[0].name, "Coconut milk");
    assert_eq!(ings[0].unit, Unit::Ml);

    let append = replace_steps(
        ReplaceSteps {
            recipe_id: kitchen.id.clone(),
            owner_id: owner.into(),
            steps: vec![
                StepFact { wait_minutes: 0, text: "Sauté aromatics.".into() },
                StepFact { wait_minutes: 30, text: "Simmer covered.".into() },
            ],
        },
        kitchen.agg.clone(),
        kitchen.version(),
    );
    kitchen.append(append, "replace_steps");
    let row = kitchen.row_of(owner).expect("steps not propagated");
    assert_eq!(row.steps().len(), 2);
    assert_eq!(row.steps()[1].text, "Simmer covered.");

    let append = delete(&kitchen, owner).expect("delete").expect("delete appends");
    kitchen.take(append.event);
    assert!(kitchen.row_of(owner).is_none(), "row should be absent after delete");

    let err = rename(&kitchen, owner, "Should not work").expect_err("post-delete rename should fail");
    assert!(err.message().contains("recipe deleted"), "{:?}", err);
}

#[test]
fn owner_check_blocks_other_users() {
    let owner = "u-alice";
    let kitchen = Kitchen::draft("r-1", good_draft(owner));

    let err = rename(&kitchen, "u-mallory", "Pwned").expect_err("non-owner rename must fail");
    assert!(err.message().contains("not owner"), "{:?}", err);

    let err = delete(&kitchen, "u-mallory").expect_err("non-owner delete must fail");
    assert!(err.message().contains("not owner"), "{:?}", err);

    let row = kitchen.row_of(owner).expect("row present");
    assert_eq!(row.title, "Lentil Stew");
    assert_eq!(kitchen.log.len(), 1);
}

#[test]
fn delete_is_idempotent() {
    let owner = "u-idem";
    let mut kitchen = Kitchen::draft("r-1", good_draft(owner));

    let append = delete(&kitchen, owner).expect("first delete").expect("an event");
    kitchen.take(append.event);
    assert!(kitchen.row_of(owner).is_none(), "row should be absent after first delete");

    let again = delete(&kitchen, owner).expect("second delete is a no-op");
    assert!(again.is_none());
    assert!(kitchen.row_of(owner).is_none());
}

#[test]
fn list_excludes_owners_who_dont_own_recipes() {
    let owner_a = "u-a";
    let owner_b = "u-b";
    let a = Kitchen::draft("r-a", good_draft(owner_a));
    let b = Kitchen::draft(
        "r-b",
        DraftRecipe { title: "B's pancakes".into(), ..good_draft(owner_b) },
    );

    let all = vec![a.row.clone().unwrap(), b.row.clone().unwrap()];
    let rows_of = |owner: &str| -> Vec<RecipeRow> {
        let list = recipes_view::list_for_owner(owner, &RecipesQuery::default());
        assert_eq!(list.owner_id, owner);
        assert_eq!(list.rows, ListQuery::All);
        all.iter().filter(|r| r.owner_id == list.owner_id).cloned().collect()
    };
    let a_rows = rows_of(owner_a);
    let b_rows = rows_of(owner_b);
    assert_eq!(a_rows.len(), 1);
    assert_eq!(b_rows.len(), 1);
    assert_ne!(a_rows[0].title, b_rows[0].title);
}

#[test]
fn every_refusal_of_a_draft_has_its_reason() {
    let mut cmd = good_cmd();
    cmd.owner_id = "\u{3000}\t".into();
    cmd.title = String::new();
    assert_eq!(cmd.into_event().unwrap_err(), RecipeError::OwnerRequired);

    let mut cmd = good_cmd();
    cmd.title = "\u{a0} \n".into();
    assert_eq!(cmd.into_event().unwrap_err(), RecipeError::TitleRequired);

    let mut cmd = good_cmd();
    cmd.servings = 0;
    cmd.steps.clear();
    assert_eq!(cmd.into_event().unwrap_err(), RecipeError::ServingsTooLow);

    let mut cmd = good_cmd();
    cmd.ingredients = vec![IngredientFact::default(); 3];
    assert_eq!(cmd.into_event().unwrap_err(), RecipeError::IngredientRequired);

    let mut cmd = good_cmd();
    cmd.steps[0].text = "   ".into();
    assert_eq!(cmd.into_event().unwrap_err(), RecipeError::StepRequired);

    assert_eq!(RecipeError::OwnerRequired.message(), "owner is required");
    assert_eq!(RecipeError::TitleRequired.message(), "title is required");
    assert_eq!(RecipeError::ServingsTooLow.message(), "servings must be at least 1");
    assert_eq!(
        RecipeError::IngredientRequired.message(),
        "at least one ingredient is required"
    );
    assert_eq!(RecipeError::StepRequired.message(), "at least one step is required");
    assert_eq!(RecipeError::NotFound.message(), "recipe not found");
}

#[test]
fn a_draft_is_routed_by_its_owner() {
    let create = draft_recipe(good_draft("01ABC")).unwrap();
    assert_eq!(create.routing_key, "user:01ABC");
    assert_eq!(create.requested_by, "01ABC");
    assert_eq!(create.event.provenance.kind, "manual");
    assert_eq!(create.event.provenance.import_job_id, "");
    assert_eq!(create.event.title, "Lentil Stew");
    assert_eq!(draft_recipe(good_draft(" ")).unwrap_err(), RecipeError::OwnerRequired);
}

#[test]
fn a_title_is_drafted_as_it_was_given() {
    let mut cmd = good_cmd();
    cmd.title = "  Stew ".into();
    assert_eq!(cmd.into_event().unwrap().title, "  Stew ");
}

#[test]
fn commands_on_a_missing_recipe_are_refused() {
    let cmd = RenameRecipe { recipe_id: "r".into(), owner_id: "u".into(), new_title: "A".into() };
    assert_eq!(rename_recipe(cmd, None, 3).unwrap_err(), RecipeError::NotFound);
    let cmd = DeleteRecipe { recipe_id: "r".into(), owner_id: "u".into() };
    assert_eq!(delete_recipe(cmd, None, 3).unwrap_err(), RecipeError::NotFound);
}

#[test]
fn a_bad_field_is_named_before_a_wrong_owner() {
    let agg = Some(RecipeAggregate { owner_id: "alice".into(), deleted: true });
    let cmd = RenameRecipe { recipe_id: "r".into(), owner_id: "bob".into(), new_title: " ".into() };
    assert_eq!(rename_recipe(cmd, agg.clone(), 0).unwrap_err(), RecipeError::TitleRequired);
    let cmd = RenameRecipe { recipe_id: "r".into(), owner_id: "bob".into(), new_title: "x".into() };
    assert_eq!(rename_recipe(cmd, agg, 0).unwrap_err(), RecipeError::NotOwner);
}

#[test]
fn an_edit_builds_on_the_version_that_was_read() {
    let agg = Some(RecipeAggregate { owner_id: "u".into(), deleted: false });
    let cmd = RedescribeRecipe {
        recipe_id: "r".into(),
        owner_id: "u".into(),
        description: String::new(),
    };
    let append = redescribe_recipe(cmd, agg, 41).unwrap();
    assert_eq!(append.original_version, 41);
    assert_eq!(append.requested_by, "u");
    assert_eq!(current_version(None), 0);
    assert_eq!(current_version(Some(7)), 7);
}

#[test]
fn slugs_of_meal_types_and_units_are_read_back() {
    for slug in MEAL_TYPES {
        assert_eq!(MealType::parse(slug).unwrap().slug(), slug);
    }
    assert_eq!(MealType::parse("Main"), None);
    assert_eq!(MealType::Entree.label(), "Starter");
    let units = [
        Unit::G,
        Unit::Ml,
        Unit::Kg,
        Unit::L,
        Unit::Tbsp,
        Unit::Tsp,
        Unit::Cup,
        Unit::Piece,
        Unit::Pinch,
        Unit::Unitless,
    ];
    for unit in units {
        assert_eq!(Unit::parse(unit.slug()), Some(unit));
    }
    assert_eq!(Unit::parse("  TbSP\n"), Some(Unit::Tbsp));
    assert_eq!(Unit::parse("None"), Some(Unit::Unitless));
    assert_eq!(Unit::parse("ounce"), None);
    assert_eq!(Unit::default(), Unit::Unitless);
}

#[test]
fn amounts_are_shown_with_their_unit() {
    let line = |q: Option<Quantity>, unit: Unit| IngredientFact {
        name: "x".into(),
        quantity: q,
        unit,
    };
    assert_eq!(line(quantity(250.0), Unit::G).display_qty("250", false), "250 g");
    assert_eq!(line(None, Unit::Pinch).display_qty("", false), "a pinch");
    assert_eq!(line(None, Unit::Unitless).display_qty("", false), "to taste");
    assert_eq!(line(quantity(2.0), Unit::Piece).display_qty("2", false), "2 pcs");
    assert_eq!(line(quantity(1.0), Unit::Piece).display_qty("1", true), "1 pc");
    assert_eq!(line(quantity(3.0), Unit::Unitless).display_qty("3", false), "3");
    assert_eq!(line(None, Unit::Cup).display_qty("", false), "cup");
}

#[test]
fn replaying_a_draft_keeps_owner_and_age() {
    let event = draft_recipe(good_draft("u")).unwrap().event;
    let first = recipes_view::apply_drafted(None, "r", 10, &event);
    let again = recipes_view::apply_drafted(Some(first.clone()), "r", 10, &event);
    assert_eq!(first, again);

    let mut other = event.clone();
    other.owner_id = "someone else".into();
    other.title = "New".into();
    let merged = recipes_view::apply_drafted(Some(first), "r", 99, &other);
    assert_eq!(merged.owner_id, "u");
    assert_eq!(merged.created_at, 10);
    assert_eq!(merged.title, "New");
    assert_eq!(merged.time_minutes, 35);
}

#[test]
fn edits_of_a_missing_row_make_none() {
    let event = imkitchen::recipe::RecipeRenamed { new_title: "x".into() };
    assert!(recipes_view::apply_renamed(None, &event).is_none());
    assert!(recipes_view::apply_deleted(None).is_none());
}

#[test]
fn lists_are_narrowed_by_meal_type_and_search() {
    let query = |meal_type: Option<&str>, search: Option<&str>| RecipesQuery {
        meal_type: meal_type.map(str::to_owned),
        search: search.map(str::to_owned),
    };
    let rows = |query: RecipesQuery| {
        let list = recipes_view::list_for_owner("u1", &query);
        assert_eq!(list.owner_id, "u1");
        list.rows
    };
    assert_eq!(rows(query(None, Some("  \t"))), ListQuery::All);
    assert_eq!(
        rows(query(Some("side"), None)),
        ListQuery::ByMealType("side".into())
    );
    assert_eq!(
        rows(query(None, Some(" CRÈME Brûlée "))),
        ListQuery::BySearch("%crème brûlée%".into())
    );
    assert_eq!(
        rows(query(Some("main"), Some("Soup"))),
        ListQuery::ByMealTypeAndSearch("main".into(), "%soup%".into())
    );
    assert_eq!(
        recipes_view::list_query(&None, Some("pie".into())),
        ListQuery::BySearch("%pie%".into())
    );
}

#[test]
fn tags_that_are_no_list_are_none() {
    let event = draft_recipe(good_draft("u")).unwrap().event;
    let mut row = recipes_view::apply_drafted(None, "r", 10, &event);
    assert_eq!(row.tags_json, "[\"Vegan\"]");
    assert_eq!(row.tags(), vec!["Vegan".to_string()]);
    row.tags_json = "{}".into();
    assert!(row.tags().is_empty());
    row.tags_json = "[1]".into();
    assert!(row.tags().is_empty());
}

#[test]
fn minutes_add_up_beyond_their_own_range() {
    let event = draft_recipe(good_cmd()).unwrap().event;
    let row = recipes_view::apply_drafted(None, "r", 10, &event);
    let mut retimed = imkitchen::recipe::RecipeRetimed {
        prep_minutes: 5,
        cook_minutes: 40,
        servings: 3,
        difficulty: "Hard".into(),
    };
    let row = recipes_view::apply_retimed(Some(row), &retimed).unwrap();
    assert_eq!((row.time_minutes, row.servings), (45, 3));
    retimed.prep_minutes = 4294967295;
    retimed.cook_minutes = 1;
    let row = recipes_view::apply_retimed(Some(row), &retimed).unwrap();
    assert_eq!(row.time_minutes, 4294967296);
    let mut long = event;
    long.prep_minutes = 4294967295;
    long.cook_minutes = 4294967295;
    assert_eq!(recipes_view::apply_drafted(None, "r", 10, &long).time_minutes, 8589934590);
}
