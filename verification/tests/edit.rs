//! Editing a recipe, section by section.

use imkitchen::projection::recipes_view::{Rating, RecipeRow};
use imkitchen::recipe::{IngredientFact, MealType, Quantity, StepFact, Unit};
use imkitchen::web::auth::{Role, User};
use imkitchen::web::recipes_edit::{
    all_values, delete_section, delete_section_done, edit_page, first_value, ingredients_section,
    ingredients_section_done, parse_ingredient_inputs, parse_step_inputs, recategorize_section,
    recategorize_section_done, redescribe_section, redescribe_section_done, rename_section,
    rename_section_done, retag_section, retag_section_done, retime_section, retime_section_done,
    rows_for_steps, split_time_for_input, steps_section, steps_section_done, EditQuery, EditScreen,
};
use imkitchen::web::{Reply, Step};

const PARTIAL: Option<&str> = Some("text/html+partial");

fn user() -> User {
    User { id: "u1".into(), role: Role::User }
}

fn row() -> RecipeRow {
    RecipeRow {
        id: "r".into(),
        owner_id: "u1".into(),
        title: "Stew".into(),
        meal_type: "side".into(),
        emoji: "🍲".into(),
        cuisine: "Thai".into(),
        time_minutes: 45,
        servings: 4,
        rating: Rating { bits: 0 },
        difficulty: "Easy".into(),
        description: "Hot".into(),
        tags_json: "[\"Vegan\"]".into(),
        ingredients: vec![
            IngredientFact {
                name: "Rice".into(),
                quantity: Some(Quantity { bits: 1.5_f32.to_bits() }),
                unit: Unit::Cup,
            },
            IngredientFact { name: "Salt".into(), quantity: None, unit: Unit::Pinch },
        ],
        steps: vec![StepFact { wait_minutes: 5, text: "Boil.".into() }],
        created_at: 0,
    }
}

fn numbers() -> Vec<String> {
    vec!["1.5".into(), "ignored".into()]
}

#[test]
fn the_edit_page_shows_the_row() {
    let q = EditQuery { confirm: 1, awaiting: 0, attempt: 0 };
    match edit_page(&user(), None, "r", &q, Some(row()), &numbers()) {
        Reply::Page(EditScreen::Edit(page)) => {
            assert_eq!(page.recipe_id, "r");
            assert_eq!((page.prep_minutes, page.cook_minutes, page.servings), (15, 30, 4));
            assert_eq!(page.ingredient_rows[0].ing.quantity, "1.5");
            assert_eq!(page.ingredient_rows[0].ing.unit, "cup");
            assert_eq!(page.ingredient_rows[1].ing.quantity, "");
            assert_eq!(page.ingredient_rows[1].row_id, "ing-1");
            assert_eq!(page.step_rows[0].step.text, "Boil.");
            assert!(page.meal_type_options[2].active);
            assert!(page.tag_options[1].active);
            assert!(page.confirming);
            assert!(!page.saved);
        }
        other => panic!("{:?}", other),
    }
}

#[test]
fn the_edit_page_waits_for_a_change() {
    let q = EditQuery { confirm: 0, awaiting: 1, attempt: 4 };
    match edit_page(&user(), PARTIAL, "r", &q, Some(row()), &numbers()) {
        Reply::Page(EditScreen::AwaitingPart(part)) => {
            assert_eq!((part.attempt, part.attempt_limit), (4, 5));
        }
        other => panic!("{:?}", other),
    }
    match edit_page(&user(), None, "r", &q, Some(row()), &numbers()) {
        Reply::Page(EditScreen::Awaiting(page)) => assert_eq!(page.attempt, 4),
        other => panic!("{:?}", other),
    }
    let q = EditQuery { confirm: 0, awaiting: 1, attempt: 5 };
    assert_eq!(
        edit_page(&user(), PARTIAL, "r", &q, Some(row()), &numbers()),
        Reply::Location("/recipes/r/edit".into())
    );
    assert!(matches!(
        edit_page(&user(), None, "r", &q, Some(row()), &numbers()),
        Reply::Page(EditScreen::Edit(_))
    ));
}

#[test]
fn a_recipe_of_someone_else_cannot_be_edited() {
    match edit_page(&user(), PARTIAL, "r", &EditQuery::default(), None, &vec![]) {
        Reply::NotFound(EditScreen::NotFound(page)) => assert_eq!(page.requested_id, ""),
        other => panic!("{:?}", other),
    }
}

#[test]
fn the_title_section_renames() {
    let cmd = match rename_section(&user(), None, "r", b"title=+New+&title=Later") {
        Step::Run(cmd) => cmd,
        other => panic!("{:?}", other),
    };
    assert_eq!(cmd.new_title, "New");
    assert_eq!((cmd.recipe_id.as_str(), cmd.owner_id.as_str()), ("r", "u1"));
    assert_eq!(
        rename_section_done(None, &cmd, Ok(())),
        Reply::Redirect("/recipes/r/edit?awaiting=1".into())
    );
    match rename_section_done(PARTIAL, &cmd, Ok(())) {
        Reply::Page(part) => {
            assert!(part.saved);
            assert_eq!(part.title, "New");
        }
        other => panic!("{:?}", other),
    }
    match rename_section_done(None, &cmd, Err("not owner".into())) {
        Reply::Unprocessable(part) => {
            assert_eq!(part.err.as_deref(), Some("not owner"));
            assert!(!part.saved);
        }
        other => panic!("{:?}", other),
    }
}

#[test]
fn a_blank_title_is_shown_again() {
    match rename_section(&user(), None, "r", b"title=++") {
        Step::Reply(Reply::Unprocessable(part)) => {
            assert_eq!(part.err.as_deref(), Some("Add a title."));
            assert_eq!(part.title, "  ");
        }
        other => panic!("{:?}", other),
    }
    assert!(matches!(
        rename_section(&user(), PARTIAL, "r", b""),
        Step::Reply(Reply::Page(_))
    ));
}

#[test]
fn the_categorization_section_recategorizes() {
    let cmd = recategorize_section(&user(), "r", b"meal_type=dessert&cuisine=French");
    assert_eq!(cmd.meal_type, MealType::Dessert);
    assert_eq!((cmd.cuisine.as_str(), cmd.emoji.as_str()), ("French", ""));
    assert_eq!(recategorize_section(&user(), "r", b"meal_type=x").meal_type, MealType::Main);
    match recategorize_section_done(PARTIAL, &cmd, Ok(())) {
        Reply::Page(part) => assert!(part.saved && part.meal_type_options[3].active),
        other => panic!("{:?}", other),
    }
    match recategorize_section_done(None, &cmd, Err("recipe deleted".into())) {
        Reply::Unprocessable(part) => {
            assert!(!part.saved);
            assert_eq!(part.err.as_deref(), Some("recipe deleted"));
        }
        other => panic!("{:?}", other),
    }
}

#[test]
fn the_timing_section_retimes() {
    let cmd = retime_section(&user(), "r", b"prep_minutes=5&cook_minutes=abc&servings=0");
    assert_eq!((cmd.prep_minutes, cmd.cook_minutes, cmd.servings), (5, 0, 1));
    assert_eq!(cmd.difficulty, "Medium");
    match retime_section_done(PARTIAL, &cmd, Err("recipe deleted".into())) {
        Reply::Page(part) => {
            assert_eq!(part.err.as_deref(), Some("recipe deleted"));
            assert!(part.difficulty_options[1].active);
        }
        other => panic!("{:?}", other),
    }
    assert_eq!(
        retime_section_done(Some("text/html"), &cmd, Ok(())),
        Reply::Redirect("/recipes/r/edit?awaiting=1".into())
    );
}

#[test]
fn the_description_section_redescribes() {
    let cmd = redescribe_section(&user(), "r", b"description=So+good");
    assert_eq!(cmd.description, "So good");
    assert_eq!(redescribe_section(&user(), "r", b"").description, "");
    match redescribe_section_done(PARTIAL, &cmd, Ok(())) {
        Reply::Page(part) => {
            assert_eq!((part.description.as_str(), part.saved), ("So good", true));
            assert!(part.err.is_none());
        }
        other => panic!("{:?}", other),
    }
    match redescribe_section_done(PARTIAL, &cmd, Err("recipe deleted".into())) {
        Reply::Page(part) => {
            assert!(!part.saved);
            assert_eq!(part.err.as_deref(), Some("recipe deleted"));
        }
        other => panic!("{:?}", other),
    }
}

#[test]
fn the_tags_section_retags() {
    let cmd = retag_section(&user(), "r", b"tag=Vegan&x=1&tag=Spicy");
    assert_eq!(cmd.tags, vec!["Vegan".to_string(), "Spicy".to_string()]);
    match retag_section_done(PARTIAL, &cmd, Ok(())) {
        Reply::Page(part) => {
            assert_eq!(part.tag_options.iter().filter(|t| t.active).count(), 2);
        }
        other => panic!("{:?}", other),
    }
    match retag_section_done(None, &cmd, Err("recipe deleted".into())) {
        Reply::Unprocessable(part) => {
            assert!(!part.saved);
            assert_eq!(part.err.as_deref(), Some("recipe deleted"));
        }
        other => panic!("{:?}", other),
    }
}

#[test]
fn the_ingredients_section_replaces() {
    let inputs = parse_ingredient_inputs(
        b"ing_quantity=&ing_unit=&ing_name=+&ing_quantity=2&ing_unit=kg&ing_name=Rice",
    );
    let quantities = vec![None, Some(Quantity { bits: 2.0_f32.to_bits() })];
    match ingredients_section(&user(), None, "r", &inputs, &quantities, 7) {
        Step::Run(cmd) => {
            assert_eq!(cmd.ingredients.len(), 2);
            assert_eq!(cmd.ingredients[1].unit, Unit::Kg);
        }
        other => panic!("{:?}", other),
    }
    match ingredients_section_done(PARTIAL, "r", &inputs, 7, Ok(())) {
        Reply::Page(part) => {
            assert_eq!(part.ingredient_rows.len(), 1);
            assert_eq!(part.ingredient_rows[0].row_id, "ing-edit-0-7");
            assert!(part.saved);
        }
        other => panic!("{:?}", other),
    }
    match ingredients_section_done(None, "r", &inputs, 7, Err("not owner".into())) {
        Reply::Unprocessable(part) => {
            assert_eq!(part.ingredient_rows.len(), 2);
            assert_eq!(part.ingredient_rows[1].row_id, "ing-edit-1-8");
            assert_eq!(part.summary_err.as_deref(), Some("not owner"));
        }
        other => panic!("{:?}", other),
    }
    let blank = parse_ingredient_inputs(b"ing_unit=g");
    match ingredients_section(&user(), PARTIAL, "r", &blank, &vec![None], 0) {
        Step::Reply(Reply::Page(part)) => {
            assert_eq!(part.summary_err.as_deref(), Some("Add at least one ingredient."));
        }
        other => panic!("{:?}", other),
    }
}

#[test]
fn the_steps_section_replaces() {
    let inputs = parse_step_inputs(b"step_text=Boil&step_min=5&step_text=+");
    match steps_section(&user(), None, "r", &inputs, 0) {
        Step::Run(cmd) => assert_eq!(cmd.steps[0].wait_minutes, 5),
        other => panic!("{:?}", other),
    }
    match steps_section_done(PARTIAL, "r", &inputs, 3, Ok(())) {
        Reply::Page(part) => {
            assert_eq!(part.step_rows.len(), 1);
            assert_eq!(part.step_rows[0].row_id, "step-edit-0-3");
        }
        other => panic!("{:?}", other),
    }
    match steps_section(&user(), None, "r", &parse_step_inputs(b"step_min=1"), 0) {
        Step::Reply(Reply::Unprocessable(part)) => {
            assert_eq!(part.summary_err.as_deref(), Some("Add at least one step."));
        }
        other => panic!("{:?}", other),
    }
}

#[test]
fn row_numbers_go_on_at_zero() {
    let inputs = parse_step_inputs(b"step_text=a&step_text=b");
    let rows = rows_for_steps(&inputs, u64::MAX);
    assert_eq!(rows[0].row_id, "step-edit-0-18446744073709551615");
    assert_eq!(rows[1].row_id, "step-edit-1-0");
}

#[test]
fn a_deletion_leads_to_the_list() {
    let cmd = delete_section(&user(), "r");
    assert_eq!((cmd.recipe_id.as_str(), cmd.owner_id.as_str()), ("r", "u1"));
    assert_eq!(delete_section_done(Ok(())), Reply::Redirect("/recipes".into()));
    assert_eq!(
        delete_section_done(Err("not owner".into())),
        Reply::Plain(500, "not owner".into())
    );
}

#[test]
fn minutes_are_split_without_loss() {
    assert_eq!(split_time_for_input(45), (15, 30));
    assert_eq!(split_time_for_input(44), (0, 44));
    assert_eq!(split_time_for_input(0), (0, 0));
}

#[test]
fn fields_of_a_body_are_found() {
    assert_eq!(first_value(b"a=%C3%A9&a=2", "a").as_deref(), Some("é"));
    assert_eq!(first_value(b"a=1", "b"), None);
    assert_eq!(all_values(b"a=1&b=2&a=3", "a"), vec!["1".to_string(), "3".to_string()]);
}
