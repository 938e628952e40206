//! The form for a new recipe.

use imkitchen::recipe::{draft_recipe, MealType, Quantity, Unit};
use imkitchen::web::auth::{Role, User};
use imkitchen::web::recipes_create::{
    create_form, create_submit, create_submit_done, difficulty_options, form_in,
    ingredient_row_fragment, meal_type_options, next_row_id, parse_form, step_row_fragment,
    tag_options, unit_options, validate, CreateRecipeForm, FieldErrors, IngredientInput,
};
use imkitchen::web::{Reply, Step};

fn user() -> User {
    User { id: "u1".into(), role: Role::User }
}

fn quantities(form: &CreateRecipeForm) -> Vec<Option<Quantity>> {
    form.ingredients
        .iter()
        .map(|i| {
            i.quantity
                .trim()
                .parse::<f32>()
                .ok()
                .filter(|n| *n >= 0.0)
                .map(|n| Quantity { bits: n.to_bits() })
        })
        .collect()
}

const BODY: &[u8] = b"title=Old&title=Soup&meal_type=side&cuisine=Thai&prep_minutes=x&cook_minutes=20\
&servings=0&difficulty=Hard&description=Hot&tag=Vegan&tag=Spicy\
&ing_quantity=250&ing_unit=G&ing_name=Rice&ing_quantity=&ing_unit=&ing_name=\
&step_text=Boil.&step_min=5&step_text=Serve.&step_min=soon";

#[test]
fn bodies_are_read_as_forms() {
    let form = parse_form(BODY);
    assert_eq!(form.title, "Soup");
    assert_eq!(form.meal_type, "side");
    assert_eq!((form.prep_minutes, form.cook_minutes, form.servings), (0, 20, 1));
    assert_eq!(form.tags, vec!["Vegan".to_string(), "Spicy".to_string()]);
    assert_eq!(form.ingredients.len(), 2);
    assert_eq!(
        form.ingredients[0],
        IngredientInput { quantity: "250".into(), unit: "G".into(), name: "Rice".into() }
    );
    assert_eq!(form.steps.len(), 2);
    assert_eq!(form.steps[1].wait_minutes, 0);
    assert_eq!(form.steps[1].text, "Serve.");
}

#[test]
fn missing_fields_have_their_defaults() {
    let form = parse_form(b"ing_name=Salt&ing_quantity=1&ing_quantity=2&step_min=3");
    assert_eq!(form.meal_type, "main");
    assert_eq!(form.difficulty, "Medium");
    assert_eq!((form.prep_minutes, form.cook_minutes, form.servings), (0, 0, 1));
    assert_eq!(form.ingredients.len(), 2);
    assert_eq!(form.ingredients[1].name, "");
    assert_eq!(form.ingredients[1].quantity, "2");
    assert_eq!(form.steps.len(), 1);
    assert_eq!((form.steps[0].wait_minutes, form.steps[0].text.as_str()), (3, ""));
    assert_eq!(form_in(&vec![]), parse_form(b""));
}

#[test]
fn a_form_in_order_becomes_a_draft() {
    let form = parse_form(BODY);
    let q = quantities(&form);
    assert!(validate(&form, &q).is_empty());
    let cmd = match create_submit(&user(), form, &q) {
        Step::Run(cmd) => cmd,
        other => panic!("{:?}", other),
    };
    assert_eq!(cmd.owner_id, "u1");
    assert_eq!(cmd.meal_type, MealType::Side);
    assert_eq!(cmd.emoji, "");
    assert_eq!(cmd.provenance.kind, "manual");
    assert_eq!(cmd.ingredients[0].unit, Unit::G);
    assert_eq!(cmd.ingredients[0].quantity, Some(Quantity { bits: 250.0_f32.to_bits() }));
    let event = draft_recipe(cmd).unwrap().event;
    assert_eq!(event.emoji, "🥖");
    assert_eq!(event.ingredients.len(), 1);
    assert_eq!(event.steps.len(), 2);
}

#[test]
fn an_empty_form_is_shown_again_with_its_errors() {
    let form = CreateRecipeForm::starter();
    let q = quantities(&form);
    match create_submit(&user(), form, &q) {
        Step::Reply(Reply::Unprocessable(page)) => {
            assert_eq!(
                page.form_errors,
                vec![
                    "Add a title.".to_string(),
                    "Add at least one ingredient.".to_string(),
                    "Add at least one step.".to_string()
                ]
            );
            assert_eq!(page.err_title.as_deref(), Some("A title is required."));
            assert_eq!(page.ingredient_rows.len(), 3);
            assert_eq!(page.ingredient_rows[2].row_id, "ing-2");
            assert_eq!(page.step_rows[1].row_id, "step-1");
        }
        other => panic!("{:?}", other),
    }
}

#[test]
fn a_quantity_that_is_no_number_is_caught() {
    let form = parse_form(b"title=T&ing_quantity=some&ing_unit=&ing_name=Salt&step_text=Stir");
    let q = quantities(&form);
    let errs = validate(&form, &q);
    assert_eq!(errs.ingredient[0].quantity.as_deref(), Some("Quantity must be a number."));
    assert_eq!(errs.ingredient[0].name, None);
    assert!(!errs.is_empty());
    match create_submit(&user(), form, &q) {
        Step::Reply(Reply::Unprocessable(page)) => {
            assert_eq!(
                page.ingredient_rows[0].err_quantity.as_deref(),
                Some("Quantity must be a number.")
            );
            assert_eq!(page.ingredient_rows[0].ing.quantity, "some");
        }
        other => panic!("{:?}", other),
    }
}

#[test]
fn a_row_without_a_name_is_marked_and_left_out() {
    let form = parse_form(
        b"title=T&ing_quantity=&ing_unit=g&ing_name=&ing_quantity=1&ing_unit=&ing_name=Salt&step_text=Stir",
    );
    let errs = validate(&form, &quantities(&form));
    assert_eq!(errs.ingredient[0].name.as_deref(), Some("Name is required."));
    assert_eq!(errs.ingredient[1].name, None);
    assert!(errs.summary.is_empty());
    assert!(errs.is_empty());
    assert!(FieldErrors::default().is_empty());
    let q = quantities(&form);
    match create_submit(&user(), form, &q) {
        Step::Run(cmd) => {
            assert_eq!(cmd.ingredients.len(), 2);
            let event = cmd.into_event().unwrap();
            assert_eq!(event.ingredients.len(), 1);
            assert_eq!(event.ingredients[0].name, "Salt");
        }
        other => panic!("{:?}", other),
    }
}

#[test]
fn what_came_of_a_draft_is_answered() {
    let form = CreateRecipeForm::starter();
    assert_eq!(
        create_submit_done(&user(), form.clone(), Ok("01ID".into())),
        Reply::Redirect("/recipes/01ID?awaiting=1".into())
    );
    match create_submit_done(&user(), form, Err("disk full".into())) {
        Reply::Unprocessable(page) => {
            assert_eq!(page.form_errors, vec!["Couldn't save: disk full".to_string()]);
        }
        other => panic!("{:?}", other),
    }
}

#[test]
fn the_form_begins_with_a_starter() {
    match create_form(&user()) {
        Reply::Page(page) => {
            assert_eq!((page.prep_minutes, page.cook_minutes, page.servings), (15, 30, 4));
            assert_eq!(page.ingredient_rows.len(), 3);
            assert_eq!(page.step_rows.len(), 2);
            assert!(page.meal_type_options[1].active);
            assert!(page.difficulty_options[1].active);
            assert!(page.form_errors.is_empty());
        }
        other => panic!("{:?}", other),
    }
}

#[test]
fn options_mark_what_is_chosen() {
    let units = unit_options("kg");
    assert_eq!(units.len(), 10);
    assert_eq!((units[0].value, units[0].label), ("", "—"));
    assert_eq!((units[8].value, units[8].label), ("piece", "pc"));
    let chosen: Vec<&str> = units.iter().filter(|u| u.selected).map(|u| u.value).collect();
    assert_eq!(chosen, vec!["kg"]);

    let meals = meal_type_options("dessert");
    assert_eq!((meals[3].label, meals[3].emoji, meals[3].active), ("Dessert", "🍰", true));
    assert!(meal_type_options("x").iter().all(|m| !m.active));

    let levels = difficulty_options("Easy");
    assert_eq!((levels[0].value, levels[0].label, levels[0].active), ("Easy", "Easy", true));

    let tags = tag_options(&vec!["Spicy".to_string(), "Odd".to_string()]);
    let chosen: Vec<&str> = tags.iter().filter(|t| t.active).map(|t| t.value).collect();
    assert_eq!(chosen, vec!["Spicy"]);
    assert_eq!(tags.len(), 10);
}

#[test]
fn added_rows_have_their_own_ids() {
    assert_eq!(next_row_id("ing", 12), "ing-new-12");
    match ingredient_row_fragment(3) {
        Reply::Page(part) => {
            assert_eq!(part.row_id, "ing-new-3");
            assert!(part.unit_options[0].selected);
            assert_eq!(part.ing, IngredientInput::default());
        }
        other => panic!("{:?}", other),
    }
    match step_row_fragment(4) {
        Reply::Page(part) => assert_eq!(part.row_id, "step-new-4"),
        other => panic!("{:?}", other),
    }
}
