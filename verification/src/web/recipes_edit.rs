//! Editing a recipe, section by section.
//!
//! One page shows all sections of a recipe. Each section is submitted by
//! itself and becomes one command. A request for a part of the page gets the
//! section back, as it was saved or with what went wrong; any other request
//! is sent to the edit page, which waits for the change to show.

use vstd::prelude::*;
use vstd::string::*;

use crate::forms;
use crate::json;
use crate::projection::recipes_view::RecipeRow;
use crate::projection::recipes_view::RecipeRowModel;
use crate::recipe;
use crate::recipe::{
    DeleteRecipe, MealType, Quantity, RecategorizeRecipe, RedescribeRecipe, RenameRecipe,
    ReplaceIngredients, ReplaceSteps, RetagRecipe, RetimeRecipe,
};
use crate::recipe::{
    DeleteRecipeModel, IngredientFactModel, RecategorizeRecipeModel, RedescribeRecipeModel,
    RenameRecipeModel, ReplaceIngredientsModel, ReplaceStepsModel, RetagRecipeModel,
    RetimeRecipeModel, StepFactModel,
};
use crate::text;
use crate::web;
use crate::web::auth::User;
use crate::web::auth::UserModel;
use crate::web::recipes;
use crate::web::recipes::RecipeNotFoundPage;
use crate::web::recipes::RecipeNotFoundPageModel;
use crate::web::recipes_create;
use crate::web::recipes_create::{
    DifficultyOption, IngredientInput, IngredientRow, MealTypeOption, StepInput, StepRow,
    TagOption,
};
use crate::web::recipes_create::{
    DifficultyOptionModel, IngredientInputModel, IngredientRowModel, MealTypeOptionModel,
    StepInputModel, StepRowModel, TagOptionModel,
};
use crate::web::{Chrome, NavItem, Reply, Step};
use crate::web::{NavItemModel, ReplyModel, StepModel};

verus! {

// ── Pages and parts ─────────────────────────────────────────────────────

/// The edit page. What went wrong, or was saved, is shown with a section that
/// was submitted, and never here.
#[derive(Debug, PartialEq)]
pub struct EditRecipePage {
    pub nav_items: Vec<NavItem>,
    pub user_initial: &'static str,
    pub user_name: &'static str,
    pub user_email: &'static str,
    pub user_premium: bool,
    pub recipe_id: String,
    pub title: String,
    pub cuisine: String,
    pub description: String,
    pub prep_minutes: u32,
    pub cook_minutes: u32,
    pub servings: u32,
    pub meal_type_options: Vec<MealTypeOption>,
    pub difficulty_options: Vec<DifficultyOption>,
    pub tag_options: Vec<TagOption>,
    pub ingredient_rows: Vec<IngredientRow>,
    pub step_rows: Vec<StepRow>,
    pub err: Option<String>,
    pub summary_err: Option<String>,
    pub saved: bool,
    pub confirming: bool,
}

/// What a [`EditRecipePage`] holds, as mathematical values.
#[verifier::ext_equal]
pub struct EditRecipePageModel {
    pub nav_items: Seq<NavItemModel>,
    pub user_initial: Seq<char>,
    pub user_name: Seq<char>,
    pub user_email: Seq<char>,
    pub user_premium: bool,
    pub recipe_id: Seq<char>,
    pub title: Seq<char>,
    pub cuisine: Seq<char>,
    pub description: Seq<char>,
    pub prep_minutes: u32,
    pub cook_minutes: u32,
    pub servings: u32,
    pub meal_type_options: Seq<MealTypeOptionModel>,
    pub difficulty_options: Seq<DifficultyOptionModel>,
    pub tag_options: Seq<TagOptionModel>,
    pub ingredient_rows: Seq<IngredientRowModel>,
    pub step_rows: Seq<StepRowModel>,
    pub err: Option<Seq<char>>,
    pub summary_err: Option<Seq<char>>,
    pub saved: bool,
    pub confirming: bool,
}

impl View for EditRecipePage {
    type V = EditRecipePageModel;

    open spec fn view(&self) -> EditRecipePageModel {
        EditRecipePageModel {
            nav_items: text::views(self.nav_items@),
            user_initial: self.user_initial@,
            user_name: self.user_name@,
            user_email: self.user_email@,
            user_premium: self.user_premium,
            recipe_id: self.recipe_id@,
            title: self.title@,
            cuisine: self.cuisine@,
            description: self.description@,
            prep_minutes: self.prep_minutes,
            cook_minutes: self.cook_minutes,
            servings: self.servings,
            meal_type_options: text::views(self.meal_type_options@),
            difficulty_options: text::views(self.difficulty_options@),
            tag_options: text::views(self.tag_options@),
            ingredient_rows: text::views(self.ingredient_rows@),
            step_rows: text::views(self.step_rows@),
            err: text::opt_view(self.err),
            summary_err: text::opt_view(self.summary_err),
            saved: self.saved,
            confirming: self.confirming,
        }
    }
}

#[derive(Debug, PartialEq)]
pub struct EditTitleFragment {
    pub recipe_id: String,
    pub title: String,
    pub err: Option<String>,
    pub saved: bool,
}

/// What a [`EditTitleFragment`] holds, as mathematical values.
#[verifier::ext_equal]
pub struct EditTitleFragmentModel {
    pub recipe_id: Seq<char>,
    pub title: Seq<char>,
    pub err: Option<Seq<char>>,
    pub saved: bool,
}

impl View for EditTitleFragment {
    type V = EditTitleFragmentModel;

    open spec fn view(&self) -> EditTitleFragmentModel {
        EditTitleFragmentModel {
            recipe_id: self.recipe_id@,
            title: self.title@,
            err: text::opt_view(self.err),
            saved: self.saved,
        }
    }
}

#[derive(Debug, PartialEq)]
pub struct EditCategorizationFragment {
    pub recipe_id: String,
    pub cuisine: String,
    pub meal_type_options: Vec<MealTypeOption>,
    pub err: Option<String>,
    pub saved: bool,
}

/// What a [`EditCategorizationFragment`] holds, as mathematical values.
#[verifier::ext_equal]
pub struct EditCategorizationFragmentModel {
    pub recipe_id: Seq<char>,
    pub cuisine: Seq<char>,
    pub meal_type_options: Seq<MealTypeOptionModel>,
    pub err: Option<Seq<char>>,
    pub saved: bool,
}

impl View for EditCategorizationFragment {
    type V = EditCategorizationFragmentModel;

    open spec fn view(&self) -> EditCategorizationFragmentModel {
        EditCategorizationFragmentModel {
            recipe_id: self.recipe_id@,
            cuisine: self.cuisine@,
            meal_type_options: text::views(self.meal_type_options@),
            err: text::opt_view(self.err),
            saved: self.saved,
        }
    }
}

#[derive(Debug, PartialEq)]
pub struct EditTimingFragment {
    pub recipe_id: String,
    pub prep_minutes: u32,
    pub cook_minutes: u32,
    pub servings: u32,
    pub difficulty_options: Vec<DifficultyOption>,
    pub err: Option<String>,
    pub saved: bool,
}

/// What a [`EditTimingFragment`] holds, as mathematical values.
#[verifier::ext_equal]
pub struct EditTimingFragmentModel {
    pub recipe_id: Seq<char>,
    pub prep_minutes: u32,
    pub cook_minutes: u32,
    pub servings: u32,
    pub difficulty_options: Seq<DifficultyOptionModel>,
    pub err: Option<Seq<char>>,
    pub saved: bool,
}

impl View for EditTimingFragment {
    type V = EditTimingFragmentModel;

    open spec fn view(&self) -> EditTimingFragmentModel {
        EditTimingFragmentModel {
            recipe_id: self.recipe_id@,
            prep_minutes: self.prep_minutes,
            cook_minutes: self.cook_minutes,
            servings: self.servings,
            difficulty_options: text::views(self.difficulty_options@),
            err: text::opt_view(self.err),
            saved: self.saved,
        }
    }
}

#[derive(Debug, PartialEq)]
pub struct EditDescriptionFragment {
    pub recipe_id: String,
    pub description: String,
    pub err: Option<String>,
    pub saved: bool,
}

/// What a [`EditDescriptionFragment`] holds, as mathematical values.
#[verifier::ext_equal]
pub struct EditDescriptionFragmentModel {
    pub recipe_id: Seq<char>,
    pub description: Seq<char>,
    pub err: Option<Seq<char>>,
    pub saved: bool,
}

impl View for EditDescriptionFragment {
    type V = EditDescriptionFragmentModel;

    open spec fn view(&self) -> EditDescriptionFragmentModel {
        EditDescriptionFragmentModel {
            recipe_id: self.recipe_id@,
            description: self.description@,
            err: text::opt_view(self.err),
            saved: self.saved,
        }
    }
}

#[derive(Debug, PartialEq)]
pub struct EditTagsFragment {
    pub recipe_id: String,
    pub tag_options: Vec<TagOption>,
    pub err: Option<String>,
    pub saved: bool,
}

/// What a [`EditTagsFragment`] holds, as mathematical values.
#[verifier::ext_equal]
pub struct EditTagsFragmentModel {
    pub recipe_id: Seq<char>,
    pub tag_options: Seq<TagOptionModel>,
    pub err: Option<Seq<char>>,
    pub saved: bool,
}

impl View for EditTagsFragment {
    type V = EditTagsFragmentModel;

    open spec fn view(&self) -> EditTagsFragmentModel {
        EditTagsFragmentModel {
            recipe_id: self.recipe_id@,
            tag_options: text::views(self.tag_options@),
            err: text::opt_view(self.err),
            saved: self.saved,
        }
    }
}

#[derive(Debug, PartialEq)]
pub struct EditIngredientsFragment {
    pub recipe_id: String,
    pub ingredient_rows: Vec<IngredientRow>,
    pub summary_err: Option<String>,
    pub saved: bool,
}

/// What a [`EditIngredientsFragment`] holds, as mathematical values.
#[verifier::ext_equal]
pub struct EditIngredientsFragmentModel {
    pub recipe_id: Seq<char>,
    pub ingredient_rows: Seq<IngredientRowModel>,
    pub summary_err: Option<Seq<char>>,
    pub saved: bool,
}

impl View for EditIngredientsFragment {
    type V = EditIngredientsFragmentModel;

    open spec fn view(&self) -> EditIngredientsFragmentModel {
        EditIngredientsFragmentModel {
            recipe_id: self.recipe_id@,
            ingredient_rows: text::views(self.ingredient_rows@),
            summary_err: text::opt_view(self.summary_err),
            saved: self.saved,
        }
    }
}

#[derive(Debug, PartialEq)]
pub struct EditStepsFragment {
    pub recipe_id: String,
    pub step_rows: Vec<StepRow>,
    pub summary_err: Option<String>,
    pub saved: bool,
}

/// What a [`EditStepsFragment`] holds, as mathematical values.
#[verifier::ext_equal]
pub struct EditStepsFragmentModel {
    pub recipe_id: Seq<char>,
    pub step_rows: Seq<StepRowModel>,
    pub summary_err: Option<Seq<char>>,
    pub saved: bool,
}

impl View for EditStepsFragment {
    type V = EditStepsFragmentModel;

    open spec fn view(&self) -> EditStepsFragmentModel {
        EditStepsFragmentModel {
            recipe_id: self.recipe_id@,
            step_rows: text::views(self.step_rows@),
            summary_err: text::opt_view(self.summary_err),
            saved: self.saved,
        }
    }
}

/// The edit page while it waits for a change to show.
#[derive(Debug, PartialEq)]
pub struct EditAwaitingPage {
    pub nav_items: Vec<NavItem>,
    pub user_initial: &'static str,
    pub user_name: &'static str,
    pub user_email: &'static str,
    pub user_premium: bool,
    pub recipe_id: String,
    pub attempt: u8,
    pub attempt_limit: u8,
}

/// What a [`EditAwaitingPage`] holds, as mathematical values.
#[verifier::ext_equal]
pub struct EditAwaitingPageModel {
    pub nav_items: Seq<NavItemModel>,
    pub user_initial: Seq<char>,
    pub user_name: Seq<char>,
    pub user_email: Seq<char>,
    pub user_premium: bool,
    pub recipe_id: Seq<char>,
    pub attempt: u8,
    pub attempt_limit: u8,
}

impl View for EditAwaitingPage {
    type V = EditAwaitingPageModel;

    open spec fn view(&self) -> EditAwaitingPageModel {
        EditAwaitingPageModel {
            nav_items: text::views(self.nav_items@),
            user_initial: self.user_initial@,
            user_name: self.user_name@,
            user_email: self.user_email@,
            user_premium: self.user_premium,
            recipe_id: self.recipe_id@,
            attempt: self.attempt,
            attempt_limit: self.attempt_limit,
        }
    }
}

/// The part of the edit page that waits.
#[derive(Debug, PartialEq)]
pub struct EditAwaitingFragment {
    pub recipe_id: String,
    pub attempt: u8,
    pub attempt_limit: u8,
}

/// What a [`EditAwaitingFragment`] holds, as mathematical values.
#[verifier::ext_equal]
pub struct EditAwaitingFragmentModel {
    pub recipe_id: Seq<char>,
    pub attempt: u8,
    pub attempt_limit: u8,
}

impl View for EditAwaitingFragment {
    type V = EditAwaitingFragmentModel;

    open spec fn view(&self) -> EditAwaitingFragmentModel {
        EditAwaitingFragmentModel {
            recipe_id: self.recipe_id@,
            attempt: self.attempt,
            attempt_limit: self.attempt_limit,
        }
    }
}

/// The query of the edit page. `confirm` asks for the second step of a
/// deletion; `awaiting` is set after a section was submitted, and `attempt`
/// counts how often the page was asked for since.
#[derive(Debug, PartialEq)]
pub struct EditQuery {
    pub confirm: u8,
    pub awaiting: u8,
    pub attempt: u8,
}

/// What a [`EditQuery`] holds, as mathematical values.
#[verifier::ext_equal]
pub struct EditQueryModel {
    pub confirm: u8,
    pub awaiting: u8,
    pub attempt: u8,
}

impl View for EditQuery {
    type V = EditQueryModel;

    open spec fn view(&self) -> EditQueryModel {
        EditQueryModel {
            confirm: self.confirm,
            awaiting: self.awaiting,
            attempt: self.attempt,
        }
    }
}

impl Clone for EditQuery {
    fn clone(&self) -> (res: Self)
        ensures
            res@ == self@,
    {
        EditQuery {
            confirm: self.confirm,
            awaiting: self.awaiting,
            attempt: self.attempt,
        }
    }
}

impl Default for EditQuery {
    fn default() -> (res: Self)
        ensures
            res@ == (EditQueryModel { confirm: 0, awaiting: 0, attempt: 0 }),
    {
        EditQuery { confirm: 0, awaiting: 0, attempt: 0 }
    }
}

/// How often the edit page is asked for again before it stops waiting.
pub const ATTEMPT_LIMIT: u8 = 5;

/// The pages of editing.
#[derive(Debug, PartialEq)]
pub enum EditScreen {
    Edit(EditRecipePage),
    Awaiting(EditAwaitingPage),
    AwaitingPart(EditAwaitingFragment),
    NotFound(RecipeNotFoundPage),
}

/// What a [`EditScreen`] holds, as mathematical values.
#[verifier::ext_equal]
pub enum EditScreenModel {
    Edit(EditRecipePageModel),
    Awaiting(EditAwaitingPageModel),
    AwaitingPart(EditAwaitingFragmentModel),
    NotFound(RecipeNotFoundPageModel),
}

impl View for EditScreen {
    type V = EditScreenModel;

    open spec fn view(&self) -> EditScreenModel {
        match self {
            EditScreen::Edit(inner) => EditScreenModel::Edit(inner@),
            EditScreen::Awaiting(inner) => EditScreenModel::Awaiting(inner@),
            EditScreen::AwaitingPart(inner) => EditScreenModel::AwaitingPart(inner@),
            EditScreen::NotFound(inner) => EditScreenModel::NotFound(inner@),
        }
    }
}

// ── The edit page ───────────────────────────────────────────────────────

/// How the minutes of a row are split over the two inputs: as the form for a
/// new recipe has them if they add up to that, and else all in the second.
pub open spec fn split_minutes(total: u32) -> (u32, u32) {
    if total == 45 {
        (15, 30)
    } else {
        (0, total)
    }
}

/// How the minutes of a row are split over the two inputs.
pub fn split_time_for_input(total: u32) -> (res: (u32, u32))
    ensures
        res == split_minutes(total),
{
    if total == 45 {
        (15, 30)
    } else {
        (0, total)
    }
}

/// Splitting the minutes loses none of them.
pub proof fn law_split_keeps_the_total(total: u32)
    ensures
        split_minutes(total).0 + split_minutes(total).1 == total,
{
}

/// The ingredient rows of the edit page. `numbers` holds the quantity of each
/// ingredient, written in decimal.
pub open spec fn edit_ingredients(
    ingredients: Seq<IngredientFactModel>,
    numbers: Seq<Seq<char>>,
) -> Seq<IngredientRowModel> {
    Seq::new(
        ingredients.len(),
        |i: int|
            IngredientRowModel {
                ing: IngredientInputModel {
                    quantity: if ingredients[i].quantity is Some {
                        numbers[i]
                    } else {
                        Seq::empty()
                    },
                    unit: ingredients[i].unit.slug_text(),
                    name: ingredients[i].name,
                },
                row_id: recipes_create::row_id("ing-", i),
                unit_options: recipes_create::units(ingredients[i].unit.slug_text()),
                err_quantity: None,
                err_name: None,
            },
    )
}

/// The step rows of the edit page.
pub open spec fn edit_steps(steps: Seq<StepFactModel>) -> Seq<StepRowModel> {
    Seq::new(
        steps.len(),
        |i: int|
            StepRowModel {
                step: StepInputModel {
                    wait_minutes: steps[i].wait_minutes,
                    text: steps[i].text,
                },
                row_id: recipes_create::row_id("step-", i),
                err_text: None,
            },
    )
}

/// The edit page of a row.
pub open spec fn edit_page_of(
    user: UserModel,
    row: RecipeRowModel,
    numbers: Seq<Seq<char>>,
    confirming: bool,
) -> EditRecipePageModel {
    let frame = web::chrome(user);
    let minutes = split_minutes(recipes::larger(row.time_minutes, 0) as u32);
    EditRecipePageModel {
        nav_items: frame.nav_items,
        user_initial: frame.user_initial,
        user_name: frame.user_name,
        user_email: frame.user_email,
        user_premium: frame.user_premium,
        recipe_id: row.id,
        title: row.title,
        cuisine: row.cuisine,
        description: row.description,
        prep_minutes: minutes.0,
        cook_minutes: minutes.1,
        servings: recipes::larger(row.servings, 1) as u32,
        meal_type_options: recipes_create::meal_types(row.meal_type),
        difficulty_options: recipes_create::difficulties(row.difficulty),
        tag_options: recipes_create::tags(json::texts_or_none(json::text_list_of(row.tags_json))),
        ingredient_rows: edit_ingredients(row.ingredients, numbers),
        step_rows: edit_steps(row.steps),
        err: None,
        summary_err: None,
        saved: false,
        confirming,
    }
}

/// The edit page of a row. `numbers` holds the quantity of each ingredient of
/// the row, written in decimal; what it holds for an ingredient without a
/// quantity does not matter.
pub fn build_edit_page(user: &User, row: &RecipeRow, numbers: &Vec<String>, confirming: bool) -> (
    res: EditRecipePage)
    requires
        numbers@.len() == row@.ingredients.len(),
    ensures
        res@ == edit_page_of(user@, row@, text::views(numbers@), confirming),
{
    let ghost rows = edit_ingredients(row@.ingredients, text::views(numbers@));
    let mut ingredient_rows: Vec<IngredientRow> = Vec::new();
    let mut i: usize = 0;
    while i < row.ingredients.len()
        invariant
            i <= row.ingredients.len(),
            numbers@.len() == row@.ingredients.len(),
            rows == edit_ingredients(row@.ingredients, text::views(numbers@)),
            text::views(ingredient_rows@) == rows.take(i as int),
        decreases row.ingredients.len() - i,
    {
        let ghost before = ingredient_rows@;
        let quantity: String = match row.ingredients[i].quantity {
            Some(_) => numbers[i].clone(),
            None => String::new(),
        };
        let slug: &'static str = row.ingredients[i].unit.slug();
        let number: String = text::decimal_text(i as u64);
        let shown = IngredientRow {
            ing: IngredientInput {
                quantity,
                unit: slug.to_owned(),
                name: row.ingredients[i].name.clone(),
            },
            row_id: text::join2("ing-", number.as_str()),
            unit_options: recipes_create::unit_options(slug),
            err_quantity: None,
            err_name: None,
        };
        proof {
            text::lemma_views_push(before, shown);
            assert(shown@ =~= rows[i as int]);
            assert(rows.take(i + 1) =~= rows.take(i as int).push(shown@));
        }
        ingredient_rows.push(shown);
        i += 1;
    }
    assert(rows.take(i as int) =~= rows);

    let ghost lines = edit_steps(row@.steps);
    let mut step_rows: Vec<StepRow> = Vec::new();
    let mut k: usize = 0;
    while k < row.steps.len()
        invariant
            k <= row.steps.len(),
            lines == edit_steps(row@.steps),
            text::views(step_rows@) == lines.take(k as int),
        decreases row.steps.len() - k,
    {
        let ghost before = step_rows@;
        let number: String = text::decimal_text(k as u64);
        let shown = StepRow {
            step: StepInput {
                wait_minutes: row.steps[k].wait_minutes,
                text: row.steps[k].text.clone(),
            },
            row_id: text::join2("step-", number.as_str()),
            err_text: None,
        };
        proof {
            text::lemma_views_push(before, shown);
            assert(lines.take(k + 1) =~= lines.take(k as int).push(shown@));
        }
        step_rows.push(shown);
        k += 1;
    }
    assert(lines.take(k as int) =~= lines);

    let (prep_minutes, cook_minutes): (u32, u32) = split_time_for_input(
        recipes::max_of(row.time_minutes, 0) as u32,
    );
    let chrome: Chrome = web::chrome_for(user);
    EditRecipePage {
        nav_items: chrome.nav_items,
        user_initial: chrome.user_initial,
        user_name: chrome.user_name,
        user_email: chrome.user_email,
        user_premium: chrome.user_premium,
        recipe_id: row.id.clone(),
        title: row.title.clone(),
        cuisine: row.cuisine.clone(),
        description: row.description.clone(),
        prep_minutes,
        cook_minutes,
        servings: recipes::max_of(row.servings, 1) as u32,
        meal_type_options: recipes_create::meal_type_options(row.meal_type.as_str()),
        difficulty_options: recipes_create::difficulty_options(row.difficulty.as_str()),
        tag_options: recipes_create::tag_options(&row.tags()),
        ingredient_rows,
        step_rows,
        err: None,
        summary_err: None,
        saved: false,
        confirming,
    }
}

/// The answer to a request for the edit page.
pub open spec fn edit_reply(
    user: UserModel,
    is_partial: bool,
    id: Seq<char>,
    q: EditQueryModel,
    row: Option<RecipeRowModel>,
    numbers: Seq<Seq<char>>,
) -> ReplyModel<EditScreenModel> {
    let frame = web::chrome(user);
    match row {
        None => ReplyModel::NotFound(
            EditScreenModel::NotFound(recipes::not_found_page(user, Seq::empty())),
        ),
        Some(r) => if q.awaiting > 0 && q.attempt < ATTEMPT_LIMIT {
            if is_partial {
                ReplyModel::Page(
                    EditScreenModel::AwaitingPart(
                        EditAwaitingFragmentModel {
                            recipe_id: id,
                            attempt: q.attempt,
                            attempt_limit: ATTEMPT_LIMIT,
                        },
                    ),
                )
            } else {
                ReplyModel::Page(
                    EditScreenModel::Awaiting(
                        EditAwaitingPageModel {
                            nav_items: frame.nav_items,
                            user_initial: frame.user_initial,
                            user_name: frame.user_name,
                            user_email: frame.user_email,
                            user_premium: frame.user_premium,
                            recipe_id: id,
                            attempt: q.attempt,
                            attempt_limit: ATTEMPT_LIMIT,
                        },
                    ),
                )
            }
        } else if q.awaiting > 0 && is_partial {
            ReplyModel::Location("/recipes/"@ + id + "/edit"@)
        } else {
            ReplyModel::Page(
                EditScreenModel::Edit(edit_page_of(user, r, numbers, q.confirm > 0)),
            )
        },
    }
}

/// A request for the edit page. `row` is the row of the recipe among those of
/// the user; a recipe of someone else's looks like one that is not there.
/// After a section was submitted the page waits for a while, and then sends a
/// request for a part to the page itself.
pub fn edit_page(
    user: &User,
    accept: Option<&str>,
    id: &str,
    q: &EditQuery,
    row: Option<RecipeRow>,
    numbers: &Vec<String>,
) -> (res: Reply<EditScreen>)
    requires
        row matches Some(r) ==> numbers@.len() == r@.ingredients.len(),
    ensures
        res@ == edit_reply(
            user@,
            web::partial(accept),
            id@,
            q@,
            text::opt_view(row),
            text::views(numbers@),
        ),
{
    let r: RecipeRow = match row {
        None => {
            return not_found_response(user);
        },
        Some(r) => r,
    };
    if q.awaiting > 0 {
        if q.attempt >= ATTEMPT_LIMIT {
            if web::wants_partial(accept) {
                return Reply::Location(text::join3("/recipes/", id, "/edit"));
            }
        } else {
            if web::wants_partial(accept) {
                return Reply::Page(
                    EditScreen::AwaitingPart(
                        EditAwaitingFragment {
                            recipe_id: id.to_owned(),
                            attempt: q.attempt,
                            attempt_limit: ATTEMPT_LIMIT,
                        },
                    ),
                );
            }
            let chrome: Chrome = web::chrome_for(user);
            return Reply::Page(
                EditScreen::Awaiting(
                    EditAwaitingPage {
                        nav_items: chrome.nav_items,
                        user_initial: chrome.user_initial,
                        user_name: chrome.user_name,
                        user_email: chrome.user_email,
                        user_premium: chrome.user_premium,
                        recipe_id: id.to_owned(),
                        attempt: q.attempt,
                        attempt_limit: ATTEMPT_LIMIT,
                    },
                ),
            );
        }
    }
    Reply::Page(EditScreen::Edit(build_edit_page(user, &r, numbers, q.confirm > 0)))
}

/// The answer for a recipe that is not there.
pub fn not_found_response(user: &User) -> (res: Reply<EditScreen>)
    ensures
        res@ == ReplyModel::NotFound(
            EditScreenModel::NotFound(recipes::not_found_page(user@, Seq::empty())),
        ),
{
    proof {
        reveal_strlit("");
        assert(""@ =~= Seq::<char>::empty());
    }
    Reply::NotFound(EditScreen::NotFound(recipes::recipe_not_found(user, "")))
}

// ── Sections ────────────────────────────────────────────────────────────

/// A section with an error: a request for a part gets it as any part, since
/// only then it is put in place; any other request gets it with status 422.
pub open spec fn section_error<M>(is_partial: bool, part: M) -> ReplyModel<M> {
    if is_partial {
        ReplyModel::Page(part)
    } else {
        ReplyModel::Unprocessable(part)
    }
}

/// A section that was saved: a request for a part gets it back; any other is
/// sent to the edit page, which waits.
pub open spec fn section_saved<M>(is_partial: bool, id: Seq<char>, part: M) -> ReplyModel<M> {
    if is_partial {
        ReplyModel::Page(part)
    } else {
        ReplyModel::Redirect("/recipes/"@ + id + "/edit?awaiting=1"@)
    }
}

/// A section with an error.
pub fn error_section_response<T: View>(accept: Option<&str>, part: T) -> (res: Reply<T>)
    ensures
        res@ == section_error(web::partial(accept), part@),
{
    if web::wants_partial(accept) {
        Reply::Page(part)
    } else {
        Reply::Unprocessable(part)
    }
}

/// A section that was saved.
pub fn saved_section_response<T: View>(accept: Option<&str>, id: &str, part: T) -> (res: Reply<T>)
    ensures
        res@ == section_saved(web::partial(accept), id@, part@),
{
    if web::wants_partial(accept) {
        Reply::Page(part)
    } else {
        Reply::Redirect(text::join3("/recipes/", id, "/edit?awaiting=1"))
    }
}

/// The value of the first field with the name `key` in a form body.
pub fn first_value(body: &[u8], key: &str) -> (res: Option<String>)
    ensures
        text::opt_view(res) == forms::first_of(forms::form_pairs(body@), key@),
{
    forms::first_in(&forms::fields(body), key)
}

/// The values of all fields with the name `key` in a form body.
pub fn all_values(body: &[u8], key: &str) -> (res: Vec<String>)
    ensures
        text::views(res@) == forms::all_of(forms::form_pairs(body@), key@),
{
    forms::all_in(&forms::fields(body), key)
}

// ── Title ───────────────────────────────────────────────────────────────

/// What the title section leads to.
pub open spec fn rename_step(
    user: UserModel,
    is_partial: bool,
    id: Seq<char>,
    title: Option<Seq<char>>,
) -> StepModel<RenameRecipeModel, EditTitleFragmentModel> {
    let given = forms::text_or(title, Seq::empty());
    if text::blank(given) {
        StepModel::Reply(
            section_error(
                is_partial,
                EditTitleFragmentModel {
                    recipe_id: id,
                    title: given,
                    err: Some("Add a title."@),
                    saved: false,
                },
            ),
        )
    } else {
        StepModel::Run(
            RenameRecipeModel {
                recipe_id: id,
                owner_id: user.id,
                new_title: text::trimmed(given),
            },
        )
    }
}

/// The title section, with the title that was submitted.
pub fn rename_section_of(user: &User, accept: Option<&str>, id: &str, title: Option<String>) -> (
    res: Step<RenameRecipe, EditTitleFragment>)
    ensures
        res@ == rename_step(user@, web::partial(accept), id@, text::opt_view(title)),
{
    let given: String = match title {
        Some(text) => text,
        None => String::new(),
    };
    proof {
        text::lemma_blank_iff_trimmed_empty(given@);
    }
    let trimmed: String = text::trim(given.as_str()).to_owned();
    if trimmed.as_str().is_empty() {
        return Step::Reply(
            error_section_response(
                accept,
                EditTitleFragment {
                    recipe_id: id.to_owned(),
                    title: given,
                    err: Some("Add a title.".to_owned()),
                    saved: false,
                },
            ),
        );
    }
    Step::Run(
        RenameRecipe {
            recipe_id: id.to_owned(),
            owner_id: web::owner_id(user),
            new_title: trimmed,
        },
    )
}

/// The title section is submitted: a title that is not blank becomes a
/// command.
pub fn rename_section(user: &User, accept: Option<&str>, id: &str, body: &[u8]) -> (res: Step<
    RenameRecipe,
    EditTitleFragment,
>)
    ensures
        res@ == rename_step(
            user@,
            web::partial(accept),
            id@,
            forms::first_of(forms::form_pairs(body@), "title"@),
        ),
{
    rename_section_of(user, accept, id, first_value(body, "title"))
}

/// The title section as it is shown.
pub open spec fn title_part(
    cmd: RenameRecipeModel,
    err: Option<Seq<char>>,
    saved: bool,
) -> EditTitleFragmentModel {
    EditTitleFragmentModel { recipe_id: cmd.recipe_id, title: cmd.new_title, err, saved }
}

/// The answer to a title section whose command was carried out, with what
/// went wrong.
pub open spec fn rename_answer(
    is_partial: bool,
    cmd: RenameRecipeModel,
    failure: Option<Seq<char>>,
) -> ReplyModel<EditTitleFragmentModel> {
    match failure {
        None => section_saved(is_partial, cmd.recipe_id, title_part(cmd, None, true)),
        Some(message) => section_error(is_partial, title_part(cmd, Some(message), false)),
    }
}

/// The answer once the title is changed, or is not.
pub fn rename_section_done(accept: Option<&str>, cmd: &RenameRecipe, result: Result<(), String>) -> (
    res: Reply<EditTitleFragment>)
    ensures
        res@ == rename_answer(web::partial(accept), cmd@, web::outcome(result)),
{
    let recipe_id: String = cmd.recipe_id.clone();
    let title: String = cmd.new_title.clone();
    match result {
        Ok(_) => saved_section_response(
            accept,
            cmd.recipe_id.as_str(),
            EditTitleFragment { recipe_id, title, err: None, saved: true },
        ),
        Err(message) => error_section_response(
            accept,
            EditTitleFragment { recipe_id, title, err: Some(message), saved: false },
        ),
    }
}

// ── Categorization ──────────────────────────────────────────────────────

/// The command of the categorization section. An unknown meal type is taken
/// for a main course; the emoji is that of the meal type.
pub open spec fn recategorize_command(
    user: UserModel,
    id: Seq<char>,
    pairs: Seq<(Seq<char>, Seq<char>)>,
) -> RecategorizeRecipeModel {
    RecategorizeRecipeModel {
        recipe_id: id,
        owner_id: user.id,
        meal_type: recipe::meal_type_or_main(
            forms::text_or(forms::first_of(pairs, "meal_type"@), Seq::empty()),
        ),
        cuisine: forms::text_or(forms::first_of(pairs, "cuisine"@), Seq::empty()),
        emoji: Seq::empty(),
    }
}

/// The categorization section, with the fields that were submitted.
pub fn recategorize_section_of(user: &User, id: &str, pairs: &Vec<(String, String)>) -> (res:
    RecategorizeRecipe)
    ensures
        res@ == recategorize_command(user@, id@, text::views(pairs@)),
{
    proof {
        reveal_strlit("");
        assert(""@ =~= Seq::<char>::empty());
    }
    let meal_type_raw: String = forms::take_or(forms::first_in(pairs, "meal_type"), "");
    let cuisine: String = forms::take_or(forms::first_in(pairs, "cuisine"), "");
    RecategorizeRecipe {
        recipe_id: id.to_owned(),
        owner_id: web::owner_id(user),
        meal_type: MealType::parse_or_main(meal_type_raw.as_str()),
        cuisine,
        emoji: String::new(),
    }
}

/// The categorization section is submitted: it always becomes a command.
pub fn recategorize_section(user: &User, id: &str, body: &[u8]) -> (res: RecategorizeRecipe)
    ensures
        res@ == recategorize_command(user@, id@, forms::form_pairs(body@)),
{
    recategorize_section_of(user, id, &forms::fields(body))
}

/// The categorization section as it is shown.
pub open spec fn categorization_part(
    cmd: RecategorizeRecipeModel,
    err: Option<Seq<char>>,
    saved: bool,
) -> EditCategorizationFragmentModel {
    EditCategorizationFragmentModel {
        recipe_id: cmd.recipe_id,
        cuisine: cmd.cuisine,
        meal_type_options: recipes_create::meal_types(cmd.meal_type.slug_text()),
        err,
        saved,
    }
}

/// The answer to a categorization section whose command was carried out, with what
/// went wrong.
pub open spec fn recategorize_answer(
    is_partial: bool,
    cmd: RecategorizeRecipeModel,
    failure: Option<Seq<char>>,
) -> ReplyModel<EditCategorizationFragmentModel> {
    match failure {
        None => section_saved(is_partial, cmd.recipe_id, categorization_part(cmd, None, true)),
        Some(message) => section_error(is_partial, categorization_part(cmd, Some(message), false)),
    }
}

/// The answer once the categorization is changed, or is not.
pub fn recategorize_section_done(
    accept: Option<&str>,
    cmd: &RecategorizeRecipe,
    result: Result<(), String>,
) -> (res: Reply<EditCategorizationFragment>)
    ensures
        res@ == recategorize_answer(web::partial(accept), cmd@, web::outcome(result)),
{
    let saved: bool = result.is_ok();
    let err: Option<String> = result.err();
    let part = EditCategorizationFragment {
        recipe_id: cmd.recipe_id.clone(),
        cuisine: cmd.cuisine.clone(),
        meal_type_options: recipes_create::meal_type_options(cmd.meal_type.slug()),
        err,
        saved,
    };
    if saved {
        saved_section_response(accept, cmd.recipe_id.as_str(), part)
    } else {
        error_section_response(accept, part)
    }
}

// ── Timing ──────────────────────────────────────────────────────────────

/// The command of the timing section. Minutes that are no number are taken as
/// none; there is at least one serving.
pub open spec fn retime_command(
    user: UserModel,
    id: Seq<char>,
    pairs: Seq<(Seq<char>, Seq<char>)>,
) -> RetimeRecipeModel {
    RetimeRecipeModel {
        recipe_id: id,
        owner_id: user.id,
        prep_minutes: forms::number_or(forms::first_of(pairs, "prep_minutes"@), 0),
        cook_minutes: forms::number_or(forms::first_of(pairs, "cook_minutes"@), 0),
        servings: forms::at_least_one(forms::number_or(forms::first_of(pairs, "servings"@), 1)),
        difficulty: forms::text_or(forms::first_of(pairs, "difficulty"@), "Medium"@),
    }
}

/// The timing section, with the fields that were submitted.
pub fn retime_section_of(user: &User, id: &str, pairs: &Vec<(String, String)>) -> (res:
    RetimeRecipe)
    ensures
        res@ == retime_command(user@, id@, text::views(pairs@)),
{
    RetimeRecipe {
        recipe_id: id.to_owned(),
        owner_id: web::owner_id(user),
        prep_minutes: forms::parse_or(&forms::first_in(pairs, "prep_minutes"), 0),
        cook_minutes: forms::parse_or(&forms::first_in(pairs, "cook_minutes"), 0),
        servings: forms::one_or_more(forms::parse_or(&forms::first_in(pairs, "servings"), 1)),
        difficulty: forms::take_or(forms::first_in(pairs, "difficulty"), "Medium"),
    }
}

/// The timing section is submitted: it always becomes a command.
pub fn retime_section(user: &User, id: &str, body: &[u8]) -> (res: RetimeRecipe)
    ensures
        res@ == retime_command(user@, id@, forms::form_pairs(body@)),
{
    retime_section_of(user, id, &forms::fields(body))
}

/// The timing section as it is shown.
pub open spec fn timing_part(
    cmd: RetimeRecipeModel,
    err: Option<Seq<char>>,
    saved: bool,
) -> EditTimingFragmentModel {
    EditTimingFragmentModel {
        recipe_id: cmd.recipe_id,
        prep_minutes: cmd.prep_minutes,
        cook_minutes: cmd.cook_minutes,
        servings: cmd.servings,
        difficulty_options: recipes_create::difficulties(cmd.difficulty),
        err,
        saved,
    }
}

fn timing_fragment(cmd: &RetimeRecipe, err: Option<String>, saved: bool) -> (res:
    EditTimingFragment)
    ensures
        res@ == timing_part(cmd@, text::opt_view(err), saved),
{
    EditTimingFragment {
        recipe_id: cmd.recipe_id.clone(),
        prep_minutes: cmd.prep_minutes,
        cook_minutes: cmd.cook_minutes,
        servings: cmd.servings,
        difficulty_options: recipes_create::difficulty_options(cmd.difficulty.as_str()),
        err,
        saved,
    }
}

/// The answer to a timing section whose command was carried out, with what
/// went wrong.
pub open spec fn retime_answer(
    is_partial: bool,
    cmd: RetimeRecipeModel,
    failure: Option<Seq<char>>,
) -> ReplyModel<EditTimingFragmentModel> {
    match failure {
        None => section_saved(is_partial, cmd.recipe_id, timing_part(cmd, None, true)),
        Some(message) => section_error(is_partial, timing_part(cmd, Some(message), false)),
    }
}

/// The answer once the timing is changed, or is not.
pub fn retime_section_done(accept: Option<&str>, cmd: &RetimeRecipe, result: Result<(), String>) -> (
    res: Reply<EditTimingFragment>)
    ensures
        res@ == retime_answer(web::partial(accept), cmd@, web::outcome(result)),
{
    match result {
        Ok(_) => saved_section_response(
            accept,
            cmd.recipe_id.as_str(),
            timing_fragment(cmd, None, true),
        ),
        Err(message) => error_section_response(accept, timing_fragment(cmd, Some(message), false)),
    }
}

// ── Description ─────────────────────────────────────────────────────────

/// The command of the description section.
pub open spec fn redescribe_command(
    user: UserModel,
    id: Seq<char>,
    description: Option<Seq<char>>,
) -> RedescribeRecipeModel {
    RedescribeRecipeModel {
        recipe_id: id,
        owner_id: user.id,
        description: forms::text_or(description, Seq::empty()),
    }
}

/// The description section, with the description that was submitted; none is
/// taken as an empty one.
pub fn redescribe_section_of(user: &User, id: &str, description: Option<String>) -> (res:
    RedescribeRecipe)
    ensures
        res@ == redescribe_command(user@, id@, text::opt_view(description)),
{
    let given: String = match description {
        Some(text) => text,
        None => String::new(),
    };
    RedescribeRecipe {
        recipe_id: id.to_owned(),
        owner_id: web::owner_id(user),
        description: given,
    }
}

/// The description section is submitted: it always becomes a command.
pub fn redescribe_section(user: &User, id: &str, body: &[u8]) -> (res: RedescribeRecipe)
    ensures
        res@ == redescribe_command(
            user@,
            id@,
            forms::first_of(forms::form_pairs(body@), "description"@),
        ),
{
    redescribe_section_of(user, id, first_value(body, "description"))
}

/// The description section as it is shown.
pub open spec fn description_part(
    cmd: RedescribeRecipeModel,
    err: Option<Seq<char>>,
    saved: bool,
) -> EditDescriptionFragmentModel {
    EditDescriptionFragmentModel {
        recipe_id: cmd.recipe_id,
        description: cmd.description,
        err,
        saved,
    }
}

/// The answer to a description section whose command was carried out, with what
/// went wrong.
pub open spec fn redescribe_answer(
    is_partial: bool,
    cmd: RedescribeRecipeModel,
    failure: Option<Seq<char>>,
) -> ReplyModel<EditDescriptionFragmentModel> {
    match failure {
        None => section_saved(is_partial, cmd.recipe_id, description_part(cmd, None, true)),
        Some(message) => section_error(is_partial, description_part(cmd, Some(message), false)),
    }
}

/// The answer once the description is changed, or is not.
pub fn redescribe_section_done(
    accept: Option<&str>,
    cmd: &RedescribeRecipe,
    result: Result<(), String>,
) -> (res: Reply<EditDescriptionFragment>)
    ensures
        res@ == redescribe_answer(web::partial(accept), cmd@, web::outcome(result)),
{
    let saved: bool = result.is_ok();
    let err: Option<String> = result.err();
    let part = EditDescriptionFragment {
        recipe_id: cmd.recipe_id.clone(),
        description: cmd.description.clone(),
        err,
        saved,
    };
    if saved {
        saved_section_response(accept, cmd.recipe_id.as_str(), part)
    } else {
        error_section_response(accept, part)
    }
}

// ── Tags ────────────────────────────────────────────────────────────────

/// The command of the tags section.
pub open spec fn retag_command(
    user: UserModel,
    id: Seq<char>,
    tags: Seq<Seq<char>>,
) -> RetagRecipeModel {
    RetagRecipeModel { recipe_id: id, owner_id: user.id, tags }
}

/// The tags section, with the tags that were submitted.
pub fn retag_section_of(user: &User, id: &str, tags: Vec<String>) -> (res: RetagRecipe)
    ensures
        res@ == retag_command(user@, id@, text::views(tags@)),
{
    RetagRecipe { recipe_id: id.to_owned(), owner_id: web::owner_id(user), tags }
}

/// The tags section is submitted: it always becomes a command.
pub fn retag_section(user: &User, id: &str, body: &[u8]) -> (res: RetagRecipe)
    ensures
        res@ == retag_command(user@, id@, forms::all_of(forms::form_pairs(body@), "tag"@)),
{
    retag_section_of(user, id, all_values(body, "tag"))
}

/// The tags section as it is shown.
pub open spec fn tags_part(
    cmd: RetagRecipeModel,
    err: Option<Seq<char>>,
    saved: bool,
) -> EditTagsFragmentModel {
    EditTagsFragmentModel {
        recipe_id: cmd.recipe_id,
        tag_options: recipes_create::tags(cmd.tags),
        err,
        saved,
    }
}

/// The answer to a tags section whose command was carried out, with what
/// went wrong.
pub open spec fn retag_answer(
    is_partial: bool,
    cmd: RetagRecipeModel,
    failure: Option<Seq<char>>,
) -> ReplyModel<EditTagsFragmentModel> {
    match failure {
        None => section_saved(is_partial, cmd.recipe_id, tags_part(cmd, None, true)),
        Some(message) => section_error(is_partial, tags_part(cmd, Some(message), false)),
    }
}

/// The answer once the tags are changed, or are not.
pub fn retag_section_done(accept: Option<&str>, cmd: &RetagRecipe, result: Result<(), String>) -> (
    res: Reply<EditTagsFragment>)
    ensures
        res@ == retag_answer(web::partial(accept), cmd@, web::outcome(result)),
{
    let saved: bool = result.is_ok();
    let err: Option<String> = result.err();
    let part = EditTagsFragment {
        recipe_id: cmd.recipe_id.clone(),
        tag_options: recipes_create::tag_options(&cmd.tags),
        err,
        saved,
    };
    if saved {
        saved_section_response(accept, cmd.recipe_id.as_str(), part)
    } else {
        error_section_response(accept, part)
    }
}

// ── Rows ────────────────────────────────────────────────────────────────

/// The number of the row at position `i`, counting from `first` and going on
/// at zero after the largest number.
pub open spec fn serial(first: u64, i: int) -> u64 {
    ((first + i) % 0x1_0000_0000_0000_0000) as u64
}

/// The id of a row: its position and its number.
pub open spec fn edit_row_id(prefix: &str, i: int, first: u64) -> Seq<char> {
    prefix@ + text::decimal(i as nat) + "-"@ + text::decimal(serial(first, i) as nat)
}

fn row_id_text(prefix: &str, i: usize, first: u64) -> (res: String)
    ensures
        res@ == edit_row_id(prefix, i as int, first),
{
    let place: String = text::decimal_text(i as u64);
    let number: String = text::decimal_text(first.wrapping_add(i as u64));
    let head: String = text::join3(prefix, place.as_str(), "-");
    head.concat(number.as_str())
}

/// The ingredient rows of a section that was submitted. `first` is the number of
/// the first row; the rows after it have the numbers that follow.
pub open spec fn ing_rows(inputs: Seq<IngredientInputModel>, first: u64) -> Seq<IngredientRowModel> {
    Seq::new(
        inputs.len(),
        |i: int|
            IngredientRowModel {
                ing: inputs[i],
                row_id: edit_row_id("ing-edit-", i, first),
                unit_options: recipes_create::units(inputs[i].unit),
                err_quantity: None,
                err_name: None,
            },
    )
}

/// The ingredient rows of a section that was submitted. No row that the process
/// showed before has a number from `first` on.
pub fn rows_for_ingredients(inputs: &Vec<IngredientInput>, first: u64) -> (res: Vec<IngredientRow>)
    ensures
        text::views(res@) == ing_rows(text::views(inputs@), first),
{
    let ghost all = ing_rows(text::views(inputs@), first);
    let mut out: Vec<IngredientRow> = Vec::new();
    let mut i: usize = 0;
    while i < inputs.len()
        invariant
            i <= inputs.len(),
            all == ing_rows(text::views(inputs@), first),
            text::views(out@) == all.take(i as int),
        decreases inputs.len() - i,
    {
        let ghost before = out@;
        let row = IngredientRow {
            ing: inputs[i].clone(),
            row_id: row_id_text("ing-edit-", i, first),
            unit_options: recipes_create::unit_options(inputs[i].unit.as_str()),
            err_quantity: None,
            err_name: None,
        };
        proof {
            text::lemma_views_push(before, row);
            assert(all.take(i + 1) =~= all.take(i as int).push(row@));
        }
        out.push(row);
        i += 1;
    }
    assert(all.take(i as int) =~= all);
    out
}

/// The step rows of a section that was submitted. `first` is the number of
/// the first row; the rows after it have the numbers that follow.
pub open spec fn step_rows(inputs: Seq<StepInputModel>, first: u64) -> Seq<StepRowModel> {
    Seq::new(
        inputs.len(),
        |i: int|
            StepRowModel {
                step: inputs[i],
                row_id: edit_row_id("step-edit-", i, first),
                err_text: None,
            },
    )
}

/// The step rows of a section that was submitted. No row that the process
/// showed before has a number from `first` on.
pub fn rows_for_steps(inputs: &Vec<StepInput>, first: u64) -> (res: Vec<StepRow>)
    ensures
        text::views(res@) == step_rows(text::views(inputs@), first),
{
    let ghost all = step_rows(text::views(inputs@), first);
    let mut out: Vec<StepRow> = Vec::new();
    let mut i: usize = 0;
    while i < inputs.len()
        invariant
            i <= inputs.len(),
            all == step_rows(text::views(inputs@), first),
            text::views(out@) == all.take(i as int),
        decreases inputs.len() - i,
    {
        let ghost before = out@;
        let row = StepRow {
            step: inputs[i].clone(),
            row_id: row_id_text("step-edit-", i, first),
            err_text: None,
        };
        proof {
            text::lemma_views_push(before, row);
            assert(all.take(i + 1) =~= all.take(i as int).push(row@));
        }
        out.push(row);
        i += 1;
    }
    assert(all.take(i as int) =~= all);
    out
}

// ── Ingredients ─────────────────────────────────────────────────────────

/// The rows that have a name.
pub open spec fn named_inputs() -> spec_fn(IngredientInputModel) -> bool {
    |row: IngredientInputModel| !text::blank(row.name)
}

/// The ingredient rows of a form body.
pub fn parse_ingredient_inputs(body: &[u8]) -> (res: Vec<IngredientInput>)
    ensures
        text::views(res@) == recipes_create::ingredient_inputs(forms::form_pairs(body@)),
{
    recipes_create::ingredient_inputs_in(&forms::fields(body))
}

/// The ingredients section as it is shown.
pub open spec fn ingredients_part(
    id: Seq<char>,
    inputs: Seq<IngredientInputModel>,
    first: u64,
    summary_err: Option<Seq<char>>,
    saved: bool,
) -> EditIngredientsFragmentModel {
    EditIngredientsFragmentModel {
        recipe_id: id,
        ingredient_rows: ing_rows(inputs, first),
        summary_err,
        saved,
    }
}

/// What the ingredients section leads to.
pub open spec fn ingredients_step(
    user: UserModel,
    is_partial: bool,
    id: Seq<char>,
    inputs: Seq<IngredientInputModel>,
    quantities: Seq<Option<Quantity>>,
    first: u64,
) -> StepModel<ReplaceIngredientsModel, EditIngredientsFragmentModel> {
    if recipes_create::any_named(inputs) {
        StepModel::Run(
            ReplaceIngredientsModel {
                recipe_id: id,
                owner_id: user.id,
                ingredients: recipes_create::facts(inputs, quantities),
            },
        )
    } else {
        StepModel::Reply(
            section_error(
                is_partial,
                ingredients_part(id, inputs, first, Some("Add at least one ingredient."@), false),
            ),
        )
    }
}

/// The ingredients section is submitted: rows of which one has a name become
/// a command. `quantities` holds what the quantity field of each row was read
/// as; no row shown before has a number from `first` on.
pub fn ingredients_section(
    user: &User,
    accept: Option<&str>,
    id: &str,
    inputs: &Vec<IngredientInput>,
    quantities: &Vec<Option<Quantity>>,
    first: u64,
) -> (res: Step<ReplaceIngredients, EditIngredientsFragment>)
    requires
        quantities@.len() == inputs@.len(),
    ensures
        res@ == ingredients_step(
            user@,
            web::partial(accept),
            id@,
            text::views(inputs@),
            quantities@,
            first,
        ),
{
    if !recipes_create::has_named(inputs) {
        return Step::Reply(
            error_section_response(
                accept,
                EditIngredientsFragment {
                    recipe_id: id.to_owned(),
                    ingredient_rows: rows_for_ingredients(inputs, first),
                    summary_err: Some("Add at least one ingredient.".to_owned()),
                    saved: false,
                },
            ),
        );
    }
    Step::Run(
        ReplaceIngredients {
            recipe_id: id.to_owned(),
            owner_id: web::owner_id(user),
            ingredients: recipes_create::ingredient_facts(inputs, quantities),
        },
    )
}

fn kept_ingredients(inputs: &Vec<IngredientInput>) -> (res: Vec<IngredientInput>)
    ensures
        text::views(res@) == text::views(inputs@).filter(named_inputs()),
{
    let ghost all = text::views(inputs@);
    let mut kept: Vec<IngredientInput> = Vec::new();
    let mut i: usize = 0;
    assert(text::views(kept@) =~= all.take(0).filter(named_inputs())) by {
        reveal(Seq::filter);
    }
    while i < inputs.len()
        invariant
            i <= inputs.len(),
            all == text::views(inputs@),
            text::views(kept@) == all.take(i as int).filter(named_inputs()),
        decreases inputs.len() - i,
    {
        let ghost before = kept@;
        proof {
            text::lemma_filter_take(all, named_inputs(), i as int);
        }
        if !text::is_blank(inputs[i].name.as_str()) {
            let row: IngredientInput = inputs[i].clone();
            proof {
                text::lemma_views_push(before, row);
            }
            kept.push(row);
        }
        i += 1;
    }
    assert(all.take(i as int) =~= all);
    kept
}

/// The answer to an ingredients section whose command was carried out, with what
/// went wrong.
pub open spec fn ingredients_answer(
    is_partial: bool,
    id: Seq<char>,
    inputs: Seq<IngredientInputModel>,
    first: u64,
    failure: Option<Seq<char>>,
) -> ReplyModel<EditIngredientsFragmentModel> {
    match failure {
        None => section_saved(
            is_partial,
            id,
            ingredients_part(id, inputs.filter(named_inputs()), first, None, true),
        ),
        Some(message) => section_error(
            is_partial,
            ingredients_part(id, inputs, first, Some(message), false),
        ),
    }
}

/// The answer once the ingredients are replaced, or are not. What was saved
/// is shown without the rows that have no name.
pub fn ingredients_section_done(
    accept: Option<&str>,
    id: &str,
    inputs: &Vec<IngredientInput>,
    first: u64,
    result: Result<(), String>,
) -> (res: Reply<EditIngredientsFragment>)
    ensures
        res@ == ingredients_answer(
            web::partial(accept),
            id@,
            text::views(inputs@),
            first,
            web::outcome(result),
        ),
{
    match result {
        Ok(_) => {
            let kept: Vec<IngredientInput> = kept_ingredients(inputs);
            saved_section_response(
                accept,
                id,
                EditIngredientsFragment {
                    recipe_id: id.to_owned(),
                    ingredient_rows: rows_for_ingredients(&kept, first),
                    summary_err: None,
                    saved: true,
                },
            )
        },
        Err(message) => error_section_response(
            accept,
            EditIngredientsFragment {
                recipe_id: id.to_owned(),
                ingredient_rows: rows_for_ingredients(inputs, first),
                summary_err: Some(message),
                saved: false,
            },
        ),
    }
}

// ── Steps ───────────────────────────────────────────────────────────────

/// The rows that have a text.
pub open spec fn worded_inputs() -> spec_fn(StepInputModel) -> bool {
    |row: StepInputModel| !text::blank(row.text)
}

/// The step rows of a form body.
pub fn parse_step_inputs(body: &[u8]) -> (res: Vec<StepInput>)
    ensures
        text::views(res@) == recipes_create::step_inputs(forms::form_pairs(body@)),
{
    recipes_create::step_inputs_in(&forms::fields(body))
}

/// The steps section as it is shown.
pub open spec fn steps_part(
    id: Seq<char>,
    inputs: Seq<StepInputModel>,
    first: u64,
    summary_err: Option<Seq<char>>,
    saved: bool,
) -> EditStepsFragmentModel {
    EditStepsFragmentModel {
        recipe_id: id,
        step_rows: step_rows(inputs, first),
        summary_err,
        saved,
    }
}

/// What the steps section leads to.
pub open spec fn steps_step(
    user: UserModel,
    is_partial: bool,
    id: Seq<char>,
    inputs: Seq<StepInputModel>,
    first: u64,
) -> StepModel<ReplaceStepsModel, EditStepsFragmentModel> {
    if recipes_create::any_worded(inputs) {
        StepModel::Run(
            ReplaceStepsModel {
                recipe_id: id,
                owner_id: user.id,
                steps: recipes_create::step_facts(inputs),
            },
        )
    } else {
        StepModel::Reply(
            section_error(
                is_partial,
                steps_part(id, inputs, first, Some("Add at least one step."@), false),
            ),
        )
    }
}

/// The steps section is submitted: rows of which one has a text become
/// a command. No row shown before has a number from `first` on.
pub fn steps_section(
    user: &User,
    accept: Option<&str>,
    id: &str,
    inputs: &Vec<StepInput>,
    first: u64,
) -> (res: Step<ReplaceSteps, EditStepsFragment>)
    ensures
        res@ == steps_step(user@, web::partial(accept), id@, text::views(inputs@), first),
{
    if !recipes_create::has_worded(inputs) {
        return Step::Reply(
            error_section_response(
                accept,
                EditStepsFragment {
                    recipe_id: id.to_owned(),
                    step_rows: rows_for_steps(inputs, first),
                    summary_err: Some("Add at least one step.".to_owned()),
                    saved: false,
                },
            ),
        );
    }
    Step::Run(
        ReplaceSteps {
            recipe_id: id.to_owned(),
            owner_id: web::owner_id(user),
            steps: recipes_create::facts_of_steps(inputs),
        },
    )
}

fn kept_steps(inputs: &Vec<StepInput>) -> (res: Vec<StepInput>)
    ensures
        text::views(res@) == text::views(inputs@).filter(worded_inputs()),
{
    let ghost all = text::views(inputs@);
    let mut kept: Vec<StepInput> = Vec::new();
    let mut i: usize = 0;
    assert(text::views(kept@) =~= all.take(0).filter(worded_inputs())) by {
        reveal(Seq::filter);
    }
    while i < inputs.len()
        invariant
            i <= inputs.len(),
            all == text::views(inputs@),
            text::views(kept@) == all.take(i as int).filter(worded_inputs()),
        decreases inputs.len() - i,
    {
        let ghost before = kept@;
        proof {
            text::lemma_filter_take(all, worded_inputs(), i as int);
        }
        if !text::is_blank(inputs[i].text.as_str()) {
            let row: StepInput = inputs[i].clone();
            proof {
                text::lemma_views_push(before, row);
            }
            kept.push(row);
        }
        i += 1;
    }
    assert(all.take(i as int) =~= all);
    kept
}

/// The answer to a steps section whose command was carried out, with what
/// went wrong.
pub open spec fn steps_answer(
    is_partial: bool,
    id: Seq<char>,
    inputs: Seq<StepInputModel>,
    first: u64,
    failure: Option<Seq<char>>,
) -> ReplyModel<EditStepsFragmentModel> {
    match failure {
        None => section_saved(
            is_partial,
            id,
            steps_part(id, inputs.filter(worded_inputs()), first, None, true),
        ),
        Some(message) => section_error(
            is_partial,
            steps_part(id, inputs, first, Some(message), false),
        ),
    }
}

/// The answer once the steps are replaced, or are not. What was saved
/// is shown without the rows that have no text.
pub fn steps_section_done(
    accept: Option<&str>,
    id: &str,
    inputs: &Vec<StepInput>,
    first: u64,
    result: Result<(), String>,
) -> (res: Reply<EditStepsFragment>)
    ensures
        res@ == steps_answer(
            web::partial(accept),
            id@,
            text::views(inputs@),
            first,
            web::outcome(result),
        ),
{
    match result {
        Ok(_) => {
            let kept: Vec<StepInput> = kept_steps(inputs);
            saved_section_response(
                accept,
                id,
                EditStepsFragment {
                    recipe_id: id.to_owned(),
                    step_rows: rows_for_steps(&kept, first),
                    summary_err: None,
                    saved: true,
                },
            )
        },
        Err(message) => error_section_response(
            accept,
            EditStepsFragment {
                recipe_id: id.to_owned(),
                step_rows: rows_for_steps(inputs, first),
                summary_err: Some(message),
                saved: false,
            },
        ),
    }
}

// ── Deletion ────────────────────────────────────────────────────────────

/// The command of a deletion.
pub open spec fn delete_command(user: UserModel, id: Seq<char>) -> DeleteRecipeModel {
    DeleteRecipeModel { recipe_id: id, owner_id: user.id }
}

/// A deletion is submitted: it always becomes a command.
pub fn delete_section(user: &User, id: &str) -> (res: DeleteRecipe)
    ensures
        res@ == delete_command(user@, id@),
{
    DeleteRecipe { recipe_id: id.to_owned(), owner_id: web::owner_id(user) }
}

/// The answer to a deletion that was carried out, with what went wrong.
pub open spec fn delete_answer(failure: Option<Seq<char>>) -> ReplyModel<EditScreenModel> {
    match failure {
        None => ReplyModel::Redirect("/recipes"@),
        Some(message) => ReplyModel::Plain(500, message),
    }
}

/// The answer once the recipe is deleted, or is not: the list, or the failure
/// with status 500.
pub fn delete_section_done(result: Result<(), String>) -> (res: Reply<EditScreen>)
    ensures
        res@ == delete_answer(web::outcome(result)),
{
    match result {
        Ok(_) => Reply::Redirect("/recipes".to_owned()),
        Err(message) => Reply::Plain(500, message),
    }
}

// ── What holds of editing ───────────────────────────────────────────────

/// A section that became a command fails only for what the recipe is or is
/// not: the fields of the command are always in order.
pub proof fn law_section_commands_are_in_order(
    user: UserModel,
    is_partial: bool,
    id: Seq<char>,
    title: Option<Seq<char>>,
    pairs: Seq<(Seq<char>, Seq<char>)>,
    inputs: Seq<IngredientInputModel>,
    quantities: Seq<Option<Quantity>>,
    lines: Seq<StepInputModel>,
)
    requires
        quantities.len() == inputs.len(),
    ensures
        rename_step(user, is_partial, id, title) matches StepModel::Run(cmd) ==> recipe::renamed(
            cmd,
        ) is Ok,
        recipe::recategorized(recategorize_command(user, id, pairs)) is Ok,
        recipe::retimed(retime_command(user, id, pairs)) is Ok,
        recipes_create::any_named(inputs) ==> recipe::ingredients_replaced(
            ReplaceIngredientsModel {
                recipe_id: id,
                owner_id: user.id,
                ingredients: recipes_create::facts(inputs, quantities),
            },
        ) is Ok,
        recipes_create::any_worded(lines) ==> recipe::steps_replaced(
            ReplaceStepsModel {
                recipe_id: id,
                owner_id: user.id,
                steps: recipes_create::step_facts(lines),
            },
        ) is Ok,
{
    let given = forms::text_or(title, Seq::empty());
    text::lemma_blank_iff_trimmed_empty(given);
    text::lemma_trimmed_twice(given);
    text::lemma_blank_iff_trimmed_empty(text::trimmed(given));
    if recipes_create::any_named(inputs) {
        let i = choose|i: int|
            0 <= i < inputs.len() && !text::blank((#[trigger] inputs[i]).name);
        let all = recipes_create::facts(inputs, quantities);
        assert(all[i].name == inputs[i].name);
        recipe::lemma_filter_nonempty(all, recipe::named(), i);
    }
    if recipes_create::any_worded(lines) {
        let k = choose|k: int| 0 <= k < lines.len() && !text::blank((#[trigger] lines[k]).text);
        let all = recipes_create::step_facts(lines);
        assert(all[k].text == lines[k].text);
        recipe::lemma_filter_nonempty(all, recipe::worded(), k);
    }
}

/// No row of a section that was submitted has the id of a row that the edit
/// page was first shown with, and no two rows of a section have the same id.
pub proof fn law_edit_row_ids_differ(i: int, j: int, first: u64)
    requires
        0 <= i,
        0 <= j,
    ensures
        edit_row_id("ing-edit-", i, first) == edit_row_id("ing-edit-", j, first) ==> i == j,
        edit_row_id("step-edit-", i, first) == edit_row_id("step-edit-", j, first) ==> i == j,
        edit_row_id("ing-edit-", i, first) != recipes_create::row_id("ing-", j),
        edit_row_id("step-edit-", i, first) != recipes_create::row_id("step-", j),
{
    reveal_strlit("ing-edit-");
    reveal_strlit("step-edit-");
    reveal_strlit("ing-");
    reveal_strlit("step-");
    lemma_places_differ("ing-edit-", i, j, first);
    lemma_places_differ("step-edit-", i, j, first);
    text::lemma_decimal_digits(j as nat);
    let number = text::decimal(j as nat);
    assert(edit_row_id("ing-edit-", i, first)[4] == 'e');
    assert(recipes_create::row_id("ing-", j)[4] == number[0]);
    assert(edit_row_id("step-edit-", i, first)[5] == 'e');
    assert(recipes_create::row_id("step-", j)[5] == number[0]);
}

proof fn lemma_places_differ(prefix: &str, i: int, j: int, first: u64)
    requires
        0 <= i,
        0 <= j,
    ensures
        edit_row_id(prefix, i, first) == edit_row_id(prefix, j, first) ==> i == j,
{
    reveal_strlit("-");
    let a = text::decimal(i as nat);
    let b = text::decimal(j as nat);
    text::lemma_decimal_digits(i as nat);
    text::lemma_decimal_digits(j as nat);
    let x = text::decimal(serial(first, i) as nat);
    let y = text::decimal(serial(first, j) as nat);
    if edit_row_id(prefix, i, first) == edit_row_id(prefix, j, first) {
        let n = prefix@.len() as int;
        assert(edit_row_id(prefix, i, first).skip(n) =~= a.push('-') + x);
        assert(edit_row_id(prefix, j, first).skip(n) =~= b.push('-') + y);
        assert(!a.contains('-')) by {
            assert(forall|k: int| 0 <= k < a.len() ==> text::is_digit(#[trigger] a[k]));
        }
        assert(!b.contains('-')) by {
            assert(forall|k: int| 0 <= k < b.len() ==> text::is_digit(#[trigger] b[k]));
        }
        text::lemma_split_first_unique('-', a, x, b, y);
    }
}

/// After the limit the edit page no longer waits.
pub proof fn law_editing_stops_waiting(
    user: UserModel,
    is_partial: bool,
    id: Seq<char>,
    q: EditQueryModel,
    row: Option<RecipeRowModel>,
    numbers: Seq<Seq<char>>,
)
    requires
        q.attempt >= ATTEMPT_LIMIT,
    ensures
        match edit_reply(user, is_partial, id, q, row, numbers) {
            ReplyModel::Page(screen) => screen is Edit,
            ReplyModel::Location(_) => q.awaiting > 0 && is_partial,
            ReplyModel::NotFound(_) => row is None,
            _ => false,
        },
{
}

// ── What each section does ──────────────────────────────────────────────

/// The timing section changes the recipe that it names, for the user who sent
/// it, to the numbers that the first field of each name spells. A field that
/// spells none, or is not there, counts as no minutes or one serving, and so
/// do zero servings.
pub proof fn law_timing_is_read_from_the_fields(
    user: UserModel,
    id: Seq<char>,
    pairs: Seq<(Seq<char>, Seq<char>)>,
    i: int,
    n: u32,
)
    ensures
        retime_command(user, id, pairs).recipe_id == id,
        retime_command(user, id, pairs).owner_id == user.id,
        forms::is_first(pairs, "prep_minutes"@, i) && pairs[i].1 == text::decimal(n as nat)
            ==> retime_command(user, id, pairs).prep_minutes == n,
        forms::is_first(pairs, "prep_minutes"@, i) && text::number(pairs[i].1) is None
            ==> retime_command(user, id, pairs).prep_minutes == 0,
        forms::is_absent(pairs, "prep_minutes"@) ==> retime_command(user, id, pairs).prep_minutes == 0,
        forms::is_first(pairs, "cook_minutes"@, i) && pairs[i].1 == text::decimal(n as nat)
            ==> retime_command(user, id, pairs).cook_minutes == n,
        forms::is_first(pairs, "cook_minutes"@, i) && text::number(pairs[i].1) is None
            ==> retime_command(user, id, pairs).cook_minutes == 0,
        forms::is_absent(pairs, "cook_minutes"@) ==> retime_command(user, id, pairs).cook_minutes == 0,
        n >= 1 && forms::is_first(pairs, "servings"@, i) && pairs[i].1 == text::decimal(n as nat)
            ==> retime_command(user, id, pairs).servings == n,
        forms::is_first(pairs, "servings"@, i) && text::number(pairs[i].1) is None
            ==> retime_command(user, id, pairs).servings == 1,
        forms::is_absent(pairs, "servings"@) ==> retime_command(user, id, pairs).servings == 1,
        forms::is_first(pairs, "servings"@, i) && pairs[i].1 == text::decimal(0)
            ==> retime_command(user, id, pairs).servings == 1,
        forms::is_first(pairs, "difficulty"@, i) ==> retime_command(user, id, pairs).difficulty
            == pairs[i].1,
        forms::is_absent(pairs, "difficulty"@) ==> retime_command(user, id, pairs).difficulty
            == "Medium"@,
{
    text::law_decimal_is_read_back(n);
    text::law_decimal_is_read_back(0);
    if forms::is_first(pairs, "prep_minutes"@, i) {
        forms::law_first_value(pairs, "prep_minutes"@, i);
    }
    if forms::is_absent(pairs, "prep_minutes"@) {
        forms::law_no_value(pairs, "prep_minutes"@);
    }
    if forms::is_first(pairs, "cook_minutes"@, i) {
        forms::law_first_value(pairs, "cook_minutes"@, i);
    }
    if forms::is_absent(pairs, "cook_minutes"@) {
        forms::law_no_value(pairs, "cook_minutes"@);
    }
    if forms::is_first(pairs, "servings"@, i) {
        forms::law_first_value(pairs, "servings"@, i);
    }
    if forms::is_absent(pairs, "servings"@) {
        forms::law_no_value(pairs, "servings"@);
    }
    if forms::is_first(pairs, "difficulty"@, i) {
        forms::law_first_value(pairs, "difficulty"@, i);
    }
    if forms::is_absent(pairs, "difficulty"@) {
        forms::law_no_value(pairs, "difficulty"@);
    }
}

/// The categorization section changes the recipe that it names, for the user
/// who sent it, to the meal type whose slug the first field of that name
/// holds, or a main course, and to the cuisine of the first field of that
/// name. The emoji is left to the meal type.
pub proof fn law_categorization_is_read_from_the_fields(
    user: UserModel,
    id: Seq<char>,
    pairs: Seq<(Seq<char>, Seq<char>)>,
    i: int,
    meal_type: MealType,
)
    ensures
        recategorize_command(user, id, pairs).recipe_id == id,
        recategorize_command(user, id, pairs).owner_id == user.id,
        forms::is_first(pairs, "meal_type"@, i) && pairs[i].1 == meal_type.slug_text()
            ==> recategorize_command(user, id, pairs).meal_type == meal_type,
        forms::is_first(pairs, "meal_type"@, i) && recipe::meal_type_of(pairs[i].1) is None
            ==> recategorize_command(user, id, pairs).meal_type == MealType::Main,
        forms::is_first(pairs, "cuisine"@, i) ==> recategorize_command(user, id, pairs).cuisine
            == pairs[i].1,
        forms::is_absent(pairs, "cuisine"@) ==> recategorize_command(user, id, pairs).cuisine.len()
            == 0,
        text::blank(recategorize_command(user, id, pairs).emoji),
{
    recipe::law_meal_type_slug_round_trip(meal_type, Seq::empty());
    if forms::is_first(pairs, "meal_type"@, i) {
        forms::law_first_value(pairs, "meal_type"@, i);
    }
    if forms::is_absent(pairs, "meal_type"@) {
        forms::law_no_value(pairs, "meal_type"@);
    }
    if forms::is_first(pairs, "cuisine"@, i) {
        forms::law_first_value(pairs, "cuisine"@, i);
    }
    if forms::is_absent(pairs, "cuisine"@) {
        forms::law_no_value(pairs, "cuisine"@);
    }
}

/// The title section becomes a command if and only if its title is not blank;
/// the command renames the recipe that it names to that title without the
/// white space around it, for the user who sent it. Any other title is shown
/// again as it is, with what is wrong with it.
pub proof fn law_titles_are_read(
    user: UserModel,
    is_partial: bool,
    id: Seq<char>,
    title: Seq<char>,
)
    ensures
        rename_step(user, is_partial, id, Some(title)) is Run <==> !text::blank(title),
        rename_step(user, is_partial, id, Some(title)) matches StepModel::Run(cmd) ==> cmd.recipe_id
            == id && cmd.owner_id == user.id && cmd.new_title == text::trimmed(title),
        rename_step(user, is_partial, id, Some(title)) matches StepModel::Reply(reply)
            ==> answers_in_place(reply, is_partial) && (part_of(reply) matches Some(part)
            && part.recipe_id == id && part.title == title && part.err is Some && !part.saved),
        rename_step(user, is_partial, id, None) is Reply,
{
    reveal_with_fuel(text::trim_start, 2);
}

/// The description and the tags sections change the recipe that they name, for
/// the user who sent them, to just what was submitted, and a deletion deletes
/// it.
pub proof fn law_other_sections_are_read(
    user: UserModel,
    id: Seq<char>,
    description: Seq<char>,
    tags: Seq<Seq<char>>,
)
    ensures
        redescribe_command(user, id, Some(description)).description == description,
        redescribe_command(user, id, None).description.len() == 0,
        redescribe_command(user, id, Some(description)).recipe_id == id,
        redescribe_command(user, id, Some(description)).owner_id == user.id,
        retag_command(user, id, tags).tags == tags,
        retag_command(user, id, tags).recipe_id == id,
        retag_command(user, id, tags).owner_id == user.id,
        delete_command(user, id).recipe_id == id,
        delete_command(user, id).owner_id == user.id,
{
}

/// The ingredients section becomes a command if and only if one of its rows
/// has a name; the command replaces the ingredients of the recipe that it
/// names, for the user who sent it, with one for each row. Rows of which none
/// has a name are shown again as they are.
pub proof fn law_ingredient_sections_are_read(
    user: UserModel,
    is_partial: bool,
    id: Seq<char>,
    inputs: Seq<IngredientInputModel>,
    quantities: Seq<Option<Quantity>>,
    first: u64,
    unit: recipe::Unit,
    k: int,
)
    requires
        quantities.len() == inputs.len(),
    ensures
        ingredients_step(user, is_partial, id, inputs, quantities, first) is Run <==> exists|i: int|
            0 <= i < inputs.len() && !text::blank((#[trigger] inputs[i]).name),
        ingredients_step(user, is_partial, id, inputs, quantities, first) matches StepModel::Run(cmd)
            ==> cmd.recipe_id == id && cmd.owner_id == user.id && cmd.ingredients.len()
            == inputs.len() && (0 <= k < inputs.len() ==> cmd.ingredients[k].name == inputs[k].name
            && cmd.ingredients[k].quantity == quantities[k] && (inputs[k].unit == unit.slug_text()
            ==> cmd.ingredients[k].unit == unit)),
        ingredients_step(user, is_partial, id, inputs, quantities, first) matches StepModel::Reply(
            reply,
        ) ==> answers_in_place(reply, is_partial) && (part_of(reply) matches Some(part)
            && part.recipe_id == id && shows_inputs(part.ingredient_rows, inputs)
            && part.summary_err is Some && !part.saved),
{
    recipe::law_unit_slug_round_trip(unit);
}

/// The steps section becomes a command if and only if one of its rows has a
/// text; the command replaces the steps of the recipe that it names, for the
/// user who sent it, with one for each row. Rows of which none has a text are
/// shown again as they are.
pub proof fn law_step_sections_are_read(
    user: UserModel,
    is_partial: bool,
    id: Seq<char>,
    inputs: Seq<StepInputModel>,
    first: u64,
    k: int,
)
    ensures
        steps_step(user, is_partial, id, inputs, first) is Run <==> exists|i: int|
            0 <= i < inputs.len() && !text::blank((#[trigger] inputs[i]).text),
        steps_step(user, is_partial, id, inputs, first) matches StepModel::Run(cmd)
            ==> cmd.recipe_id == id && cmd.owner_id == user.id && cmd.steps.len() == inputs.len()
            && (0 <= k < inputs.len() ==> cmd.steps[k].text == inputs[k].text
            && cmd.steps[k].wait_minutes == inputs[k].wait_minutes),
        steps_step(user, is_partial, id, inputs, first) matches StepModel::Reply(reply)
            ==> answers_in_place(reply, is_partial) && (part_of(reply) matches Some(part)
            && part.recipe_id == id && shows_steps(part.step_rows, inputs) && part.summary_err is Some
            && !part.saved),
{
}

/// Whether ingredient rows show what was submitted, in its order, with the
/// units as they were chosen.
pub open spec fn shows_inputs(
    rows: Seq<IngredientRowModel>,
    inputs: Seq<IngredientInputModel>,
) -> bool {
    &&& rows.len() == inputs.len()
    &&& forall|i: int|
        0 <= i < inputs.len() ==> (#[trigger] rows[i]).ing == inputs[i] && rows[i].unit_options
            == recipes_create::units(inputs[i].unit)
}

/// Whether step rows show what was submitted, in its order.
pub open spec fn shows_steps(rows: Seq<StepRowModel>, inputs: Seq<StepInputModel>) -> bool {
    &&& rows.len() == inputs.len()
    &&& forall|i: int| 0 <= i < inputs.len() ==> (#[trigger] rows[i]).step == inputs[i]
}

/// Whether an answer shows a section in its place: as a part for a request for
/// a part, and with status 422 for any other.
pub open spec fn answers_in_place<M>(reply: ReplyModel<M>, is_partial: bool) -> bool {
    match reply {
        ReplyModel::Page(_) => is_partial,
        ReplyModel::Unprocessable(_) => !is_partial,
        _ => false,
    }
}

/// Whether an answer is that of a section that was saved: the section for a
/// request for a part, and the way to the edit page, which waits, for any
/// other.
pub open spec fn answers_saved<M>(
    reply: ReplyModel<M>,
    is_partial: bool,
    id: Seq<char>,
) -> bool {
    match reply {
        ReplyModel::Page(_) => is_partial,
        ReplyModel::Redirect(address) => !is_partial && address == "/recipes/"@ + id
            + "/edit?awaiting=1"@,
        _ => false,
    }
}

/// The section that an answer shows, if it shows one.
pub open spec fn part_of<M>(reply: ReplyModel<M>) -> Option<M> {
    match reply {
        ReplyModel::Page(part) => Some(part),
        ReplyModel::Unprocessable(part) => Some(part),
        _ => None,
    }
}

/// A section whose command was carried out is answered as saved, and one whose
/// command failed is shown in its place with the failure. Either way it shows
/// what the command asked for.
pub proof fn law_fields_are_answered(
    is_partial: bool,
    rename: RenameRecipeModel,
    recategorize: RecategorizeRecipeModel,
    redescribe: RedescribeRecipeModel,
    failure: Option<Seq<char>>,
)
    ensures
        failure is None ==> answers_saved(
            rename_answer(is_partial, rename, failure),
            is_partial,
            rename.recipe_id,
        ),
        failure is Some ==> answers_in_place(rename_answer(is_partial, rename, failure), is_partial),
        part_of(rename_answer(is_partial, rename, failure)) matches Some(part) ==> part.recipe_id
            == rename.recipe_id && part.title == rename.new_title && part.err == failure && (
        part.saved <==> failure is None),
        failure is None ==> answers_saved(
            recategorize_answer(is_partial, recategorize, failure),
            is_partial,
            recategorize.recipe_id,
        ),
        failure is Some ==> answers_in_place(
            recategorize_answer(is_partial, recategorize, failure),
            is_partial,
        ),
        part_of(recategorize_answer(is_partial, recategorize, failure)) matches Some(part)
            ==> part.recipe_id == recategorize.recipe_id && part.cuisine == recategorize.cuisine
            && part.meal_type_options == recipes_create::meal_types(
            recategorize.meal_type.slug_text(),
        ) && part.err == failure && (part.saved <==> failure is None),
        failure is None ==> answers_saved(
            redescribe_answer(is_partial, redescribe, failure),
            is_partial,
            redescribe.recipe_id,
        ),
        failure is Some ==> answers_in_place(
            redescribe_answer(is_partial, redescribe, failure),
            is_partial,
        ),
        part_of(redescribe_answer(is_partial, redescribe, failure)) matches Some(part)
            ==> part.recipe_id == redescribe.recipe_id && part.description
            == redescribe.description && part.err == failure && (part.saved <==> failure is None),
{
}

/// So are the timing and the tags.
pub proof fn law_timing_and_tags_are_answered(
    is_partial: bool,
    retime: RetimeRecipeModel,
    retag: RetagRecipeModel,
    failure: Option<Seq<char>>,
)
    ensures
        failure is None ==> answers_saved(
            retime_answer(is_partial, retime, failure),
            is_partial,
            retime.recipe_id,
        ),
        failure is Some ==> answers_in_place(retime_answer(is_partial, retime, failure), is_partial),
        part_of(retime_answer(is_partial, retime, failure)) matches Some(part) ==> part.recipe_id
            == retime.recipe_id && part.prep_minutes == retime.prep_minutes && part.cook_minutes
            == retime.cook_minutes && part.servings == retime.servings && part.difficulty_options
            == recipes_create::difficulties(retime.difficulty) && part.err == failure && (
        part.saved <==> failure is None),
        failure is None ==> answers_saved(
            retag_answer(is_partial, retag, failure),
            is_partial,
            retag.recipe_id,
        ),
        failure is Some ==> answers_in_place(retag_answer(is_partial, retag, failure), is_partial),
        part_of(retag_answer(is_partial, retag, failure)) matches Some(part) ==> part.recipe_id
            == retag.recipe_id && part.tag_options == recipes_create::tags(retag.tags) && part.err
            == failure && (part.saved <==> failure is None),
{
}

/// So are the rows; of rows that were saved only those are shown that the
/// recipe has now, and of rows that were not, all.
pub proof fn law_rows_are_answered(
    is_partial: bool,
    id: Seq<char>,
    inputs: Seq<IngredientInputModel>,
    lines: Seq<StepInputModel>,
    first: u64,
    failure: Option<Seq<char>>,
)
    ensures
        failure is None ==> answers_saved(
            ingredients_answer(is_partial, id, inputs, first, failure),
            is_partial,
            id,
        ),
        failure is Some ==> answers_in_place(
            ingredients_answer(is_partial, id, inputs, first, failure),
            is_partial,
        ),
        part_of(ingredients_answer(is_partial, id, inputs, first, failure)) matches Some(part)
            ==> part.recipe_id == id && part.summary_err == failure && (part.saved <==> failure
            is None),
        part_of(ingredients_answer(is_partial, id, inputs, first, failure)) matches Some(part)
            ==> failure is Some || (forall|i: int|
            0 <= i < inputs.len() ==> !text::blank((#[trigger] inputs[i]).name)) ==> shows_inputs(
            part.ingredient_rows,
            inputs,
        ),
        failure is None ==> answers_saved(
            steps_answer(is_partial, id, lines, first, failure),
            is_partial,
            id,
        ),
        failure is Some ==> answers_in_place(
            steps_answer(is_partial, id, lines, first, failure),
            is_partial,
        ),
        part_of(steps_answer(is_partial, id, lines, first, failure)) matches Some(part)
            ==> part.recipe_id == id && part.summary_err == failure && (part.saved <==> failure
            is None),
        part_of(steps_answer(is_partial, id, lines, first, failure)) matches Some(part)
            ==> failure is Some || (forall|i: int|
            0 <= i < lines.len() ==> !text::blank((#[trigger] lines[i]).text)) ==> shows_steps(
            part.step_rows,
            lines,
        ),
{
    if forall|i: int| 0 <= i < inputs.len() ==> !text::blank((#[trigger] inputs[i]).name) {
        text::lemma_filter_all(inputs, named_inputs());
    }
    if forall|i: int| 0 <= i < lines.len() ==> !text::blank((#[trigger] lines[i]).text) {
        text::lemma_filter_all(lines, worded_inputs());
    }
}

/// A row without a name, or a step without a text, makes no difference to what
/// is shown once the rows are saved, wherever it stands.
pub proof fn law_blank_rows_are_gone_once_saved(
    id: Seq<char>,
    inputs: Seq<IngredientInputModel>,
    row: IngredientInputModel,
    lines: Seq<StepInputModel>,
    line: StepInputModel,
    i: int,
    first: u64,
)
    ensures
        0 <= i <= inputs.len() && text::blank(row.name) ==> ingredients_answer(
            true,
            id,
            inputs.insert(i, row),
            first,
            None,
        ) == ingredients_answer(true, id, inputs, first, None),
        0 <= i <= lines.len() && text::blank(line.text) ==> steps_answer(
            true,
            id,
            lines.insert(i, line),
            first,
            None,
        ) == steps_answer(true, id, lines, first, None),
{
    if 0 <= i <= inputs.len() && text::blank(row.name) {
        text::lemma_filter_insert(inputs, named_inputs(), i, row);
    }
    if 0 <= i <= lines.len() && text::blank(line.text) {
        text::lemma_filter_insert(lines, worded_inputs(), i, line);
    }
}

/// A deletion leads back to the list of recipes, and one that fails is told
/// why.
pub proof fn law_deletions_are_answered(message: Seq<char>)
    ensures
        delete_answer(None) == ReplyModel::<EditScreenModel>::Redirect("/recipes"@),
        delete_answer(Some(message)) == ReplyModel::<EditScreenModel>::Plain(500, message),
{
}

/// The edit page shows the recipe: its fields, its choices as the active ones,
/// and a row for each ingredient and each step, in their order, none of them
/// marked.
pub proof fn law_edit_pages_show_the_recipe(
    user: UserModel,
    row: RecipeRowModel,
    numbers: Seq<Seq<char>>,
    confirming: bool,
    i: int,
)
    requires
        numbers.len() == row.ingredients.len(),
    ensures
        ({
            let page = edit_page_of(user, row, numbers, confirming);
            &&& page.recipe_id == row.id
            &&& page.title == row.title
            &&& page.cuisine == row.cuisine
            &&& page.description == row.description
            &&& page.meal_type_options == recipes_create::meal_types(row.meal_type)
            &&& page.difficulty_options == recipes_create::difficulties(row.difficulty)
            &&& json::text_list_of(row.tags_json) matches Some(list) ==> page.tag_options
                == recipes_create::tags(list)
            &&& 0 <= row.time_minutes <= u32::MAX ==> page.prep_minutes + page.cook_minutes
                == row.time_minutes
            &&& 1 <= row.servings <= u32::MAX ==> page.servings == row.servings
            &&& row.servings < 1 ==> page.servings == 1
            &&& page.confirming == confirming
            &&& !page.saved && page.err is None && page.summary_err is None
            &&& page.ingredient_rows.len() == row.ingredients.len()
            &&& 0 <= i < row.ingredients.len() ==> {
                let shown = page.ingredient_rows[i];
                &&& shown.ing.name == row.ingredients[i].name
                &&& recipe::unit_of(shown.ing.unit) == Some(row.ingredients[i].unit)
                &&& row.ingredients[i].quantity is Some ==> shown.ing.quantity == numbers[i]
                &&& row.ingredients[i].quantity is None ==> shown.ing.quantity.len() == 0
                &&& shown.unit_options == recipes_create::units(shown.ing.unit)
                &&& shown.err_quantity is None && shown.err_name is None
            }
            &&& page.step_rows.len() == row.steps.len()
            &&& 0 <= i < row.steps.len() ==> {
                let shown = page.step_rows[i];
                &&& shown.step.text == row.steps[i].text
                &&& shown.step.wait_minutes == row.steps[i].wait_minutes
                &&& shown.err_text is None
            }
        }),
{
    law_split_keeps_the_total(recipes::larger(row.time_minutes, 0) as u32);
    if 0 <= i < row.ingredients.len() {
        recipe::law_unit_slug_round_trip(row.ingredients[i].unit);
    }
}

/// The rows of an edit page, submitted as they are, ask for the ingredients
/// and the steps that the recipe has, provided that the quantities are read as
/// they were written.
pub proof fn law_untouched_rows_change_nothing(
    user: UserModel,
    row: RecipeRowModel,
    numbers: Seq<Seq<char>>,
    quantities: Seq<Option<Quantity>>,
)
    requires
        numbers.len() == row.ingredients.len(),
        quantities == row.ingredients.map_values(
            |ingredient: IngredientFactModel| ingredient.quantity,
        ),
    ensures
        recipes_create::facts(
            edit_page_of(user, row, numbers, false).ingredient_rows.map_values(
                |shown: IngredientRowModel| shown.ing,
            ),
            quantities,
        ) == row.ingredients,
        recipes_create::step_facts(
            edit_page_of(user, row, numbers, false).step_rows.map_values(
                |shown: StepRowModel| shown.step,
            ),
        ) == row.steps,
{
    let page = edit_page_of(user, row, numbers, false);
    let inputs = page.ingredient_rows.map_values(|shown: IngredientRowModel| shown.ing);
    let asked = recipes_create::facts(inputs, quantities);
    assert forall|i: int| 0 <= i < asked.len() implies asked[i] == row.ingredients[i] by {
        recipe::law_unit_slug_round_trip(row.ingredients[i].unit);
    }
    assert(asked =~= row.ingredients);
    let lines = page.step_rows.map_values(|shown: StepRowModel| shown.step);
    assert(recipes_create::step_facts(lines) =~= row.steps);
}

/// A recipe that is not there is not found; one that is there is shown, unless
/// the page still waits for what was submitted.
pub proof fn law_edit_pages_are_answered(
    user: UserModel,
    is_partial: bool,
    id: Seq<char>,
    q: EditQueryModel,
    row: RecipeRowModel,
    numbers: Seq<Seq<char>>,
)
    ensures
        edit_reply(user, is_partial, id, q, None, numbers) is NotFound,
        q.awaiting == 0 ==> edit_reply(user, is_partial, id, q, Some(row), numbers)
            == ReplyModel::Page(
            EditScreenModel::Edit(edit_page_of(user, row, numbers, q.confirm > 0)),
        ),
        q.awaiting > 0 && q.attempt >= ATTEMPT_LIMIT && is_partial ==> edit_reply(
            user,
            is_partial,
            id,
            q,
            Some(row),
            numbers,
        ) == ReplyModel::<EditScreenModel>::Location("/recipes/"@ + id + "/edit"@),
        q.awaiting > 0 && q.attempt < ATTEMPT_LIMIT ==> (edit_reply(
            user,
            is_partial,
            id,
            q,
            Some(row),
            numbers,
        ) matches ReplyModel::Page(screen) && match screen {
            EditScreenModel::AwaitingPart(part) => is_partial && part.recipe_id == id
                && part.attempt == q.attempt && part.attempt_limit == ATTEMPT_LIMIT,
            EditScreenModel::Awaiting(page) => !is_partial && page.recipe_id == id && page.attempt
                == q.attempt && page.attempt_limit == ATTEMPT_LIMIT,
            _ => false,
        }),
{
}

/// A model has every field of the value that it stands for.
pub proof fn law_models_have_every_field(
    edit_recipe_page: EditRecipePage,
    edit_title_fragment: EditTitleFragment,
    edit_categorization_fragment: EditCategorizationFragment,
    edit_timing_fragment: EditTimingFragment,
    edit_description_fragment: EditDescriptionFragment,
    edit_tags_fragment: EditTagsFragment,
    edit_ingredients_fragment: EditIngredientsFragment,
    edit_steps_fragment: EditStepsFragment,
    edit_awaiting_page: EditAwaitingPage,
    edit_awaiting_fragment: EditAwaitingFragment,
    edit_query: EditQuery,
)
    ensures
        edit_recipe_page@.nav_items == text::views(edit_recipe_page.nav_items@),
        edit_recipe_page@.user_initial == edit_recipe_page.user_initial@,
        edit_recipe_page@.user_name == edit_recipe_page.user_name@,
        edit_recipe_page@.user_email == edit_recipe_page.user_email@,
        edit_recipe_page@.user_premium == edit_recipe_page.user_premium,
        edit_recipe_page@.recipe_id == edit_recipe_page.recipe_id@,
        edit_recipe_page@.title == edit_recipe_page.title@,
        edit_recipe_page@.cuisine == edit_recipe_page.cuisine@,
        edit_recipe_page@.description == edit_recipe_page.description@,
        edit_recipe_page@.prep_minutes == edit_recipe_page.prep_minutes,
        edit_recipe_page@.cook_minutes == edit_recipe_page.cook_minutes,
        edit_recipe_page@.servings == edit_recipe_page.servings,
        edit_recipe_page@.meal_type_options == text::views(edit_recipe_page.meal_type_options@),
        edit_recipe_page@.difficulty_options == text::views(edit_recipe_page.difficulty_options@),
        edit_recipe_page@.tag_options == text::views(edit_recipe_page.tag_options@),
        edit_recipe_page@.ingredient_rows == text::views(edit_recipe_page.ingredient_rows@),
        edit_recipe_page@.step_rows == text::views(edit_recipe_page.step_rows@),
        edit_recipe_page@.err == text::opt_view(edit_recipe_page.err),
        edit_recipe_page@.summary_err == text::opt_view(edit_recipe_page.summary_err),
        edit_recipe_page@.saved == edit_recipe_page.saved,
        edit_recipe_page@.confirming == edit_recipe_page.confirming,
        edit_title_fragment@.recipe_id == edit_title_fragment.recipe_id@,
        edit_title_fragment@.title == edit_title_fragment.title@,
        edit_title_fragment@.err == text::opt_view(edit_title_fragment.err),
        edit_title_fragment@.saved == edit_title_fragment.saved,
        edit_categorization_fragment@.recipe_id == edit_categorization_fragment.recipe_id@,
        edit_categorization_fragment@.cuisine == edit_categorization_fragment.cuisine@,
        edit_categorization_fragment@.meal_type_options
            == text::views(edit_categorization_fragment.meal_type_options@),
        edit_categorization_fragment@.err == text::opt_view(edit_categorization_fragment.err),
        edit_categorization_fragment@.saved == edit_categorization_fragment.saved,
        edit_timing_fragment@.recipe_id == edit_timing_fragment.recipe_id@,
        edit_timing_fragment@.prep_minutes == edit_timing_fragment.prep_minutes,
        edit_timing_fragment@.cook_minutes == edit_timing_fragment.cook_minutes,
        edit_timing_fragment@.servings == edit_timing_fragment.servings,
        edit_timing_fragment@.difficulty_options
            == text::views(edit_timing_fragment.difficulty_options@),
        edit_timing_fragment@.err == text::opt_view(edit_timing_fragment.err),
        edit_timing_fragment@.saved == edit_timing_fragment.saved,
        edit_description_fragment@.recipe_id == edit_description_fragment.recipe_id@,
        edit_description_fragment@.description == edit_description_fragment.description@,
        edit_description_fragment@.err == text::opt_view(edit_description_fragment.err),
        edit_description_fragment@.saved == edit_description_fragment.saved,
        edit_tags_fragment@.recipe_id == edit_tags_fragment.recipe_id@,
        edit_tags_fragment@.tag_options == text::views(edit_tags_fragment.tag_options@),
        edit_tags_fragment@.err == text::opt_view(edit_tags_fragment.err),
        edit_tags_fragment@.saved == edit_tags_fragment.saved,
        edit_ingredients_fragment@.recipe_id == edit_ingredients_fragment.recipe_id@,
        edit_ingredients_fragment@.ingredient_rows
            == text::views(edit_ingredients_fragment.ingredient_rows@),
        edit_ingredients_fragment@.summary_err
            == text::opt_view(edit_ingredients_fragment.summary_err),
        edit_ingredients_fragment@.saved == edit_ingredients_fragment.saved,
        edit_steps_fragment@.recipe_id == edit_steps_fragment.recipe_id@,
        edit_steps_fragment@.step_rows == text::views(edit_steps_fragment.step_rows@),
        edit_steps_fragment@.summary_err == text::opt_view(edit_steps_fragment.summary_err),
        edit_steps_fragment@.saved == edit_steps_fragment.saved,
        edit_awaiting_page@.nav_items == text::views(edit_awaiting_page.nav_items@),
        edit_awaiting_page@.user_initial == edit_awaiting_page.user_initial@,
        edit_awaiting_page@.user_name == edit_awaiting_page.user_name@,
        edit_awaiting_page@.user_email == edit_awaiting_page.user_email@,
        edit_awaiting_page@.user_premium == edit_awaiting_page.user_premium,
        edit_awaiting_page@.recipe_id == edit_awaiting_page.recipe_id@,
        edit_awaiting_page@.attempt == edit_awaiting_page.attempt,
        edit_awaiting_page@.attempt_limit == edit_awaiting_page.attempt_limit,
        edit_awaiting_fragment@.recipe_id == edit_awaiting_fragment.recipe_id@,
        edit_awaiting_fragment@.attempt == edit_awaiting_fragment.attempt,
        edit_awaiting_fragment@.attempt_limit == edit_awaiting_fragment.attempt_limit,
        edit_query@.confirm == edit_query.confirm,
        edit_query@.awaiting == edit_query.awaiting,
        edit_query@.attempt == edit_query.attempt,
{
}

/// The edit page, and the page that waits for it, stand in the frame of the
/// user they are made for.
pub proof fn law_edit_pages_have_the_frame(
    user: UserModel,
    is_partial: bool,
    id: Seq<char>,
    q: EditQueryModel,
    row: RecipeRowModel,
    numbers: Seq<Seq<char>>,
    confirming: bool,
)
    ensures
        ({
            let page = edit_page_of(user, row, numbers, confirming);
            &&& page.nav_items == web::chrome(user).nav_items
            &&& page.user_initial == web::chrome(user).user_initial
            &&& page.user_name == web::chrome(user).user_name
            &&& page.user_email == web::chrome(user).user_email
            &&& page.user_premium == web::chrome(user).user_premium
        }),
        edit_reply(user, is_partial, id, q, Some(row), numbers) matches ReplyModel::Page(
            EditScreenModel::Awaiting(page),
        ) ==> {
            &&& page.nav_items == web::chrome(user).nav_items
            &&& page.user_initial == web::chrome(user).user_initial
            &&& page.user_name == web::chrome(user).user_name
            &&& page.user_email == web::chrome(user).user_email
            &&& page.user_premium == web::chrome(user).user_premium
        },
        edit_reply(user, is_partial, id, q, None, numbers) matches ReplyModel::NotFound(
            EditScreenModel::NotFound(page),
        ) ==> {
            &&& page.nav_items == web::chrome(user).nav_items
            &&& page.user_initial == web::chrome(user).user_initial
            &&& page.user_name == web::chrome(user).user_name
            &&& page.user_email == web::chrome(user).user_email
            &&& page.user_premium == web::chrome(user).user_premium
        },
{
}

/// The rows of the edit page are numbered from zero by their ids, and so are
/// the rows of a section that was submitted, before the number that tells them
/// from rows shown earlier.
pub proof fn law_rows_are_numbered_in_order(
    user: UserModel,
    row: RecipeRowModel,
    numbers: Seq<Seq<char>>,
    inputs: Seq<IngredientInputModel>,
    lines: Seq<StepInputModel>,
    first: u64,
    i: int,
)
    ensures
        0 <= i < row.ingredients.len() ==> edit_page_of(
            user,
            row,
            numbers,
            false,
        ).ingredient_rows[i].row_id == "ing-"@ + text::decimal(i as nat),
        0 <= i < row.steps.len() ==> edit_page_of(user, row, numbers, false).step_rows[i].row_id
            == "step-"@ + text::decimal(i as nat),
        0 <= i < inputs.len() && first + i <= u64::MAX ==> ing_rows(inputs, first)[i].row_id
            == "ing-edit-"@ + text::decimal(i as nat) + "-"@ + text::decimal((first + i) as nat),
        0 <= i < lines.len() && first + i <= u64::MAX ==> step_rows(lines, first)[i].row_id
            == "step-edit-"@ + text::decimal(i as nat) + "-"@ + text::decimal((first + i) as nat),
        0 <= i < inputs.len() ==> ing_rows(inputs, first)[i].err_quantity is None && ing_rows(
            inputs,
            first,
        )[i].err_name is None,
        0 <= i < lines.len() ==> step_rows(lines, first)[i].err_text is None,
{
}

} // verus!
