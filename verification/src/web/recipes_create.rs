//! The form for a new recipe.
//!
//! A form that is in order becomes a draft command, and the user is sent to
//! the page of the new recipe, which waits for it. Any other form is shown
//! again with what is wrong with it, as the user filled it in.
//!
//! Ingredients and steps come as repeated fields, one of each name per row.

use vstd::prelude::*;
use vstd::string::*;

use crate::forms;
use crate::recipe;
use crate::recipe::{DraftRecipe, IngredientFact, MealType, Provenance, Quantity, StepFact, Unit};
use crate::recipe::{DraftRecipeModel, IngredientFactModel, ProvenanceModel, StepFactModel};
use crate::text;
use crate::web;
use crate::web::auth::User;
use crate::web::auth::UserModel;
use crate::web::{Chrome, NavItem, Reply, Step};
use crate::web::{NavItemModel, ReplyModel, StepModel};

verus! {

// ── Options ─────────────────────────────────────────────────────────────

#[derive(Debug, PartialEq)]
pub struct MealTypeOption {
    pub slug: &'static str,
    pub label: &'static str,
    pub emoji: &'static str,
    pub active: bool,
}

/// What a [`MealTypeOption`] holds, as mathematical values.
#[verifier::ext_equal]
pub struct MealTypeOptionModel {
    pub slug: Seq<char>,
    pub label: Seq<char>,
    pub emoji: Seq<char>,
    pub active: bool,
}

impl View for MealTypeOption {
    type V = MealTypeOptionModel;

    open spec fn view(&self) -> MealTypeOptionModel {
        MealTypeOptionModel {
            slug: self.slug@,
            label: self.label@,
            emoji: self.emoji@,
            active: self.active,
        }
    }
}

#[derive(Debug, PartialEq)]
pub struct DifficultyOption {
    pub value: &'static str,
    pub label: &'static str,
    pub active: bool,
}

/// What a [`DifficultyOption`] holds, as mathematical values.
#[verifier::ext_equal]
pub struct DifficultyOptionModel {
    pub value: Seq<char>,
    pub label: Seq<char>,
    pub active: bool,
}

impl View for DifficultyOption {
    type V = DifficultyOptionModel;

    open spec fn view(&self) -> DifficultyOptionModel {
        DifficultyOptionModel {
            value: self.value@,
            label: self.label@,
            active: self.active,
        }
    }
}

#[derive(Debug, PartialEq)]
pub struct TagOption {
    pub value: &'static str,
    pub active: bool,
}

/// What a [`TagOption`] holds, as mathematical values.
#[verifier::ext_equal]
pub struct TagOptionModel {
    pub value: Seq<char>,
    pub active: bool,
}

impl View for TagOption {
    type V = TagOptionModel;

    open spec fn view(&self) -> TagOptionModel {
        TagOptionModel {
            value: self.value@,
            active: self.active,
        }
    }
}

#[derive(Debug, PartialEq)]
pub struct UnitOption {
    pub value: &'static str,
    pub label: &'static str,
    pub selected: bool,
}

/// What a [`UnitOption`] holds, as mathematical values.
#[verifier::ext_equal]
pub struct UnitOptionModel {
    pub value: Seq<char>,
    pub label: Seq<char>,
    pub selected: bool,
}

impl View for UnitOption {
    type V = UnitOptionModel;

    open spec fn view(&self) -> UnitOptionModel {
        UnitOptionModel {
            value: self.value@,
            label: self.label@,
            selected: self.selected,
        }
    }
}

/// The difficulties of the form.
pub const DIFFICULTY_VARIANTS: [&'static str; 3] = ["Easy", "Medium", "Hard"];

/// The tags of the form.
pub const TAG_VARIANTS: [&'static str; 10] = [
    "Vegetarian",
    "Vegan",
    "Gluten-free",
    "Dairy-free",
    "Nut-free",
    "Low-carb",
    "High-protein",
    "Make-ahead",
    "One-pot",
    "Spicy",
];

/// The units of the form, in the order of the menu, with what the menu calls
/// them.
pub const UNIT_OPTIONS: [(&'static str, &'static str); 10] = [
    ("", "—"),
    ("g", "g"),
    ("kg", "kg"),
    ("ml", "ml"),
    ("l", "l"),
    ("tbsp", "tbsp"),
    ("tsp", "tsp"),
    ("cup", "cup"),
    ("piece", "pc"),
    ("pinch", "pinch"),
];

/// The option of a meal type.
pub open spec fn meal_type_option(meal_type: MealType, active_slug: Seq<char>) -> MealTypeOptionModel {
    MealTypeOptionModel {
        slug: meal_type.slug_text(),
        label: meal_type.label_text(),
        emoji: meal_type.emoji_text(),
        active: meal_type.slug_text() == active_slug,
    }
}

/// The meal types of the form, with the one that is chosen.
pub open spec fn meal_types(active_slug: Seq<char>) -> Seq<MealTypeOptionModel> {
    seq![
        meal_type_option(MealType::Entree, active_slug),
        meal_type_option(MealType::Main, active_slug),
        meal_type_option(MealType::Side, active_slug),
        meal_type_option(MealType::Dessert, active_slug),
    ]
}

fn option_of(meal_type: MealType, active_slug: &str) -> (res: MealTypeOption)
    ensures
        res@ == meal_type_option(meal_type, active_slug@),
{
    MealTypeOption {
        slug: meal_type.slug(),
        label: meal_type.label(),
        emoji: meal_type.default_emoji(),
        active: text::same_text(meal_type.slug(), active_slug),
    }
}

/// The meal types of the form, with the one that is chosen.
pub fn meal_type_options(active_slug: &str) -> (res: Vec<MealTypeOption>)
    ensures
        text::views(res@) == meal_types(active_slug@),
{
    let mut out: Vec<MealTypeOption> = Vec::new();
    out.push(option_of(MealType::Entree, active_slug));
    out.push(option_of(MealType::Main, active_slug));
    out.push(option_of(MealType::Side, active_slug));
    out.push(option_of(MealType::Dessert, active_slug));
    assert(text::views(out@) =~= meal_types(active_slug@));
    out
}

/// The difficulties of the form, with the one that is chosen.
pub open spec fn difficulties(active: Seq<char>) -> Seq<DifficultyOptionModel> {
    Seq::new(
        DIFFICULTY_VARIANTS@.len(),
        |i: int|
            DifficultyOptionModel {
                value: DIFFICULTY_VARIANTS@[i]@,
                label: DIFFICULTY_VARIANTS@[i]@,
                active: DIFFICULTY_VARIANTS@[i]@ == active,
            },
    )
}

/// The difficulties of the form, with the one that is chosen.
pub fn difficulty_options(active: &str) -> (res: Vec<DifficultyOption>)
    ensures
        text::views(res@) == difficulties(active@),
{
    let ghost all = difficulties(active@);
    let variants: [&'static str; 3] = DIFFICULTY_VARIANTS;
    let mut out: Vec<DifficultyOption> = Vec::new();
    let mut i: usize = 0;
    while i < 3
        invariant
            i <= 3,
            all == difficulties(active@),
            variants == DIFFICULTY_VARIANTS,
            text::views(out@) == all.take(i as int),
        decreases 3 - i,
    {
        let ghost before = out@;
        let label: &'static str = variants[i];
        let row = DifficultyOption { value: label, label, active: text::same_text(label, active) };
        proof {
            text::lemma_views_push(before, row);
            assert(all.take(i + 1) =~= all.take(i as int).push(row@));
        }
        out.push(row);
        i += 1;
    }
    assert(all.take(i as int) =~= all);
    out
}

/// The tags of the form, with those that are chosen.
pub open spec fn tags(active_tags: Seq<Seq<char>>) -> Seq<TagOptionModel> {
    Seq::new(
        TAG_VARIANTS@.len(),
        |i: int|
            TagOptionModel {
                value: TAG_VARIANTS@[i]@,
                active: active_tags.contains(TAG_VARIANTS@[i]@),
            },
    )
}

fn among(texts: &Vec<String>, wanted: &str) -> (res: bool)
    ensures
        res == text::views(texts@).contains(wanted@),
{
    let mut i: usize = 0;
    while i < texts.len()
        invariant
            i <= texts.len(),
            forall|j: int| 0 <= j < i ==> #[trigger] text::views(texts@)[j] != wanted@,
        decreases texts.len() - i,
    {
        if text::same_text(texts[i].as_str(), wanted) {
            assert(text::views(texts@)[i as int] == wanted@);
            return true;
        }
        i += 1;
    }
    false
}

/// The tags of the form, with those that are chosen.
pub fn tag_options(active_tags: &Vec<String>) -> (res: Vec<TagOption>)
    ensures
        text::views(res@) == tags(text::views(active_tags@)),
{
    let ghost all = tags(text::views(active_tags@));
    let variants: [&'static str; 10] = TAG_VARIANTS;
    let mut out: Vec<TagOption> = Vec::new();
    let mut i: usize = 0;
    while i < 10
        invariant
            i <= 10,
            all == tags(text::views(active_tags@)),
            variants == TAG_VARIANTS,
            text::views(out@) == all.take(i as int),
        decreases 10 - i,
    {
        let ghost before = out@;
        let value: &'static str = variants[i];
        let row = TagOption { value, active: among(active_tags, value) };
        proof {
            text::lemma_views_push(before, row);
            assert(all.take(i + 1) =~= all.take(i as int).push(row@));
        }
        out.push(row);
        i += 1;
    }
    assert(all.take(i as int) =~= all);
    out
}

/// The units of the form, with the one that is chosen.
pub open spec fn units(active: Seq<char>) -> Seq<UnitOptionModel> {
    Seq::new(
        UNIT_OPTIONS@.len(),
        |i: int|
            UnitOptionModel {
                value: UNIT_OPTIONS@[i].0@,
                label: UNIT_OPTIONS@[i].1@,
                selected: UNIT_OPTIONS@[i].0@ == active,
            },
    )
}

/// The units of the form, with the one that is chosen.
pub fn unit_options(active: &str) -> (res: Vec<UnitOption>)
    ensures
        text::views(res@) == units(active@),
{
    let ghost all = units(active@);
    let variants: [(&'static str, &'static str); 10] = UNIT_OPTIONS;
    let mut out: Vec<UnitOption> = Vec::new();
    let mut i: usize = 0;
    while i < 10
        invariant
            i <= 10,
            all == units(active@),
            variants == UNIT_OPTIONS,
            text::views(out@) == all.take(i as int),
        decreases 10 - i,
    {
        let ghost before = out@;
        let (value, label): (&'static str, &'static str) = variants[i];
        let row = UnitOption { value, label, selected: text::same_text(value, active) };
        proof {
            text::lemma_views_push(before, row);
            assert(all.take(i + 1) =~= all.take(i as int).push(row@));
        }
        out.push(row);
        i += 1;
    }
    assert(all.take(i as int) =~= all);
    out
}

// ── The form ────────────────────────────────────────────────────────────

/// An ingredient row as the user filled it in.
#[derive(Debug, PartialEq)]
pub struct IngredientInput {
    pub quantity: String,
    pub unit: String,
    pub name: String,
}

/// What a [`IngredientInput`] holds, as mathematical values.
#[verifier::ext_equal]
pub struct IngredientInputModel {
    pub quantity: Seq<char>,
    pub unit: Seq<char>,
    pub name: Seq<char>,
}

impl View for IngredientInput {
    type V = IngredientInputModel;

    open spec fn view(&self) -> IngredientInputModel {
        IngredientInputModel {
            quantity: self.quantity@,
            unit: self.unit@,
            name: self.name@,
        }
    }
}

impl Clone for IngredientInput {
    fn clone(&self) -> (res: Self)
        ensures
            res@ == self@,
    {
        IngredientInput {
            quantity: self.quantity.clone(),
            unit: self.unit.clone(),
            name: self.name.clone(),
        }
    }
}

impl Default for IngredientInput {
    fn default() -> (res: Self)
        ensures
            res@ == empty_ingredient(),
    {
        IngredientInput { quantity: String::new(), unit: String::new(), name: String::new() }
    }
}

/// An ingredient row with nothing in it.
pub open spec fn empty_ingredient() -> IngredientInputModel {
    IngredientInputModel { quantity: Seq::empty(), unit: Seq::empty(), name: Seq::empty() }
}

/// A step row as the user filled it in.
#[derive(Debug, PartialEq)]
pub struct StepInput {
    pub wait_minutes: u32,
    pub text: String,
}

/// What a [`StepInput`] holds, as mathematical values.
#[verifier::ext_equal]
pub struct StepInputModel {
    pub wait_minutes: u32,
    pub text: Seq<char>,
}

impl View for StepInput {
    type V = StepInputModel;

    open spec fn view(&self) -> StepInputModel {
        StepInputModel {
            wait_minutes: self.wait_minutes,
            text: self.text@,
        }
    }
}

impl Clone for StepInput {
    fn clone(&self) -> (res: Self)
        ensures
            res@ == self@,
    {
        StepInput {
            wait_minutes: self.wait_minutes,
            text: self.text.clone(),
        }
    }
}

impl Default for StepInput {
    fn default() -> (res: Self)
        ensures
            res@ == empty_step(),
    {
        StepInput { wait_minutes: 0, text: String::new() }
    }
}

/// A step row with nothing in it.
pub open spec fn empty_step() -> StepInputModel {
    StepInputModel { wait_minutes: 0, text: Seq::empty() }
}

/// An ingredient row as the page shows it.
#[derive(Debug, PartialEq)]
pub struct IngredientRow {
    pub ing: IngredientInput,
    pub row_id: String,
    pub unit_options: Vec<UnitOption>,
    pub err_quantity: Option<String>,
    pub err_name: Option<String>,
}

/// What a [`IngredientRow`] holds, as mathematical values.
#[verifier::ext_equal]
pub struct IngredientRowModel {
    pub ing: IngredientInputModel,
    pub row_id: Seq<char>,
    pub unit_options: Seq<UnitOptionModel>,
    pub err_quantity: Option<Seq<char>>,
    pub err_name: Option<Seq<char>>,
}

impl View for IngredientRow {
    type V = IngredientRowModel;

    open spec fn view(&self) -> IngredientRowModel {
        IngredientRowModel {
            ing: self.ing@,
            row_id: self.row_id@,
            unit_options: text::views(self.unit_options@),
            err_quantity: text::opt_view(self.err_quantity),
            err_name: text::opt_view(self.err_name),
        }
    }
}

/// A step row as the page shows it.
#[derive(Debug, PartialEq)]
pub struct StepRow {
    pub step: StepInput,
    pub row_id: String,
    pub err_text: Option<String>,
}

/// What a [`StepRow`] holds, as mathematical values.
#[verifier::ext_equal]
pub struct StepRowModel {
    pub step: StepInputModel,
    pub row_id: Seq<char>,
    pub err_text: Option<Seq<char>>,
}

impl View for StepRow {
    type V = StepRowModel;

    open spec fn view(&self) -> StepRowModel {
        StepRowModel {
            step: self.step@,
            row_id: self.row_id@,
            err_text: text::opt_view(self.err_text),
        }
    }
}

/// The form as the user filled it in.
#[derive(Debug, PartialEq)]
pub struct CreateRecipeForm {
    pub title: String,
    pub meal_type: String,
    pub cuisine: String,
    pub prep_minutes: u32,
    pub cook_minutes: u32,
    pub servings: u32,
    pub difficulty: String,
    pub description: String,
    pub tags: Vec<String>,
    pub ingredients: Vec<IngredientInput>,
    pub steps: Vec<StepInput>,
}

/// What a [`CreateRecipeForm`] holds, as mathematical values.
#[verifier::ext_equal]
pub struct CreateRecipeFormModel {
    pub title: Seq<char>,
    pub meal_type: Seq<char>,
    pub cuisine: Seq<char>,
    pub prep_minutes: u32,
    pub cook_minutes: u32,
    pub servings: u32,
    pub difficulty: Seq<char>,
    pub description: Seq<char>,
    pub tags: Seq<Seq<char>>,
    pub ingredients: Seq<IngredientInputModel>,
    pub steps: Seq<StepInputModel>,
}

impl View for CreateRecipeForm {
    type V = CreateRecipeFormModel;

    open spec fn view(&self) -> CreateRecipeFormModel {
        CreateRecipeFormModel {
            title: self.title@,
            meal_type: self.meal_type@,
            cuisine: self.cuisine@,
            prep_minutes: self.prep_minutes,
            cook_minutes: self.cook_minutes,
            servings: self.servings,
            difficulty: self.difficulty@,
            description: self.description@,
            tags: text::views(self.tags@),
            ingredients: text::views(self.ingredients@),
            steps: text::views(self.steps@),
        }
    }
}

impl Clone for CreateRecipeForm {
    fn clone(&self) -> (res: Self)
        ensures
            res@ == self@,
    {
        let ingredients: Vec<IngredientInput> = self.ingredients.clone();
        assert(text::views(ingredients@) =~= text::views(self.ingredients@));
        let steps: Vec<StepInput> = self.steps.clone();
        assert(text::views(steps@) =~= text::views(self.steps@));
        CreateRecipeForm {
            title: self.title.clone(),
            meal_type: self.meal_type.clone(),
            cuisine: self.cuisine.clone(),
            prep_minutes: self.prep_minutes,
            cook_minutes: self.cook_minutes,
            servings: self.servings,
            difficulty: self.difficulty.clone(),
            description: self.description.clone(),
            tags: text::clone_texts(&self.tags),
            ingredients,
            steps,
        }
    }
}

/// The form that a user begins with.
pub open spec fn starter_form() -> CreateRecipeFormModel {
    CreateRecipeFormModel {
        title: Seq::empty(),
        meal_type: "main"@,
        cuisine: Seq::empty(),
        prep_minutes: 15,
        cook_minutes: 30,
        servings: 4,
        difficulty: "Medium"@,
        description: Seq::empty(),
        tags: Seq::empty(),
        ingredients: seq![empty_ingredient(), empty_ingredient(), empty_ingredient()],
        steps: seq![empty_step(), empty_step()],
    }
}

impl CreateRecipeForm {
    /// The form that a user begins with.
    pub fn starter() -> (res: Self)
        ensures
            res@ == starter_form(),
    {
        let tags: Vec<String> = Vec::new();
        let mut ingredients: Vec<IngredientInput> = Vec::new();
        ingredients.push(IngredientInput::default());
        ingredients.push(IngredientInput::default());
        ingredients.push(IngredientInput::default());
        let mut steps: Vec<StepInput> = Vec::new();
        steps.push(StepInput::default());
        steps.push(StepInput::default());
        assert(text::views(tags@) =~= Seq::<Seq<char>>::empty());
        assert(text::views(ingredients@) =~= starter_form().ingredients);
        assert(text::views(steps@) =~= starter_form().steps);
        CreateRecipeForm {
            title: String::new(),
            meal_type: "main".to_owned(),
            cuisine: String::new(),
            prep_minutes: 15,
            cook_minutes: 30,
            servings: 4,
            difficulty: "Medium".to_owned(),
            description: String::new(),
            tags,
            ingredients,
            steps,
        }
    }
}

/// The larger of two lengths.
pub open spec fn longer(a: nat, b: nat) -> nat {
    if a >= b {
        a
    } else {
        b
    }
}

/// The ingredient rows of a form body. The fields of a row stand at the same
/// position among those of their name; what a row lacks is taken as empty.
pub open spec fn ingredient_inputs(pairs: Seq<(Seq<char>, Seq<char>)>) -> Seq<
    IngredientInputModel,
> {
    let quantities = forms::all_of(pairs, "ing_quantity"@);
    let unit_texts = forms::all_of(pairs, "ing_unit"@);
    let names = forms::all_of(pairs, "ing_name"@);
    Seq::new(
        longer(longer(quantities.len(), unit_texts.len()), names.len()),
        |i: int|
            IngredientInputModel {
                quantity: forms::text_at(quantities, i),
                unit: forms::text_at(unit_texts, i),
                name: forms::text_at(names, i),
            },
    )
}

/// The step rows of a form body. A wait that is no number is taken as none.
pub open spec fn step_inputs(pairs: Seq<(Seq<char>, Seq<char>)>) -> Seq<StepInputModel> {
    let texts = forms::all_of(pairs, "step_text"@);
    let waits = forms::numbers(forms::all_of(pairs, "step_min"@));
    Seq::new(
        longer(texts.len(), waits.len()),
        |i: int|
            StepInputModel {
                wait_minutes: if i < waits.len() {
                    waits[i]
                } else {
                    0
                },
                text: forms::text_at(texts, i),
            },
    )
}

/// The ingredient rows among the fields of a form.
pub fn ingredient_inputs_in(pairs: &Vec<(String, String)>) -> (res: Vec<IngredientInput>)
    ensures
        text::views(res@) == ingredient_inputs(text::views(pairs@)),
{
    let ghost all = ingredient_inputs(text::views(pairs@));
    let quantities: Vec<String> = forms::all_in(pairs, "ing_quantity");
    let unit_texts: Vec<String> = forms::all_in(pairs, "ing_unit");
    let names: Vec<String> = forms::all_in(pairs, "ing_name");
    assert(text::views(quantities@).len() == quantities.len());
    assert(text::views(unit_texts@).len() == unit_texts.len());
    assert(text::views(names@).len() == names.len());
    let mut count: usize = quantities.len();
    if unit_texts.len() > count {
        count = unit_texts.len();
    }
    if names.len() > count {
        count = names.len();
    }
    let mut rows: Vec<IngredientInput> = Vec::new();
    let mut i: usize = 0;
    assert(text::views(rows@) =~= all.take(0));
    while i < count
        invariant
            i <= count,
            count == all.len(),
            all == ingredient_inputs(text::views(pairs@)),
            text::views(quantities@) == forms::all_of(text::views(pairs@), "ing_quantity"@),
            text::views(unit_texts@) == forms::all_of(text::views(pairs@), "ing_unit"@),
            text::views(names@) == forms::all_of(text::views(pairs@), "ing_name"@),
            text::views(rows@) == all.take(i as int),
        decreases count - i,
    {
        let ghost before = rows@;
        let row = IngredientInput {
            quantity: forms::get_text(&quantities, i),
            unit: forms::get_text(&unit_texts, i),
            name: forms::get_text(&names, i),
        };
        proof {
            text::lemma_views_push(before, row);
            assert(all.take(i + 1) =~= all.take(i as int).push(row@));
        }
        rows.push(row);
        i += 1;
    }
    assert(all.take(i as int) =~= all);
    rows
}

/// The step rows among the fields of a form.
pub fn step_inputs_in(pairs: &Vec<(String, String)>) -> (res: Vec<StepInput>)
    ensures
        text::views(res@) == step_inputs(text::views(pairs@)),
{
    let ghost all = step_inputs(text::views(pairs@));
    let texts: Vec<String> = forms::all_in(pairs, "step_text");
    let wait_texts: Vec<String> = forms::all_in(pairs, "step_min");
    let waits: Vec<u32> = forms::parse_all(&wait_texts);
    assert(text::views(texts@).len() == texts.len());
    let mut count: usize = texts.len();
    if waits.len() > count {
        count = waits.len();
    }
    let mut rows: Vec<StepInput> = Vec::new();
    let mut i: usize = 0;
    assert(text::views(rows@) =~= all.take(0));
    while i < count
        invariant
            i <= count,
            count == all.len(),
            all == step_inputs(text::views(pairs@)),
            text::views(texts@) == forms::all_of(text::views(pairs@), "step_text"@),
            waits@ == forms::numbers(forms::all_of(text::views(pairs@), "step_min"@)),
            text::views(rows@) == all.take(i as int),
        decreases count - i,
    {
        let ghost before = rows@;
        let wait_minutes: u32 = if i < waits.len() {
            waits[i]
        } else {
            0
        };
        let row = StepInput { wait_minutes, text: forms::get_text(&texts, i) };
        proof {
            text::lemma_views_push(before, row);
            assert(all.take(i + 1) =~= all.take(i as int).push(row@));
        }
        rows.push(row);
        i += 1;
    }
    assert(all.take(i as int) =~= all);
    rows
}

/// The form that a body spells. Of a field that should occur once, the last
/// occurrence counts; one that is missing has its default. There is at least
/// one serving.
pub open spec fn form_of(pairs: Seq<(Seq<char>, Seq<char>)>) -> CreateRecipeFormModel {
    CreateRecipeFormModel {
        title: forms::text_or(forms::last_of(pairs, "title"@), Seq::empty()),
        meal_type: forms::text_or(forms::last_of(pairs, "meal_type"@), "main"@),
        cuisine: forms::text_or(forms::last_of(pairs, "cuisine"@), Seq::empty()),
        prep_minutes: forms::number_or(forms::last_of(pairs, "prep_minutes"@), 0),
        cook_minutes: forms::number_or(forms::last_of(pairs, "cook_minutes"@), 0),
        servings: forms::at_least_one(forms::number_or(forms::last_of(pairs, "servings"@), 1)),
        difficulty: forms::text_or(forms::last_of(pairs, "difficulty"@), "Medium"@),
        description: forms::text_or(forms::last_of(pairs, "description"@), Seq::empty()),
        tags: forms::all_of(pairs, "tag"@),
        ingredients: ingredient_inputs(pairs),
        steps: step_inputs(pairs),
    }
}

/// The form that a list of fields spells.
pub fn form_in(pairs: &Vec<(String, String)>) -> (res: CreateRecipeForm)
    ensures
        res@ == form_of(text::views(pairs@)),
{
    proof {
        reveal_strlit("");
        assert(""@ =~= Seq::<char>::empty());
    }
    CreateRecipeForm {
        title: forms::take_or(forms::last_in(pairs, "title"), ""),
        meal_type: forms::take_or(forms::last_in(pairs, "meal_type"), "main"),
        cuisine: forms::take_or(forms::last_in(pairs, "cuisine"), ""),
        prep_minutes: forms::parse_or(&forms::last_in(pairs, "prep_minutes"), 0),
        cook_minutes: forms::parse_or(&forms::last_in(pairs, "cook_minutes"), 0),
        servings: forms::one_or_more(forms::parse_or(&forms::last_in(pairs, "servings"), 1)),
        difficulty: forms::take_or(forms::last_in(pairs, "difficulty"), "Medium"),
        description: forms::take_or(forms::last_in(pairs, "description"), ""),
        tags: forms::all_in(pairs, "tag"),
        ingredients: ingredient_inputs_in(pairs),
        steps: step_inputs_in(pairs),
    }
}

/// The form that a body spells.
pub fn parse_form(body: &[u8]) -> (res: CreateRecipeForm)
    ensures
        res@ == form_of(forms::form_pairs(body@)),
{
    form_in(&forms::fields(body))
}

// ── What is wrong with a form ───────────────────────────────────────────

/// What is wrong with an ingredient row.
#[derive(Debug, PartialEq)]
pub struct IngredientErrors {
    pub quantity: Option<String>,
    pub name: Option<String>,
}

/// What a [`IngredientErrors`] holds, as mathematical values.
#[verifier::ext_equal]
pub struct IngredientErrorsModel {
    pub quantity: Option<Seq<char>>,
    pub name: Option<Seq<char>>,
}

impl View for IngredientErrors {
    type V = IngredientErrorsModel;

    open spec fn view(&self) -> IngredientErrorsModel {
        IngredientErrorsModel {
            quantity: text::opt_view(self.quantity),
            name: text::opt_view(self.name),
        }
    }
}

impl Clone for IngredientErrors {
    fn clone(&self) -> (res: Self)
        ensures
            res@ == self@,
    {
        IngredientErrors {
            quantity: self.quantity.clone(),
            name: self.name.clone(),
        }
    }
}

/// What is wrong with a step row.
#[derive(Debug, PartialEq)]
pub struct StepErrors {
    pub text: Option<String>,
}

/// What a [`StepErrors`] holds, as mathematical values.
#[verifier::ext_equal]
pub struct StepErrorsModel {
    pub text: Option<Seq<char>>,
}

impl View for StepErrors {
    type V = StepErrorsModel;

    open spec fn view(&self) -> StepErrorsModel {
        StepErrorsModel {
            text: text::opt_view(self.text),
        }
    }
}

impl Clone for StepErrors {
    fn clone(&self) -> (res: Self)
        ensures
            res@ == self@,
    {
        StepErrors {
            text: self.text.clone(),
        }
    }
}

/// What is wrong with a form: with its title, with each row, and in short.
#[derive(Debug, PartialEq)]
pub struct FieldErrors {
    pub title: Option<String>,
    pub ingredient: Vec<IngredientErrors>,
    pub step: Vec<StepErrors>,
    pub summary: Vec<String>,
}

/// What a [`FieldErrors`] holds, as mathematical values.
#[verifier::ext_equal]
pub struct FieldErrorsModel {
    pub title: Option<Seq<char>>,
    pub ingredient: Seq<IngredientErrorsModel>,
    pub step: Seq<StepErrorsModel>,
    pub summary: Seq<Seq<char>>,
}

impl View for FieldErrors {
    type V = FieldErrorsModel;

    open spec fn view(&self) -> FieldErrorsModel {
        FieldErrorsModel {
            title: text::opt_view(self.title),
            ingredient: text::views(self.ingredient@),
            step: text::views(self.step@),
            summary: text::views(self.summary@),
        }
    }
}

impl Clone for FieldErrors {
    fn clone(&self) -> (res: Self)
        ensures
            res@ == self@,
    {
        let ingredient: Vec<IngredientErrors> = self.ingredient.clone();
        assert(text::views(ingredient@) =~= text::views(self.ingredient@));
        let step: Vec<StepErrors> = self.step.clone();
        assert(text::views(step@) =~= text::views(self.step@));
        FieldErrors {
            title: self.title.clone(),
            ingredient,
            step,
            summary: text::clone_texts(&self.summary),
        }
    }
}

/// Nothing is wrong with a row.
pub open spec fn no_row_errors() -> IngredientErrorsModel {
    IngredientErrorsModel { quantity: None, name: None }
}

/// Nothing is wrong with a form.
pub open spec fn no_errors() -> FieldErrorsModel {
    FieldErrorsModel {
        title: None,
        ingredient: Seq::empty(),
        step: Seq::empty(),
        summary: Seq::empty(),
    }
}

impl Default for FieldErrors {
    fn default() -> (res: Self)
        ensures
            res@ == no_errors(),
    {
        let ingredient: Vec<IngredientErrors> = Vec::new();
        let step: Vec<StepErrors> = Vec::new();
        let summary: Vec<String> = Vec::new();
        assert(text::views(ingredient@) =~= Seq::<IngredientErrorsModel>::empty());
        assert(text::views(step@) =~= Seq::<StepErrorsModel>::empty());
        assert(text::views(summary@) =~= Seq::<Seq<char>>::empty());
        FieldErrors { title: None, ingredient, step, summary }
    }
}

/// Whether a form is in order: it has its title, nothing is wrong with it in
/// short, and every quantity is a number. A row without a name is marked as
/// such, but does not stop the form: a draft leaves it out.
pub open spec fn error_free(errs: FieldErrorsModel) -> bool {
    &&& errs.title is None
    &&& errs.summary.len() == 0
    &&& forall|i: int|
        0 <= i < errs.ingredient.len() ==> (#[trigger] errs.ingredient[i]).quantity is None
}

impl FieldErrors {
    /// Whether a form with these errors is in order.
    pub fn is_empty(&self) -> (res: bool)
        ensures
            res == error_free(self@),
    {
        if self.title.is_some() || self.summary.len() > 0 {
            return false;
        }
        let mut i: usize = 0;
        while i < self.ingredient.len()
            invariant
                i <= self.ingredient.len(),
                forall|j: int| 0 <= j < i ==> (#[trigger] self@.ingredient[j]).quantity is None,
            decreases self.ingredient.len() - i,
        {
            if self.ingredient[i].quantity.is_some() {
                assert(self@.ingredient[i as int].quantity is Some);
                return false;
            }
            assert(self@.ingredient[i as int].quantity is None);
            i += 1;
        }
        true
    }
}

/// Whether a row has something in it.
pub open spec fn filled(row: IngredientInputModel) -> bool {
    !text::blank(row.name) || !text::blank(row.quantity) || !text::blank(row.unit)
}

/// What is wrong with a row, where `quantity` is what its quantity field was
/// read as. A row with nothing in it is in order.
pub open spec fn row_errors(
    row: IngredientInputModel,
    quantity: Option<Quantity>,
) -> IngredientErrorsModel {
    IngredientErrorsModel {
        quantity: if filled(row) && !text::blank(row.quantity) && quantity is None {
            Some("Quantity must be a number."@)
        } else {
            None
        },
        name: if filled(row) && text::blank(row.name) {
            Some("Name is required."@)
        } else {
            None
        },
    }
}

/// Whether some row has a name.
pub open spec fn any_named(rows: Seq<IngredientInputModel>) -> bool {
    exists|i: int| 0 <= i < rows.len() && !text::blank((#[trigger] rows[i]).name)
}

/// Whether some step has a text.
pub open spec fn any_worded(rows: Seq<StepInputModel>) -> bool {
    exists|i: int| 0 <= i < rows.len() && !text::blank((#[trigger] rows[i]).text)
}

/// One text, or none.
pub open spec fn one_if(wanted: bool, message: &str) -> Seq<Seq<char>> {
    if wanted {
        seq![message@]
    } else {
        Seq::empty()
    }
}

/// What is wrong with a form.
pub open spec fn form_errors(
    form: CreateRecipeFormModel,
    quantities: Seq<Option<Quantity>>,
) -> FieldErrorsModel {
    FieldErrorsModel {
        title: if text::blank(form.title) {
            Some("A title is required."@)
        } else {
            None
        },
        ingredient: Seq::new(
            form.ingredients.len(),
            |i: int| row_errors(form.ingredients[i], quantities[i]),
        ),
        step: Seq::new(form.steps.len(), |i: int| StepErrorsModel { text: None }),
        summary: one_if(text::blank(form.title), "Add a title.") + one_if(
            !any_named(form.ingredients),
            "Add at least one ingredient.",
        ) + one_if(!any_worded(form.steps), "Add at least one step."),
    }
}

/// Whether some row has a name.
pub fn has_named(rows: &Vec<IngredientInput>) -> (res: bool)
    ensures
        res == any_named(text::views(rows@)),
{
    let mut i: usize = 0;
    while i < rows.len()
        invariant
            i <= rows.len(),
            forall|j: int| 0 <= j < i ==> text::blank((#[trigger] text::views(rows@)[j]).name),
        decreases rows.len() - i,
    {
        if !text::is_blank(rows[i].name.as_str()) {
            assert(!text::blank(text::views(rows@)[i as int].name));
            return true;
        }
        assert(text::blank(text::views(rows@)[i as int].name));
        i += 1;
    }
    false
}

/// Whether some step has a text.
pub fn has_worded(rows: &Vec<StepInput>) -> (res: bool)
    ensures
        res == any_worded(text::views(rows@)),
{
    let mut i: usize = 0;
    while i < rows.len()
        invariant
            i <= rows.len(),
            forall|j: int| 0 <= j < i ==> text::blank((#[trigger] text::views(rows@)[j]).text),
        decreases rows.len() - i,
    {
        if !text::is_blank(rows[i].text.as_str()) {
            assert(!text::blank(text::views(rows@)[i as int].text));
            return true;
        }
        assert(text::blank(text::views(rows@)[i as int].text));
        i += 1;
    }
    false
}

fn errors_of_row(row: &IngredientInput, quantity: Option<Quantity>) -> (res: IngredientErrors)
    ensures
        res@ == row_errors(row@, quantity),
{
    let no_name: bool = text::is_blank(row.name.as_str());
    let no_quantity: bool = text::is_blank(row.quantity.as_str());
    let no_unit: bool = text::is_blank(row.unit.as_str());
    if no_name && no_quantity && no_unit {
        return IngredientErrors { quantity: None, name: None };
    }
    let name: Option<String> = if no_name {
        Some("Name is required.".to_owned())
    } else {
        None
    };
    let quantity_error: Option<String> = if !no_quantity && quantity.is_none() {
        Some("Quantity must be a number.".to_owned())
    } else {
        None
    };
    IngredientErrors { quantity: quantity_error, name }
}

/// Checks a form. `quantities` holds what the quantity field of each
/// ingredient row was read as: nothing where it is blank or no number that is
/// zero or more.
pub fn validate(form: &CreateRecipeForm, quantities: &Vec<Option<Quantity>>) -> (res: FieldErrors)
    requires
        quantities@.len() == form@.ingredients.len(),
    ensures
        res@ == form_errors(form@, quantities@),
{
    let ghost all = form_errors(form@, quantities@);
    let mut title: Option<String> = None;
    let mut summary: Vec<String> = Vec::new();
    if text::is_blank(form.title.as_str()) {
        title = Some("A title is required.".to_owned());
        summary.push("Add a title.".to_owned());
    }
    assert(text::views(summary@) =~= one_if(text::blank(form@.title), "Add a title."));
    if !has_named(&form.ingredients) {
        let ghost before = summary@;
        let message: String = "Add at least one ingredient.".to_owned();
        proof {
            text::lemma_views_push(before, message);
        }
        summary.push(message);
    }
    assert(text::views(summary@) =~= one_if(text::blank(form@.title), "Add a title.") + one_if(
        !any_named(form@.ingredients),
        "Add at least one ingredient.",
    ));
    let mut ingredient: Vec<IngredientErrors> = Vec::new();
    let mut i: usize = 0;
    while i < form.ingredients.len()
        invariant
            i <= form.ingredients.len(),
            quantities@.len() == form@.ingredients.len(),
            all == form_errors(form@, quantities@),
            text::views(ingredient@) == all.ingredient.take(i as int),
        decreases form.ingredients.len() - i,
    {
        let ghost before = ingredient@;
        let errors: IngredientErrors = errors_of_row(&form.ingredients[i], quantities[i]);
        proof {
            text::lemma_views_push(before, errors);
            assert(all.ingredient.take(i + 1) =~= all.ingredient.take(i as int).push(errors@));
        }
        ingredient.push(errors);
        i += 1;
    }
    assert(all.ingredient.take(i as int) =~= all.ingredient);
    if !has_worded(&form.steps) {
        let ghost before = summary@;
        let message: String = "Add at least one step.".to_owned();
        proof {
            text::lemma_views_push(before, message);
        }
        summary.push(message);
    }
    assert(text::views(summary@) =~= all.summary);
    let mut step: Vec<StepErrors> = Vec::new();
    let mut k: usize = 0;
    while k < form.steps.len()
        invariant
            k <= form.steps.len(),
            all == form_errors(form@, quantities@),
            text::views(step@) == all.step.take(k as int),
        decreases form.steps.len() - k,
    {
        let ghost before = step@;
        let none = StepErrors { text: None };
        proof {
            text::lemma_views_push(before, none);
            assert(all.step.take(k + 1) =~= all.step.take(k as int).push(none@));
        }
        step.push(none);
        k += 1;
    }
    assert(all.step.take(k as int) =~= all.step);
    FieldErrors { title, ingredient, step, summary }
}

// ── Pages ───────────────────────────────────────────────────────────────

#[derive(Debug, PartialEq)]
pub struct CreateRecipePage {
    pub nav_items: Vec<NavItem>,
    pub user_initial: &'static str,
    pub user_name: &'static str,
    pub user_email: &'static str,
    pub user_premium: bool,
    pub title: String,
    pub cuisine: String,
    pub description: String,
    pub prep_minutes: u32,
    pub cook_minutes: u32,
    pub servings: u32,
    pub meal_type_options: Vec<MealTypeOption>,
    pub difficulty_options: Vec<DifficultyOption>,
    pub tag_options: Vec<TagOption>,
    pub ingredient_rows: Vec<IngredientRow>,
    pub step_rows: Vec<StepRow>,
    pub err_title: Option<String>,
    pub form_errors: Vec<String>,
}

/// What a [`CreateRecipePage`] holds, as mathematical values.
#[verifier::ext_equal]
pub struct CreateRecipePageModel {
    pub nav_items: Seq<NavItemModel>,
    pub user_initial: Seq<char>,
    pub user_name: Seq<char>,
    pub user_email: Seq<char>,
    pub user_premium: bool,
    pub title: Seq<char>,
    pub cuisine: Seq<char>,
    pub description: Seq<char>,
    pub prep_minutes: u32,
    pub cook_minutes: u32,
    pub servings: u32,
    pub meal_type_options: Seq<MealTypeOptionModel>,
    pub difficulty_options: Seq<DifficultyOptionModel>,
    pub tag_options: Seq<TagOptionModel>,
    pub ingredient_rows: Seq<IngredientRowModel>,
    pub step_rows: Seq<StepRowModel>,
    pub err_title: Option<Seq<char>>,
    pub form_errors: Seq<Seq<char>>,
}

impl View for CreateRecipePage {
    type V = CreateRecipePageModel;

    open spec fn view(&self) -> CreateRecipePageModel {
        CreateRecipePageModel {
            nav_items: text::views(self.nav_items@),
            user_initial: self.user_initial@,
            user_name: self.user_name@,
            user_email: self.user_email@,
            user_premium: self.user_premium,
            title: self.title@,
            cuisine: self.cuisine@,
            description: self.description@,
            prep_minutes: self.prep_minutes,
            cook_minutes: self.cook_minutes,
            servings: self.servings,
            meal_type_options: text::views(self.meal_type_options@),
            difficulty_options: text::views(self.difficulty_options@),
            tag_options: text::views(self.tag_options@),
            ingredient_rows: text::views(self.ingredient_rows@),
            step_rows: text::views(self.step_rows@),
            err_title: text::opt_view(self.err_title),
            form_errors: text::views(self.form_errors@),
        }
    }
}

#[derive(Debug, PartialEq)]
pub struct IngredientRowFragment {
    pub ing: IngredientInput,
    pub row_id: String,
    pub unit_options: Vec<UnitOption>,
    pub err_quantity: Option<String>,
    pub err_name: Option<String>,
}

/// What a [`IngredientRowFragment`] holds, as mathematical values.
#[verifier::ext_equal]
pub struct IngredientRowFragmentModel {
    pub ing: IngredientInputModel,
    pub row_id: Seq<char>,
    pub unit_options: Seq<UnitOptionModel>,
    pub err_quantity: Option<Seq<char>>,
    pub err_name: Option<Seq<char>>,
}

impl View for IngredientRowFragment {
    type V = IngredientRowFragmentModel;

    open spec fn view(&self) -> IngredientRowFragmentModel {
        IngredientRowFragmentModel {
            ing: self.ing@,
            row_id: self.row_id@,
            unit_options: text::views(self.unit_options@),
            err_quantity: text::opt_view(self.err_quantity),
            err_name: text::opt_view(self.err_name),
        }
    }
}

#[derive(Debug, PartialEq)]
pub struct StepRowFragment {
    pub step: StepInput,
    pub row_id: String,
    pub err_text: Option<String>,
}

/// What a [`StepRowFragment`] holds, as mathematical values.
#[verifier::ext_equal]
pub struct StepRowFragmentModel {
    pub step: StepInputModel,
    pub row_id: Seq<char>,
    pub err_text: Option<Seq<char>>,
}

impl View for StepRowFragment {
    type V = StepRowFragmentModel;

    open spec fn view(&self) -> StepRowFragmentModel {
        StepRowFragmentModel {
            step: self.step@,
            row_id: self.row_id@,
            err_text: text::opt_view(self.err_text),
        }
    }
}

/// The id of the row at position `i`.
pub open spec fn row_id(prefix: &str, i: int) -> Seq<char> {
    prefix@ + text::decimal(i as nat)
}

/// The errors of the row at position `i`; none where there are none for it.
pub open spec fn errors_at(errs: FieldErrorsModel, i: int) -> IngredientErrorsModel {
    if i < errs.ingredient.len() {
        errs.ingredient[i]
    } else {
        no_row_errors()
    }
}

/// The ingredient rows of the page.
pub open spec fn page_ingredients(form: CreateRecipeFormModel, errs: FieldErrorsModel) -> Seq<
    IngredientRowModel,
> {
    Seq::new(
        form.ingredients.len(),
        |i: int|
            IngredientRowModel {
                ing: form.ingredients[i],
                row_id: row_id("ing-", i),
                unit_options: units(form.ingredients[i].unit),
                err_quantity: errors_at(errs, i).quantity,
                err_name: errors_at(errs, i).name,
            },
    )
}

/// The step rows of the page.
pub open spec fn page_steps(form: CreateRecipeFormModel, errs: FieldErrorsModel) -> Seq<
    StepRowModel,
> {
    Seq::new(
        form.steps.len(),
        |i: int|
            StepRowModel {
                step: form.steps[i],
                row_id: row_id("step-", i),
                err_text: if i < errs.step.len() {
                    errs.step[i].text
                } else {
                    None
                },
            },
    )
}

/// The page with a form and what is wrong with it.
pub open spec fn create_page(
    user: UserModel,
    form: CreateRecipeFormModel,
    errs: FieldErrorsModel,
) -> CreateRecipePageModel {
    let frame = web::chrome(user);
    CreateRecipePageModel {
        nav_items: frame.nav_items,
        user_initial: frame.user_initial,
        user_name: frame.user_name,
        user_email: frame.user_email,
        user_premium: frame.user_premium,
        title: form.title,
        cuisine: form.cuisine,
        description: form.description,
        prep_minutes: form.prep_minutes,
        cook_minutes: form.cook_minutes,
        servings: form.servings,
        meal_type_options: meal_types(form.meal_type),
        difficulty_options: difficulties(form.difficulty),
        tag_options: tags(form.tags),
        ingredient_rows: page_ingredients(form, errs),
        step_rows: page_steps(form, errs),
        err_title: errs.title,
        form_errors: errs.summary,
    }
}

/// The page with a form and what is wrong with it.
pub fn build_page(user: &User, form: CreateRecipeForm, errs: FieldErrors) -> (res: CreateRecipePage)
    ensures
        res@ == create_page(user@, form@, errs@),
{
    let ghost rows = page_ingredients(form@, errs@);
    let mut ingredient_rows: Vec<IngredientRow> = Vec::new();
    let mut i: usize = 0;
    while i < form.ingredients.len()
        invariant
            i <= form.ingredients.len(),
            rows == page_ingredients(form@, errs@),
            text::views(ingredient_rows@) == rows.take(i as int),
        decreases form.ingredients.len() - i,
    {
        let ghost before = ingredient_rows@;
        let errors: IngredientErrors = if i < errs.ingredient.len() {
            errs.ingredient[i].clone()
        } else {
            IngredientErrors { quantity: None, name: None }
        };
        assert(errors@ =~= errors_at(errs@, i as int));
        let number: String = text::decimal_text(i as u64);
        let row = IngredientRow {
            ing: form.ingredients[i].clone(),
            row_id: text::join2("ing-", number.as_str()),
            unit_options: unit_options(form.ingredients[i].unit.as_str()),
            err_quantity: errors.quantity,
            err_name: errors.name,
        };
        proof {
            text::lemma_views_push(before, row);
            assert(rows.take(i + 1) =~= rows.take(i as int).push(row@));
        }
        ingredient_rows.push(row);
        i += 1;
    }
    assert(rows.take(i as int) =~= rows);

    let ghost lines = page_steps(form@, errs@);
    let mut step_rows: Vec<StepRow> = Vec::new();
    let mut k: usize = 0;
    while k < form.steps.len()
        invariant
            k <= form.steps.len(),
            lines == page_steps(form@, errs@),
            text::views(step_rows@) == lines.take(k as int),
        decreases form.steps.len() - k,
    {
        let ghost before = step_rows@;
        let err_text: Option<String> = if k < errs.step.len() {
            text::clone_opt_text(&errs.step[k].text)
        } else {
            None
        };
        let number: String = text::decimal_text(k as u64);
        let row = StepRow {
            step: form.steps[k].clone(),
            row_id: text::join2("step-", number.as_str()),
            err_text,
        };
        proof {
            text::lemma_views_push(before, row);
            assert(lines.take(k + 1) =~= lines.take(k as int).push(row@));
        }
        step_rows.push(row);
        k += 1;
    }
    assert(lines.take(k as int) =~= lines);

    let chrome: Chrome = web::chrome_for(user);
    CreateRecipePage {
        nav_items: chrome.nav_items,
        user_initial: chrome.user_initial,
        user_name: chrome.user_name,
        user_email: chrome.user_email,
        user_premium: chrome.user_premium,
        meal_type_options: meal_type_options(form.meal_type.as_str()),
        difficulty_options: difficulty_options(form.difficulty.as_str()),
        tag_options: tag_options(&form.tags),
        title: form.title,
        cuisine: form.cuisine,
        description: form.description,
        prep_minutes: form.prep_minutes,
        cook_minutes: form.cook_minutes,
        servings: form.servings,
        ingredient_rows,
        step_rows,
        err_title: errs.title,
        form_errors: errs.summary,
    }
}

// ── Requests ────────────────────────────────────────────────────────────

/// A request for the form.
pub fn create_form(user: &User) -> (res: Reply<CreateRecipePage>)
    ensures
        res@ == ReplyModel::Page(create_page(user@, starter_form(), no_errors())),
{
    Reply::Page(build_page(user, CreateRecipeForm::starter(), FieldErrors::default()))
}

/// The ingredients that a list of rows stands for.
pub open spec fn facts(
    rows: Seq<IngredientInputModel>,
    quantities: Seq<Option<Quantity>>,
) -> Seq<IngredientFactModel> {
    Seq::new(
        rows.len(),
        |i: int|
            IngredientFactModel {
                name: rows[i].name,
                quantity: quantities[i],
                unit: recipe::unit_or_unitless(rows[i].unit),
            },
    )
}

/// The steps that a list of rows stands for.
pub open spec fn step_facts(rows: Seq<StepInputModel>) -> Seq<StepFactModel> {
    rows.map_values(
        |row: StepInputModel| StepFactModel { wait_minutes: row.wait_minutes, text: row.text },
    )
}

/// The ingredients that a list of rows stands for. `quantities` holds what
/// the quantity field of each row was read as.
pub fn ingredient_facts(rows: &Vec<IngredientInput>, quantities: &Vec<Option<Quantity>>) -> (res:
    Vec<IngredientFact>)
    requires
        quantities@.len() == rows@.len(),
    ensures
        text::views(res@) == facts(text::views(rows@), quantities@),
{
    let ghost all = facts(text::views(rows@), quantities@);
    let mut out: Vec<IngredientFact> = Vec::new();
    let mut i: usize = 0;
    while i < rows.len()
        invariant
            i <= rows.len(),
            quantities@.len() == rows@.len(),
            all == facts(text::views(rows@), quantities@),
            text::views(out@) == all.take(i as int),
        decreases rows.len() - i,
    {
        let ghost before = out@;
        let fact = IngredientFact {
            name: rows[i].name.clone(),
            quantity: quantities[i],
            unit: Unit::parse_or_unitless(rows[i].unit.as_str()),
        };
        proof {
            text::lemma_views_push(before, fact);
            assert(all.take(i + 1) =~= all.take(i as int).push(fact@));
        }
        out.push(fact);
        i += 1;
    }
    assert(all.take(i as int) =~= all);
    out
}

/// The steps that a list of rows stands for.
pub fn facts_of_steps(rows: &Vec<StepInput>) -> (res: Vec<StepFact>)
    ensures
        text::views(res@) == step_facts(text::views(rows@)),
{
    let ghost all = step_facts(text::views(rows@));
    let mut out: Vec<StepFact> = Vec::new();
    let mut i: usize = 0;
    while i < rows.len()
        invariant
            i <= rows.len(),
            all == step_facts(text::views(rows@)),
            text::views(out@) == all.take(i as int),
        decreases rows.len() - i,
    {
        let ghost before = out@;
        let fact = StepFact { wait_minutes: rows[i].wait_minutes, text: rows[i].text.clone() };
        proof {
            text::lemma_views_push(before, fact);
            assert(all.take(i + 1) =~= all.take(i as int).push(fact@));
        }
        out.push(fact);
        i += 1;
    }
    assert(all.take(i as int) =~= all);
    out
}

/// The draft command that a form stands for. The form has no emoji; the one
/// of the meal type is taken for it.
pub open spec fn draft_of(
    user: UserModel,
    form: CreateRecipeFormModel,
    quantities: Seq<Option<Quantity>>,
) -> DraftRecipeModel {
    DraftRecipeModel {
        owner_id: user.id,
        title: form.title,
        meal_type: recipe::meal_type_or_main(form.meal_type),
        cuisine: form.cuisine,
        emoji: Seq::empty(),
        prep_minutes: form.prep_minutes,
        cook_minutes: form.cook_minutes,
        servings: form.servings,
        difficulty: form.difficulty,
        description: form.description,
        tags: form.tags,
        ingredients: facts(form.ingredients, quantities),
        steps: step_facts(form.steps),
        provenance: ProvenanceModel { kind: "manual"@, import_job_id: Seq::empty() },
    }
}

/// What a submitted form leads to.
pub open spec fn submit_step(
    user: UserModel,
    form: CreateRecipeFormModel,
    quantities: Seq<Option<Quantity>>,
) -> StepModel<DraftRecipeModel, CreateRecipePageModel> {
    if error_free(form_errors(form, quantities)) {
        StepModel::Run(draft_of(user, form, quantities))
    } else {
        StepModel::Reply(
            ReplyModel::Unprocessable(create_page(user, form, form_errors(form, quantities))),
        )
    }
}

/// A submitted form: a form in order becomes a draft command, any other
/// is shown again. `quantities` holds what the quantity field of each
/// ingredient row was read as.
pub fn create_submit(
    user: &User,
    form: CreateRecipeForm,
    quantities: &Vec<Option<Quantity>>,
) -> (res: Step<DraftRecipe, CreateRecipePage>)
    requires
        quantities@.len() == form@.ingredients.len(),
    ensures
        res@ == submit_step(user@, form@, quantities@),
{
    let errs: FieldErrors = validate(&form, quantities);
    if !errs.is_empty() {
        return Step::Reply(Reply::Unprocessable(build_page(user, form, errs)));
    }
    let ingredients: Vec<IngredientFact> = ingredient_facts(&form.ingredients, quantities);
    let steps: Vec<StepFact> = facts_of_steps(&form.steps);
    Step::Run(
        DraftRecipe {
            owner_id: web::owner_id(user),
            title: form.title,
            meal_type: MealType::parse_or_main(form.meal_type.as_str()),
            cuisine: form.cuisine,
            emoji: String::new(),
            prep_minutes: form.prep_minutes,
            cook_minutes: form.cook_minutes,
            servings: form.servings,
            difficulty: form.difficulty,
            description: form.description,
            tags: form.tags,
            ingredients,
            steps,
            provenance: Provenance::manual(),
        },
    )
}

/// The answer to a form whose draft command was carried out.
pub open spec fn submit_answer(
    user: UserModel,
    form: CreateRecipeFormModel,
    drafted: Result<Seq<char>, Seq<char>>,
) -> ReplyModel<CreateRecipePageModel> {
    match drafted {
        Ok(id) => ReplyModel::Redirect("/recipes/"@ + id + "?awaiting=1"@),
        Err(err) => ReplyModel::Unprocessable(
            create_page(
                user,
                form,
                FieldErrorsModel { summary: seq!["Couldn't save: "@ + err], ..no_errors() },
            ),
        ),
    }
}

/// The answer once the draft command is carried out: the page of the new
/// recipe, which waits for it, or the form with what went wrong.
pub fn create_submit_done(
    user: &User,
    form: CreateRecipeForm,
    drafted: Result<String, String>,
) -> (res: Reply<CreateRecipePage>)
    ensures
        res@ == submit_answer(user@, form@, web::id_outcome(drafted)),
{
    match drafted {
        Ok(id) => Reply::Redirect(text::join3("/recipes/", id.as_str(), "?awaiting=1")),
        Err(err) => {
            let message: String = text::join2("Couldn't save: ", err.as_str());
            let mut errs: FieldErrors = FieldErrors::default();
            errs.summary.push(message);
            assert(text::views(errs.summary@) =~= seq!["Couldn't save: "@ + err@]);
            Reply::Unprocessable(build_page(user, form, errs))
        },
    }
}

/// The id of a row that is added while the form is open: the `n`th of its
/// process.
pub open spec fn new_row_id(prefix: Seq<char>, n: u64) -> Seq<char> {
    prefix + "-new-"@ + text::decimal(n as nat)
}

/// The id of a row that is added while the form is open. `n` is a number that
/// no other row of the process has.
pub fn next_row_id(prefix: &str, n: u64) -> (res: String)
    ensures
        res@ == new_row_id(prefix@, n),
{
    let number: String = text::decimal_text(n);
    text::join3(prefix, "-new-", number.as_str())
}

/// The ingredient row that is added `n`th.
pub open spec fn new_ingredient_row(n: u64) -> IngredientRowFragmentModel {
    IngredientRowFragmentModel {
        ing: empty_ingredient(),
        row_id: new_row_id("ing"@, n),
        unit_options: units(Seq::empty()),
        err_quantity: None,
        err_name: None,
    }
}

/// A request for one more ingredient row.
pub fn ingredient_row_fragment(n: u64) -> (res: Reply<IngredientRowFragment>)
    ensures
        res@ == ReplyModel::Page(new_ingredient_row(n)),
{
    proof {
        reveal_strlit("");
        assert(""@ =~= Seq::<char>::empty());
    }
    Reply::Page(
        IngredientRowFragment {
            ing: IngredientInput::default(),
            row_id: next_row_id("ing", n),
            unit_options: unit_options(""),
            err_quantity: None,
            err_name: None,
        },
    )
}

/// The step row that is added `n`th.
pub open spec fn new_step_row(n: u64) -> StepRowFragmentModel {
    StepRowFragmentModel { step: empty_step(), row_id: new_row_id("step"@, n), err_text: None }
}

/// A request for one more step row.
pub fn step_row_fragment(n: u64) -> (res: Reply<StepRowFragment>)
    ensures
        res@ == ReplyModel::Page(new_step_row(n)),
{
    Reply::Page(
        StepRowFragment {
            step: StepInput::default(),
            row_id: next_row_id("step", n),
            err_text: None,
        },
    )
}

// ── What holds of the form ──────────────────────────────────────────────

/// A submitted form that is in order always gives a draft that is accepted,
/// for any user with an id: what the form checks is all that a draft asks,
/// given that a form has at least one serving.
pub proof fn law_valid_forms_can_be_drafted(
    user: UserModel,
    form: CreateRecipeFormModel,
    quantities: Seq<Option<Quantity>>,
)
    requires
        quantities.len() == form.ingredients.len(),
        !text::blank(user.id),
        form.servings >= 1,
        error_free(form_errors(form, quantities)),
    ensures
        recipe::drafted(draft_of(user, form, quantities)) is Ok,
{
    let cmd = draft_of(user, form, quantities);
    let errs = form_errors(form, quantities);
    assert(errs.summary.len() == 0);
    assert(any_named(form.ingredients));
    assert(any_worded(form.steps));
    let i = choose|i: int|
        0 <= i < form.ingredients.len() && !text::blank((#[trigger] form.ingredients[i]).name);
    assert(cmd.ingredients[i].name == form.ingredients[i].name);
    recipe::lemma_filter_nonempty(cmd.ingredients, recipe::named(), i);
    let k = choose|k: int|
        0 <= k < form.steps.len() && !text::blank((#[trigger] form.steps[k]).text);
    assert(cmd.steps[k].text == form.steps[k].text);
    recipe::lemma_filter_nonempty(cmd.steps, recipe::worded(), k);
}

/// Every form that a body spells has at least one serving.
pub proof fn law_parsed_forms_have_a_serving(pairs: Seq<(Seq<char>, Seq<char>)>)
    ensures
        form_of(pairs).servings >= 1,
{
}

/// What a form has to have: a title, an ingredient with a name, a step with a
/// text, and a number in every quantity that is filled in. Nothing else is
/// asked of it.
pub proof fn law_what_a_form_needs(
    form: CreateRecipeFormModel,
    quantities: Seq<Option<Quantity>>,
)
    requires
        quantities.len() == form.ingredients.len(),
    ensures
        error_free(form_errors(form, quantities)) <==> (!text::blank(form.title) && any_named(
            form.ingredients,
        ) && any_worded(form.steps) && forall|i: int|
            0 <= i < form.ingredients.len() && !text::blank(
                (#[trigger] form.ingredients[i]).quantity,
            ) ==> quantities[i] is Some),
{
    let errs = form_errors(form, quantities);
    if error_free(errs) {
        assert forall|i: int|
            0 <= i < form.ingredients.len() && !text::blank(
                (#[trigger] form.ingredients[i]).quantity,
            ) implies quantities[i] is Some by {
            assert(errs.ingredient[i].quantity is None);
        }
    } else if !text::blank(form.title) && any_named(form.ingredients) && any_worded(form.steps) {
        assert(errs.summary.len() == 0);
        let i = choose|i: int|
            0 <= i < errs.ingredient.len() && (#[trigger] errs.ingredient[i]).quantity is Some;
        assert(!text::blank(form.ingredients[i].quantity));
    }
}

/// A row without a name never gets into a recipe, whatever else is in it.
pub proof fn law_nameless_rows_are_left_out(
    user: UserModel,
    form: CreateRecipeFormModel,
    quantities: Seq<Option<Quantity>>,
    i: int,
)
    requires
        recipe::drafted(draft_of(user, form, quantities)) matches Ok(event) && 0 <= i
            < event.ingredients.len(),
    ensures
        !text::blank(recipe::drafted(draft_of(user, form, quantities))->Ok_0.ingredients[i].name),
{
    let cmd = draft_of(user, form, quantities);
    cmd.ingredients.lemma_filter_pred(recipe::named(), i);
}

/// In a form that is in order, every quantity that is filled in was read as a
/// number.
pub proof fn law_valid_quantities_are_numbers(
    form: CreateRecipeFormModel,
    quantities: Seq<Option<Quantity>>,
    i: int,
)
    requires
        quantities.len() == form.ingredients.len(),
        error_free(form_errors(form, quantities)),
        0 <= i < form.ingredients.len(),
    ensures
        !text::blank(form.ingredients[i].quantity) ==> quantities[i] is Some,
{
    assert(form_errors(form, quantities).ingredient[i].quantity is None);
}

/// Rows that are added with different numbers have different ids, and none of
/// them has the id of a row that the page was shown with.
pub proof fn law_row_ids_differ(prefix: Seq<char>, n: u64, m: u64, i: int, j: int)
    requires
        0 <= i,
        0 <= j,
    ensures
        new_row_id(prefix, n) == new_row_id(prefix, m) ==> n == m,
        row_id("ing-", i) == row_id("ing-", j) ==> i == j,
        row_id("step-", i) == row_id("step-", j) ==> i == j,
        new_row_id("ing"@, n) != row_id("ing-", i),
        new_row_id("step"@, n) != row_id("step-", i),
{
    text::lemma_decimal_after(prefix + "-new-"@, n as nat, m as nat);
    text::lemma_decimal_after("ing-"@, i as nat, j as nat);
    text::lemma_decimal_after("step-"@, i as nat, j as nat);
    text::lemma_decimal_digits(i as nat);
    reveal_strlit("ing");
    reveal_strlit("step");
    reveal_strlit("ing-");
    reveal_strlit("step-");
    reveal_strlit("-new-");
    let number = text::decimal(i as nat);
    assert(new_row_id("ing"@, n)[4] == 'n');
    assert(row_id("ing-", i)[4] == number[0]);
    assert(new_row_id("step"@, n)[5] == 'n');
    assert(row_id("step-", i)[5] == number[0]);
}

/// The text fields of a form hold what the last field of their name holds, and
/// their usual text if there is none.
pub proof fn law_text_fields_are_read(pairs: Seq<(Seq<char>, Seq<char>)>, i: int)
    ensures
        forms::is_last(pairs, "title"@, i) ==> form_of(pairs).title == pairs[i].1,
        forms::is_absent(pairs, "title"@) ==> form_of(pairs).title == Seq::<char>::empty(),
        forms::is_last(pairs, "meal_type"@, i) ==> form_of(pairs).meal_type == pairs[i].1,
        forms::is_absent(pairs, "meal_type"@) ==> form_of(pairs).meal_type == "main"@,
        forms::is_last(pairs, "cuisine"@, i) ==> form_of(pairs).cuisine == pairs[i].1,
        forms::is_absent(pairs, "cuisine"@) ==> form_of(pairs).cuisine == Seq::<char>::empty(),
        forms::is_last(pairs, "difficulty"@, i) ==> form_of(pairs).difficulty == pairs[i].1,
        forms::is_absent(pairs, "difficulty"@) ==> form_of(pairs).difficulty == "Medium"@,
        forms::is_last(pairs, "description"@, i) ==> form_of(pairs).description == pairs[i].1,
        forms::is_absent(pairs, "description"@) ==> form_of(pairs).description == Seq::<char>::empty(),
{
    if forms::is_last(pairs, "title"@, i) {
        forms::law_last_value(pairs, "title"@, i);
    }
    if forms::is_absent(pairs, "title"@) {
        forms::law_no_value(pairs, "title"@);
    }
    if forms::is_last(pairs, "meal_type"@, i) {
        forms::law_last_value(pairs, "meal_type"@, i);
    }
    if forms::is_absent(pairs, "meal_type"@) {
        forms::law_no_value(pairs, "meal_type"@);
    }
    if forms::is_last(pairs, "cuisine"@, i) {
        forms::law_last_value(pairs, "cuisine"@, i);
    }
    if forms::is_absent(pairs, "cuisine"@) {
        forms::law_no_value(pairs, "cuisine"@);
    }
    if forms::is_last(pairs, "difficulty"@, i) {
        forms::law_last_value(pairs, "difficulty"@, i);
    }
    if forms::is_absent(pairs, "difficulty"@) {
        forms::law_no_value(pairs, "difficulty"@);
    }
    if forms::is_last(pairs, "description"@, i) {
        forms::law_last_value(pairs, "description"@, i);
    }
    if forms::is_absent(pairs, "description"@) {
        forms::law_no_value(pairs, "description"@);
    }
}

/// The number fields of a form hold the number that the last field of their
/// name spells, and their usual number if it spells none or there is none.
pub proof fn law_number_fields_are_read(pairs: Seq<(Seq<char>, Seq<char>)>, i: int, n: u32)
    ensures
        forms::is_last(pairs, "prep_minutes"@, i) && pairs[i].1 == text::decimal(n as nat)
            ==> form_of(pairs).prep_minutes == n,
        forms::is_last(pairs, "prep_minutes"@, i) && text::number(pairs[i].1) is None ==> form_of(
            pairs,
        ).prep_minutes == 0,
        forms::is_absent(pairs, "prep_minutes"@) ==> form_of(pairs).prep_minutes == 0,
        forms::is_last(pairs, "cook_minutes"@, i) && pairs[i].1 == text::decimal(n as nat)
            ==> form_of(pairs).cook_minutes == n,
        forms::is_last(pairs, "cook_minutes"@, i) && text::number(pairs[i].1) is None ==> form_of(
            pairs,
        ).cook_minutes == 0,
        forms::is_absent(pairs, "cook_minutes"@) ==> form_of(pairs).cook_minutes == 0,
        n >= 1 && forms::is_last(pairs, "servings"@, i) && pairs[i].1 == text::decimal(n as nat)
            ==> form_of(pairs).servings == n,
        forms::is_last(pairs, "servings"@, i) && text::number(pairs[i].1) is None ==> form_of(
            pairs,
        ).servings == 1,
        forms::is_absent(pairs, "servings"@) ==> form_of(pairs).servings == 1,
{
    text::law_decimal_is_read_back(n);
    if forms::is_last(pairs, "prep_minutes"@, i) {
        forms::law_last_value(pairs, "prep_minutes"@, i);
    }
    if forms::is_absent(pairs, "prep_minutes"@) {
        forms::law_no_value(pairs, "prep_minutes"@);
    }
    if forms::is_last(pairs, "cook_minutes"@, i) {
        forms::law_last_value(pairs, "cook_minutes"@, i);
    }
    if forms::is_absent(pairs, "cook_minutes"@) {
        forms::law_no_value(pairs, "cook_minutes"@);
    }
    if forms::is_last(pairs, "servings"@, i) {
        forms::law_last_value(pairs, "servings"@, i);
    }
    if forms::is_absent(pairs, "servings"@) {
        forms::law_no_value(pairs, "servings"@);
    }
}

/// A tag field adds its tag at the end, and no other field changes the tags.
pub proof fn law_tags_are_read(
    pairs: Seq<(Seq<char>, Seq<char>)>,
    pair: (Seq<char>, Seq<char>),
)
    ensures
        form_of(Seq::<(Seq<char>, Seq<char>)>::empty()).tags.len() == 0,
        pair.0 == "tag"@ ==> form_of(pairs.push(pair)).tags == form_of(pairs).tags.push(pair.1),
        pair.0 != "tag"@ ==> form_of(pairs.push(pair)).tags == form_of(pairs).tags,
{
    assert(pairs.push(pair).drop_last() =~= pairs);
}

/// The ingredient rows of a form: the values under each of the three names
/// are dealt out to the rows in their order, and a row for which there is no
/// value left has an empty one. There are just as many rows as it takes.
pub proof fn law_ingredient_rows_are_read(pairs: Seq<(Seq<char>, Seq<char>)>, i: int)
    ensures
        ({
            let rows = form_of(pairs).ingredients;
            let quantities = forms::all_of(pairs, "ing_quantity"@);
            let unit_texts = forms::all_of(pairs, "ing_unit"@);
            let names = forms::all_of(pairs, "ing_name"@);
            &&& rows.len() >= quantities.len()
            &&& rows.len() >= unit_texts.len()
            &&& rows.len() >= names.len()
            &&& rows.len() == quantities.len() || rows.len() == unit_texts.len() || rows.len()
                == names.len()
            &&& 0 <= i < quantities.len() ==> rows[i].quantity == quantities[i]
            &&& quantities.len() <= i < rows.len() ==> rows[i].quantity.len() == 0
            &&& 0 <= i < unit_texts.len() ==> rows[i].unit == unit_texts[i]
            &&& unit_texts.len() <= i < rows.len() ==> rows[i].unit.len() == 0
            &&& 0 <= i < names.len() ==> rows[i].name == names[i]
            &&& names.len() <= i < rows.len() ==> rows[i].name.len() == 0
        }),
{
}

/// The step rows of a form are dealt out in the same way; minutes that are no
/// number, or are not there, count as none.
pub proof fn law_step_rows_are_read(pairs: Seq<(Seq<char>, Seq<char>)>, i: int, n: u32)
    ensures
        ({
            let rows = form_of(pairs).steps;
            let texts = forms::all_of(pairs, "step_text"@);
            let waits = forms::all_of(pairs, "step_min"@);
            &&& rows.len() >= texts.len()
            &&& rows.len() >= waits.len()
            &&& rows.len() == texts.len() || rows.len() == waits.len()
            &&& 0 <= i < texts.len() ==> rows[i].text == texts[i]
            &&& texts.len() <= i < rows.len() ==> rows[i].text.len() == 0
            &&& 0 <= i < waits.len() && waits[i] == text::decimal(n as nat)
                ==> rows[i].wait_minutes == n
            &&& 0 <= i < waits.len() && text::number(waits[i]) is None ==> rows[i].wait_minutes
                == 0
            &&& waits.len() <= i < rows.len() ==> rows[i].wait_minutes == 0
        }),
{
    text::law_decimal_is_read_back(n);
}

/// A row that is written out as its three fields, after rows that have all of
/// theirs, is read as one more row.
pub proof fn law_written_ingredient_rows_are_read_back(
    pairs: Seq<(Seq<char>, Seq<char>)>,
    row: IngredientInputModel,
)
    requires
        forms::all_of(pairs, "ing_quantity"@).len() == forms::all_of(pairs, "ing_name"@).len(),
        forms::all_of(pairs, "ing_unit"@).len() == forms::all_of(pairs, "ing_name"@).len(),
    ensures
        form_of(
            pairs.push(("ing_quantity"@, row.quantity)).push(("ing_unit"@, row.unit)).push(
                ("ing_name"@, row.name),
            ),
        ).ingredients == form_of(pairs).ingredients.push(row),
{
    reveal_strlit("ing_quantity");
    reveal_strlit("ing_unit");
    reveal_strlit("ing_name");
    assert("ing_unit"@[4] == 'u' && "ing_name"@[4] == 'n');
    let one = pairs.push(("ing_quantity"@, row.quantity));
    let two = one.push(("ing_unit"@, row.unit));
    let three = two.push(("ing_name"@, row.name));
    assert(one.drop_last() =~= pairs);
    assert(two.drop_last() =~= one);
    assert(three.drop_last() =~= two);
    reveal_with_fuel(forms::all_of, 4);
    assert(form_of(three).ingredients =~= form_of(pairs).ingredients.push(row));
}

/// A step that is written out as its two fields, after steps that have both of
/// theirs, is read as one more step.
pub proof fn law_written_step_rows_are_read_back(
    pairs: Seq<(Seq<char>, Seq<char>)>,
    row: StepInputModel,
)
    requires
        forms::all_of(pairs, "step_min"@).len() == forms::all_of(pairs, "step_text"@).len(),
    ensures
        form_of(
            pairs.push(("step_min"@, text::decimal(row.wait_minutes as nat))).push(
                ("step_text"@, row.text),
            ),
        ).steps == form_of(pairs).steps.push(row),
{
    reveal_strlit("step_min");
    reveal_strlit("step_text");
    assert("step_min"@.len() == 8 && "step_text"@.len() == 9);
    let one = pairs.push(("step_min"@, text::decimal(row.wait_minutes as nat)));
    let two = one.push(("step_text"@, row.text));
    assert(one.drop_last() =~= pairs);
    assert(two.drop_last() =~= one);
    reveal_with_fuel(forms::all_of, 3);
    text::law_decimal_is_read_back(row.wait_minutes);
    assert(form_of(two).steps =~= form_of(pairs).steps.push(row));
}

/// A form becomes a draft if and only if it has a title, a row with a name, a
/// step with a text and a number in every quantity that is filled in. The
/// draft is the user's, and has all that the form has: a row each for the
/// ingredients and the steps, in their order.
pub proof fn law_forms_become_drafts(
    user: UserModel,
    form: CreateRecipeFormModel,
    quantities: Seq<Option<Quantity>>,
)
    requires
        quantities.len() == form.ingredients.len(),
    ensures
        submit_step(user, form, quantities) is Run <==> (!text::blank(form.title) && (exists|
            i: int,
        |
            0 <= i < form.ingredients.len() && !text::blank(
                (#[trigger] form.ingredients[i]).name,
            )) && (exists|i: int|
            0 <= i < form.steps.len() && !text::blank((#[trigger] form.steps[i]).text)) && (forall|
            i: int,
        |
            0 <= i < form.ingredients.len() && !text::blank(
                (#[trigger] form.ingredients[i]).quantity,
            ) ==> quantities[i] is Some)),
        submit_step(user, form, quantities) matches StepModel::Run(cmd) ==> cmd.owner_id == user.id
            && cmd.title == form.title && cmd.cuisine == form.cuisine && cmd.prep_minutes
            == form.prep_minutes && cmd.cook_minutes == form.cook_minutes && cmd.servings
            == form.servings && cmd.difficulty == form.difficulty && cmd.description
            == form.description && cmd.tags == form.tags && text::blank(cmd.emoji)
            && cmd.provenance.kind == "manual"@ && cmd.ingredients.len() == form.ingredients.len()
            && cmd.steps.len() == form.steps.len(),
{
    law_what_a_form_needs(form, quantities);
    reveal_with_fuel(text::trim_start, 2);
}

/// A draft has the meal type that its form names, and a main course if the
/// form names none.
pub proof fn law_drafts_have_the_meal_type_of_their_form(
    user: UserModel,
    form: CreateRecipeFormModel,
    quantities: Seq<Option<Quantity>>,
    meal_type: MealType,
)
    ensures
        form.meal_type == meal_type.slug_text() ==> draft_of(user, form, quantities).meal_type
            == meal_type,
        (forall|m: MealType| form.meal_type != #[trigger] m.slug_text()) ==> draft_of(
            user,
            form,
            quantities,
        ).meal_type == MealType::Main,
{
    recipe::law_unknown_meal_types_are_mains(form.meal_type, meal_type);
}

/// An ingredient has the name of its row, what its quantity was read as, and
/// the unit that the row names, or none.
pub proof fn law_ingredients_say_what_their_rows_say(
    rows: Seq<IngredientInputModel>,
    quantities: Seq<Option<Quantity>>,
    i: int,
    unit: Unit,
)
    requires
        0 <= i < rows.len(),
        quantities.len() == rows.len(),
    ensures
        facts(rows, quantities).len() == rows.len(),
        facts(rows, quantities)[i].name == rows[i].name,
        facts(rows, quantities)[i].quantity == quantities[i],
        rows[i].unit == unit.slug_text() ==> facts(rows, quantities)[i].unit == unit,
        recipe::unit_of(rows[i].unit) is None ==> facts(rows, quantities)[i].unit
            == Unit::Unitless,
{
    recipe::law_unit_slug_round_trip(unit);
}

/// A step has the text and the minutes of its row.
pub proof fn law_steps_say_what_their_rows_say(rows: Seq<StepInputModel>, i: int)
    requires
        0 <= i < rows.len(),
    ensures
        step_facts(rows).len() == rows.len(),
        step_facts(rows)[i].text == rows[i].text,
        step_facts(rows)[i].wait_minutes == rows[i].wait_minutes,
{
}

/// A form that is refused is shown again with all that was in it, and with a
/// line for each thing that it lacks: a title, an ingredient, a step.
pub proof fn law_refused_forms_are_told_what_they_lack(
    user: UserModel,
    form: CreateRecipeFormModel,
    quantities: Seq<Option<Quantity>>,
)
    requires
        quantities.len() == form.ingredients.len(),
        submit_step(user, form, quantities) is Reply,
    ensures
        submit_step(user, form, quantities) matches StepModel::Reply(ReplyModel::Unprocessable(page))
            && shows_form(page, form) && (page.err_title is Some <==> text::blank(form.title)) && (
        page.form_errors.contains("Add a title."@) <==> text::blank(form.title)) && (
        page.form_errors.contains("Add at least one ingredient."@) <==> forall|i: int|
            0 <= i < form.ingredients.len() ==> text::blank(
                (#[trigger] form.ingredients[i]).name,
            )) && (page.form_errors.contains("Add at least one step."@) <==> forall|i: int|
            0 <= i < form.steps.len() ==> text::blank((#[trigger] form.steps[i]).text)),
{
    reveal_strlit("Add a title.");
    reveal_strlit("Add at least one ingredient.");
    reveal_strlit("Add at least one step.");
    assert("Add a title."@.len() == 12);
    assert("Add at least one ingredient."@.len() == 28);
    assert("Add at least one step."@.len() == 22);
    let lines = form_errors(form, quantities).summary;
    let title = one_if(text::blank(form.title), "Add a title.");
    let named = one_if(!any_named(form.ingredients), "Add at least one ingredient.");
    let worded = one_if(!any_worded(form.steps), "Add at least one step.");
    assert(lines == title + named + worded);
    if text::blank(form.title) {
        assert(lines[0] == "Add a title."@);
    }
    if !any_named(form.ingredients) {
        assert(lines[title.len() as int] == "Add at least one ingredient."@);
    }
    if !any_worded(form.steps) {
        assert(lines[(title.len() + named.len()) as int] == "Add at least one step."@);
    }
}

/// Whether a page shows a form: every field and every row of it, and its
/// choices as the active ones.
pub open spec fn shows_form(page: CreateRecipePageModel, form: CreateRecipeFormModel) -> bool {
    &&& page.title == form.title
    &&& page.cuisine == form.cuisine
    &&& page.description == form.description
    &&& page.prep_minutes == form.prep_minutes
    &&& page.cook_minutes == form.cook_minutes
    &&& page.servings == form.servings
    &&& page.ingredient_rows.len() == form.ingredients.len()
    &&& forall|i: int|
        0 <= i < form.ingredients.len() ==> (#[trigger] page.ingredient_rows[i]).ing
            == form.ingredients[i]
    &&& page.step_rows.len() == form.steps.len()
    &&& forall|i: int|
        0 <= i < form.steps.len() ==> (#[trigger] page.step_rows[i]).step == form.steps[i]
    &&& forall|i: int|
        0 <= i < page.meal_type_options.len() ==> ((#[trigger] page.meal_type_options[i]).active
            <==> page.meal_type_options[i].slug == form.meal_type)
    &&& forall|i: int|
        0 <= i < page.difficulty_options.len() ==> ((#[trigger] page.difficulty_options[i]).active
            <==> page.difficulty_options[i].value == form.difficulty)
    &&& forall|i: int|
        0 <= i < page.tag_options.len() ==> ((#[trigger] page.tag_options[i]).active
            <==> form.tags.contains(page.tag_options[i].value))
}

/// The page of a form shows it, whatever is wrong with it.
pub proof fn law_pages_show_their_form(
    user: UserModel,
    form: CreateRecipeFormModel,
    errs: FieldErrorsModel,
)
    ensures
        shows_form(create_page(user, form, errs), form),
        create_page(user, form, errs).form_errors == errs.summary,
        create_page(user, form, errs).err_title == errs.title,
{
}

/// A row of a refused form is marked for its quantity if that is filled in
/// and is no number, and for its name if that alone is missing.
pub proof fn law_rows_are_marked(
    user: UserModel,
    form: CreateRecipeFormModel,
    quantities: Seq<Option<Quantity>>,
    i: int,
)
    requires
        0 <= i < form.ingredients.len(),
        quantities.len() == form.ingredients.len(),
    ensures
        ({
            let row = create_page(
                user,
                form,
                form_errors(form, quantities),
            ).ingredient_rows[i];
            &&& row.err_quantity is Some <==> !text::blank(form.ingredients[i].quantity)
                && quantities[i] is None
            &&& row.err_name is Some <==> text::blank(form.ingredients[i].name) && !(text::blank(
                form.ingredients[i].quantity,
            ) && text::blank(form.ingredients[i].unit))
        }),
{
}

/// Once a draft is carried out the user is sent to the page of the recipe; a
/// draft that fails shows the form again, with the reason.
pub proof fn law_submitted_forms_are_answered(
    user: UserModel,
    form: CreateRecipeFormModel,
    id: Seq<char>,
    err: Seq<char>,
)
    ensures
        submit_answer(user, form, Ok(id)) == ReplyModel::<CreateRecipePageModel>::Redirect(
            "/recipes/"@ + id + "?awaiting=1"@,
        ),
        submit_answer(user, form, Err(err)) matches ReplyModel::Unprocessable(page) && shows_form(
            page,
            form,
        ) && page.form_errors.len() == 1 && err.is_suffix_of(page.form_errors[0]),
{
    let line = "Couldn't save: "@ + err;
    assert(line.skip(line.len() - err.len()) =~= err);
}

/// The menus of the form: every meal type once, with its own slug, label and
/// emoji, and every unit once, by its slug. The active choices are those that
/// are asked for, and no others.
pub proof fn law_menus_offer_every_choice(
    active: Seq<char>,
    active_tags: Seq<Seq<char>>,
    meal_type: MealType,
    unit: Unit,
    i: int,
)
    ensures
        exists|k: int|
            0 <= k < meal_types(active).len() && (#[trigger] meal_types(active)[k]).slug
                == meal_type.slug_text() && meal_types(active)[k].label == meal_type.label_text()
                && meal_types(active)[k].emoji == meal_type.emoji_text(),
        exists|k: int|
            0 <= k < units(active).len() && (#[trigger] units(active)[k]).value
                == unit.slug_text(),
        0 <= i < meal_types(active).len() ==> (meal_types(active)[i].active <==> meal_types(
            active,
        )[i].slug == active),
        0 <= i < units(active).len() ==> (units(active)[i].selected <==> units(active)[i].value
            == active),
        0 <= i < difficulties(active).len() ==> (difficulties(active)[i].active <==> difficulties(
            active,
        )[i].value == active) && difficulties(active)[i].label == difficulties(active)[i].value,
        0 <= i < tags(active_tags).len() ==> (tags(active_tags)[i].active
            <==> active_tags.contains(tags(active_tags)[i].value)),
        meal_types(active).len() == 4,
        units(active).len() == 10,
        difficulties(active).len() == 3,
        tags(active_tags).len() == 10,
{
    let m = meal_types(active);
    assert(m[0].slug == MealType::Entree.slug_text());
    assert(m[1].slug == MealType::Main.slug_text());
    assert(m[2].slug == MealType::Side.slug_text());
    assert(m[3].slug == MealType::Dessert.slug_text());
    let u = units(active);
    assert(u[0].value == Unit::Unitless.slug_text());
    assert(u[1].value == Unit::G.slug_text());
    assert(u[2].value == Unit::Kg.slug_text());
    assert(u[3].value == Unit::Ml.slug_text());
    assert(u[4].value == Unit::L.slug_text());
    assert(u[5].value == Unit::Tbsp.slug_text());
    assert(u[6].value == Unit::Tsp.slug_text());
    assert(u[7].value == Unit::Cup.slug_text());
    assert(u[8].value == Unit::Piece.slug_text());
    assert(u[9].value == Unit::Pinch.slug_text());
}

/// A row that is added is empty and unmarked, and so are those that the form
/// begins with.
pub proof fn law_new_rows_are_empty(n: u64, i: int)
    ensures
        new_ingredient_row(n).ing.name.len() == 0,
        new_ingredient_row(n).ing.quantity.len() == 0,
        new_ingredient_row(n).ing.unit.len() == 0,
        new_ingredient_row(n).err_quantity is None,
        new_ingredient_row(n).err_name is None,
        new_step_row(n).step.text.len() == 0,
        new_step_row(n).step.wait_minutes == 0,
        new_step_row(n).err_text is None,
        0 <= i < starter_form().ingredients.len() ==> starter_form().ingredients[i]
            == new_ingredient_row(n).ing,
        0 <= i < starter_form().steps.len() ==> starter_form().steps[i] == new_step_row(n).step,
{
}

/// A model has every field of the value that it stands for.
pub proof fn law_models_have_every_field(
    meal_type_option: MealTypeOption,
    difficulty_option: DifficultyOption,
    tag_option: TagOption,
    unit_option: UnitOption,
    ingredient_input: IngredientInput,
    step_input: StepInput,
    ingredient_row: IngredientRow,
    step_row: StepRow,
    create_recipe_form: CreateRecipeForm,
    ingredient_errors: IngredientErrors,
    step_errors: StepErrors,
    field_errors: FieldErrors,
    create_recipe_page: CreateRecipePage,
    ingredient_row_fragment: IngredientRowFragment,
    step_row_fragment: StepRowFragment,
)
    ensures
        meal_type_option@.slug == meal_type_option.slug@,
        meal_type_option@.label == meal_type_option.label@,
        meal_type_option@.emoji == meal_type_option.emoji@,
        meal_type_option@.active == meal_type_option.active,
        difficulty_option@.value == difficulty_option.value@,
        difficulty_option@.label == difficulty_option.label@,
        difficulty_option@.active == difficulty_option.active,
        tag_option@.value == tag_option.value@,
        tag_option@.active == tag_option.active,
        unit_option@.value == unit_option.value@,
        unit_option@.label == unit_option.label@,
        unit_option@.selected == unit_option.selected,
        ingredient_input@.quantity == ingredient_input.quantity@,
        ingredient_input@.unit == ingredient_input.unit@,
        ingredient_input@.name == ingredient_input.name@,
        step_input@.wait_minutes == step_input.wait_minutes,
        step_input@.text == step_input.text@,
        ingredient_row@.ing == ingredient_row.ing@,
        ingredient_row@.row_id == ingredient_row.row_id@,
        ingredient_row@.unit_options == text::views(ingredient_row.unit_options@),
        ingredient_row@.err_quantity == text::opt_view(ingredient_row.err_quantity),
        ingredient_row@.err_name == text::opt_view(ingredient_row.err_name),
        step_row@.step == step_row.step@,
        step_row@.row_id == step_row.row_id@,
        step_row@.err_text == text::opt_view(step_row.err_text),
        create_recipe_form@.title == create_recipe_form.title@,
        create_recipe_form@.meal_type == create_recipe_form.meal_type@,
        create_recipe_form@.cuisine == create_recipe_form.cuisine@,
        create_recipe_form@.prep_minutes == create_recipe_form.prep_minutes,
        create_recipe_form@.cook_minutes == create_recipe_form.cook_minutes,
        create_recipe_form@.servings == create_recipe_form.servings,
        create_recipe_form@.difficulty == create_recipe_form.difficulty@,
        create_recipe_form@.description == create_recipe_form.description@,
        create_recipe_form@.tags == text::views(create_recipe_form.tags@),
        create_recipe_form@.ingredients == text::views(create_recipe_form.ingredients@),
        create_recipe_form@.steps == text::views(create_recipe_form.steps@),
        ingredient_errors@.quantity == text::opt_view(ingredient_errors.quantity),
        ingredient_errors@.name == text::opt_view(ingredient_errors.name),
        step_errors@.text == text::opt_view(step_errors.text),
        field_errors@.title == text::opt_view(field_errors.title),
        field_errors@.ingredient == text::views(field_errors.ingredient@),
        field_errors@.step == text::views(field_errors.step@),
        field_errors@.summary == text::views(field_errors.summary@),
        create_recipe_page@.nav_items == text::views(create_recipe_page.nav_items@),
        create_recipe_page@.user_initial == create_recipe_page.user_initial@,
        create_recipe_page@.user_name == create_recipe_page.user_name@,
        create_recipe_page@.user_email == create_recipe_page.user_email@,
        create_recipe_page@.user_premium == create_recipe_page.user_premium,
        create_recipe_page@.title == create_recipe_page.title@,
        create_recipe_page@.cuisine == create_recipe_page.cuisine@,
        create_recipe_page@.description == create_recipe_page.description@,
        create_recipe_page@.prep_minutes == create_recipe_page.prep_minutes,
        create_recipe_page@.cook_minutes == create_recipe_page.cook_minutes,
        create_recipe_page@.servings == create_recipe_page.servings,
        create_recipe_page@.meal_type_options == text::views(create_recipe_page.meal_type_options@),
        create_recipe_page@.difficulty_options
            == text::views(create_recipe_page.difficulty_options@),
        create_recipe_page@.tag_options == text::views(create_recipe_page.tag_options@),
        create_recipe_page@.ingredient_rows == text::views(create_recipe_page.ingredient_rows@),
        create_recipe_page@.step_rows == text::views(create_recipe_page.step_rows@),
        create_recipe_page@.err_title == text::opt_view(create_recipe_page.err_title),
        create_recipe_page@.form_errors == text::views(create_recipe_page.form_errors@),
        ingredient_row_fragment@.ing == ingredient_row_fragment.ing@,
        ingredient_row_fragment@.row_id == ingredient_row_fragment.row_id@,
        ingredient_row_fragment@.unit_options == text::views(ingredient_row_fragment.unit_options@),
        ingredient_row_fragment@.err_quantity
            == text::opt_view(ingredient_row_fragment.err_quantity),
        ingredient_row_fragment@.err_name == text::opt_view(ingredient_row_fragment.err_name),
        step_row_fragment@.step == step_row_fragment.step@,
        step_row_fragment@.row_id == step_row_fragment.row_id@,
        step_row_fragment@.err_text == text::opt_view(step_row_fragment.err_text),
{
}

/// The form stands in the frame of the user it is made for.
pub proof fn law_forms_have_the_frame(
    user: UserModel,
    form: CreateRecipeFormModel,
    errs: FieldErrorsModel,
)
    ensures
        ({
            let page = create_page(user, form, errs);
            &&& page.nav_items == web::chrome(user).nav_items
            &&& page.user_initial == web::chrome(user).user_initial
            &&& page.user_name == web::chrome(user).user_name
            &&& page.user_email == web::chrome(user).user_email
            &&& page.user_premium == web::chrome(user).user_premium
        }),
{
}

/// The rows of the form are numbered from zero by their ids, and offer the
/// units with their own as the selected one.
pub proof fn law_form_rows_are_numbered_in_order(
    user: UserModel,
    form: CreateRecipeFormModel,
    errs: FieldErrorsModel,
    i: int,
)
    ensures
        0 <= i < form.ingredients.len() ==> create_page(user, form, errs).ingredient_rows[i].row_id
            == "ing-"@ + text::decimal(i as nat) && create_page(
            user,
            form,
            errs,
        ).ingredient_rows[i].unit_options == units(form.ingredients[i].unit),
        0 <= i < form.steps.len() ==> create_page(user, form, errs).step_rows[i].row_id == "step-"@
            + text::decimal(i as nat) && (i < errs.step.len() ==> create_page(
            user,
            form,
            errs,
        ).step_rows[i].err_text == errs.step[i].text),
{
}

} // verus!
