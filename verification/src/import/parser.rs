//! What an import source is turned into.
//!
//! A source gives a list of candidates for the preview screen; a picked
//! candidate gives the material that a recipe is drafted from. Uploaded files
//! are JSON of this shape, or a list of it, where only `title` and
//! `ingredients` have to be there:
//!
//! ```json
//! { "title": "…", "ingredients": […], "steps": […], "meal_type": "main", "emoji": "🍲" }
//! ```

use vstd::prelude::*;
use vstd::string::*;

use crate::import::ImportSource;
use crate::recipe;
use crate::recipe::{IngredientFact, MealType, StepFact, Unit};
use crate::recipe::{IngredientFactModel, StepFactModel};
use crate::text;

verus! {

/// One row in the preview list.
#[derive(Debug, PartialEq)]
pub struct ParsedCandidate {
    pub id: String,
    pub title: String,
    pub emoji: String,
    /// A meal type slug.
    pub meal_type: String,
    pub ingredient_count: u32,
    pub step_count: u32,
    /// A warning that is shown with the row.
    pub warn: Option<String>,
    /// Whether the row cannot be imported.
    pub broken: bool,
    /// Whether the row is ticked at first.
    pub selected: bool,
}

/// What a [`ParsedCandidate`] holds, as mathematical values.
#[verifier::ext_equal]
pub struct ParsedCandidateModel {
    pub id: Seq<char>,
    pub title: Seq<char>,
    pub emoji: Seq<char>,
    pub meal_type: Seq<char>,
    pub ingredient_count: u32,
    pub step_count: u32,
    pub warn: Option<Seq<char>>,
    pub broken: bool,
    pub selected: bool,
}

impl View for ParsedCandidate {
    type V = ParsedCandidateModel;

    open spec fn view(&self) -> ParsedCandidateModel {
        ParsedCandidateModel {
            id: self.id@,
            title: self.title@,
            emoji: self.emoji@,
            meal_type: self.meal_type@,
            ingredient_count: self.ingredient_count,
            step_count: self.step_count,
            warn: text::opt_view(self.warn),
            broken: self.broken,
            selected: self.selected,
        }
    }
}

impl Clone for ParsedCandidate {
    fn clone(&self) -> (res: Self)
        ensures
            res@ == self@,
    {
        ParsedCandidate {
            id: self.id.clone(),
            title: self.title.clone(),
            emoji: self.emoji.clone(),
            meal_type: self.meal_type.clone(),
            ingredient_count: self.ingredient_count,
            step_count: self.step_count,
            warn: self.warn.clone(),
            broken: self.broken,
            selected: self.selected,
        }
    }
}

impl Default for ParsedCandidate {
    fn default() -> (res: Self)
        ensures
            res@ == (ParsedCandidateModel {
                id: Seq::empty(),
                title: Seq::empty(),
                emoji: Seq::empty(),
                meal_type: Seq::empty(),
                ingredient_count: 0,
                step_count: 0,
                warn: None,
                broken: false,
                selected: false,
            }),
    {
        ParsedCandidate {
            id: String::new(),
            title: String::new(),
            emoji: String::new(),
            meal_type: String::new(),
            ingredient_count: 0,
            step_count: 0,
            warn: None,
            broken: false,
            selected: false,
        }
    }
}

/// All that is needed to draft a recipe from a picked candidate.
#[derive(Debug, PartialEq)]
pub struct DraftMaterial {
    pub title: String,
    pub meal_type: MealType,
    pub cuisine: String,
    pub emoji: String,
    pub prep_minutes: u32,
    pub cook_minutes: u32,
    pub servings: u32,
    pub difficulty: String,
    pub description: String,
    pub tags: Vec<String>,
    pub ingredients: Vec<IngredientFact>,
    pub steps: Vec<StepFact>,
}

/// What a [`DraftMaterial`] holds, as mathematical values.
#[verifier::ext_equal]
pub struct DraftMaterialModel {
    pub title: Seq<char>,
    pub meal_type: MealType,
    pub cuisine: Seq<char>,
    pub emoji: Seq<char>,
    pub prep_minutes: u32,
    pub cook_minutes: u32,
    pub servings: u32,
    pub difficulty: Seq<char>,
    pub description: Seq<char>,
    pub tags: Seq<Seq<char>>,
    pub ingredients: Seq<IngredientFactModel>,
    pub steps: Seq<StepFactModel>,
}

impl View for DraftMaterial {
    type V = DraftMaterialModel;

    open spec fn view(&self) -> DraftMaterialModel {
        DraftMaterialModel {
            title: self.title@,
            meal_type: self.meal_type,
            cuisine: self.cuisine@,
            emoji: self.emoji@,
            prep_minutes: self.prep_minutes,
            cook_minutes: self.cook_minutes,
            servings: self.servings,
            difficulty: self.difficulty@,
            description: self.description@,
            tags: text::views(self.tags@),
            ingredients: text::views(self.ingredients@),
            steps: text::views(self.steps@),
        }
    }
}

impl Clone for DraftMaterial {
    fn clone(&self) -> (res: Self)
        ensures
            res@ == self@,
    {
        let ingredients: Vec<IngredientFact> = self.ingredients.clone();
        assert(text::views(ingredients@) =~= text::views(self.ingredients@));
        let steps: Vec<StepFact> = self.steps.clone();
        assert(text::views(steps@) =~= text::views(self.steps@));
        DraftMaterial {
            title: self.title.clone(),
            meal_type: self.meal_type,
            cuisine: self.cuisine.clone(),
            emoji: self.emoji.clone(),
            prep_minutes: self.prep_minutes,
            cook_minutes: self.cook_minutes,
            servings: self.servings,
            difficulty: self.difficulty.clone(),
            description: self.description.clone(),
            tags: text::clone_texts(&self.tags),
            ingredients,
            steps,
        }
    }
}

// ── Uploaded files ──────────────────────────────────────────────────────

/// One recipe of an uploaded file, as far as the preview needs it.
#[derive(Debug, PartialEq)]
pub struct UploadedRecipe {
    pub title: String,
    pub meal_type: Option<String>,
    pub emoji: Option<String>,
    /// How many ingredients the file lists.
    pub ingredients: usize,
    /// How many steps the file lists; a recipe may come without any.
    pub steps: usize,
}

/// What a [`UploadedRecipe`] holds, as mathematical values.
#[verifier::ext_equal]
pub struct UploadedRecipeModel {
    pub title: Seq<char>,
    pub meal_type: Option<Seq<char>>,
    pub emoji: Option<Seq<char>>,
    pub ingredients: usize,
    pub steps: usize,
}

impl View for UploadedRecipe {
    type V = UploadedRecipeModel;

    open spec fn view(&self) -> UploadedRecipeModel {
        UploadedRecipeModel {
            title: self.title@,
            meal_type: text::opt_view(self.meal_type),
            emoji: text::opt_view(self.emoji),
            ingredients: self.ingredients,
            steps: self.steps,
        }
    }
}

impl Clone for UploadedRecipe {
    fn clone(&self) -> (res: Self)
        ensures
            res@ == self@,
    {
        UploadedRecipe {
            title: self.title.clone(),
            meal_type: self.meal_type.clone(),
            emoji: self.emoji.clone(),
            ingredients: self.ingredients,
            steps: self.steps,
        }
    }
}

/// What an uploaded file holds: one recipe or a list of them.
#[derive(Debug, PartialEq)]
pub enum RecipesPayload {
    One(UploadedRecipe),
    Many(Vec<UploadedRecipe>),
}

impl View for RecipesPayload {
    type V = Seq<UploadedRecipeModel>;

    open spec fn view(&self) -> Seq<UploadedRecipeModel> {
        match self {
            RecipesPayload::One(recipe) => seq![recipe@],
            RecipesPayload::Many(recipes) => text::views(recipes@),
        }
    }
}

/// Why an uploaded file gives no candidates.
#[derive(Debug, PartialEq)]
pub enum UploadError {
    /// The file does not have the shape; with what is wrong with it.
    NotRecipeJson(String),
    /// The file lists no recipe.
    NoRecipes,
}

impl UploadError {
    pub open spec fn message_text(self) -> Seq<char> {
        match self {
            UploadError::NotRecipeJson(detail) => "That doesn't look like recipe JSON: "@ + detail@,
            UploadError::NoRecipes => "No recipes found in the file."@,
        }
    }

    /// The error in words, as shown on the upload screen.
    pub fn message(&self) -> (res: String)
        ensures
            res@ == self.message_text(),
    {
        match self {
            UploadError::NotRecipeJson(detail) => text::join2(
                "That doesn't look like recipe JSON: ",
                detail.as_str(),
            ),
            UploadError::NoRecipes => "No recipes found in the file.".to_owned(),
        }
    }
}

/// The meal type of an uploaded recipe: a main course unless the file names
/// another.
pub open spec fn uploaded_meal_type(meal_type: Option<Seq<char>>) -> MealType {
    match meal_type {
        Some(slug) => recipe::meal_type_or_main(slug),
        None => MealType::Main,
    }
}

/// The candidate that the uploaded recipe at position `idx` becomes.
pub open spec fn uploaded_candidate(idx: int, recipe: UploadedRecipeModel) -> ParsedCandidateModel {
    let meal_type = uploaded_meal_type(recipe.meal_type);
    let broken = text::blank(recipe.title) || recipe.ingredients == 0;
    ParsedCandidateModel {
        id: "f"@ + text::decimal((idx + 1) as nat),
        title: if text::blank(recipe.title) {
            "Untitled recipe"@
        } else {
            recipe.title
        },
        emoji: match recipe.emoji {
            Some(emoji) => if emoji.len() == 0 {
                meal_type.emoji_text()
            } else {
                emoji
            },
            None => meal_type.emoji_text(),
        },
        meal_type: meal_type.slug_text(),
        ingredient_count: recipe.ingredients as u32,
        step_count: recipe.steps as u32,
        warn: if broken {
            Some("Missing title or ingredients — can't import"@)
        } else {
            None
        },
        broken,
        selected: !broken,
    }
}

/// The candidates of an uploaded file, one for each recipe in it.
pub open spec fn uploaded_candidates(recipes: Seq<UploadedRecipeModel>) -> Seq<
    ParsedCandidateModel,
> {
    Seq::new(recipes.len(), |idx: int| uploaded_candidate(idx, recipes[idx]))
}

fn candidate_of(idx: usize, recipe: &UploadedRecipe) -> (res: ParsedCandidate)
    requires
        idx < usize::MAX,
    ensures
        res@ == uploaded_candidate(idx as int, recipe@),
{
    let meal_type: MealType = match &recipe.meal_type {
        Some(slug) => MealType::parse_or_main(slug.as_str()),
        None => MealType::Main,
    };
    let title_present: bool = !text::is_blank(recipe.title.as_str());
    let broken: bool = !title_present || recipe.ingredients == 0;
    let warn: Option<String> = if broken {
        Some("Missing title or ingredients — can't import".to_owned())
    } else {
        None
    };
    let title: String = if title_present {
        recipe.title.clone()
    } else {
        "Untitled recipe".to_owned()
    };
    let emoji: String = match &recipe.emoji {
        Some(emoji) => {
            if emoji.as_str().is_empty() {
                meal_type.default_emoji().to_owned()
            } else {
                emoji.clone()
            }
        },
        None => meal_type.default_emoji().to_owned(),
    };
    let number: String = text::decimal_text((idx + 1) as u64);
    ParsedCandidate {
        id: text::join2("f", number.as_str()),
        title,
        emoji,
        meal_type: meal_type.slug().to_owned(),
        ingredient_count: recipe.ingredients as u32,
        step_count: recipe.steps as u32,
        warn,
        broken,
        selected: !broken,
    }
}

/// Whether `res` is what an uploaded file is read as.
pub open spec fn is_read_as(
    decoded: Result<RecipesPayload, String>,
    res: Result<Vec<ParsedCandidate>, UploadError>,
) -> bool {
    match decoded {
        Err(detail) => res == Err::<Vec<ParsedCandidate>, UploadError>(
            UploadError::NotRecipeJson(detail),
        ),
        Ok(payload) => if payload@.len() == 0 {
            res == Err::<Vec<ParsedCandidate>, UploadError>(UploadError::NoRecipes)
        } else {
            res is Ok && text::views(res->Ok_0@) == uploaded_candidates(payload@)
        },
    }
}

/// The candidates of an uploaded file. `decoded` is what the JSON in the file
/// says, or what is wrong with it.
pub fn parse_recipes_json(decoded: Result<RecipesPayload, String>) -> (res: Result<
    Vec<ParsedCandidate>,
    UploadError,
>)
    ensures
        is_read_as(decoded, res),
{
    let payload: RecipesPayload = match decoded {
        Err(detail) => {
            return Err(UploadError::NotRecipeJson(detail));
        },
        Ok(payload) => payload,
    };
    let ghost model = payload@;
    let recipes: Vec<UploadedRecipe> = match payload {
        RecipesPayload::One(recipe) => {
            let mut one: Vec<UploadedRecipe> = Vec::new();
            one.push(recipe);
            assert(text::views(one@) =~= model);
            one
        },
        RecipesPayload::Many(recipes) => recipes,
    };
    if recipes.len() == 0 {
        return Err(UploadError::NoRecipes);
    }
    let mut candidates: Vec<ParsedCandidate> = Vec::new();
    let mut i: usize = 0;
    while i < recipes.len()
        invariant
            i <= recipes.len(),
            text::views(recipes@) == model,
            text::views(candidates@) == uploaded_candidates(model).take(i as int),
        decreases recipes.len() - i,
    {
        let ghost before = candidates@;
        let candidate: ParsedCandidate = candidate_of(i, &recipes[i]);
        proof {
            text::lemma_views_push(before, candidate);
            assert(uploaded_candidates(model).take(i + 1) =~= uploaded_candidates(model).take(
                i as int,
            ).push(candidate@));
        }
        candidates.push(candidate);
        i += 1;
    }
    assert(uploaded_candidates(model).take(i as int) =~= uploaded_candidates(model));
    Ok(candidates)
}

/// A candidate of an uploaded file is ticked if and only if it can be
/// imported, and it carries a warning if and only if it cannot.
pub proof fn law_uploaded_rows_are_ticked_unless_broken(idx: int, recipe: UploadedRecipeModel)
    ensures
        uploaded_candidate(idx, recipe).selected == !uploaded_candidate(idx, recipe).broken,
        uploaded_candidate(idx, recipe).broken == (uploaded_candidate(idx, recipe).warn is Some),
        uploaded_candidate(idx, recipe).broken == (text::blank(recipe.title) || recipe.ingredients
            == 0),
{
}

// ── The built-in parser ─────────────────────────────────────────────────

/// The parser that needs no network: every source gives the same list.
#[derive(Debug, Clone, Copy)]
pub struct SeedParser;

impl SeedParser {
    /// The candidates of a source.
    pub fn parse(&self, _source: ImportSource, _label: &str) -> (res: Vec<ParsedCandidate>)
        ensures
            text::views(res@) == seeds(),
    {
        seed_candidates()
    }

    /// The candidates of an uploaded file, or the built-in list where the
    /// file is empty. `decoded` is what the JSON in `bytes` says, or what is
    /// wrong with it.
    pub fn parse_file(
        &self,
        _file_name: &str,
        _content_type: &str,
        bytes: &[u8],
        decoded: Result<RecipesPayload, String>,
    ) -> (res: Result<Vec<ParsedCandidate>, UploadError>)
        ensures
            if bytes@.len() == 0 {
                res is Ok && text::views(res->Ok_0@) == seeds()
            } else {
                is_read_as(decoded, res)
            },
    {
        if bytes.len() == 0 {
            return Ok(seed_candidates());
        }
        parse_recipes_json(decoded)
    }

    /// The material of one candidate.
    pub fn materialize(&self, candidate: &ParsedCandidate) -> (res: DraftMaterial)
        ensures
            res@ == seed_material(candidate@),
    {
        materialize_seed(candidate)
    }
}

/// One row of the built-in list.
pub open spec fn seed(
    id: &str,
    title: &str,
    emoji: &str,
    meal_type: &str,
    counts: (u32, u32),
    warn: Option<Seq<char>>,
    broken: bool,
    selected: bool,
) -> ParsedCandidateModel {
    ParsedCandidateModel {
        id: id@,
        title: title@,
        emoji: emoji@,
        meal_type: meal_type@,
        ingredient_count: counts.0,
        step_count: counts.1,
        warn,
        broken,
        selected,
    }
}

/// The built-in list. The last row is broken on purpose, so that the preview
/// shows how such a row looks.
pub open spec fn seeds() -> Seq<ParsedCandidateModel> {
    seq![
        seed("i1", "Grandma's Pot Roast", "🥩", "main", (9, 6), None, false, true),
        seed("i2", "Green Bean Casserole", "🥗", "side", (7, 5), None, false, true),
        seed("i3", "Buttermilk Biscuits", "🥐", "side", (6, 4), None, false, true),
        seed("i4", "Apple Pie", "🥧", "dessert", (10, 8), None, false, true),
        seed(
            "i5",
            "Pecan Bars",
            "🍪",
            "dessert",
            (8, 5),
            Some("Similar to existing \"Pecan Squares\""@),
            false,
            false,
        ),
        seed("i6", "Deviled Eggs", "🥚", "entree", (6, 3), None, false, true),
        seed("i7", "Sweet Potato Mash", "🍠", "side", (5, 4), None, false, true),
        seed(
            "i8",
            "Untitled recipe",
            "🍽️",
            "main",
            (0, 0),
            Some("Missing title and steps — can't import"@),
            true,
            false,
        ),
    ]
}

fn seed_row(
    id: &str,
    title: &str,
    emoji: &str,
    meal_type: &str,
    counts: (u32, u32),
    warn: Option<String>,
    broken: bool,
    selected: bool,
) -> (res: ParsedCandidate)
    ensures
        res@ == seed(
            id,
            title,
            emoji,
            meal_type,
            counts,
            text::opt_view(warn),
            broken,
            selected,
        ),
{
    ParsedCandidate {
        id: id.to_owned(),
        title: title.to_owned(),
        emoji: emoji.to_owned(),
        meal_type: meal_type.to_owned(),
        ingredient_count: counts.0,
        step_count: counts.1,
        warn,
        broken,
        selected,
    }
}

/// The built-in list.
pub fn seed_candidates() -> (res: Vec<ParsedCandidate>)
    ensures
        text::views(res@) == seeds(),
{
    let mut rows: Vec<ParsedCandidate> = Vec::new();
    rows.push(seed_row("i1", "Grandma's Pot Roast", "🥩", "main", (9, 6), None, false, true));
    rows.push(seed_row("i2", "Green Bean Casserole", "🥗", "side", (7, 5), None, false, true));
    rows.push(seed_row("i3", "Buttermilk Biscuits", "🥐", "side", (6, 4), None, false, true));
    rows.push(seed_row("i4", "Apple Pie", "🥧", "dessert", (10, 8), None, false, true));
    let similar: String = "Similar to existing \"Pecan Squares\"".to_owned();
    rows.push(
        seed_row("i5", "Pecan Bars", "🍪", "dessert", (8, 5), Some(similar), false, false),
    );
    rows.push(seed_row("i6", "Deviled Eggs", "🥚", "entree", (6, 3), None, false, true));
    rows.push(seed_row("i7", "Sweet Potato Mash", "🍠", "side", (5, 4), None, false, true));
    let missing: String = "Missing title and steps — can't import".to_owned();
    rows.push(seed_row("i8", "Untitled recipe", "🍽️", "main", (0, 0), Some(missing), true, false));
    assert(text::views(rows@) =~= seeds());
    rows
}

/// At least one.
pub open spec fn at_least_one(n: u32) -> nat {
    if n < 1 {
        1
    } else {
        n as nat
    }
}

/// The placeholder ingredients of a candidate: as many as it counts, and one
/// where it counts none.
pub open spec fn seed_ingredients(count: u32) -> Seq<IngredientFactModel> {
    Seq::new(
        at_least_one(count),
        |i: int|
            IngredientFactModel {
                name: "Ingredient "@ + text::decimal((i + 1) as nat),
                quantity: None,
                unit: Unit::Unitless,
            },
    )
}

/// The placeholder steps of a candidate.
pub open spec fn seed_steps(count: u32) -> Seq<StepFactModel> {
    Seq::new(
        at_least_one(count),
        |i: int|
            StepFactModel {
                wait_minutes: 0,
                text: "Step "@ + text::decimal((i + 1) as nat) + " — refine after import."@,
            },
    )
}

/// The material that the built-in parser gives for a candidate.
pub open spec fn seed_material(candidate: ParsedCandidateModel) -> DraftMaterialModel {
    DraftMaterialModel {
        title: candidate.title,
        meal_type: recipe::meal_type_or_main(candidate.meal_type),
        cuisine: "Imported"@,
        emoji: candidate.emoji,
        prep_minutes: 10,
        cook_minutes: 20,
        servings: 4,
        difficulty: "Easy"@,
        description: Seq::empty(),
        tags: Seq::empty(),
        ingredients: seed_ingredients(candidate.ingredient_count),
        steps: seed_steps(candidate.step_count),
    }
}

/// A usable draft template for one candidate.
pub fn materialize_seed(candidate: &ParsedCandidate) -> (res: DraftMaterial)
    ensures
        res@ == seed_material(candidate@),
{
    let meal_type: MealType = MealType::parse_or_main(candidate.meal_type.as_str());

    let rows: u32 = if candidate.ingredient_count < 1 {
        1
    } else {
        candidate.ingredient_count
    };
    let mut ingredients: Vec<IngredientFact> = Vec::new();
    let mut i: u32 = 0;
    assert(text::views(ingredients@) =~= seed_ingredients(candidate.ingredient_count).take(0));
    while i < rows
        invariant
            i <= rows,
            rows == at_least_one(candidate.ingredient_count),
            text::views(ingredients@) == seed_ingredients(candidate.ingredient_count).take(
                i as int,
            ),
        decreases rows - i,
    {
        let ghost before = ingredients@;
        let number: String = text::decimal_text(i as u64 + 1);
        let row = IngredientFact {
            name: text::join2("Ingredient ", number.as_str()),
            quantity: None,
            unit: Unit::Unitless,
        };
        proof {
            let all = seed_ingredients(candidate.ingredient_count);
            text::lemma_views_push(before, row);
            assert(all.take(i + 1) =~= all.take(i as int).push(row@));
        }
        ingredients.push(row);
        i += 1;
    }

    let lines: u32 = if candidate.step_count < 1 {
        1
    } else {
        candidate.step_count
    };
    let mut steps: Vec<StepFact> = Vec::new();
    let mut j: u32 = 0;
    assert(text::views(steps@) =~= seed_steps(candidate.step_count).take(0));
    while j < lines
        invariant
            j <= lines,
            lines == at_least_one(candidate.step_count),
            text::views(steps@) == seed_steps(candidate.step_count).take(j as int),
        decreases lines - j,
    {
        let ghost before = steps@;
        let number: String = text::decimal_text(j as u64 + 1);
        let row = StepFact {
            wait_minutes: 0,
            text: text::join3("Step ", number.as_str(), " — refine after import."),
        };
        proof {
            let all = seed_steps(candidate.step_count);
            text::lemma_views_push(before, row);
            assert(all.take(j + 1) =~= all.take(j as int).push(row@));
        }
        steps.push(row);
        j += 1;
    }

    let tags: Vec<String> = Vec::new();
    assert(text::views(tags@) =~= Seq::<Seq<char>>::empty());
    assert(seed_ingredients(candidate.ingredient_count).take(i as int) =~= seed_ingredients(
        candidate.ingredient_count,
    ));
    assert(seed_steps(candidate.step_count).take(j as int) =~= seed_steps(candidate.step_count));
    DraftMaterial {
        title: candidate.title.clone(),
        meal_type,
        cuisine: "Imported".to_owned(),
        emoji: candidate.emoji.clone(),
        prep_minutes: 10,
        cook_minutes: 20,
        servings: 4,
        difficulty: "Easy".to_owned(),
        description: String::new(),
        tags,
        ingredients,
        steps,
    }
}

// ── What holds of candidates ────────────────────────────────────────────

/// A file with one recipe counts as a list of one.
pub proof fn law_one_recipe_is_a_list_of_one(one: UploadedRecipe, many: Vec<UploadedRecipe>)
    ensures
        RecipesPayload::One(one)@ == seq![one@],
        RecipesPayload::Many(many)@.len() == many@.len(),
        forall|i: int|
            0 <= i < many@.len() ==> (#[trigger] RecipesPayload::Many(many)@[i]) == many@[i]@,
{
}

/// A file gives one candidate for each of its recipes, in their order, with
/// the counts of what the file lists for it. The title is the recipe's own
/// unless it is blank, the meal type the recipe's own if it is known, and the
/// emoji the recipe's own unless it has none.
pub proof fn law_candidates_say_what_the_file_lists(recipes: Seq<UploadedRecipeModel>, i: int)
    requires
        0 <= i < recipes.len(),
    ensures
        uploaded_candidates(recipes).len() == recipes.len(),
        recipes[i].steps <= u32::MAX ==> uploaded_candidates(recipes)[i].step_count
            == recipes[i].steps,
        recipes[i].ingredients <= u32::MAX ==> uploaded_candidates(recipes)[i].ingredient_count
            == recipes[i].ingredients,
        !text::blank(recipes[i].title) ==> uploaded_candidates(recipes)[i].title
            == recipes[i].title,
        text::blank(recipes[i].title) ==> uploaded_candidates(recipes)[i].title
            == "Untitled recipe"@,
        recipes[i].meal_type matches Some(slug) ==> recipe::meal_type_of(slug) is Some
            ==> uploaded_candidates(recipes)[i].meal_type == slug,
        !(recipes[i].meal_type matches Some(slug) && recipe::meal_type_of(slug) is Some)
            ==> uploaded_candidates(recipes)[i].meal_type == "main"@,
        recipes[i].emoji matches Some(emoji) ==> emoji.len() > 0 ==> uploaded_candidates(
            recipes,
        )[i].emoji == emoji,
        !(recipes[i].emoji matches Some(emoji) && emoji.len() > 0) ==> (exists|m: MealType|
            uploaded_candidates(recipes)[i].meal_type == #[trigger] m.slug_text()
                && uploaded_candidates(recipes)[i].emoji == m.emoji_text()),
        uploaded_candidates(recipes)[i].broken <==> text::blank(recipes[i].title)
            || recipes[i].ingredients == 0,
        uploaded_candidates(recipes)[i].selected <==> !uploaded_candidates(recipes)[i].broken,
        uploaded_candidates(recipes)[i].warn is Some <==> uploaded_candidates(recipes)[i].broken,
{
    let m = uploaded_meal_type(recipes[i].meal_type);
    assert(uploaded_candidates(recipes)[i].meal_type == m.slug_text());
    if recipes[i].meal_type is Some {
        recipe::law_meal_type_slug_round_trip(m, recipes[i].meal_type->0);
    }
}

/// What one recipe of a file says has no bearing on the candidates of the
/// others, and the number of ingredients none on the number of steps.
pub proof fn law_candidates_are_independent(
    recipes: Seq<UploadedRecipeModel>,
    i: int,
    other: UploadedRecipeModel,
    j: int,
)
    requires
        0 <= i < recipes.len(),
        0 <= j < recipes.len(),
    ensures
        i != j ==> uploaded_candidates(recipes.update(i, other))[j] == uploaded_candidates(
            recipes,
        )[j],
        other.steps == recipes[i].steps ==> uploaded_candidates(
            recipes.update(i, other),
        )[i].step_count == uploaded_candidates(recipes)[i].step_count,
        other.ingredients == recipes[i].ingredients ==> uploaded_candidates(
            recipes.update(i, other),
        )[i].ingredient_count == uploaded_candidates(recipes)[i].ingredient_count,
{
}

/// Candidates of one file are told apart by their ids: `f1`, `f2` and so on.
pub proof fn law_candidate_ids_differ(recipes: Seq<UploadedRecipeModel>, i: int, j: int)
    requires
        0 <= i < recipes.len(),
        0 <= j < recipes.len(),
    ensures
        uploaded_candidates(recipes)[i].id == "f"@ + text::decimal((i + 1) as nat),
        uploaded_candidates(recipes)[i].id == uploaded_candidates(recipes)[j].id ==> i == j,
{
    text::lemma_decimal_after("f"@, (i + 1) as nat, (j + 1) as nat);
}

/// The built-in list is numbered, names known meal types, and ticks no row
/// that is broken or carries a warning.
pub proof fn law_built_in_candidates_are_in_order(i: int)
    requires
        0 <= i < seeds().len(),
    ensures
        seeds().len() == 8,
        seeds()[i].selected <==> seeds()[i].warn is None,
        seeds()[i].selected ==> !seeds()[i].broken,
        seeds()[i].broken <==> seeds()[i].step_count == 0,
        recipe::meal_type_of(seeds()[i].meal_type) is Some,
{
}

/// The material of a candidate has its title, emoji and meal type, and as many
/// ingredients and steps as the candidate counts, but at least one of each.
pub proof fn law_material_matches_its_candidate(candidate: ParsedCandidateModel)
    ensures
        seed_material(candidate).title == candidate.title,
        seed_material(candidate).emoji == candidate.emoji,
        seed_material(candidate).meal_type == recipe::meal_type_or_main(candidate.meal_type),
        seed_material(candidate).servings >= 1,
        candidate.ingredient_count > 0 ==> seed_material(candidate).ingredients.len()
            == candidate.ingredient_count,
        candidate.ingredient_count == 0 ==> seed_material(candidate).ingredients.len() == 1,
        candidate.step_count > 0 ==> seed_material(candidate).steps.len()
            == candidate.step_count,
        candidate.step_count == 0 ==> seed_material(candidate).steps.len() == 1,
{
}

/// The ingredients and steps of a material are numbered from one, in order.
pub proof fn law_material_is_numbered(candidate: ParsedCandidateModel, i: int)
    ensures
        0 <= i < seed_material(candidate).ingredients.len() ==> seed_material(
            candidate,
        ).ingredients[i].name == "Ingredient "@ + text::decimal((i + 1) as nat),
        0 <= i < seed_material(candidate).steps.len() ==> ("Step "@ + text::decimal(
            (i + 1) as nat,
        )).is_prefix_of(seed_material(candidate).steps[i].text),
{
    if 0 <= i < seed_material(candidate).steps.len() {
        let head = "Step "@ + text::decimal((i + 1) as nat);
        let line = seed_material(candidate).steps[i].text;
        assert(line.take(head.len() as int) =~= head);
    }
}

/// A file is read if and only if its JSON can be decoded and lists a recipe;
/// it is then read as one candidate for each recipe that it lists, in their
/// order and with their numbers of ingredients and steps.
pub proof fn law_files_are_read(
    decoded: Result<RecipesPayload, String>,
    res: Result<Vec<ParsedCandidate>, UploadError>,
    i: int,
)
    requires
        is_read_as(decoded, res),
    ensures
        res is Ok <==> (decoded matches Ok(payload) && payload@.len() > 0),
        decoded matches Ok(payload) ==> payload@.len() == 0 ==> res == Err::<
            Vec<ParsedCandidate>,
            UploadError,
        >(UploadError::NoRecipes),
        decoded matches Err(detail) ==> (res matches Err(err) && detail@.is_suffix_of(
            err.message_text(),
        )),
        res matches Ok(candidates) ==> candidates@.len() == decoded->Ok_0@.len() && (0 <= i
            < candidates@.len() ==> {
            let recipe = decoded->Ok_0@[i];
            &&& recipe.steps <= u32::MAX ==> candidates@[i].step_count == recipe.steps
            &&& recipe.ingredients <= u32::MAX ==> candidates@[i].ingredient_count
                == recipe.ingredients
            &&& !text::blank(recipe.title) ==> candidates@[i].title@ == recipe.title
        }),
{
    if decoded is Err {
        let message = UploadError::NotRecipeJson(decoded->Err_0).message_text();
        let detail = decoded->Err_0@;
        assert(message.skip(message.len() - detail.len()) =~= detail);
    } else if res is Ok {
        assert(text::views(res->Ok_0@).len() == res->Ok_0@.len());
        if 0 <= i < res->Ok_0@.len() {
            assert(text::views(res->Ok_0@)[i] == res->Ok_0@[i]@);
            law_candidates_say_what_the_file_lists(decoded->Ok_0@, i);
        }
    }
}

/// A model has every field of the value that it stands for.
pub proof fn law_models_have_every_field(
    parsed_candidate: ParsedCandidate,
    draft_material: DraftMaterial,
    uploaded_recipe: UploadedRecipe,
)
    ensures
        parsed_candidate@.id == parsed_candidate.id@,
        parsed_candidate@.title == parsed_candidate.title@,
        parsed_candidate@.emoji == parsed_candidate.emoji@,
        parsed_candidate@.meal_type == parsed_candidate.meal_type@,
        parsed_candidate@.ingredient_count == parsed_candidate.ingredient_count,
        parsed_candidate@.step_count == parsed_candidate.step_count,
        parsed_candidate@.warn == text::opt_view(parsed_candidate.warn),
        parsed_candidate@.broken == parsed_candidate.broken,
        parsed_candidate@.selected == parsed_candidate.selected,
        draft_material@.title == draft_material.title@,
        draft_material@.meal_type == draft_material.meal_type,
        draft_material@.cuisine == draft_material.cuisine@,
        draft_material@.emoji == draft_material.emoji@,
        draft_material@.prep_minutes == draft_material.prep_minutes,
        draft_material@.cook_minutes == draft_material.cook_minutes,
        draft_material@.servings == draft_material.servings,
        draft_material@.difficulty == draft_material.difficulty@,
        draft_material@.description == draft_material.description@,
        draft_material@.tags == text::views(draft_material.tags@),
        draft_material@.ingredients == text::views(draft_material.ingredients@),
        draft_material@.steps == text::views(draft_material.steps@),
        uploaded_recipe@.title == uploaded_recipe.title@,
        uploaded_recipe@.meal_type == text::opt_view(uploaded_recipe.meal_type),
        uploaded_recipe@.emoji == text::opt_view(uploaded_recipe.emoji),
        uploaded_recipe@.ingredients == uploaded_recipe.ingredients,
        uploaded_recipe@.steps == uploaded_recipe.steps,
{
}

} // verus!
