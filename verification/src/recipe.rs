//! The `Recipe` aggregate, write side.
//!
//! A recipe is a user-owned item. What the commands here keep:
//!
//! - The owner is set when the recipe is drafted and never changes; every
//!   later command has to come from that owner, or it is refused.
//! - A drafted recipe has a title that is not blank, at least one ingredient
//!   with a name, at least one step with text and at least one serving.
//! - After `RecipeDeleted` every edit command is refused.
//! - Deleting a deleted recipe does nothing and is no error.
//!
//! The commands compute what is to be appended to the event log. Reading the
//! log and committing to it is the caller's part.

use vstd::prelude::*;
use vstd::string::*;

use crate::text;

verus! {

// ── Meal types ──────────────────────────────────────────────────────────

/// The slugs of all meal types. A recipe carries its meal type as a slug,
/// which is also what pages and addresses use.
pub const MEAL_TYPES: [&'static str; 4] = ["entree", "main", "side", "dessert"];

/// The kind of course a recipe is.
#[derive(Debug, Clone, Copy, PartialEq, Eq, Structural)]
pub enum MealType {
    Entree,
    Main,
    Side,
    Dessert,
}

impl MealType {
    /// The stable slug of a meal type.
    pub open spec fn slug_text(self) -> Seq<char> {
        match self {
            MealType::Entree => "entree"@,
            MealType::Main => "main"@,
            MealType::Side => "side"@,
            MealType::Dessert => "dessert"@,
        }
    }

    /// The word shown to the user for a meal type.
    pub open spec fn label_text(self) -> Seq<char> {
        match self {
            MealType::Entree => "Starter"@,
            MealType::Main => "Main"@,
            MealType::Side => "Side"@,
            MealType::Dessert => "Dessert"@,
        }
    }

    /// The emoji of a recipe that was given none.
    pub open spec fn emoji_text(self) -> Seq<char> {
        match self {
            MealType::Entree => "🥗"@,
            MealType::Main => "🍛"@,
            MealType::Side => "🥖"@,
            MealType::Dessert => "🍰"@,
        }
    }

    pub fn slug(self) -> (res: &'static str)
        ensures
            res@ == self.slug_text(),
    {
        match self {
            MealType::Entree => "entree",
            MealType::Main => "main",
            MealType::Side => "side",
            MealType::Dessert => "dessert",
        }
    }

    pub fn label(self) -> (res: &'static str)
        ensures
            res@ == self.label_text(),
    {
        match self {
            MealType::Entree => "Starter",
            MealType::Main => "Main",
            MealType::Side => "Side",
            MealType::Dessert => "Dessert",
        }
    }

    /// Default emoji for a meal type, used by the import flow and for any
    /// recipe drafted without an explicit emoji.
    pub fn default_emoji(self) -> (res: &'static str)
        ensures
            res@ == self.emoji_text(),
    {
        match self {
            MealType::Entree => "🥗",
            MealType::Main => "🍛",
            MealType::Side => "🥖",
            MealType::Dessert => "🍰",
        }
    }

    /// The meal type with the slug `s`, if there is one.
    pub fn parse(s: &str) -> (res: Option<Self>)
        ensures
            res == meal_type_of(s@),
    {
        if text::same_text(s, "entree") {
            Some(MealType::Entree)
        } else if text::same_text(s, "main") {
            Some(MealType::Main)
        } else if text::same_text(s, "side") {
            Some(MealType::Side)
        } else if text::same_text(s, "dessert") {
            Some(MealType::Dessert)
        } else {
            None
        }
    }

    /// The meal type with the slug `s`; a main course if there is none.
    pub fn parse_or_main(s: &str) -> (res: Self)
        ensures
            res == meal_type_or_main(s@),
    {
        match MealType::parse(s) {
            Some(meal_type) => meal_type,
            None => MealType::Main,
        }
    }
}

/// The meal type with the slug `s`, if there is one.
pub open spec fn meal_type_of(s: Seq<char>) -> Option<MealType> {
    if s == MealType::Entree.slug_text() {
        Some(MealType::Entree)
    } else if s == MealType::Main.slug_text() {
        Some(MealType::Main)
    } else if s == MealType::Side.slug_text() {
        Some(MealType::Side)
    } else if s == MealType::Dessert.slug_text() {
        Some(MealType::Dessert)
    } else {
        None
    }
}

/// The meal type with the slug `s`; a main course if there is none.
pub open spec fn meal_type_or_main(s: Seq<char>) -> MealType {
    match meal_type_of(s) {
        Some(meal_type) => meal_type,
        None => MealType::Main,
    }
}

/// Reading the slug of a meal type gives the meal type back, and every text
/// that is read as a meal type is its slug.
pub proof fn law_meal_type_slug_round_trip(meal_type: MealType, s: Seq<char>)
    ensures
        meal_type_of(meal_type.slug_text()) == Some(meal_type),
        meal_type_of(s) == Some(meal_type) ==> s == meal_type.slug_text(),
{
    reveal_strlit("entree");
    reveal_strlit("main");
    reveal_strlit("side");
    reveal_strlit("dessert");
    assert("entree"@.len() == 6 && "main"@.len() == 4 && "side"@.len() == 4);
    assert("dessert"@.len() == 7);
    assert("main"@[0] == 'm' && "side"@[0] == 's');
}

// ── Units ───────────────────────────────────────────────────────────────

/// Unit of an ingredient amount. The set is bounded on purpose, so that
/// amounts can be added up over recipes.
#[derive(Debug, Clone, Copy, PartialEq, Eq, Structural)]
pub enum Unit {
    G,
    Ml,
    Kg,
    L,
    Tbsp,
    Tsp,
    Cup,
    Piece,
    Pinch,
    /// No unit: "to taste" without an amount, a plain count with one.
    Unitless,
}

impl Default for Unit {
    fn default() -> (res: Self)
        ensures
            res == Unit::Unitless,
    {
        Unit::Unitless
    }
}

impl Unit {
    /// The stable slug of a unit; empty for no unit.
    pub open spec fn slug_text(self) -> Seq<char> {
        match self {
            Unit::G => "g"@,
            Unit::Ml => "ml"@,
            Unit::Kg => "kg"@,
            Unit::L => "l"@,
            Unit::Tbsp => "tbsp"@,
            Unit::Tsp => "tsp"@,
            Unit::Cup => "cup"@,
            Unit::Piece => "piece"@,
            Unit::Pinch => "pinch"@,
            Unit::Unitless => ""@,
        }
    }

    pub fn slug(self) -> (res: &'static str)
        ensures
            res@ == self.slug_text(),
    {
        match self {
            Unit::G => "g",
            Unit::Ml => "ml",
            Unit::Kg => "kg",
            Unit::L => "l",
            Unit::Tbsp => "tbsp",
            Unit::Tsp => "tsp",
            Unit::Cup => "cup",
            Unit::Piece => "piece",
            Unit::Pinch => "pinch",
            Unit::Unitless => "",
        }
    }

    /// Reads a unit from user input: white space around it and the case of
    /// its ASCII letters do not matter.
    pub fn parse(s: &str) -> (res: Option<Self>)
        ensures
            res == unit_of(s@),
    {
        let t: &str = text::trim(s);
        if text::lowers_to(t, "g") {
            Some(Unit::G)
        } else if text::lowers_to(t, "ml") {
            Some(Unit::Ml)
        } else if text::lowers_to(t, "kg") {
            Some(Unit::Kg)
        } else if text::lowers_to(t, "l") {
            Some(Unit::L)
        } else if text::lowers_to(t, "tbsp") {
            Some(Unit::Tbsp)
        } else if text::lowers_to(t, "tsp") {
            Some(Unit::Tsp)
        } else if text::lowers_to(t, "cup") {
            Some(Unit::Cup)
        } else if text::lowers_to(t, "piece") {
            Some(Unit::Piece)
        } else if text::lowers_to(t, "pinch") {
            Some(Unit::Pinch)
        } else if text::lowers_to(t, "") || text::lowers_to(t, "none") {
            Some(Unit::Unitless)
        } else {
            None
        }
    }

    /// Reads a unit from user input; no unit where it names none.
    pub fn parse_or_unitless(s: &str) -> (res: Self)
        ensures
            res == unit_or_unitless(s@),
    {
        match Unit::parse(s) {
            Some(unit) => unit,
            None => Unit::Unitless,
        }
    }
}

/// The unit that a user's input names, if it names one.
pub open spec fn unit_of(s: Seq<char>) -> Option<Unit> {
    let t = text::ascii_lowered(text::trimmed(s));
    if t == Unit::G.slug_text() {
        Some(Unit::G)
    } else if t == Unit::Ml.slug_text() {
        Some(Unit::Ml)
    } else if t == Unit::Kg.slug_text() {
        Some(Unit::Kg)
    } else if t == Unit::L.slug_text() {
        Some(Unit::L)
    } else if t == Unit::Tbsp.slug_text() {
        Some(Unit::Tbsp)
    } else if t == Unit::Tsp.slug_text() {
        Some(Unit::Tsp)
    } else if t == Unit::Cup.slug_text() {
        Some(Unit::Cup)
    } else if t == Unit::Piece.slug_text() {
        Some(Unit::Piece)
    } else if t == Unit::Pinch.slug_text() {
        Some(Unit::Pinch)
    } else if t == Unit::Unitless.slug_text() || t == "none"@ {
        Some(Unit::Unitless)
    } else {
        None
    }
}

/// The unit that a user's input names; no unit where it names none.
pub open spec fn unit_or_unitless(s: Seq<char>) -> Unit {
    match unit_of(s) {
        Some(unit) => unit,
        None => Unit::Unitless,
    }
}

/// Reading the slug of a unit gives the unit back.
pub proof fn law_unit_slug_round_trip(unit: Unit)
    ensures
        unit_of(unit.slug_text()) == Some(unit),
{
    reveal_strlit("g");
    reveal_strlit("ml");
    reveal_strlit("kg");
    reveal_strlit("l");
    reveal_strlit("tbsp");
    reveal_strlit("tsp");
    reveal_strlit("cup");
    reveal_strlit("piece");
    reveal_strlit("pinch");
    reveal_strlit("");
    reveal_strlit("none");
    let slug = unit.slug_text();
    reveal_with_fuel(text::trim_start, 2);
    reveal_with_fuel(text::trim_end, 2);
    assert(text::trimmed(slug) == slug);
    assert(text::ascii_lowered(slug) =~= slug);
    assert("g"@[0] != "l"@[0]);
    assert("ml"@[0] != "kg"@[0]);
    assert("tsp"@[0] != "cup"@[0]);
    assert("piece"@[1] == 'i' && "pinch"@[1] == 'i');
    assert("piece"@[2] != "pinch"@[2]);
}

// ── Facts that events carry ─────────────────────────────────────────────

/// The amount of an ingredient: the bit pattern of an IEEE-754 single
/// precision number.
#[derive(Debug, Clone, Copy, PartialEq, Eq, Structural)]
pub struct Quantity {
    pub bits: u32,
}

/// One ingredient line. An absent quantity stands for vague rows ("to
/// taste", "a pinch").
#[derive(Debug, PartialEq)]
pub struct IngredientFact {
    pub name: String,
    pub quantity: Option<Quantity>,
    pub unit: Unit,
}

/// What a [`IngredientFact`] holds, as mathematical values.
#[verifier::ext_equal]
pub struct IngredientFactModel {
    pub name: Seq<char>,
    pub quantity: Option<Quantity>,
    pub unit: Unit,
}

impl View for IngredientFact {
    type V = IngredientFactModel;

    open spec fn view(&self) -> IngredientFactModel {
        IngredientFactModel {
            name: self.name@,
            quantity: self.quantity,
            unit: self.unit,
        }
    }
}

impl Clone for IngredientFact {
    fn clone(&self) -> (res: Self)
        ensures
            res@ == self@,
    {
        IngredientFact {
            name: self.name.clone(),
            quantity: self.quantity,
            unit: self.unit,
        }
    }
}

impl Default for IngredientFact {
    fn default() -> (res: Self)
        ensures
            res@ == (IngredientFactModel {
                name: Seq::empty(),
                quantity: None,
                unit: Unit::Unitless,
            }),
    {
        IngredientFact { name: String::new(), quantity: None, unit: Unit::Unitless }
    }
}

/// The amount half of an ingredient line as shown to the user. `number` is
/// the decimal form of the quantity, `is_one` whether the quantity is one.
pub open spec fn amount_text(
    ingredient: IngredientFactModel,
    number: Seq<char>,
    is_one: bool,
) -> Seq<char> {
    match (ingredient.quantity, ingredient.unit) {
        (Some(_), Unit::Unitless) => number,
        (Some(_), Unit::Piece) => number + if is_one {
            " pc"@
        } else {
            " pcs"@
        },
        (Some(_), unit) => number + " "@ + unit.slug_text(),
        (None, Unit::Unitless) => "to taste"@,
        (None, Unit::Pinch) => "a pinch"@,
        (None, unit) => unit.slug_text(),
    }
}

impl IngredientFact {
    /// Renders the quantity-and-unit half of the line: "250 g", "2 pcs",
    /// "a pinch", "to taste". `number` is the quantity written in decimal and
    /// `is_one` whether it is one; both are unused where there is no quantity.
    pub fn display_qty(&self, number: &str, is_one: bool) -> (res: String)
        ensures
            res@ == amount_text(self@, number@, is_one),
    {
        match (self.quantity, self.unit) {
            (Some(_), Unit::Unitless) => number.to_owned(),
            (Some(_), Unit::Piece) => {
                if is_one {
                    text::join2(number, " pc")
                } else {
                    text::join2(number, " pcs")
                }
            },
            (Some(_), unit) => text::join3(number, " ", unit.slug()),
            (None, Unit::Unitless) => "to taste".to_owned(),
            (None, Unit::Pinch) => "a pinch".to_owned(),
            (None, unit) => unit.slug().to_owned(),
        }
    }
}

/// One method step. `wait_minutes` is how long to wait before the next step.
#[derive(Debug, PartialEq)]
pub struct StepFact {
    pub wait_minutes: u32,
    pub text: String,
}

/// What a [`StepFact`] holds, as mathematical values.
#[verifier::ext_equal]
pub struct StepFactModel {
    pub wait_minutes: u32,
    pub text: Seq<char>,
}

impl View for StepFact {
    type V = StepFactModel;

    open spec fn view(&self) -> StepFactModel {
        StepFactModel {
            wait_minutes: self.wait_minutes,
            text: self.text@,
        }
    }
}

impl Clone for StepFact {
    fn clone(&self) -> (res: Self)
        ensures
            res@ == self@,
    {
        StepFact {
            wait_minutes: self.wait_minutes,
            text: self.text.clone(),
        }
    }
}

impl Default for StepFact {
    fn default() -> (res: Self)
        ensures
            res@ == (StepFactModel { wait_minutes: 0, text: Seq::empty() }),
    {
        StepFact { wait_minutes: 0, text: String::new() }
    }
}

/// Where a recipe came from: `manual`, or `import:` and the source, with the
/// import job.
#[derive(Debug, PartialEq)]
pub struct Provenance {
    pub kind: String,
    pub import_job_id: String,
}

/// What a [`Provenance`] holds, as mathematical values.
#[verifier::ext_equal]
pub struct ProvenanceModel {
    pub kind: Seq<char>,
    pub import_job_id: Seq<char>,
}

impl View for Provenance {
    type V = ProvenanceModel;

    open spec fn view(&self) -> ProvenanceModel {
        ProvenanceModel {
            kind: self.kind@,
            import_job_id: self.import_job_id@,
        }
    }
}

impl Clone for Provenance {
    fn clone(&self) -> (res: Self)
        ensures
            res@ == self@,
    {
        Provenance {
            kind: self.kind.clone(),
            import_job_id: self.import_job_id.clone(),
        }
    }
}

impl Provenance {
    pub fn manual() -> (res: Self)
        ensures
            res@ == (ProvenanceModel { kind: "manual"@, import_job_id: Seq::empty() }),
    {
        Provenance { kind: "manual".to_owned(), import_job_id: String::new() }
    }

    pub fn from_import(source: &str, import_job_id: &str) -> (res: Self)
        ensures
            res@ == (ProvenanceModel {
                kind: "import:"@ + source@,
                import_job_id: import_job_id@,
            }),
    {
        Provenance {
            kind: text::join2("import:", source),
            import_job_id: import_job_id.to_owned(),
        }
    }
}


impl Default for Provenance {
    fn default() -> (res: Self)
        ensures
            res@ == (ProvenanceModel { kind: Seq::empty(), import_job_id: Seq::empty() }),
    {
        Provenance { kind: String::new(), import_job_id: String::new() }
    }
}

// ── Events ──────────────────────────────────────────────────────────────

/// A new recipe was created. It carries the whole first state of the recipe,
/// because the create form is one submission.
#[derive(Debug, PartialEq)]
pub struct RecipeDrafted {
    pub owner_id: String,
    pub title: String,
    pub meal_type: String,
    pub cuisine: String,
    pub emoji: String,
    pub prep_minutes: u32,
    pub cook_minutes: u32,
    pub servings: u32,
    pub difficulty: String,
    pub description: String,
    pub tags: Vec<String>,
    pub ingredients: Vec<IngredientFact>,
    pub steps: Vec<StepFact>,
    pub provenance: Provenance,
}

/// What a [`RecipeDrafted`] holds, as mathematical values.
#[verifier::ext_equal]
pub struct RecipeDraftedModel {
    pub owner_id: Seq<char>,
    pub title: Seq<char>,
    pub meal_type: Seq<char>,
    pub cuisine: Seq<char>,
    pub emoji: Seq<char>,
    pub prep_minutes: u32,
    pub cook_minutes: u32,
    pub servings: u32,
    pub difficulty: Seq<char>,
    pub description: Seq<char>,
    pub tags: Seq<Seq<char>>,
    pub ingredients: Seq<IngredientFactModel>,
    pub steps: Seq<StepFactModel>,
    pub provenance: ProvenanceModel,
}

impl View for RecipeDrafted {
    type V = RecipeDraftedModel;

    open spec fn view(&self) -> RecipeDraftedModel {
        RecipeDraftedModel {
            owner_id: self.owner_id@,
            title: self.title@,
            meal_type: self.meal_type@,
            cuisine: self.cuisine@,
            emoji: self.emoji@,
            prep_minutes: self.prep_minutes,
            cook_minutes: self.cook_minutes,
            servings: self.servings,
            difficulty: self.difficulty@,
            description: self.description@,
            tags: text::views(self.tags@),
            ingredients: text::views(self.ingredients@),
            steps: text::views(self.steps@),
            provenance: self.provenance@,
        }
    }
}

impl Clone for RecipeDrafted {
    fn clone(&self) -> (res: Self)
        ensures
            res@ == self@,
    {
        let ingredients: Vec<IngredientFact> = self.ingredients.clone();
        assert(text::views(ingredients@) =~= text::views(self.ingredients@));
        let steps: Vec<StepFact> = self.steps.clone();
        assert(text::views(steps@) =~= text::views(self.steps@));
        RecipeDrafted {
            owner_id: self.owner_id.clone(),
            title: self.title.clone(),
            meal_type: self.meal_type.clone(),
            cuisine: self.cuisine.clone(),
            emoji: self.emoji.clone(),
            prep_minutes: self.prep_minutes,
            cook_minutes: self.cook_minutes,
            servings: self.servings,
            difficulty: self.difficulty.clone(),
            description: self.description.clone(),
            tags: text::clone_texts(&self.tags),
            ingredients,
            steps,
            provenance: self.provenance.clone(),
        }
    }
}

/// The title changed.
#[derive(Debug, PartialEq)]
pub struct RecipeRenamed {
    pub new_title: String,
}

/// What a [`RecipeRenamed`] holds, as mathematical values.
#[verifier::ext_equal]
pub struct RecipeRenamedModel {
    pub new_title: Seq<char>,
}

impl View for RecipeRenamed {
    type V = RecipeRenamedModel;

    open spec fn view(&self) -> RecipeRenamedModel {
        RecipeRenamedModel {
            new_title: self.new_title@,
        }
    }
}

impl Clone for RecipeRenamed {
    fn clone(&self) -> (res: Self)
        ensures
            res@ == self@,
    {
        RecipeRenamed {
            new_title: self.new_title.clone(),
        }
    }
}

/// Meal type, cuisine and emoji moved together.
#[derive(Debug, PartialEq)]
pub struct RecipeRecategorized {
    pub meal_type: String,
    pub cuisine: String,
    pub emoji: String,
}

/// What a [`RecipeRecategorized`] holds, as mathematical values.
#[verifier::ext_equal]
pub struct RecipeRecategorizedModel {
    pub meal_type: Seq<char>,
    pub cuisine: Seq<char>,
    pub emoji: Seq<char>,
}

impl View for RecipeRecategorized {
    type V = RecipeRecategorizedModel;

    open spec fn view(&self) -> RecipeRecategorizedModel {
        RecipeRecategorizedModel {
            meal_type: self.meal_type@,
            cuisine: self.cuisine@,
            emoji: self.emoji@,
        }
    }
}

impl Clone for RecipeRecategorized {
    fn clone(&self) -> (res: Self)
        ensures
            res@ == self@,
    {
        RecipeRecategorized {
            meal_type: self.meal_type.clone(),
            cuisine: self.cuisine.clone(),
            emoji: self.emoji.clone(),
        }
    }
}

/// Prep time, cook time, servings or difficulty changed.
#[derive(Debug, PartialEq)]
pub struct RecipeRetimed {
    pub prep_minutes: u32,
    pub cook_minutes: u32,
    pub servings: u32,
    pub difficulty: String,
}

/// What a [`RecipeRetimed`] holds, as mathematical values.
#[verifier::ext_equal]
pub struct RecipeRetimedModel {
    pub prep_minutes: u32,
    pub cook_minutes: u32,
    pub servings: u32,
    pub difficulty: Seq<char>,
}

impl View for RecipeRetimed {
    type V = RecipeRetimedModel;

    open spec fn view(&self) -> RecipeRetimedModel {
        RecipeRetimedModel {
            prep_minutes: self.prep_minutes,
            cook_minutes: self.cook_minutes,
            servings: self.servings,
            difficulty: self.difficulty@,
        }
    }
}

impl Clone for RecipeRetimed {
    fn clone(&self) -> (res: Self)
        ensures
            res@ == self@,
    {
        RecipeRetimed {
            prep_minutes: self.prep_minutes,
            cook_minutes: self.cook_minutes,
            servings: self.servings,
            difficulty: self.difficulty.clone(),
        }
    }
}

/// The description changed or was cleared.
#[derive(Debug, PartialEq)]
pub struct RecipeRedescribed {
    pub description: String,
}

/// What a [`RecipeRedescribed`] holds, as mathematical values.
#[verifier::ext_equal]
pub struct RecipeRedescribedModel {
    pub description: Seq<char>,
}

impl View for RecipeRedescribed {
    type V = RecipeRedescribedModel;

    open spec fn view(&self) -> RecipeRedescribedModel {
        RecipeRedescribedModel {
            description: self.description@,
        }
    }
}

impl Clone for RecipeRedescribed {
    fn clone(&self) -> (res: Self)
        ensures
            res@ == self@,
    {
        RecipeRedescribed {
            description: self.description.clone(),
        }
    }
}

/// The whole tag list was replaced.
#[derive(Debug, PartialEq)]
pub struct RecipeRetagged {
    pub tags: Vec<String>,
}

/// What a [`RecipeRetagged`] holds, as mathematical values.
#[verifier::ext_equal]
pub struct RecipeRetaggedModel {
    pub tags: Seq<Seq<char>>,
}

impl View for RecipeRetagged {
    type V = RecipeRetaggedModel;

    open spec fn view(&self) -> RecipeRetaggedModel {
        RecipeRetaggedModel {
            tags: text::views(self.tags@),
        }
    }
}

impl Clone for RecipeRetagged {
    fn clone(&self) -> (res: Self)
        ensures
            res@ == self@,
    {
        RecipeRetagged {
            tags: text::clone_texts(&self.tags),
        }
    }
}

/// The whole ingredient list was replaced.
#[derive(Debug, PartialEq)]
pub struct IngredientsReplaced {
    pub ingredients: Vec<IngredientFact>,
}

/// What a [`IngredientsReplaced`] holds, as mathematical values.
#[verifier::ext_equal]
pub struct IngredientsReplacedModel {
    pub ingredients: Seq<IngredientFactModel>,
}

impl View for IngredientsReplaced {
    type V = IngredientsReplacedModel;

    open spec fn view(&self) -> IngredientsReplacedModel {
        IngredientsReplacedModel {
            ingredients: text::views(self.ingredients@),
        }
    }
}

impl Clone for IngredientsReplaced {
    fn clone(&self) -> (res: Self)
        ensures
            res@ == self@,
    {
        let ingredients: Vec<IngredientFact> = self.ingredients.clone();
        assert(text::views(ingredients@) =~= text::views(self.ingredients@));
        IngredientsReplaced {
            ingredients,
        }
    }
}

/// The whole step list was replaced.
#[derive(Debug, PartialEq)]
pub struct StepsReplaced {
    pub steps: Vec<StepFact>,
}

/// What a [`StepsReplaced`] holds, as mathematical values.
#[verifier::ext_equal]
pub struct StepsReplacedModel {
    pub steps: Seq<StepFactModel>,
}

impl View for StepsReplaced {
    type V = StepsReplacedModel;

    open spec fn view(&self) -> StepsReplacedModel {
        StepsReplacedModel {
            steps: text::views(self.steps@),
        }
    }
}

impl Clone for StepsReplaced {
    fn clone(&self) -> (res: Self)
        ensures
            res@ == self@,
    {
        let steps: Vec<StepFact> = self.steps.clone();
        assert(text::views(steps@) =~= text::views(self.steps@));
        StepsReplaced {
            steps,
        }
    }
}

/// The events of a recipe. `RecipeDeleted` is the tombstone.
#[derive(Debug, PartialEq)]
pub enum Recipe {
    RecipeDrafted(RecipeDrafted),
    RecipeRenamed(RecipeRenamed),
    RecipeRecategorized(RecipeRecategorized),
    RecipeRetimed(RecipeRetimed),
    RecipeRedescribed(RecipeRedescribed),
    RecipeRetagged(RecipeRetagged),
    IngredientsReplaced(IngredientsReplaced),
    StepsReplaced(StepsReplaced),
    RecipeDeleted,
}

/// What a [`Recipe`] event holds, as mathematical values.
#[verifier::ext_equal]
pub enum RecipeModel {
    RecipeDrafted(RecipeDraftedModel),
    RecipeRenamed(RecipeRenamedModel),
    RecipeRecategorized(RecipeRecategorizedModel),
    RecipeRetimed(RecipeRetimedModel),
    RecipeRedescribed(RecipeRedescribedModel),
    RecipeRetagged(RecipeRetaggedModel),
    IngredientsReplaced(IngredientsReplacedModel),
    StepsReplaced(StepsReplacedModel),
    RecipeDeleted,
}

impl View for Recipe {
    type V = RecipeModel;

    open spec fn view(&self) -> RecipeModel {
        match self {
            Recipe::RecipeDrafted(event) => RecipeModel::RecipeDrafted(event@),
            Recipe::RecipeRenamed(event) => RecipeModel::RecipeRenamed(event@),
            Recipe::RecipeRecategorized(event) => RecipeModel::RecipeRecategorized(event@),
            Recipe::RecipeRetimed(event) => RecipeModel::RecipeRetimed(event@),
            Recipe::RecipeRedescribed(event) => RecipeModel::RecipeRedescribed(event@),
            Recipe::RecipeRetagged(event) => RecipeModel::RecipeRetagged(event@),
            Recipe::IngredientsReplaced(event) => RecipeModel::IngredientsReplaced(event@),
            Recipe::StepsReplaced(event) => RecipeModel::StepsReplaced(event@),
            Recipe::RecipeDeleted => RecipeModel::RecipeDeleted,
        }
    }
}

// ── Refusals ────────────────────────────────────────────────────────────

/// Why a command is refused.
#[derive(Debug, Clone, Copy, PartialEq, Eq, Structural)]
pub enum RecipeError {
    OwnerRequired,
    TitleRequired,
    ServingsTooLow,
    IngredientRequired,
    StepRequired,
    NotFound,
    NotOwner,
    Deleted,
}

impl RecipeError {
    pub open spec fn message_text(self) -> Seq<char> {
        match self {
            RecipeError::OwnerRequired => "owner is required"@,
            RecipeError::TitleRequired => "title is required"@,
            RecipeError::ServingsTooLow => "servings must be at least 1"@,
            RecipeError::IngredientRequired => "at least one ingredient is required"@,
            RecipeError::StepRequired => "at least one step is required"@,
            RecipeError::NotFound => "recipe not found"@,
            RecipeError::NotOwner => "not owner"@,
            RecipeError::Deleted => "recipe deleted"@,
        }
    }

    /// The refusal in words, as shown to the user.
    pub fn message(self) -> (res: &'static str)
        ensures
            res@ == self.message_text(),
    {
        match self {
            RecipeError::OwnerRequired => "owner is required",
            RecipeError::TitleRequired => "title is required",
            RecipeError::ServingsTooLow => "servings must be at least 1",
            RecipeError::IngredientRequired => "at least one ingredient is required",
            RecipeError::StepRequired => "at least one step is required",
            RecipeError::NotFound => "recipe not found",
            RecipeError::NotOwner => "not owner",
            RecipeError::Deleted => "recipe deleted",
        }
    }
}

// ── Aggregate state ─────────────────────────────────────────────────────

/// The part of a recipe's state that decides whether a command is allowed:
/// who owns the recipe and whether it is deleted.
#[derive(Debug, PartialEq)]
pub struct RecipeAggregate {
    pub owner_id: String,
    pub deleted: bool,
}

/// What a [`RecipeAggregate`] holds, as mathematical values.
#[verifier::ext_equal]
pub struct RecipeAggregateModel {
    pub owner_id: Seq<char>,
    pub deleted: bool,
}

impl View for RecipeAggregate {
    type V = RecipeAggregateModel;

    open spec fn view(&self) -> RecipeAggregateModel {
        RecipeAggregateModel {
            owner_id: self.owner_id@,
            deleted: self.deleted,
        }
    }
}

impl Clone for RecipeAggregate {
    fn clone(&self) -> (res: Self)
        ensures
            res@ == self@,
    {
        RecipeAggregate {
            owner_id: self.owner_id.clone(),
            deleted: self.deleted,
        }
    }
}

impl Default for RecipeAggregate {
    fn default() -> (res: Self)
        ensures
            res@ == unborn(),
    {
        RecipeAggregate { owner_id: String::new(), deleted: false }
    }
}

/// The state that a recipe's log is folded from.
pub open spec fn unborn() -> RecipeAggregateModel {
    RecipeAggregateModel { owner_id: Seq::empty(), deleted: false }
}

/// Takes a draft into the state: the drafter owns the recipe.
pub fn agg_on_drafted(event: &RecipeDrafted, agg: &mut RecipeAggregate)
    ensures
        Some(final(agg)@) == aggregate_step(
            Some(old(agg)@),
            RecipeModel::RecipeDrafted(event@),
        ),
{
    agg.owner_id = event.owner_id.clone();
    agg.deleted = false;
}

/// Takes a deletion into the state: the owner stays, the recipe is gone.
pub fn agg_on_deleted(agg: &mut RecipeAggregate)
    ensures
        Some(final(agg)@) == aggregate_step(Some(old(agg)@), RecipeModel::RecipeDeleted),
{
    agg.deleted = true;
}

/// The state after one more event. `None` means that the log holds no event
/// that the state is made from, so there is no such recipe.
pub open spec fn aggregate_step(
    state: Option<RecipeAggregateModel>,
    event: RecipeModel,
) -> Option<RecipeAggregateModel> {
    let before = match state {
        Some(agg) => agg,
        None => unborn(),
    };
    match event {
        RecipeModel::RecipeDrafted(drafted) => Some(
            RecipeAggregateModel { owner_id: drafted.owner_id, deleted: false },
        ),
        RecipeModel::RecipeDeleted => Some(
            RecipeAggregateModel { owner_id: before.owner_id, deleted: true },
        ),
        _ => state,
    }
}

/// The state after a whole log.
pub open spec fn aggregate_after(log: Seq<RecipeModel>) -> Option<RecipeAggregateModel>
    decreases log.len(),
{
    if log.len() == 0 {
        None
    } else {
        aggregate_step(aggregate_after(log.drop_last()), log.last())
    }
}

/// Whether `owner_id` may command the recipe with the state `agg`.
pub open spec fn authorized(
    agg: Option<RecipeAggregateModel>,
    owner_id: Seq<char>,
) -> Result<RecipeAggregateModel, RecipeError> {
    match agg {
        None => Err(RecipeError::NotFound),
        Some(state) => if state.owner_id != owner_id {
            Err(RecipeError::NotOwner)
        } else {
            Ok(state)
        },
    }
}

/// Checks that the recipe exists and that `owner_id` is its recorded owner.
pub fn load_and_authorize(agg: Option<RecipeAggregate>, owner_id: &str) -> (res: Result<
    RecipeAggregate,
    RecipeError,
>)
    ensures
        text::res_view(res) == authorized(text::opt_view(agg), owner_id@),
{
    match agg {
        None => Err(RecipeError::NotFound),
        Some(state) => {
            if !text::same_text(state.owner_id.as_str(), owner_id) {
                return Err(RecipeError::NotOwner);
            }
            Ok(state)
        },
    }
}

/// The version that an append builds on: that of the newest event, `newest`,
/// and zero where there is none.
pub fn current_version(newest: Option<u16>) -> (res: u16)
    ensures
        res == match newest {
            Some(version) => version,
            None => 0,
        },
{
    match newest {
        Some(version) => version,
        None => 0,
    }
}

// ── Drafting ────────────────────────────────────────────────────────────

/// Command: draft a brand-new recipe.
#[derive(Debug, PartialEq)]
pub struct DraftRecipe {
    pub owner_id: String,
    pub title: String,
    pub meal_type: MealType,
    pub cuisine: String,
    pub emoji: String,
    pub prep_minutes: u32,
    pub cook_minutes: u32,
    pub servings: u32,
    pub difficulty: String,
    pub description: String,
    pub tags: Vec<String>,
    pub ingredients: Vec<IngredientFact>,
    pub steps: Vec<StepFact>,
    pub provenance: Provenance,
}

/// What a [`DraftRecipe`] holds, as mathematical values.
#[verifier::ext_equal]
pub struct DraftRecipeModel {
    pub owner_id: Seq<char>,
    pub title: Seq<char>,
    pub meal_type: MealType,
    pub cuisine: Seq<char>,
    pub emoji: Seq<char>,
    pub prep_minutes: u32,
    pub cook_minutes: u32,
    pub servings: u32,
    pub difficulty: Seq<char>,
    pub description: Seq<char>,
    pub tags: Seq<Seq<char>>,
    pub ingredients: Seq<IngredientFactModel>,
    pub steps: Seq<StepFactModel>,
    pub provenance: ProvenanceModel,
}

impl View for DraftRecipe {
    type V = DraftRecipeModel;

    open spec fn view(&self) -> DraftRecipeModel {
        DraftRecipeModel {
            owner_id: self.owner_id@,
            title: self.title@,
            meal_type: self.meal_type,
            cuisine: self.cuisine@,
            emoji: self.emoji@,
            prep_minutes: self.prep_minutes,
            cook_minutes: self.cook_minutes,
            servings: self.servings,
            difficulty: self.difficulty@,
            description: self.description@,
            tags: text::views(self.tags@),
            ingredients: text::views(self.ingredients@),
            steps: text::views(self.steps@),
            provenance: self.provenance@,
        }
    }
}

impl Clone for DraftRecipe {
    fn clone(&self) -> (res: Self)
        ensures
            res@ == self@,
    {
        let ingredients: Vec<IngredientFact> = self.ingredients.clone();
        assert(text::views(ingredients@) =~= text::views(self.ingredients@));
        let steps: Vec<StepFact> = self.steps.clone();
        assert(text::views(steps@) =~= text::views(self.steps@));
        DraftRecipe {
            owner_id: self.owner_id.clone(),
            title: self.title.clone(),
            meal_type: self.meal_type,
            cuisine: self.cuisine.clone(),
            emoji: self.emoji.clone(),
            prep_minutes: self.prep_minutes,
            cook_minutes: self.cook_minutes,
            servings: self.servings,
            difficulty: self.difficulty.clone(),
            description: self.description.clone(),
            tags: text::clone_texts(&self.tags),
            ingredients,
            steps,
            provenance: self.provenance.clone(),
        }
    }
}

/// The ingredient lines that have a name.
pub open spec fn named() -> spec_fn(IngredientFactModel) -> bool {
    |ingredient: IngredientFactModel| !text::blank(ingredient.name)
}

/// The steps that have a text.
pub open spec fn worded() -> spec_fn(StepFactModel) -> bool {
    |step: StepFactModel| !text::blank(step.text)
}

/// Where an item is kept, something is left.
pub proof fn lemma_filter_nonempty<A>(items: Seq<A>, keep: spec_fn(A) -> bool, i: int)
    requires
        0 <= i < items.len(),
        keep(items[i]),
    ensures
        items.filter(keep).len() > 0,
    decreases items.len(),
{
    reveal(Seq::filter);
    if i < items.len() - 1 {
        lemma_filter_nonempty(items.drop_last(), keep, i);
    }
}

/// The emoji given, or the one of the meal type where none is given.
pub open spec fn emoji_or_default(emoji: Seq<char>, meal_type: MealType) -> Seq<char> {
    if text::blank(emoji) {
        meal_type.emoji_text()
    } else {
        emoji
    }
}

/// The event that a draft command leads to, or why it is refused.
pub open spec fn drafted(cmd: DraftRecipeModel) -> Result<RecipeDraftedModel, RecipeError> {
    if text::blank(cmd.owner_id) {
        Err(RecipeError::OwnerRequired)
    } else if text::blank(cmd.title) {
        Err(RecipeError::TitleRequired)
    } else if cmd.servings < 1 {
        Err(RecipeError::ServingsTooLow)
    } else if cmd.ingredients.filter(named()).len() == 0 {
        Err(RecipeError::IngredientRequired)
    } else if cmd.steps.filter(worded()).len() == 0 {
        Err(RecipeError::StepRequired)
    } else {
        Ok(
            RecipeDraftedModel {
                owner_id: cmd.owner_id,
                title: cmd.title,
                meal_type: cmd.meal_type.slug_text(),
                cuisine: cmd.cuisine,
                emoji: emoji_or_default(cmd.emoji, cmd.meal_type),
                prep_minutes: cmd.prep_minutes,
                cook_minutes: cmd.cook_minutes,
                servings: cmd.servings,
                difficulty: cmd.difficulty,
                description: cmd.description,
                tags: cmd.tags,
                ingredients: cmd.ingredients.filter(named()),
                steps: cmd.steps.filter(worded()),
                provenance: cmd.provenance,
            },
        )
    }
}

impl DraftRecipe {
    /// Checks the command and makes the event of it. Rows that are wholly
    /// blank are dropped; a blank emoji becomes that of the meal type.
    pub fn into_event(self) -> (res: Result<RecipeDrafted, RecipeError>)
        ensures
            text::res_view(res) == drafted(self@),
    {
        if text::is_blank(self.owner_id.as_str()) {
            return Err(RecipeError::OwnerRequired);
        }
        if text::is_blank(self.title.as_str()) {
            return Err(RecipeError::TitleRequired);
        }
        if self.servings < 1 {
            return Err(RecipeError::ServingsTooLow);
        }
        let ingredients: Vec<IngredientFact> = drop_blank_ingredients(self.ingredients);
        if ingredients.len() == 0 {
            return Err(RecipeError::IngredientRequired);
        }
        let steps: Vec<StepFact> = drop_blank_steps(self.steps);
        if steps.len() == 0 {
            return Err(RecipeError::StepRequired);
        }
        let emoji: String = default_emoji_if_blank(self.emoji, self.meal_type);
        Ok(
            RecipeDrafted {
                owner_id: self.owner_id,
                title: self.title,
                meal_type: self.meal_type.slug().to_owned(),
                cuisine: self.cuisine,
                emoji,
                prep_minutes: self.prep_minutes,
                cook_minutes: self.cook_minutes,
                servings: self.servings,
                difficulty: self.difficulty,
                description: self.description,
                tags: self.tags,
                ingredients,
                steps,
                provenance: self.provenance,
            },
        )
    }
}

/// The ingredient lines that have a name, in their order.
pub fn drop_blank_ingredients(ingredients: Vec<IngredientFact>) -> (res: Vec<IngredientFact>)
    ensures
        text::views(res@) == text::views(ingredients@).filter(named()),
{
    named_lines(&ingredients)
}

fn named_lines(ingredients: &Vec<IngredientFact>) -> (res: Vec<IngredientFact>)
    ensures
        text::views(res@) == text::views(ingredients@).filter(named()),
{
    let ghost all = text::views(ingredients@);
    let mut kept: Vec<IngredientFact> = Vec::new();
    let mut i: usize = 0;
    assert(text::views(kept@) =~= all.take(0).filter(named())) by {
        reveal(Seq::filter);
    }
    while i < ingredients.len()
        invariant
            i <= ingredients.len(),
            all == text::views(ingredients@),
            text::views(kept@) == all.take(i as int).filter(named()),
        decreases ingredients.len() - i,
    {
        let ghost before = kept@;
        proof {
            text::lemma_filter_take(all, named(), i as int);
        }
        if !text::is_blank(ingredients[i].name.as_str()) {
            let row: IngredientFact = ingredients[i].clone();
            proof {
                text::lemma_views_push(before, row);
            }
            kept.push(row);
        }
        i += 1;
    }
    assert(all.take(i as int) =~= all);
    kept
}

/// The steps that have a text, in their order.
pub fn drop_blank_steps(steps: Vec<StepFact>) -> (res: Vec<StepFact>)
    ensures
        text::views(res@) == text::views(steps@).filter(worded()),
{
    worded_lines(&steps)
}

fn worded_lines(steps: &Vec<StepFact>) -> (res: Vec<StepFact>)
    ensures
        text::views(res@) == text::views(steps@).filter(worded()),
{
    let ghost all = text::views(steps@);
    let mut kept: Vec<StepFact> = Vec::new();
    let mut i: usize = 0;
    assert(text::views(kept@) =~= all.take(0).filter(worded())) by {
        reveal(Seq::filter);
    }
    while i < steps.len()
        invariant
            i <= steps.len(),
            all == text::views(steps@),
            text::views(kept@) == all.take(i as int).filter(worded()),
        decreases steps.len() - i,
    {
        let ghost before = kept@;
        proof {
            text::lemma_filter_take(all, worded(), i as int);
        }
        if !text::is_blank(steps[i].text.as_str()) {
            let row: StepFact = steps[i].clone();
            proof {
                text::lemma_views_push(before, row);
            }
            kept.push(row);
        }
        i += 1;
    }
    assert(all.take(i as int) =~= all);
    kept
}

/// The emoji given, or the one of the meal type where it is blank.
pub fn default_emoji_if_blank(emoji: String, meal_type: MealType) -> (res: String)
    ensures
        res@ == emoji_or_default(emoji@, meal_type),
{
    if text::is_blank(emoji.as_str()) {
        meal_type.default_emoji().to_owned()
    } else {
        emoji
    }
}

/// What is to be written for a new recipe: its first event, the key it is
/// routed by and the user on whose behalf it is written.
#[derive(Debug, PartialEq)]
pub struct CreateEvent {
    pub event: RecipeDrafted,
    pub routing_key: String,
    pub requested_by: String,
}

/// What a [`CreateEvent`] holds, as mathematical values.
#[verifier::ext_equal]
pub struct CreateEventModel {
    pub event: RecipeDraftedModel,
    pub routing_key: Seq<char>,
    pub requested_by: Seq<char>,
}

impl View for CreateEvent {
    type V = CreateEventModel;

    open spec fn view(&self) -> CreateEventModel {
        CreateEventModel {
            event: self.event@,
            routing_key: self.routing_key@,
            requested_by: self.requested_by@,
        }
    }
}

impl Clone for CreateEvent {
    fn clone(&self) -> (res: Self)
        ensures
            res@ == self@,
    {
        CreateEvent {
            event: self.event.clone(),
            routing_key: self.routing_key.clone(),
            requested_by: self.requested_by.clone(),
        }
    }
}

/// What a draft command writes, or why it is refused.
pub open spec fn creation(cmd: DraftRecipeModel) -> Result<CreateEventModel, RecipeError> {
    match drafted(cmd) {
        Err(err) => Err(err),
        Ok(event) => Ok(
            CreateEventModel {
                event,
                routing_key: "user:"@ + cmd.owner_id,
                requested_by: cmd.owner_id,
            },
        ),
    }
}

/// Drafts a recipe: what is to be written under the recipe's new id.
pub fn draft_recipe(cmd: DraftRecipe) -> (res: Result<CreateEvent, RecipeError>)
    ensures
        text::res_view(res) == creation(cmd@),
{
    let owner_id: String = cmd.owner_id.clone();
    match cmd.into_event() {
        Err(err) => Err(err),
        Ok(event) => {
            let routing_key: String = text::join2("user:", owner_id.as_str());
            Ok(CreateEvent { event, routing_key, requested_by: owner_id })
        },
    }
}

// ── Editing ─────────────────────────────────────────────────────────────
//
// Every edit command checks its fields first, then the state of the recipe:
// it has to exist, belong to the commander and not be deleted. What is left
// is one event to append, on top of the version that was read.

/// What is to be appended to the log of a recipe: the event, the version it
/// builds on and the user on whose behalf it is written.
#[derive(Debug, PartialEq)]
pub struct AppendEvent {
    pub recipe_id: String,
    pub original_version: u16,
    pub event: Recipe,
    pub requested_by: String,
}

/// What a [`AppendEvent`] holds, as mathematical values.
#[verifier::ext_equal]
pub struct AppendEventModel {
    pub recipe_id: Seq<char>,
    pub original_version: u16,
    pub event: RecipeModel,
    pub requested_by: Seq<char>,
}

impl View for AppendEvent {
    type V = AppendEventModel;

    open spec fn view(&self) -> AppendEventModel {
        AppendEventModel {
            recipe_id: self.recipe_id@,
            original_version: self.original_version,
            event: self.event@,
            requested_by: self.requested_by@,
        }
    }
}

/// What an edit appends once its fields are in order.
pub open spec fn appended(
    recipe_id: Seq<char>,
    owner_id: Seq<char>,
    event: RecipeModel,
    agg: Option<RecipeAggregateModel>,
    version: u16,
) -> Result<AppendEventModel, RecipeError> {
    match authorized(agg, owner_id) {
        Err(err) => Err(err),
        Ok(state) => if state.deleted {
            Err(RecipeError::Deleted)
        } else {
            Ok(
                AppendEventModel {
                    recipe_id,
                    original_version: version,
                    event,
                    requested_by: owner_id,
                },
            )
        },
    }
}

/// Authorizes an edit and states what it appends.
pub fn append_event(
    recipe_id: String,
    owner_id: String,
    event: Recipe,
    agg: Option<RecipeAggregate>,
    version: u16,
) -> (res: Result<AppendEvent, RecipeError>)
    ensures
        text::res_view(res) == appended(
            recipe_id@,
            owner_id@,
            event@,
            text::opt_view(agg),
            version,
        ),
{
    match load_and_authorize(agg, owner_id.as_str()) {
        Err(err) => Err(err),
        Ok(state) => {
            if state.deleted {
                return Err(RecipeError::Deleted);
            }
            Ok(AppendEvent { recipe_id, original_version: version, event, requested_by: owner_id })
        },
    }
}

/// Command: rename a recipe.
#[derive(Debug, PartialEq)]
pub struct RenameRecipe {
    pub recipe_id: String,
    pub owner_id: String,
    pub new_title: String,
}

/// What a [`RenameRecipe`] holds, as mathematical values.
#[verifier::ext_equal]
pub struct RenameRecipeModel {
    pub recipe_id: Seq<char>,
    pub owner_id: Seq<char>,
    pub new_title: Seq<char>,
}

impl View for RenameRecipe {
    type V = RenameRecipeModel;

    open spec fn view(&self) -> RenameRecipeModel {
        RenameRecipeModel {
            recipe_id: self.recipe_id@,
            owner_id: self.owner_id@,
            new_title: self.new_title@,
        }
    }
}

impl Clone for RenameRecipe {
    fn clone(&self) -> (res: Self)
        ensures
            res@ == self@,
    {
        RenameRecipe {
            recipe_id: self.recipe_id.clone(),
            owner_id: self.owner_id.clone(),
            new_title: self.new_title.clone(),
        }
    }
}

/// The event of the command, or which field is not in order.
pub open spec fn renamed(cmd: RenameRecipeModel) -> Result<RecipeRenamedModel, RecipeError> {
    if text::blank(cmd.new_title) {
        Err(RecipeError::TitleRequired)
    } else {
        Ok(RecipeRenamedModel { new_title: text::trimmed(cmd.new_title) })
    }
}

impl RenameRecipe {
    /// Checks the fields of the command and makes the event of it.
    pub fn to_event(&self) -> (res: Result<RecipeRenamed, RecipeError>)
        ensures
            text::res_view(res) == renamed(self@),
    {
        proof {
            text::lemma_blank_iff_trimmed_empty(self.new_title@);
        }
        let new_title: &str = text::trim(self.new_title.as_str());
        if new_title.is_empty() {
            return Err(RecipeError::TitleRequired);
        }
        Ok(RecipeRenamed { new_title: new_title.to_owned() })
    }
}

/// What the command appends, or why it is refused.
pub open spec fn renaming(
    cmd: RenameRecipeModel,
    agg: Option<RecipeAggregateModel>,
    version: u16,
) -> Result<AppendEventModel, RecipeError> {
    match renamed(cmd) {
        Err(err) => Err(err),
        Ok(event) => appended(
            cmd.recipe_id,
            cmd.owner_id,
            RecipeModel::RecipeRenamed(event),
            agg,
            version,
        ),
    }
}

/// Renames a recipe; the title is trimmed and has to hold something.
pub fn rename_recipe(cmd: RenameRecipe, agg: Option<RecipeAggregate>, version: u16) -> (res: Result<
    AppendEvent,
    RecipeError,
>)
    ensures
        text::res_view(res) == renaming(cmd@, text::opt_view(agg), version),
{
    match cmd.to_event() {
        Err(err) => Err(err),
        Ok(event) => append_event(
            cmd.recipe_id,
            cmd.owner_id,
            Recipe::RecipeRenamed(event),
            agg,
            version,
        ),
    }
}

/// Command: change meal type, cuisine and emoji together. A blank emoji
/// becomes that of the meal type.
#[derive(Debug, PartialEq)]
pub struct RecategorizeRecipe {
    pub recipe_id: String,
    pub owner_id: String,
    pub meal_type: MealType,
    pub cuisine: String,
    pub emoji: String,
}

/// What a [`RecategorizeRecipe`] holds, as mathematical values.
#[verifier::ext_equal]
pub struct RecategorizeRecipeModel {
    pub recipe_id: Seq<char>,
    pub owner_id: Seq<char>,
    pub meal_type: MealType,
    pub cuisine: Seq<char>,
    pub emoji: Seq<char>,
}

impl View for RecategorizeRecipe {
    type V = RecategorizeRecipeModel;

    open spec fn view(&self) -> RecategorizeRecipeModel {
        RecategorizeRecipeModel {
            recipe_id: self.recipe_id@,
            owner_id: self.owner_id@,
            meal_type: self.meal_type,
            cuisine: self.cuisine@,
            emoji: self.emoji@,
        }
    }
}

impl Clone for RecategorizeRecipe {
    fn clone(&self) -> (res: Self)
        ensures
            res@ == self@,
    {
        RecategorizeRecipe {
            recipe_id: self.recipe_id.clone(),
            owner_id: self.owner_id.clone(),
            meal_type: self.meal_type,
            cuisine: self.cuisine.clone(),
            emoji: self.emoji.clone(),
        }
    }
}

/// The event of the command, or which field is not in order.
pub open spec fn recategorized(cmd: RecategorizeRecipeModel) -> Result<RecipeRecategorizedModel, RecipeError> {
    Ok(
        RecipeRecategorizedModel {
            meal_type: cmd.meal_type.slug_text(),
            cuisine: cmd.cuisine,
            emoji: emoji_or_default(cmd.emoji, cmd.meal_type),
        },
    )
}

impl RecategorizeRecipe {
    /// Checks the fields of the command and makes the event of it.
    pub fn to_event(&self) -> (res: Result<RecipeRecategorized, RecipeError>)
        ensures
            text::res_view(res) == recategorized(self@),
    {
        let emoji: String = default_emoji_if_blank(self.emoji.clone(), self.meal_type);
        Ok(
            RecipeRecategorized {
                meal_type: self.meal_type.slug().to_owned(),
                cuisine: self.cuisine.clone(),
                emoji,
            },
        )
    }
}

/// What the command appends, or why it is refused.
pub open spec fn recategorizing(
    cmd: RecategorizeRecipeModel,
    agg: Option<RecipeAggregateModel>,
    version: u16,
) -> Result<AppendEventModel, RecipeError> {
    match recategorized(cmd) {
        Err(err) => Err(err),
        Ok(event) => appended(
            cmd.recipe_id,
            cmd.owner_id,
            RecipeModel::RecipeRecategorized(event),
            agg,
            version,
        ),
    }
}

/// Changes meal type, cuisine and emoji.
pub fn recategorize_recipe(cmd: RecategorizeRecipe, agg: Option<RecipeAggregate>, version: u16) -> (res: Result<
    AppendEvent,
    RecipeError,
>)
    ensures
        text::res_view(res) == recategorizing(cmd@, text::opt_view(agg), version),
{
    match cmd.to_event() {
        Err(err) => Err(err),
        Ok(event) => append_event(
            cmd.recipe_id,
            cmd.owner_id,
            Recipe::RecipeRecategorized(event),
            agg,
            version,
        ),
    }
}

/// Command: update times, servings and difficulty together.
#[derive(Debug, PartialEq)]
pub struct RetimeRecipe {
    pub recipe_id: String,
    pub owner_id: String,
    pub prep_minutes: u32,
    pub cook_minutes: u32,
    pub servings: u32,
    pub difficulty: String,
}

/// What a [`RetimeRecipe`] holds, as mathematical values.
#[verifier::ext_equal]
pub struct RetimeRecipeModel {
    pub recipe_id: Seq<char>,
    pub owner_id: Seq<char>,
    pub prep_minutes: u32,
    pub cook_minutes: u32,
    pub servings: u32,
    pub difficulty: Seq<char>,
}

impl View for RetimeRecipe {
    type V = RetimeRecipeModel;

    open spec fn view(&self) -> RetimeRecipeModel {
        RetimeRecipeModel {
            recipe_id: self.recipe_id@,
            owner_id: self.owner_id@,
            prep_minutes: self.prep_minutes,
            cook_minutes: self.cook_minutes,
            servings: self.servings,
            difficulty: self.difficulty@,
        }
    }
}

impl Clone for RetimeRecipe {
    fn clone(&self) -> (res: Self)
        ensures
            res@ == self@,
    {
        RetimeRecipe {
            recipe_id: self.recipe_id.clone(),
            owner_id: self.owner_id.clone(),
            prep_minutes: self.prep_minutes,
            cook_minutes: self.cook_minutes,
            servings: self.servings,
            difficulty: self.difficulty.clone(),
        }
    }
}

/// The event of the command, or which field is not in order.
pub open spec fn retimed(cmd: RetimeRecipeModel) -> Result<RecipeRetimedModel, RecipeError> {
    if cmd.servings < 1 {
        Err(RecipeError::ServingsTooLow)
    } else {
        Ok(
            RecipeRetimedModel {
                prep_minutes: cmd.prep_minutes,
                cook_minutes: cmd.cook_minutes,
                servings: cmd.servings,
                difficulty: cmd.difficulty,
            },
        )
    }
}

impl RetimeRecipe {
    /// Checks the fields of the command and makes the event of it.
    pub fn to_event(&self) -> (res: Result<RecipeRetimed, RecipeError>)
        ensures
            text::res_view(res) == retimed(self@),
    {
        if self.servings < 1 {
            return Err(RecipeError::ServingsTooLow);
        }
        Ok(
            RecipeRetimed {
                prep_minutes: self.prep_minutes,
                cook_minutes: self.cook_minutes,
                servings: self.servings,
                difficulty: self.difficulty.clone(),
            },
        )
    }
}

/// What the command appends, or why it is refused.
pub open spec fn retiming(
    cmd: RetimeRecipeModel,
    agg: Option<RecipeAggregateModel>,
    version: u16,
) -> Result<AppendEventModel, RecipeError> {
    match retimed(cmd) {
        Err(err) => Err(err),
        Ok(event) => appended(
            cmd.recipe_id,
            cmd.owner_id,
            RecipeModel::RecipeRetimed(event),
            agg,
            version,
        ),
    }
}

/// Updates times, servings and difficulty; there is at least one serving.
pub fn retime_recipe(cmd: RetimeRecipe, agg: Option<RecipeAggregate>, version: u16) -> (res: Result<
    AppendEvent,
    RecipeError,
>)
    ensures
        text::res_view(res) == retiming(cmd@, text::opt_view(agg), version),
{
    match cmd.to_event() {
        Err(err) => Err(err),
        Ok(event) => append_event(
            cmd.recipe_id,
            cmd.owner_id,
            Recipe::RecipeRetimed(event),
            agg,
            version,
        ),
    }
}

/// Command: edit or clear the description.
#[derive(Debug, PartialEq)]
pub struct RedescribeRecipe {
    pub recipe_id: String,
    pub owner_id: String,
    pub description: String,
}

/// What a [`RedescribeRecipe`] holds, as mathematical values.
#[verifier::ext_equal]
pub struct RedescribeRecipeModel {
    pub recipe_id: Seq<char>,
    pub owner_id: Seq<char>,
    pub description: Seq<char>,
}

impl View for RedescribeRecipe {
    type V = RedescribeRecipeModel;

    open spec fn view(&self) -> RedescribeRecipeModel {
        RedescribeRecipeModel {
            recipe_id: self.recipe_id@,
            owner_id: self.owner_id@,
            description: self.description@,
        }
    }
}

impl Clone for RedescribeRecipe {
    fn clone(&self) -> (res: Self)
        ensures
            res@ == self@,
    {
        RedescribeRecipe {
            recipe_id: self.recipe_id.clone(),
            owner_id: self.owner_id.clone(),
            description: self.description.clone(),
        }
    }
}

/// The event of the command, or which field is not in order.
pub open spec fn redescribed(cmd: RedescribeRecipeModel) -> Result<RecipeRedescribedModel, RecipeError> {
    Ok(RecipeRedescribedModel { description: cmd.description })
}

impl RedescribeRecipe {
    /// Checks the fields of the command and makes the event of it.
    pub fn to_event(&self) -> (res: Result<RecipeRedescribed, RecipeError>)
        ensures
            text::res_view(res) == redescribed(self@),
    {
        Ok(RecipeRedescribed { description: self.description.clone() })
    }
}

/// What the command appends, or why it is refused.
pub open spec fn redescribing(
    cmd: RedescribeRecipeModel,
    agg: Option<RecipeAggregateModel>,
    version: u16,
) -> Result<AppendEventModel, RecipeError> {
    match redescribed(cmd) {
        Err(err) => Err(err),
        Ok(event) => appended(
            cmd.recipe_id,
            cmd.owner_id,
            RecipeModel::RecipeRedescribed(event),
            agg,
            version,
        ),
    }
}

/// Edits or clears the description.
pub fn redescribe_recipe(cmd: RedescribeRecipe, agg: Option<RecipeAggregate>, version: u16) -> (res: Result<
    AppendEvent,
    RecipeError,
>)
    ensures
        text::res_view(res) == redescribing(cmd@, text::opt_view(agg), version),
{
    match cmd.to_event() {
        Err(err) => Err(err),
        Ok(event) => append_event(
            cmd.recipe_id,
            cmd.owner_id,
            Recipe::RecipeRedescribed(event),
            agg,
            version,
        ),
    }
}

/// Command: replace the whole tag list.
#[derive(Debug, PartialEq)]
pub struct RetagRecipe {
    pub recipe_id: String,
    pub owner_id: String,
    pub tags: Vec<String>,
}

/// What a [`RetagRecipe`] holds, as mathematical values.
#[verifier::ext_equal]
pub struct RetagRecipeModel {
    pub recipe_id: Seq<char>,
    pub owner_id: Seq<char>,
    pub tags: Seq<Seq<char>>,
}

impl View for RetagRecipe {
    type V = RetagRecipeModel;

    open spec fn view(&self) -> RetagRecipeModel {
        RetagRecipeModel {
            recipe_id: self.recipe_id@,
            owner_id: self.owner_id@,
            tags: text::views(self.tags@),
        }
    }
}

impl Clone for RetagRecipe {
    fn clone(&self) -> (res: Self)
        ensures
            res@ == self@,
    {
        RetagRecipe {
            recipe_id: self.recipe_id.clone(),
            owner_id: self.owner_id.clone(),
            tags: text::clone_texts(&self.tags),
        }
    }
}

/// The event of the command, or which field is not in order.
pub open spec fn retagged(cmd: RetagRecipeModel) -> Result<RecipeRetaggedModel, RecipeError> {
    Ok(RecipeRetaggedModel { tags: cmd.tags })
}

impl RetagRecipe {
    /// Checks the fields of the command and makes the event of it.
    pub fn to_event(&self) -> (res: Result<RecipeRetagged, RecipeError>)
        ensures
            text::res_view(res) == retagged(self@),
    {
        Ok(RecipeRetagged { tags: text::clone_texts(&self.tags) })
    }
}

/// What the command appends, or why it is refused.
pub open spec fn retagging(
    cmd: RetagRecipeModel,
    agg: Option<RecipeAggregateModel>,
    version: u16,
) -> Result<AppendEventModel, RecipeError> {
    match retagged(cmd) {
        Err(err) => Err(err),
        Ok(event) => appended(
            cmd.recipe_id,
            cmd.owner_id,
            RecipeModel::RecipeRetagged(event),
            agg,
            version,
        ),
    }
}

/// Replaces the whole tag list.
pub fn retag_recipe(cmd: RetagRecipe, agg: Option<RecipeAggregate>, version: u16) -> (res: Result<
    AppendEvent,
    RecipeError,
>)
    ensures
        text::res_view(res) == retagging(cmd@, text::opt_view(agg), version),
{
    match cmd.to_event() {
        Err(err) => Err(err),
        Ok(event) => append_event(
            cmd.recipe_id,
            cmd.owner_id,
            Recipe::RecipeRetagged(event),
            agg,
            version,
        ),
    }
}

/// Command: replace the whole ingredient list.
#[derive(Debug, PartialEq)]
pub struct ReplaceIngredients {
    pub recipe_id: String,
    pub owner_id: String,
    pub ingredients: Vec<IngredientFact>,
}

/// What a [`ReplaceIngredients`] holds, as mathematical values.
#[verifier::ext_equal]
pub struct ReplaceIngredientsModel {
    pub recipe_id: Seq<char>,
    pub owner_id: Seq<char>,
    pub ingredients: Seq<IngredientFactModel>,
}

impl View for ReplaceIngredients {
    type V = ReplaceIngredientsModel;

    open spec fn view(&self) -> ReplaceIngredientsModel {
        ReplaceIngredientsModel {
            recipe_id: self.recipe_id@,
            owner_id: self.owner_id@,
            ingredients: text::views(self.ingredients@),
        }
    }
}

impl Clone for ReplaceIngredients {
    fn clone(&self) -> (res: Self)
        ensures
            res@ == self@,
    {
        let ingredients: Vec<IngredientFact> = self.ingredients.clone();
        assert(text::views(ingredients@) =~= text::views(self.ingredients@));
        ReplaceIngredients {
            recipe_id: self.recipe_id.clone(),
            owner_id: self.owner_id.clone(),
            ingredients,
        }
    }
}

/// The event of the command, or which field is not in order.
pub open spec fn ingredients_replaced(cmd: ReplaceIngredientsModel) -> Result<IngredientsReplacedModel, RecipeError> {
    if cmd.ingredients.filter(named()).len() == 0 {
        Err(RecipeError::IngredientRequired)
    } else {
        Ok(IngredientsReplacedModel { ingredients: cmd.ingredients.filter(named()) })
    }
}

impl ReplaceIngredients {
    /// Checks the fields of the command and makes the event of it.
    pub fn to_event(&self) -> (res: Result<IngredientsReplaced, RecipeError>)
        ensures
            text::res_view(res) == ingredients_replaced(self@),
    {
        let ingredients: Vec<IngredientFact> = named_lines(&self.ingredients);
        if ingredients.len() == 0 {
            return Err(RecipeError::IngredientRequired);
        }
        Ok(IngredientsReplaced { ingredients })
    }
}

/// What the command appends, or why it is refused.
pub open spec fn replacing_ingredients(
    cmd: ReplaceIngredientsModel,
    agg: Option<RecipeAggregateModel>,
    version: u16,
) -> Result<AppendEventModel, RecipeError> {
    match ingredients_replaced(cmd) {
        Err(err) => Err(err),
        Ok(event) => appended(
            cmd.recipe_id,
            cmd.owner_id,
            RecipeModel::IngredientsReplaced(event),
            agg,
            version,
        ),
    }
}

/// Replaces the whole ingredient list; blank rows are dropped and at least one
/// has to be left.
pub fn replace_ingredients(cmd: ReplaceIngredients, agg: Option<RecipeAggregate>, version: u16) -> (res: Result<
    AppendEvent,
    RecipeError,
>)
    ensures
        text::res_view(res) == replacing_ingredients(cmd@, text::opt_view(agg), version),
{
    match cmd.to_event() {
        Err(err) => Err(err),
        Ok(event) => append_event(
            cmd.recipe_id,
            cmd.owner_id,
            Recipe::IngredientsReplaced(event),
            agg,
            version,
        ),
    }
}

/// Command: replace the whole step list.
#[derive(Debug, PartialEq)]
pub struct ReplaceSteps {
    pub recipe_id: String,
    pub owner_id: String,
    pub steps: Vec<StepFact>,
}

/// What a [`ReplaceSteps`] holds, as mathematical values.
#[verifier::ext_equal]
pub struct ReplaceStepsModel {
    pub recipe_id: Seq<char>,
    pub owner_id: Seq<char>,
    pub steps: Seq<StepFactModel>,
}

impl View for ReplaceSteps {
    type V = ReplaceStepsModel;

    open spec fn view(&self) -> ReplaceStepsModel {
        ReplaceStepsModel {
            recipe_id: self.recipe_id@,
            owner_id: self.owner_id@,
            steps: text::views(self.steps@),
        }
    }
}

impl Clone for ReplaceSteps {
    fn clone(&self) -> (res: Self)
        ensures
            res@ == self@,
    {
        let steps: Vec<StepFact> = self.steps.clone();
        assert(text::views(steps@) =~= text::views(self.steps@));
        ReplaceSteps {
            recipe_id: self.recipe_id.clone(),
            owner_id: self.owner_id.clone(),
            steps,
        }
    }
}

/// The event of the command, or which field is not in order.
pub open spec fn steps_replaced(cmd: ReplaceStepsModel) -> Result<StepsReplacedModel, RecipeError> {
    if cmd.steps.filter(worded()).len() == 0 {
        Err(RecipeError::StepRequired)
    } else {
        Ok(StepsReplacedModel { steps: cmd.steps.filter(worded()) })
    }
}

impl ReplaceSteps {
    /// Checks the fields of the command and makes the event of it.
    pub fn to_event(&self) -> (res: Result<StepsReplaced, RecipeError>)
        ensures
            text::res_view(res) == steps_replaced(self@),
    {
        let steps: Vec<StepFact> = worded_lines(&self.steps);
        if steps.len() == 0 {
            return Err(RecipeError::StepRequired);
        }
        Ok(StepsReplaced { steps })
    }
}

/// What the command appends, or why it is refused.
pub open spec fn replacing_steps(
    cmd: ReplaceStepsModel,
    agg: Option<RecipeAggregateModel>,
    version: u16,
) -> Result<AppendEventModel, RecipeError> {
    match steps_replaced(cmd) {
        Err(err) => Err(err),
        Ok(event) => appended(
            cmd.recipe_id,
            cmd.owner_id,
            RecipeModel::StepsReplaced(event),
            agg,
            version,
        ),
    }
}

/// Replaces the whole step list; blank rows are dropped and at least one has to
/// be left.
pub fn replace_steps(cmd: ReplaceSteps, agg: Option<RecipeAggregate>, version: u16) -> (res: Result<
    AppendEvent,
    RecipeError,
>)
    ensures
        text::res_view(res) == replacing_steps(cmd@, text::opt_view(agg), version),
{
    match cmd.to_event() {
        Err(err) => Err(err),
        Ok(event) => append_event(
            cmd.recipe_id,
            cmd.owner_id,
            Recipe::StepsReplaced(event),
            agg,
            version,
        ),
    }
}

/// Command: delete the recipe.
#[derive(Debug, PartialEq)]
pub struct DeleteRecipe {
    pub recipe_id: String,
    pub owner_id: String,
}

/// What a [`DeleteRecipe`] holds, as mathematical values.
#[verifier::ext_equal]
pub struct DeleteRecipeModel {
    pub recipe_id: Seq<char>,
    pub owner_id: Seq<char>,
}

impl View for DeleteRecipe {
    type V = DeleteRecipeModel;

    open spec fn view(&self) -> DeleteRecipeModel {
        DeleteRecipeModel {
            recipe_id: self.recipe_id@,
            owner_id: self.owner_id@,
        }
    }
}

impl Clone for DeleteRecipe {
    fn clone(&self) -> (res: Self)
        ensures
            res@ == self@,
    {
        DeleteRecipe {
            recipe_id: self.recipe_id.clone(),
            owner_id: self.owner_id.clone(),
        }
    }
}

/// What a deletion appends: nothing where the recipe is already deleted.
pub open spec fn deleted(
    cmd: DeleteRecipeModel,
    agg: Option<RecipeAggregateModel>,
    version: u16,
) -> Result<Option<AppendEventModel>, RecipeError> {
    match authorized(agg, cmd.owner_id) {
        Err(err) => Err(err),
        Ok(state) => if state.deleted {
            Ok(None)
        } else {
            Ok(
                Some(
                    AppendEventModel {
                        recipe_id: cmd.recipe_id,
                        original_version: version,
                        event: RecipeModel::RecipeDeleted,
                        requested_by: cmd.owner_id,
                    },
                ),
            )
        },
    }
}

/// Deletes a recipe. Deleting it again appends nothing and is no error.
pub fn delete_recipe(cmd: DeleteRecipe, agg: Option<RecipeAggregate>, version: u16) -> (res: Result<
    Option<AppendEvent>,
    RecipeError,
>)
    ensures
        match res {
            Ok(append) => deleted(cmd@, text::opt_view(agg), version) == Ok::<
                Option<AppendEventModel>,
                RecipeError,
            >(text::opt_view(append)),
            Err(err) => deleted(cmd@, text::opt_view(agg), version) == Err::<
                Option<AppendEventModel>,
                RecipeError,
            >(err),
        },
{
    match load_and_authorize(agg, cmd.owner_id.as_str()) {
        Err(err) => Err(err),
        Ok(state) => {
            if state.deleted {
                return Ok(None);
            }
            Ok(
                Some(
                    AppendEvent {
                        recipe_id: cmd.recipe_id,
                        original_version: version,
                        event: Recipe::RecipeDeleted,
                        requested_by: cmd.owner_id,
                    },
                ),
            )
        },
    }
}

// ── What holds of recipes ───────────────────────────────────────────────

/// A unit is read from its slug in any case and with white space around it,
/// and from nothing else, but that `none` also stands for no unit.
pub proof fn law_units_are_read_in_any_case(unit: Unit, s: Seq<char>)
    ensures
        text::ascii_lowered(text::trimmed(s)) == unit.slug_text() ==> unit_of(s) == Some(unit),
        unit_of(s) == Some(unit) ==> text::ascii_lowered(text::trimmed(s)) == unit.slug_text() || (
        unit == Unit::Unitless && text::ascii_lowered(text::trimmed(s)) == "none"@),
        text::ascii_lowered(text::trimmed(s)) == "none"@ ==> unit_of(s) == Some(Unit::Unitless),
        unit_of(s) is None ==> unit_or_unitless(s) == Unit::Unitless,
        unit_of(s) == Some(unit) ==> unit_or_unitless(s) == unit,
{
    reveal_strlit("g");
    reveal_strlit("ml");
    reveal_strlit("kg");
    reveal_strlit("l");
    reveal_strlit("tbsp");
    reveal_strlit("tsp");
    reveal_strlit("cup");
    reveal_strlit("piece");
    reveal_strlit("pinch");
    reveal_strlit("");
    reveal_strlit("none");
    assert("g"@[0] != "l"@[0]);
    assert("ml"@[0] != "kg"@[0]);
    assert("tsp"@[0] != "cup"@[0]);
    assert("tbsp"@[0] != "none"@[0]);
    assert("piece"@[2] != "pinch"@[2]);
    law_unit_slug_round_trip(unit);
    let slug = unit.slug_text();
    reveal_with_fuel(text::trim_start, 2);
    reveal_with_fuel(text::trim_end, 2);
    assert(text::trimmed(slug) == slug);
    assert(text::ascii_lowered(slug) =~= slug);
    if text::ascii_lowered(text::trimmed(s)) == slug {
        assert(unit_of(s) == unit_of(slug));
    }
}

/// A meal type that is not known counts as a main course, and one that is
/// known as itself.
pub proof fn law_unknown_meal_types_are_mains(s: Seq<char>, meal_type: MealType)
    ensures
        s == meal_type.slug_text() ==> meal_type_or_main(s) == meal_type,
        (forall|m: MealType| s != #[trigger] m.slug_text()) ==> meal_type_or_main(s)
            == MealType::Main,
{
    law_meal_type_slug_round_trip(meal_type, s);
    if forall|m: MealType| s != #[trigger] m.slug_text() {
        assert(s != MealType::Entree.slug_text());
        assert(s != MealType::Main.slug_text());
        assert(s != MealType::Side.slug_text());
        assert(s != MealType::Dessert.slug_text());
    }
}

/// An amount begins with its number, where there is one, and then names its
/// unit. Without number and unit it is left to taste.
pub proof fn law_amounts_name_number_and_unit(
    ingredient: IngredientFactModel,
    number: Seq<char>,
    is_one: bool,
)
    ensures
        ingredient.quantity is Some ==> number.is_prefix_of(
            amount_text(ingredient, number, is_one),
        ),
        ingredient.quantity is Some && ingredient.unit == Unit::Unitless ==> amount_text(
            ingredient,
            number,
            is_one,
        ) == number,
        ingredient.quantity is Some && ingredient.unit != Unit::Unitless && ingredient.unit
            != Unit::Piece ==> amount_text(ingredient, number, is_one).skip(number.len() as int)
            == " "@ + ingredient.unit.slug_text(),
        ingredient.quantity is Some && ingredient.unit == Unit::Piece ==> amount_text(
            ingredient,
            number,
            is_one,
        ).skip(number.len() as int) == if is_one {
            " pc"@
        } else {
            " pcs"@
        },
        ingredient.quantity is None && ingredient.unit != Unit::Unitless && ingredient.unit
            != Unit::Pinch ==> amount_text(ingredient, number, is_one)
            == ingredient.unit.slug_text(),
        ingredient.quantity is None && ingredient.unit == Unit::Unitless ==> amount_text(
            ingredient,
            number,
            is_one,
        ) == "to taste"@,
        ingredient.quantity is None && ingredient.unit == Unit::Pinch ==> amount_text(
            ingredient,
            number,
            is_one,
        ) == "a pinch"@,
{
    let all = amount_text(ingredient, number, is_one);
    if ingredient.quantity is Some {
        let slug = ingredient.unit.slug_text();
        assert((number + " "@ + slug).skip(number.len() as int) =~= " "@ + slug);
        assert((number + " pc"@).skip(number.len() as int) =~= " pc"@);
        assert((number + " pcs"@).skip(number.len() as int) =~= " pcs"@);
        assert(number.is_prefix_of(all)) by {
            assert(all.take(number.len() as int) =~= number);
        }
    }
}

/// A draft is accepted if and only if it has an owner, a title, a serving, an
/// ingredient with a name and a step with a text.
pub proof fn law_what_a_draft_needs(cmd: DraftRecipeModel)
    ensures
        drafted(cmd) is Ok <==> (!text::blank(cmd.owner_id) && !text::blank(cmd.title)
            && cmd.servings >= 1 && (exists|i: int|
            0 <= i < cmd.ingredients.len() && !text::blank(
                (#[trigger] cmd.ingredients[i]).name,
            )) && (exists|i: int|
            0 <= i < cmd.steps.len() && !text::blank((#[trigger] cmd.steps[i]).text))),
{
    lemma_some_named(cmd.ingredients);
    lemma_some_worded(cmd.steps);
}

/// A draft that is refused is told the first thing that it lacks.
pub proof fn law_drafts_are_told_what_they_lack(cmd: DraftRecipeModel)
    ensures
        match drafted(cmd) {
            Ok(_) => true,
            Err(RecipeError::OwnerRequired) => text::blank(cmd.owner_id),
            Err(RecipeError::TitleRequired) => !text::blank(cmd.owner_id) && text::blank(cmd.title),
            Err(RecipeError::ServingsTooLow) => !text::blank(cmd.title) && cmd.servings == 0,
            Err(RecipeError::IngredientRequired) => cmd.servings > 0 && forall|i: int|
                0 <= i < cmd.ingredients.len() ==> text::blank(
                    (#[trigger] cmd.ingredients[i]).name,
                ),
            Err(RecipeError::StepRequired) => (exists|i: int|
                0 <= i < cmd.ingredients.len() && !text::blank(
                    (#[trigger] cmd.ingredients[i]).name,
                )) && forall|i: int|
                0 <= i < cmd.steps.len() ==> text::blank((#[trigger] cmd.steps[i]).text),
            Err(_) => false,
        },
{
    lemma_some_named(cmd.ingredients);
    lemma_some_worded(cmd.steps);
}

proof fn lemma_some_named(items: Seq<IngredientFactModel>)
    ensures
        items.filter(named()).len() > 0 <==> exists|i: int|
            0 <= i < items.len() && !text::blank((#[trigger] items[i]).name),
{
    if exists|i: int| 0 <= i < items.len() && !text::blank((#[trigger] items[i]).name) {
        let i = choose|i: int| 0 <= i < items.len() && !text::blank((#[trigger] items[i]).name);
        lemma_filter_nonempty(items, named(), i);
    } else {
        lemma_filter_none(items, named());
    }
}

proof fn lemma_some_worded(items: Seq<StepFactModel>)
    ensures
        items.filter(worded()).len() > 0 <==> exists|i: int|
            0 <= i < items.len() && !text::blank((#[trigger] items[i]).text),
{
    if exists|i: int| 0 <= i < items.len() && !text::blank((#[trigger] items[i]).text) {
        let i = choose|i: int| 0 <= i < items.len() && !text::blank((#[trigger] items[i]).text);
        lemma_filter_nonempty(items, worded(), i);
    } else {
        lemma_filter_none(items, worded());
    }
}

proof fn lemma_filter_none<A>(items: Seq<A>, keep: spec_fn(A) -> bool)
    requires
        forall|i: int| 0 <= i < items.len() ==> !keep(#[trigger] items[i]),
    ensures
        items.filter(keep).len() == 0,
    decreases items.len(),
{
    reveal(Seq::filter);
    if items.len() > 0 {
        lemma_filter_none(items.drop_last(), keep);
    }
}

/// A draft is written as it was given, but for its blank rows and a blank
/// emoji, which becomes that of the meal type.
pub proof fn law_drafts_are_written_as_given(cmd: DraftRecipeModel)
    requires
        drafted(cmd) is Ok,
    ensures
        drafted(cmd)->Ok_0.owner_id == cmd.owner_id,
        drafted(cmd)->Ok_0.title == cmd.title,
        meal_type_of(drafted(cmd)->Ok_0.meal_type) == Some(cmd.meal_type),
        drafted(cmd)->Ok_0.cuisine == cmd.cuisine,
        text::blank(cmd.emoji) ==> drafted(cmd)->Ok_0.emoji == cmd.meal_type.emoji_text(),
        !text::blank(cmd.emoji) ==> drafted(cmd)->Ok_0.emoji == cmd.emoji,
        drafted(cmd)->Ok_0.prep_minutes == cmd.prep_minutes,
        drafted(cmd)->Ok_0.cook_minutes == cmd.cook_minutes,
        drafted(cmd)->Ok_0.servings == cmd.servings,
        drafted(cmd)->Ok_0.difficulty == cmd.difficulty,
        drafted(cmd)->Ok_0.description == cmd.description,
        drafted(cmd)->Ok_0.tags == cmd.tags,
        drafted(cmd)->Ok_0.provenance == cmd.provenance,
{
    law_meal_type_slug_round_trip(cmd.meal_type, Seq::empty());
}

/// The creation that an accepted draft leads to is routed to its owner and
/// done in the owner's name.
pub proof fn law_drafts_are_created_for_their_owner(cmd: DraftRecipeModel)
    ensures
        creation(cmd) is Ok <==> drafted(cmd) is Ok,
        creation(cmd) matches Err(err) ==> drafted(cmd) == Err::<RecipeDraftedModel, RecipeError>(
            err,
        ),
        creation(cmd) matches Ok(create) ==> drafted(cmd) == Ok::<RecipeDraftedModel, RecipeError>(
            create.event,
        ) && create.requested_by == cmd.owner_id && create.routing_key == "user:"@ + cmd.owner_id,
{
}

/// Where no row is blank, all rows are kept, as they are and in their order.
pub proof fn law_whole_lists_are_kept(
    cmd: DraftRecipeModel,
    replace: ReplaceIngredientsModel,
    steps: ReplaceStepsModel,
)
    ensures
        drafted(cmd) is Ok && (forall|i: int|
            0 <= i < cmd.ingredients.len() ==> !text::blank((#[trigger] cmd.ingredients[i]).name))
            ==> drafted(cmd)->Ok_0.ingredients == cmd.ingredients,
        drafted(cmd) is Ok && (forall|i: int|
            0 <= i < cmd.steps.len() ==> !text::blank((#[trigger] cmd.steps[i]).text)) ==> drafted(
            cmd,
        )->Ok_0.steps == cmd.steps,
        replace.ingredients.len() > 0 && (forall|i: int|
            0 <= i < replace.ingredients.len() ==> !text::blank(
                (#[trigger] replace.ingredients[i]).name,
            )) ==> (ingredients_replaced(replace) matches Ok(event) && event.ingredients
            == replace.ingredients),
        steps.steps.len() > 0 && (forall|i: int|
            0 <= i < steps.steps.len() ==> !text::blank((#[trigger] steps.steps[i]).text)) ==> (
        steps_replaced(steps) matches Ok(event) && event.steps == steps.steps),
{
    if forall|i: int|
        0 <= i < cmd.ingredients.len() ==> !text::blank((#[trigger] cmd.ingredients[i]).name) {
        text::lemma_filter_all(cmd.ingredients, named());
    }
    if forall|i: int| 0 <= i < cmd.steps.len() ==> !text::blank((#[trigger] cmd.steps[i]).text) {
        text::lemma_filter_all(cmd.steps, worded());
    }
    if forall|i: int|
        0 <= i < replace.ingredients.len() ==> !text::blank(
            (#[trigger] replace.ingredients[i]).name,
        ) {
        text::lemma_filter_all(replace.ingredients, named());
    }
    if forall|i: int| 0 <= i < steps.steps.len() ==> !text::blank((#[trigger] steps.steps[i]).text) {
        text::lemma_filter_all(steps.steps, worded());
    }
}

/// An ingredient without a name makes no difference, wherever it stands.
pub proof fn law_nameless_ingredients_make_no_difference(
    cmd: DraftRecipeModel,
    replace: ReplaceIngredientsModel,
    i: int,
    ingredient: IngredientFactModel,
)
    requires
        text::blank(ingredient.name),
    ensures
        0 <= i <= cmd.ingredients.len() ==> drafted(
            DraftRecipeModel { ingredients: cmd.ingredients.insert(i, ingredient), ..cmd },
        ) == drafted(cmd),
        0 <= i <= replace.ingredients.len() ==> ingredients_replaced(
            ReplaceIngredientsModel {
                ingredients: replace.ingredients.insert(i, ingredient),
                ..replace
            },
        ) == ingredients_replaced(replace),
{
    if 0 <= i <= cmd.ingredients.len() {
        text::lemma_filter_insert(cmd.ingredients, named(), i, ingredient);
    }
    if 0 <= i <= replace.ingredients.len() {
        text::lemma_filter_insert(replace.ingredients, named(), i, ingredient);
    }
}

/// A step without a text makes no difference, wherever it stands.
pub proof fn law_wordless_steps_make_no_difference(
    cmd: DraftRecipeModel,
    replace: ReplaceStepsModel,
    i: int,
    step: StepFactModel,
)
    requires
        text::blank(step.text),
    ensures
        0 <= i <= cmd.steps.len() ==> drafted(
            DraftRecipeModel { steps: cmd.steps.insert(i, step), ..cmd },
        ) == drafted(cmd),
        0 <= i <= replace.steps.len() ==> steps_replaced(
            ReplaceStepsModel { steps: replace.steps.insert(i, step), ..replace },
        ) == steps_replaced(replace),
{
    if 0 <= i <= cmd.steps.len() {
        text::lemma_filter_insert(cmd.steps, worded(), i, step);
    }
    if 0 <= i <= replace.steps.len() {
        text::lemma_filter_insert(replace.steps, worded(), i, step);
    }
}

/// Every ingredient with a name is in the draft as often as it was given, with
/// its quantity and unit, and so is every step with a text; nothing else is.
pub proof fn law_rows_are_kept_as_often_as_given(
    cmd: DraftRecipeModel,
    ingredient: IngredientFactModel,
    step: StepFactModel,
)
    requires
        drafted(cmd) is Ok,
    ensures
        drafted(cmd)->Ok_0.ingredients.to_multiset().count(ingredient) == if text::blank(
            ingredient.name,
        ) {
            0
        } else {
            cmd.ingredients.to_multiset().count(ingredient)
        },
        drafted(cmd)->Ok_0.steps.to_multiset().count(step) == if text::blank(step.text) {
            0
        } else {
            cmd.steps.to_multiset().count(step)
        },
{
    text::lemma_filter_count(cmd.ingredients, named(), ingredient);
    text::lemma_filter_count(cmd.steps, worded(), step);
}

/// The lists of a replacement keep every row that is not blank as often as it
/// was given, and are refused only where no such row is left.
pub proof fn law_replacements_keep_their_rows(
    replace: ReplaceIngredientsModel,
    ingredient: IngredientFactModel,
    steps: ReplaceStepsModel,
    step: StepFactModel,
)
    ensures
        match ingredients_replaced(replace) {
            Ok(event) => event.ingredients.to_multiset().count(ingredient) == if text::blank(
                ingredient.name,
            ) {
                0
            } else {
                replace.ingredients.to_multiset().count(ingredient)
            },
            Err(err) => err == RecipeError::IngredientRequired && forall|i: int|
                0 <= i < replace.ingredients.len() ==> text::blank(
                    (#[trigger] replace.ingredients[i]).name,
                ),
        },
        match steps_replaced(steps) {
            Ok(event) => event.steps.to_multiset().count(step) == if text::blank(step.text) {
                0
            } else {
                steps.steps.to_multiset().count(step)
            },
            Err(err) => err == RecipeError::StepRequired && forall|i: int|
                0 <= i < steps.steps.len() ==> text::blank((#[trigger] steps.steps[i]).text),
        },
{
    text::lemma_filter_count(replace.ingredients, named(), ingredient);
    text::lemma_filter_count(steps.steps, worded(), step);
    lemma_some_named(replace.ingredients);
    lemma_some_worded(steps.steps);
}

/// A title is changed to the one given, without the white space around it; a
/// title that is nothing else is refused.
pub proof fn law_titles_are_trimmed(
    cmd: RenameRecipeModel,
    before: Seq<char>,
    title: Seq<char>,
    after: Seq<char>,
)
    requires
        cmd.new_title == before + title + after,
        text::blank(before),
        text::blank(after),
        title.len() > 0 ==> !text::is_white_space(title[0]) && !text::is_white_space(title.last()),
    ensures
        title.len() > 0 ==> renamed(cmd) == Ok::<RecipeRenamedModel, RecipeError>(
            RecipeRenamedModel { new_title: title },
        ),
        title.len() == 0 ==> renamed(cmd) == Err::<RecipeRenamedModel, RecipeError>(
            RecipeError::TitleRequired,
        ),
{
    if title.len() > 0 {
        text::law_trimming_keeps_the_text(before, title, after);
    } else {
        assert(before + title + after =~= before + after);
        assert(text::blank(before + after));
    }
}

/// Category, timing, description and tags are changed to what was given. A
/// blank emoji becomes that of the meal type; no servings are refused.
pub proof fn law_edits_are_written_as_given(
    category: RecategorizeRecipeModel,
    timing: RetimeRecipeModel,
    description: RedescribeRecipeModel,
    tags: RetagRecipeModel,
)
    ensures
        recategorized(category) matches Ok(event) && meal_type_of(event.meal_type) == Some(
            category.meal_type,
        ) && event.cuisine == category.cuisine && (text::blank(category.emoji) ==> event.emoji
            == category.meal_type.emoji_text()) && (!text::blank(category.emoji) ==> event.emoji
            == category.emoji),
        timing.servings == 0 ==> retimed(timing) == Err::<RecipeRetimedModel, RecipeError>(
            RecipeError::ServingsTooLow,
        ),
        timing.servings > 0 ==> (retimed(timing) matches Ok(event) && event.prep_minutes
            == timing.prep_minutes && event.cook_minutes == timing.cook_minutes && event.servings
            == timing.servings && event.difficulty == timing.difficulty),
        redescribed(description) matches Ok(event) && event.description == description.description,
        retagged(tags) matches Ok(event) && event.tags == tags.tags,
{
    law_meal_type_slug_round_trip(category.meal_type, Seq::empty());
}

/// What is appended for the owner of a recipe that is not deleted is the event
/// itself, to that recipe, on the version that was read, in the owner's name.
pub proof fn law_events_are_appended_as_they_are(
    recipe_id: Seq<char>,
    event: RecipeModel,
    agg: RecipeAggregateModel,
    version: u16,
)
    requires
        !agg.deleted,
    ensures
        appended(recipe_id, agg.owner_id, event, Some(agg), version) matches Ok(append)
            && append.event == event && append.recipe_id == recipe_id && append.original_version
            == version && append.requested_by == agg.owner_id,
        deleted(
            DeleteRecipeModel { recipe_id, owner_id: agg.owner_id },
            Some(agg),
            version,
        ) matches Ok(Some(append)) && append.event == RecipeModel::RecipeDeleted
            && append.recipe_id == recipe_id && append.original_version == version
            && append.requested_by == agg.owner_id,
{
}

/// The state of a recipe keeps the owner of its draft through every other
/// event, and is deleted by a deletion alone.
pub proof fn law_state_follows_the_log(
    state: RecipeAggregateModel,
    draft: RecipeDraftedModel,
    event: RecipeModel,
)
    ensures
        aggregate_step(Some(state), RecipeModel::RecipeDrafted(draft)) == Some(
            RecipeAggregateModel { owner_id: draft.owner_id, deleted: false },
        ),
        aggregate_step(None, RecipeModel::RecipeDrafted(draft)) == Some(
            RecipeAggregateModel { owner_id: draft.owner_id, deleted: false },
        ),
        !(event is RecipeDrafted) ==> (aggregate_step(Some(state), event) matches Some(next)
            && next.owner_id == state.owner_id && next.deleted == (state.deleted
            || event is RecipeDeleted)),
{
}

/// What each meal type is called: in storage and in the user interface.
pub proof fn law_meal_types_are_called(value: MealType)
    ensures
        value == MealType::Entree ==> value.slug_text() == "entree"@,
        value == MealType::Main ==> value.slug_text() == "main"@,
        value == MealType::Side ==> value.slug_text() == "side"@,
        value == MealType::Dessert ==> value.slug_text() == "dessert"@,
        value == MealType::Entree ==> value.label_text() == "Starter"@,
        value == MealType::Main ==> value.label_text() == "Main"@,
        value == MealType::Side ==> value.label_text() == "Side"@,
        value == MealType::Dessert ==> value.label_text() == "Dessert"@,
        value == MealType::Entree ==> value.emoji_text() == "🥗"@,
        value == MealType::Main ==> value.emoji_text() == "🍛"@,
        value == MealType::Side ==> value.emoji_text() == "🥖"@,
        value == MealType::Dessert ==> value.emoji_text() == "🍰"@,
{
}

/// What each unit is called.
pub proof fn law_units_are_called(value: Unit)
    ensures
        value == Unit::G ==> value.slug_text() == "g"@,
        value == Unit::Ml ==> value.slug_text() == "ml"@,
        value == Unit::Kg ==> value.slug_text() == "kg"@,
        value == Unit::L ==> value.slug_text() == "l"@,
        value == Unit::Tbsp ==> value.slug_text() == "tbsp"@,
        value == Unit::Tsp ==> value.slug_text() == "tsp"@,
        value == Unit::Cup ==> value.slug_text() == "cup"@,
        value == Unit::Piece ==> value.slug_text() == "piece"@,
        value == Unit::Pinch ==> value.slug_text() == "pinch"@,
        value == Unit::Unitless ==> value.slug_text() == ""@,
{
}

/// What is said of each refusal.
pub proof fn law_refusals_are_worded(value: RecipeError)
    ensures
        value == RecipeError::OwnerRequired ==> value.message_text() == "owner is required"@,
        value == RecipeError::TitleRequired ==> value.message_text() == "title is required"@,
        value == RecipeError::ServingsTooLow ==> value.message_text() == "servings must be at least 1"@,
        value == RecipeError::IngredientRequired ==> value.message_text() == "at least one ingredient is required"@,
        value == RecipeError::StepRequired ==> value.message_text() == "at least one step is required"@,
        value == RecipeError::NotFound ==> value.message_text() == "recipe not found"@,
        value == RecipeError::NotOwner ==> value.message_text() == "not owner"@,
        value == RecipeError::Deleted ==> value.message_text() == "recipe deleted"@,
{
}

/// A model has every field of the value that it stands for.
pub proof fn law_models_have_every_field(
    ingredient_fact: IngredientFact,
    step_fact: StepFact,
    provenance: Provenance,
    recipe_drafted: RecipeDrafted,
    recipe_renamed: RecipeRenamed,
    recipe_recategorized: RecipeRecategorized,
    recipe_retimed: RecipeRetimed,
    recipe_redescribed: RecipeRedescribed,
    recipe_retagged: RecipeRetagged,
    ingredients_replaced: IngredientsReplaced,
    steps_replaced: StepsReplaced,
    recipe_aggregate: RecipeAggregate,
    draft_recipe: DraftRecipe,
    create_event: CreateEvent,
    append_event: AppendEvent,
    rename_recipe: RenameRecipe,
    recategorize_recipe: RecategorizeRecipe,
    retime_recipe: RetimeRecipe,
    redescribe_recipe: RedescribeRecipe,
    retag_recipe: RetagRecipe,
    replace_ingredients: ReplaceIngredients,
    replace_steps: ReplaceSteps,
    delete_recipe: DeleteRecipe,
)
    ensures
        ingredient_fact@.name == ingredient_fact.name@,
        ingredient_fact@.quantity == ingredient_fact.quantity,
        ingredient_fact@.unit == ingredient_fact.unit,
        step_fact@.wait_minutes == step_fact.wait_minutes,
        step_fact@.text == step_fact.text@,
        provenance@.kind == provenance.kind@,
        provenance@.import_job_id == provenance.import_job_id@,
        recipe_drafted@.owner_id == recipe_drafted.owner_id@,
        recipe_drafted@.title == recipe_drafted.title@,
        recipe_drafted@.meal_type == recipe_drafted.meal_type@,
        recipe_drafted@.cuisine == recipe_drafted.cuisine@,
        recipe_drafted@.emoji == recipe_drafted.emoji@,
        recipe_drafted@.prep_minutes == recipe_drafted.prep_minutes,
        recipe_drafted@.cook_minutes == recipe_drafted.cook_minutes,
        recipe_drafted@.servings == recipe_drafted.servings,
        recipe_drafted@.difficulty == recipe_drafted.difficulty@,
        recipe_drafted@.description == recipe_drafted.description@,
        recipe_drafted@.tags == text::views(recipe_drafted.tags@),
        recipe_drafted@.ingredients == text::views(recipe_drafted.ingredients@),
        recipe_drafted@.steps == text::views(recipe_drafted.steps@),
        recipe_drafted@.provenance == recipe_drafted.provenance@,
        recipe_renamed@.new_title == recipe_renamed.new_title@,
        recipe_recategorized@.meal_type == recipe_recategorized.meal_type@,
        recipe_recategorized@.cuisine == recipe_recategorized.cuisine@,
        recipe_recategorized@.emoji == recipe_recategorized.emoji@,
        recipe_retimed@.prep_minutes == recipe_retimed.prep_minutes,
        recipe_retimed@.cook_minutes == recipe_retimed.cook_minutes,
        recipe_retimed@.servings == recipe_retimed.servings,
        recipe_retimed@.difficulty == recipe_retimed.difficulty@,
        recipe_redescribed@.description == recipe_redescribed.description@,
        recipe_retagged@.tags == text::views(recipe_retagged.tags@),
        ingredients_replaced@.ingredients == text::views(ingredients_replaced.ingredients@),
        steps_replaced@.steps == text::views(steps_replaced.steps@),
        recipe_aggregate@.owner_id == recipe_aggregate.owner_id@,
        recipe_aggregate@.deleted == recipe_aggregate.deleted,
        draft_recipe@.owner_id == draft_recipe.owner_id@,
        draft_recipe@.title == draft_recipe.title@,
        draft_recipe@.meal_type == draft_recipe.meal_type,
        draft_recipe@.cuisine == draft_recipe.cuisine@,
        draft_recipe@.emoji == draft_recipe.emoji@,
        draft_recipe@.prep_minutes == draft_recipe.prep_minutes,
        draft_recipe@.cook_minutes == draft_recipe.cook_minutes,
        draft_recipe@.servings == draft_recipe.servings,
        draft_recipe@.difficulty == draft_recipe.difficulty@,
        draft_recipe@.description == draft_recipe.description@,
        draft_recipe@.tags == text::views(draft_recipe.tags@),
        draft_recipe@.ingredients == text::views(draft_recipe.ingredients@),
        draft_recipe@.steps == text::views(draft_recipe.steps@),
        draft_recipe@.provenance == draft_recipe.provenance@,
        create_event@.event == create_event.event@,
        create_event@.routing_key == create_event.routing_key@,
        create_event@.requested_by == create_event.requested_by@,
        append_event@.recipe_id == append_event.recipe_id@,
        append_event@.original_version == append_event.original_version,
        append_event@.event == append_event.event@,
        append_event@.requested_by == append_event.requested_by@,
        rename_recipe@.recipe_id == rename_recipe.recipe_id@,
        rename_recipe@.owner_id == rename_recipe.owner_id@,
        rename_recipe@.new_title == rename_recipe.new_title@,
        recategorize_recipe@.recipe_id == recategorize_recipe.recipe_id@,
        recategorize_recipe@.owner_id == recategorize_recipe.owner_id@,
        recategorize_recipe@.meal_type == recategorize_recipe.meal_type,
        recategorize_recipe@.cuisine == recategorize_recipe.cuisine@,
        recategorize_recipe@.emoji == recategorize_recipe.emoji@,
        retime_recipe@.recipe_id == retime_recipe.recipe_id@,
        retime_recipe@.owner_id == retime_recipe.owner_id@,
        retime_recipe@.prep_minutes == retime_recipe.prep_minutes,
        retime_recipe@.cook_minutes == retime_recipe.cook_minutes,
        retime_recipe@.servings == retime_recipe.servings,
        retime_recipe@.difficulty == retime_recipe.difficulty@,
        redescribe_recipe@.recipe_id == redescribe_recipe.recipe_id@,
        redescribe_recipe@.owner_id == redescribe_recipe.owner_id@,
        redescribe_recipe@.description == redescribe_recipe.description@,
        retag_recipe@.recipe_id == retag_recipe.recipe_id@,
        retag_recipe@.owner_id == retag_recipe.owner_id@,
        retag_recipe@.tags == text::views(retag_recipe.tags@),
        replace_ingredients@.recipe_id == replace_ingredients.recipe_id@,
        replace_ingredients@.owner_id == replace_ingredients.owner_id@,
        replace_ingredients@.ingredients == text::views(replace_ingredients.ingredients@),
        replace_steps@.recipe_id == replace_steps.recipe_id@,
        replace_steps@.owner_id == replace_steps.owner_id@,
        replace_steps@.steps == text::views(replace_steps.steps@),
        delete_recipe@.recipe_id == delete_recipe.recipe_id@,
        delete_recipe@.owner_id == delete_recipe.owner_id@,
{
}

} // verus!
