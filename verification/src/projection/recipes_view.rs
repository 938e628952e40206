//! `recipes_view`: the recipe catalogue, one row per recipe.
//!
//! The list page and the detail page are both served from it.

use vstd::prelude::*;
use vstd::string::*;

use crate::history;
use crate::history::Content;
use crate::json;
use crate::recipe::{
    IngredientFact, IngredientsReplaced, RecipeDrafted, RecipeRecategorized, RecipeRedescribed,
    RecipeRenamed, RecipeRetagged, RecipeRetimed, StepFact, StepsReplaced,
};
use crate::recipe::{IngredientFactModel, RecipeDraftedModel, RecipeModel, StepFactModel};
use crate::text;

verus! {

/// A rating: the bit pattern of an IEEE-754 double precision number. All bits
/// are zero for a rating of zero.
#[derive(Debug, Clone, Copy, PartialEq, Eq, Structural)]
pub struct Rating {
    pub bits: u64,
}

/// One row of `recipes_view`.
#[derive(Debug, PartialEq)]
pub struct RecipeRow {
    pub id: String,
    pub owner_id: String,
    pub title: String,
    pub meal_type: String,
    pub emoji: String,
    pub cuisine: String,
    pub time_minutes: i64,
    pub servings: i64,
    pub rating: Rating,
    pub difficulty: String,
    pub description: String,
    /// A JSON list of texts.
    pub tags_json: String,
    pub ingredients: Vec<IngredientFact>,
    pub steps: Vec<StepFact>,
    pub created_at: i64,
}

/// What a [`RecipeRow`] holds, as mathematical values.
#[verifier::ext_equal]
pub struct RecipeRowModel {
    pub id: Seq<char>,
    pub owner_id: Seq<char>,
    pub title: Seq<char>,
    pub meal_type: Seq<char>,
    pub emoji: Seq<char>,
    pub cuisine: Seq<char>,
    pub time_minutes: i64,
    pub servings: i64,
    pub rating: Rating,
    pub difficulty: Seq<char>,
    pub description: Seq<char>,
    pub tags_json: Seq<char>,
    pub ingredients: Seq<IngredientFactModel>,
    pub steps: Seq<StepFactModel>,
    pub created_at: i64,
}

impl View for RecipeRow {
    type V = RecipeRowModel;

    open spec fn view(&self) -> RecipeRowModel {
        RecipeRowModel {
            id: self.id@,
            owner_id: self.owner_id@,
            title: self.title@,
            meal_type: self.meal_type@,
            emoji: self.emoji@,
            cuisine: self.cuisine@,
            time_minutes: self.time_minutes,
            servings: self.servings,
            rating: self.rating,
            difficulty: self.difficulty@,
            description: self.description@,
            tags_json: self.tags_json@,
            ingredients: text::views(self.ingredients@),
            steps: text::views(self.steps@),
            created_at: self.created_at,
        }
    }
}

impl Clone for RecipeRow {
    fn clone(&self) -> (res: Self)
        ensures
            res@ == self@,
    {
        let ingredients: Vec<IngredientFact> = self.ingredients.clone();
        assert(text::views(ingredients@) =~= text::views(self.ingredients@));
        let steps: Vec<StepFact> = self.steps.clone();
        assert(text::views(steps@) =~= text::views(self.steps@));
        RecipeRow {
            id: self.id.clone(),
            owner_id: self.owner_id.clone(),
            title: self.title.clone(),
            meal_type: self.meal_type.clone(),
            emoji: self.emoji.clone(),
            cuisine: self.cuisine.clone(),
            time_minutes: self.time_minutes,
            servings: self.servings,
            rating: self.rating,
            difficulty: self.difficulty.clone(),
            description: self.description.clone(),
            tags_json: self.tags_json.clone(),
            ingredients,
            steps,
            created_at: self.created_at,
        }
    }
}

impl RecipeRow {
    /// The tags of the recipe; none where the column holds no list.
    pub fn tags(&self) -> (res: Vec<String>)
        ensures
            text::views(res@) == json::texts_or_none(json::text_list_of(self@.tags_json)),
    {
        json::texts_of(self.tags_json.as_str())
    }

    /// The ingredients of the recipe.
    pub fn ingredients(&self) -> (res: Vec<IngredientFact>)
        ensures
            text::views(res@) == self@.ingredients,
    {
        let rows: Vec<IngredientFact> = self.ingredients.clone();
        assert(text::views(rows@) =~= self@.ingredients);
        rows
    }

    /// The steps of the recipe.
    pub fn steps(&self) -> (res: Vec<StepFact>)
        ensures
            text::views(res@) == self@.steps,
    {
        let rows: Vec<StepFact> = self.steps.clone();
        assert(text::views(rows@) =~= self@.steps);
        rows
    }
}

// ── Listing ─────────────────────────────────────────────────────────────

/// What a list of recipes is narrowed to; nothing where a field is absent.
#[derive(Debug, PartialEq)]
pub struct RecipesQuery {
    pub meal_type: Option<String>,
    pub search: Option<String>,
}

/// What a [`RecipesQuery`] holds, as mathematical values.
#[verifier::ext_equal]
pub struct RecipesQueryModel {
    pub meal_type: Option<Seq<char>>,
    pub search: Option<Seq<char>>,
}

impl View for RecipesQuery {
    type V = RecipesQueryModel;

    open spec fn view(&self) -> RecipesQueryModel {
        RecipesQueryModel {
            meal_type: text::opt_view(self.meal_type),
            search: text::opt_view(self.search),
        }
    }
}

impl Clone for RecipesQuery {
    fn clone(&self) -> (res: Self)
        ensures
            res@ == self@,
    {
        RecipesQuery {
            meal_type: self.meal_type.clone(),
            search: self.search.clone(),
        }
    }
}

impl Default for RecipesQuery {
    fn default() -> (res: Self)
        ensures
            res@ == (RecipesQueryModel { meal_type: None, search: None }),
    {
        RecipesQuery { meal_type: None, search: None }
    }
}

/// Which of an owner's rows a list shows. A pattern is to be looked for in
/// title and cuisine, both in lower case, with `%` for any text.
#[derive(Debug, PartialEq)]
pub enum ListQuery {
    All,
    ByMealType(String),
    BySearch(String),
    ByMealTypeAndSearch(String, String),
}

/// What a [`ListQuery`] holds, as mathematical values.
#[verifier::ext_equal]
pub enum ListQueryModel {
    All,
    ByMealType(Seq<char>),
    BySearch(Seq<char>),
    ByMealTypeAndSearch(Seq<char>, Seq<char>),
}

impl View for ListQuery {
    type V = ListQueryModel;

    open spec fn view(&self) -> ListQueryModel {
        match self {
            ListQuery::All => ListQueryModel::All,
            ListQuery::ByMealType(meal_type) => ListQueryModel::ByMealType(meal_type@),
            ListQuery::BySearch(pattern) => ListQueryModel::BySearch(pattern@),
            ListQuery::ByMealTypeAndSearch(
                meal_type,
                pattern,
            ) => ListQueryModel::ByMealTypeAndSearch(meal_type@, pattern@),
        }
    }
}

/// A list of recipes: whose rows are looked at, and which of them are shown.
#[derive(Debug, PartialEq)]
pub struct OwnerList {
    pub owner_id: String,
    pub rows: ListQuery,
}

/// What a [`OwnerList`] holds, as mathematical values.
#[verifier::ext_equal]
pub struct OwnerListModel {
    pub owner_id: Seq<char>,
    pub rows: ListQueryModel,
}

impl View for OwnerList {
    type V = OwnerListModel;

    open spec fn view(&self) -> OwnerListModel {
        OwnerListModel {
            owner_id: self.owner_id@,
            rows: self.rows@,
        }
    }
}

/// A text in lower case: what `str::to_lowercase` gives.
pub uninterp spec fn lowercased(s: Seq<char>) -> Seq<char>;

/// Calls `str::to_lowercase`. Trusted: the result depends on the text alone.
#[verifier::external_body]
fn to_lowercase(s: &str) -> (res: String)
    ensures
        res@ == lowercased(s@),
{
    s.to_lowercase()
}

/// What is searched for: the text without the white space around it, and
/// nothing where that leaves none.
pub open spec fn search_term(search: Option<Seq<char>>) -> Option<Seq<char>> {
    match search {
        Some(s) => if text::blank(s) {
            None
        } else {
            Some(text::trimmed(s))
        },
        None => None,
    }
}

/// The rows for a meal type and a search term in lower case.
pub open spec fn query_for(
    meal_type: Option<Seq<char>>,
    lowered: Option<Seq<char>>,
) -> ListQueryModel {
    match (meal_type, lowered) {
        (None, None) => ListQueryModel::All,
        (Some(m), None) => ListQueryModel::ByMealType(m),
        (None, Some(term)) => ListQueryModel::BySearch("%"@ + term + "%"@),
        (Some(m), Some(term)) => ListQueryModel::ByMealTypeAndSearch(m, "%"@ + term + "%"@),
    }
}

/// The rows for a meal type and a search term that is in lower case already.
pub fn list_query(meal_type: &Option<String>, lowered: Option<String>) -> (res: ListQuery)
    ensures
        res@ == query_for(text::opt_view(*meal_type), text::opt_view(lowered)),
{
    match (text::clone_opt_text(meal_type), lowered) {
        (None, None) => ListQuery::All,
        (Some(m), None) => ListQuery::ByMealType(m),
        (None, Some(term)) => ListQuery::BySearch(text::join3("%", term.as_str(), "%")),
        (Some(m), Some(term)) => ListQuery::ByMealTypeAndSearch(
            m,
            text::join3("%", term.as_str(), "%"),
        ),
    }
}

/// The rows that a query of an owner's asks for.
pub open spec fn owner_list(owner_id: Seq<char>, query: RecipesQueryModel) -> OwnerListModel {
    OwnerListModel {
        owner_id,
        rows: query_for(
            query.meal_type,
            match search_term(query.search) {
                Some(term) => Some(lowercased(term)),
                None => None,
            },
        ),
    }
}

/// Which rows a query of an owner's asks for: rows of that owner alone.
pub fn list_for_owner(owner_id: &str, query: &RecipesQuery) -> (res: OwnerList)
    ensures
        res@ == owner_list(owner_id@, query@),
{
    let lowered: Option<String> = match &query.search {
        Some(search) => {
            proof {
                text::lemma_blank_iff_trimmed_empty(search@);
            }
            let term: &str = text::trim(search.as_str());
            if term.is_empty() {
                None
            } else {
                Some(to_lowercase(term))
            }
        },
        None => None,
    };
    OwnerList { owner_id: owner_id.to_owned(), rows: list_query(&query.meal_type, lowered) }
}

// ── What an event does to a row ─────────────────────────────────────────

/// The minutes that a row shows: prep and cook together.
pub open spec fn total_minutes(prep_minutes: u32, cook_minutes: u32) -> i64 {
    (prep_minutes + cook_minutes) as i64
}

/// The row of a draft. If there is a row already, its owner, its rating and
/// the time of its creation stay.
pub open spec fn drafted_row(
    row: Option<RecipeRowModel>,
    id: Seq<char>,
    timestamp: u64,
    e: RecipeDraftedModel,
) -> RecipeRowModel {
    RecipeRowModel {
        id,
        owner_id: match row {
            Some(r) => r.owner_id,
            None => e.owner_id,
        },
        title: e.title,
        meal_type: e.meal_type,
        emoji: e.emoji,
        cuisine: e.cuisine,
        time_minutes: total_minutes(e.prep_minutes, e.cook_minutes),
        servings: e.servings as i64,
        rating: match row {
            Some(r) => r.rating,
            None => Rating { bits: 0 },
        },
        difficulty: e.difficulty,
        description: e.description,
        tags_json: json::text_list_json(e.tags),
        ingredients: e.ingredients,
        steps: e.steps,
        created_at: match row {
            Some(r) => r.created_at,
            None => timestamp as i64,
        },
    }
}

/// The row under `id` after an event that happened at `timestamp`.
pub open spec fn row_step(
    row: Option<RecipeRowModel>,
    id: Seq<char>,
    timestamp: u64,
    event: RecipeModel,
) -> Option<RecipeRowModel> {
    match event {
        RecipeModel::RecipeDrafted(e) => Some(drafted_row(row, id, timestamp, e)),
        RecipeModel::RecipeDeleted => None,
        _ => match row {
            None => None,
            Some(r) => Some(
                match event {
                    RecipeModel::RecipeRenamed(e) => RecipeRowModel { title: e.new_title, ..r },
                    RecipeModel::RecipeRecategorized(e) => RecipeRowModel {
                        meal_type: e.meal_type,
                        cuisine: e.cuisine,
                        emoji: e.emoji,
                        ..r
                    },
                    RecipeModel::RecipeRetimed(e) => RecipeRowModel {
                        time_minutes: total_minutes(e.prep_minutes, e.cook_minutes),
                        servings: e.servings as i64,
                        difficulty: e.difficulty,
                        ..r
                    },
                    RecipeModel::RecipeRedescribed(e) => RecipeRowModel {
                        description: e.description,
                        ..r
                    },
                    RecipeModel::RecipeRetagged(e) => RecipeRowModel {
                        tags_json: json::text_list_json(e.tags),
                        ..r
                    },
                    RecipeModel::IngredientsReplaced(e) => RecipeRowModel {
                        ingredients: e.ingredients,
                        ..r
                    },
                    RecipeModel::StepsReplaced(e) => RecipeRowModel { steps: e.steps, ..r },
                    _ => r,
                },
            ),
        },
    }
}

/// A draft makes the row, or brings the one that is there up to date. Reading
/// the tags of the row gives those of the draft.
pub fn apply_drafted(row: Option<RecipeRow>, id: &str, timestamp: u64, event: &RecipeDrafted) -> (
    res: RecipeRow)
    ensures
        Some(res@) == row_step(
            text::opt_view(row),
            id@,
            timestamp,
            RecipeModel::RecipeDrafted(event@),
        ),
        json::text_list_of(res@.tags_json) == Some(event@.tags),
{
    let time_minutes: i64 = event.prep_minutes as i64 + event.cook_minutes as i64;
    let tags_json: String = json::json_of(&event.tags);
    let copy: RecipeDrafted = event.clone();
    let (owner_id, rating, created_at): (String, Rating, i64) = match row {
        Some(r) => (r.owner_id, r.rating, r.created_at),
        None => (copy.owner_id, Rating { bits: 0 }, timestamp as i64),
    };
    RecipeRow {
        id: id.to_owned(),
        owner_id,
        title: copy.title,
        meal_type: copy.meal_type,
        emoji: copy.emoji,
        cuisine: copy.cuisine,
        time_minutes,
        servings: copy.servings as i64,
        rating,
        difficulty: copy.difficulty,
        description: copy.description,
        tags_json,
        ingredients: copy.ingredients,
        steps: copy.steps,
        created_at,
    }
}

/// A new title.
pub fn apply_renamed(row: Option<RecipeRow>, event: &RecipeRenamed) -> (res: Option<RecipeRow>)
    ensures
        forall|id: Seq<char>, timestamp: u64|
            text::opt_view(res) == #[trigger] row_step(
                text::opt_view(row),
                id,
                timestamp,
                RecipeModel::RecipeRenamed(event@),
            ),
{
    match row {
        Some(r) => {
            let mut next: RecipeRow = r;
            next.title = event.new_title.clone();
            Some(next)
        },
        None => None,
    }
}

/// A new meal type, cuisine and emoji.
pub fn apply_recategorized(row: Option<RecipeRow>, event: &RecipeRecategorized) -> (res: Option<
    RecipeRow,
>)
    ensures
        forall|id: Seq<char>, timestamp: u64|
            text::opt_view(res) == #[trigger] row_step(
                text::opt_view(row),
                id,
                timestamp,
                RecipeModel::RecipeRecategorized(event@),
            ),
{
    match row {
        Some(r) => {
            let mut next: RecipeRow = r;
            next.meal_type = event.meal_type.clone();
            next.cuisine = event.cuisine.clone();
            next.emoji = event.emoji.clone();
            Some(next)
        },
        None => None,
    }
}

/// New times, servings and difficulty; the row shows prep and cook together.
pub fn apply_retimed(row: Option<RecipeRow>, event: &RecipeRetimed) -> (res: Option<RecipeRow>)
    ensures
        forall|id: Seq<char>, timestamp: u64|
            text::opt_view(res) == #[trigger] row_step(
                text::opt_view(row),
                id,
                timestamp,
                RecipeModel::RecipeRetimed(event@),
            ),
{
    let time_minutes: i64 = event.prep_minutes as i64 + event.cook_minutes as i64;
    match row {
        Some(r) => {
            let mut next: RecipeRow = r;
            next.time_minutes = time_minutes;
            next.servings = event.servings as i64;
            next.difficulty = event.difficulty.clone();
            Some(next)
        },
        None => None,
    }
}

/// A new description.
pub fn apply_redescribed(row: Option<RecipeRow>, event: &RecipeRedescribed) -> (res: Option<
    RecipeRow,
>)
    ensures
        forall|id: Seq<char>, timestamp: u64|
            text::opt_view(res) == #[trigger] row_step(
                text::opt_view(row),
                id,
                timestamp,
                RecipeModel::RecipeRedescribed(event@),
            ),
{
    match row {
        Some(r) => {
            let mut next: RecipeRow = r;
            next.description = event.description.clone();
            Some(next)
        },
        None => None,
    }
}

/// A new tag list. Reading the tags of the row gives it back.
pub fn apply_retagged(row: Option<RecipeRow>, event: &RecipeRetagged) -> (res: Option<RecipeRow>)
    ensures
        forall|id: Seq<char>, timestamp: u64|
            text::opt_view(res) == #[trigger] row_step(
                text::opt_view(row),
                id,
                timestamp,
                RecipeModel::RecipeRetagged(event@),
            ),
        res matches Some(r) ==> json::text_list_of(r@.tags_json) == Some(event@.tags),
{
    match row {
        Some(r) => {
            let mut next: RecipeRow = r;
            next.tags_json = json::json_of(&event.tags);
            Some(next)
        },
        None => None,
    }
}

/// A new ingredient list.
pub fn apply_ingredients_replaced(row: Option<RecipeRow>, event: &IngredientsReplaced) -> (res:
    Option<RecipeRow>)
    ensures
        forall|id: Seq<char>, timestamp: u64|
            text::opt_view(res) == #[trigger] row_step(
                text::opt_view(row),
                id,
                timestamp,
                RecipeModel::IngredientsReplaced(event@),
            ),
{
    match row {
        Some(r) => {
            let copy: IngredientsReplaced = event.clone();
            let mut next: RecipeRow = r;
            next.ingredients = copy.ingredients;
            Some(next)
        },
        None => None,
    }
}

/// A new step list.
pub fn apply_steps_replaced(row: Option<RecipeRow>, event: &StepsReplaced) -> (res: Option<
    RecipeRow,
>)
    ensures
        forall|id: Seq<char>, timestamp: u64|
            text::opt_view(res) == #[trigger] row_step(
                text::opt_view(row),
                id,
                timestamp,
                RecipeModel::StepsReplaced(event@),
            ),
{
    match row {
        Some(r) => {
            let copy: StepsReplaced = event.clone();
            let mut next: RecipeRow = r;
            next.steps = copy.steps;
            Some(next)
        },
        None => None,
    }
}

/// A deletion takes the row out; it does not matter whether it was there.
pub fn apply_deleted(row: Option<RecipeRow>) -> (res: Option<RecipeRow>)
    ensures
        forall|id: Seq<char>, timestamp: u64|
            text::opt_view(res) == #[trigger] row_step(
                text::opt_view(row),
                id,
                timestamp,
                RecipeModel::RecipeDeleted,
            ),
{
    None
}

// ── What holds of the catalogue ─────────────────────────────────────────

/// Applying an event a second time, as a redelivery does, changes nothing.
pub proof fn law_replay_is_idempotent(
    row: Option<RecipeRowModel>,
    id: Seq<char>,
    timestamp: u64,
    event: RecipeModel,
)
    ensures
        row_step(row_step(row, id, timestamp, event), id, timestamp, event) == row_step(
            row,
            id,
            timestamp,
            event,
        ),
{
}

/// No event but the draft makes a row, and none changes the owner of one.
pub proof fn law_rows_keep_their_owner(
    row: RecipeRowModel,
    id: Seq<char>,
    timestamp: u64,
    event: RecipeModel,
)
    ensures
        row_step(Some(row), id, timestamp, event) matches Some(next) ==> next.owner_id
            == row.owner_id,
        row_step(None, id, timestamp, event) is Some ==> event is RecipeDrafted,
{
}

/// The row under `id` after a whole log, with the time of each event.
pub open spec fn row_after(id: Seq<char>, log: Seq<RecipeModel>, times: Seq<u64>) -> Option<
    RecipeRowModel,
>
    decreases log.len(),
{
    if log.len() == 0 {
        None
    } else {
        row_step(
            row_after(id, log.drop_last(), times.drop_last()),
            id,
            times.last(),
            log.last(),
        )
    }
}

/// A row shows the content of a recipe.
pub open spec fn shows(row: RecipeRowModel, content: Content) -> bool {
    &&& row.owner_id == content.owner_id
    &&& row.title == content.title
    &&& row.meal_type == content.meal_type
    &&& row.emoji == content.emoji
    &&& row.cuisine == content.cuisine
    &&& row.time_minutes == content.prep_minutes + content.cook_minutes
    &&& row.servings == content.servings
    &&& row.difficulty == content.difficulty
    &&& row.description == content.description
    &&& row.tags_json == json::text_list_json(content.tags)
    &&& row.ingredients == content.ingredients
    &&& row.steps == content.steps
}

/// For every history of a recipe, the catalogue has a row for the recipe if
/// and only if the recipe is not deleted, and that row shows the recipe's
/// content; it dates from the draft and has no rating.
pub proof fn law_rows_show_the_history(id: Seq<char>, log: Seq<RecipeModel>, times: Seq<u64>)
    requires
        history::is_history(log),
        times.len() == log.len(),
    ensures
        match (row_after(id, log, times), history::content_after(log)) {
            (Some(row), Some(content)) => shows(row, content) && row.id == id && row.created_at
                == times[0] as i64 && row.rating == (Rating { bits: 0 }),
            (None, None) => true,
            _ => false,
        },
    decreases log.len(),
{
    let before = log.drop_last();
    let earlier = times.drop_last();
    history::law_shape_of_history(log, log.len() - 1);
    if log.len() > 1 {
        law_rows_show_the_history(id, before, earlier);
    } else {
        assert(before.len() == 0);
    }
}

/// A draft gives a row all that it has, a deletion takes the row away, and
/// every other event changes the columns that it names and no others.
pub proof fn law_rows_follow_the_events(
    row: RecipeRowModel,
    id: Seq<char>,
    timestamp: u64,
    draft: RecipeDraftedModel,
    event: RecipeModel,
)
    requires
        !(event is RecipeDrafted),
        !(event is RecipeDeleted),
    ensures
        row_step(Some(row), id, timestamp, RecipeModel::RecipeDeleted) is None,
        row_step(None, id, timestamp, event) is None,
        row_step(None, id, timestamp, RecipeModel::RecipeDrafted(draft)) matches Some(r) && r.id
            == id && r.owner_id == draft.owner_id && r.title == draft.title && r.meal_type
            == draft.meal_type && r.cuisine == draft.cuisine && r.emoji == draft.emoji
            && r.time_minutes == draft.prep_minutes + draft.cook_minutes && r.servings
            == draft.servings && r.difficulty == draft.difficulty && r.description
            == draft.description && r.tags_json == json::text_list_json(draft.tags)
            && r.ingredients == draft.ingredients && r.steps == draft.steps && r.rating.bits == 0
            && (timestamp <= i64::MAX ==> r.created_at == timestamp),
        ({
            let next = row_step(Some(row), id, timestamp, event)->0;
            &&& row_step(Some(row), id, timestamp, event) is Some
            &&& next.id == row.id
            &&& next.owner_id == row.owner_id
            &&& next.rating == row.rating
            &&& next.created_at == row.created_at
            &&& event is RecipeRenamed ==> next.title == event->RecipeRenamed_0.new_title
            &&& !(event is RecipeRenamed) ==> next.title == row.title
            &&& event is RecipeRecategorized ==> next.meal_type == event->RecipeRecategorized_0.meal_type
            &&& !(event is RecipeRecategorized) ==> next.meal_type == row.meal_type
            &&& event is RecipeRecategorized ==> next.cuisine == event->RecipeRecategorized_0.cuisine
            &&& !(event is RecipeRecategorized) ==> next.cuisine == row.cuisine
            &&& event is RecipeRecategorized ==> next.emoji == event->RecipeRecategorized_0.emoji
            &&& !(event is RecipeRecategorized) ==> next.emoji == row.emoji
            &&& event is RecipeRetimed ==> next.servings == event->RecipeRetimed_0.servings
            &&& !(event is RecipeRetimed) ==> next.servings == row.servings
            &&& event is RecipeRetimed ==> next.difficulty == event->RecipeRetimed_0.difficulty
            &&& !(event is RecipeRetimed) ==> next.difficulty == row.difficulty
            &&& event is RecipeRedescribed ==> next.description == event->RecipeRedescribed_0.description
            &&& !(event is RecipeRedescribed) ==> next.description == row.description
            &&& event is IngredientsReplaced ==> next.ingredients == event->IngredientsReplaced_0.ingredients
            &&& !(event is IngredientsReplaced) ==> next.ingredients == row.ingredients
            &&& event is StepsReplaced ==> next.steps == event->StepsReplaced_0.steps
            &&& !(event is StepsReplaced) ==> next.steps == row.steps
            &&& event is RecipeRetimed ==> next.time_minutes == event->RecipeRetimed_0.prep_minutes + event->RecipeRetimed_0.cook_minutes
            &&& !(event is RecipeRetimed) ==> next.time_minutes == row.time_minutes
            &&& event is RecipeRetagged ==> next.tags_json == json::text_list_json(event->RecipeRetagged_0.tags)
            &&& !(event is RecipeRetagged) ==> next.tags_json == row.tags_json
        }),
{
}

/// A draft that is delivered again keeps the owner, the rating and the date of
/// the row, and sets the rest.
pub proof fn law_redelivered_drafts_keep_the_row(
    row: RecipeRowModel,
    id: Seq<char>,
    timestamp: u64,
    draft: RecipeDraftedModel,
)
    ensures
        row_step(Some(row), id, timestamp, RecipeModel::RecipeDrafted(draft)) matches Some(r)
            && r.owner_id == row.owner_id && r.rating == row.rating && r.created_at
            == row.created_at && r.title == draft.title && r.ingredients == draft.ingredients
            && r.steps == draft.steps,
{
}

/// A list is one of the owner's rows alone: all of them, or those of the meal
/// type that is asked for, or those that match the search text without the
/// white space around it, in any case, or both.
pub proof fn law_lists_are_what_is_asked_for(
    owner_id: Seq<char>,
    query: RecipesQueryModel,
)
    ensures
        ({
            let rows = owner_list(owner_id, query).rows;
            let searched = query.search matches Some(s) && !text::blank(s);
            let pattern = "%"@ + lowercased(text::trimmed(query.search->0)) + "%"@;
            &&& owner_list(owner_id, query).owner_id == owner_id
            &&& query.meal_type is None && !searched ==> rows == ListQueryModel::All
            &&& query.meal_type is Some && !searched ==> rows == ListQueryModel::ByMealType(
                query.meal_type->0,
            )
            &&& query.meal_type is None && searched ==> rows == ListQueryModel::BySearch(pattern)
            &&& query.meal_type is Some && searched ==> rows == ListQueryModel::ByMealTypeAndSearch(
                query.meal_type->0,
                pattern,
            )
        }),
{
}

/// A model has every field of the value that it stands for.
pub proof fn law_models_have_every_field(
    recipe_row: RecipeRow,
    recipes_query: RecipesQuery,
    owner_list: OwnerList,
)
    ensures
        recipe_row@.id == recipe_row.id@,
        recipe_row@.owner_id == recipe_row.owner_id@,
        recipe_row@.title == recipe_row.title@,
        recipe_row@.meal_type == recipe_row.meal_type@,
        recipe_row@.emoji == recipe_row.emoji@,
        recipe_row@.cuisine == recipe_row.cuisine@,
        recipe_row@.time_minutes == recipe_row.time_minutes,
        recipe_row@.servings == recipe_row.servings,
        recipe_row@.rating == recipe_row.rating,
        recipe_row@.difficulty == recipe_row.difficulty@,
        recipe_row@.description == recipe_row.description@,
        recipe_row@.tags_json == recipe_row.tags_json@,
        recipe_row@.ingredients == text::views(recipe_row.ingredients@),
        recipe_row@.steps == text::views(recipe_row.steps@),
        recipe_row@.created_at == recipe_row.created_at,
        recipes_query@.meal_type == text::opt_view(recipes_query.meal_type),
        recipes_query@.search == text::opt_view(recipes_query.search),
        owner_list@.owner_id == owner_list.owner_id@,
        owner_list@.rows == owner_list.rows@,
{
}

/// The model of a query is a query of the same kind.
pub proof fn law_queries_keep_their_kind(meal_type: String, pattern: String)
    ensures
        ListQuery::All@ == ListQueryModel::All,
        ListQuery::ByMealType(meal_type)@ == ListQueryModel::ByMealType(meal_type@),
        ListQuery::BySearch(pattern)@ == ListQueryModel::BySearch(pattern@),
        ListQuery::ByMealTypeAndSearch(meal_type, pattern)@
            == ListQueryModel::ByMealTypeAndSearch(meal_type@, pattern@),
{
}

} // verus!
