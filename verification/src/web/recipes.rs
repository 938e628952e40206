//! The recipe catalogue: the list of a user's recipes and the page of one.
//!
//! A request for a part of the list gets the grid alone, with the filter
//! chips and the view toggle; any other request gets the whole page. The page
//! of a recipe that was created a moment ago, and is not in the tables yet,
//! waits for it.

use vstd::prelude::*;
use vstd::string::*;
use vstd::utf8;

use crate::forms;
use crate::history;
use crate::json;
use crate::projection::recipes_view;
use crate::projection::recipes_view::{Rating, RecipeRow};
use crate::projection::recipes_view::RecipeRowModel;
use crate::recipe;
use crate::recipe::{IngredientFact, MealType, StepFact};
use crate::recipe::{IngredientFactModel, StepFactModel};
use crate::text;
use crate::web;
use crate::web::auth::User;
use crate::web::auth::UserModel;
use crate::web::{Chrome, NavItem, Reply};
use crate::web::{NavItemModel, ReplyModel};

verus! {

// ── A recipe as pages show it ───────────────────────────────────────────

/// A recipe as pages show it.
#[derive(Debug, PartialEq)]
pub struct Recipe {
    pub id: String,
    pub title: String,
    pub kind: MealType,
    pub emoji: String,
    pub cuisine: String,
    pub time_minutes: u32,
    pub servings: u32,
    pub rating: Rating,
    pub difficulty: String,
    pub description: Option<String>,
    pub tags: Vec<String>,
    pub ingredients: Vec<IngredientFact>,
    pub steps: Vec<StepFact>,
}

/// What a [`Recipe`] holds, as mathematical values.
#[verifier::ext_equal]
pub struct RecipeModel {
    pub id: Seq<char>,
    pub title: Seq<char>,
    pub kind: MealType,
    pub emoji: Seq<char>,
    pub cuisine: Seq<char>,
    pub time_minutes: u32,
    pub servings: u32,
    pub rating: Rating,
    pub difficulty: Seq<char>,
    pub description: Option<Seq<char>>,
    pub tags: Seq<Seq<char>>,
    pub ingredients: Seq<IngredientFactModel>,
    pub steps: Seq<StepFactModel>,
}

impl View for Recipe {
    type V = RecipeModel;

    open spec fn view(&self) -> RecipeModel {
        RecipeModel {
            id: self.id@,
            title: self.title@,
            kind: self.kind,
            emoji: self.emoji@,
            cuisine: self.cuisine@,
            time_minutes: self.time_minutes,
            servings: self.servings,
            rating: self.rating,
            difficulty: self.difficulty@,
            description: text::opt_view(self.description),
            tags: text::views(self.tags@),
            ingredients: text::views(self.ingredients@),
            steps: text::views(self.steps@),
        }
    }
}

impl Clone for Recipe {
    fn clone(&self) -> (res: Self)
        ensures
            res@ == self@,
    {
        let ingredients: Vec<IngredientFact> = self.ingredients.clone();
        assert(text::views(ingredients@) =~= text::views(self.ingredients@));
        let steps: Vec<StepFact> = self.steps.clone();
        assert(text::views(steps@) =~= text::views(self.steps@));
        Recipe {
            id: self.id.clone(),
            title: self.title.clone(),
            kind: self.kind,
            emoji: self.emoji.clone(),
            cuisine: self.cuisine.clone(),
            time_minutes: self.time_minutes,
            servings: self.servings,
            rating: self.rating,
            difficulty: self.difficulty.clone(),
            description: self.description.clone(),
            tags: text::clone_texts(&self.tags),
            ingredients,
            steps,
        }
    }
}

/// The larger of two numbers.
pub open spec fn larger(a: i64, b: i64) -> i64 {
    if a >= b {
        a
    } else {
        b
    }
}

/// What a page shows of a row: an unknown meal type is taken for a main
/// course, an empty description for none, there are no negative minutes and
/// there is at least one serving.
pub open spec fn shown(row: RecipeRowModel) -> RecipeModel {
    RecipeModel {
        id: row.id,
        title: row.title,
        kind: recipe::meal_type_or_main(row.meal_type),
        emoji: row.emoji,
        cuisine: row.cuisine,
        time_minutes: larger(row.time_minutes, 0) as u32,
        servings: larger(row.servings, 1) as u32,
        rating: row.rating,
        difficulty: row.difficulty,
        description: if row.description.len() == 0 {
            None
        } else {
            Some(row.description)
        },
        tags: json::texts_or_none(json::text_list_of(row.tags_json)),
        ingredients: row.ingredients,
        steps: row.steps,
    }
}

/// The larger of two numbers.
pub fn max_of(a: i64, b: i64) -> (res: i64)
    ensures
        res == larger(a, b),
{
    if a >= b {
        a
    } else {
        b
    }
}

impl Recipe {
    /// What a page shows of a row.
    pub fn from_row(row: RecipeRow) -> (res: Self)
        ensures
            res@ == shown(row@),
    {
        let kind: MealType = MealType::parse_or_main(row.meal_type.as_str());
        let description: Option<String> = if row.description.as_str().is_empty() {
            None
        } else {
            Some(row.description.clone())
        };
        let tags: Vec<String> = row.tags();
        let ingredients: Vec<IngredientFact> = row.ingredients();
        let steps: Vec<StepFact> = row.steps();
        Recipe {
            id: row.id,
            title: row.title,
            kind,
            emoji: row.emoji,
            cuisine: row.cuisine,
            time_minutes: max_of(row.time_minutes, 0) as u32,
            servings: max_of(row.servings, 1) as u32,
            rating: row.rating,
            difficulty: row.difficulty,
            description,
            tags,
            ingredients,
            steps,
        }
    }

    pub fn type_slug(&self) -> (res: &'static str)
        ensures
            res@ == self@.kind.slug_text(),
    {
        self.kind.slug()
    }

    pub fn type_label(&self) -> (res: &'static str)
        ensures
            res@ == self@.kind.label_text(),
    {
        self.kind.label()
    }

    pub fn total_steps(&self) -> (res: usize)
        ensures
            res == self@.steps.len(),
    {
        self.steps.len()
    }

    pub fn total_ingredients(&self) -> (res: usize)
        ensures
            res == self@.ingredients.len(),
    {
        self.ingredients.len()
    }
}

// ── The query of the list ───────────────────────────────────────────────

/// Which meal type the list is narrowed to.
#[derive(Debug, Clone, Copy, PartialEq, Eq, Structural)]
pub enum FilterId {
    All,
    Entree,
    Main,
    Side,
    Dessert,
}

impl Default for FilterId {
    fn default() -> (res: Self)
        ensures
            res == FilterId::All,
    {
        FilterId::All
    }
}

impl FilterId {
    /// The stable slug of a filter.
    pub open spec fn slug_text(self) -> Seq<char> {
        match self {
            FilterId::All => "all"@,
            FilterId::Entree => "entree"@,
            FilterId::Main => "main"@,
            FilterId::Side => "side"@,
            FilterId::Dessert => "dessert"@,
        }
    }

    /// The meal type that a filter stands for.
    pub open spec fn meal_type(self) -> Option<MealType> {
        match self {
            FilterId::All => None,
            FilterId::Entree => Some(MealType::Entree),
            FilterId::Main => Some(MealType::Main),
            FilterId::Side => Some(MealType::Side),
            FilterId::Dessert => Some(MealType::Dessert),
        }
    }

    pub fn slug(self) -> (res: &'static str)
        ensures
            res@ == self.slug_text(),
    {
        match self {
            FilterId::All => "all",
            FilterId::Entree => "entree",
            FilterId::Main => "main",
            FilterId::Side => "side",
            FilterId::Dessert => "dessert",
        }
    }

    /// The slug of the meal type that the list is narrowed to.
    pub fn meal_type_slug(self) -> (res: Option<&'static str>)
        ensures
            match self.meal_type() {
                Some(meal_type) => res matches Some(slug) && slug@ == meal_type.slug_text(),
                None => res is None,
            },
    {
        match self {
            FilterId::All => None,
            FilterId::Entree => Some("entree"),
            FilterId::Main => Some("main"),
            FilterId::Side => Some("side"),
            FilterId::Dessert => Some("dessert"),
        }
    }
}

/// How the list is laid out.
#[derive(Debug, Clone, Copy, PartialEq, Eq, Structural)]
pub enum ViewId {
    Grid,
    List,
}

impl Default for ViewId {
    fn default() -> (res: Self)
        ensures
            res == ViewId::Grid,
    {
        ViewId::Grid
    }
}

impl ViewId {
    /// The stable slug of a layout.
    pub open spec fn slug_text(self) -> Seq<char> {
        match self {
            ViewId::Grid => "grid"@,
            ViewId::List => "list"@,
        }
    }

    /// The spoken form of a layout.
    pub open spec fn label_text(self) -> Seq<char> {
        match self {
            ViewId::Grid => "grid view"@,
            ViewId::List => "list view"@,
        }
    }

    pub fn slug(self) -> (res: &'static str)
        ensures
            res@ == self.slug_text(),
    {
        match self {
            ViewId::Grid => "grid",
            ViewId::List => "list",
        }
    }

    pub fn label(self) -> (res: &'static str)
        ensures
            res@ == self.label_text(),
    {
        match self {
            ViewId::Grid => "grid view",
            ViewId::List => "list view",
        }
    }
}

/// The query of the list.
#[derive(Debug, PartialEq)]
pub struct RecipesQuery {
    pub filter: FilterId,
    pub view: ViewId,
    pub q: Option<String>,
}

/// What a [`RecipesQuery`] holds, as mathematical values.
#[verifier::ext_equal]
pub struct RecipesQueryModel {
    pub filter: FilterId,
    pub view: ViewId,
    pub q: Option<Seq<char>>,
}

impl View for RecipesQuery {
    type V = RecipesQueryModel;

    open spec fn view(&self) -> RecipesQueryModel {
        RecipesQueryModel {
            filter: self.filter,
            view: self.view,
            q: text::opt_view(self.q),
        }
    }
}

impl Clone for RecipesQuery {
    fn clone(&self) -> (res: Self)
        ensures
            res@ == self@,
    {
        RecipesQuery {
            filter: self.filter,
            view: self.view,
            q: self.q.clone(),
        }
    }
}

impl Default for RecipesQuery {
    fn default() -> (res: Self)
        ensures
            res@ == (RecipesQueryModel { filter: FilterId::All, view: ViewId::Grid, q: None }),
    {
        RecipesQuery { filter: FilterId::All, view: ViewId::Grid, q: None }
    }
}

/// The fields of an address of the list. What is at its default is left out,
/// and so is a search for nothing.
pub open spec fn href_pairs(filter: FilterId, view: ViewId, q: Option<Seq<char>>) -> Seq<
    (Seq<char>, Seq<char>),
> {
    let none = Seq::<(Seq<char>, Seq<char>)>::empty();
    let with_filter = if filter != FilterId::All {
        none.push(("filter"@, filter.slug_text()))
    } else {
        none
    };
    let with_view = if view != ViewId::Grid {
        with_filter.push(("view"@, view.slug_text()))
    } else {
        with_filter
    };
    match recipes_view::search_term(q) {
        Some(term) => with_view.push(("q"@, term)),
        None => with_view,
    }
}

/// The address of the list with the given fields.
pub open spec fn href_text(pairs: Seq<(Seq<char>, Seq<char>)>) -> Seq<char> {
    if pairs.len() == 0 {
        "/recipes"@
    } else {
        "/recipes?"@ + forms::query_text(pairs)
    }
}

/// The field given, or the one of the current query.
pub open spec fn or_current<T>(given: Option<T>, current: T) -> T {
    match given {
        Some(value) => value,
        None => current,
    }
}

/// The search text given, or the one of the current query.
pub open spec fn q_or_current(given: Option<Option<&str>>, current: Option<Seq<char>>) -> Option<
    Seq<char>,
> {
    match given {
        Some(Some(q)) => Some(q@),
        Some(None) => None,
        None => current,
    }
}

/// The address of the list with some fields of the current query replaced and
/// the others kept. Parsing what stands behind the question mark gives the
/// fields back.
pub fn build_href(
    current: &RecipesQuery,
    override_filter: Option<FilterId>,
    override_view: Option<ViewId>,
    override_q: Option<Option<&str>>,
) -> (res: String)
    ensures
        ({
            let pairs = href_pairs(
                or_current(override_filter, current@.filter),
                or_current(override_view, current@.view),
                q_or_current(override_q, current@.q),
            );
            &&& res@ == href_text(pairs)
            &&& pairs.len() > 0 ==> forms::form_pairs(
                utf8::encode_utf8(forms::query_text(pairs)),
            ) == pairs
        }),
{
    let filter: FilterId = match override_filter {
        Some(value) => value,
        None => current.filter,
    };
    let view: ViewId = match override_view {
        Some(value) => value,
        None => current.view,
    };
    let q: Option<&str> = match override_q {
        Some(value) => value,
        None => match &current.q {
            Some(text) => Some(text.as_str()),
            None => None,
        },
    };

    let mut pairs: Vec<(&str, &str)> = Vec::new();
    assert(text::views(pairs@) =~= Seq::<(Seq<char>, Seq<char>)>::empty());
    if filter != FilterId::All {
        let pair: (&str, &str) = ("filter", filter.slug());
        proof {
            text::lemma_views_push(pairs@, pair);
        }
        pairs.push(pair);
    }
    if view != ViewId::Grid {
        let pair: (&str, &str) = ("view", view.slug());
        proof {
            text::lemma_views_push(pairs@, pair);
        }
        pairs.push(pair);
    }
    match q {
        Some(text) => {
            proof {
                text::lemma_blank_iff_trimmed_empty(text@);
            }
            let needle: &str = text::trim(text);
            if !needle.is_empty() {
                let pair: (&str, &str) = ("q", needle);
                proof {
                    text::lemma_views_push(pairs@, pair);
                }
                pairs.push(pair);
            }
        },
        None => {},
    }
    let qs: String = forms::query(&pairs);
    if qs.as_str().is_empty() {
        "/recipes".to_owned()
    } else {
        text::join2("/recipes?", qs.as_str())
    }
}

// ── Chips and toggles ───────────────────────────────────────────────────

/// A chip that narrows the list.
#[derive(Debug, PartialEq)]
pub struct FilterChip {
    pub label: &'static str,
    pub emoji: &'static str,
    pub active: bool,
    pub href: String,
}

/// What a [`FilterChip`] holds, as mathematical values.
#[verifier::ext_equal]
pub struct FilterChipModel {
    pub label: Seq<char>,
    pub emoji: Seq<char>,
    pub active: bool,
    pub href: Seq<char>,
}

impl View for FilterChip {
    type V = FilterChipModel;

    open spec fn view(&self) -> FilterChipModel {
        FilterChipModel {
            label: self.label@,
            emoji: self.emoji@,
            active: self.active,
            href: self.href@,
        }
    }
}

/// A button that changes the layout of the list.
#[derive(Debug, PartialEq)]
pub struct ViewOption {
    pub label: &'static str,
    pub active: bool,
    pub icon_svg: &'static str,
    pub href: String,
}

/// What a [`ViewOption`] holds, as mathematical values.
#[verifier::ext_equal]
pub struct ViewOptionModel {
    pub label: Seq<char>,
    pub active: bool,
    pub icon_svg: Seq<char>,
    pub href: Seq<char>,
}

impl View for ViewOption {
    type V = ViewOptionModel;

    open spec fn view(&self) -> ViewOptionModel {
        ViewOptionModel {
            label: self.label@,
            active: self.active,
            icon_svg: self.icon_svg@,
            href: self.href@,
        }
    }
}

/// A chip: it is active if the list is narrowed so, and it leads to the list
/// narrowed so, with layout and search kept.
pub open spec fn chip(
    current: RecipesQueryModel,
    id: FilterId,
    label: &str,
    emoji: &str,
) -> FilterChipModel {
    FilterChipModel {
        label: label@,
        emoji: emoji@,
        active: id == current.filter,
        href: href_text(href_pairs(id, current.view, current.q)),
    }
}

/// The chips of the list.
pub open spec fn chips(current: RecipesQueryModel) -> Seq<FilterChipModel> {
    seq![
        chip(current, FilterId::All, "All", "🍴"),
        chip(current, FilterId::Entree, "Starters", "🥗"),
        chip(current, FilterId::Main, "Mains", "🍛"),
        chip(current, FilterId::Side, "Sides", "🥖"),
        chip(current, FilterId::Dessert, "Desserts", "🍰"),
    ]
}

fn filter_chip(
    current: &RecipesQuery,
    id: FilterId,
    label: &'static str,
    emoji: &'static str,
) -> (res: FilterChip)
    ensures
        res@ == chip(current@, id, label, emoji),
{
    FilterChip {
        label,
        emoji,
        active: id == current.filter,
        href: build_href(current, Some(id), None, None),
    }
}

/// The chips of the list.
pub fn filter_chips(current: &RecipesQuery) -> (res: Vec<FilterChip>)
    ensures
        text::views(res@) == chips(current@),
{
    let mut out: Vec<FilterChip> = Vec::new();
    out.push(filter_chip(current, FilterId::All, "All", "🍴"));
    out.push(filter_chip(current, FilterId::Entree, "Starters", "🥗"));
    out.push(filter_chip(current, FilterId::Main, "Mains", "🍛"));
    out.push(filter_chip(current, FilterId::Side, "Sides", "🥖"));
    out.push(filter_chip(current, FilterId::Dessert, "Desserts", "🍰"));
    assert(text::views(out@) =~= chips(current@));
    out
}

/// The layout buttons of the list: each leads to the list in that layout,
/// with filter and search kept.
pub open spec fn toggles(current: RecipesQueryModel) -> Seq<ViewOptionModel> {
    seq![
        ViewOptionModel {
            label: "Grid"@,
            active: current.view == ViewId::Grid,
            icon_svg: web::ICON_GRID@,
            href: href_text(href_pairs(current.filter, ViewId::Grid, current.q)),
        },
        ViewOptionModel {
            label: "List"@,
            active: current.view == ViewId::List,
            icon_svg: web::ICON_LIST@,
            href: href_text(href_pairs(current.filter, ViewId::List, current.q)),
        },
    ]
}

/// The layout buttons of the list.
pub fn view_options(current: &RecipesQuery) -> (res: Vec<ViewOption>)
    ensures
        text::views(res@) == toggles(current@),
{
    let mut out: Vec<ViewOption> = Vec::new();
    out.push(
        ViewOption {
            label: "Grid",
            active: current.view == ViewId::Grid,
            icon_svg: web::ICON_GRID,
            href: build_href(current, None, Some(ViewId::Grid), None),
        },
    );
    out.push(
        ViewOption {
            label: "List",
            active: current.view == ViewId::List,
            icon_svg: web::ICON_LIST,
            href: build_href(current, None, Some(ViewId::List), None),
        },
    );
    assert(text::views(out@) =~= toggles(current@));
    out
}

/// Where the chip of a filter stands.
pub open spec fn chip_position(filter: FilterId) -> int {
    match filter {
        FilterId::All => 0,
        FilterId::Entree => 1,
        FilterId::Main => 2,
        FilterId::Side => 3,
        FilterId::Dessert => 4,
    }
}

/// Exactly one chip of the list is active: that of the current filter.
pub proof fn law_one_chip_is_active(current: RecipesQueryModel, i: int)
    requires
        0 <= i < chips(current).len(),
    ensures
        chips(current)[i].active == (i == chip_position(current.filter)),
        0 <= chip_position(current.filter) < chips(current).len(),
{
}

// ── Pages ───────────────────────────────────────────────────────────────

/// The query of a recipe's page. `awaiting` is set for a recipe that was
/// created a moment ago; `attempt` counts how often its page was asked for.
#[derive(Debug, PartialEq)]
pub struct DetailQuery {
    pub awaiting: u8,
    pub attempt: u8,
}

/// What a [`DetailQuery`] holds, as mathematical values.
#[verifier::ext_equal]
pub struct DetailQueryModel {
    pub awaiting: u8,
    pub attempt: u8,
}

impl View for DetailQuery {
    type V = DetailQueryModel;

    open spec fn view(&self) -> DetailQueryModel {
        DetailQueryModel {
            awaiting: self.awaiting,
            attempt: self.attempt,
        }
    }
}

impl Clone for DetailQuery {
    fn clone(&self) -> (res: Self)
        ensures
            res@ == self@,
    {
        DetailQuery {
            awaiting: self.awaiting,
            attempt: self.attempt,
        }
    }
}

impl Default for DetailQuery {
    fn default() -> (res: Self)
        ensures
            res@ == (DetailQueryModel { awaiting: 0, attempt: 0 }),
    {
        DetailQuery { awaiting: 0, attempt: 0 }
    }
}

/// How often a page is asked for again before it stops waiting.
pub const ATTEMPT_LIMIT: u8 = 16;

#[derive(Debug, PartialEq)]
pub struct RecipesIndexPage {
    pub total_count: usize,
    pub filters: Vec<FilterChip>,
    pub view_options: Vec<ViewOption>,
    pub active_view: &'static str,
    pub view_label: &'static str,
    pub current_filter: &'static str,
    pub current_view: &'static str,
    pub current_q: String,
    pub nav_items: Vec<NavItem>,
    pub user_initial: &'static str,
    pub user_name: &'static str,
    pub user_email: &'static str,
    pub user_premium: bool,
    pub recipes: Vec<Recipe>,
}

/// What a [`RecipesIndexPage`] holds, as mathematical values.
#[verifier::ext_equal]
pub struct RecipesIndexPageModel {
    pub total_count: usize,
    pub filters: Seq<FilterChipModel>,
    pub view_options: Seq<ViewOptionModel>,
    pub active_view: Seq<char>,
    pub view_label: Seq<char>,
    pub current_filter: Seq<char>,
    pub current_view: Seq<char>,
    pub current_q: Seq<char>,
    pub nav_items: Seq<NavItemModel>,
    pub user_initial: Seq<char>,
    pub user_name: Seq<char>,
    pub user_email: Seq<char>,
    pub user_premium: bool,
    pub recipes: Seq<RecipeModel>,
}

impl View for RecipesIndexPage {
    type V = RecipesIndexPageModel;

    open spec fn view(&self) -> RecipesIndexPageModel {
        RecipesIndexPageModel {
            total_count: self.total_count,
            filters: text::views(self.filters@),
            view_options: text::views(self.view_options@),
            active_view: self.active_view@,
            view_label: self.view_label@,
            current_filter: self.current_filter@,
            current_view: self.current_view@,
            current_q: self.current_q@,
            nav_items: text::views(self.nav_items@),
            user_initial: self.user_initial@,
            user_name: self.user_name@,
            user_email: self.user_email@,
            user_premium: self.user_premium,
            recipes: text::views(self.recipes@),
        }
    }
}

#[derive(Debug, PartialEq)]
pub struct RecipeDetailPage {
    pub recipe: Recipe,
    pub nav_items: Vec<NavItem>,
    pub user_initial: &'static str,
    pub user_name: &'static str,
    pub user_email: &'static str,
    pub user_premium: bool,
    /// Whether the page offers to edit the recipe.
    pub can_edit: bool,
}

/// What a [`RecipeDetailPage`] holds, as mathematical values.
#[verifier::ext_equal]
pub struct RecipeDetailPageModel {
    pub recipe: RecipeModel,
    pub nav_items: Seq<NavItemModel>,
    pub user_initial: Seq<char>,
    pub user_name: Seq<char>,
    pub user_email: Seq<char>,
    pub user_premium: bool,
    pub can_edit: bool,
}

impl View for RecipeDetailPage {
    type V = RecipeDetailPageModel;

    open spec fn view(&self) -> RecipeDetailPageModel {
        RecipeDetailPageModel {
            recipe: self.recipe@,
            nav_items: text::views(self.nav_items@),
            user_initial: self.user_initial@,
            user_name: self.user_name@,
            user_email: self.user_email@,
            user_premium: self.user_premium,
            can_edit: self.can_edit,
        }
    }
}

#[derive(Debug, PartialEq)]
pub struct RecipeNotFoundPage {
    pub requested_id: String,
    pub nav_items: Vec<NavItem>,
    pub user_initial: &'static str,
    pub user_name: &'static str,
    pub user_email: &'static str,
    pub user_premium: bool,
}

/// What a [`RecipeNotFoundPage`] holds, as mathematical values.
#[verifier::ext_equal]
pub struct RecipeNotFoundPageModel {
    pub requested_id: Seq<char>,
    pub nav_items: Seq<NavItemModel>,
    pub user_initial: Seq<char>,
    pub user_name: Seq<char>,
    pub user_email: Seq<char>,
    pub user_premium: bool,
}

impl View for RecipeNotFoundPage {
    type V = RecipeNotFoundPageModel;

    open spec fn view(&self) -> RecipeNotFoundPageModel {
        RecipeNotFoundPageModel {
            requested_id: self.requested_id@,
            nav_items: text::views(self.nav_items@),
            user_initial: self.user_initial@,
            user_name: self.user_name@,
            user_email: self.user_email@,
            user_premium: self.user_premium,
        }
    }
}

/// The page that waits for a recipe.
#[derive(Debug, PartialEq)]
pub struct RecipeDetailLoadingPage {
    pub recipe_id: String,
    pub attempt: u8,
    pub attempt_limit: u8,
    pub nav_items: Vec<NavItem>,
    pub user_initial: &'static str,
    pub user_name: &'static str,
    pub user_email: &'static str,
    pub user_premium: bool,
}

/// What a [`RecipeDetailLoadingPage`] holds, as mathematical values.
#[verifier::ext_equal]
pub struct RecipeDetailLoadingPageModel {
    pub recipe_id: Seq<char>,
    pub attempt: u8,
    pub attempt_limit: u8,
    pub nav_items: Seq<NavItemModel>,
    pub user_initial: Seq<char>,
    pub user_name: Seq<char>,
    pub user_email: Seq<char>,
    pub user_premium: bool,
}

impl View for RecipeDetailLoadingPage {
    type V = RecipeDetailLoadingPageModel;

    open spec fn view(&self) -> RecipeDetailLoadingPageModel {
        RecipeDetailLoadingPageModel {
            recipe_id: self.recipe_id@,
            attempt: self.attempt,
            attempt_limit: self.attempt_limit,
            nav_items: text::views(self.nav_items@),
            user_initial: self.user_initial@,
            user_name: self.user_name@,
            user_email: self.user_email@,
            user_premium: self.user_premium,
        }
    }
}

/// The part of the page that waits for a recipe.
#[derive(Debug, PartialEq)]
pub struct RecipeDetailLoadingFragment {
    pub recipe_id: String,
    pub attempt: u8,
    pub attempt_limit: u8,
}

/// What a [`RecipeDetailLoadingFragment`] holds, as mathematical values.
#[verifier::ext_equal]
pub struct RecipeDetailLoadingFragmentModel {
    pub recipe_id: Seq<char>,
    pub attempt: u8,
    pub attempt_limit: u8,
}

impl View for RecipeDetailLoadingFragment {
    type V = RecipeDetailLoadingFragmentModel;

    open spec fn view(&self) -> RecipeDetailLoadingFragmentModel {
        RecipeDetailLoadingFragmentModel {
            recipe_id: self.recipe_id@,
            attempt: self.attempt,
            attempt_limit: self.attempt_limit,
        }
    }
}

/// The list alone, with chips and layout buttons.
#[derive(Debug, PartialEq)]
pub struct RecipesGridFragment {
    pub active_view: &'static str,
    pub view_label: &'static str,
    pub recipes: Vec<Recipe>,
    pub filters: Vec<FilterChip>,
    pub view_options: Vec<ViewOption>,
}

/// What a [`RecipesGridFragment`] holds, as mathematical values.
#[verifier::ext_equal]
pub struct RecipesGridFragmentModel {
    pub active_view: Seq<char>,
    pub view_label: Seq<char>,
    pub recipes: Seq<RecipeModel>,
    pub filters: Seq<FilterChipModel>,
    pub view_options: Seq<ViewOptionModel>,
}

impl View for RecipesGridFragment {
    type V = RecipesGridFragmentModel;

    open spec fn view(&self) -> RecipesGridFragmentModel {
        RecipesGridFragmentModel {
            active_view: self.active_view@,
            view_label: self.view_label@,
            recipes: text::views(self.recipes@),
            filters: text::views(self.filters@),
            view_options: text::views(self.view_options@),
        }
    }
}

/// The pages of the catalogue.
#[derive(Debug, PartialEq)]
pub enum RecipesScreen {
    Index(RecipesIndexPage),
    Grid(RecipesGridFragment),
    Detail(RecipeDetailPage),
    Loading(RecipeDetailLoadingPage),
    LoadingPart(RecipeDetailLoadingFragment),
    NotFound(RecipeNotFoundPage),
}

/// What a [`RecipesScreen`] holds, as mathematical values.
#[verifier::ext_equal]
pub enum RecipesScreenModel {
    Index(RecipesIndexPageModel),
    Grid(RecipesGridFragmentModel),
    Detail(RecipeDetailPageModel),
    Loading(RecipeDetailLoadingPageModel),
    LoadingPart(RecipeDetailLoadingFragmentModel),
    NotFound(RecipeNotFoundPageModel),
}

impl View for RecipesScreen {
    type V = RecipesScreenModel;

    open spec fn view(&self) -> RecipesScreenModel {
        match self {
            RecipesScreen::Index(inner) => RecipesScreenModel::Index(inner@),
            RecipesScreen::Grid(inner) => RecipesScreenModel::Grid(inner@),
            RecipesScreen::Detail(inner) => RecipesScreenModel::Detail(inner@),
            RecipesScreen::Loading(inner) => RecipesScreenModel::Loading(inner@),
            RecipesScreen::LoadingPart(inner) => RecipesScreenModel::LoadingPart(inner@),
            RecipesScreen::NotFound(inner) => RecipesScreenModel::NotFound(inner@),
        }
    }
}

// ── The list ────────────────────────────────────────────────────────────

/// What the list asks of the tables.
pub open spec fn asked_of_tables(q: RecipesQueryModel) -> recipes_view::RecipesQueryModel {
    recipes_view::RecipesQueryModel {
        meal_type: match q.filter.meal_type() {
            Some(meal_type) => Some(meal_type.slug_text()),
            None => None,
        },
        search: q.q,
    }
}

/// What the list asks of the tables.
pub fn projection_query(q: &RecipesQuery) -> (res: recipes_view::RecipesQuery)
    ensures
        res@ == asked_of_tables(q@),
{
    let meal_type: Option<String> = match q.filter.meal_type_slug() {
        Some(slug) => Some(slug.to_owned()),
        None => None,
    };
    recipes_view::RecipesQuery { meal_type, search: text::clone_opt_text(&q.q) }
}

/// What the list shows of a number of rows.
pub open spec fn all_shown(rows: Seq<RecipeRowModel>) -> Seq<RecipeModel> {
    rows.map_values(|row: RecipeRowModel| shown(row))
}

fn recipes_of(rows: Vec<RecipeRow>) -> (res: Vec<Recipe>)
    ensures
        text::views(res@) == all_shown(text::views(rows@)),
{
    let ghost all = all_shown(text::views(rows@));
    let mut out: Vec<Recipe> = Vec::new();
    let mut i: usize = 0;
    while i < rows.len()
        invariant
            i <= rows.len(),
            all == all_shown(text::views(rows@)),
            text::views(out@) == all.take(i as int),
        decreases rows.len() - i,
    {
        let ghost before = out@;
        let shown_row: Recipe = Recipe::from_row(rows[i].clone());
        proof {
            text::lemma_views_push(before, shown_row);
            assert(all.take(i + 1) =~= all.take(i as int).push(shown_row@));
        }
        out.push(shown_row);
        i += 1;
    }
    assert(all.take(i as int) =~= all);
    out
}

/// The answer to a request for the list.
pub open spec fn index_reply(
    user: UserModel,
    is_partial: bool,
    q: RecipesQueryModel,
    total_count: i64,
    rows: Seq<RecipeRowModel>,
) -> ReplyModel<RecipesScreenModel> {
    if is_partial {
        ReplyModel::PageAt(
            RecipesScreenModel::Grid(
                RecipesGridFragmentModel {
                    active_view: q.view.slug_text(),
                    view_label: q.view.label_text(),
                    recipes: all_shown(rows),
                    filters: chips(q),
                    view_options: toggles(q),
                },
            ),
            href_text(href_pairs(q.filter, q.view, q.q)),
        )
    } else {
        let frame = web::chrome(user);
        ReplyModel::Page(
            RecipesScreenModel::Index(
                RecipesIndexPageModel {
                    total_count: total_count as usize,
                    filters: chips(q),
                    view_options: toggles(q),
                    active_view: q.view.slug_text(),
                    view_label: q.view.label_text(),
                    current_filter: q.filter.slug_text(),
                    current_view: q.view.slug_text(),
                    current_q: forms::text_or(q.q, Seq::empty()),
                    nav_items: frame.nav_items,
                    user_initial: frame.user_initial,
                    user_name: frame.user_name,
                    user_email: frame.user_email,
                    user_premium: frame.user_premium,
                    recipes: all_shown(rows),
                },
            ),
        )
    }
}

/// A request for the list. `accept` is its `Accept` header, `total_count` how
/// many recipes the user has, and `rows` those that the query asks for. The
/// answer to a request for a part carries the address of the whole list.
pub fn recipes_index(
    user: &User,
    accept: Option<&str>,
    q: &RecipesQuery,
    total_count: i64,
    rows: Vec<RecipeRow>,
) -> (res: Reply<RecipesScreen>)
    ensures
        res@ == index_reply(
            user@,
            web::partial(accept),
            q@,
            total_count,
            text::views(rows@),
        ),
{
    let recipes: Vec<Recipe> = recipes_of(rows);
    let filters: Vec<FilterChip> = filter_chips(q);
    let options: Vec<ViewOption> = view_options(q);
    if web::wants_partial(accept) {
        let canonical: String = build_href(q, None, None, None);
        return Reply::PageAt(
            RecipesScreen::Grid(
                RecipesGridFragment {
                    active_view: q.view.slug(),
                    view_label: q.view.label(),
                    recipes,
                    filters,
                    view_options: options,
                },
            ),
            canonical,
        );
    }
    let chrome: Chrome = web::chrome_for(user);
    let current_q: String = match &q.q {
        Some(text) => text.clone(),
        None => String::new(),
    };
    Reply::Page(
        RecipesScreen::Index(
            RecipesIndexPage {
                total_count: total_count as usize,
                filters,
                view_options: options,
                active_view: q.view.slug(),
                view_label: q.view.label(),
                current_filter: q.filter.slug(),
                current_view: q.view.slug(),
                current_q,
                nav_items: chrome.nav_items,
                user_initial: chrome.user_initial,
                user_name: chrome.user_name,
                user_email: chrome.user_email,
                user_premium: chrome.user_premium,
                recipes,
            },
        ),
    )
}

// ── One recipe ──────────────────────────────────────────────────────────

/// The page for a recipe that is not there.
pub open spec fn not_found_page(user: UserModel, id: Seq<char>) -> RecipeNotFoundPageModel {
    let frame = web::chrome(user);
    RecipeNotFoundPageModel {
        requested_id: id,
        nav_items: frame.nav_items,
        user_initial: frame.user_initial,
        user_name: frame.user_name,
        user_email: frame.user_email,
        user_premium: frame.user_premium,
    }
}

/// The page for a recipe that is not there.
pub fn recipe_not_found(user: &User, id: &str) -> (res: RecipeNotFoundPage)
    ensures
        res@ == not_found_page(user@, id@),
{
    let chrome: Chrome = web::chrome_for(user);
    RecipeNotFoundPage {
        requested_id: id.to_owned(),
        nav_items: chrome.nav_items,
        user_initial: chrome.user_initial,
        user_name: chrome.user_name,
        user_email: chrome.user_email,
        user_premium: chrome.user_premium,
    }
}

/// How often the page was asked for, up to the limit.
pub open spec fn capped(attempt: u8) -> u8 {
    if attempt <= ATTEMPT_LIMIT {
        attempt
    } else {
        ATTEMPT_LIMIT
    }
}

/// The answer to a request for the page of a recipe.
pub open spec fn detail_reply(
    user: UserModel,
    is_partial: bool,
    id: Seq<char>,
    q: DetailQueryModel,
    row: Option<RecipeRowModel>,
) -> ReplyModel<RecipesScreenModel> {
    let frame = web::chrome(user);
    match row {
        Some(r) => if q.awaiting > 0 && is_partial {
            ReplyModel::Location("/recipes/"@ + r.id)
        } else {
            ReplyModel::Page(
                RecipesScreenModel::Detail(
                    RecipeDetailPageModel {
                        recipe: shown(r),
                        nav_items: frame.nav_items,
                        user_initial: frame.user_initial,
                        user_name: frame.user_name,
                        user_email: frame.user_email,
                        user_premium: frame.user_premium,
                        can_edit: true,
                    },
                ),
            )
        },
        None => if q.awaiting > 0 {
            if is_partial {
                ReplyModel::Page(
                    RecipesScreenModel::LoadingPart(
                        RecipeDetailLoadingFragmentModel {
                            recipe_id: id,
                            attempt: capped(q.attempt),
                            attempt_limit: ATTEMPT_LIMIT,
                        },
                    ),
                )
            } else {
                ReplyModel::Page(
                    RecipesScreenModel::Loading(
                        RecipeDetailLoadingPageModel {
                            recipe_id: id,
                            attempt: capped(q.attempt),
                            attempt_limit: ATTEMPT_LIMIT,
                            nav_items: frame.nav_items,
                            user_initial: frame.user_initial,
                            user_name: frame.user_name,
                            user_email: frame.user_email,
                            user_premium: frame.user_premium,
                        },
                    ),
                )
            }
        } else {
            ReplyModel::NotFound(RecipesScreenModel::NotFound(not_found_page(user, id)))
        },
    }
}

/// A request for the page of a recipe. `row` is the row of the recipe among
/// those of the user. A recipe that is awaited and not there yet is waited
/// for; once it is there, a request for a part is sent to its page.
pub fn recipe_detail(
    user: &User,
    accept: Option<&str>,
    id: &str,
    q: &DetailQuery,
    row: Option<RecipeRow>,
) -> (res: Reply<RecipesScreen>)
    ensures
        res@ == detail_reply(user@, web::partial(accept), id@, q@, text::opt_view(row)),
{
    match row {
        Some(r) => {
            if q.awaiting > 0 && web::wants_partial(accept) {
                return Reply::Location(text::join2("/recipes/", r.id.as_str()));
            }
            let chrome: Chrome = web::chrome_for(user);
            Reply::Page(
                RecipesScreen::Detail(
                    RecipeDetailPage {
                        recipe: Recipe::from_row(r),
                        nav_items: chrome.nav_items,
                        user_initial: chrome.user_initial,
                        user_name: chrome.user_name,
                        user_email: chrome.user_email,
                        user_premium: chrome.user_premium,
                        can_edit: true,
                    },
                ),
            )
        },
        None => {
            if q.awaiting > 0 {
                let attempt: u8 = if q.attempt <= ATTEMPT_LIMIT {
                    q.attempt
                } else {
                    ATTEMPT_LIMIT
                };
                if web::wants_partial(accept) {
                    return Reply::Page(
                        RecipesScreen::LoadingPart(
                            RecipeDetailLoadingFragment {
                                recipe_id: id.to_owned(),
                                attempt,
                                attempt_limit: ATTEMPT_LIMIT,
                            },
                        ),
                    );
                }
                let chrome: Chrome = web::chrome_for(user);
                return Reply::Page(
                    RecipesScreen::Loading(
                        RecipeDetailLoadingPage {
                            recipe_id: id.to_owned(),
                            attempt,
                            attempt_limit: ATTEMPT_LIMIT,
                            nav_items: chrome.nav_items,
                            user_initial: chrome.user_initial,
                            user_name: chrome.user_name,
                            user_email: chrome.user_email,
                            user_premium: chrome.user_premium,
                        },
                    ),
                );
            }
            Reply::NotFound(RecipesScreen::NotFound(recipe_not_found(user, id)))
        },
    }
}

/// Waiting for a recipe ends: the count that a page shows never passes the
/// limit, and only a recipe that is not awaited is answered as not found.
pub proof fn law_waiting_is_bounded(
    user: UserModel,
    is_partial: bool,
    id: Seq<char>,
    q: DetailQueryModel,
    row: Option<RecipeRowModel>,
)
    ensures
        match detail_reply(user, is_partial, id, q, row) {
            ReplyModel::Page(RecipesScreenModel::Loading(page)) => page.attempt <= ATTEMPT_LIMIT
                && row is None && q.awaiting > 0,
            ReplyModel::Page(RecipesScreenModel::LoadingPart(part)) => part.attempt
                <= ATTEMPT_LIMIT && row is None && q.awaiting > 0,
            ReplyModel::NotFound(_) => row is None && q.awaiting == 0,
            _ => row is Some,
        },
{
}

// ── What holds of what is shown ─────────────────────────────────────────

/// A recipe is shown with all that its row has: every ingredient and every
/// step, in their order, and its texts and numbers as they are. Only an empty
/// description is left out, and where a number makes no sense the smallest one
/// that does stands in for it.
pub proof fn law_recipes_show_their_row(row: RecipeRowModel, meal_type: MealType)
    ensures
        shown(row).id == row.id,
        shown(row).title == row.title,
        shown(row).emoji == row.emoji,
        shown(row).cuisine == row.cuisine,
        shown(row).difficulty == row.difficulty,
        shown(row).rating == row.rating,
        row.meal_type == meal_type.slug_text() ==> shown(row).kind == meal_type,
        recipe::meal_type_of(row.meal_type) is None ==> shown(row).kind == MealType::Main,
        0 <= row.time_minutes <= u32::MAX ==> shown(row).time_minutes == row.time_minutes,
        row.time_minutes < 0 ==> shown(row).time_minutes == 0,
        1 <= row.servings <= u32::MAX ==> shown(row).servings == row.servings,
        row.servings < 1 ==> shown(row).servings == 1,
        shown(row).description is None <==> row.description.len() == 0,
        shown(row).description matches Some(description) ==> description == row.description,
        json::text_list_of(row.tags_json) matches Some(tags) ==> shown(row).tags == tags,
        json::text_list_of(row.tags_json) is None ==> shown(row).tags.len() == 0,
        shown(row).ingredients == row.ingredients,
        shown(row).steps == row.steps,
{
    recipe::law_unknown_meal_types_are_mains(row.meal_type, meal_type);
    recipe::law_meal_type_slug_round_trip(meal_type, row.meal_type);
}

/// Whatever was done to a recipe, as long as it is not deleted its page shows
/// its content: the title, every ingredient and every step that it has now, in
/// their order, and the rest. The tags are those that were given, provided
/// that JSON gives them back.
pub proof fn law_pages_show_the_history(
    user: UserModel,
    id: Seq<char>,
    log: Seq<recipe::RecipeModel>,
    times: Seq<u64>,
    attempt: u8,
)
    requires
        history::is_history(log),
        times.len() == log.len(),
    ensures
        history::content_after(log) is None ==> recipes_view::row_after(id, log, times) is None,
        history::content_after(log) matches Some(content) ==> (detail_reply(
            user,
            false,
            id,
            DetailQueryModel { awaiting: 0, attempt },
            recipes_view::row_after(id, log, times),
        ) matches ReplyModel::Page(RecipesScreenModel::Detail(page)) && page.recipe.id == id
            && page.recipe.title == content.title && page.recipe.kind.slug_text()
            == content.meal_type && page.recipe.emoji == content.emoji && page.recipe.cuisine
            == content.cuisine && page.recipe.difficulty == content.difficulty
            && page.recipe.ingredients == content.ingredients && page.recipe.steps
            == content.steps && page.recipe.servings == content.servings && (content.prep_minutes
            + content.cook_minutes <= u32::MAX ==> page.recipe.time_minutes
            == content.prep_minutes + content.cook_minutes) && (content.description.len() > 0
            ==> page.recipe.description == Some(content.description)) && (json::text_list_of(
            json::text_list_json(content.tags),
        ) == Some(content.tags) ==> page.recipe.tags == content.tags)),
{
    recipes_view::law_rows_show_the_history(id, log, times);
    history::law_histories_are_sound(log);
    if history::content_after(log) is Some {
        let content = history::content_after(log)->0;
        let meal_type = recipe::meal_type_of(content.meal_type)->0;
        recipe::law_meal_type_slug_round_trip(meal_type, content.meal_type);
    }
}

/// The list shows a recipe for each row that it is given, in their order, in
/// the page as well as in the part.
pub proof fn law_lists_show_every_row(
    user: UserModel,
    is_partial: bool,
    q: RecipesQueryModel,
    total_count: i64,
    rows: Seq<RecipeRowModel>,
    i: int,
)
    ensures
        match index_reply(user, is_partial, q, total_count, rows) {
            ReplyModel::PageAt(RecipesScreenModel::Grid(part), address) => is_partial
                && part.recipes.len() == rows.len() && (0 <= i < rows.len() ==> part.recipes[i]
                == shown(rows[i])) && part.active_view == q.view.slug_text() && part.view_label
                == q.view.label_text() && part.filters == chips(q) && part.view_options == toggles(
                q,
            ) && address == href_text(href_pairs(q.filter, q.view, q.q)),
            ReplyModel::Page(RecipesScreenModel::Index(page)) => !is_partial && page.recipes.len()
                == rows.len() && (0 <= i < rows.len() ==> page.recipes[i] == shown(rows[i])) && (
            0 <= total_count <= usize::MAX ==> page.total_count == total_count)
                && page.active_view == q.view.slug_text() && page.current_view
                == q.view.slug_text() && page.view_label == q.view.label_text()
                && page.current_filter == q.filter.slug_text() && (q.q matches Some(text)
                ==> page.current_q == text) && (q.q is None ==> page.current_q.len() == 0)
                && page.filters == chips(q) && page.view_options == toggles(q),
            _ => false,
        },
{
}

/// The page of a recipe that is there shows it and lets it be edited; a
/// request for a part that waited for it is sent to that page. A recipe that
/// is not there is waited for if it was created a moment ago.
pub proof fn law_recipes_are_found(
    user: UserModel,
    is_partial: bool,
    id: Seq<char>,
    q: DetailQueryModel,
    row: RecipeRowModel,
)
    ensures
        !(q.awaiting > 0 && is_partial) ==> (detail_reply(user, is_partial, id, q, Some(row))
            matches ReplyModel::Page(RecipesScreenModel::Detail(page)) && page.recipe == shown(row)
            && page.can_edit),
        q.awaiting > 0 && is_partial ==> detail_reply(user, is_partial, id, q, Some(row))
            == ReplyModel::<RecipesScreenModel>::Location("/recipes/"@ + row.id),
        q.awaiting == 0 ==> (detail_reply(user, is_partial, id, q, None)
            matches ReplyModel::NotFound(RecipesScreenModel::NotFound(page)) && page.requested_id
            == id),
        q.awaiting > 0 ==> (detail_reply(user, is_partial, id, q, None) matches ReplyModel::Page(
            screen,
        ) && match screen {
            RecipesScreenModel::Loading(page) => !is_partial && page.recipe_id == id
                && page.attempt_limit == ATTEMPT_LIMIT && (q.attempt <= ATTEMPT_LIMIT
                ==> page.attempt == q.attempt),
            RecipesScreenModel::LoadingPart(part) => is_partial && part.recipe_id == id
                && part.attempt_limit == ATTEMPT_LIMIT && (q.attempt <= ATTEMPT_LIMIT
                ==> part.attempt == q.attempt),
            _ => false,
        }),
{
}

/// The fields of an address say what the list is asked for: the filter unless
/// all recipes are shown, the view unless it is the grid, and the search text
/// unless it is blank.
pub proof fn law_addresses_say_what_is_shown(
    filter: FilterId,
    view: ViewId,
    q: Option<Seq<char>>,
)
    ensures
        forms::first_of(href_pairs(filter, view, q), "filter"@) == if filter == FilterId::All {
            None
        } else {
            Some(filter.slug_text())
        },
        forms::first_of(href_pairs(filter, view, q), "view"@) == if view == ViewId::Grid {
            None
        } else {
            Some(view.slug_text())
        },
        q matches Some(text) ==> !text::blank(text) ==> forms::first_of(
            href_pairs(filter, view, q),
            "q"@,
        ) == Some(text::trimmed(text)),
        q matches Some(text) ==> text::blank(text) ==> forms::first_of(
            href_pairs(filter, view, q),
            "q"@,
        ) is None,
        q is None ==> forms::first_of(href_pairs(filter, view, q), "q"@) is None,
        href_pairs(filter, view, q).len() <= 3,
{
    reveal_strlit("filter");
    reveal_strlit("view");
    reveal_strlit("q");
    assert("filter"@.len() == 6 && "view"@.len() == 4 && "q"@.len() == 1);
    reveal_with_fuel(forms::first_of, 4);
}

/// Each chip leads to its own filter, and each toggle to its own view; both
/// keep the rest of the query.
pub proof fn law_chips_and_toggles_keep_the_rest(current: RecipesQueryModel, filter: FilterId)
    ensures
        chips(current)[chip_position(filter)].href == href_text(
            href_pairs(filter, current.view, current.q),
        ),
        chips(current).len() == 5,
        toggles(current).len() == 2,
        toggles(current)[0].href == href_text(
            href_pairs(current.filter, ViewId::Grid, current.q),
        ),
        toggles(current)[1].href == href_text(
            href_pairs(current.filter, ViewId::List, current.q),
        ),
        toggles(current)[0].active <==> current.view == ViewId::Grid,
        toggles(current)[1].active <==> current.view == ViewId::List,
{
}

/// The tables are asked for the meal type of the filter, if it has one, and
/// for the search text as it is.
pub proof fn law_tables_are_asked_for_the_filter(q: RecipesQueryModel)
    ensures
        asked_of_tables(q).search == q.q,
        q.filter == FilterId::All ==> asked_of_tables(q).meal_type is None,
        q.filter != FilterId::All ==> asked_of_tables(q).meal_type == Some(q.filter.slug_text()),
        asked_of_tables(q).meal_type matches Some(slug) ==> recipe::meal_type_of(slug) is Some,
{
    if q.filter != FilterId::All {
        recipe::law_meal_type_slug_round_trip(q.filter.meal_type()->0, Seq::empty());
    }
}

/// What each filter is called.
pub proof fn law_filters_are_called(value: FilterId)
    ensures
        value == FilterId::All ==> value.slug_text() == "all"@,
        value == FilterId::Entree ==> value.slug_text() == "entree"@,
        value == FilterId::Main ==> value.slug_text() == "main"@,
        value == FilterId::Side ==> value.slug_text() == "side"@,
        value == FilterId::Dessert ==> value.slug_text() == "dessert"@,
{
}

/// What each view is called.
pub proof fn law_views_are_called(value: ViewId)
    ensures
        value == ViewId::Grid ==> value.slug_text() == "grid"@,
        value == ViewId::List ==> value.slug_text() == "list"@,
        value == ViewId::Grid ==> value.label_text() == "grid view"@,
        value == ViewId::List ==> value.label_text() == "list view"@,
{
}

/// An address is that of the current query but for what is replaced in it.
pub proof fn law_addresses_keep_what_is_not_replaced(
    current: RecipesQueryModel,
    filter: FilterId,
    view: ViewId,
    q: &str,
)
    ensures
        or_current(None::<FilterId>, current.filter) == current.filter,
        or_current(None::<ViewId>, current.view) == current.view,
        q_or_current(None, current.q) == current.q,
        or_current(Some(filter), current.filter) == filter,
        or_current(Some(view), current.view) == view,
        q_or_current(Some(Some(q)), current.q) == Some(q@),
        q_or_current(Some(None), current.q) is None,
{
}

/// A model has every field of the value that it stands for.
pub proof fn law_models_have_every_field(
    recipe: Recipe,
    recipes_query: RecipesQuery,
    filter_chip: FilterChip,
    view_option: ViewOption,
    detail_query: DetailQuery,
    recipes_index_page: RecipesIndexPage,
    recipe_detail_page: RecipeDetailPage,
    recipe_not_found_page: RecipeNotFoundPage,
    recipe_detail_loading_page: RecipeDetailLoadingPage,
    recipe_detail_loading_fragment: RecipeDetailLoadingFragment,
    recipes_grid_fragment: RecipesGridFragment,
)
    ensures
        recipe@.id == recipe.id@,
        recipe@.title == recipe.title@,
        recipe@.kind == recipe.kind,
        recipe@.emoji == recipe.emoji@,
        recipe@.cuisine == recipe.cuisine@,
        recipe@.time_minutes == recipe.time_minutes,
        recipe@.servings == recipe.servings,
        recipe@.rating == recipe.rating,
        recipe@.difficulty == recipe.difficulty@,
        recipe@.description == text::opt_view(recipe.description),
        recipe@.tags == text::views(recipe.tags@),
        recipe@.ingredients == text::views(recipe.ingredients@),
        recipe@.steps == text::views(recipe.steps@),
        recipes_query@.filter == recipes_query.filter,
        recipes_query@.view == recipes_query.view,
        recipes_query@.q == text::opt_view(recipes_query.q),
        filter_chip@.label == filter_chip.label@,
        filter_chip@.emoji == filter_chip.emoji@,
        filter_chip@.active == filter_chip.active,
        filter_chip@.href == filter_chip.href@,
        view_option@.label == view_option.label@,
        view_option@.active == view_option.active,
        view_option@.icon_svg == view_option.icon_svg@,
        view_option@.href == view_option.href@,
        detail_query@.awaiting == detail_query.awaiting,
        detail_query@.attempt == detail_query.attempt,
        recipes_index_page@.total_count == recipes_index_page.total_count,
        recipes_index_page@.filters == text::views(recipes_index_page.filters@),
        recipes_index_page@.view_options == text::views(recipes_index_page.view_options@),
        recipes_index_page@.active_view == recipes_index_page.active_view@,
        recipes_index_page@.view_label == recipes_index_page.view_label@,
        recipes_index_page@.current_filter == recipes_index_page.current_filter@,
        recipes_index_page@.current_view == recipes_index_page.current_view@,
        recipes_index_page@.current_q == recipes_index_page.current_q@,
        recipes_index_page@.nav_items == text::views(recipes_index_page.nav_items@),
        recipes_index_page@.user_initial == recipes_index_page.user_initial@,
        recipes_index_page@.user_name == recipes_index_page.user_name@,
        recipes_index_page@.user_email == recipes_index_page.user_email@,
        recipes_index_page@.user_premium == recipes_index_page.user_premium,
        recipes_index_page@.recipes == text::views(recipes_index_page.recipes@),
        recipe_detail_page@.recipe == recipe_detail_page.recipe@,
        recipe_detail_page@.nav_items == text::views(recipe_detail_page.nav_items@),
        recipe_detail_page@.user_initial == recipe_detail_page.user_initial@,
        recipe_detail_page@.user_name == recipe_detail_page.user_name@,
        recipe_detail_page@.user_email == recipe_detail_page.user_email@,
        recipe_detail_page@.user_premium == recipe_detail_page.user_premium,
        recipe_detail_page@.can_edit == recipe_detail_page.can_edit,
        recipe_not_found_page@.requested_id == recipe_not_found_page.requested_id@,
        recipe_not_found_page@.nav_items == text::views(recipe_not_found_page.nav_items@),
        recipe_not_found_page@.user_initial == recipe_not_found_page.user_initial@,
        recipe_not_found_page@.user_name == recipe_not_found_page.user_name@,
        recipe_not_found_page@.user_email == recipe_not_found_page.user_email@,
        recipe_not_found_page@.user_premium == recipe_not_found_page.user_premium,
        recipe_detail_loading_page@.recipe_id == recipe_detail_loading_page.recipe_id@,
        recipe_detail_loading_page@.attempt == recipe_detail_loading_page.attempt,
        recipe_detail_loading_page@.attempt_limit == recipe_detail_loading_page.attempt_limit,
        recipe_detail_loading_page@.nav_items == text::views(recipe_detail_loading_page.nav_items@),
        recipe_detail_loading_page@.user_initial == recipe_detail_loading_page.user_initial@,
        recipe_detail_loading_page@.user_name == recipe_detail_loading_page.user_name@,
        recipe_detail_loading_page@.user_email == recipe_detail_loading_page.user_email@,
        recipe_detail_loading_page@.user_premium == recipe_detail_loading_page.user_premium,
        recipe_detail_loading_fragment@.recipe_id == recipe_detail_loading_fragment.recipe_id@,
        recipe_detail_loading_fragment@.attempt == recipe_detail_loading_fragment.attempt,
        recipe_detail_loading_fragment@.attempt_limit
            == recipe_detail_loading_fragment.attempt_limit,
        recipes_grid_fragment@.active_view == recipes_grid_fragment.active_view@,
        recipes_grid_fragment@.view_label == recipes_grid_fragment.view_label@,
        recipes_grid_fragment@.recipes == text::views(recipes_grid_fragment.recipes@),
        recipes_grid_fragment@.filters == text::views(recipes_grid_fragment.filters@),
        recipes_grid_fragment@.view_options == text::views(recipes_grid_fragment.view_options@),
{
}

/// Every page of the recipes stands in the frame of the user it is made for.
pub proof fn law_recipe_pages_have_the_frame(
    user: UserModel,
    is_partial: bool,
    id: Seq<char>,
    q: RecipesQueryModel,
    detail: DetailQueryModel,
    total_count: i64,
    rows: Seq<RecipeRowModel>,
    row: Option<RecipeRowModel>,
)
    ensures
        index_reply(user, is_partial, q, total_count, rows) matches ReplyModel::Page(
            RecipesScreenModel::Index(page),
        ) ==> {
            &&& page.nav_items == web::chrome(user).nav_items
            &&& page.user_initial == web::chrome(user).user_initial
            &&& page.user_name == web::chrome(user).user_name
            &&& page.user_email == web::chrome(user).user_email
            &&& page.user_premium == web::chrome(user).user_premium
        },
        detail_reply(user, is_partial, id, detail, row) matches ReplyModel::Page(
            RecipesScreenModel::Detail(page),
        ) ==> {
            &&& page.nav_items == web::chrome(user).nav_items
            &&& page.user_initial == web::chrome(user).user_initial
            &&& page.user_name == web::chrome(user).user_name
            &&& page.user_email == web::chrome(user).user_email
            &&& page.user_premium == web::chrome(user).user_premium
        },
        detail_reply(user, is_partial, id, detail, row) matches ReplyModel::Page(
            RecipesScreenModel::Loading(page),
        ) ==> {
            &&& page.nav_items == web::chrome(user).nav_items
            &&& page.user_initial == web::chrome(user).user_initial
            &&& page.user_name == web::chrome(user).user_name
            &&& page.user_email == web::chrome(user).user_email
            &&& page.user_premium == web::chrome(user).user_premium
        },
        ({
            let page = not_found_page(user, id);
            &&& page.nav_items == web::chrome(user).nav_items
            &&& page.user_initial == web::chrome(user).user_initial
            &&& page.user_name == web::chrome(user).user_name
            &&& page.user_email == web::chrome(user).user_email
            &&& page.user_premium == web::chrome(user).user_premium
        }),
{
}

/// What the chips and the toggles are called.
pub proof fn law_chips_and_toggles_are_called(current: RecipesQueryModel, filter: FilterId)
    ensures
        filter == FilterId::All ==> chips(current)[chip_position(filter)].label == "All"@,
        filter == FilterId::Entree ==> chips(current)[chip_position(filter)].label == "Starters"@,
        filter == FilterId::Main ==> chips(current)[chip_position(filter)].label == "Mains"@,
        filter == FilterId::Side ==> chips(current)[chip_position(filter)].label == "Sides"@,
        filter == FilterId::Dessert ==> chips(current)[chip_position(filter)].label == "Desserts"@,
        filter == FilterId::All ==> chips(current)[chip_position(filter)].emoji == "🍴"@,
        filter.meal_type() matches Some(meal_type) ==> chips(current)[chip_position(filter)].emoji
            == meal_type.emoji_text(),
        toggles(current)[0].label == "Grid"@,
        toggles(current)[0].icon_svg == web::ICON_GRID@,
        toggles(current)[1].label == "List"@,
        toggles(current)[1].icon_svg == web::ICON_LIST@,
{
}

} // verus!
