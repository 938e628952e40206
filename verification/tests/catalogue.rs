//! The list of recipes and the page of one.

use imkitchen::projection::recipes_view;
use imkitchen::projection::recipes_view::{Rating, RecipeRow};
use imkitchen::recipe::MealType;
use imkitchen::web;
use imkitchen::web::auth::{Role, User};
use imkitchen::web::recipes::{
    build_href, projection_query, recipe_detail, recipes_index, DetailQuery, FilterId, Recipe,
    RecipesQuery, RecipesScreen, ViewId, ATTEMPT_LIMIT,
};
use imkitchen::web::Reply;

const PARTIAL: Option<&str> = Some("text/html+partial");

fn user(role: Role) -> User {
    User { id: "u".into(), role }
}

fn row(id: &str) -> RecipeRow {
    RecipeRow {
        id: id.into(),
        owner_id: "u".into(),
        title: "Stew".into(),
        meal_type: "side".into(),
        emoji: "🍲".into(),
        cuisine: "Thai".into(),
        time_minutes: 45,
        servings: 4,
        rating: Rating { bits: 0 },
        difficulty: "Easy".into(),
        description: String::new(),
        tags_json: "[\"Vegan\"]".into(),
        ingredients: vec![],
        steps: vec![],
        created_at: 0,
    }
}

fn query(filter: FilterId, view: ViewId, q: Option<&str>) -> RecipesQuery {
    RecipesQuery { filter, view, q: q.map(str::to_owned) }
}

#[test]
fn addresses_leave_defaults_out() {
    let current = RecipesQuery::default();
    assert_eq!(build_href(&current, None, None, None), "/recipes");
    assert_eq!(build_href(&current, Some(FilterId::Main), None, None), "/recipes?filter=main");
    assert_eq!(build_href(&current, None, Some(ViewId::List), None), "/recipes?view=list");
    assert_eq!(build_href(&current, None, None, Some(Some("  "))), "/recipes");
    let current = query(FilterId::Side, ViewId::List, Some(" thai & lime "));
    assert_eq!(
        build_href(&current, None, None, None),
        "/recipes?filter=side&view=list&q=thai+%26+lime"
    );
    assert_eq!(
        build_href(&current, Some(FilterId::All), Some(ViewId::Grid), Some(None)),
        "/recipes"
    );
}

#[test]
fn rows_are_shown_within_bounds() {
    let mut r = row("r");
    r.time_minutes = -5;
    r.servings = 0;
    r.meal_type = "soup".into();
    r.description = "Good.".into();
    let shown = Recipe::from_row(r);
    assert_eq!(shown.time_minutes, 0);
    assert_eq!(shown.servings, 1);
    assert_eq!(shown.kind, MealType::Main);
    assert_eq!(shown.type_label(), "Main");
    assert_eq!(shown.description.as_deref(), Some("Good."));
    assert_eq!(shown.tags, vec!["Vegan".to_string()]);
    let shown = Recipe::from_row(row("r"));
    assert_eq!(shown.description, None);
    assert_eq!(shown.type_slug(), "side");
    assert_eq!((shown.total_steps(), shown.total_ingredients()), (0, 0));
}

#[test]
fn the_list_asks_for_what_its_query_says() {
    let q = projection_query(&query(FilterId::Dessert, ViewId::Grid, Some("pie")));
    assert_eq!(
        q,
        recipes_view::RecipesQuery {
            meal_type: Some("dessert".into()),
            search: Some("pie".into())
        }
    );
    assert_eq!(projection_query(&RecipesQuery::default()).meal_type, None);
}

#[test]
fn a_part_of_the_list_carries_its_address() {
    let q = query(FilterId::Main, ViewId::List, Some("pie"));
    let reply = recipes_index(&user(Role::User), PARTIAL, &q, 9, vec![row("a"), row("b")]);
    match reply {
        Reply::PageAt(RecipesScreen::Grid(part), address) => {
            assert_eq!(address, "/recipes?filter=main&view=list&q=pie");
            assert_eq!(part.recipes.len(), 2);
            assert_eq!(part.view_label, "list view");
            let active: Vec<&str> =
                part.filters.iter().filter(|c| c.active).map(|c| c.label).collect();
            assert_eq!(active, vec!["Mains"]);
            assert_eq!(part.filters[0].href, "/recipes?view=list&q=pie");
            assert_eq!(part.view_options[0].href, "/recipes?filter=main&q=pie");
            assert!(part.view_options[1].active);
        }
        other => panic!("{:?}", other),
    }
}

#[test]
fn the_whole_list_shows_the_user() {
    let reply =
        recipes_index(&user(Role::Premium), Some("text/html"), &RecipesQuery::default(), 9, vec![]);
    match reply {
        Reply::Page(RecipesScreen::Index(page)) => {
            assert_eq!(page.total_count, 9);
            assert_eq!(page.user_initial, "P");
            assert!(page.user_premium);
            assert_eq!(page.user_name, "Jenny Rosen");
            assert_eq!(page.user_email, "jenny@imkitchen.app");
            assert_eq!(page.current_q, "");
            assert_eq!((page.current_filter, page.current_view), ("all", "grid"));
            assert_eq!(page.nav_items.len(), 5);
            let active: Vec<&str> =
                page.nav_items.iter().filter(|n| n.active).map(|n| n.href).collect();
            assert_eq!(active, vec!["/recipes"]);
        }
        other => panic!("{:?}", other),
    }
}

#[test]
fn an_awaited_recipe_is_waited_for() {
    let u = user(Role::Chef);
    let waiting = DetailQuery { awaiting: 1, attempt: 3 };
    match recipe_detail(&u, PARTIAL, "r", &waiting, None) {
        Reply::Page(RecipesScreen::LoadingPart(part)) => {
            assert_eq!((part.attempt, part.attempt_limit), (3, ATTEMPT_LIMIT));
        }
        other => panic!("{:?}", other),
    }
    let late = DetailQuery { awaiting: 1, attempt: 200 };
    match recipe_detail(&u, None, "r", &late, None) {
        Reply::Page(RecipesScreen::Loading(page)) => {
            assert_eq!(page.attempt, 16);
            assert_eq!(page.user_initial, "C");
        }
        other => panic!("{:?}", other),
    }
    assert_eq!(
        recipe_detail(&u, PARTIAL, "r", &waiting, Some(row("r"))),
        Reply::Location("/recipes/r".into())
    );
    match recipe_detail(&u, None, "r", &waiting, Some(row("r"))) {
        Reply::Page(RecipesScreen::Detail(page)) => {
            assert!(page.can_edit);
            assert_eq!(page.recipe.id, "r");
        }
        other => panic!("{:?}", other),
    }
}

#[test]
fn a_recipe_that_is_not_there_is_not_found() {
    match recipe_detail(&user(Role::User), PARTIAL, "r9", &DetailQuery::default(), None) {
        Reply::NotFound(RecipesScreen::NotFound(page)) => {
            assert_eq!(page.requested_id, "r9");
            assert_eq!(page.user_initial, "U");
        }
        other => panic!("{:?}", other),
    }
}

#[test]
fn partial_requests_are_told_by_their_header() {
    assert!(web::wants_partial(Some("text/html+partial")));
    assert!(web::wants_partial(Some("*/*, text/html+partial;q=1")));
    assert!(!web::wants_partial(Some("text/html")));
    assert!(!web::wants_partial(None));
    assert_eq!(web::owner_id(&user(Role::User)), "u");
}
