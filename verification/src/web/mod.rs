//! What the web server answers.
//!
//! The functions under this module decide; reading the request, asking the
//! tables, carrying a command out and rendering a page are the caller's part.
//! Each page is a plain value with all that its template shows.

use vstd::prelude::*;
use vstd::string::*;

use crate::text;
use crate::web::auth::Role;
use crate::web::auth::User;
use crate::web::auth::UserModel;

pub mod assets;
pub mod auth;
pub mod recipes;
pub mod recipes_create;
pub mod recipes_edit;
pub mod recipes_import;

verus! {

/// What is answered to a request.
#[derive(Debug, PartialEq)]
pub enum Reply<P> {
    /// The page, with status 200.
    Page(P),
    /// The page, with status 200 and this address in the header `ts-history`.
    PageAt(P, String),
    /// The page, with status 422.
    Unprocessable(P),
    /// The page, with status 404.
    NotFound(P),
    /// A redirection (status 303) to the address.
    Redirect(String),
    /// An empty body, with status 200 and the address in the header
    /// `ts-location`.
    Location(String),
    /// A plain text with the status given.
    Plain(u16, String),
}

/// What a [`Reply`] holds, as mathematical values.
#[verifier::ext_equal]
pub enum ReplyModel<M> {
    Page(M),
    PageAt(M, Seq<char>),
    Unprocessable(M),
    NotFound(M),
    Redirect(Seq<char>),
    Location(Seq<char>),
    Plain(u16, Seq<char>),
}

impl<P: View> View for Reply<P> {
    type V = ReplyModel<P::V>;

    open spec fn view(&self) -> ReplyModel<P::V> {
        match self {
            Reply::Page(page) => ReplyModel::Page(page@),
            Reply::PageAt(page, address) => ReplyModel::PageAt(page@, address@),
            Reply::Unprocessable(page) => ReplyModel::Unprocessable(page@),
            Reply::NotFound(page) => ReplyModel::NotFound(page@),
            Reply::Redirect(address) => ReplyModel::Redirect(address@),
            Reply::Location(address) => ReplyModel::Location(address@),
            Reply::Plain(status, body) => ReplyModel::Plain(*status, body@),
        }
    }
}

/// What a request that carries a command leads to first: the command is
/// carried out, or the answer is clear without it.
#[derive(Debug, PartialEq)]
pub enum Step<C, P> {
    Run(C),
    Reply(Reply<P>),
}

/// What a [`Step`] holds, as mathematical values.
#[verifier::ext_equal]
pub enum StepModel<C, M> {
    Run(C),
    Reply(ReplyModel<M>),
}

impl<C: View, P: View> View for Step<C, P> {
    type V = StepModel<C::V, P::V>;

    open spec fn view(&self) -> StepModel<C::V, P::V> {
        match self {
            Step::Run(cmd) => StepModel::Run(cmd@),
            Step::Reply(reply) => StepModel::Reply(reply@),
        }
    }
}

/// What came of a command: nothing more to say, or why it failed.
pub open spec fn outcome(result: Result<(), String>) -> Option<Seq<char>> {
    match result {
        Ok(_) => None,
        Err(err) => Some(err@),
    }
}

/// What came of a command that gives an id: the id, or why it failed.
pub open spec fn id_outcome(result: Result<String, String>) -> Result<Seq<char>, Seq<char>> {
    match result {
        Ok(id) => Ok(id@),
        Err(err) => Err(err@),
    }
}

// ── Partial requests ────────────────────────────────────────────────────

/// What a request for a part of a page accepts.
pub const TS_PARTIAL_ACCEPT: &'static str = "text/html+partial";

/// Whether the `Accept` header asks for a part of a page.
pub open spec fn partial(accept: Option<&str>) -> bool {
    match accept {
        Some(value) => text::occurs(value@, TS_PARTIAL_ACCEPT@),
        None => false,
    }
}

/// Whether a request asks for a part of a page; `accept` is its `Accept`
/// header.
pub fn wants_partial(accept: Option<&str>) -> (res: bool)
    ensures
        res == partial(accept),
{
    match accept {
        Some(value) => text::contains_text(value, TS_PARTIAL_ACCEPT),
        None => false,
    }
}

// ── What every page shows around its content ────────────────────────────

/// One entry of the navigation.
#[derive(Debug, PartialEq)]
pub struct NavItem {
    pub label: &'static str,
    pub hint: &'static str,
    pub href: &'static str,
    pub active: bool,
    pub icon_svg: &'static str,
}

/// What a [`NavItem`] holds, as mathematical values.
#[verifier::ext_equal]
pub struct NavItemModel {
    pub label: Seq<char>,
    pub hint: Seq<char>,
    pub href: Seq<char>,
    pub active: bool,
    pub icon_svg: Seq<char>,
}

impl View for NavItem {
    type V = NavItemModel;

    open spec fn view(&self) -> NavItemModel {
        NavItemModel {
            label: self.label@,
            hint: self.hint@,
            href: self.href@,
            active: self.active,
            icon_svg: self.icon_svg@,
        }
    }
}

/// The navigation and the signed-in user, as every page shows them.
#[derive(Debug, PartialEq)]
pub struct Chrome {
    pub nav_items: Vec<NavItem>,
    pub user_initial: &'static str,
    pub user_name: &'static str,
    pub user_email: &'static str,
    pub user_premium: bool,
}

/// What a [`Chrome`] holds, as mathematical values.
#[verifier::ext_equal]
pub struct ChromeModel {
    pub nav_items: Seq<NavItemModel>,
    pub user_initial: Seq<char>,
    pub user_name: Seq<char>,
    pub user_email: Seq<char>,
    pub user_premium: bool,
}

impl View for Chrome {
    type V = ChromeModel;

    open spec fn view(&self) -> ChromeModel {
        ChromeModel {
            nav_items: text::views(self.nav_items@),
            user_initial: self.user_initial@,
            user_name: self.user_name@,
            user_email: self.user_email@,
            user_premium: self.user_premium,
        }
    }
}

pub const ICON_BOOK: &'static str = "<svg class=\"h-4 w-4\" viewBox=\"0 0 24 24\" fill=\"none\" stroke=\"currentColor\" stroke-width=\"1.7\" stroke-linecap=\"round\" stroke-linejoin=\"round\" aria-hidden=\"true\"><path d=\"M4 5a2 2 0 012-2h13v16H6a2 2 0 00-2 2V5z\"/><path d=\"M4 19a2 2 0 012-2h13\"/></svg>";
pub const ICON_CHEF: &'static str = "<svg class=\"h-4 w-4\" viewBox=\"0 0 24 24\" fill=\"none\" stroke=\"currentColor\" stroke-width=\"1.7\" stroke-linecap=\"round\" stroke-linejoin=\"round\" aria-hidden=\"true\"><path d=\"M6 14v5a1 1 0 001 1h10a1 1 0 001-1v-5\"/><path d=\"M5 14a3 3 0 01-.5-5.9A4 4 0 0112 5a4 4 0 017.5 3.1A3 3 0 0119 14H5z\"/></svg>";
pub const ICON_CALENDAR: &'static str = "<svg class=\"h-4 w-4\" viewBox=\"0 0 24 24\" fill=\"none\" stroke=\"currentColor\" stroke-width=\"1.7\" stroke-linecap=\"round\" stroke-linejoin=\"round\" aria-hidden=\"true\"><rect x=\"3\" y=\"5\" width=\"18\" height=\"16\" rx=\"2\"/><path d=\"M3 9h18M8 3v4M16 3v4\"/></svg>";
pub const ICON_CART: &'static str = "<svg class=\"h-4 w-4\" viewBox=\"0 0 24 24\" fill=\"none\" stroke=\"currentColor\" stroke-width=\"1.7\" stroke-linecap=\"round\" stroke-linejoin=\"round\" aria-hidden=\"true\"><circle cx=\"9\" cy=\"20\" r=\"1.5\"/><circle cx=\"18\" cy=\"20\" r=\"1.5\"/><path d=\"M3 4h2l2.7 11.3a1 1 0 001 .7h9.6a1 1 0 001-.7L21 8H6\"/></svg>";
pub const ICON_SETTINGS: &'static str = "<svg class=\"h-4 w-4\" viewBox=\"0 0 24 24\" fill=\"none\" stroke=\"currentColor\" stroke-width=\"1.7\" stroke-linecap=\"round\" stroke-linejoin=\"round\" aria-hidden=\"true\"><circle cx=\"12\" cy=\"12\" r=\"3\"/><path d=\"M19.4 15a1.7 1.7 0 00.3 1.8l.1.1a2 2 0 11-2.8 2.8l-.1-.1a1.7 1.7 0 00-1.8-.3 1.7 1.7 0 00-1 1.5V21a2 2 0 11-4 0v-.1a1.7 1.7 0 00-1.1-1.5 1.7 1.7 0 00-1.8.3l-.1.1a2 2 0 11-2.8-2.8l.1-.1a1.7 1.7 0 00.3-1.8 1.7 1.7 0 00-1.5-1H3a2 2 0 110-4h.1a1.7 1.7 0 001.5-1.1 1.7 1.7 0 00-.3-1.8l-.1-.1a2 2 0 112.8-2.8l.1.1a1.7 1.7 0 001.8.3H9a1.7 1.7 0 001-1.5V3a2 2 0 114 0v.1a1.7 1.7 0 001 1.5 1.7 1.7 0 001.8-.3l.1-.1a2 2 0 112.8 2.8l-.1.1a1.7 1.7 0 00-.3 1.8V9a1.7 1.7 0 001.5 1H21a2 2 0 110 4h-.1a1.7 1.7 0 00-1.5 1z\"/></svg>";
pub const ICON_GRID: &'static str = "<svg class=\"h-4 w-4\" viewBox=\"0 0 24 24\" fill=\"none\" stroke=\"currentColor\" stroke-width=\"1.7\" stroke-linecap=\"round\" stroke-linejoin=\"round\" aria-hidden=\"true\"><rect x=\"3\" y=\"3\" width=\"7\" height=\"7\" rx=\"1\"/><rect x=\"14\" y=\"3\" width=\"7\" height=\"7\" rx=\"1\"/><rect x=\"3\" y=\"14\" width=\"7\" height=\"7\" rx=\"1\"/><rect x=\"14\" y=\"14\" width=\"7\" height=\"7\" rx=\"1\"/></svg>";
pub const ICON_LIST: &'static str = "<svg class=\"h-4 w-4\" viewBox=\"0 0 24 24\" fill=\"none\" stroke=\"currentColor\" stroke-width=\"1.7\" stroke-linecap=\"round\" stroke-linejoin=\"round\" aria-hidden=\"true\"><path d=\"M8 6h13M8 12h13M8 18h13M3 6h.01M3 12h.01M3 18h.01\"/></svg>";

/// One entry of the navigation.
pub open spec fn nav_item(
    label: &str,
    hint: &str,
    href: &str,
    active: bool,
    icon_svg: &str,
) -> NavItemModel {
    NavItemModel { label: label@, hint: hint@, href: href@, active, icon_svg: icon_svg@ }
}

/// The navigation: the recipes are the active entry.
pub open spec fn nav() -> Seq<NavItemModel> {
    seq![
        nav_item("Kitchen", "Today & cooking", "/", false, ICON_CHEF),
        nav_item("Menu", "Weekly plan", "/menu", false, ICON_CALENDAR),
        nav_item("Recipes", "Your library", "/recipes", true, ICON_BOOK),
        nav_item("Shop", "Groceries & route", "/shop", false, ICON_CART),
        nav_item("Settings", "Account & billing", "/settings", false, ICON_SETTINGS),
    ]
}

/// The entries of the navigation.
pub fn nav_items() -> (res: Vec<NavItem>)
    ensures
        text::views(res@) == nav(),
{
    let mut items: Vec<NavItem> = Vec::new();
    items.push(
        NavItem {
            label: "Kitchen",
            hint: "Today & cooking",
            href: "/",
            active: false,
            icon_svg: ICON_CHEF,
        },
    );
    items.push(
        NavItem {
            label: "Menu",
            hint: "Weekly plan",
            href: "/menu",
            active: false,
            icon_svg: ICON_CALENDAR,
        },
    );
    items.push(
        NavItem {
            label: "Recipes",
            hint: "Your library",
            href: "/recipes",
            active: true,
            icon_svg: ICON_BOOK,
        },
    );
    items.push(
        NavItem {
            label: "Shop",
            hint: "Groceries & route",
            href: "/shop",
            active: false,
            icon_svg: ICON_CART,
        },
    );
    items.push(
        NavItem {
            label: "Settings",
            hint: "Account & billing",
            href: "/settings",
            active: false,
            icon_svg: ICON_SETTINGS,
        },
    );
    assert(text::views(items@) =~= nav());
    items
}

/// The letter that stands for a user of a role.
pub open spec fn initial_of(role: Role) -> Seq<char> {
    match role {
        Role::User => "U"@,
        Role::Chef => "C"@,
        Role::Premium => "P"@,
    }
}

/// The letter that stands for a user.
pub fn user_initial(user: &User) -> (res: &'static str)
    ensures
        res@ == initial_of(user@.role),
{
    match user.role {
        Role::User => "U",
        Role::Chef => "C",
        Role::Premium => "P",
    }
}

/// What the pages of a user show around their content.
pub open spec fn chrome(user: UserModel) -> ChromeModel {
    ChromeModel {
        nav_items: nav(),
        user_initial: initial_of(user.role),
        user_name: "Jenny Rosen"@,
        user_email: "jenny@imkitchen.app"@,
        user_premium: user.role == Role::Premium,
    }
}

/// What the pages of a user show around their content.
pub fn chrome_for(user: &User) -> (res: Chrome)
    ensures
        res@ == chrome(user@),
{
    let user_premium: bool = match user.role {
        Role::Premium => true,
        _ => false,
    };
    Chrome {
        nav_items: nav_items(),
        user_initial: user_initial(user),
        user_name: "Jenny Rosen",
        user_email: "jenny@imkitchen.app",
        user_premium,
    }
}

/// Whom the things of a user belong to.
pub fn owner_id(user: &User) -> (res: String)
    ensures
        res@ == user@.id,
{
    user.id.clone()
}

// ── What holds of every page ────────────────────────────────────────────

/// A request is one for a part if and only if its `Accept` header names the
/// media type of a part, wherever in it.
pub proof fn law_requests_for_parts(accept: &str, before: Seq<char>, after: Seq<char>)
    requires
        accept@ == before + TS_PARTIAL_ACCEPT@ + after,
    ensures
        partial(Some(accept)),
        !partial(None),
{
    let n = before.len() as int;
    assert(accept@.subrange(n, n + TS_PARTIAL_ACCEPT@.len()) =~= TS_PARTIAL_ACCEPT@);
    assert(text::occurs_at(accept@, TS_PARTIAL_ACCEPT@, n));
}

/// The frame of a page is that of the user's role: only a premium user is
/// shown as one. One entry of the menu is active, that of the recipes.
pub proof fn law_frames_show_the_user(user: UserModel, i: int)
    ensures
        chrome(user).user_premium <==> user.role == Role::Premium,
        user.role == Role::User ==> chrome(user).user_initial == "U"@,
        user.role == Role::Chef ==> chrome(user).user_initial == "C"@,
        user.role == Role::Premium ==> chrome(user).user_initial == "P"@,
        chrome(user).nav_items.len() == 5,
        0 <= i < 5 ==> (chrome(user).nav_items[i].active <==> chrome(user).nav_items[i].href
            == "/recipes"@),
{
    reveal_strlit("/");
    reveal_strlit("/menu");
    reveal_strlit("/recipes");
    reveal_strlit("/shop");
    reveal_strlit("/settings");
    assert("/"@.len() == 1 && "/menu"@.len() == 5 && "/recipes"@.len() == 8);
    assert("/shop"@.len() == 5 && "/settings"@.len() == 9);
}

/// A command that was carried out has no failure, and one that failed has the
/// failure that it met.
pub proof fn law_failures_are_told(done: Result<(), String>, made: Result<String, String>)
    ensures
        outcome(done) is None <==> done is Ok,
        done matches Err(err) ==> outcome(done) == Some(err@),
        made matches Ok(id) ==> id_outcome(made) == Ok::<Seq<char>, Seq<char>>(id@),
        made matches Err(err) ==> id_outcome(made) == Err::<Seq<char>, Seq<char>>(err@),
{
}

/// A model has every field of the value that it stands for.
pub proof fn law_models_have_every_field(
    nav_item: NavItem,
    chrome: Chrome,
)
    ensures
        nav_item@.label == nav_item.label@,
        nav_item@.hint == nav_item.hint@,
        nav_item@.href == nav_item.href@,
        nav_item@.active == nav_item.active,
        nav_item@.icon_svg == nav_item.icon_svg@,
        chrome@.nav_items == text::views(chrome.nav_items@),
        chrome@.user_initial == chrome.user_initial@,
        chrome@.user_name == chrome.user_name@,
        chrome@.user_email == chrome.user_email@,
        chrome@.user_premium == chrome.user_premium,
{
}

/// The model of an answer is an answer of the same kind.
pub proof fn law_answers_keep_their_kind<C: View, P: View>(
    page: P,
    address: String,
    status: u16,
    cmd: C,
    reply: Reply<P>,
)
    ensures
        Reply::Page(page)@ == ReplyModel::Page(page@),
        Reply::PageAt(page, address)@ == ReplyModel::PageAt(page@, address@),
        Reply::Unprocessable(page)@ == ReplyModel::Unprocessable(page@),
        Reply::NotFound(page)@ == ReplyModel::NotFound(page@),
        Reply::<P>::Redirect(address)@ == ReplyModel::<P::V>::Redirect(address@),
        Reply::<P>::Location(address)@ == ReplyModel::<P::V>::Location(address@),
        Reply::<P>::Plain(status, address)@ == ReplyModel::<P::V>::Plain(status, address@),
        Step::<C, P>::Run(cmd)@ == StepModel::<C::V, P::V>::Run(cmd@),
        Step::<C, P>::Reply(reply)@ == StepModel::<C::V, P::V>::Reply(reply@),
{
}

/// What the menu offers, and where each entry leads.
pub proof fn law_the_menu_is_the_same_on_every_page(user: UserModel)
    ensures
        ({
            let items = chrome(user).nav_items;
            &&& items[0].label == "Kitchen"@ && items[0].href == "/"@
            &&& items[1].label == "Menu"@ && items[1].href == "/menu"@
            &&& items[2].label == "Recipes"@ && items[2].href == "/recipes"@
            &&& items[3].label == "Shop"@ && items[3].href == "/shop"@
            &&& items[4].label == "Settings"@ && items[4].href == "/settings"@
            &&& items[0].hint == "Today & cooking"@ && items[0].icon_svg == ICON_CHEF@
            &&& items[1].hint == "Weekly plan"@ && items[1].icon_svg == ICON_CALENDAR@
            &&& items[2].hint == "Your library"@ && items[2].icon_svg == ICON_BOOK@
            &&& items[3].hint == "Groceries & route"@ && items[3].icon_svg == ICON_CART@
            &&& items[4].hint == "Account & billing"@ && items[4].icon_svg == ICON_SETTINGS@
        }),
{
}

} // verus!
