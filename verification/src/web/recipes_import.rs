//! Importing recipes, screen by screen.
//!
//! One address serves all screens: the upload screen, the review of what was
//! found, and the end. A source that is picked starts an import; the review
//! waits until its candidates are known; the picks that are confirmed are
//! imported. A file is uploaded in the same place.

use vstd::prelude::*;
use vstd::string::*;

use crate::forms;
use crate::import;
use crate::import::parser::ParsedCandidate;
use crate::import::parser::ParsedCandidateModel;
use crate::import::saga;
use crate::import::{ConfirmImport, ImportSource, RecordPreview, StartImport};
use crate::import::{
    ConfirmImportModel, ImportPreviewedModel, ImportStage, ImportStartedModel, RecipeImportModel,
    RecordPreviewModel, StartImportModel,
};
use crate::json;
use crate::projection::recipe_imports_view;
use crate::projection::recipe_imports_view::{ImportRow, ParsedCandidateView};
use crate::projection::recipe_imports_view::{ImportRowModel, ParsedCandidateViewModel};
use crate::recipe;
use crate::recipe::MealType;
use crate::text;
use crate::web;
use crate::web::auth::User;
use crate::web::auth::UserModel;
use crate::web::{Chrome, NavItem, Reply};
use crate::web::{NavItemModel, ReplyModel};

verus! {

// ── Stages ──────────────────────────────────────────────────────────────

/// The screen that an address asks for.
#[derive(Debug, Clone, Copy, PartialEq, Eq, Structural)]
pub enum Stage {
    Upload,
    Preview,
    Done,
}

impl Default for Stage {
    fn default() -> (res: Self)
        ensures
            res == Stage::Upload,
    {
        Stage::Upload
    }
}

impl Stage {
    /// The stable slug of a screen.
    pub open spec fn slug_text(self) -> Seq<char> {
        match self {
            Stage::Upload => "upload"@,
            Stage::Preview => "preview"@,
            Stage::Done => "done"@,
        }
    }

    /// Where a screen stands in the flow.
    pub open spec fn position(self) -> int {
        match self {
            Stage::Upload => 0,
            Stage::Preview => 1,
            Stage::Done => 2,
        }
    }

    pub fn slug(self) -> (res: &'static str)
        ensures
            res@ == self.slug_text(),
    {
        match self {
            Stage::Upload => "upload",
            Stage::Preview => "preview",
            Stage::Done => "done",
        }
    }

    /// The screen with the slug `s`, if there is one.
    pub fn parse(s: &str) -> (res: Option<Self>)
        ensures
            res == stage_of(s@),
    {
        if text::same_text(s, "upload") {
            Some(Stage::Upload)
        } else if text::same_text(s, "preview") {
            Some(Stage::Preview)
        } else if text::same_text(s, "done") {
            Some(Stage::Done)
        } else {
            None
        }
    }
}

/// The screen with the slug `s`, if there is one.
pub open spec fn stage_of(s: Seq<char>) -> Option<Stage> {
    if s == Stage::Upload.slug_text() {
        Some(Stage::Upload)
    } else if s == Stage::Preview.slug_text() {
        Some(Stage::Preview)
    } else if s == Stage::Done.slug_text() {
        Some(Stage::Done)
    } else {
        None
    }
}

/// Reading the slug of a screen gives the screen back, and every text that is
/// read as a screen is its slug.
pub proof fn law_stage_round_trip(stage: Stage, s: Seq<char>)
    ensures
        stage_of(stage.slug_text()) == Some(stage),
        stage_of(s) == Some(stage) ==> s == stage.slug_text(),
{
    reveal_strlit("upload");
    reveal_strlit("preview");
    reveal_strlit("done");
    assert("upload"@.len() == 6 && "preview"@.len() == 7 && "done"@.len() == 4);
}

/// The query of the screens.
#[derive(Debug, PartialEq)]
pub struct ImportQuery {
    pub stage: Stage,
    pub job: Option<String>,
}

/// What a [`ImportQuery`] holds, as mathematical values.
#[verifier::ext_equal]
pub struct ImportQueryModel {
    pub stage: Stage,
    pub job: Option<Seq<char>>,
}

impl View for ImportQuery {
    type V = ImportQueryModel;

    open spec fn view(&self) -> ImportQueryModel {
        ImportQueryModel {
            stage: self.stage,
            job: text::opt_view(self.job),
        }
    }
}

impl Clone for ImportQuery {
    fn clone(&self) -> (res: Self)
        ensures
            res@ == self@,
    {
        ImportQuery {
            stage: self.stage,
            job: self.job.clone(),
        }
    }
}

impl Default for ImportQuery {
    fn default() -> (res: Self)
        ensures
            res@ == (ImportQueryModel { stage: Stage::Upload, job: None }),
    {
        ImportQuery { stage: Stage::Upload, job: None }
    }
}

// ── What the screens show ───────────────────────────────────────────────

/// One step of the flow, as the screens show it.
#[derive(Debug, PartialEq)]
pub struct StepIndicator {
    pub label: &'static str,
    pub active: bool,
    pub done: bool,
}

/// What a [`StepIndicator`] holds, as mathematical values.
#[verifier::ext_equal]
pub struct StepIndicatorModel {
    pub label: Seq<char>,
    pub active: bool,
    pub done: bool,
}

impl View for StepIndicator {
    type V = StepIndicatorModel;

    open spec fn view(&self) -> StepIndicatorModel {
        StepIndicatorModel {
            label: self.label@,
            active: self.active,
            done: self.done,
        }
    }
}

/// The step that a screen stands for.
pub open spec fn indicator(stage: Stage, label: &str, current: Stage) -> StepIndicatorModel {
    StepIndicatorModel {
        label: label@,
        active: stage == current,
        done: stage.position() < current.position(),
    }
}

/// The steps of the flow: those before the current screen are done.
pub open spec fn indicators(current: Stage) -> Seq<StepIndicatorModel> {
    seq![
        indicator(Stage::Upload, "Source", current),
        indicator(Stage::Preview, "Review", current),
        indicator(Stage::Done, "Done", current),
    ]
}

fn position_of(stage: Stage) -> (res: u8)
    ensures
        res == stage.position(),
{
    match stage {
        Stage::Upload => 0,
        Stage::Preview => 1,
        Stage::Done => 2,
    }
}

fn indicator_of(stage: Stage, label: &'static str, current: Stage) -> (res: StepIndicator)
    ensures
        res@ == indicator(stage, label, current),
{
    StepIndicator {
        label,
        active: stage == current,
        done: position_of(stage) < position_of(current),
    }
}

/// The steps of the flow.
pub fn step_indicators(current: Stage) -> (res: Vec<StepIndicator>)
    ensures
        text::views(res@) == indicators(current),
{
    let mut out: Vec<StepIndicator> = Vec::new();
    out.push(indicator_of(Stage::Upload, "Source", current));
    out.push(indicator_of(Stage::Preview, "Review", current));
    out.push(indicator_of(Stage::Done, "Done", current));
    assert(text::views(out@) =~= indicators(current));
    out
}

/// A source that the upload screen offers.
#[derive(Debug, PartialEq)]
pub struct SourceOption {
    pub id: &'static str,
    pub name: &'static str,
    pub sub: &'static str,
    pub emoji: &'static str,
}

/// What a [`SourceOption`] holds, as mathematical values.
#[verifier::ext_equal]
pub struct SourceOptionModel {
    pub id: Seq<char>,
    pub name: Seq<char>,
    pub sub: Seq<char>,
    pub emoji: Seq<char>,
}

impl View for SourceOption {
    type V = SourceOptionModel;

    open spec fn view(&self) -> SourceOptionModel {
        SourceOptionModel {
            id: self.id@,
            name: self.name@,
            sub: self.sub@,
            emoji: self.emoji@,
        }
    }
}

/// A source that the upload screen offers.
pub open spec fn source(id: &str, name: &str, sub: &str, emoji: &str) -> SourceOptionModel {
    SourceOptionModel { id: id@, name: name@, sub: sub@, emoji: emoji@ }
}

/// The sources that the upload screen offers.
pub open spec fn sources() -> Seq<SourceOptionModel> {
    seq![
        source("url", "Paste a recipe URL", "We parse most blogs and food sites", "🌐"),
        source("photo", "Scan a cookbook page", "Photo → OCR → structured recipe", "📷"),
        source("text", "Paste plain text", "Works with any plain-text recipe", "📋"),
        source("share", "From a friend's share link", "imkitchen://share/…", "🤝"),
    ]
}

/// The sources that the upload screen offers.
pub fn source_options() -> (res: Vec<SourceOption>)
    ensures
        text::views(res@) == sources(),
{
    let mut out: Vec<SourceOption> = Vec::new();
    out.push(
        SourceOption {
            id: "url",
            name: "Paste a recipe URL",
            sub: "We parse most blogs and food sites",
            emoji: "🌐",
        },
    );
    out.push(
        SourceOption {
            id: "photo",
            name: "Scan a cookbook page",
            sub: "Photo → OCR → structured recipe",
            emoji: "📷",
        },
    );
    out.push(
        SourceOption {
            id: "text",
            name: "Paste plain text",
            sub: "Works with any plain-text recipe",
            emoji: "📋",
        },
    );
    out.push(
        SourceOption {
            id: "share",
            name: "From a friend's share link",
            sub: "imkitchen://share/…",
            emoji: "🤝",
        },
    );
    assert(text::views(out@) =~= sources());
    out
}

/// Every source that the upload screen offers is a known one.
pub proof fn law_offered_sources_are_known(i: int)
    requires
        0 <= i < sources().len(),
    ensures
        import::source_of(sources()[i].id) is Some,
{
}

/// A candidate as the review shows it.
#[derive(Debug, PartialEq)]
pub struct ParsedRecipe {
    pub id: String,
    pub title: String,
    pub emoji: String,
    pub type_slug: String,
    pub type_label: String,
    pub ingredient_count: u32,
    pub step_count: u32,
    pub warn: Option<String>,
    pub broken: bool,
    pub selected: bool,
}

/// What a [`ParsedRecipe`] holds, as mathematical values.
#[verifier::ext_equal]
pub struct ParsedRecipeModel {
    pub id: Seq<char>,
    pub title: Seq<char>,
    pub emoji: Seq<char>,
    pub type_slug: Seq<char>,
    pub type_label: Seq<char>,
    pub ingredient_count: u32,
    pub step_count: u32,
    pub warn: Option<Seq<char>>,
    pub broken: bool,
    pub selected: bool,
}

impl View for ParsedRecipe {
    type V = ParsedRecipeModel;

    open spec fn view(&self) -> ParsedRecipeModel {
        ParsedRecipeModel {
            id: self.id@,
            title: self.title@,
            emoji: self.emoji@,
            type_slug: self.type_slug@,
            type_label: self.type_label@,
            ingredient_count: self.ingredient_count,
            step_count: self.step_count,
            warn: text::opt_view(self.warn),
            broken: self.broken,
            selected: self.selected,
        }
    }
}

/// What the review shows of a candidate. An unknown meal type is shown as a
/// main course.
pub open spec fn parsed_recipe(c: ParsedCandidateViewModel) -> ParsedRecipeModel {
    ParsedRecipeModel {
        id: c.id,
        title: c.title,
        emoji: c.emoji,
        type_slug: recipe::meal_type_or_main(c.meal_type).slug_text(),
        type_label: recipe::meal_type_or_main(c.meal_type).label_text(),
        ingredient_count: c.ingredient_count,
        step_count: c.step_count,
        warn: c.warn,
        broken: c.broken,
        selected: c.selected,
    }
}

/// What the review shows of the candidates.
pub open spec fn parsed_recipes(candidates: Seq<ParsedCandidateViewModel>) -> Seq<
    ParsedRecipeModel,
> {
    candidates.map_values(|c: ParsedCandidateViewModel| parsed_recipe(c))
}

impl ParsedRecipe {
    /// What the review shows of a candidate.
    pub fn from_view(c: ParsedCandidateView) -> (res: Self)
        ensures
            res@ == parsed_recipe(c@),
    {
        let meal_type: MealType = MealType::parse_or_main(c.meal_type.as_str());
        ParsedRecipe {
            id: c.id,
            title: c.title,
            emoji: c.emoji,
            type_slug: meal_type.slug().to_owned(),
            type_label: meal_type.label().to_owned(),
            ingredient_count: c.ingredient_count,
            step_count: c.step_count,
            warn: c.warn,
            broken: c.broken,
            selected: c.selected,
        }
    }
}

fn parsed_of(row: &ImportRow) -> (res: Vec<ParsedRecipe>)
    ensures
        text::views(res@) == parsed_recipes(row@.candidates),
{
    let ghost all = parsed_recipes(row@.candidates);
    let mut out: Vec<ParsedRecipe> = Vec::new();
    let mut i: usize = 0;
    while i < row.candidates.len()
        invariant
            i <= row.candidates.len(),
            all == parsed_recipes(row@.candidates),
            text::views(out@) == all.take(i as int),
        decreases row.candidates.len() - i,
    {
        let ghost before = out@;
        let shown: ParsedRecipe = ParsedRecipe::from_view(row.candidates[i].clone());
        proof {
            text::lemma_views_push(before, shown);
            assert(all.take(i + 1) =~= all.take(i as int).push(shown@));
        }
        out.push(shown);
        i += 1;
    }
    assert(all.take(i as int) =~= all);
    out
}

/// One number of the last screen.
#[derive(Debug, PartialEq)]
pub struct ImportStat {
    pub label: &'static str,
    pub count: u32,
}

/// What a [`ImportStat`] holds, as mathematical values.
#[verifier::ext_equal]
pub struct ImportStatModel {
    pub label: Seq<char>,
    pub count: u32,
}

impl View for ImportStat {
    type V = ImportStatModel;

    open spec fn view(&self) -> ImportStatModel {
        ImportStatModel {
            label: self.label@,
            count: self.count,
        }
    }
}

#[derive(Debug, PartialEq)]
pub struct ImportPage {
    pub nav_items: Vec<NavItem>,
    pub user_initial: &'static str,
    pub user_name: &'static str,
    pub user_email: &'static str,
    pub user_premium: bool,
    /// The slug of the screen, or `failed`.
    pub stage: &'static str,
    pub steps: Vec<StepIndicator>,
    pub job_id: String,
    /// Whether the review waits for the candidates.
    pub waiting: bool,
    pub source_options: Vec<SourceOption>,
    pub source_label: String,
    pub parsed: Vec<ParsedRecipe>,
    pub valid_count: usize,
    pub warning_count: usize,
    pub imported_count: u32,
    pub stats: Vec<ImportStat>,
    pub failure_reason: String,
}

/// What a [`ImportPage`] holds, as mathematical values.
#[verifier::ext_equal]
pub struct ImportPageModel {
    pub nav_items: Seq<NavItemModel>,
    pub user_initial: Seq<char>,
    pub user_name: Seq<char>,
    pub user_email: Seq<char>,
    pub user_premium: bool,
    pub stage: Seq<char>,
    pub steps: Seq<StepIndicatorModel>,
    pub job_id: Seq<char>,
    pub waiting: bool,
    pub source_options: Seq<SourceOptionModel>,
    pub source_label: Seq<char>,
    pub parsed: Seq<ParsedRecipeModel>,
    pub valid_count: usize,
    pub warning_count: usize,
    pub imported_count: u32,
    pub stats: Seq<ImportStatModel>,
    pub failure_reason: Seq<char>,
}

impl View for ImportPage {
    type V = ImportPageModel;

    open spec fn view(&self) -> ImportPageModel {
        ImportPageModel {
            nav_items: text::views(self.nav_items@),
            user_initial: self.user_initial@,
            user_name: self.user_name@,
            user_email: self.user_email@,
            user_premium: self.user_premium,
            stage: self.stage@,
            steps: text::views(self.steps@),
            job_id: self.job_id@,
            waiting: self.waiting,
            source_options: text::views(self.source_options@),
            source_label: self.source_label@,
            parsed: text::views(self.parsed@),
            valid_count: self.valid_count,
            warning_count: self.warning_count,
            imported_count: self.imported_count,
            stats: text::views(self.stats@),
            failure_reason: self.failure_reason@,
        }
    }
}

/// The part that waits for the candidates.
#[derive(Debug, PartialEq)]
pub struct ImportWaitingFragment {
    pub job_id: String,
}

/// What a [`ImportWaitingFragment`] holds, as mathematical values.
#[verifier::ext_equal]
pub struct ImportWaitingFragmentModel {
    pub job_id: Seq<char>,
}

impl View for ImportWaitingFragment {
    type V = ImportWaitingFragmentModel;

    open spec fn view(&self) -> ImportWaitingFragmentModel {
        ImportWaitingFragmentModel {
            job_id: self.job_id@,
        }
    }
}

/// The part that shows a failure.
#[derive(Debug, PartialEq)]
pub struct ImportFailedFragment {
    pub failure_reason: String,
}

/// What a [`ImportFailedFragment`] holds, as mathematical values.
#[verifier::ext_equal]
pub struct ImportFailedFragmentModel {
    pub failure_reason: Seq<char>,
}

impl View for ImportFailedFragment {
    type V = ImportFailedFragmentModel;

    open spec fn view(&self) -> ImportFailedFragmentModel {
        ImportFailedFragmentModel {
            failure_reason: self.failure_reason@,
        }
    }
}

/// The screens of an import.
#[derive(Debug, PartialEq)]
pub enum ImportScreen {
    Page(ImportPage),
    Waiting(ImportWaitingFragment),
    Failed(ImportFailedFragment),
}

/// What a [`ImportScreen`] holds, as mathematical values.
#[verifier::ext_equal]
pub enum ImportScreenModel {
    Page(ImportPageModel),
    Waiting(ImportWaitingFragmentModel),
    Failed(ImportFailedFragmentModel),
}

impl View for ImportScreen {
    type V = ImportScreenModel;

    open spec fn view(&self) -> ImportScreenModel {
        match self {
            ImportScreen::Page(inner) => ImportScreenModel::Page(inner@),
            ImportScreen::Waiting(inner) => ImportScreenModel::Waiting(inner@),
            ImportScreen::Failed(inner) => ImportScreenModel::Failed(inner@),
        }
    }
}

// ── Building a screen ───────────────────────────────────────────────────

/// The rows that can be imported.
pub open spec fn importable() -> spec_fn(ParsedRecipeModel) -> bool {
    |r: ParsedRecipeModel| !r.broken
}

/// The rows that carry a warning.
pub open spec fn warned() -> spec_fn(ParsedRecipeModel) -> bool {
    |r: ParsedRecipeModel| r.warn is Some
}

/// Whether an import failed.
pub open spec fn has_failed(row: Option<ImportRowModel>) -> bool {
    match row {
        Some(r) => r.stage == ImportStage::Failed.slug_text(),
        None => false,
    }
}

/// How many recipes an import made.
pub open spec fn imported(row: ImportRowModel) -> nat {
    json::texts_or_none(json::text_list_of(row.recipe_ids_json)).len()
}

/// How many candidates of an import were picked.
pub open spec fn picked(row: ImportRowModel) -> nat {
    json::texts_or_none(json::text_list_of(row.picked_json)).len()
}

/// How many picks made no recipe; none where there are more recipes than
/// picks.
pub open spec fn skipped(imported_count: u32, picked_count: nat) -> u32 {
    if picked_count >= imported_count {
        (picked_count - imported_count) as u32
    } else {
        0
    }
}

/// The numbers of the last screen.
pub open spec fn done_stats(imported_count: u32, picked_count: nat) -> Seq<ImportStatModel> {
    seq![
        ImportStatModel { label: "Imported"@, count: imported_count },
        ImportStatModel { label: "Skipped"@, count: skipped(imported_count, picked_count) },
        ImportStatModel { label: "Duplicate"@, count: 0 },
    ]
}

/// What the review lists.
pub open spec fn listed(stage: Stage, row: Option<ImportRowModel>) -> Seq<ParsedRecipeModel> {
    match (row, stage) {
        (Some(r), Stage::Preview) => parsed_recipes(r.candidates),
        _ => Seq::empty(),
    }
}

/// A screen of an import.
pub open spec fn import_page_of(
    user: UserModel,
    stage: Stage,
    row: Option<ImportRowModel>,
    waiting: bool,
) -> ImportPageModel {
    let frame = web::chrome(user);
    let imported_count = match (row, stage) {
        (Some(r), Stage::Done) => imported(r) as u32,
        _ => 0u32,
    };
    let picked_count = match (row, stage) {
        (Some(r), Stage::Done) => picked(r),
        _ => 0nat,
    };
    ImportPageModel {
        nav_items: frame.nav_items,
        user_initial: frame.user_initial,
        user_name: frame.user_name,
        user_email: frame.user_email,
        user_premium: frame.user_premium,
        stage: if has_failed(row) && stage != Stage::Upload {
            "failed"@
        } else {
            stage.slug_text()
        },
        steps: indicators(stage),
        job_id: match row {
            Some(r) => r.id,
            None => Seq::empty(),
        },
        waiting,
        source_options: sources(),
        source_label: match (row, stage) {
            (Some(r), Stage::Preview) => r.source_label,
            (Some(r), Stage::Done) => r.source_label,
            _ => Seq::empty(),
        },
        parsed: listed(stage, row),
        valid_count: listed(stage, row).filter(importable()).len() as usize,
        warning_count: listed(stage, row).filter(warned()).len() as usize,
        imported_count,
        stats: if stage == Stage::Done {
            done_stats(imported_count, picked_count)
        } else {
            Seq::empty()
        },
        failure_reason: if has_failed(row) {
            row->0.failure_reason
        } else {
            Seq::empty()
        },
    }
}

fn count_importable(rows: &Vec<ParsedRecipe>) -> (res: usize)
    ensures
        res == text::views(rows@).filter(importable()).len(),
{
    let ghost all = text::views(rows@);
    let mut count: usize = 0;
    let mut i: usize = 0;
    assert(all.take(0).filter(importable()).len() == 0) by {
        reveal(Seq::filter);
    }
    while i < rows.len()
        invariant
            i <= rows.len(),
            count <= i,
            all == text::views(rows@),
            count == all.take(i as int).filter(importable()).len(),
        decreases rows.len() - i,
    {
        proof {
            text::lemma_filter_take(all, importable(), i as int);
        }
        if !rows[i].broken {
            count += 1;
        }
        i += 1;
    }
    assert(all.take(i as int) =~= all);
    count
}

fn count_warned(rows: &Vec<ParsedRecipe>) -> (res: usize)
    ensures
        res == text::views(rows@).filter(warned()).len(),
{
    let ghost all = text::views(rows@);
    let mut count: usize = 0;
    let mut i: usize = 0;
    assert(all.take(0).filter(warned()).len() == 0) by {
        reveal(Seq::filter);
    }
    while i < rows.len()
        invariant
            i <= rows.len(),
            count <= i,
            all == text::views(rows@),
            count == all.take(i as int).filter(warned()).len(),
        decreases rows.len() - i,
    {
        proof {
            text::lemma_filter_take(all, warned(), i as int);
        }
        if rows[i].warn.is_some() {
            count += 1;
        }
        i += 1;
    }
    assert(all.take(i as int) =~= all);
    count
}

fn stats_of(imported_count: u32, picked_count: usize) -> (res: Vec<ImportStat>)
    ensures
        text::views(res@) == done_stats(imported_count, picked_count as nat),
{
    let left: u32 = if picked_count >= imported_count as usize {
        (picked_count - imported_count as usize) as u32
    } else {
        0
    };
    let mut out: Vec<ImportStat> = Vec::new();
    out.push(ImportStat { label: "Imported", count: imported_count });
    out.push(ImportStat { label: "Skipped", count: left });
    out.push(ImportStat { label: "Duplicate", count: 0 });
    assert(text::views(out@) =~= done_stats(imported_count, picked_count as nat));
    out
}

/// A screen of an import. `row` is the import, if there is one; `waiting` is
/// set while its candidates are not known. A failed import shows its failure
/// on every screen but the first.
pub fn build_page(user: &User, stage: Stage, row: Option<ImportRow>, waiting: bool) -> (res:
    ImportPage)
    ensures
        res@ == import_page_of(user@, stage, text::opt_view(row), waiting),
{
    let mut parsed: Vec<ParsedRecipe> = Vec::new();
    let mut source_label: String = String::new();
    let mut imported_count: u32 = 0;
    let mut picked_count: usize = 0;
    let mut failure_reason: String = String::new();
    let mut job_id: String = String::new();
    let mut failed: bool = false;
    assert(text::views(parsed@) =~= Seq::<ParsedRecipeModel>::empty());
    match &row {
        Some(r) => {
            job_id = r.id.clone();
            if text::same_text(r.stage.as_str(), import::ImportStage::Failed.slug()) {
                failed = true;
                failure_reason = r.failure_reason.clone();
            }
            match stage {
                Stage::Preview => {
                    parsed = parsed_of(r);
                    source_label = r.source_label.clone();
                },
                Stage::Done => {
                    let recipe_ids: Vec<String> = r.recipe_ids();
                    let picked_ids: Vec<String> = r.picked_ids();
                    assert(text::views(recipe_ids@).len() == recipe_ids@.len());
                    assert(text::views(picked_ids@).len() == picked_ids@.len());
                    imported_count = recipe_ids.len() as u32;
                    picked_count = picked_ids.len();
                    source_label = r.source_label.clone();
                },
                Stage::Upload => {},
            }
        },
        None => {},
    }
    let valid_count: usize = count_importable(&parsed);
    let warning_count: usize = count_warned(&parsed);
    let shown_stage: &'static str = if failed && stage != Stage::Upload {
        "failed"
    } else {
        stage.slug()
    };
    let stats: Vec<ImportStat> = match stage {
        Stage::Done => stats_of(imported_count, picked_count),
        _ => {
            let none: Vec<ImportStat> = Vec::new();
            assert(text::views(none@) =~= Seq::<ImportStatModel>::empty());
            none
        },
    };
    let chrome: Chrome = web::chrome_for(user);
    ImportPage {
        nav_items: chrome.nav_items,
        user_initial: chrome.user_initial,
        user_name: chrome.user_name,
        user_email: chrome.user_email,
        user_premium: chrome.user_premium,
        stage: shown_stage,
        steps: step_indicators(stage),
        job_id,
        waiting,
        source_options: source_options(),
        source_label,
        parsed,
        valid_count,
        warning_count,
        imported_count,
        stats,
        failure_reason,
    }
}

// ── Asking for a screen ─────────────────────────────────────────────────

/// The address of a screen of an import.
pub open spec fn screen_address(job_id: Seq<char>, stage: &str) -> Seq<char> {
    "/recipes/import?job="@ + job_id + "&stage="@ + stage@
}

fn address_of(job_id: &str, stage: &str) -> (res: String)
    ensures
        res@ == screen_address(job_id@, stage),
{
    text::join3("/recipes/import?job=", job_id, "&stage=").concat(stage)
}

/// The import, if it is one of the user's.
pub open spec fn own_row(user: UserModel, row: Option<ImportRowModel>) -> Option<ImportRowModel> {
    match row {
        Some(r) => if r.owner_id == user.id {
            Some(r)
        } else {
            None
        },
        None => None,
    }
}

/// The answer to a request for a screen.
pub open spec fn import_reply(
    user: UserModel,
    is_partial: bool,
    q: ImportQueryModel,
    row: Option<ImportRowModel>,
) -> ReplyModel<ImportScreenModel> {
    let own = own_row(user, row);
    match own {
        Some(r) => if q.stage == Stage::Preview && r.stage == ImportStage::Started.slug_text() {
            if is_partial {
                ReplyModel::Page(
                    ImportScreenModel::Waiting(ImportWaitingFragmentModel { job_id: r.id }),
                )
            } else {
                ReplyModel::Page(
                    ImportScreenModel::Page(import_page_of(user, Stage::Preview, own, true)),
                )
            }
        } else if q.stage == Stage::Preview && r.stage == ImportStage::Failed.slug_text()
            && is_partial {
            ReplyModel::Page(
                ImportScreenModel::Failed(
                    ImportFailedFragmentModel { failure_reason: r.failure_reason },
                ),
            )
        } else if q.stage == Stage::Preview && r.stage == ImportStage::Previewed.slug_text()
            && is_partial {
            ReplyModel::Location(screen_address(r.id, "preview"))
        } else {
            ReplyModel::Page(ImportScreenModel::Page(import_page_of(user, q.stage, own, false)))
        },
        None => ReplyModel::Page(
            ImportScreenModel::Page(import_page_of(user, q.stage, None, false)),
        ),
    }
}

/// A request for a screen. `row` is the import that the query names; one that
/// is not the user's counts as none. Without an import the screen that was
/// asked for is shown with nothing on it. The review waits while the
/// candidates are not known; a request for a part is told when they are, or
/// that the import failed.
pub fn import_page(
    user: &User,
    accept: Option<&str>,
    q: &ImportQuery,
    row: Option<ImportRow>,
) -> (res: Reply<ImportScreen>)
    ensures
        res@ == import_reply(user@, web::partial(accept), q@, text::opt_view(row)),
{
    proof {
        import::law_stage_slugs_differ(ImportStage::Started, ImportStage::Failed);
        import::law_stage_slugs_differ(ImportStage::Started, ImportStage::Previewed);
        import::law_stage_slugs_differ(ImportStage::Failed, ImportStage::Previewed);
    }
    let own: Option<ImportRow> = match row {
        Some(r) => {
            if text::same_text(r.owner_id.as_str(), user.id.as_str()) {
                Some(r)
            } else {
                None
            }
        },
        None => None,
    };
    assert(text::opt_view(own) == own_row(user@, text::opt_view(row)));
    let r: ImportRow = match own {
        None => {
            return Reply::Page(ImportScreen::Page(build_page(user, q.stage, None, false)));
        },
        Some(r) => r,
    };
    if q.stage == Stage::Preview {
        let is_partial: bool = web::wants_partial(accept);
        if text::same_text(r.stage.as_str(), import::ImportStage::Started.slug()) {
            if is_partial {
                return Reply::Page(ImportScreen::Waiting(ImportWaitingFragment { job_id: r.id }));
            }
            return Reply::Page(
                ImportScreen::Page(build_page(user, Stage::Preview, Some(r), true)),
            );
        }
        if text::same_text(r.stage.as_str(), import::ImportStage::Failed.slug()) {
            if is_partial {
                return Reply::Page(
                    ImportScreen::Failed(
                        ImportFailedFragment { failure_reason: r.failure_reason },
                    ),
                );
            }
        } else if text::same_text(r.stage.as_str(), import::ImportStage::Previewed.slug()) {
            if is_partial {
                return Reply::Location(address_of(r.id.as_str(), "preview"));
            }
        }
    }
    Reply::Page(ImportScreen::Page(build_page(user, q.stage, Some(r), false)))
}

// ── Submitting a form ───────────────────────────────────────────────────

/// What a form of the import screens holds.
#[derive(Debug, PartialEq)]
pub struct SubmitForm {
    pub next_stage: Option<Stage>,
    pub source: Option<String>,
    pub source_label: Option<String>,
    pub job_id: Option<String>,
    pub picked: Vec<String>,
}

/// What a [`SubmitForm`] holds, as mathematical values.
#[verifier::ext_equal]
pub struct SubmitFormModel {
    pub next_stage: Option<Stage>,
    pub source: Option<Seq<char>>,
    pub source_label: Option<Seq<char>>,
    pub job_id: Option<Seq<char>>,
    pub picked: Seq<Seq<char>>,
}

impl View for SubmitForm {
    type V = SubmitFormModel;

    open spec fn view(&self) -> SubmitFormModel {
        SubmitFormModel {
            next_stage: self.next_stage,
            source: text::opt_view(self.source),
            source_label: text::opt_view(self.source_label),
            job_id: text::opt_view(self.job_id),
            picked: text::views(self.picked@),
        }
    }
}

impl Clone for SubmitForm {
    fn clone(&self) -> (res: Self)
        ensures
            res@ == self@,
    {
        SubmitForm {
            next_stage: self.next_stage,
            source: self.source.clone(),
            source_label: self.source_label.clone(),
            job_id: self.job_id.clone(),
            picked: text::clone_texts(&self.picked),
        }
    }
}

/// The form that a list of fields spells. Of a field that should occur once,
/// the last occurrence counts.
pub open spec fn submit_form(pairs: Seq<(Seq<char>, Seq<char>)>) -> SubmitFormModel {
    SubmitFormModel {
        next_stage: match forms::last_of(pairs, "next_stage"@) {
            Some(slug) => stage_of(slug),
            None => None,
        },
        source: forms::last_of(pairs, "source"@),
        source_label: forms::last_of(pairs, "source_label"@),
        job_id: forms::last_of(pairs, "job"@),
        picked: forms::all_of(pairs, "pick"@),
    }
}

/// The form that a list of fields spells.
pub fn submit_form_in(pairs: &Vec<(String, String)>) -> (res: SubmitForm)
    ensures
        res@ == submit_form(text::views(pairs@)),
{
    let next_stage: Option<Stage> = match forms::last_in(pairs, "next_stage") {
        Some(slug) => Stage::parse(slug.as_str()),
        None => None,
    };
    SubmitForm {
        next_stage,
        source: forms::last_in(pairs, "source"),
        source_label: forms::last_in(pairs, "source_label"),
        job_id: forms::last_in(pairs, "job"),
        picked: forms::all_in(pairs, "pick"),
    }
}

/// The form that a body spells.
pub fn parse_submit(body: &[u8]) -> (res: SubmitForm)
    ensures
        res@ == submit_form(forms::form_pairs(body@)),
{
    submit_form_in(&forms::fields(body))
}

/// What a source is called where the user gave it no name.
pub open spec fn default_label(source: ImportSource) -> Seq<char> {
    match source {
        ImportSource::Url => "Pasted URL"@,
        ImportSource::Photo => "Captured photo"@,
        ImportSource::Text => "Pasted text"@,
        ImportSource::Share => "Share link"@,
        ImportSource::File => "Uploaded file"@,
    }
}

/// What a source is called where the user gave it no name.
pub fn default_source_label(source: ImportSource) -> (res: String)
    ensures
        res@ == default_label(source),
{
    match source {
        ImportSource::Url => "Pasted URL".to_owned(),
        ImportSource::Photo => "Captured photo".to_owned(),
        ImportSource::Text => "Pasted text".to_owned(),
        ImportSource::Share => "Share link".to_owned(),
        ImportSource::File => "Uploaded file".to_owned(),
    }
}

/// What a form of the import screens leads to.
#[derive(Debug, PartialEq)]
pub enum SubmitStep {
    /// Start the import, then go on with [`start_done`].
    Start(StartImport),
    /// Confirm the picks, then go on with [`confirm_done`].
    Confirm(ConfirmImport),
    Answer(Reply<ImportScreen>),
}

/// What a [`SubmitStep`] holds, as mathematical values.
#[verifier::ext_equal]
pub enum SubmitStepModel {
    Start(StartImportModel),
    Confirm(ConfirmImportModel),
    Answer(ReplyModel<ImportScreenModel>),
}

impl View for SubmitStep {
    type V = SubmitStepModel;

    open spec fn view(&self) -> SubmitStepModel {
        match self {
            SubmitStep::Start(inner) => SubmitStepModel::Start(inner@),
            SubmitStep::Confirm(inner) => SubmitStepModel::Confirm(inner@),
            SubmitStep::Answer(inner) => SubmitStepModel::Answer(inner@),
        }
    }
}

/// What a form of the import screens leads to: a source that is known starts
/// an import; picks, of which there is at least one, are confirmed for the
/// job that is named; anything else leads to the first screen.
pub open spec fn submit_step(user: UserModel, form: SubmitFormModel) -> SubmitStepModel {
    match form.next_stage {
        Some(Stage::Preview) => match form.source {
            Some(slug) => match import::source_of(slug) {
                Some(known) => SubmitStepModel::Start(
                    StartImportModel {
                        owner_id: user.id,
                        source: known,
                        source_label: forms::text_or(form.source_label, default_label(known)),
                    },
                ),
                None => SubmitStepModel::Answer(ReplyModel::Plain(400, "unknown source"@)),
            },
            None => SubmitStepModel::Answer(ReplyModel::Plain(400, "unknown source"@)),
        },
        Some(Stage::Done) => match form.job_id {
            None => SubmitStepModel::Answer(ReplyModel::Plain(400, "missing job id"@)),
            Some(job_id) => if form.picked.len() == 0 {
                SubmitStepModel::Answer(ReplyModel::Plain(400, "no recipes picked"@))
            } else {
                SubmitStepModel::Confirm(
                    ConfirmImportModel { import_id: job_id, picked_ids: form.picked },
                )
            },
        },
        _ => SubmitStepModel::Answer(ReplyModel::Redirect("/recipes/import"@)),
    }
}

/// A form of the import screens, with the fields that it holds.
pub fn submit_urlencoded_of(user: &User, form: SubmitForm) -> (res: SubmitStep)
    ensures
        res@ == submit_step(user@, form@),
{
    match form.next_stage {
        Some(Stage::Preview) => {
            let known: Option<ImportSource> = match &form.source {
                Some(slug) => ImportSource::parse(slug.as_str()),
                None => None,
            };
            match known {
                None => SubmitStep::Answer(Reply::Plain(400, "unknown source".to_owned())),
                Some(source) => {
                    let source_label: String = match form.source_label {
                        Some(label) => label,
                        None => default_source_label(source),
                    };
                    SubmitStep::Start(
                        StartImport { owner_id: web::owner_id(user), source, source_label },
                    )
                },
            }
        },
        Some(Stage::Done) => match form.job_id {
            None => SubmitStep::Answer(Reply::Plain(400, "missing job id".to_owned())),
            Some(job_id) => {
                if form.picked.len() == 0 {
                    return SubmitStep::Answer(Reply::Plain(400, "no recipes picked".to_owned()));
                }
                SubmitStep::Confirm(ConfirmImport { import_id: job_id, picked_ids: form.picked })
            },
        },
        _ => SubmitStep::Answer(Reply::Redirect("/recipes/import".to_owned())),
    }
}

/// A form of the import screens is submitted.
pub fn submit_urlencoded(user: &User, body: &[u8]) -> (res: SubmitStep)
    ensures
        res@ == submit_step(user@, submit_form(forms::form_pairs(body@))),
{
    submit_urlencoded_of(user, parse_submit(body))
}

/// The answer to a start that was carried out.
pub open spec fn start_answer(started: Result<Seq<char>, Seq<char>>) -> ReplyModel<
    ImportScreenModel,
> {
    match started {
        Ok(id) => ReplyModel::Redirect(screen_address(id, "preview")),
        Err(_) => ReplyModel::Plain(500, "internal error"@),
    }
}

/// The answer once an import is started: its review, which waits.
pub fn start_done(started: Result<String, String>) -> (res: Reply<ImportScreen>)
    ensures
        res@ == start_answer(web::id_outcome(started)),
{
    match started {
        Ok(id) => Reply::Redirect(address_of(id.as_str(), "preview")),
        Err(_) => Reply::Plain(500, "internal error".to_owned()),
    }
}

/// The answer to a confirmation that was carried out, with what went wrong.
pub open spec fn confirm_answer(job_id: Seq<char>, failure: Option<Seq<char>>) -> ReplyModel<
    ImportScreenModel,
> {
    match failure {
        None => ReplyModel::Redirect(screen_address(job_id, "done")),
        Some(_) => ReplyModel::Plain(500, "internal error"@),
    }
}

/// The answer once the picks of an import are confirmed: its last screen.
pub fn confirm_done(job_id: &str, confirmed: Result<(), String>) -> (res: Reply<ImportScreen>)
    ensures
        res@ == confirm_answer(job_id@, web::outcome(confirmed)),
{
    match confirmed {
        Ok(_) => Reply::Redirect(address_of(job_id, "done")),
        Err(_) => Reply::Plain(500, "internal error".to_owned()),
    }
}

/// What a form of the import screens asks for is in order as a command: a
/// confirmation that is carried out picks something, and a start belongs to
/// the user.
pub proof fn law_submitted_commands_are_in_order(
    user: UserModel,
    form: SubmitFormModel,
    version: u16,
)
    ensures
        submit_step(user, form) matches SubmitStepModel::Confirm(cmd) ==> import::confirmed(
            cmd,
            version,
        ) is Ok,
        submit_step(user, form) matches SubmitStepModel::Start(cmd) ==> cmd.owner_id == user.id
            && (!text::blank(user.id) ==> import::started(cmd) is Ok),
{
}

// ── Uploading a file ────────────────────────────────────────────────────

/// Whether a `Content-Type` header says that the body comes in parts.
pub open spec fn in_parts(content_type: Option<&str>) -> bool {
    match content_type {
        Some(value) => "multipart/form-data"@.is_prefix_of(value@),
        None => false,
    }
}

/// Whether the body of a request comes in parts, as a file upload does;
/// `content_type` is its `Content-Type` header.
pub fn is_multipart(content_type: Option<&str>) -> (res: bool)
    ensures
        res == in_parts(content_type),
{
    match content_type {
        Some(value) => text::begins_with(value, "multipart/form-data"),
        None => false,
    }
}

/// The part of a media type before its parameters.
pub open spec fn essence(content_type: Seq<char>) -> Seq<char>
    decreases content_type.len(),
{
    if content_type.len() == 0 || content_type[0] == ';' {
        Seq::empty()
    } else {
        seq![content_type[0]] + essence(content_type.drop_first())
    }
}

/// Whether a file counts as JSON: its name ends in `.json`, in whatever case,
/// or its media type, without parameters, says so.
pub open spec fn acceptable(file_name: Seq<char>, content_type: Seq<char>) -> bool {
    let media_type = text::trimmed(essence(content_type));
    ||| ".json"@.is_suffix_of(text::ascii_lowered(file_name))
    ||| media_type == "application/json"@
    ||| media_type == "text/json"@
}

proof fn lemma_essence(s: Seq<char>, head: Seq<char>)
    requires
        head.is_prefix_of(s),
        !head.contains(';'),
        s.len() == head.len() || s[head.len() as int] == ';',
    ensures
        essence(s) == head,
    decreases s.len(),
{
    if head.len() == 0 {
        assert(essence(s) =~= head);
    } else {
        assert(s[0] == head[0]);
        assert(head.contains(head[0]));
        let rest = head.drop_first();
        let tail = s.drop_first();
        assert(rest =~= tail.subrange(0, rest.len() as int)) by {
            assert(head =~= s.subrange(0, head.len() as int));
        }
        assert forall|i: int| 0 <= i < rest.len() implies rest[i] != ';' by {
            assert(rest[i] == head[i + 1]);
            assert(head.contains(head[i + 1]));
        }
        lemma_essence(tail, rest);
        assert(seq![s[0]] + rest =~= head);
    }
}

fn essence_of(content_type: &str) -> (res: &str)
    ensures
        res@ == essence(content_type@),
{
    match text::split_first(content_type, ';') {
        Some(parts) => {
            proof {
                assert(parts.0@ =~= content_type@.subrange(0, parts.0@.len() as int));
                lemma_essence(content_type@, parts.0@);
            }
            parts.0
        },
        None => {
            proof {
                lemma_essence(content_type@, content_type@);
            }
            content_type
        },
    }
}

proof fn lemma_json_suffix(s: Seq<char>)
    requires
        ".json"@.is_suffix_of(s),
    ensures
        s.len() >= 5,
        s[s.len() - 5] == '.',
        s[s.len() - 4] == 'j',
        s[s.len() - 3] == 's',
        s[s.len() - 2] == 'o',
        s[s.len() - 1] == 'n',
{
    reveal_strlit(".json");
    let end = s.subrange(s.len() - 5, s.len() as int);
    assert(end == ".json"@);
    assert(end[0] == '.' && end[1] == 'j' && end[2] == 's' && end[3] == 'o' && end[4] == 'n');
}

proof fn lemma_extension(name: Seq<char>, head: Seq<char>, ext: Seq<char>)
    requires
        name == head.push('.') + ext,
        !ext.contains('.'),
    ensures
        ".json"@.is_suffix_of(text::ascii_lowered(name)) <==> text::ascii_lowered(ext)
            == "json"@,
{
    reveal_strlit(".json");
    reveal_strlit("json");
    let low = text::ascii_lowered(name);
    let low_ext = text::ascii_lowered(ext);
    assert(low.len() == name.len());
    assert(low.skip(head.len() as int + 1) =~= low_ext);
    assert(low[head.len() as int] == '.');
    if low_ext == "json"@ {
        assert(low.skip(low.len() - 5) =~= ".json"@) by {
            assert(low.len() - 5 == head.len());
            assert forall|i: int| 0 <= i < 5 implies low[head.len() + i] == ".json"@[i] by {
                if i > 0 {
                    assert(low[head.len() + i] == low_ext[i - 1]);
                }
            }
        }
        assert(low.subrange(low.len() - 5, low.len() as int) =~= ".json"@);
    }
    if ".json"@.is_suffix_of(low) {
        let k = low.len() - 5;
        lemma_json_suffix(low);
        assert(low[k] == text::ascii_lower(name[k]));
        assert(name[k] == '.');
        if k > head.len() {
            assert(name[k] == ext[k - head.len() - 1]);
            assert(ext.contains('.'));
        }
        if k < head.len() {
            assert(low[head.len() as int] == '.');
        }
        assert(low_ext =~= "json"@) by {
            assert(k == head.len());
            assert forall|i: int| 0 <= i < 4 implies low_ext[i] == "json"@[i] by {
                assert(low_ext[i] == low[k + 1 + i]);
            }
        }
    }
}

/// Whether an uploaded file is taken: its name or its media type has to say
/// that it is JSON.
pub fn is_acceptable_json(file_name: &str, content_type: &str) -> (res: bool)
    ensures
        res == acceptable(file_name@, content_type@),
{
    let ext_ok: bool = match text::split_last(file_name, '.') {
        Some(parts) => {
            proof {
                lemma_extension(file_name@, parts.0@, parts.1@);
            }
            text::lowers_to(parts.1, "json")
        },
        None => {
            proof {
                reveal_strlit(".json");
                let low = text::ascii_lowered(file_name@);
                if ".json"@.is_suffix_of(low) {
                    let k = low.len() - 5;
                    lemma_json_suffix(low);
                    assert(low[k] == text::ascii_lower(file_name@[k]));
                    assert(file_name@[k] == '.');
                }
            }
            false
        },
    };
    let media_type: &str = text::trim(essence_of(content_type));
    ext_ok || text::same_text(media_type, "application/json") || text::same_text(
        media_type,
        "text/json",
    )
}

/// What is answered to an upload that fails: the failure, in place of the
/// first screen. The message also stands where the name of the source does.
pub open spec fn upload_refusal(user: UserModel, message: Seq<char>) -> ReplyModel<
    ImportScreenModel,
> {
    ReplyModel::Unprocessable(
        ImportScreenModel::Page(
            ImportPageModel {
                failure_reason: message,
                source_label: message,
                stage: "failed"@,
                ..import_page_of(user, Stage::Upload, None, false)
            },
        ),
    )
}

/// What is answered to an upload that fails.
pub fn import_error_response(user: &User, message: &str) -> (res: Reply<ImportScreen>)
    ensures
        res@ == upload_refusal(user@, message@),
{
    let mut page: ImportPage = build_page(user, Stage::Upload, None, false);
    page.failure_reason = message.to_owned();
    page.source_label = message.to_owned();
    page.stage = "failed";
    Reply::Unprocessable(ImportScreen::Page(page))
}

/// What is known of a field of an upload before its content is read.
#[derive(Debug, PartialEq)]
pub struct FieldHead {
    pub name: Option<String>,
    pub file_name: Option<String>,
    pub content_type: Option<String>,
}

/// What a [`FieldHead`] holds, as mathematical values.
#[verifier::ext_equal]
pub struct FieldHeadModel {
    pub name: Option<Seq<char>>,
    pub file_name: Option<Seq<char>>,
    pub content_type: Option<Seq<char>>,
}

impl View for FieldHead {
    type V = FieldHeadModel;

    open spec fn view(&self) -> FieldHeadModel {
        FieldHeadModel {
            name: text::opt_view(self.name),
            file_name: text::opt_view(self.file_name),
            content_type: text::opt_view(self.content_type),
        }
    }
}

impl Clone for FieldHead {
    fn clone(&self) -> (res: Self)
        ensures
            res@ == self@,
    {
        FieldHead {
            name: self.name.clone(),
            file_name: self.file_name.clone(),
            content_type: self.content_type.clone(),
        }
    }
}

/// The name and the media type of an uploaded file.
#[derive(Debug, PartialEq)]
pub struct UploadHead {
    pub file_name: String,
    pub content_type: String,
}

/// What a [`UploadHead`] holds, as mathematical values.
#[verifier::ext_equal]
pub struct UploadHeadModel {
    pub file_name: Seq<char>,
    pub content_type: Seq<char>,
}

impl View for UploadHead {
    type V = UploadHeadModel;

    open spec fn view(&self) -> UploadHeadModel {
        UploadHeadModel {
            file_name: self.file_name@,
            content_type: self.content_type@,
        }
    }
}

impl Clone for UploadHead {
    fn clone(&self) -> (res: Self)
        ensures
            res@ == self@,
    {
        UploadHead {
            file_name: self.file_name.clone(),
            content_type: self.content_type.clone(),
        }
    }
}

/// An uploaded file.
#[derive(Debug, PartialEq)]
pub struct Upload {
    pub file_name: String,
    pub content_type: String,
    pub bytes: Vec<u8>,
}

/// What a [`Upload`] holds, as mathematical values.
#[verifier::ext_equal]
pub struct UploadModel {
    pub file_name: Seq<char>,
    pub content_type: Seq<char>,
    pub bytes: Seq<u8>,
}

impl View for Upload {
    type V = UploadModel;

    open spec fn view(&self) -> UploadModel {
        UploadModel {
            file_name: self.file_name@,
            content_type: self.content_type@,
            bytes: self.bytes@,
        }
    }
}

/// What comes next in an upload.
#[derive(Debug, PartialEq)]
pub enum UploadStep {
    /// Read the next field, then go on with [`on_field`].
    ReadField,
    /// Read the content of the field, then go on with [`on_content`].
    ReadContent(UploadHead),
    /// Parse the file, then go on with [`on_parsed`].
    Parse(Upload),
    /// Start the import, then go on with [`on_started`].
    Start(StartImport, Vec<ParsedCandidate>),
    /// Record the candidates. Whatever comes of it, [`on_recorded`] is next.
    Record(RecordPreview),
    Answer(Reply<ImportScreen>),
}

/// What a [`UploadStep`] holds, as mathematical values.
#[verifier::ext_equal]
pub enum UploadStepModel {
    ReadField,
    ReadContent(UploadHeadModel),
    Parse(UploadModel),
    Start(StartImportModel, Seq<ParsedCandidateModel>),
    Record(RecordPreviewModel),
    Answer(ReplyModel<ImportScreenModel>),
}

impl View for UploadStep {
    type V = UploadStepModel;

    open spec fn view(&self) -> UploadStepModel {
        match self {
            UploadStep::ReadField => UploadStepModel::ReadField,
            UploadStep::ReadContent(inner) => UploadStepModel::ReadContent(inner@),
            UploadStep::Parse(inner) => UploadStepModel::Parse(inner@),
            UploadStep::Start(first, second) => UploadStepModel::Start(first@, text::views(second@)),
            UploadStep::Record(inner) => UploadStepModel::Record(inner@),
            UploadStep::Answer(inner) => UploadStepModel::Answer(inner@),
        }
    }
}

/// What follows once it is known whether the body could be taken apart.
pub open spec fn after_opened(user: UserModel, opened: bool) -> UploadStepModel {
    if opened {
        UploadStepModel::ReadField
    } else {
        UploadStepModel::Answer(upload_refusal(user, "We couldn't read that upload."@))
    }
}

/// Whether the body could be taken apart is known.
pub fn on_opened(user: &User, opened: bool) -> (res: UploadStep)
    ensures
        res@ == after_opened(user@, opened),
{
    if opened {
        UploadStep::ReadField
    } else {
        UploadStep::Answer(import_error_response(user, "We couldn't read that upload."))
    }
}

/// What came of reading a field, as mathematical values.
pub open spec fn field_result(field: Result<Option<FieldHead>, String>) -> Result<
    Option<FieldHeadModel>,
    Seq<char>,
> {
    match field {
        Ok(head) => Ok(text::opt_view(head)),
        Err(err) => Err(err@),
    }
}

/// What follows a field.
pub open spec fn after_field(
    user: UserModel,
    field: Result<Option<FieldHeadModel>, Seq<char>>,
) -> UploadStepModel {
    match field {
        Err(_) => UploadStepModel::Answer(upload_refusal(user, "That upload was malformed."@)),
        Ok(None) => UploadStepModel::Answer(
            upload_refusal(user, "Pick a file before uploading."@),
        ),
        Ok(Some(head)) => if head.name == Some("upload"@) {
            UploadStepModel::ReadContent(
                UploadHeadModel {
                    file_name: forms::text_or(head.file_name, "upload.json"@),
                    content_type: forms::text_or(head.content_type, Seq::empty()),
                },
            )
        } else {
            UploadStepModel::ReadField
        },
    }
}

/// A field is there, or there are no more. The first field named `upload` is
/// the file; others are passed over.
pub fn on_field(user: &User, field: Result<Option<FieldHead>, String>) -> (res: UploadStep)
    ensures
        res@ == after_field(user@, field_result(field)),
{
    match field {
        Err(_) => UploadStep::Answer(import_error_response(user, "That upload was malformed.")),
        Ok(None) => UploadStep::Answer(
            import_error_response(user, "Pick a file before uploading."),
        ),
        Ok(Some(head)) => {
            let wanted: bool = match &head.name {
                Some(name) => text::same_text(name.as_str(), "upload"),
                None => false,
            };
            if !wanted {
                return UploadStep::ReadField;
            }
            let content_type: String = match head.content_type {
                Some(given) => given,
                None => String::new(),
            };
            UploadStep::ReadContent(
                UploadHead {
                    file_name: forms::take_or(head.file_name, "upload.json"),
                    content_type,
                },
            )
        },
    }
}

/// What came of reading the content of a file, as mathematical values.
pub open spec fn content_result(bytes: Result<Vec<u8>, String>) -> Result<Seq<u8>, Seq<char>> {
    match bytes {
        Ok(content) => Ok(content@),
        Err(err) => Err(err@),
    }
}

/// What follows the content of a file.
pub open spec fn after_content(
    user: UserModel,
    head: UploadHeadModel,
    content: Result<Seq<u8>, Seq<char>>,
) -> UploadStepModel {
    match content {
        Err(_) => UploadStepModel::Answer(upload_refusal(user, "Couldn't read that file."@)),
        Ok(bytes) => if bytes.len() == 0 {
            UploadStepModel::Answer(upload_refusal(user, "Pick a file before uploading."@))
        } else if !acceptable(head.file_name, head.content_type) {
            UploadStepModel::Answer(
                upload_refusal(user, "Only .json recipe files are supported right now."@),
            )
        } else {
            UploadStepModel::Parse(
                UploadModel {
                    file_name: head.file_name,
                    content_type: head.content_type,
                    bytes,
                },
            )
        },
    }
}

/// The content of the file is there: a file that is not empty and counts as
/// JSON is parsed.
pub fn on_content(user: &User, head: UploadHead, bytes: Result<Vec<u8>, String>) -> (res:
    UploadStep)
    ensures
        res@ == after_content(user@, head@, content_result(bytes)),
{
    match bytes {
        Err(_) => UploadStep::Answer(import_error_response(user, "Couldn't read that file.")),
        Ok(content) => {
            if content.len() == 0 {
                return UploadStep::Answer(
                    import_error_response(user, "Pick a file before uploading."),
                );
            }
            if !is_acceptable_json(head.file_name.as_str(), head.content_type.as_str()) {
                return UploadStep::Answer(
                    import_error_response(user, "Only .json recipe files are supported right now."),
                );
            }
            UploadStep::Parse(
                Upload {
                    file_name: head.file_name,
                    content_type: head.content_type,
                    bytes: content,
                },
            )
        },
    }
}

/// What follows the parsing of a file.
pub open spec fn after_parsed(
    user: UserModel,
    file_name: Seq<char>,
    parsed: Result<Seq<ParsedCandidateModel>, Seq<char>>,
) -> UploadStepModel {
    match parsed {
        Err(err) => UploadStepModel::Answer(upload_refusal(user, "Couldn't parse: "@ + err)),
        Ok(candidates) => if candidates.len() == 0 {
            UploadStepModel::Answer(upload_refusal(user, "No recipes found in the file."@))
        } else {
            UploadStepModel::Start(
                StartImportModel {
                    owner_id: user.id,
                    source: ImportSource::File,
                    source_label: file_name,
                },
                candidates,
            )
        },
    }
}

/// The file is parsed: if it holds anything, an import is started, under the
/// name of the file.
pub fn on_parsed(
    user: &User,
    file_name: String,
    parsed: Result<Vec<ParsedCandidate>, String>,
) -> (res: UploadStep)
    ensures
        res@ == after_parsed(user@, file_name@, saga::parse_result(parsed)),
{
    match parsed {
        Err(err) => {
            let message: String = text::join2("Couldn't parse: ", err.as_str());
            UploadStep::Answer(import_error_response(user, message.as_str()))
        },
        Ok(candidates) => {
            if candidates.len() == 0 {
                return UploadStep::Answer(
                    import_error_response(user, "No recipes found in the file."),
                );
            }
            UploadStep::Start(
                StartImport {
                    owner_id: web::owner_id(user),
                    source: ImportSource::File,
                    source_label: file_name,
                },
                candidates,
            )
        },
    }
}

/// What follows the start of an import with the candidates of a file.
pub open spec fn after_started(
    user: UserModel,
    candidates: Seq<ParsedCandidateModel>,
    started: Result<Seq<char>, Seq<char>>,
) -> UploadStepModel {
    match started {
        Err(_) => UploadStepModel::Answer(upload_refusal(user, "Couldn't start the import."@)),
        Ok(id) => UploadStepModel::Record(RecordPreviewModel { import_id: id, candidates }),
    }
}

/// The import is started: the candidates of the file are recorded with it.
pub fn on_started(
    user: &User,
    candidates: Vec<ParsedCandidate>,
    started: Result<String, String>,
) -> (res: UploadStep)
    ensures
        res@ == after_started(user@, text::views(candidates@), web::id_outcome(started)),
{
    match started {
        Err(_) => UploadStep::Answer(import_error_response(user, "Couldn't start the import.")),
        Ok(import_id) => UploadStep::Record(RecordPreview { import_id, candidates }),
    }
}

/// What follows recording the candidates.
pub open spec fn after_recorded(import_id: Seq<char>) -> UploadStepModel {
    UploadStepModel::Answer(ReplyModel::Redirect(screen_address(import_id, "preview")))
}

/// The candidates are recorded, or could not be: the review is next either
/// way, since the import finds its candidates by itself if need be.
pub fn on_recorded(import_id: &str) -> (res: UploadStep)
    ensures
        res@ == after_recorded(import_id@),
{
    UploadStep::Answer(Reply::Redirect(address_of(import_id, "preview")))
}

// ── What holds of the screens ───────────────────────────────────────────

/// An import of someone else's shows nothing: the answer is the same as if
/// there were none, the screen that was asked for with nothing on it.
pub proof fn law_imports_are_private(
    user: UserModel,
    is_partial: bool,
    q: ImportQueryModel,
    row: ImportRowModel,
)
    requires
        row.owner_id != user.id,
    ensures
        import_reply(user, is_partial, q, Some(row)) == import_reply(user, is_partial, q, None),
        import_reply(user, is_partial, q, Some(row)) == ReplyModel::Page(
            ImportScreenModel::Page(import_page_of(user, q.stage, None, false)),
        ),
{
}

/// A screen waits only for an import of the user's own whose candidates are
/// not known yet.
pub proof fn law_waits_only_while_started(
    user: UserModel,
    is_partial: bool,
    q: ImportQueryModel,
    row: Option<ImportRowModel>,
)
    ensures
        match import_reply(user, is_partial, q, row) {
            ReplyModel::Page(ImportScreenModel::Waiting(_)) => row matches Some(r) && r.stage
                == ImportStage::Started.slug_text() && q.stage == Stage::Preview,
            ReplyModel::Page(ImportScreenModel::Page(page)) => page.waiting ==> (
            row matches Some(r) && r.stage == ImportStage::Started.slug_text() && q.stage
                == Stage::Preview),
            _ => true,
        },
{
}

/// On the last screen, what was imported and what was skipped make up what
/// was picked.
pub proof fn law_done_numbers_add_up(imported_count: u32, picked_count: nat)
    requires
        imported_count <= picked_count <= u32::MAX,
    ensures
        done_stats(imported_count, picked_count)[0].count + done_stats(
            imported_count,
            picked_count,
        )[1].count == picked_count,
{
}

/// An upload never starts an import without candidates, nor for anyone but
/// the user.
pub proof fn law_uploads_start_with_candidates(
    user: UserModel,
    file_name: Seq<char>,
    parsed: Result<Seq<ParsedCandidateModel>, Seq<char>>,
)
    ensures
        after_parsed(user, file_name, parsed) matches UploadStepModel::Start(cmd, candidates)
            ==> candidates.len() > 0 && cmd.owner_id == user.id && cmd.source
            == ImportSource::File,
{
}

/// What an upload records: the start of the import, and the candidates of the
/// file.
pub open spec fn upload_log(
    user: UserModel,
    file_name: Seq<char>,
    candidates: Seq<ParsedCandidateModel>,
) -> Seq<RecipeImportModel> {
    seq![
        RecipeImportModel::ImportStarted(upload_start(user, file_name)),
        RecipeImportModel::ImportPreviewed(ImportPreviewedModel { candidates }),
    ]
}

/// The start of an upload.
pub open spec fn upload_start(user: UserModel, file_name: Seq<char>) -> ImportStartedModel {
    ImportStartedModel {
        owner_id: user.id,
        source: ImportSource::File.slug_text(),
        source_label: file_name,
    }
}

/// The steps of an upload lead to the start of an import of the user's, under
/// the name of the file, and to recording the candidates of the file with it.
pub proof fn law_uploads_record_the_file(
    user: UserModel,
    file_name: Seq<char>,
    candidates: Seq<ParsedCandidateModel>,
)
    requires
        !text::blank(user.id),
        candidates.len() > 0,
    ensures
        after_parsed(user, file_name, Ok(candidates)) matches UploadStepModel::Start(cmd, recorded)
            && recorded == candidates && (import::started(cmd) matches Ok(create) && create.event
            == upload_start(user, file_name)),
{
}

/// An upload ends with the candidates of its file, whatever else parsing the
/// source of the import gives: the import knows them, and the review lists
/// them and nothing else.
pub proof fn law_uploads_keep_the_files_candidates(
    user: UserModel,
    file_name: Seq<char>,
    candidates: Seq<ParsedCandidateModel>,
    id: Seq<char>,
    times: Seq<u64>,
    parsed: Result<Seq<ParsedCandidateModel>, Seq<char>>,
)
    requires
        candidates.len() > 0,
        times.len() == 2,
    ensures
        saga::log_after_start(
            upload_log(user, file_name, candidates),
            id,
            upload_start(user, file_name),
            parsed,
        ) == upload_log(user, file_name, candidates),
        saga::view_after(upload_log(user, file_name, candidates)) matches Some(view)
            && view.candidates == candidates && view.owner_id == user.id,
        recipe_imports_view::row_after(
            id,
            upload_log(user, file_name, candidates),
            times,
        ) matches Some(row) && row.candidates == recipe_imports_view::candidate_views(candidates)
            && row.source_label == file_name && import_reply(
            user,
            false,
            ImportQueryModel { stage: Stage::Preview, job: Some(id) },
            Some(row),
        ) == ReplyModel::Page(
            ImportScreenModel::Page(import_page_of(user, Stage::Preview, Some(row), false)),
        ) && import_page_of(user, Stage::Preview, Some(row), false).parsed == parsed_recipes(
            recipe_imports_view::candidate_views(candidates),
        ),
{
    let log = upload_log(user, file_name, candidates);
    let started = upload_start(user, file_name);
    import::law_source_slug_round_trip(ImportSource::File, started.source);
    import::law_stage_slugs_differ(ImportStage::Started, ImportStage::Previewed);
    assert(log.drop_last() =~= seq![RecipeImportModel::ImportStarted(started)]);
    assert(log.drop_last().drop_last() =~= Seq::<RecipeImportModel>::empty());
    reveal_with_fuel(saga::view_after, 3);
    reveal_with_fuel(recipe_imports_view::row_after, 3);
    saga::law_recorded_candidates_stay(log, id, started, parsed);
}

/// An upload ends with the candidates of its file also where the source of
/// the import was parsed before they were recorded.
pub proof fn law_uploads_replace_what_was_parsed(
    user: UserModel,
    file_name: Seq<char>,
    candidates: Seq<ParsedCandidateModel>,
    id: Seq<char>,
    parsed: Result<Seq<ParsedCandidateModel>, Seq<char>>,
)
    ensures
        saga::view_after(
            saga::log_after_start(
                seq![RecipeImportModel::ImportStarted(upload_start(user, file_name))],
                id,
                upload_start(user, file_name),
                parsed,
            ).push(RecipeImportModel::ImportPreviewed(ImportPreviewedModel { candidates })),
        ) matches Some(view) && view.candidates == candidates,
{
    let before = saga::log_after_start(
        seq![RecipeImportModel::ImportStarted(upload_start(user, file_name))],
        id,
        upload_start(user, file_name),
        parsed,
    );
    let recorded = RecipeImportModel::ImportPreviewed(ImportPreviewedModel { candidates });
    assert(before.push(recorded).drop_last() =~= before);
}

// ── What each screen and each step does ─────────────────────────────────

/// A form of the import screens is read from the last field of each name; the
/// stage is the one whose slug the field holds.
pub proof fn law_import_forms_are_read(
    pairs: Seq<(Seq<char>, Seq<char>)>,
    i: int,
    stage: Stage,
)
    ensures
        forms::is_last(pairs, "source"@, i) ==> submit_form(pairs).source == Some(pairs[i].1),
        forms::is_absent(pairs, "source"@) ==> submit_form(pairs).source is None,
        forms::is_last(pairs, "source_label"@, i) ==> submit_form(pairs).source_label == Some(pairs[i].1),
        forms::is_absent(pairs, "source_label"@) ==> submit_form(pairs).source_label is None,
        forms::is_last(pairs, "job"@, i) ==> submit_form(pairs).job_id == Some(pairs[i].1),
        forms::is_absent(pairs, "job"@) ==> submit_form(pairs).job_id is None,
        forms::is_last(pairs, "next_stage"@, i) && pairs[i].1 == stage.slug_text() ==> submit_form(
            pairs,
        ).next_stage == Some(stage),
        forms::is_last(pairs, "next_stage"@, i) && stage_of(pairs[i].1) is None ==> submit_form(
            pairs,
        ).next_stage is None,
        forms::is_absent(pairs, "next_stage"@) ==> submit_form(pairs).next_stage is None,
{
    law_stage_round_trip(stage, Seq::empty());
    if forms::is_last(pairs, "source"@, i) {
        forms::law_last_value(pairs, "source"@, i);
    }
    if forms::is_absent(pairs, "source"@) {
        forms::law_no_value(pairs, "source"@);
    }
    if forms::is_last(pairs, "source_label"@, i) {
        forms::law_last_value(pairs, "source_label"@, i);
    }
    if forms::is_absent(pairs, "source_label"@) {
        forms::law_no_value(pairs, "source_label"@);
    }
    if forms::is_last(pairs, "job"@, i) {
        forms::law_last_value(pairs, "job"@, i);
    }
    if forms::is_absent(pairs, "job"@) {
        forms::law_no_value(pairs, "job"@);
    }
    if forms::is_last(pairs, "next_stage"@, i) {
        forms::law_last_value(pairs, "next_stage"@, i);
    }
    if forms::is_absent(pairs, "next_stage"@) {
        forms::law_no_value(pairs, "next_stage"@);
    }
}

/// A pick adds its id at the end of the picks, and no other field changes
/// them.
pub proof fn law_picks_are_read(
    pairs: Seq<(Seq<char>, Seq<char>)>,
    pair: (Seq<char>, Seq<char>),
)
    ensures
        submit_form(Seq::<(Seq<char>, Seq<char>)>::empty()).picked.len() == 0,
        pair.0 == "pick"@ ==> submit_form(pairs.push(pair)).picked == submit_form(
            pairs,
        ).picked.push(pair.1),
        pair.0 != "pick"@ ==> submit_form(pairs.push(pair)).picked == submit_form(pairs).picked,
{
    assert(pairs.push(pair).drop_last() =~= pairs);
}

/// A form that goes on to the review starts an import of the user's from the
/// source that it names, under the label that it gives; one that names no
/// known source is refused. Without a label it goes under that of the source.
pub proof fn law_starts_are_read(user: UserModel, form: SubmitFormModel, source: ImportSource)
    requires
        form.next_stage == Some(Stage::Preview),
    ensures
        form.source == Some(source.slug_text()) ==> (submit_step(user, form)
            matches SubmitStepModel::Start(cmd) && cmd.owner_id == user.id && cmd.source == source
            && (form.source_label matches Some(label) ==> cmd.source_label == label) && (
        form.source_label is None ==> cmd.source_label == match source {
            ImportSource::Url => "Pasted URL"@,
            ImportSource::Photo => "Captured photo"@,
            ImportSource::Text => "Pasted text"@,
            ImportSource::Share => "Share link"@,
            ImportSource::File => "Uploaded file"@,
        })),
        submit_step(user, form) is Start <==> (form.source matches Some(slug) && import::source_of(
            slug,
        ) is Some),
        !(submit_step(user, form) is Start) ==> submit_step(user, form) == SubmitStepModel::Answer(
            ReplyModel::Plain(400, "unknown source"@),
        ),
{
    import::law_source_slug_round_trip(source, Seq::empty());
}

/// A form that goes on to the end confirms all of its picks, in their order,
/// for the import that it names; one that names no import or picks nothing is
/// refused. Any other form leads back to the first screen.
pub proof fn law_confirmations_are_read(user: UserModel, form: SubmitFormModel)
    ensures
        form.next_stage == Some(Stage::Done) && form.job_id is Some && form.picked.len() > 0 ==> (
        submit_step(user, form) matches SubmitStepModel::Confirm(cmd) && Some(cmd.import_id)
            == form.job_id && cmd.picked_ids == form.picked),
        form.next_stage == Some(Stage::Done) && form.job_id is None ==> submit_step(user, form)
            == SubmitStepModel::Answer(ReplyModel::Plain(400, "missing job id"@)),
        form.next_stage == Some(Stage::Done) && form.job_id is Some && form.picked.len() == 0
            ==> submit_step(user, form) == SubmitStepModel::Answer(
            ReplyModel::Plain(400, "no recipes picked"@),
        ),
        form.next_stage is None || form.next_stage == Some(Stage::Upload) ==> submit_step(user, form)
            == SubmitStepModel::Answer(ReplyModel::Redirect("/recipes/import"@)),
{
}

/// A start leads to the review of the import, and a confirmation to its last
/// screen; a failure of either is not told in detail.
pub proof fn law_imports_lead_on(id: Seq<char>, err: Seq<char>)
    ensures
        start_answer(Ok(id)) == ReplyModel::<ImportScreenModel>::Redirect(
            "/recipes/import?job="@ + id + "&stage="@ + Stage::Preview.slug_text(),
        ),
        confirm_answer(id, None) == ReplyModel::<ImportScreenModel>::Redirect(
            "/recipes/import?job="@ + id + "&stage="@ + Stage::Done.slug_text(),
        ),
        start_answer(Err(err)) == ReplyModel::<ImportScreenModel>::Plain(500, "internal error"@),
        confirm_answer(id, Some(err)) == ReplyModel::<ImportScreenModel>::Plain(
            500,
            "internal error"@,
        ),
        after_recorded(id) == UploadStepModel::Answer(start_answer(Ok(id))),
{
}

/// The review lists every candidate of the import, in their order and with all
/// that is known of it, says how many of them can be imported and how many
/// carry a warning, and names the source. A meal type that is not known is
/// shown as a main course.
pub proof fn law_reviews_list_every_candidate(
    user: UserModel,
    row: ImportRowModel,
    waiting: bool,
    i: int,
)
    requires
        row.candidates.len() <= usize::MAX,
    ensures
        ({
            let page = import_page_of(user, Stage::Preview, Some(row), waiting);
            &&& page.job_id == row.id
            &&& page.source_label == row.source_label
            &&& page.waiting == waiting
            &&& page.parsed.len() == row.candidates.len()
            &&& 0 <= i < row.candidates.len() ==> {
                let shown = page.parsed[i];
                let c = row.candidates[i];
                &&& shown.id == c.id
                &&& shown.title == c.title
                &&& shown.emoji == c.emoji
                &&& recipe::meal_type_of(c.meal_type) is Some ==> shown.type_slug == c.meal_type
                &&& recipe::meal_type_of(c.meal_type) is None ==> shown.type_slug == "main"@
                &&& exists|m: recipe::MealType|
                    shown.type_slug == #[trigger] m.slug_text() && shown.type_label
                        == m.label_text()
                &&& shown.ingredient_count == c.ingredient_count
                &&& shown.step_count == c.step_count
                &&& shown.warn == c.warn
                &&& shown.broken == c.broken
                &&& shown.selected == c.selected
            }
            &&& page.valid_count == row.candidates.filter(
                |c: ParsedCandidateViewModel| !c.broken,
            ).len()
            &&& page.warning_count == row.candidates.filter(
                |c: ParsedCandidateViewModel| c.warn is Some,
            ).len()
            &&& page.stats.len() == 0
            &&& row.stage != ImportStage::Failed.slug_text() ==> page.stage
                == Stage::Preview.slug_text() && page.failure_reason.len() == 0
            &&& row.stage == ImportStage::Failed.slug_text() ==> page.stage == "failed"@
                && page.failure_reason == row.failure_reason
        }),
{
    lemma_counted(row.candidates);
    if 0 <= i < row.candidates.len() {
        let c = row.candidates[i];
        let m = recipe::meal_type_or_main(c.meal_type);
        recipe::law_meal_type_slug_round_trip(m, c.meal_type);
        assert(parsed_recipe(c).type_slug == m.slug_text());
    }
}

proof fn lemma_counted(candidates: Seq<ParsedCandidateViewModel>)
    ensures
        parsed_recipes(candidates).filter(importable()).len() == candidates.filter(
            |c: ParsedCandidateViewModel| !c.broken,
        ).len(),
        parsed_recipes(candidates).filter(warned()).len() == candidates.filter(
            |c: ParsedCandidateViewModel| c.warn is Some,
        ).len(),
        candidates.filter(|c: ParsedCandidateViewModel| !c.broken).len() <= candidates.len(),
        candidates.filter(|c: ParsedCandidateViewModel| c.warn is Some).len() <= candidates.len(),
    decreases candidates.len(),
{
    reveal(Seq::filter);
    if candidates.len() > 0 {
        lemma_counted(candidates.drop_last());
        assert(parsed_recipes(candidates).drop_last() =~= parsed_recipes(candidates.drop_last()));
    }
}

/// The last screen says how many recipes were imported and how many picks were
/// not.
pub proof fn law_last_screens_count_the_recipes(
    user: UserModel,
    row: ImportRowModel,
    waiting: bool,
    recipe_ids: Seq<Seq<char>>,
    picked_ids: Seq<Seq<char>>,
)
    requires
        json::text_list_of(row.recipe_ids_json) == Some(recipe_ids),
        json::text_list_of(row.picked_json) == Some(picked_ids),
        recipe_ids.len() <= picked_ids.len() <= u32::MAX,
    ensures
        ({
            let page = import_page_of(user, Stage::Done, Some(row), waiting);
            &&& page.job_id == row.id
            &&& page.source_label == row.source_label
            &&& page.parsed.len() == 0
            &&& page.imported_count == recipe_ids.len()
            &&& page.stats.len() == 3
            &&& page.stats[0].label == "Imported"@ && page.stats[0].count == recipe_ids.len()
            &&& page.stats[1].label == "Skipped"@ && page.stats[1].count == picked_ids.len()
                - recipe_ids.len()
            &&& page.stats[2].label == "Duplicate"@ && page.stats[2].count == 0
        }),
{
}

/// A screen without an import has nothing on it, and offers the sources.
pub proof fn law_screens_without_an_import_are_empty(
    user: UserModel,
    stage: Stage,
    waiting: bool,
)
    ensures
        ({
            let page = import_page_of(user, stage, None, waiting);
            &&& page.stage == stage.slug_text()
            &&& page.job_id.len() == 0
            &&& page.source_label.len() == 0
            &&& page.parsed.len() == 0
            &&& page.valid_count == 0
            &&& page.warning_count == 0
            &&& page.imported_count == 0
            &&& page.failure_reason.len() == 0
            &&& page.waiting == waiting
            &&& page.source_options == sources()
        }),
{
    lemma_counted(Seq::empty());
    reveal(Seq::filter);
}

/// Of the three steps, those before the current one are done, and the current
/// one alone is active.
pub proof fn law_steps_before_the_current_one_are_done(current: Stage, stage: Stage)
    ensures
        indicators(current).len() == 3,
        indicators(current)[stage.position()].active <==> stage == current,
        indicators(current)[stage.position()].done <==> stage.position() < current.position(),
        Stage::Upload.position() < Stage::Preview.position() < Stage::Done.position(),
{
}

/// An import of the user's own is shown as it stands: the review waits for its
/// candidates, tells of its failure, or lists them.
pub proof fn law_own_imports_are_shown(
    user: UserModel,
    is_partial: bool,
    q: ImportQueryModel,
    row: ImportRowModel,
)
    requires
        row.owner_id == user.id,
    ensures
        q.stage != Stage::Preview || row.stage == ImportStage::Completed.slug_text()
            ==> import_reply(user, is_partial, q, Some(row)) == ReplyModel::Page(
            ImportScreenModel::Page(import_page_of(user, q.stage, Some(row), false)),
        ),
        q.stage == Stage::Preview && row.stage == ImportStage::Started.slug_text() && is_partial
            ==> import_reply(user, is_partial, q, Some(row)) == ReplyModel::Page(
            ImportScreenModel::Waiting(ImportWaitingFragmentModel { job_id: row.id }),
        ),
        q.stage == Stage::Preview && row.stage == ImportStage::Started.slug_text() && !is_partial
            ==> import_reply(user, is_partial, q, Some(row)) == ReplyModel::Page(
            ImportScreenModel::Page(import_page_of(user, Stage::Preview, Some(row), true)),
        ),
        q.stage == Stage::Preview && row.stage == ImportStage::Failed.slug_text() && is_partial
            ==> import_reply(user, is_partial, q, Some(row)) == ReplyModel::Page(
            ImportScreenModel::Failed(
                ImportFailedFragmentModel { failure_reason: row.failure_reason },
            ),
        ),
        q.stage == Stage::Preview && row.stage == ImportStage::Previewed.slug_text() && is_partial
            ==> import_reply(user, is_partial, q, Some(row)) == ReplyModel::<
            ImportScreenModel,
        >::Location("/recipes/import?job="@ + row.id + "&stage="@ + Stage::Preview.slug_text()),
        q.stage == Stage::Preview && row.stage != ImportStage::Started.slug_text() && !is_partial
            ==> import_reply(user, is_partial, q, Some(row)) == ReplyModel::Page(
            ImportScreenModel::Page(import_page_of(user, Stage::Preview, Some(row), false)),
        ),
{
    import::law_stage_slugs_differ(ImportStage::Completed, ImportStage::Started);
    import::law_stage_slugs_differ(ImportStage::Completed, ImportStage::Failed);
    import::law_stage_slugs_differ(ImportStage::Completed, ImportStage::Previewed);
    import::law_stage_slugs_differ(ImportStage::Started, ImportStage::Failed);
    import::law_stage_slugs_differ(ImportStage::Started, ImportStage::Previewed);
    import::law_stage_slugs_differ(ImportStage::Failed, ImportStage::Previewed);
}

/// What stands behind the first semicolon of a media type does not count.
pub proof fn law_parameters_do_not_count(
    file_name: Seq<char>,
    media_type: Seq<char>,
    parameters: Seq<char>,
)
    requires
        !media_type.contains(';'),
    ensures
        essence(media_type) == media_type,
        essence(media_type.push(';') + parameters) == media_type,
        acceptable(file_name, media_type.push(';') + parameters) == acceptable(
            file_name,
            media_type,
        ),
    decreases media_type.len(),
{
    let whole = media_type.push(';') + parameters;
    if media_type.len() == 0 {
        assert(whole[0] == ';');
        assert(essence(whole) =~= media_type);
        assert(essence(media_type) =~= media_type);
    } else {
        assert(media_type.contains(media_type[0]));
        let rest = media_type.drop_first();
        assert(!rest.contains(';')) by {
            if rest.contains(';') {
                let k = choose|k: int| 0 <= k < rest.len() && rest[k] == ';';
                assert(media_type[k + 1] == ';');
            }
        }
        law_parameters_do_not_count(file_name, rest, parameters);
        assert(whole.drop_first() =~= rest.push(';') + parameters);
        assert(whole[0] == media_type[0]);
        assert(essence(whole) =~= media_type);
        assert(essence(media_type) =~= media_type);
    }
}

/// A file is accepted for its name if that ends in `.json` in any case, and
/// for its media type if that is one of JSON, with or without parameters.
pub proof fn law_json_files_are_accepted(
    file_name: Seq<char>,
    ending: Seq<char>,
    content_type: Seq<char>,
)
    ensures
        text::ascii_lowered(ending) == ".json"@ ==> acceptable(file_name + ending, content_type),
        content_type == "application/json"@ ==> acceptable(file_name, content_type),
        content_type == "text/json"@ ==> acceptable(file_name, content_type),
        acceptable(file_name, Seq::empty()) <==> ".json"@.is_suffix_of(
            text::ascii_lowered(file_name),
        ),
{
    reveal_strlit(".json");
    reveal_strlit("application/json");
    reveal_strlit("text/json");
    reveal_with_fuel(text::trim_start, 2);
    reveal_with_fuel(text::trim_end, 2);
    if text::ascii_lowered(ending) == ".json"@ {
        let lowered = text::ascii_lowered(file_name + ending);
        assert(lowered =~= text::ascii_lowered(file_name) + text::ascii_lowered(ending));
        assert(lowered.skip(lowered.len() - 5) =~= ".json"@);
    }
    assert(!"application/json"@.contains(';'));
    assert(!"text/json"@.contains(';'));
    law_parameters_do_not_count(file_name, "application/json"@, Seq::empty());
    law_parameters_do_not_count(file_name, "text/json"@, Seq::empty());
    assert(text::trimmed(essence(Seq::empty())).len() == 0);
    assert("application/json"@.len() == 16 && "text/json"@.len() == 9);
}

/// Only the field of the upload is read, with its name and media type as they
/// are given; other fields are passed over.
pub proof fn law_the_upload_field_is_read(user: UserModel, head: FieldHeadModel, err: Seq<char>)
    ensures
        head.name == Some("upload"@) ==> (after_field(user, Ok(Some(head)))
            matches UploadStepModel::ReadContent(upload) && (head.file_name matches Some(name)
            ==> upload.file_name == name) && (head.file_name is None ==> upload.file_name
            == "upload.json"@) && (head.content_type matches Some(content_type)
            ==> upload.content_type == content_type) && (head.content_type is None
            ==> upload.content_type.len() == 0)),
        head.name != Some("upload"@) ==> after_field(user, Ok(Some(head)))
            == UploadStepModel::ReadField,
        after_field(user, Ok(None)) is Answer,
        after_field(user, Err(err)) is Answer,
        after_opened(user, true) == UploadStepModel::ReadField,
        after_opened(user, false) is Answer,
{
}

/// The content of an upload is parsed if and only if there is any and the file
/// is one of JSON; it is parsed as it was read.
pub proof fn law_json_contents_are_parsed(
    user: UserModel,
    head: UploadHeadModel,
    bytes: Seq<u8>,
    err: Seq<char>,
)
    ensures
        after_content(user, head, Ok(bytes)) is Parse <==> bytes.len() > 0 && acceptable(
            head.file_name,
            head.content_type,
        ),
        after_content(user, head, Ok(bytes)) matches UploadStepModel::Parse(upload) ==> upload.bytes
            == bytes && upload.file_name == head.file_name && upload.content_type
            == head.content_type,
        !(after_content(user, head, Ok(bytes)) is Parse) ==> after_content(user, head, Ok(bytes))
            is Answer,
        after_content(user, head, Err(err)) is Answer,
{
}

/// The candidates of a file, if there are any, go into an import of the user's
/// that is named after the file, and are recorded with it, all of them and in
/// their order.
pub proof fn law_candidates_of_a_file_are_recorded(
    user: UserModel,
    file_name: Seq<char>,
    candidates: Seq<ParsedCandidateModel>,
    id: Seq<char>,
    err: Seq<char>,
)
    ensures
        candidates.len() > 0 ==> (after_parsed(user, file_name, Ok(candidates))
            matches UploadStepModel::Start(cmd, kept) && kept == candidates && cmd.owner_id
            == user.id && cmd.source == ImportSource::File && cmd.source_label == file_name),
        candidates.len() == 0 ==> after_parsed(user, file_name, Ok(candidates)) is Answer,
        after_parsed(user, file_name, Err(err)) is Answer,
        after_started(user, candidates, Ok(id)) matches UploadStepModel::Record(cmd)
            && cmd.import_id == id && cmd.candidates == candidates,
        after_started(user, candidates, Err(err)) is Answer,
{
}

/// An upload that is refused shows the first screen with the reason, and is
/// marked as failed.
pub proof fn law_refused_uploads_are_told_why(user: UserModel, message: Seq<char>)
    ensures
        upload_refusal(user, message) matches ReplyModel::Unprocessable(ImportScreenModel::Page(page))
            && page.failure_reason == message && page.source_label == message && page.stage
            == "failed"@ && page.parsed.len() == 0 && !page.waiting && page.source_options
            == sources(),
{
}

/// What each screen of an import is called.
pub proof fn law_screens_are_called(value: Stage)
    ensures
        value == Stage::Upload ==> value.slug_text() == "upload"@,
        value == Stage::Preview ==> value.slug_text() == "preview"@,
        value == Stage::Done ==> value.slug_text() == "done"@,
{
}

/// A model has every field of the value that it stands for.
pub proof fn law_models_have_every_field(
    import_query: ImportQuery,
    step_indicator: StepIndicator,
    source_option: SourceOption,
    parsed_recipe: ParsedRecipe,
    import_stat: ImportStat,
    import_page: ImportPage,
    import_waiting_fragment: ImportWaitingFragment,
    import_failed_fragment: ImportFailedFragment,
    submit_form: SubmitForm,
    field_head: FieldHead,
    upload_head: UploadHead,
    upload: Upload,
)
    ensures
        import_query@.stage == import_query.stage,
        import_query@.job == text::opt_view(import_query.job),
        step_indicator@.label == step_indicator.label@,
        step_indicator@.active == step_indicator.active,
        step_indicator@.done == step_indicator.done,
        source_option@.id == source_option.id@,
        source_option@.name == source_option.name@,
        source_option@.sub == source_option.sub@,
        source_option@.emoji == source_option.emoji@,
        parsed_recipe@.id == parsed_recipe.id@,
        parsed_recipe@.title == parsed_recipe.title@,
        parsed_recipe@.emoji == parsed_recipe.emoji@,
        parsed_recipe@.type_slug == parsed_recipe.type_slug@,
        parsed_recipe@.type_label == parsed_recipe.type_label@,
        parsed_recipe@.ingredient_count == parsed_recipe.ingredient_count,
        parsed_recipe@.step_count == parsed_recipe.step_count,
        parsed_recipe@.warn == text::opt_view(parsed_recipe.warn),
        parsed_recipe@.broken == parsed_recipe.broken,
        parsed_recipe@.selected == parsed_recipe.selected,
        import_stat@.label == import_stat.label@,
        import_stat@.count == import_stat.count,
        import_page@.nav_items == text::views(import_page.nav_items@),
        import_page@.user_initial == import_page.user_initial@,
        import_page@.user_name == import_page.user_name@,
        import_page@.user_email == import_page.user_email@,
        import_page@.user_premium == import_page.user_premium,
        import_page@.stage == import_page.stage@,
        import_page@.steps == text::views(import_page.steps@),
        import_page@.job_id == import_page.job_id@,
        import_page@.waiting == import_page.waiting,
        import_page@.source_options == text::views(import_page.source_options@),
        import_page@.source_label == import_page.source_label@,
        import_page@.parsed == text::views(import_page.parsed@),
        import_page@.valid_count == import_page.valid_count,
        import_page@.warning_count == import_page.warning_count,
        import_page@.imported_count == import_page.imported_count,
        import_page@.stats == text::views(import_page.stats@),
        import_page@.failure_reason == import_page.failure_reason@,
        import_waiting_fragment@.job_id == import_waiting_fragment.job_id@,
        import_failed_fragment@.failure_reason == import_failed_fragment.failure_reason@,
        submit_form@.next_stage == submit_form.next_stage,
        submit_form@.source == text::opt_view(submit_form.source),
        submit_form@.source_label == text::opt_view(submit_form.source_label),
        submit_form@.job_id == text::opt_view(submit_form.job_id),
        submit_form@.picked == text::views(submit_form.picked@),
        field_head@.name == text::opt_view(field_head.name),
        field_head@.file_name == text::opt_view(field_head.file_name),
        field_head@.content_type == text::opt_view(field_head.content_type),
        upload_head@.file_name == upload_head.file_name@,
        upload_head@.content_type == upload_head.content_type@,
        upload@.file_name == upload.file_name@,
        upload@.content_type == upload.content_type@,
        upload@.bytes == upload.bytes@,
{
}

/// Every screen of an import stands in the frame of the user it is made for,
/// and shows the steps up to its own.
pub proof fn law_screens_have_the_frame(
    user: UserModel,
    stage: Stage,
    row: Option<ImportRowModel>,
    waiting: bool,
)
    ensures
        ({
            let page = import_page_of(user, stage, row, waiting);
            &&& page.nav_items == web::chrome(user).nav_items
            &&& page.user_initial == web::chrome(user).user_initial
            &&& page.user_name == web::chrome(user).user_name
            &&& page.user_email == web::chrome(user).user_email
            &&& page.user_premium == web::chrome(user).user_premium
            &&& page.steps == indicators(stage)
            &&& page.source_options == sources()
        }),
{
}

/// What the steps of an import are called.
pub proof fn law_steps_are_called(current: Stage)
    ensures
        indicators(current)[Stage::Upload.position()].label == "Source"@,
        indicators(current)[Stage::Preview.position()].label == "Review"@,
        indicators(current)[Stage::Done.position()].label == "Done"@,
{
}

} // verus!
