//! `recipe_imports_view`: one row per import.
//!
//! The row feeds the screens of an import: the upload screen while its stage
//! is `started`, the review screen once it is `previewed`, the done screen
//! when it is `completed`, and the failure when it is `failed`.

use vstd::prelude::*;
use vstd::string::*;

use crate::import::parser::ParsedCandidate;
use crate::import::parser::ParsedCandidateModel;
use crate::import::{
    ImportCompleted, ImportConfirmed, ImportFailed, ImportPreviewed, ImportStage, ImportStarted,
};
use crate::import::{ImportStartedModel, RecipeImportModel};
use crate::json;
use crate::text;

verus! {

/// A candidate as the row holds it.
#[derive(Debug, PartialEq)]
pub struct ParsedCandidateView {
    pub id: String,
    pub title: String,
    pub emoji: String,
    pub meal_type: String,
    pub ingredient_count: u32,
    pub step_count: u32,
    pub warn: Option<String>,
    pub broken: bool,
    pub selected: bool,
}

/// What a [`ParsedCandidateView`] holds, as mathematical values.
#[verifier::ext_equal]
pub struct ParsedCandidateViewModel {
    pub id: Seq<char>,
    pub title: Seq<char>,
    pub emoji: Seq<char>,
    pub meal_type: Seq<char>,
    pub ingredient_count: u32,
    pub step_count: u32,
    pub warn: Option<Seq<char>>,
    pub broken: bool,
    pub selected: bool,
}

impl View for ParsedCandidateView {
    type V = ParsedCandidateViewModel;

    open spec fn view(&self) -> ParsedCandidateViewModel {
        ParsedCandidateViewModel {
            id: self.id@,
            title: self.title@,
            emoji: self.emoji@,
            meal_type: self.meal_type@,
            ingredient_count: self.ingredient_count,
            step_count: self.step_count,
            warn: text::opt_view(self.warn),
            broken: self.broken,
            selected: self.selected,
        }
    }
}

impl Clone for ParsedCandidateView {
    fn clone(&self) -> (res: Self)
        ensures
            res@ == self@,
    {
        ParsedCandidateView {
            id: self.id.clone(),
            title: self.title.clone(),
            emoji: self.emoji.clone(),
            meal_type: self.meal_type.clone(),
            ingredient_count: self.ingredient_count,
            step_count: self.step_count,
            warn: self.warn.clone(),
            broken: self.broken,
            selected: self.selected,
        }
    }
}

/// The form of a candidate that a row holds.
pub open spec fn candidate_view(c: ParsedCandidateModel) -> ParsedCandidateViewModel {
    ParsedCandidateViewModel {
        id: c.id,
        title: c.title,
        emoji: c.emoji,
        meal_type: c.meal_type,
        ingredient_count: c.ingredient_count,
        step_count: c.step_count,
        warn: c.warn,
        broken: c.broken,
        selected: c.selected,
    }
}

/// The forms of a list of candidates.
pub open spec fn candidate_views(candidates: Seq<ParsedCandidateModel>) -> Seq<
    ParsedCandidateViewModel,
> {
    candidates.map_values(|c: ParsedCandidateModel| candidate_view(c))
}

impl ParsedCandidateView {
    pub fn from(c: &ParsedCandidate) -> (res: Self)
        ensures
            res@ == candidate_view(c@),
    {
        ParsedCandidateView {
            id: c.id.clone(),
            title: c.title.clone(),
            emoji: c.emoji.clone(),
            meal_type: c.meal_type.clone(),
            ingredient_count: c.ingredient_count,
            step_count: c.step_count,
            warn: text::clone_opt_text(&c.warn),
            broken: c.broken,
            selected: c.selected,
        }
    }
}

/// One row of `recipe_imports_view`.
#[derive(Debug, PartialEq)]
pub struct ImportRow {
    pub id: String,
    pub owner_id: String,
    pub source: String,
    pub source_label: String,
    pub stage: String,
    /// Empty until the candidates are known.
    pub candidates: Vec<ParsedCandidateView>,
    /// A JSON list of the ids that were picked; empty until confirmation.
    pub picked_json: String,
    /// A JSON list of the ids of the new recipes; empty until completion.
    pub recipe_ids_json: String,
    /// Empty unless the import failed.
    pub failure_reason: String,
    pub created_at: i64,
    pub updated_at: i64,
}

/// What a [`ImportRow`] holds, as mathematical values.
#[verifier::ext_equal]
pub struct ImportRowModel {
    pub id: Seq<char>,
    pub owner_id: Seq<char>,
    pub source: Seq<char>,
    pub source_label: Seq<char>,
    pub stage: Seq<char>,
    pub candidates: Seq<ParsedCandidateViewModel>,
    pub picked_json: Seq<char>,
    pub recipe_ids_json: Seq<char>,
    pub failure_reason: Seq<char>,
    pub created_at: i64,
    pub updated_at: i64,
}

impl View for ImportRow {
    type V = ImportRowModel;

    open spec fn view(&self) -> ImportRowModel {
        ImportRowModel {
            id: self.id@,
            owner_id: self.owner_id@,
            source: self.source@,
            source_label: self.source_label@,
            stage: self.stage@,
            candidates: text::views(self.candidates@),
            picked_json: self.picked_json@,
            recipe_ids_json: self.recipe_ids_json@,
            failure_reason: self.failure_reason@,
            created_at: self.created_at,
            updated_at: self.updated_at,
        }
    }
}

impl Clone for ImportRow {
    fn clone(&self) -> (res: Self)
        ensures
            res@ == self@,
    {
        let candidates: Vec<ParsedCandidateView> = self.candidates.clone();
        assert(text::views(candidates@) =~= text::views(self.candidates@));
        ImportRow {
            id: self.id.clone(),
            owner_id: self.owner_id.clone(),
            source: self.source.clone(),
            source_label: self.source_label.clone(),
            stage: self.stage.clone(),
            candidates,
            picked_json: self.picked_json.clone(),
            recipe_ids_json: self.recipe_ids_json.clone(),
            failure_reason: self.failure_reason.clone(),
            created_at: self.created_at,
            updated_at: self.updated_at,
        }
    }
}

impl ImportRow {
    /// The candidates of the import.
    pub fn candidates(&self) -> (res: Vec<ParsedCandidateView>)
        ensures
            text::views(res@) == self@.candidates,
    {
        let rows: Vec<ParsedCandidateView> = self.candidates.clone();
        assert(text::views(rows@) =~= self@.candidates);
        rows
    }

    /// The ids that were picked; none where the column holds no list.
    pub fn picked_ids(&self) -> (res: Vec<String>)
        ensures
            text::views(res@) == json::texts_or_none(json::text_list_of(self@.picked_json)),
    {
        json::texts_of(self.picked_json.as_str())
    }

    /// The ids of the new recipes; none where the column holds no list.
    pub fn recipe_ids(&self) -> (res: Vec<String>)
        ensures
            text::views(res@) == json::texts_or_none(json::text_list_of(self@.recipe_ids_json)),
    {
        json::texts_of(self.recipe_ids_json.as_str())
    }
}

/// The row of a started import. If there is a row already, only its owner,
/// source and stage are set again.
pub open spec fn started_row(
    row: Option<ImportRowModel>,
    id: Seq<char>,
    timestamp: u64,
    e: ImportStartedModel,
) -> ImportRowModel {
    match row {
        Some(r) => ImportRowModel {
            owner_id: e.owner_id,
            source: e.source,
            source_label: e.source_label,
            stage: ImportStage::Started.slug_text(),
            ..r
        },
        None => ImportRowModel {
            id,
            owner_id: e.owner_id,
            source: e.source,
            source_label: e.source_label,
            stage: ImportStage::Started.slug_text(),
            candidates: Seq::empty(),
            picked_json: "[]"@,
            recipe_ids_json: "[]"@,
            failure_reason: Seq::empty(),
            created_at: timestamp as i64,
            updated_at: timestamp as i64,
        },
    }
}

/// The row under `id` after an event that happened at `timestamp`.
pub open spec fn row_step(
    row: Option<ImportRowModel>,
    id: Seq<char>,
    timestamp: u64,
    event: RecipeImportModel,
) -> Option<ImportRowModel> {
    match event {
        RecipeImportModel::ImportStarted(e) => Some(started_row(row, id, timestamp, e)),
        _ => match row {
            None => None,
            Some(r) => Some(
                match event {
                    RecipeImportModel::ImportPreviewed(e) => ImportRowModel {
                        candidates: candidate_views(e.candidates),
                        stage: ImportStage::Previewed.slug_text(),
                        updated_at: timestamp as i64,
                        ..r
                    },
                    RecipeImportModel::ImportConfirmed(e) => ImportRowModel {
                        picked_json: json::text_list_json(e.picked_ids),
                        updated_at: timestamp as i64,
                        ..r
                    },
                    RecipeImportModel::ImportCompleted(e) => ImportRowModel {
                        recipe_ids_json: json::text_list_json(e.recipe_ids),
                        stage: ImportStage::Completed.slug_text(),
                        updated_at: timestamp as i64,
                        ..r
                    },
                    RecipeImportModel::ImportFailed(e) => ImportRowModel {
                        stage: ImportStage::Failed.slug_text(),
                        failure_reason: e.reason,
                        updated_at: timestamp as i64,
                        ..r
                    },
                    _ => r,
                },
            ),
        },
    }
}

/// The start of an import makes its row. Nothing is picked and no recipe is
/// drafted in a row that is new.
pub fn apply_started(row: Option<ImportRow>, id: &str, timestamp: u64, event: &ImportStarted) -> (
    res: ImportRow)
    ensures
        Some(res@) == row_step(
            text::opt_view(row),
            id@,
            timestamp,
            RecipeImportModel::ImportStarted(event@),
        ),
        row is None ==> json::text_list_of(res@.picked_json) == Some(Seq::<Seq<char>>::empty())
            && json::text_list_of(res@.recipe_ids_json) == Some(Seq::<Seq<char>>::empty()),
{
    match row {
        Some(r) => {
            let mut next: ImportRow = r;
            next.owner_id = event.owner_id.clone();
            next.source = event.source.clone();
            next.source_label = event.source_label.clone();
            next.stage = ImportStage::Started.slug().to_owned();
            next
        },
        None => {
            let none: Vec<String> = Vec::new();
            let candidates: Vec<ParsedCandidateView> = Vec::new();
            let empty: String = json::json_of(&none);
            assert(text::views(none@) =~= Seq::<Seq<char>>::empty());
            assert(text::views(candidates@) =~= Seq::<ParsedCandidateViewModel>::empty());
            ImportRow {
                id: id.to_owned(),
                owner_id: event.owner_id.clone(),
                source: event.source.clone(),
                source_label: event.source_label.clone(),
                stage: ImportStage::Started.slug().to_owned(),
                candidates,
                picked_json: empty.clone(),
                recipe_ids_json: empty,
                failure_reason: String::new(),
                created_at: timestamp as i64,
                updated_at: timestamp as i64,
            }
        },
    }
}

fn views_of(candidates: &Vec<ParsedCandidate>) -> (res: Vec<ParsedCandidateView>)
    ensures
        text::views(res@) == candidate_views(text::views(candidates@)),
{
    let ghost all = candidate_views(text::views(candidates@));
    let mut rows: Vec<ParsedCandidateView> = Vec::new();
    let mut i: usize = 0;
    while i < candidates.len()
        invariant
            i <= candidates.len(),
            all == candidate_views(text::views(candidates@)),
            text::views(rows@) == all.take(i as int),
        decreases candidates.len() - i,
    {
        let ghost before = rows@;
        let row: ParsedCandidateView = ParsedCandidateView::from(&candidates[i]);
        proof {
            text::lemma_views_push(before, row);
            assert(all.take(i + 1) =~= all.take(i as int).push(row@));
        }
        rows.push(row);
        i += 1;
    }
    assert(all.take(i as int) =~= all);
    rows
}

/// The candidates are known.
pub fn apply_previewed(row: Option<ImportRow>, timestamp: u64, event: &ImportPreviewed) -> (res:
    Option<ImportRow>)
    ensures
        forall|id: Seq<char>|
            text::opt_view(res) == #[trigger] row_step(
                text::opt_view(row),
                id,
                timestamp,
                RecipeImportModel::ImportPreviewed(event@),
            ),
{
    match row {
        Some(r) => {
            let mut next: ImportRow = r;
            next.candidates = views_of(&event.candidates);
            next.stage = ImportStage::Previewed.slug().to_owned();
            next.updated_at = timestamp as i64;
            Some(next)
        },
        None => None,
    }
}

/// Some candidates are picked. The stage stays until the import is over.
/// Reading the picks of the row gives them back.
pub fn apply_confirmed(row: Option<ImportRow>, timestamp: u64, event: &ImportConfirmed) -> (res:
    Option<ImportRow>)
    ensures
        forall|id: Seq<char>|
            text::opt_view(res) == #[trigger] row_step(
                text::opt_view(row),
                id,
                timestamp,
                RecipeImportModel::ImportConfirmed(event@),
            ),
        res matches Some(r) ==> json::text_list_of(r@.picked_json) == Some(event@.picked_ids),
{
    match row {
        Some(r) => {
            let mut next: ImportRow = r;
            next.picked_json = json::json_of(&event.picked_ids);
            next.updated_at = timestamp as i64;
            Some(next)
        },
        None => None,
    }
}

/// All picks are drafted. Reading the recipe ids of the row gives them back.
pub fn apply_completed(row: Option<ImportRow>, timestamp: u64, event: &ImportCompleted) -> (res:
    Option<ImportRow>)
    ensures
        forall|id: Seq<char>|
            text::opt_view(res) == #[trigger] row_step(
                text::opt_view(row),
                id,
                timestamp,
                RecipeImportModel::ImportCompleted(event@),
            ),
        res matches Some(r) ==> json::text_list_of(r@.recipe_ids_json) == Some(event@.recipe_ids),
{
    match row {
        Some(r) => {
            let mut next: ImportRow = r;
            next.recipe_ids_json = json::json_of(&event.recipe_ids);
            next.stage = ImportStage::Completed.slug().to_owned();
            next.updated_at = timestamp as i64;
            Some(next)
        },
        None => None,
    }
}

/// The import failed.
pub fn apply_failed(row: Option<ImportRow>, timestamp: u64, event: &ImportFailed) -> (res: Option<
    ImportRow,
>)
    ensures
        forall|id: Seq<char>|
            text::opt_view(res) == #[trigger] row_step(
                text::opt_view(row),
                id,
                timestamp,
                RecipeImportModel::ImportFailed(event@),
            ),
{
    match row {
        Some(r) => {
            let mut next: ImportRow = r;
            next.stage = ImportStage::Failed.slug().to_owned();
            next.failure_reason = event.reason.clone();
            next.updated_at = timestamp as i64;
            Some(next)
        },
        None => None,
    }
}

// ── What holds of the table ─────────────────────────────────────────────

/// Applying an event a second time, as a redelivery does, changes nothing.
pub proof fn law_replay_is_idempotent(
    row: Option<ImportRowModel>,
    id: Seq<char>,
    timestamp: u64,
    event: RecipeImportModel,
)
    ensures
        row_step(row_step(row, id, timestamp, event), id, timestamp, event) == row_step(
            row,
            id,
            timestamp,
            event,
        ),
{
}

/// The row under `id` after a whole log, with the time of each event.
pub open spec fn row_after(id: Seq<char>, log: Seq<RecipeImportModel>, times: Seq<u64>) -> Option<
    ImportRowModel,
>
    decreases log.len(),
{
    if log.len() == 0 {
        None
    } else {
        row_step(
            row_after(id, log.drop_last(), times.drop_last()),
            id,
            times.last(),
            log.last(),
        )
    }
}

/// The stage that a log leaves an import in. A confirmation does not change
/// it.
pub open spec fn stage_after(log: Seq<RecipeImportModel>) -> ImportStage
    decreases log.len(),
{
    if log.len() == 0 {
        ImportStage::Started
    } else {
        match log.last() {
            RecipeImportModel::ImportStarted(_) => ImportStage::Started,
            RecipeImportModel::ImportPreviewed(_) => ImportStage::Previewed,
            RecipeImportModel::ImportConfirmed(_) => stage_after(log.drop_last()),
            RecipeImportModel::ImportCompleted(_) => ImportStage::Completed,
            RecipeImportModel::ImportFailed(_) => ImportStage::Failed,
        }
    }
}

/// An import whose log begins with its start has a row, under its id and for
/// its owner, in the stage that the log leaves it in; a reason for failure is
/// shown only if there was one.
pub proof fn law_rows_follow_the_log(id: Seq<char>, log: Seq<RecipeImportModel>, times: Seq<u64>)
    requires
        log.len() > 0,
        times.len() == log.len(),
        log[0] is ImportStarted,
        forall|i: int| 0 < i < log.len() ==> !((#[trigger] log[i]) is ImportStarted),
    ensures
        row_after(id, log, times) matches Some(row) && row.id == id && row.owner_id
            == log[0]->ImportStarted_0.owner_id && row.source == log[0]->ImportStarted_0.source
            && row.stage == stage_after(log).slug_text() && row.created_at == times[0] as i64 && (
        row.failure_reason.len() > 0 ==> exists|i: int|
            0 <= i < log.len() && (#[trigger] log[i]) is ImportFailed),
    decreases log.len(),
{
    let before = log.drop_last();
    if log.len() > 1 {
        assert forall|i: int| 0 < i < before.len() implies !((
        #[trigger] before[i]) is ImportStarted) by {
            assert(before[i] == log[i]);
        }
        law_rows_follow_the_log(id, before, times.drop_last());
        assert(before[0] == log[0]);
        assert(!(log[log.len() - 1] is ImportStarted));
        if exists|i: int| 0 <= i < before.len() && (#[trigger] before[i]) is ImportFailed {
            let i = choose|i: int|
                0 <= i < before.len() && (#[trigger] before[i]) is ImportFailed;
            assert(log[i] is ImportFailed);
        }
    } else {
        assert(row_after(id, before, times.drop_last()) is None);
    }
}

/// A candidate is stored with all that it has, and the candidates of a preview
/// one by one, in their order.
pub proof fn law_candidates_are_stored_as_they_are(candidates: Seq<ParsedCandidateModel>, i: int)
    requires
        0 <= i < candidates.len(),
    ensures
        candidate_views(candidates).len() == candidates.len(),
        candidate_views(candidates)[i].id == candidates[i].id,
        candidate_views(candidates)[i].title == candidates[i].title,
        candidate_views(candidates)[i].emoji == candidates[i].emoji,
        candidate_views(candidates)[i].meal_type == candidates[i].meal_type,
        candidate_views(candidates)[i].ingredient_count == candidates[i].ingredient_count,
        candidate_views(candidates)[i].step_count == candidates[i].step_count,
        candidate_views(candidates)[i].warn == candidates[i].warn,
        candidate_views(candidates)[i].broken == candidates[i].broken,
        candidate_views(candidates)[i].selected == candidates[i].selected,
{
}

/// A start makes the row of an import; every other event changes the columns
/// that it is about, and no others.
pub proof fn law_rows_follow_the_events(
    row: ImportRowModel,
    id: Seq<char>,
    timestamp: u64,
    started: ImportStartedModel,
    event: RecipeImportModel,
)
    requires
        !(event is ImportStarted),
    ensures
        row_step(None, id, timestamp, event) is None,
        row_step(None, id, timestamp, RecipeImportModel::ImportStarted(started)) matches Some(r)
            && r.id == id && r.owner_id == started.owner_id && r.source == started.source
            && r.source_label == started.source_label && r.stage
            == ImportStage::Started.slug_text() && r.candidates.len() == 0 && r.picked_json
            == "[]"@ && r.recipe_ids_json == "[]"@ && r.failure_reason.len() == 0 && (timestamp
            <= i64::MAX ==> r.created_at == timestamp && r.updated_at == timestamp),
        ({
            let next = row_step(Some(row), id, timestamp, event)->0;
            &&& row_step(Some(row), id, timestamp, event) is Some
            &&& next.id == row.id
            &&& next.owner_id == row.owner_id
            &&& next.source == row.source
            &&& next.source_label == row.source_label
            &&& next.created_at == row.created_at
            &&& timestamp <= i64::MAX ==> next.updated_at == timestamp
            &&& event is ImportPreviewed ==> next.candidates == candidate_views(
                event->ImportPreviewed_0.candidates,
            ) && next.stage == ImportStage::Previewed.slug_text()
            &&& !(event is ImportPreviewed) ==> next.candidates == row.candidates
            &&& event is ImportConfirmed ==> next.picked_json == json::text_list_json(
                event->ImportConfirmed_0.picked_ids,
            ) && next.stage == row.stage
            &&& !(event is ImportConfirmed) ==> next.picked_json == row.picked_json
            &&& event is ImportCompleted ==> next.recipe_ids_json == json::text_list_json(
                event->ImportCompleted_0.recipe_ids,
            ) && next.stage == ImportStage::Completed.slug_text()
            &&& !(event is ImportCompleted) ==> next.recipe_ids_json == row.recipe_ids_json
            &&& event is ImportFailed ==> next.failure_reason == event->ImportFailed_0.reason
                && next.stage == ImportStage::Failed.slug_text()
            &&& !(event is ImportFailed) ==> next.failure_reason == row.failure_reason
        }),
{
}

/// A start that is delivered again sets what it says and keeps the rest of the
/// row.
pub proof fn law_redelivered_starts_keep_the_row(
    row: ImportRowModel,
    id: Seq<char>,
    timestamp: u64,
    started: ImportStartedModel,
)
    ensures
        row_step(Some(row), id, timestamp, RecipeImportModel::ImportStarted(started)) matches Some(r)
            && r.id == row.id && r.owner_id == started.owner_id && r.source == started.source
            && r.source_label == started.source_label && r.candidates == row.candidates
            && r.picked_json == row.picked_json && r.recipe_ids_json == row.recipe_ids_json
            && r.failure_reason == row.failure_reason && r.created_at == row.created_at
            && r.updated_at == row.updated_at && r.stage == ImportStage::Started.slug_text(),
{
}

/// The stage of an import is that of its last event, but that a confirmation
/// leaves it as it is.
pub proof fn law_stages_follow_the_events(log: Seq<RecipeImportModel>, event: RecipeImportModel)
    ensures
        stage_after(log.push(event)) == match event {
            RecipeImportModel::ImportStarted(_) => ImportStage::Started,
            RecipeImportModel::ImportPreviewed(_) => ImportStage::Previewed,
            RecipeImportModel::ImportConfirmed(_) => stage_after(log),
            RecipeImportModel::ImportCompleted(_) => ImportStage::Completed,
            RecipeImportModel::ImportFailed(_) => ImportStage::Failed,
        },
{
    assert(log.push(event).drop_last() =~= log);
}

/// A model has every field of the value that it stands for.
pub proof fn law_models_have_every_field(
    parsed_candidate_view: ParsedCandidateView,
    import_row: ImportRow,
)
    ensures
        parsed_candidate_view@.id == parsed_candidate_view.id@,
        parsed_candidate_view@.title == parsed_candidate_view.title@,
        parsed_candidate_view@.emoji == parsed_candidate_view.emoji@,
        parsed_candidate_view@.meal_type == parsed_candidate_view.meal_type@,
        parsed_candidate_view@.ingredient_count == parsed_candidate_view.ingredient_count,
        parsed_candidate_view@.step_count == parsed_candidate_view.step_count,
        parsed_candidate_view@.warn == text::opt_view(parsed_candidate_view.warn),
        parsed_candidate_view@.broken == parsed_candidate_view.broken,
        parsed_candidate_view@.selected == parsed_candidate_view.selected,
        import_row@.id == import_row.id@,
        import_row@.owner_id == import_row.owner_id@,
        import_row@.source == import_row.source@,
        import_row@.source_label == import_row.source_label@,
        import_row@.stage == import_row.stage@,
        import_row@.candidates == text::views(import_row.candidates@),
        import_row@.picked_json == import_row.picked_json@,
        import_row@.recipe_ids_json == import_row.recipe_ids_json@,
        import_row@.failure_reason == import_row.failure_reason@,
        import_row@.created_at == import_row.created_at,
        import_row@.updated_at == import_row.updated_at,
{
}

} // verus!
