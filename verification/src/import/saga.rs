//! The decisions of an import in progress.
//!
//! Two events set an import going:
//!
//! 1. `ImportStarted`: the source is parsed, and the candidates or the
//!    failure are recorded. Where candidates are on record by then, as after
//!    an upload, they stay, and nothing is recorded.
//! 2. `ImportConfirmed`: each pick that can be imported is materialized and
//!    drafted, one after the other; then the completion is recorded. If a
//!    pick fails midway, the failure is recorded and the remaining picks are
//!    left alone; what was drafted before stays.
//!
//! Parsing, materializing and writing to the log are the caller's part. Each
//! function here takes what came of the last such action and says which one
//! comes next.

use vstd::prelude::*;
use vstd::string::*;

use crate::import::parser::{DraftMaterial, ParsedCandidate};
use crate::import::parser::{DraftMaterialModel, ParsedCandidateModel};
use crate::import::{
    ImportCompleted, ImportConfirmed, ImportFailed, ImportPreviewed, ImportSource, ImportStarted,
    RecordCompletion, RecordFailure, RecordPreview,
};
use crate::import::{
    ImportFailedModel, ImportPreviewedModel, ImportStartedModel, RecipeImportModel,
    RecordCompletionModel, RecordFailureModel, RecordPreviewModel,
};
use crate::import;
use crate::import::parser;
use crate::recipe;
use crate::recipe::{DraftRecipe, Provenance};
use crate::recipe::{DraftRecipeModel, ProvenanceModel};
use crate::text;

verus! {

// ── What the log of an import says ──────────────────────────────────────

/// Whether an import has come to its end, and to which.
#[derive(Debug, Clone, Copy, PartialEq, Eq, Structural)]
pub enum Terminal {
    Pending,
    Completed,
    Failed,
}

impl Default for Terminal {
    fn default() -> (res: Self)
        ensures
            res == Terminal::Pending,
    {
        Terminal::Pending
    }
}

/// The part of an import's state that drafting the picks needs.
#[derive(Debug, PartialEq)]
pub struct ImportView {
    pub owner_id: String,
    pub source: String,
    pub candidates: Vec<ParsedCandidate>,
    pub terminal: Terminal,
}

/// What a [`ImportView`] holds, as mathematical values.
#[verifier::ext_equal]
pub struct ImportViewModel {
    pub owner_id: Seq<char>,
    pub source: Seq<char>,
    pub candidates: Seq<ParsedCandidateModel>,
    pub terminal: Terminal,
}

impl View for ImportView {
    type V = ImportViewModel;

    open spec fn view(&self) -> ImportViewModel {
        ImportViewModel {
            owner_id: self.owner_id@,
            source: self.source@,
            candidates: text::views(self.candidates@),
            terminal: self.terminal,
        }
    }
}

impl Clone for ImportView {
    fn clone(&self) -> (res: Self)
        ensures
            res@ == self@,
    {
        let candidates: Vec<ParsedCandidate> = self.candidates.clone();
        assert(text::views(candidates@) =~= text::views(self.candidates@));
        ImportView {
            owner_id: self.owner_id.clone(),
            source: self.source.clone(),
            candidates,
            terminal: self.terminal,
        }
    }
}

/// The state that the log of an import is folded from.
pub open spec fn blank_view() -> ImportViewModel {
    ImportViewModel {
        owner_id: Seq::empty(),
        source: Seq::empty(),
        candidates: Seq::empty(),
        terminal: Terminal::Pending,
    }
}

impl Default for ImportView {
    fn default() -> (res: Self)
        ensures
            res@ == blank_view(),
    {
        let candidates: Vec<ParsedCandidate> = Vec::new();
        assert(text::views(candidates@) =~= Seq::<ParsedCandidateModel>::empty());
        ImportView {
            owner_id: String::new(),
            source: String::new(),
            candidates,
            terminal: Terminal::Pending,
        }
    }
}

/// The state of an import after one more event.
pub open spec fn view_step(view: ImportViewModel, event: RecipeImportModel) -> ImportViewModel {
    match event {
        RecipeImportModel::ImportStarted(e) => ImportViewModel {
            owner_id: e.owner_id,
            source: e.source,
            ..view
        },
        RecipeImportModel::ImportPreviewed(e) => ImportViewModel {
            candidates: e.candidates,
            ..view
        },
        RecipeImportModel::ImportConfirmed(_) => view,
        RecipeImportModel::ImportCompleted(_) => ImportViewModel {
            terminal: Terminal::Completed,
            ..view
        },
        RecipeImportModel::ImportFailed(_) => ImportViewModel {
            terminal: Terminal::Failed,
            ..view
        },
    }
}

/// The state of an import after a whole log; `None` for an empty log, where
/// there is no such import.
pub open spec fn view_after(log: Seq<RecipeImportModel>) -> Option<ImportViewModel>
    decreases log.len(),
{
    if log.len() == 0 {
        None
    } else {
        let before = match view_after(log.drop_last()) {
            Some(view) => view,
            None => blank_view(),
        };
        Some(view_step(before, log.last()))
    }
}

/// Takes the start of an import into its state.
pub fn on_started_view(event: &ImportStarted, view: &mut ImportView)
    ensures
        final(view)@ == view_step(old(view)@, RecipeImportModel::ImportStarted(event@)),
{
    view.owner_id = event.owner_id.clone();
    view.source = event.source.clone();
}

/// Takes the candidates into the state.
pub fn on_previewed_view(event: &ImportPreviewed, view: &mut ImportView)
    ensures
        final(view)@ == view_step(old(view)@, RecipeImportModel::ImportPreviewed(event@)),
{
    let copy: ImportPreviewed = event.clone();
    view.candidates = copy.candidates;
}

/// A confirmation leaves the state as it is.
pub fn on_confirmed_view(event: &ImportConfirmed, view: &mut ImportView)
    ensures
        final(view)@ == view_step(old(view)@, RecipeImportModel::ImportConfirmed(event@)),
{
}

/// Takes the completion into the state.
pub fn on_completed_view(event: &ImportCompleted, view: &mut ImportView)
    ensures
        final(view)@ == view_step(old(view)@, RecipeImportModel::ImportCompleted(event@)),
{
    view.terminal = Terminal::Completed;
}

/// Takes the failure into the state.
pub fn on_failed_view(event: &ImportFailed, view: &mut ImportView)
    ensures
        final(view)@ == view_step(old(view)@, RecipeImportModel::ImportFailed(event@)),
{
    view.terminal = Terminal::Failed;
}

// ── After the start ─────────────────────────────────────────────────────

/// What follows the start of an import.
#[derive(Debug, PartialEq)]
pub enum StartedStep {
    /// Parse the source, then go on with [`on_parsed`].
    Parse(ImportSource),
    /// Record the failure.
    Fail(RecordFailure),
}

/// A text between backquotes.
pub open spec fn quoted(before: &str, name: Seq<char>, after: &str) -> Seq<char> {
    before@ + name + after@
}

/// Whether a step is what follows the start of an import.
pub open spec fn starts_with(
    step: StartedStep,
    import_id: Seq<char>,
    event: ImportStartedModel,
) -> bool {
    match import::source_of(event.source) {
        Some(source) => step == StartedStep::Parse(source),
        None => step matches StartedStep::Fail(cmd) && cmd@ == (RecordFailureModel {
            import_id,
            reason: quoted("unknown source `", event.source, "`"),
        }),
    }
}

/// The start of an import: its source has to be a known one.
pub fn on_started(import_id: &str, event: &ImportStarted) -> (res: StartedStep)
    ensures
        starts_with(res, import_id@, event@),
{
    match ImportSource::parse(event.source.as_str()) {
        Some(source) => StartedStep::Parse(source),
        None => StartedStep::Fail(
            RecordFailure {
                import_id: import_id.to_owned(),
                reason: text::join3("unknown source `", event.source.as_str(), "`"),
            },
        ),
    }
}

/// What follows the parsing of the source.
#[derive(Debug, PartialEq)]
pub enum ParsedStep {
    /// Record the candidates.
    Preview(RecordPreview),
    /// Record the failure.
    Fail(RecordFailure),
    /// Do nothing: the import has its candidates.
    Ignore,
}

/// What a [`ParsedStep`] holds, as mathematical values.
#[verifier::ext_equal]
pub enum ParsedStepModel {
    Preview(RecordPreviewModel),
    Fail(RecordFailureModel),
    Ignore,
}

impl View for ParsedStep {
    type V = ParsedStepModel;

    open spec fn view(&self) -> ParsedStepModel {
        match self {
            ParsedStep::Preview(inner) => ParsedStepModel::Preview(inner@),
            ParsedStep::Fail(inner) => ParsedStepModel::Fail(inner@),
            ParsedStep::Ignore => ParsedStepModel::Ignore,
        }
    }
}

/// What came of parsing, as mathematical values.
pub open spec fn parse_result(parsed: Result<Vec<ParsedCandidate>, String>) -> Result<
    Seq<ParsedCandidateModel>,
    Seq<char>,
> {
    match parsed {
        Ok(candidates) => Ok(text::views(candidates@)),
        Err(err) => Err(err@),
    }
}

/// Whether an import has candidates.
pub open spec fn has_candidates(view: Option<ImportViewModel>) -> bool {
    view matches Some(v) && v.candidates.len() > 0
}

/// What follows the parsing of the source, for an import in the given state.
pub open spec fn parsed_step(
    import_id: Seq<char>,
    view: Option<ImportViewModel>,
    parsed: Result<Seq<ParsedCandidateModel>, Seq<char>>,
) -> ParsedStepModel {
    if has_candidates(view) {
        ParsedStepModel::Ignore
    } else {
        match parsed {
            Ok(candidates) => ParsedStepModel::Preview(
                RecordPreviewModel { import_id, candidates },
            ),
            Err(err) => ParsedStepModel::Fail(
                RecordFailureModel { import_id, reason: "parse failed: "@ + err },
            ),
        }
    }
}

/// The end of parsing: its candidates, or its failure, are recorded. Where
/// `view`, the state of the import by now, has candidates, these stay.
pub fn on_parsed(
    import_id: &str,
    view: Option<&ImportView>,
    parsed: Result<Vec<ParsedCandidate>, String>,
) -> (res: ParsedStep)
    ensures
        res@ == parsed_step(
            import_id@,
            match view {
                Some(v) => Some(v@),
                None => None,
            },
            parse_result(parsed),
        ),
{
    if let Some(v) = view {
        assert(v@.candidates.len() == v.candidates@.len());
        if v.candidates.len() > 0 {
            return ParsedStep::Ignore;
        }
    }
    match parsed {
        Ok(candidates) => ParsedStep::Preview(
            RecordPreview { import_id: import_id.to_owned(), candidates },
        ),
        Err(err) => ParsedStep::Fail(
            RecordFailure {
                import_id: import_id.to_owned(),
                reason: text::join2("parse failed: ", err.as_str()),
            },
        ),
    }
}

// ── After the confirmation ──────────────────────────────────────────────

/// The first candidate with the id `id`.
pub open spec fn candidate_with(candidates: Seq<ParsedCandidateModel>, id: Seq<char>) -> Option<
    ParsedCandidateModel,
>
    decreases candidates.len(),
{
    if candidates.len() == 0 {
        None
    } else if candidates[0].id == id {
        Some(candidates[0])
    } else {
        candidate_with(candidates.drop_first(), id)
    }
}

/// The candidates that a list of picks asks to draft, in the order of the
/// picks. Picks that name no candidate, or a broken one, are passed over.
pub open spec fn draftable(
    candidates: Seq<ParsedCandidateModel>,
    picked_ids: Seq<Seq<char>>,
) -> Seq<ParsedCandidateModel>
    decreases picked_ids.len(),
{
    if picked_ids.len() == 0 {
        Seq::empty()
    } else {
        let earlier = draftable(candidates, picked_ids.drop_last());
        match candidate_with(candidates, picked_ids.last()) {
            Some(candidate) => if candidate.broken {
                earlier
            } else {
                earlier.push(candidate)
            },
            None => earlier,
        }
    }
}

/// A confirmed import in progress: the candidates to draft, and the ids of
/// the recipes drafted so far. The candidate whose turn it is stands at the
/// position that the number of drafted recipes gives.
#[derive(Debug, PartialEq)]
pub struct Confirmation {
    pub import_id: String,
    pub owner_id: String,
    pub source: String,
    pub todo: Vec<ParsedCandidate>,
    pub drafted: Vec<String>,
}

/// What a [`Confirmation`] holds, as mathematical values.
#[verifier::ext_equal]
pub struct ConfirmationModel {
    pub import_id: Seq<char>,
    pub owner_id: Seq<char>,
    pub source: Seq<char>,
    pub todo: Seq<ParsedCandidateModel>,
    pub drafted: Seq<Seq<char>>,
}

impl View for Confirmation {
    type V = ConfirmationModel;

    open spec fn view(&self) -> ConfirmationModel {
        ConfirmationModel {
            import_id: self.import_id@,
            owner_id: self.owner_id@,
            source: self.source@,
            todo: text::views(self.todo@),
            drafted: text::views(self.drafted@),
        }
    }
}

impl Clone for Confirmation {
    fn clone(&self) -> (res: Self)
        ensures
            res@ == self@,
    {
        let todo: Vec<ParsedCandidate> = self.todo.clone();
        assert(text::views(todo@) =~= text::views(self.todo@));
        Confirmation {
            import_id: self.import_id.clone(),
            owner_id: self.owner_id.clone(),
            source: self.source.clone(),
            todo,
            drafted: text::clone_texts(&self.drafted),
        }
    }
}

impl ConfirmationModel {
    /// No more recipes are drafted than there are candidates to draft.
    pub open spec fn well_formed(self) -> bool {
        self.drafted.len() <= self.todo.len()
    }

    /// Some candidate is still to be drafted.
    pub open spec fn pending(self) -> bool {
        self.drafted.len() < self.todo.len()
    }

    /// The candidate whose turn it is.
    pub open spec fn current(self) -> ParsedCandidateModel {
        self.todo[self.drafted.len() as int]
    }

    /// One more recipe is drafted.
    pub open spec fn with(self, recipe_id: Seq<char>) -> ConfirmationModel {
        ConfirmationModel { drafted: self.drafted.push(recipe_id), ..self }
    }
}

/// What comes next in a confirmed import.
#[derive(Debug, PartialEq)]
pub enum ConfirmedStep {
    /// There is no such import: the delivery of the event fails.
    NotFound(String),
    /// The import is over already; nothing is done.
    Ignore,
    /// Materialize the candidate, then go on with [`on_materialized`].
    Materialize(Confirmation, ParsedCandidate),
    /// Draft the recipe, then go on with [`on_drafted`].
    Draft(Confirmation, DraftRecipe),
    /// Record the completion.
    Complete(RecordCompletion),
    /// Record the failure.
    Fail(RecordFailure),
}

/// What a [`ConfirmedStep`] holds, as mathematical values.
#[verifier::ext_equal]
pub enum ConfirmedStepModel {
    NotFound(Seq<char>),
    Ignore,
    Materialize(ConfirmationModel, ParsedCandidateModel),
    Draft(ConfirmationModel, DraftRecipeModel),
    Complete(RecordCompletionModel),
    Fail(RecordFailureModel),
}

impl View for ConfirmedStep {
    type V = ConfirmedStepModel;

    open spec fn view(&self) -> ConfirmedStepModel {
        match self {
            ConfirmedStep::NotFound(message) => ConfirmedStepModel::NotFound(message@),
            ConfirmedStep::Ignore => ConfirmedStepModel::Ignore,
            ConfirmedStep::Materialize(run, candidate) => ConfirmedStepModel::Materialize(
                run@,
                candidate@,
            ),
            ConfirmedStep::Draft(run, cmd) => ConfirmedStepModel::Draft(run@, cmd@),
            ConfirmedStep::Complete(cmd) => ConfirmedStepModel::Complete(cmd@),
            ConfirmedStep::Fail(cmd) => ConfirmedStepModel::Fail(cmd@),
        }
    }
}

/// The next candidate is materialized; where there is none, the import is
/// complete.
pub open spec fn next_step(run: ConfirmationModel) -> ConfirmedStepModel {
    if run.pending() {
        ConfirmedStepModel::Materialize(run, run.current())
    } else {
        ConfirmedStepModel::Complete(
            RecordCompletionModel { import_id: run.import_id, recipe_ids: run.drafted },
        )
    }
}

fn step_on(run: Confirmation) -> (res: ConfirmedStep)
    requires
        run@.well_formed(),
    ensures
        res@ == next_step(run@),
{
    if run.drafted.len() < run.todo.len() {
        let candidate: ParsedCandidate = run.todo[run.drafted.len()].clone();
        ConfirmedStep::Materialize(run, candidate)
    } else {
        ConfirmedStep::Complete(
            RecordCompletion { import_id: run.import_id, recipe_ids: run.drafted },
        )
    }
}

/// How a confirmed import begins.
pub open spec fn first_run(
    import_id: Seq<char>,
    picked_ids: Seq<Seq<char>>,
    view: ImportViewModel,
) -> ConfirmationModel {
    ConfirmationModel {
        import_id,
        owner_id: view.owner_id,
        source: view.source,
        todo: draftable(view.candidates, picked_ids),
        drafted: Seq::empty(),
    }
}

/// What the confirmation of an import leads to first.
pub open spec fn first_step(
    import_id: Seq<char>,
    picked_ids: Seq<Seq<char>>,
    view: Option<ImportViewModel>,
) -> ConfirmedStepModel {
    match view {
        None => ConfirmedStepModel::NotFound(quoted("import ", import_id, " not found")),
        Some(v) => if v.terminal == Terminal::Pending {
            next_step(first_run(import_id, picked_ids, v))
        } else {
            ConfirmedStepModel::Ignore
        },
    }
}

fn find_candidate(candidates: &Vec<ParsedCandidate>, id: &str) -> (res: Option<ParsedCandidate>)
    ensures
        text::opt_view(res) == candidate_with(text::views(candidates@), id@),
{
    let ghost all = text::views(candidates@);
    let mut i: usize = 0;
    assert(all.skip(0) =~= all);
    while i < candidates.len()
        invariant
            i <= candidates.len(),
            all == text::views(candidates@),
            candidate_with(all, id@) == candidate_with(all.skip(i as int), id@),
        decreases candidates.len() - i,
    {
        assert(all.skip(i as int)[0] == candidates@[i as int]@);
        if text::same_text(candidates[i].id.as_str(), id) {
            return Some(candidates[i].clone());
        }
        assert(all.skip(i as int).drop_first() =~= all.skip(i + 1));
        i += 1;
    }
    None
}

fn draftable_picks(candidates: &Vec<ParsedCandidate>, picked_ids: &Vec<String>) -> (res: Vec<
    ParsedCandidate,
>)
    ensures
        text::views(res@) == draftable(text::views(candidates@), text::views(picked_ids@)),
{
    let ghost all = text::views(candidates@);
    let ghost picked = text::views(picked_ids@);
    let mut todo: Vec<ParsedCandidate> = Vec::new();
    let mut i: usize = 0;
    assert(text::views(todo@) =~= draftable(all, picked.take(0)));
    while i < picked_ids.len()
        invariant
            i <= picked_ids.len(),
            all == text::views(candidates@),
            picked == text::views(picked_ids@),
            text::views(todo@) == draftable(all, picked.take(i as int)),
        decreases picked_ids.len() - i,
    {
        let ghost before = todo@;
        proof {
            text::lemma_views_take(picked_ids@, i as int);
            assert(picked.take(i + 1).drop_last() =~= picked.take(i as int));
        }
        match find_candidate(candidates, picked_ids[i].as_str()) {
            Some(candidate) => {
                if !candidate.broken {
                    proof {
                        text::lemma_views_push(before, candidate);
                    }
                    todo.push(candidate);
                }
            },
            None => {},
        }
        i += 1;
    }
    assert(picked.take(i as int) =~= picked);
    todo
}

/// The confirmation of an import. `view` is the state of the import. An
/// import that is over already is left alone: the same event can be delivered
/// twice.
pub fn on_confirmed(import_id: &str, event: &ImportConfirmed, view: Option<ImportView>) -> (res:
    ConfirmedStep)
    ensures
        res@ == first_step(import_id@, event@.picked_ids, text::opt_view(view)),
{
    match view {
        None => ConfirmedStep::NotFound(text::join3("import ", import_id, " not found")),
        Some(v) => {
            match v.terminal {
                Terminal::Pending => {
                    let todo: Vec<ParsedCandidate> = draftable_picks(
                        &v.candidates,
                        &event.picked_ids,
                    );
                    let drafted: Vec<String> = Vec::new();
                    assert(text::views(drafted@) =~= Seq::<Seq<char>>::empty());
                    step_on(
                        Confirmation {
                            import_id: import_id.to_owned(),
                            owner_id: v.owner_id,
                            source: v.source,
                            todo,
                            drafted,
                        },
                    )
                },
                _ => ConfirmedStep::Ignore,
            }
        },
    }
}

/// The draft command that the material of a candidate becomes: the recipe
/// belongs to the importing user and names the import it came from.
pub open spec fn draft_of(run: ConfirmationModel, material: DraftMaterialModel) -> DraftRecipeModel {
    DraftRecipeModel {
        owner_id: run.owner_id,
        title: material.title,
        meal_type: material.meal_type,
        cuisine: material.cuisine,
        emoji: material.emoji,
        prep_minutes: material.prep_minutes,
        cook_minutes: material.cook_minutes,
        servings: material.servings,
        difficulty: material.difficulty,
        description: material.description,
        tags: material.tags,
        ingredients: material.ingredients,
        steps: material.steps,
        provenance: ProvenanceModel {
            kind: "import:"@ + run.source,
            import_job_id: run.import_id,
        },
    }
}

/// What follows once the current candidate is materialized.
pub open spec fn after_materialized(
    run: ConfirmationModel,
    material: Result<DraftMaterialModel, Seq<char>>,
) -> ConfirmedStepModel {
    match material {
        Ok(m) => ConfirmedStepModel::Draft(run, draft_of(run, m)),
        Err(err) => ConfirmedStepModel::Fail(
            RecordFailureModel {
                import_id: run.import_id,
                reason: quoted("materializing `", run.current().title, "` failed: ") + err,
            },
        ),
    }
}

/// What follows once the current candidate is drafted.
pub open spec fn after_drafted(
    run: ConfirmationModel,
    drafted: Result<Seq<char>, Seq<char>>,
) -> ConfirmedStepModel {
    match drafted {
        Ok(recipe_id) => next_step(run.with(recipe_id)),
        Err(err) => ConfirmedStepModel::Fail(
            RecordFailureModel {
                import_id: run.import_id,
                reason: quoted("drafting `", run.current().title, "` failed: ") + err,
            },
        ),
    }
}

/// The text that a result carries, on either side.
pub open spec fn text_result(value: Result<String, String>) -> Result<Seq<char>, Seq<char>> {
    match value {
        Ok(inner) => Ok(inner@),
        Err(err) => Err(err@),
    }
}

/// What came of materializing, as mathematical values.
pub open spec fn material_result(value: Result<DraftMaterial, String>) -> Result<
    DraftMaterialModel,
    Seq<char>,
> {
    match value {
        Ok(inner) => Ok(inner@),
        Err(err) => Err(err@),
    }
}

/// The current candidate is materialized: it is drafted, or the failure is
/// recorded.
pub fn on_materialized(run: Confirmation, material: Result<DraftMaterial, String>) -> (res:
    ConfirmedStep)
    requires
        run@.pending(),
    ensures
        res@ == after_materialized(run@, material_result(material)),
{
    match material {
        Ok(m) => {
            let provenance: Provenance = Provenance::from_import(
                run.source.as_str(),
                run.import_id.as_str(),
            );
            let cmd = DraftRecipe {
                owner_id: run.owner_id.clone(),
                title: m.title,
                meal_type: m.meal_type,
                cuisine: m.cuisine,
                emoji: m.emoji,
                prep_minutes: m.prep_minutes,
                cook_minutes: m.cook_minutes,
                servings: m.servings,
                difficulty: m.difficulty,
                description: m.description,
                tags: m.tags,
                ingredients: m.ingredients,
                steps: m.steps,
                provenance,
            };
            ConfirmedStep::Draft(run, cmd)
        },
        Err(err) => {
            let title: &String = &run.todo[run.drafted.len()].title;
            let head: String = text::join3("materializing `", title.as_str(), "` failed: ");
            ConfirmedStep::Fail(
                RecordFailure { import_id: run.import_id, reason: head.concat(err.as_str()) },
            )
        },
    }
}

/// The current candidate is drafted: the next one follows, or the failure is
/// recorded. Recipes that were drafted before stay as they are.
pub fn on_drafted(run: Confirmation, drafted: Result<String, String>) -> (res: ConfirmedStep)
    requires
        run@.pending(),
    ensures
        res@ == after_drafted(run@, text_result(drafted)),
{
    match drafted {
        Ok(recipe_id) => {
            let ghost before = run@;
            let ghost ids = run.drafted@;
            let mut next: Confirmation = run;
            proof {
                text::lemma_views_push(ids, recipe_id);
            }
            next.drafted.push(recipe_id);
            assert(next@ =~= before.with(recipe_id@));
            step_on(next)
        },
        Err(err) => {
            let title: &String = &run.todo[run.drafted.len()].title;
            let head: String = text::join3("drafting `", title.as_str(), "` failed: ");
            ConfirmedStep::Fail(
                RecordFailure { import_id: run.import_id, reason: head.concat(err.as_str()) },
            )
        },
    }
}

// ── What holds of every import ──────────────────────────────────────────

/// What comes of one pick: its recipe is drafted, or one of the two actions
/// fails.
pub enum PickOutcome {
    Drafted(DraftMaterialModel, Seq<char>),
    MaterializeFailed(Seq<char>),
    DraftFailed(DraftMaterialModel, Seq<char>),
}

/// How far a confirmed import gets with the given outcomes, one for each pick
/// that is reached: what it records at its end, or the step it waits at.
pub open spec fn driven(run: ConfirmationModel, outcomes: Seq<PickOutcome>) -> ConfirmedStepModel
    decreases outcomes.len(),
{
    if outcomes.len() == 0 || !run.pending() {
        next_step(run)
    } else {
        match outcomes[0] {
            PickOutcome::Drafted(_, recipe_id) => driven(
                run.with(recipe_id),
                outcomes.drop_first(),
            ),
            PickOutcome::MaterializeFailed(err) => after_materialized(run, Err(err)),
            PickOutcome::DraftFailed(_, err) => after_drafted(run, Err(err)),
        }
    }
}

/// The ids of the recipes that a list of outcomes drafts.
pub open spec fn drafted_ids(outcomes: Seq<PickOutcome>) -> Seq<Seq<char>> {
    outcomes.map_values(|outcome: PickOutcome| outcome->Drafted_1)
}

/// The log of an import after what the start of it, `event`, leads to, where
/// parsing the source gives `parsed`.
pub open spec fn log_after_start(
    log: Seq<RecipeImportModel>,
    import_id: Seq<char>,
    event: ImportStartedModel,
    parsed: Result<Seq<ParsedCandidateModel>, Seq<char>>,
) -> Seq<RecipeImportModel> {
    match import::source_of(event.source) {
        None => log.push(
            RecipeImportModel::ImportFailed(
                ImportFailedModel { reason: quoted("unknown source `", event.source, "`") },
            ),
        ),
        Some(_) => match parsed_step(import_id, view_after(log), parsed) {
            ParsedStepModel::Preview(cmd) => log.push(
                RecipeImportModel::ImportPreviewed(
                    ImportPreviewedModel { candidates: cmd.candidates },
                ),
            ),
            ParsedStepModel::Fail(cmd) => log.push(
                RecipeImportModel::ImportFailed(ImportFailedModel { reason: cmd.reason }),
            ),
            ParsedStepModel::Ignore => log,
        },
    }
}

/// Candidates that are on record stay: whatever comes of the start of the
/// import after that, a redelivery of it included, leaves them as they are,
/// and if the source is a known one it leaves the log as it is.
pub proof fn law_recorded_candidates_stay(
    log: Seq<RecipeImportModel>,
    import_id: Seq<char>,
    event: ImportStartedModel,
    parsed: Result<Seq<ParsedCandidateModel>, Seq<char>>,
)
    requires
        has_candidates(view_after(log)),
    ensures
        view_after(log_after_start(log, import_id, event, parsed)) is Some,
        view_after(log_after_start(log, import_id, event, parsed))->0.candidates == view_after(
            log,
        )->0.candidates,
        import::source_of(event.source) is Some ==> log_after_start(log, import_id, event, parsed)
            == log,
{
    if import::source_of(event.source) is None {
        let later = log_after_start(log, import_id, event, parsed);
        assert(later.drop_last() =~= log);
    }
}

/// If every pick is drafted, the import completes with the ids of all the new
/// recipes, in the order of the picks.
pub proof fn law_all_picks_drafted_completes(run: ConfirmationModel, outcomes: Seq<PickOutcome>)
    requires
        run.well_formed(),
        outcomes.len() == run.todo.len() - run.drafted.len(),
        forall|i: int| 0 <= i < outcomes.len() ==> (#[trigger] outcomes[i]) is Drafted,
    ensures
        driven(run, outcomes) == ConfirmedStepModel::Complete(
            RecordCompletionModel {
                import_id: run.import_id,
                recipe_ids: run.drafted + drafted_ids(outcomes),
            },
        ),
    decreases outcomes.len(),
{
    if outcomes.len() == 0 {
        assert(run.drafted + drafted_ids(outcomes) =~= run.drafted);
    } else {
        assert(outcomes[0] is Drafted);
        let id = outcomes[0]->Drafted_1;
        let rest = outcomes.drop_first();
        assert forall|i: int| 0 <= i < rest.len() implies (#[trigger] rest[i]) is Drafted by {
            assert(rest[i] == outcomes[i + 1]);
        }
        law_all_picks_drafted_completes(run.with(id), rest);
        assert(run.with(id).drafted + drafted_ids(rest) =~= run.drafted + drafted_ids(outcomes));
    }
}

/// The first pick that fails ends the import as failed, with a reason that
/// names the pick; the picks after it are not looked at.
pub proof fn law_first_failure_ends_the_import(
    run: ConfirmationModel,
    outcomes: Seq<PickOutcome>,
    k: int,
)
    requires
        run.well_formed(),
        0 <= k < outcomes.len(),
        k < run.todo.len() - run.drafted.len(),
        forall|i: int| 0 <= i < k ==> (#[trigger] outcomes[i]) is Drafted,
        !(outcomes[k] is Drafted),
    ensures
        driven(run, outcomes) == ConfirmedStepModel::Fail(
            RecordFailureModel {
                import_id: run.import_id,
                reason: match outcomes[k] {
                    PickOutcome::DraftFailed(_, err) => quoted(
                        "drafting `",
                        run.todo[run.drafted.len() + k].title,
                        "` failed: ",
                    ) + err,
                    PickOutcome::MaterializeFailed(err) => quoted(
                        "materializing `",
                        run.todo[run.drafted.len() + k].title,
                        "` failed: ",
                    ) + err,
                    PickOutcome::Drafted(_, _) => Seq::empty(),
                },
            },
        ),
    decreases k,
{
    if k > 0 {
        assert(outcomes[0] is Drafted);
        let rest = outcomes.drop_first();
        assert forall|i: int| 0 <= i < k - 1 implies (#[trigger] rest[i]) is Drafted by {
            assert(rest[i] == outcomes[i + 1]);
        }
        law_first_failure_ends_the_import(run.with(outcomes[0]->Drafted_1), rest, k - 1);
    }
}

/// Once the completion or the failure of an import is in its log, delivering
/// its confirmation again does nothing.
pub proof fn law_finished_imports_are_left_alone(
    log: Seq<RecipeImportModel>,
    i: int,
    import_id: Seq<char>,
    picked_ids: Seq<Seq<char>>,
)
    requires
        0 <= i < log.len(),
        log[i] is ImportCompleted || log[i] is ImportFailed,
    ensures
        first_step(import_id, picked_ids, view_after(log)) == ConfirmedStepModel::Ignore,
    decreases log.len(),
{
    if i < log.len() - 1 {
        law_finished_imports_are_left_alone(log.drop_last(), i, import_id, picked_ids);
    }
}

/// No broken candidate is ever drafted, and every candidate that is drafted
/// was both previewed and picked.
pub proof fn law_only_good_picks_are_drafted(
    candidates: Seq<ParsedCandidateModel>,
    picked_ids: Seq<Seq<char>>,
    i: int,
)
    requires
        0 <= i < draftable(candidates, picked_ids).len(),
    ensures
        !draftable(candidates, picked_ids)[i].broken,
        candidates.contains(draftable(candidates, picked_ids)[i]),
        picked_ids.contains(draftable(candidates, picked_ids)[i].id),
    decreases picked_ids.len(),
{
    let rest = picked_ids.drop_last();
    let chosen = draftable(candidates, picked_ids)[i];
    if i < draftable(candidates, rest).len() {
        law_only_good_picks_are_drafted(candidates, rest, i);
        let j = choose|j: int| 0 <= j < rest.len() && rest[j] == chosen.id;
        assert(picked_ids[j] == chosen.id);
    } else {
        lemma_candidate_with(candidates, picked_ids.last());
        assert(picked_ids[picked_ids.len() - 1] == chosen.id);
    }
}

proof fn lemma_candidate_with(candidates: Seq<ParsedCandidateModel>, id: Seq<char>)
    ensures
        candidate_with(candidates, id) matches Some(candidate) ==> candidate.id == id
            && candidates.contains(candidate),
    decreases candidates.len(),
{
    if candidates.len() > 0 {
        if candidates[0].id == id {
            assert(candidates.contains(candidates[0]));
        } else {
            let rest = candidates.drop_first();
            lemma_candidate_with(rest, id);
            if candidate_with(rest, id) is Some {
                let candidate = candidate_with(rest, id)->0;
                let j = choose|j: int| 0 <= j < rest.len() && rest[j] == candidate;
                assert(candidates[j + 1] == candidate);
            }
        }
    }
}

/// An import never drafts more recipes than were picked.
pub proof fn law_no_more_drafts_than_picks(
    candidates: Seq<ParsedCandidateModel>,
    picked_ids: Seq<Seq<char>>,
)
    ensures
        draftable(candidates, picked_ids).len() <= picked_ids.len(),
    decreases picked_ids.len(),
{
    if picked_ids.len() > 0 {
        law_no_more_drafts_than_picks(candidates, picked_ids.drop_last());
    }
}

/// A recipe that an import drafts belongs to the user who started the import
/// and names the source and the import that it came from.
pub proof fn law_imported_recipes_name_their_import(
    import_id: Seq<char>,
    picked_ids: Seq<Seq<char>>,
    view: ImportViewModel,
    material: DraftMaterialModel,
)
    ensures
        recipe::drafted(draft_of(first_run(import_id, picked_ids, view), material)) matches Ok(event)
            ==> event.owner_id == view.owner_id && event.provenance == (ProvenanceModel {
            kind: "import:"@ + view.source,
            import_job_id: import_id,
        }),
{
}

/// What the built-in parser gives for a titled candidate is always accepted
/// as a draft, for any owner.
pub proof fn law_seed_material_can_be_drafted(
    run: ConfirmationModel,
    candidate: ParsedCandidateModel,
)
    requires
        !text::blank(run.owner_id),
        !text::blank(candidate.title),
    ensures
        recipe::drafted(draft_of(run, parser::seed_material(candidate))) is Ok,
{
    let cmd = draft_of(run, parser::seed_material(candidate));
    reveal_strlit("Ingredient ");
    reveal_strlit("Step ");
    let first = cmd.ingredients[0];
    assert(!text::is_white_space(first.name[0]));
    recipe::lemma_filter_nonempty(cmd.ingredients, recipe::named(), 0);
    let line = cmd.steps[0];
    assert(!text::is_white_space(line.text[0]));
    recipe::lemma_filter_nonempty(cmd.steps, recipe::worded(), 0);
}

// ── What each step of an import does ────────────────────────────────────

/// Each event changes its own part of the state of an import: the start the
/// owner and the source, a preview the candidates, an end the end.
pub proof fn law_state_follows_the_events(
    view: ImportViewModel,
    started: ImportStartedModel,
    previewed: ImportPreviewedModel,
    event: RecipeImportModel,
)
    ensures
        ({
            let next = view_step(view, RecipeImportModel::ImportStarted(started));
            next.owner_id == started.owner_id && next.source == started.source && next.candidates
                == view.candidates && next.terminal == view.terminal
        }),
        ({
            let next = view_step(view, RecipeImportModel::ImportPreviewed(previewed));
            next.candidates == previewed.candidates && next.owner_id == view.owner_id
                && next.source == view.source && next.terminal == view.terminal
        }),
        event is ImportConfirmed ==> view_step(view, event) == view,
        event is ImportCompleted ==> view_step(view, event).terminal == Terminal::Completed,
        event is ImportFailed ==> view_step(view, event).terminal == Terminal::Failed,
        event is ImportCompleted || event is ImportFailed ==> view_step(view, event).candidates
            == view.candidates && view_step(view, event).owner_id == view.owner_id && view_step(
            view,
            event,
        ).source == view.source,
{
}

/// The state of an import after its log is that after all but the last event,
/// changed by the last one.
pub proof fn law_state_is_folded_from_the_log(
    log: Seq<RecipeImportModel>,
    event: RecipeImportModel,
)
    ensures
        view_after(log) is None <==> log.len() == 0,
        log.len() > 0 ==> view_after(log.push(event)) == Some(view_step(view_after(log)->0, event)),
{
    assert(log.push(event).drop_last() =~= log);
}

/// What parsing gives is recorded as it is, for the import that it was done
/// for, as long as the import has no candidates yet.
pub proof fn law_what_is_parsed_is_recorded(
    import_id: Seq<char>,
    view: Option<ImportViewModel>,
    candidates: Seq<ParsedCandidateModel>,
    err: Seq<char>,
)
    requires
        view matches Some(v) ==> v.candidates.len() == 0,
    ensures
        parsed_step(import_id, view, Ok(candidates)) matches ParsedStepModel::Preview(cmd)
            && cmd.import_id == import_id && cmd.candidates == candidates,
        parsed_step(import_id, view, Err(err)) matches ParsedStepModel::Fail(cmd)
            && cmd.import_id == import_id && err.is_suffix_of(cmd.reason),
{
    let reason = "parse failed: "@ + err;
    assert(reason.skip(reason.len() - err.len()) =~= err);
}

/// The candidate of an id is the first one that has it.
pub proof fn law_the_first_candidate_of_an_id(
    candidates: Seq<ParsedCandidateModel>,
    id: Seq<char>,
    k: int,
)
    requires
        0 <= k <= candidates.len(),
        forall|j: int| 0 <= j < k ==> (#[trigger] candidates[j]).id != id,
        k < candidates.len() ==> candidates[k].id == id,
    ensures
        candidate_with(candidates, id) == if k < candidates.len() {
            Some(candidates[k])
        } else {
            None
        },
    decreases k,
{
    if k > 0 {
        assert(candidates[0].id != id);
        let rest = candidates.drop_first();
        assert forall|j: int| 0 <= j < k - 1 implies (#[trigger] rest[j]).id != id by {
            assert(rest[j] == candidates[j + 1]);
        }
        law_the_first_candidate_of_an_id(rest, id, k - 1);
    }
}

/// Each pick contributes by itself, in the order of the picks: the first
/// candidate with its id, unless that is broken or there is none.
pub proof fn law_every_good_pick_is_drafted(
    candidates: Seq<ParsedCandidateModel>,
    before: Seq<Seq<char>>,
    id: Seq<char>,
    after: Seq<Seq<char>>,
    k: int,
)
    requires
        0 <= k <= candidates.len(),
        forall|j: int| 0 <= j < k ==> (#[trigger] candidates[j]).id != id,
        k < candidates.len() ==> candidates[k].id == id,
    ensures
        k < candidates.len() && !candidates[k].broken ==> draftable(
            candidates,
            before.push(id) + after,
        ) == draftable(candidates, before).push(candidates[k]) + draftable(candidates, after),
        k < candidates.len() && candidates[k].broken ==> draftable(
            candidates,
            before.push(id) + after,
        ) == draftable(candidates, before) + draftable(candidates, after),
        k == candidates.len() ==> draftable(candidates, before.push(id) + after) == draftable(
            candidates,
            before,
        ) + draftable(candidates, after),
    decreases after.len(),
{
    law_the_first_candidate_of_an_id(candidates, id, k);
    let all = before.push(id) + after;
    if after.len() == 0 {
        assert(all =~= before.push(id));
        assert(all.drop_last() =~= before);
        assert(draftable(candidates, after) =~= Seq::<ParsedCandidateModel>::empty());
        assert(draftable(candidates, all) + draftable(candidates, after) =~= draftable(
            candidates,
            all,
        ));
    } else {
        law_every_good_pick_is_drafted(candidates, before, id, after.drop_last(), k);
        assert(all.drop_last() =~= before.push(id) + after.drop_last());
        assert(all.last() == after.last());
        if k < candidates.len() && !candidates[k].broken {
            assert(draftable(candidates, all) =~= draftable(candidates, before).push(
                candidates[k],
            ) + draftable(candidates, after));
        } else {
            assert(draftable(candidates, all) =~= draftable(candidates, before) + draftable(
                candidates,
                after,
            ));
        }
    }
}

/// Whether a pick names a candidate that is not broken: the first one that has
/// the id.
pub open spec fn is_good_pick(candidates: Seq<ParsedCandidateModel>, id: Seq<char>) -> bool {
    exists|k: int|
        0 <= k < candidates.len() && (#[trigger] candidates[k]).id == id && !candidates[k].broken
            && forall|j: int| 0 <= j < k ==> (#[trigger] candidates[j]).id != id
}

/// As many candidates are to be drafted as there are picks that name one that
/// is not broken.
pub proof fn law_as_many_drafts_as_good_picks(
    candidates: Seq<ParsedCandidateModel>,
    picked_ids: Seq<Seq<char>>,
)
    ensures
        draftable(candidates, picked_ids).len() == picked_ids.filter(
            |id: Seq<char>| is_good_pick(candidates, id),
        ).len(),
    decreases picked_ids.len(),
{
    reveal(Seq::filter);
    if picked_ids.len() > 0 {
        let rest = picked_ids.drop_last();
        let id = picked_ids.last();
        law_as_many_drafts_as_good_picks(candidates, rest);
        lemma_first_position(candidates, id);
        let k = choose|k: int| is_first_position(candidates, id, k);
        law_every_good_pick_is_drafted(candidates, rest, id, Seq::empty(), k);
        assert(rest.push(id) + Seq::<Seq<char>>::empty() =~= picked_ids);
        assert(draftable(candidates, Seq::<Seq<char>>::empty()).len() == 0);
        if is_good_pick(candidates, id) {
            let g = choose|g: int|
                0 <= g < candidates.len() && (#[trigger] candidates[g]).id == id
                    && !candidates[g].broken && forall|j: int|
                    0 <= j < g ==> (#[trigger] candidates[j]).id != id;
            assert(g == k);
        } else if k < candidates.len() {
            assert(candidates[k].broken);
        }
    }
}

spec fn is_first_position(
    candidates: Seq<ParsedCandidateModel>,
    id: Seq<char>,
    k: int,
) -> bool {
    &&& 0 <= k <= candidates.len()
    &&& forall|j: int| 0 <= j < k ==> (#[trigger] candidates[j]).id != id
    &&& k < candidates.len() ==> candidates[k].id == id
}

proof fn lemma_first_position(candidates: Seq<ParsedCandidateModel>, id: Seq<char>)
    ensures
        exists|k: int| is_first_position(candidates, id, k),
    decreases candidates.len(),
{
    if candidates.len() == 0 {
        assert(is_first_position(candidates, id, 0));
    } else {
        let rest = candidates.drop_last();
        lemma_first_position(rest, id);
        let k = choose|k: int| is_first_position(rest, id, k);
        assert forall|j: int| 0 <= j < k implies (#[trigger] candidates[j]).id != id by {
            assert(rest[j] == candidates[j]);
        }
        if k < rest.len() {
            assert(rest[k] == candidates[k]);
            assert(is_first_position(candidates, id, k));
        } else if candidates.last().id == id {
            assert(is_first_position(candidates, id, k));
        } else {
            assert(is_first_position(candidates, id, k + 1));
        }
    }
}

/// A confirmation of an import that is not over begins with the first good
/// pick, and completes at once, without recipes, only if there is none. One
/// of an import that is over is ignored.
pub proof fn law_confirmations_begin_with_the_first_good_pick(
    import_id: Seq<char>,
    picked_ids: Seq<Seq<char>>,
    view: ImportViewModel,
    i: int,
    k: int,
)
    requires
        view.terminal == Terminal::Pending,
        0 <= i < picked_ids.len(),
        forall|j: int| 0 <= j < i ==> !is_good_pick(view.candidates, #[trigger] picked_ids[j]),
        0 <= k < view.candidates.len(),
        view.candidates[k].id == picked_ids[i],
        !view.candidates[k].broken,
        forall|j: int| 0 <= j < k ==> (#[trigger] view.candidates[j]).id != picked_ids[i],
    ensures
        first_step(import_id, picked_ids, Some(view)) matches ConfirmedStepModel::Materialize(
            run,
            candidate,
        ) && candidate == view.candidates[k] && run.drafted.len() == 0 && run.import_id
            == import_id && run.owner_id == view.owner_id && run.source == view.source,
        first_step(import_id, picked_ids, None) is NotFound,
{
    let before = picked_ids.take(i);
    let after = picked_ids.skip(i + 1);
    assert(before.push(picked_ids[i]) + after =~= picked_ids);
    law_every_good_pick_is_drafted(view.candidates, before, picked_ids[i], after, k);
    let good = |id: Seq<char>| is_good_pick(view.candidates, id);
    law_as_many_drafts_as_good_picks(view.candidates, before);
    assert forall|j: int| 0 <= j < before.len() implies !good(#[trigger] before[j]) by {
        assert(before[j] == picked_ids[j]);
    }
    lemma_filter_none(before, good);
    assert(draftable(view.candidates, before) =~= Seq::<ParsedCandidateModel>::empty());
    assert(first_run(import_id, picked_ids, view).todo[0] == view.candidates[k]);
}

proof fn lemma_filter_none(items: Seq<Seq<char>>, keep: spec_fn(Seq<char>) -> bool)
    requires
        forall|i: int| 0 <= i < items.len() ==> !keep(#[trigger] items[i]),
    ensures
        items.filter(keep).len() == 0,
    decreases items.len(),
{
    reveal(Seq::filter);
    if items.len() > 0 {
        lemma_filter_none(items.drop_last(), keep);
    }
}

/// A confirmed import whose picks are all drafted completes with one recipe
/// for each good pick.
pub proof fn law_a_recipe_for_every_good_pick(
    import_id: Seq<char>,
    picked_ids: Seq<Seq<char>>,
    view: ImportViewModel,
    outcomes: Seq<PickOutcome>,
)
    requires
        outcomes.len() == picked_ids.filter(
            |id: Seq<char>| is_good_pick(view.candidates, id),
        ).len(),
        forall|i: int| 0 <= i < outcomes.len() ==> (#[trigger] outcomes[i]) is Drafted,
    ensures
        driven(first_run(import_id, picked_ids, view), outcomes)
            matches ConfirmedStepModel::Complete(cmd) && cmd.import_id == import_id
            && cmd.recipe_ids.len() == outcomes.len() && forall|i: int|
            0 <= i < outcomes.len() ==> (#[trigger] cmd.recipe_ids[i]) == outcomes[i]->Drafted_1,
{
    let run = first_run(import_id, picked_ids, view);
    law_as_many_drafts_as_good_picks(view.candidates, picked_ids);
    law_all_picks_drafted_completes(run, outcomes);
    assert(run.drafted + drafted_ids(outcomes) =~= drafted_ids(outcomes));
}

/// A recipe is drafted from an import with all that its material holds.
pub proof fn law_drafts_carry_the_material(run: ConfirmationModel, material: DraftMaterialModel)
    ensures
        after_materialized(run, Ok(material)) matches ConfirmedStepModel::Draft(next, cmd) && next
            == run && cmd.owner_id == run.owner_id && cmd.title == material.title && cmd.meal_type
            == material.meal_type && cmd.cuisine == material.cuisine && cmd.emoji
            == material.emoji && cmd.prep_minutes == material.prep_minutes && cmd.cook_minutes
            == material.cook_minutes && cmd.servings == material.servings && cmd.difficulty
            == material.difficulty && cmd.description == material.description && cmd.tags
            == material.tags && cmd.ingredients == material.ingredients && cmd.steps
            == material.steps && cmd.provenance.import_job_id == run.import_id
            && cmd.provenance.kind == "import:"@ + run.source,
{
}

/// A drafted recipe is added to those of the import, and the next candidate
/// has its turn; after the last one the import completes with all of them.
pub proof fn law_drafting_goes_on(run: ConfirmationModel, recipe_id: Seq<char>)
    requires
        run.drafted.len() < run.todo.len(),
    ensures
        run.drafted.len() + 1 < run.todo.len() ==> (after_drafted(run, Ok(recipe_id))
            matches ConfirmedStepModel::Materialize(next, candidate) && next.drafted
            == run.drafted.push(recipe_id) && next.todo == run.todo && next.owner_id
            == run.owner_id && next.import_id == run.import_id && next.source == run.source
            && candidate == run.todo[run.drafted.len() as int + 1]),
        run.drafted.len() + 1 == run.todo.len() ==> (after_drafted(run, Ok(recipe_id))
            matches ConfirmedStepModel::Complete(cmd) && cmd.import_id == run.import_id
            && cmd.recipe_ids == run.drafted.push(recipe_id)),
{
}

/// An import from a known source is parsed from that source; one from any
/// other fails, with a reason that names the source.
pub proof fn law_known_sources_are_parsed(
    step: StartedStep,
    import_id: Seq<char>,
    event: ImportStartedModel,
    source: import::ImportSource,
)
    requires
        starts_with(step, import_id, event),
    ensures
        event.source == source.slug_text() ==> step == StartedStep::Parse(source),
        import::source_of(event.source) is None ==> (step matches StartedStep::Fail(cmd)
            && cmd@.import_id == import_id && cmd@.reason == "unknown source `"@ + event.source
            + "`"@),
{
    import::law_source_slug_round_trip(source, Seq::empty());
}

/// A model has every field of the value that it stands for.
pub proof fn law_models_have_every_field(
    import_view: ImportView,
    confirmation: Confirmation,
)
    ensures
        import_view@.owner_id == import_view.owner_id@,
        import_view@.source == import_view.source@,
        import_view@.candidates == text::views(import_view.candidates@),
        import_view@.terminal == import_view.terminal,
        confirmation@.import_id == confirmation.import_id@,
        confirmation@.owner_id == confirmation.owner_id@,
        confirmation@.source == confirmation.source@,
        confirmation@.todo == text::views(confirmation.todo@),
        confirmation@.drafted == text::views(confirmation.drafted@),
{
}

} // verus!
