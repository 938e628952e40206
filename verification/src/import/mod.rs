//! Importing recipes: the `RecipeImport` aggregate.
//!
//! An import is one session of the user's. It runs over these stages:
//!
//! ```text
//!   Started ── ImportPreviewed ──► Previewed
//!                                       │ ImportConfirmed
//!                                       ▼
//!                    one RecipeDrafted per pick ──► Completed
//!                                       │
//!                                       └─ any failure ──► Failed
//! ```
//!
//! A failure midway leaves the recipes that were drafted before it in place:
//! the user asked for them. [`saga`] holds the decisions that carry an import
//! from one stage to the next, [`parser`] what a source is turned into.

use vstd::prelude::*;
use vstd::string::*;

use crate::import::parser::ParsedCandidate;
use crate::import::parser::ParsedCandidateModel;
use crate::text;

pub mod parser;
pub mod saga;

verus! {

/// Which kind of source the user picked on the upload screen.
#[derive(Debug, Clone, Copy, PartialEq, Eq, Structural)]
pub enum ImportSource {
    Url,
    Photo,
    Text,
    Share,
    File,
}

impl ImportSource {
    /// The stable slug of a source.
    pub open spec fn slug_text(self) -> Seq<char> {
        match self {
            ImportSource::Url => "url"@,
            ImportSource::Photo => "photo"@,
            ImportSource::Text => "text"@,
            ImportSource::Share => "share"@,
            ImportSource::File => "file"@,
        }
    }

    pub fn slug(self) -> (res: &'static str)
        ensures
            res@ == self.slug_text(),
    {
        match self {
            ImportSource::Url => "url",
            ImportSource::Photo => "photo",
            ImportSource::Text => "text",
            ImportSource::Share => "share",
            ImportSource::File => "file",
        }
    }

    /// The source with the slug `s`, if there is one.
    pub fn parse(s: &str) -> (res: Option<Self>)
        ensures
            res == source_of(s@),
    {
        if text::same_text(s, "url") {
            Some(ImportSource::Url)
        } else if text::same_text(s, "photo") {
            Some(ImportSource::Photo)
        } else if text::same_text(s, "text") {
            Some(ImportSource::Text)
        } else if text::same_text(s, "share") {
            Some(ImportSource::Share)
        } else if text::same_text(s, "file") {
            Some(ImportSource::File)
        } else {
            None
        }
    }
}

/// The source with the slug `s`, if there is one.
pub open spec fn source_of(s: Seq<char>) -> Option<ImportSource> {
    if s == ImportSource::Url.slug_text() {
        Some(ImportSource::Url)
    } else if s == ImportSource::Photo.slug_text() {
        Some(ImportSource::Photo)
    } else if s == ImportSource::Text.slug_text() {
        Some(ImportSource::Text)
    } else if s == ImportSource::Share.slug_text() {
        Some(ImportSource::Share)
    } else if s == ImportSource::File.slug_text() {
        Some(ImportSource::File)
    } else {
        None
    }
}

/// Reading the slug of a source gives the source back, and every text that is
/// read as a source is its slug.
pub proof fn law_source_slug_round_trip(source: ImportSource, s: Seq<char>)
    ensures
        source_of(source.slug_text()) == Some(source),
        source_of(s) == Some(source) ==> s == source.slug_text(),
{
    reveal_strlit("url");
    reveal_strlit("photo");
    reveal_strlit("text");
    reveal_strlit("share");
    reveal_strlit("file");
    assert("url"@.len() == 3 && "text"@.len() == 4 && "file"@.len() == 4);
    assert("photo"@.len() == 5 && "share"@.len() == 5);
    assert("photo"@[0] == 'p' && "share"@[0] == 's');
    assert("text"@[0] == 't' && "file"@[0] == 'f');
}

/// The stage of an import, as pages show it.
#[derive(Debug, Clone, Copy, PartialEq, Eq, Structural)]
pub enum ImportStage {
    Started,
    Previewed,
    Completed,
    Failed,
}

impl ImportStage {
    /// The stable slug of a stage.
    pub open spec fn slug_text(self) -> Seq<char> {
        match self {
            ImportStage::Started => "started"@,
            ImportStage::Previewed => "previewed"@,
            ImportStage::Completed => "completed"@,
            ImportStage::Failed => "failed"@,
        }
    }

    pub fn slug(self) -> (res: &'static str)
        ensures
            res@ == self.slug_text(),
    {
        match self {
            ImportStage::Started => "started",
            ImportStage::Previewed => "previewed",
            ImportStage::Completed => "completed",
            ImportStage::Failed => "failed",
        }
    }
}

/// Stages are told apart by their slugs.
pub proof fn law_stage_slugs_differ(a: ImportStage, b: ImportStage)
    ensures
        a.slug_text() == b.slug_text() ==> a == b,
{
    reveal_strlit("started");
    reveal_strlit("previewed");
    reveal_strlit("completed");
    reveal_strlit("failed");
    assert("started"@.len() == 7 && "previewed"@.len() == 9 && "completed"@.len() == 9);
    assert("failed"@.len() == 6);
    assert("previewed"@[0] == 'p' && "completed"@[0] == 'c');
}

// ── Events ──────────────────────────────────────────────────────────────

/// The user picked a source on the upload screen.
#[derive(Debug, PartialEq)]
pub struct ImportStarted {
    pub owner_id: String,
    /// The slug of the source.
    pub source: String,
    /// What the source is called on the screen, such as a file name.
    pub source_label: String,
}

/// What a [`ImportStarted`] holds, as mathematical values.
#[verifier::ext_equal]
pub struct ImportStartedModel {
    pub owner_id: Seq<char>,
    pub source: Seq<char>,
    pub source_label: Seq<char>,
}

impl View for ImportStarted {
    type V = ImportStartedModel;

    open spec fn view(&self) -> ImportStartedModel {
        ImportStartedModel {
            owner_id: self.owner_id@,
            source: self.source@,
            source_label: self.source_label@,
        }
    }
}

impl Clone for ImportStarted {
    fn clone(&self) -> (res: Self)
        ensures
            res@ == self@,
    {
        ImportStarted {
            owner_id: self.owner_id.clone(),
            source: self.source.clone(),
            source_label: self.source_label.clone(),
        }
    }
}

/// The parser produced a list of candidates.
#[derive(Debug, PartialEq)]
pub struct ImportPreviewed {
    pub candidates: Vec<ParsedCandidate>,
}

/// What a [`ImportPreviewed`] holds, as mathematical values.
#[verifier::ext_equal]
pub struct ImportPreviewedModel {
    pub candidates: Seq<ParsedCandidateModel>,
}

impl View for ImportPreviewed {
    type V = ImportPreviewedModel;

    open spec fn view(&self) -> ImportPreviewedModel {
        ImportPreviewedModel {
            candidates: text::views(self.candidates@),
        }
    }
}

impl Clone for ImportPreviewed {
    fn clone(&self) -> (res: Self)
        ensures
            res@ == self@,
    {
        let candidates: Vec<ParsedCandidate> = self.candidates.clone();
        assert(text::views(candidates@) =~= text::views(self.candidates@));
        ImportPreviewed {
            candidates,
        }
    }
}

/// The user picked some of the candidates and confirmed.
#[derive(Debug, PartialEq)]
pub struct ImportConfirmed {
    pub picked_ids: Vec<String>,
}

/// What a [`ImportConfirmed`] holds, as mathematical values.
#[verifier::ext_equal]
pub struct ImportConfirmedModel {
    pub picked_ids: Seq<Seq<char>>,
}

impl View for ImportConfirmed {
    type V = ImportConfirmedModel;

    open spec fn view(&self) -> ImportConfirmedModel {
        ImportConfirmedModel {
            picked_ids: text::views(self.picked_ids@),
        }
    }
}

impl Clone for ImportConfirmed {
    fn clone(&self) -> (res: Self)
        ensures
            res@ == self@,
    {
        ImportConfirmed {
            picked_ids: text::clone_texts(&self.picked_ids),
        }
    }
}

/// All picked recipes are drafted; these are their ids, in the order of the
/// picks.
#[derive(Debug, PartialEq)]
pub struct ImportCompleted {
    pub recipe_ids: Vec<String>,
}

/// What a [`ImportCompleted`] holds, as mathematical values.
#[verifier::ext_equal]
pub struct ImportCompletedModel {
    pub recipe_ids: Seq<Seq<char>>,
}

impl View for ImportCompleted {
    type V = ImportCompletedModel;

    open spec fn view(&self) -> ImportCompletedModel {
        ImportCompletedModel {
            recipe_ids: text::views(self.recipe_ids@),
        }
    }
}

impl Clone for ImportCompleted {
    fn clone(&self) -> (res: Self)
        ensures
            res@ == self@,
    {
        ImportCompleted {
            recipe_ids: text::clone_texts(&self.recipe_ids),
        }
    }
}

/// The import failed for good; the reason is shown to the user as it is.
#[derive(Debug, PartialEq)]
pub struct ImportFailed {
    pub reason: String,
}

/// What a [`ImportFailed`] holds, as mathematical values.
#[verifier::ext_equal]
pub struct ImportFailedModel {
    pub reason: Seq<char>,
}

impl View for ImportFailed {
    type V = ImportFailedModel;

    open spec fn view(&self) -> ImportFailedModel {
        ImportFailedModel {
            reason: self.reason@,
        }
    }
}

impl Clone for ImportFailed {
    fn clone(&self) -> (res: Self)
        ensures
            res@ == self@,
    {
        ImportFailed {
            reason: self.reason.clone(),
        }
    }
}

/// The events of an import.
#[derive(Debug, PartialEq)]
pub enum RecipeImport {
    ImportStarted(ImportStarted),
    ImportPreviewed(ImportPreviewed),
    ImportConfirmed(ImportConfirmed),
    ImportCompleted(ImportCompleted),
    ImportFailed(ImportFailed),
}

/// What a [`RecipeImport`] event holds, as mathematical values.
#[verifier::ext_equal]
pub enum RecipeImportModel {
    ImportStarted(ImportStartedModel),
    ImportPreviewed(ImportPreviewedModel),
    ImportConfirmed(ImportConfirmedModel),
    ImportCompleted(ImportCompletedModel),
    ImportFailed(ImportFailedModel),
}

impl View for RecipeImport {
    type V = RecipeImportModel;

    open spec fn view(&self) -> RecipeImportModel {
        match self {
            RecipeImport::ImportStarted(event) => RecipeImportModel::ImportStarted(event@),
            RecipeImport::ImportPreviewed(event) => RecipeImportModel::ImportPreviewed(event@),
            RecipeImport::ImportConfirmed(event) => RecipeImportModel::ImportConfirmed(event@),
            RecipeImport::ImportCompleted(event) => RecipeImportModel::ImportCompleted(event@),
            RecipeImport::ImportFailed(event) => RecipeImportModel::ImportFailed(event@),
        }
    }
}

// ── Commands ────────────────────────────────────────────────────────────

/// Why a command on an import is refused.
#[derive(Debug, Clone, Copy, PartialEq, Eq, Structural)]
pub enum ImportError {
    OwnerRequired,
    NothingPicked,
}

impl ImportError {
    pub open spec fn message_text(self) -> Seq<char> {
        match self {
            ImportError::OwnerRequired => "owner is required"@,
            ImportError::NothingPicked => "pick at least one recipe"@,
        }
    }

    /// The refusal in words, as shown to the user.
    pub fn message(self) -> (res: &'static str)
        ensures
            res@ == self.message_text(),
    {
        match self {
            ImportError::OwnerRequired => "owner is required",
            ImportError::NothingPicked => "pick at least one recipe",
        }
    }
}

/// Command: the user picked a source, start a new import.
#[derive(Debug, PartialEq)]
pub struct StartImport {
    pub owner_id: String,
    pub source: ImportSource,
    pub source_label: String,
}

/// What a [`StartImport`] holds, as mathematical values.
#[verifier::ext_equal]
pub struct StartImportModel {
    pub owner_id: Seq<char>,
    pub source: ImportSource,
    pub source_label: Seq<char>,
}

impl View for StartImport {
    type V = StartImportModel;

    open spec fn view(&self) -> StartImportModel {
        StartImportModel {
            owner_id: self.owner_id@,
            source: self.source,
            source_label: self.source_label@,
        }
    }
}

impl Clone for StartImport {
    fn clone(&self) -> (res: Self)
        ensures
            res@ == self@,
    {
        StartImport {
            owner_id: self.owner_id.clone(),
            source: self.source,
            source_label: self.source_label.clone(),
        }
    }
}

/// What is to be written for a new import: its first event, the key it is
/// routed by and the user on whose behalf it is written.
#[derive(Debug, PartialEq)]
pub struct CreateImport {
    pub event: ImportStarted,
    pub routing_key: String,
    pub requested_by: String,
}

/// What a [`CreateImport`] holds, as mathematical values.
#[verifier::ext_equal]
pub struct CreateImportModel {
    pub event: ImportStartedModel,
    pub routing_key: Seq<char>,
    pub requested_by: Seq<char>,
}

impl View for CreateImport {
    type V = CreateImportModel;

    open spec fn view(&self) -> CreateImportModel {
        CreateImportModel {
            event: self.event@,
            routing_key: self.routing_key@,
            requested_by: self.requested_by@,
        }
    }
}

impl Clone for CreateImport {
    fn clone(&self) -> (res: Self)
        ensures
            res@ == self@,
    {
        CreateImport {
            event: self.event.clone(),
            routing_key: self.routing_key.clone(),
            requested_by: self.requested_by.clone(),
        }
    }
}

/// What a start command writes, or why it is refused.
pub open spec fn started(cmd: StartImportModel) -> Result<CreateImportModel, ImportError> {
    if text::blank(cmd.owner_id) {
        Err(ImportError::OwnerRequired)
    } else {
        Ok(
            CreateImportModel {
                event: ImportStartedModel {
                    owner_id: cmd.owner_id,
                    source: cmd.source.slug_text(),
                    source_label: cmd.source_label,
                },
                routing_key: "user:"@ + cmd.owner_id,
                requested_by: cmd.owner_id,
            },
        )
    }
}

/// Starts an import: what is to be written under the import's new id.
pub fn start_import(cmd: StartImport) -> (res: Result<CreateImport, ImportError>)
    ensures
        text::res_view(res) == started(cmd@),
{
    if text::is_blank(cmd.owner_id.as_str()) {
        return Err(ImportError::OwnerRequired);
    }
    let routing_key: String = text::join2("user:", cmd.owner_id.as_str());
    let event = ImportStarted {
        owner_id: cmd.owner_id.clone(),
        source: cmd.source.slug().to_owned(),
        source_label: cmd.source_label,
    };
    Ok(CreateImport { event, routing_key, requested_by: cmd.owner_id })
}

/// What is to be appended to the log of an import: the event and the version
/// it builds on.
#[derive(Debug, PartialEq)]
pub struct AppendImport {
    pub import_id: String,
    pub original_version: u16,
    pub event: RecipeImport,
}

/// What a [`AppendImport`] holds, as mathematical values.
#[verifier::ext_equal]
pub struct AppendImportModel {
    pub import_id: Seq<char>,
    pub original_version: u16,
    pub event: RecipeImportModel,
}

impl View for AppendImport {
    type V = AppendImportModel;

    open spec fn view(&self) -> AppendImportModel {
        AppendImportModel {
            import_id: self.import_id@,
            original_version: self.original_version,
            event: self.event@,
        }
    }
}

/// Command: record what the parser produced.
#[derive(Debug, PartialEq)]
pub struct RecordPreview {
    pub import_id: String,
    pub candidates: Vec<ParsedCandidate>,
}

/// What a [`RecordPreview`] holds, as mathematical values.
#[verifier::ext_equal]
pub struct RecordPreviewModel {
    pub import_id: Seq<char>,
    pub candidates: Seq<ParsedCandidateModel>,
}

impl View for RecordPreview {
    type V = RecordPreviewModel;

    open spec fn view(&self) -> RecordPreviewModel {
        RecordPreviewModel {
            import_id: self.import_id@,
            candidates: text::views(self.candidates@),
        }
    }
}

impl Clone for RecordPreview {
    fn clone(&self) -> (res: Self)
        ensures
            res@ == self@,
    {
        let candidates: Vec<ParsedCandidate> = self.candidates.clone();
        assert(text::views(candidates@) =~= text::views(self.candidates@));
        RecordPreview {
            import_id: self.import_id.clone(),
            candidates,
        }
    }
}

/// What recording the preview appends.
pub open spec fn preview_append(cmd: RecordPreviewModel, version: u16) -> AppendImportModel {
    AppendImportModel {
        import_id: cmd.import_id,
        original_version: version,
        event: RecipeImportModel::ImportPreviewed(ImportPreviewedModel { candidates: cmd.candidates }),
    }
}

/// Records the candidates of an import.
pub fn record_preview(cmd: RecordPreview, version: u16) -> (res: AppendImport)
    ensures
        res@ == preview_append(cmd@, version),
{
    let event = ImportPreviewed { candidates: cmd.candidates };
    AppendImport {
        import_id: cmd.import_id,
        original_version: version,
        event: RecipeImport::ImportPreviewed(event),
    }
}

/// Command: the user confirmed the import of some candidates.
#[derive(Debug, PartialEq)]
pub struct ConfirmImport {
    pub import_id: String,
    pub picked_ids: Vec<String>,
}

/// What a [`ConfirmImport`] holds, as mathematical values.
#[verifier::ext_equal]
pub struct ConfirmImportModel {
    pub import_id: Seq<char>,
    pub picked_ids: Seq<Seq<char>>,
}

impl View for ConfirmImport {
    type V = ConfirmImportModel;

    open spec fn view(&self) -> ConfirmImportModel {
        ConfirmImportModel {
            import_id: self.import_id@,
            picked_ids: text::views(self.picked_ids@),
        }
    }
}

impl Clone for ConfirmImport {
    fn clone(&self) -> (res: Self)
        ensures
            res@ == self@,
    {
        ConfirmImport {
            import_id: self.import_id.clone(),
            picked_ids: text::clone_texts(&self.picked_ids),
        }
    }
}

/// What a confirmation appends, or why it is refused.
pub open spec fn confirmed(cmd: ConfirmImportModel, version: u16) -> Result<
    AppendImportModel,
    ImportError,
> {
    if cmd.picked_ids.len() == 0 {
        Err(ImportError::NothingPicked)
    } else {
        Ok(
            AppendImportModel {
                import_id: cmd.import_id,
                original_version: version,
                event: RecipeImportModel::ImportConfirmed(
                    ImportConfirmedModel { picked_ids: cmd.picked_ids },
                ),
            },
        )
    }
}

/// Confirms an import; at least one candidate has to be picked.
pub fn confirm_import(cmd: ConfirmImport, version: u16) -> (res: Result<AppendImport, ImportError>)
    ensures
        text::res_view(res) == confirmed(cmd@, version),
{
    if cmd.picked_ids.len() == 0 {
        return Err(ImportError::NothingPicked);
    }
    let event = ImportConfirmed { picked_ids: cmd.picked_ids };
    Ok(
        AppendImport {
            import_id: cmd.import_id,
            original_version: version,
            event: RecipeImport::ImportConfirmed(event),
        },
    )
}

/// Command: record that all picks are drafted.
#[derive(Debug, PartialEq)]
pub struct RecordCompletion {
    pub import_id: String,
    pub recipe_ids: Vec<String>,
}

/// What a [`RecordCompletion`] holds, as mathematical values.
#[verifier::ext_equal]
pub struct RecordCompletionModel {
    pub import_id: Seq<char>,
    pub recipe_ids: Seq<Seq<char>>,
}

impl View for RecordCompletion {
    type V = RecordCompletionModel;

    open spec fn view(&self) -> RecordCompletionModel {
        RecordCompletionModel {
            import_id: self.import_id@,
            recipe_ids: text::views(self.recipe_ids@),
        }
    }
}

impl Clone for RecordCompletion {
    fn clone(&self) -> (res: Self)
        ensures
            res@ == self@,
    {
        RecordCompletion {
            import_id: self.import_id.clone(),
            recipe_ids: text::clone_texts(&self.recipe_ids),
        }
    }
}

/// What recording the completion appends.
pub open spec fn completion_append(cmd: RecordCompletionModel, version: u16) -> AppendImportModel {
    AppendImportModel {
        import_id: cmd.import_id,
        original_version: version,
        event: RecipeImportModel::ImportCompleted(ImportCompletedModel { recipe_ids: cmd.recipe_ids }),
    }
}

/// Records the completion of an import.
pub fn record_completion(cmd: RecordCompletion, version: u16) -> (res: AppendImport)
    ensures
        res@ == completion_append(cmd@, version),
{
    let event = ImportCompleted { recipe_ids: cmd.recipe_ids };
    AppendImport {
        import_id: cmd.import_id,
        original_version: version,
        event: RecipeImport::ImportCompleted(event),
    }
}

/// Command: record that the import failed.
#[derive(Debug, PartialEq)]
pub struct RecordFailure {
    pub import_id: String,
    pub reason: String,
}

/// What a [`RecordFailure`] holds, as mathematical values.
#[verifier::ext_equal]
pub struct RecordFailureModel {
    pub import_id: Seq<char>,
    pub reason: Seq<char>,
}

impl View for RecordFailure {
    type V = RecordFailureModel;

    open spec fn view(&self) -> RecordFailureModel {
        RecordFailureModel {
            import_id: self.import_id@,
            reason: self.reason@,
        }
    }
}

impl Clone for RecordFailure {
    fn clone(&self) -> (res: Self)
        ensures
            res@ == self@,
    {
        RecordFailure {
            import_id: self.import_id.clone(),
            reason: self.reason.clone(),
        }
    }
}

/// What recording the failure appends.
pub open spec fn failure_append(cmd: RecordFailureModel, version: u16) -> AppendImportModel {
    AppendImportModel {
        import_id: cmd.import_id,
        original_version: version,
        event: RecipeImportModel::ImportFailed(ImportFailedModel { reason: cmd.reason }),
    }
}

/// Records the failure of an import.
pub fn record_failure(cmd: RecordFailure, version: u16) -> (res: AppendImport)
    ensures
        res@ == failure_append(cmd@, version),
{
    let event = ImportFailed { reason: cmd.reason };
    AppendImport {
        import_id: cmd.import_id,
        original_version: version,
        event: RecipeImport::ImportFailed(event),
    }
}

// ── What holds of import commands ───────────────────────────────────────

/// A start is accepted if and only if it has an owner, and is written as it
/// was given, for that owner; its source can be read back.
pub proof fn law_starts_are_written_as_given(cmd: StartImportModel)
    ensures
        started(cmd) is Ok <==> !text::blank(cmd.owner_id),
        started(cmd) matches Err(err) ==> err == ImportError::OwnerRequired,
        started(cmd) matches Ok(create) ==> create.event.owner_id == cmd.owner_id
            && create.event.source_label == cmd.source_label && source_of(create.event.source)
            == Some(cmd.source) && create.requested_by == cmd.owner_id && create.routing_key
            == "user:"@ + cmd.owner_id,
{
    law_source_slug_round_trip(cmd.source, Seq::empty());
}

/// A confirmation is accepted if and only if something is picked, and it names
/// exactly the picks, in their order.
pub proof fn law_confirmations_name_the_picks(cmd: ConfirmImportModel, version: u16)
    ensures
        confirmed(cmd, version) is Ok <==> cmd.picked_ids.len() > 0,
        confirmed(cmd, version) matches Err(err) ==> err == ImportError::NothingPicked,
        confirmed(cmd, version) matches Ok(append) ==> append.import_id == cmd.import_id
            && append.original_version == version && (
        append.event matches RecipeImportModel::ImportConfirmed(event) && event.picked_ids
            == cmd.picked_ids),
{
}

/// What is recorded of an import goes to that import, on the version that was
/// read, with all that was given.
pub proof fn law_records_are_written_as_given(
    preview: RecordPreviewModel,
    completion: RecordCompletionModel,
    failure: RecordFailureModel,
    version: u16,
)
    ensures
        preview_append(preview, version).import_id == preview.import_id,
        preview_append(preview, version).original_version == version,
        preview_append(preview, version).event matches RecipeImportModel::ImportPreviewed(event)
            && event.candidates == preview.candidates,
        completion_append(completion, version).import_id == completion.import_id,
        completion_append(completion, version).original_version == version,
        completion_append(completion, version).event matches RecipeImportModel::ImportCompleted(
            event,
        ) && event.recipe_ids == completion.recipe_ids,
        failure_append(failure, version).import_id == failure.import_id,
        failure_append(failure, version).original_version == version,
        failure_append(failure, version).event matches RecipeImportModel::ImportFailed(event)
            && event.reason == failure.reason,
{
}

/// What each source is called.
pub proof fn law_sources_are_called(value: ImportSource)
    ensures
        value == ImportSource::Url ==> value.slug_text() == "url"@,
        value == ImportSource::Photo ==> value.slug_text() == "photo"@,
        value == ImportSource::Text ==> value.slug_text() == "text"@,
        value == ImportSource::Share ==> value.slug_text() == "share"@,
        value == ImportSource::File ==> value.slug_text() == "file"@,
{
}

/// What each stage is called.
pub proof fn law_stages_are_called(value: ImportStage)
    ensures
        value == ImportStage::Started ==> value.slug_text() == "started"@,
        value == ImportStage::Previewed ==> value.slug_text() == "previewed"@,
        value == ImportStage::Completed ==> value.slug_text() == "completed"@,
        value == ImportStage::Failed ==> value.slug_text() == "failed"@,
{
}

/// What is said of each refusal.
pub proof fn law_refusals_are_worded(value: ImportError)
    ensures
        value == ImportError::OwnerRequired ==> value.message_text() == "owner is required"@,
        value == ImportError::NothingPicked ==> value.message_text() == "pick at least one recipe"@,
{
}

/// A model has every field of the value that it stands for.
pub proof fn law_models_have_every_field(
    import_started: ImportStarted,
    import_previewed: ImportPreviewed,
    import_confirmed: ImportConfirmed,
    import_completed: ImportCompleted,
    import_failed: ImportFailed,
    start_import: StartImport,
    create_import: CreateImport,
    append_import: AppendImport,
    record_preview: RecordPreview,
    confirm_import: ConfirmImport,
    record_completion: RecordCompletion,
    record_failure: RecordFailure,
)
    ensures
        import_started@.owner_id == import_started.owner_id@,
        import_started@.source == import_started.source@,
        import_started@.source_label == import_started.source_label@,
        import_previewed@.candidates == text::views(import_previewed.candidates@),
        import_confirmed@.picked_ids == text::views(import_confirmed.picked_ids@),
        import_completed@.recipe_ids == text::views(import_completed.recipe_ids@),
        import_failed@.reason == import_failed.reason@,
        start_import@.owner_id == start_import.owner_id@,
        start_import@.source == start_import.source,
        start_import@.source_label == start_import.source_label@,
        create_import@.event == create_import.event@,
        create_import@.routing_key == create_import.routing_key@,
        create_import@.requested_by == create_import.requested_by@,
        append_import@.import_id == append_import.import_id@,
        append_import@.original_version == append_import.original_version,
        append_import@.event == append_import.event@,
        record_preview@.import_id == record_preview.import_id@,
        record_preview@.candidates == text::views(record_preview.candidates@),
        confirm_import@.import_id == confirm_import.import_id@,
        confirm_import@.picked_ids == text::views(confirm_import.picked_ids@),
        record_completion@.import_id == record_completion.import_id@,
        record_completion@.recipe_ids == text::views(record_completion.recipe_ids@),
        record_failure@.import_id == record_failure.import_id@,
        record_failure@.reason == record_failure.reason@,
{
}

} // verus!
