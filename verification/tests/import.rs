//! Imports: sources, candidates, the run of a confirmed import and its row.

use imkitchen::import::parser::{
    parse_recipes_json, DraftMaterial, ParsedCandidate, RecipesPayload, SeedParser, UploadError,
    UploadedRecipe,
};
use imkitchen::import::saga;
use imkitchen::import::saga::{ConfirmedStep, ImportView, ParsedStep, StartedStep, Terminal};
use imkitchen::import::{
    confirm_import, record_completion, record_failure, record_preview, start_import,
    ConfirmImport, ImportConfirmed, ImportError, ImportSource, ImportStage, ImportStarted,
    RecipeImport, RecordFailure, RecordPreview, StartImport,
};
use imkitchen::projection::recipe_imports_view;
use imkitchen::projection::recipe_imports_view::ImportRow;
use imkitchen::recipe::{draft_recipe, IngredientFact, MealType, StepFact, Unit};
use imkitchen::web::auth::{Role, User};
use imkitchen::web::recipes_import as upload;
use imkitchen::web::recipes_import::UploadStep;
use serde_json::Value;

fn one(value: &Value) -> Result<UploadedRecipe, String> {
    let shape = || "not a recipe".to_string();
    let text = |key: &str| match value.get(key) {
        None | Some(Value::Null) => Ok(None),
        Some(Value::String(s)) => Ok(Some(s.clone())),
        Some(_) => Err(shape()),
    };
    let count = |key: &str| match value.get(key) {
        None => Ok(None),
        Some(Value::Array(items)) => Ok(Some(items.len())),
        Some(_) => Err(shape()),
    };
    Ok(UploadedRecipe {
        title: text("title")?.ok_or_else(shape)?,
        meal_type: text("meal_type")?,
        emoji: text("emoji")?,
        ingredients: count("ingredients")?.ok_or_else(shape)?,
        steps: count("steps")?.unwrap_or(0),
    })
}

fn decode(bytes: &[u8]) -> Result<RecipesPayload, String> {
    let value: Value = serde_json::from_slice(bytes).map_err(|e| e.to_string())?;
    match &value {
        Value::Array(items) => {
            let mut recipes = Vec::new();
            for item in items {
                recipes.push(one(item)?);
            }
            Ok(RecipesPayload::Many(recipes))
        }
        other => Ok(RecipesPayload::One(one(other)?)),
    }
}

fn parse_json(bytes: &[u8]) -> Result<Vec<ParsedCandidate>, UploadError> {
    parse_recipes_json(decode(bytes))
}

#[test]
fn import_source_round_trips() {
    for slug in ["url", "photo", "text", "share", "file"] {
        let parsed = ImportSource::parse(slug).expect("known slug");
        assert_eq!(parsed.slug(), slug);
    }
    assert!(ImportSource::parse("ftp").is_none());
}

#[test]
fn parse_json_single_recipe() {
    let bytes = br#"
        {
            "title": "Tomato Soup",
            "meal_type": "main",
            "ingredients": [{"name": "Tomatoes", "quantity": 1, "unit": "kg"}],
            "steps": [{"text": "Simmer.", "wait_minutes": 30}]
        }"#;
    let out = parse_json(bytes).expect("valid single");
    assert_eq!(out.len(), 1);
    assert_eq!(out[0].title, "Tomato Soup");
    assert_eq!(out[0].meal_type, "main");
    assert!(!out[0].broken);
    assert!(out[0].selected);
    assert_eq!(out[0].ingredient_count, 1);
    assert_eq!(out[0].step_count, 1);
}

#[test]
fn parse_json_array_of_recipes() {
    let bytes = br#"[
            { "title": "A", "ingredients": [{"name": "x"}] },
            { "title": "B", "ingredients": [{"name": "y"}] }
        ]"#;
    let out = parse_json(bytes).expect("valid array");
    assert_eq!(out.len(), 2);
    assert_eq!(out[0].title, "A");
    assert_eq!(out[1].title, "B");
    assert_eq!(out[0].id, "f1");
    assert_eq!(out[1].id, "f2");
}

#[test]
fn parse_json_rejects_garbage() {
    let err = parse_json(b"not json").unwrap_err();
    assert!(err.message().contains("recipe JSON"));
}

#[test]
fn parse_json_rejects_empty_array() {
    let err = parse_json(b"[]").unwrap_err();
    assert!(err.message().contains("No recipes"));
}

#[test]
fn parse_json_marks_missing_title_broken() {
    let bytes = br#"{ "title": "", "ingredients": [{"name":"x"}] }"#;
    let out = parse_json(bytes).expect("valid shape");
    assert_eq!(out.len(), 1);
    assert!(out[0].broken);
    assert!(!out[0].selected);
    assert_eq!(out[0].title, "Untitled recipe");
}

#[test]
fn parse_json_marks_missing_ingredients_broken() {
    let bytes = br#"{ "title": "X", "ingredients": [] }"#;
    let out = parse_json(bytes).expect("valid shape");
    assert_eq!(out.len(), 1);
    assert!(out[0].broken);
    assert!(out[0].warn.is_some());
}

#[test]
fn parse_json_defaults_meal_type_main() {
    let bytes = br#"{ "title": "X", "ingredients": [{"name":"x"}] }"#;
    let out = parse_json(bytes).unwrap();
    assert_eq!(out[0].meal_type, "main");
    assert_eq!(out[0].emoji, MealType::Main.default_emoji());
}

/// One import: its state, its row and the recipes that it drafted.
struct Session {
    id: String,
    view: ImportView,
    row: Option<ImportRow>,
    version: u16,
    now: u64,
    drafted: Vec<String>,
    failed_at: Option<String>,
}

impl Session {
    fn start(id: &str, owner: &str, source: ImportSource, label: &str) -> Session {
        let create = start_import(StartImport {
            owner_id: owner.into(),
            source,
            source_label: label.into(),
        })
        .expect("start_import");
        assert_eq!(create.routing_key, format!("user:{owner}"));
        let mut session = Session {
            id: id.into(),
            view: ImportView::default(),
            row: None,
            version: 0,
            now: 100,
            drafted: Vec::new(),
            failed_at: None,
        };
        session.take(RecipeImport::ImportStarted(create.event));
        session
    }

    fn take(&mut self, event: RecipeImport) {
        self.now += 1;
        self.version += 1;
        let row = self.row.take();
        self.row = match &event {
            RecipeImport::ImportStarted(e) => {
                saga::on_started_view(e, &mut self.view);
                Some(recipe_imports_view::apply_started(row, &self.id, self.now, e))
            }
            RecipeImport::ImportPreviewed(e) => {
                saga::on_previewed_view(e, &mut self.view);
                recipe_imports_view::apply_previewed(row, self.now, e)
            }
            RecipeImport::ImportConfirmed(e) => {
                saga::on_confirmed_view(e, &mut self.view);
                recipe_imports_view::apply_confirmed(row, self.now, e)
            }
            RecipeImport::ImportCompleted(e) => {
                saga::on_completed_view(e, &mut self.view);
                recipe_imports_view::apply_completed(row, self.now, e)
            }
            RecipeImport::ImportFailed(e) => {
                saga::on_failed_view(e, &mut self.view);
                recipe_imports_view::apply_failed(row, self.now, e)
            }
        };
    }

    fn preview(&mut self, candidates: Vec<ParsedCandidate>) {
        let started = ImportStarted {
            owner_id: self.view.owner_id.clone(),
            source: self.view.source.clone(),
            source_label: String::new(),
        };
        assert!(matches!(saga::on_started(&self.id, &started), StartedStep::Parse(_)));
        match saga::on_parsed(&self.id, Some(&self.view), Ok(candidates)) {
            ParsedStep::Preview(cmd) => {
                let append = record_preview(cmd, self.version);
                assert_eq!(append.original_version, self.version);
                self.take(append.event);
            }
            ParsedStep::Fail(cmd) => panic!("parsing failed: {}", cmd.reason),
            ParsedStep::Ignore => {}
        }
    }

    fn confirm(
        &mut self,
        picked: Vec<String>,
        materialize: &dyn Fn(&ParsedCandidate) -> Result<DraftMaterial, String>,
    ) {
        let append = confirm_import(
            ConfirmImport { import_id: self.id.clone(), picked_ids: picked.clone() },
            self.version,
        )
        .expect("confirm_import");
        self.take(append.event);
        self.deliver(picked, materialize);
    }

    fn deliver(
        &mut self,
        picked: Vec<String>,
        materialize: &dyn Fn(&ParsedCandidate) -> Result<DraftMaterial, String>,
    ) {
        let event = ImportConfirmed { picked_ids: picked };
        let mut step = saga::on_confirmed(&self.id, &event, Some(self.view.clone()));
        loop {
            step = match step {
                ConfirmedStep::Materialize(run, candidate) => {
                    saga::on_materialized(run, materialize(&candidate))
                }
                ConfirmedStep::Draft(run, cmd) => {
                    let result = match draft_recipe(cmd) {
                        Ok(create) => {
                            self.drafted.push(create.event.title);
                            Ok(format!("recipe-{}", self.drafted.len()))
                        }
                        Err(err) => Err(err.message().to_string()),
                    };
                    saga::on_drafted(run, result)
                }
                ConfirmedStep::Complete(cmd) => {
                    let append = record_completion(cmd, self.version);
                    self.take(append.event);
                    return;
                }
                ConfirmedStep::Fail(cmd) => {
                    self.failed_at = Some(cmd.reason.clone());
                    let append = record_failure(cmd, self.version);
                    self.take(append.event);
                    return;
                }
                ConfirmedStep::Ignore => return,
                ConfirmedStep::NotFound(message) => panic!("{}", message),
            };
        }
    }

    fn stage(&self) -> String {
        self.row.as_ref().expect("import row exists").stage.clone()
    }
}

fn test_candidates() -> Vec<ParsedCandidate> {
    vec![
        ParsedCandidate {
            id: "p1".into(),
            title: "Test Recipe One".into(),
            emoji: "🥘".into(),
            meal_type: "main".into(),
            ingredient_count: 1,
            step_count: 1,
            warn: None,
            broken: false,
            selected: true,
        },
        ParsedCandidate {
            id: "p2".into(),
            title: "Broken Row".into(),
            emoji: "❌".into(),
            meal_type: "main".into(),
            ingredient_count: 0,
            step_count: 0,
            warn: Some("missing data".into()),
            broken: true,
            selected: false,
        },
    ]
}

fn test_material(c: &ParsedCandidate) -> Result<DraftMaterial, String> {
    Ok(DraftMaterial {
        title: c.title.clone(),
        meal_type: MealType::Main,
        cuisine: "Test".into(),
        emoji: c.emoji.clone(),
        prep_minutes: 5,
        cook_minutes: 15,
        servings: 2,
        difficulty: "Easy".into(),
        description: String::new(),
        tags: vec![],
        ingredients: vec![IngredientFact {
            name: "Salt".into(),
            quantity: None,
            unit: Unit::Pinch,
        }],
        steps: vec![StepFact { wait_minutes: 5, text: "Combine and serve.".into() }],
    })
}

#[test]
fn import_saga_drafts_picked_recipes() {
    let mut session = Session::start("imp", "user-1", ImportSource::File, "test.json");
    assert_eq!(session.stage(), "started");
    session.preview(test_candidates());
    assert_eq!(session.stage(), "previewed", "import never reached previewed stage");

    session.confirm(vec!["p1".into(), "p2".into()], &test_material);
    assert_eq!(session.stage(), "completed", "import never reached completed stage");

    let row = session.row.clone().expect("import row exists");
    assert_eq!(row.stage, "completed");
    let recipe_ids = row.recipe_ids();
    assert_eq!(recipe_ids.len(), 1, "broken candidate should be skipped");
    assert_eq!(row.picked_ids(), vec!["p1".to_string(), "p2".to_string()]);

    assert_eq!(session.drafted.len(), 1);
    assert_eq!(session.drafted[0], "Test Recipe One");
}

#[test]
fn seed_parser_full_flow() {
    let mut session = Session::start("imp", "user-seed", ImportSource::File, "grandmas.json");
    session.preview(SeedParser.parse(ImportSource::File, "grandmas.json"));
    assert_eq!(session.stage(), "previewed", "seed import never previewed");

    let row = session.row.clone().expect("import row");
    let all_ids: Vec<String> = row.candidates().into_iter().map(|c| c.id).collect();
    assert_eq!(all_ids.len(), 8);

    session.confirm(all_ids, &|c: &ParsedCandidate| Ok(SeedParser.materialize(c)));
    assert_eq!(session.stage(), "completed", "seed import never completed");
    assert_eq!(
        session.drafted.len(),
        7,
        "should draft 7 valid candidates (broken i8 skipped)"
    );
}

#[test]
fn a_pick_that_fails_ends_the_import_and_keeps_what_was_drafted() {
    let mut session = Session::start("imp", "u", ImportSource::File, "x.json");
    session.preview(SeedParser.parse(ImportSource::File, ""));
    session.confirm(
        vec!["i2".into(), "gone".into(), "i3".into(), "i4".into()],
        &|c: &ParsedCandidate| {
            if c.id == "i3" {
                Err("no network".to_string())
            } else {
                Ok(SeedParser.materialize(c))
            }
        },
    );
    assert_eq!(session.stage(), "failed");
    assert_eq!(session.drafted, vec!["Green Bean Casserole".to_string()]);
    let reason = "materializing `Buttermilk Biscuits` failed: no network";
    assert_eq!(session.failed_at.as_deref(), Some(reason));
    assert_eq!(session.row.as_ref().unwrap().failure_reason, reason);
    assert!(session.row.as_ref().unwrap().recipe_ids().is_empty());
}

#[test]
fn a_draft_that_is_refused_ends_the_import() {
    let mut session = Session::start("imp", "u", ImportSource::Url, "x");
    session.preview(test_candidates());
    session.confirm(vec!["p1".into()], &|c: &ParsedCandidate| {
        let mut material = test_material(c)?;
        material.servings = 0;
        Ok(material)
    });
    assert_eq!(
        session.failed_at.as_deref(),
        Some("drafting `Test Recipe One` failed: servings must be at least 1")
    );
}

#[test]
fn a_confirmation_that_comes_twice_is_ignored() {
    let mut session = Session::start("imp", "u", ImportSource::File, "x");
    session.preview(test_candidates());
    session.confirm(vec!["p1".into()], &test_material);
    let version = session.version;
    session.deliver(vec!["p1".into()], &test_material);
    assert_eq!(session.version, version);
    assert_eq!(session.drafted.len(), 1);
    assert_eq!(session.view.terminal, Terminal::Completed);
}

#[test]
fn drafted_recipes_name_their_import() {
    let view = ImportView {
        owner_id: "alice".into(),
        source: "file".into(),
        candidates: test_candidates(),
        terminal: Terminal::Pending,
    };
    let event = ImportConfirmed { picked_ids: vec!["p1".into()] };
    let step = saga::on_confirmed("job-9", &event, Some(view));
    let (run, candidate) = match step {
        ConfirmedStep::Materialize(run, candidate) => (run, candidate),
        other => panic!("{:?}", other),
    };
    match saga::on_materialized(run, test_material(&candidate)) {
        ConfirmedStep::Draft(_, cmd) => {
            assert_eq!(cmd.owner_id, "alice");
            assert_eq!(cmd.provenance.kind, "import:file");
            assert_eq!(cmd.provenance.import_job_id, "job-9");
        }
        other => panic!("{:?}", other),
    }
}

#[test]
fn an_unknown_import_is_reported() {
    let event = ImportConfirmed { picked_ids: vec!["p1".into()] };
    assert_eq!(
        saga::on_confirmed("job-9", &event, None),
        ConfirmedStep::NotFound("import job-9 not found".into())
    );
}

#[test]
fn an_unknown_source_fails_at_once() {
    let event = ImportStarted {
        owner_id: "u".into(),
        source: "ftp".into(),
        source_label: "x".into(),
    };
    assert_eq!(
        saga::on_started("job", &event),
        StartedStep::Fail(RecordFailure {
            import_id: "job".into(),
            reason: "unknown source `ftp`".into()
        })
    );
    for view in [None, Some(&ImportView::default())] {
        match saga::on_parsed("job", view, Err("boom".into())) {
            ParsedStep::Fail(cmd) => assert_eq!(cmd.reason, "parse failed: boom"),
            other => panic!("{:?}", other),
        }
    }
}

fn upload_of(bytes: &[u8]) -> (StartImport, Vec<ParsedCandidate>) {
    let user = User { id: "u".into(), role: Role::User };
    let parsed = SeedParser.parse_file("one.json", "", bytes, decode(bytes));
    match upload::on_parsed(&user, "one.json".into(), parsed.map_err(|e| e.message())) {
        UploadStep::Start(cmd, candidates) => (cmd, candidates),
        other => panic!("{:?}", other),
    }
}

fn titles(session: &Session) -> Vec<String> {
    let row = session.row.as_ref().unwrap();
    assert_eq!(row.stage, "previewed");
    assert_eq!((row.source.as_str(), row.source_label.as_str()), ("file", "one.json"));
    assert_eq!(row.candidates.len(), session.view.candidates.len());
    row.candidates.iter().map(|c| format!("{} {}", c.id, c.title)).collect()
}

#[test]
fn an_upload_keeps_the_candidates_of_its_file() {
    let bytes = br#"{"title":"X","ingredients":[{"name":"x"}]}"#;
    let (cmd, candidates) = upload_of(bytes);
    let mut session = Session::start("job-f", &cmd.owner_id, cmd.source, &cmd.source_label);
    let recorded = RecordPreview { import_id: "job-f".into(), candidates };
    let append = record_preview(recorded, session.version);
    session.take(append.event);
    session.preview(SeedParser.parse(ImportSource::File, "one.json"));
    assert_eq!(titles(&session), vec!["f1 X".to_string()]);
    assert_eq!(session.version, 2);
    assert_eq!(
        saga::on_parsed("job-f", Some(&session.view), Err("boom".into())),
        ParsedStep::Ignore
    );
}

#[test]
fn an_upload_replaces_what_was_parsed_before() {
    let bytes = br#"{"title":"X","ingredients":[{"name":"x"}]}"#;
    let (cmd, candidates) = upload_of(bytes);
    let mut session = Session::start("job-f", &cmd.owner_id, cmd.source, &cmd.source_label);
    session.preview(SeedParser.parse(ImportSource::File, "one.json"));
    assert_eq!(titles(&session).len(), 8);
    let recorded = RecordPreview { import_id: "job-f".into(), candidates };
    let append = record_preview(recorded, session.version);
    session.take(append.event);
    assert_eq!(titles(&session), vec!["f1 X".to_string()]);
}

#[test]
fn import_commands_are_checked() {
    let cmd = StartImport {
        owner_id: "  ".into(),
        source: ImportSource::Text,
        source_label: "x".into(),
    };
    assert_eq!(start_import(cmd).unwrap_err(), ImportError::OwnerRequired);
    let cmd = ConfirmImport { import_id: "j".into(), picked_ids: vec![] };
    assert_eq!(confirm_import(cmd, 1).unwrap_err(), ImportError::NothingPicked);
    assert_eq!(ImportError::NothingPicked.message(), "pick at least one recipe");
    assert_eq!(ImportError::OwnerRequired.message(), "owner is required");
    assert_eq!(ImportStage::Previewed.slug(), "previewed");
}

#[test]
fn an_empty_file_gives_the_built_in_list() {
    let seeds = SeedParser.parse_file("x", "", b"", Err("unused".into())).unwrap();
    assert_eq!(seeds.len(), 8);
    assert_eq!(seeds[4].warn.as_deref(), Some("Similar to existing \"Pecan Squares\""));
    assert!(seeds[7].broken);
    let bytes = br#"[{ "title": "A", "ingredients": [1], "emoji": "", "meal_type": "side" }]"#;
    let parsed = SeedParser.parse_file("x.json", "", bytes, decode(bytes)).unwrap();
    assert_eq!(parsed[0].emoji, "🥖");
    let err = SeedParser.parse_file("x.json", "", b"x", decode(b"x")).unwrap_err();
    assert!(err.message().starts_with("That doesn't look like recipe JSON: "));
}

#[test]
fn seed_material_counts_at_least_one_row() {
    let seeds = SeedParser.parse(ImportSource::Url, "");
    let material = SeedParser.materialize(&seeds[7]);
    assert_eq!(material.ingredients.len(), 1);
    assert_eq!(material.steps.len(), 1);
    assert_eq!(material.ingredients[0].name, "Ingredient 1");
    assert_eq!(material.steps[0].text, "Step 1 — refine after import.");
    let material = SeedParser.materialize(&seeds[3]);
    assert_eq!(material.meal_type, MealType::Dessert);
    assert_eq!(material.ingredients.len(), 10);
    assert_eq!(material.ingredients[9].name, "Ingredient 10");
    assert_eq!(material.servings, 4);
    assert_eq!((material.prep_minutes, material.cook_minutes), (10, 20));
}

#[test]
fn a_restarted_import_keeps_its_age_and_candidates() {
    let started = ImportStarted {
        owner_id: "u".into(),
        source: "file".into(),
        source_label: "a.json".into(),
    };
    let first = recipe_imports_view::apply_started(None, "j", 5, &started);
    assert_eq!(first.picked_json, "[]");
    assert_eq!(first.recipe_ids_json, "[]");
    assert_eq!((first.created_at, first.updated_at), (5, 5));
    assert!(first.picked_ids().is_empty());
    let again = recipe_imports_view::apply_started(Some(first.clone()), "j", 5, &started);
    assert_eq!(first, again);
    let failed = recipe_imports_view::apply_failed(
        Some(first),
        9,
        &imkitchen::import::ImportFailed { reason: "bad".into() },
    )
    .unwrap();
    assert_eq!((failed.created_at, failed.updated_at), (5, 9));
    assert_eq!(failed.stage, "failed");
    let restarted = recipe_imports_view::apply_started(Some(failed), "j", 12, &started);
    assert_eq!(restarted.stage, "started");
    assert_eq!(restarted.failure_reason, "bad");
    assert_eq!(restarted.updated_at, 9);
}
