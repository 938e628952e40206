//! The screens of an import.

use imkitchen::import::parser::{ParsedCandidate, SeedParser};
use imkitchen::import::{confirm_import, start_import, ImportSource};
use imkitchen::projection::recipe_imports_view::{ImportRow, ParsedCandidateView};
use imkitchen::web::auth::{Role, User};
use imkitchen::web::recipes_import::{
    build_page, confirm_done, default_source_label, import_error_response, import_page, is_acceptable_json,
    is_multipart, on_content, on_field, on_opened, on_parsed, on_recorded, on_started,
    parse_submit, source_options, start_done, step_indicators, submit_urlencoded, FieldHead,
    ImportPage, ImportQuery, ImportScreen, ParsedRecipe, Stage, SubmitStep, UploadHead, UploadStep,
};
use imkitchen::web::Reply;

const PARTIAL: Option<&str> = Some("text/html+partial");

fn user() -> User {
    User { id: "u1".into(), role: Role::User }
}

fn seeds() -> Vec<ParsedCandidate> {
    SeedParser.parse(ImportSource::File, "")
}

fn row(stage: &str) -> ImportRow {
    ImportRow {
        id: "job".into(),
        owner_id: "u1".into(),
        source: "file".into(),
        source_label: "grandma.json".into(),
        stage: stage.into(),
        candidates: seeds().iter().map(ParsedCandidateView::from).collect(),
        picked_json: "[\"i1\",\"i2\",\"i8\"]".into(),
        recipe_ids_json: "[\"a\",\"b\"]".into(),
        failure_reason: String::new(),
        created_at: 0,
        updated_at: 0,
    }
}

fn query(stage: Stage) -> ImportQuery {
    ImportQuery { stage, job: Some("job".into()) }
}

fn page(reply: Reply<ImportScreen>) -> ImportPage {
    match reply {
        Reply::Page(ImportScreen::Page(page)) => page,
        other => panic!("{:?}", other),
    }
}

#[test]
fn the_review_lists_the_candidates() {
    let page = page(import_page(&user(), None, &query(Stage::Preview), Some(row("previewed"))));
    assert_eq!(page.stage, "preview");
    assert_eq!(page.parsed.len(), 8);
    assert_eq!((page.valid_count, page.warning_count), (7, 2));
    assert_eq!(page.source_label, "grandma.json");
    assert_eq!(page.job_id, "job");
    assert!(!page.waiting);
    assert!(page.stats.is_empty());
    assert_eq!(page.parsed[5].type_label, "Starter");
}

#[test]
fn the_review_waits_until_the_candidates_are_known() {
    match import_page(&user(), PARTIAL, &query(Stage::Preview), Some(row("started"))) {
        Reply::Page(ImportScreen::Waiting(part)) => assert_eq!(part.job_id, "job"),
        other => panic!("{:?}", other),
    }
    let waiting = page(import_page(&user(), None, &query(Stage::Preview), Some(row("started"))));
    assert!(waiting.waiting);
    assert_eq!(
        import_page(&user(), PARTIAL, &query(Stage::Preview), Some(row("previewed"))),
        Reply::Location("/recipes/import?job=job&stage=preview".into())
    );
}

#[test]
fn a_failed_import_shows_its_failure() {
    let mut failed = row("failed");
    failed.failure_reason = "parse failed: x".into();
    match import_page(&user(), PARTIAL, &query(Stage::Preview), Some(failed.clone())) {
        Reply::Page(ImportScreen::Failed(part)) => {
            assert_eq!(part.failure_reason, "parse failed: x");
        }
        other => panic!("{:?}", other),
    }
    for stage in [Stage::Preview, Stage::Done] {
        let shown = page(import_page(&user(), None, &query(stage), Some(failed.clone())));
        assert_eq!(shown.stage, "failed");
        assert_eq!(shown.failure_reason, "parse failed: x");
    }
    let shown = page(import_page(&user(), None, &query(Stage::Upload), Some(failed.clone())));
    assert_eq!(shown.stage, "upload");
    failed.failure_reason = String::new();
    let shown = page(import_page(&user(), None, &query(Stage::Done), Some(failed)));
    assert_eq!(shown.stage, "failed");
}

#[test]
fn the_end_counts_what_was_imported() {
    let shown = page(import_page(&user(), None, &query(Stage::Done), Some(row("completed"))));
    assert_eq!(shown.stage, "done");
    assert_eq!(shown.imported_count, 2);
    let stats: Vec<(&str, u32)> = shown.stats.iter().map(|s| (s.label, s.count)).collect();
    assert_eq!(stats, vec![("Imported", 2), ("Skipped", 1), ("Duplicate", 0)]);
    let shown = page(import_page(&user(), None, &query(Stage::Done), None));
    let stats: Vec<(&str, u32)> = shown.stats.iter().map(|s| (s.label, s.count)).collect();
    assert_eq!(stats, vec![("Imported", 0), ("Skipped", 0), ("Duplicate", 0)]);
    let mut odd = row("completed");
    odd.picked_json = "[]".into();
    let shown = page(import_page(&user(), None, &query(Stage::Done), Some(odd)));
    assert_eq!(shown.stats[1].count, 0);
}

#[test]
fn an_import_of_someone_else_shows_nothing() {
    let mut other = row("started");
    other.owner_id = "u2".into();
    let shown = import_page(&user(), PARTIAL, &query(Stage::Preview), Some(other));
    assert_eq!(shown, import_page(&user(), PARTIAL, &query(Stage::Preview), None));
    let shown = page(shown);
    assert_eq!(shown, build_page(&user(), Stage::Preview, None, false));
    assert_eq!((shown.stage, shown.job_id.as_str()), ("preview", ""));
    assert!(shown.parsed.is_empty() && !shown.waiting);
}

#[test]
fn steps_before_the_current_one_are_done() {
    let flags = |stage: Stage| -> Vec<(&'static str, bool, bool)> {
        step_indicators(stage).iter().map(|s| (s.label, s.active, s.done)).collect()
    };
    assert_eq!(
        flags(Stage::Preview),
        vec![("Source", false, true), ("Review", true, false), ("Done", false, false)]
    );
    assert_eq!(
        flags(Stage::Upload),
        vec![("Source", true, false), ("Review", false, false), ("Done", false, false)]
    );
}

#[test]
fn an_unknown_meal_type_is_shown_as_a_main() {
    let mut candidate = ParsedCandidateView::from(&seeds()[0]);
    candidate.meal_type = "soup".into();
    let shown = ParsedRecipe::from_view(candidate);
    assert_eq!(shown.type_label, "Main");
    assert_eq!(shown.type_slug, "main");
    assert_eq!(source_options().len(), 4);
    assert_eq!(source_options()[3].id, "share");
}

#[test]
fn a_source_starts_an_import() {
    match submit_urlencoded(&user(), b"next_stage=preview&source=url") {
        SubmitStep::Start(cmd) => {
            assert_eq!(cmd.source_label, "Pasted URL");
            assert_eq!(start_import(cmd).unwrap().event.source, "url");
        }
        other => panic!("{:?}", other),
    }
    match submit_urlencoded(&user(), b"next_stage=preview&source=text&source_label=Mine") {
        SubmitStep::Start(cmd) => assert_eq!(cmd.source_label, "Mine"),
        other => panic!("{:?}", other),
    }
    for body in [&b"next_stage=preview"[..], &b"next_stage=preview&source=ftp"[..]] {
        assert_eq!(
            submit_urlencoded(&user(), body),
            SubmitStep::Answer(Reply::Plain(400, "unknown source".into()))
        );
    }
    assert_eq!(
        start_done(Ok("j1".into())),
        Reply::Redirect("/recipes/import?job=j1&stage=preview".into())
    );
    assert_eq!(start_done(Err("x".into())), Reply::Plain(500, "internal error".into()));
}

#[test]
fn picks_are_confirmed() {
    match submit_urlencoded(&user(), b"next_stage=done&job=j1&pick=i1&pick=i2") {
        SubmitStep::Confirm(cmd) => {
            assert_eq!(cmd.picked_ids, vec!["i1".to_string(), "i2".to_string()]);
            assert!(confirm_import(cmd, 2).is_ok());
        }
        other => panic!("{:?}", other),
    }
    assert_eq!(
        submit_urlencoded(&user(), b"next_stage=done&pick=i1"),
        SubmitStep::Answer(Reply::Plain(400, "missing job id".into()))
    );
    assert_eq!(
        submit_urlencoded(&user(), b"next_stage=done&job=j1"),
        SubmitStep::Answer(Reply::Plain(400, "no recipes picked".into()))
    );
    for body in [&b""[..], &b"next_stage=upload"[..], &b"next_stage=done&next_stage=x"[..]] {
        assert_eq!(
            submit_urlencoded(&user(), body),
            SubmitStep::Answer(Reply::Redirect("/recipes/import".into()))
        );
    }
    assert_eq!(
        confirm_done("j1", Ok(())),
        Reply::Redirect("/recipes/import?job=j1&stage=done".into())
    );
    assert_eq!(
        confirm_done("j1", Err("x".into())),
        Reply::Plain(500, "internal error".into())
    );
    assert_eq!(parse_submit(b"next_stage=preview").next_stage, Some(Stage::Preview));
    assert_eq!(default_source_label(ImportSource::File), "Uploaded file");
}

#[test]
fn only_json_files_are_taken() {
    assert!(is_acceptable_json("a.json", ""));
    assert!(is_acceptable_json("a.b.JSON", "text/plain"));
    assert!(is_acceptable_json(".json", ""));
    assert!(is_acceptable_json("a.txt", " application/json ; charset=utf-8"));
    assert!(is_acceptable_json("a", "text/json"));
    assert!(!is_acceptable_json("a.json.txt", ""));
    assert!(!is_acceptable_json("json", "application/jsonp"));
    assert!(!is_acceptable_json("xjson", ""));
    assert!(!is_acceptable_json("", "; application/json"));
}

fn refusal(step: UploadStep) -> String {
    match step {
        UploadStep::Answer(Reply::Unprocessable(ImportScreen::Page(page))) => {
            assert_eq!(page.stage, "failed");
            assert_eq!(page.steps[0].label, "Source");
            assert!(page.steps[0].active);
            assert_eq!(page.source_label, page.failure_reason);
            page.failure_reason
        }
        other => panic!("{:?}", other),
    }
}

fn head(name: &str) -> FieldHead {
    FieldHead { name: Some(name.into()), file_name: None, content_type: None }
}

#[test]
fn an_upload_runs_to_its_review() {
    let u = user();
    assert_eq!(on_opened(&u, true), UploadStep::ReadField);
    assert_eq!(on_field(&u, Ok(Some(head("source")))), UploadStep::ReadField);
    let file = FieldHead {
        name: Some("upload".into()),
        file_name: Some("r.json".into()),
        content_type: Some("application/json".into()),
    };
    let upload_head = match on_field(&u, Ok(Some(file))) {
        UploadStep::ReadContent(h) => h,
        other => panic!("{:?}", other),
    };
    assert_eq!(upload_head.file_name, "r.json");
    let upload = match on_content(&u, upload_head, Ok(b"[]".to_vec())) {
        UploadStep::Parse(upload) => upload,
        other => panic!("{:?}", other),
    };
    assert_eq!(upload.bytes, b"[]".to_vec());
    let (cmd, candidates) = match on_parsed(&u, upload.file_name, Ok(seeds())) {
        UploadStep::Start(cmd, candidates) => (cmd, candidates),
        other => panic!("{:?}", other),
    };
    assert_eq!((cmd.owner_id.as_str(), cmd.source_label.as_str()), ("u1", "r.json"));
    assert_eq!(cmd.source, ImportSource::File);
    match on_started(&u, candidates, Ok("j1".into())) {
        UploadStep::Record(record) => {
            assert_eq!(record.import_id, "j1");
            assert_eq!(record.candidates.len(), 8);
        }
        other => panic!("{:?}", other),
    }
    assert_eq!(
        on_recorded("j1"),
        UploadStep::Answer(Reply::Redirect("/recipes/import?job=j1&stage=preview".into()))
    );
}

#[test]
fn an_upload_that_fails_says_why() {
    let u = user();
    let name = |file_name: &str| UploadHead {
        file_name: file_name.into(),
        content_type: String::new(),
    };
    assert_eq!(refusal(on_opened(&u, false)), "We couldn't read that upload.");
    assert_eq!(refusal(on_field(&u, Err("x".into()))), "That upload was malformed.");
    assert_eq!(refusal(on_field(&u, Ok(None))), "Pick a file before uploading.");
    assert_eq!(
        refusal(on_content(&u, name("a.json"), Err("x".into()))),
        "Couldn't read that file."
    );
    assert_eq!(
        refusal(on_content(&u, name("a.txt"), Ok(vec![]))),
        "Pick a file before uploading."
    );
    assert_eq!(
        refusal(on_content(&u, name("a.txt"), Ok(vec![1]))),
        "Only .json recipe files are supported right now."
    );
    assert_eq!(
        refusal(on_parsed(&u, "a".into(), Err("bad".into()))),
        "Couldn't parse: bad"
    );
    assert_eq!(
        refusal(on_parsed(&u, "a".into(), Ok(vec![]))),
        "No recipes found in the file."
    );
    assert_eq!(
        refusal(on_started(&u, vec![], Err("x".into()))),
        "Couldn't start the import."
    );
    assert!(matches!(import_error_response(&u, "x"), Reply::Unprocessable(_)));
    match on_field(&u, Ok(Some(head("upload")))) {
        UploadStep::ReadContent(h) => {
            assert_eq!((h.file_name.as_str(), h.content_type.as_str()), ("upload.json", ""));
        }
        other => panic!("{:?}", other),
    }
}

#[test]
fn uploads_are_told_by_their_content_type() {
    assert!(is_multipart(Some("multipart/form-data; boundary=x")));
    assert!(!is_multipart(Some("application/x-www-form-urlencoded")));
    assert!(!is_multipart(None));
}
