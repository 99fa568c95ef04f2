use web_segment::pages::posts::{parse_posts, resolve_posts, PostList};
use web_segment::pages::projects::{error_detail, parse_projects, resolve_projects};
use web_segment::pages::projects::ProjectList;
use web_segment::pages::text::{file_decision, index_decision, FetchState, IndexStep, Text};
use web_segment::route::Route;
use web_segment::utils::{Effect, FetchOutcome, Message, Url, ViewModel};

#[test]
fn records_with_unknown_extra_fields_still_parse() {
    let text = "[{\"title\":\"First\",\"date\":\"d\",\"filename\":\"f\",\"extra\":\"x\"}]";
    let posts = parse_posts(text).unwrap();
    assert_eq!(posts.len(), 1);
    assert_eq!(posts[0].title, "First");
}

#[test]
fn index_entries_that_are_not_strings_are_rejected() {
    let step = index_decision(
        &"a.md".to_string(),
        FetchOutcome::Response(200, Ok("[1, 2]".to_string())),
    );
    assert!(matches!(
        step,
        IndexStep::Resolve(FetchState::Failed(m)) if m == "Invalid index.list file"
    ));
}

#[test]
fn posts_index_parses_to_posts() {
    let text = "[{\"title\":\"First\",\"date\":\"2023-01-01\",\"filename\":\"first.md\"}]";
    let posts = parse_posts(text).unwrap();
    assert_eq!(posts.len(), 1);
    assert_eq!(posts[0].title, "First");
    assert_eq!(posts[0].date, "2023-01-01");
    assert_eq!(posts[0].filename, "first.md");
}

#[test]
fn posts_index_with_missing_field_is_an_error() {
    let text = "[{\"title\":\"First\",\"date\":\"2023-01-01\"}]";
    assert_eq!(parse_posts(text).unwrap_err(), "invalid posts.json");
}

#[test]
fn malformed_posts_index_reports_the_parser_diagnostic() {
    let error = parse_posts("{").unwrap_err();
    assert!(!error.is_empty());
}

#[test]
fn missing_posts_index_is_an_empty_complete_list() {
    // A missing index is not an error for a list.
    let message = resolve_posts(FetchOutcome::Response(404, Ok("gone".to_string())));
    assert!(matches!(message, Message::SetContent(posts) if posts.is_empty()));

    let mut machine = PostList::create();
    machine.update(Message::FetchData);
    machine.update(resolve_posts(FetchOutcome::Response(404, Ok(String::new()))));
    let (view, effect) = machine.render_tick();
    assert!(matches!(view, ViewModel::EmptyNotice(s) if s == "Nothing to see here."));
    assert!(matches!(effect, Effect::Idle));
}

#[test]
fn posts_list_renders_one_card_per_post() {
    let text = "[{\"title\":\"First\",\"date\":\"2023-01-01\",\"filename\":\"first.md\"},\
                {\"title\":\"Second\",\"date\":\"2023-02-01\",\"filename\":\"second.md\"}]";
    let mut machine = PostList::create();
    let (_, effect) = machine.render_tick();
    assert!(matches!(effect, Effect::Fetch(path) if path == "/posts.json"));
    machine.update(resolve_posts(FetchOutcome::Response(200, Ok(text.to_string()))));
    let (view, _) = machine.render_tick();
    match view {
        ViewModel::Content(cards) => {
            assert_eq!(cards.len(), 2);
            assert_eq!(cards[0].title, "First");
            assert_eq!(cards[0].subtext, Some("2023-01-01".to_string()));
            assert_eq!(cards[1].title, "Second");
            assert!(matches!(
                &cards[0].url,
                Url::Internal(Route::Post { filename }) if filename == "first.md"
            ));
        }
        other => panic!("expected cards, got {}", kind_of(&other)),
    }
}

fn kind_of<T>(view: &ViewModel<T>) -> &'static str {
    match view {
        ViewModel::Blank => "Blank",
        ViewModel::StatusLine(_) => "StatusLine",
        ViewModel::ErrorLine(_) => "ErrorLine",
        ViewModel::RedirectNotFound => "RedirectNotFound",
        ViewModel::EmptyNotice(_) => "EmptyNotice",
        ViewModel::Content(_) => "Content",
    }
}

#[test]
fn project_list_parses_and_missing_field_is_an_error() {
    let projects = parse_projects("[{\"author\":\"me\",\"name\":\"tool\"}]").unwrap();
    assert_eq!(projects.len(), 1);
    assert_eq!(projects[0].author, "me");
    assert_eq!(projects[0].name, "tool");

    assert_eq!(
        parse_projects("[{\"author\":\"me\"}]").unwrap_err(),
        "invalid project list"
    );
}

#[test]
fn aggregator_error_surfaces_its_detail() {
    assert_eq!(error_detail("{\"detail\":\"no such user\"}"), "no such user");
    assert_eq!(error_detail("{}"), "invalid error response");

    let message = resolve_projects(FetchOutcome::Response(
        503,
        Ok("{\"detail\":\"try later\"}".to_string()),
    ));
    assert!(matches!(
        message,
        Message::SetState(web_segment::utils::FetchState::Error(m)) if m == "try later"
    ));
}

#[test]
fn missing_project_list_is_an_empty_complete_list() {
    let message = resolve_projects(FetchOutcome::Response(
        404,
        Ok("{\"detail\":\"no such user\"}".to_string()),
    ));
    assert!(matches!(message, Message::SetContent(projects) if projects.is_empty()));
}

#[test]
fn listed_filename_clears_the_file_fetch() {
    // Scenario: /texts/index.list holds ["a.md","b.md"].
    let index = FetchOutcome::Response(200, Ok("[\"a.md\",\"b.md\"]".to_string()));
    let step = index_decision(&"a.md".to_string(), index);
    assert!(matches!(step, IndexStep::FetchFile));
}

#[test]
fn absent_filename_is_a_missing_resource() {
    // Scenario: requesting "c.md", which the index does not list.
    let index = FetchOutcome::Response(200, Ok("[\"a.md\",\"b.md\"]".to_string()));
    let step = index_decision(&"c.md".to_string(), index);
    assert!(matches!(step, IndexStep::Resolve(FetchState::NotFound)));
}

#[test]
fn unreachable_index_fails_with_its_diagnostic() {
    let step = index_decision(
        &"a.md".to_string(),
        FetchOutcome::Failure("network unreachable".to_string()),
    );
    assert!(matches!(
        step,
        IndexStep::Resolve(FetchState::Failed(m))
            if m == "Couldn't fetch index.list, network unreachable"
    ));
}

#[test]
fn malformed_index_fails_with_a_fixed_notice() {
    let step = index_decision(
        &"a.md".to_string(),
        FetchOutcome::Response(200, Ok("not json".to_string())),
    );
    assert!(matches!(
        step,
        IndexStep::Resolve(FetchState::Failed(m)) if m == "Invalid index.list file"
    ));
}

#[test]
fn missing_index_is_an_empty_list_so_the_file_is_missing() {
    let step = index_decision(
        &"a.md".to_string(),
        FetchOutcome::Response(404, Ok("gone".to_string())),
    );
    assert!(matches!(step, IndexStep::Resolve(FetchState::NotFound)));
}

#[test]
fn missing_text_file_is_not_found_never_failed() {
    let state = file_decision(FetchOutcome::Response(404, Ok("gone".to_string())));
    assert!(matches!(state, FetchState::NotFound));
}

#[test]
fn received_text_file_is_the_success_payload() {
    let state = file_decision(FetchOutcome::Response(200, Ok("the text".to_string())));
    assert!(matches!(state, FetchState::Success(t) if t == "the text"));
}

#[test]
fn text_page_runs_both_fetch_phases() {
    let filename = "a.md".to_string();
    let mut machine = Text::create();

    // The first tick issues the index fetch.
    let (view, effect) = machine.render_tick();
    assert!(matches!(view, ViewModel::Blank));
    assert!(matches!(effect, Effect::Fetch(path) if path == "/texts/index.list"));
    assert!(matches!(machine.fetch_state, FetchState::Fetching));

    // The index lists the filename, so the file fetch goes ahead.
    let index = FetchOutcome::Response(200, Ok("[\"a.md\"]".to_string()));
    let step = index_decision(&filename, index);
    assert!(matches!(step, IndexStep::FetchFile));

    // The file arrives; its text is shown.
    let outcome = FetchOutcome::Response(200, Ok("file body".to_string()));
    machine.update(web_segment::pages::text::Message::SetState(file_decision(outcome)));
    let (view, effect) = machine.render_tick();
    assert!(matches!(view, ViewModel::Content(t) if t == "file body"));
    assert!(matches!(effect, Effect::Idle));
}

#[test]
fn projects_page_renders_cards_from_the_aggregator_response() {
    let username = "someone".to_string();
    let mut machine = ProjectList::create();

    let (_, effect) = machine.render_tick(&username, 3);
    assert!(matches!(
        effect,
        Effect::Fetch(url) if url == "https://pinned.berrysauce.dev/get/someone"
    ));

    let body = "[{\"author\":\"me\",\"name\":\"tool\"}]".to_string();
    machine.update(&username, resolve_projects(FetchOutcome::Response(200, Ok(body))));
    let (view, _) = machine.render_tick(&username, 3);
    match view {
        ViewModel::Content(cards) => {
            assert_eq!(cards.len(), 1);
            assert_eq!(cards[0].title, "me/tool");
            assert_eq!(
                cards[0].image_url,
                Some("https://opengraph.githubassets.com/3/me/tool".to_string())
            );
        }
        other => panic!("expected cards, got {}", kind_of(&other)),
    }
}
