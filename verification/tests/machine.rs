use web_segment::pages::post::{resolve_post, PostView};
use web_segment::utils::{Effect, FetchOutcome, FetchState, Message, ViewModel};

#[test]
fn fetch_data_from_pending_issues_exactly_once() {
    let mut machine = PostView::create("a.md".to_string());
    assert!(matches!(machine.fetch_state, FetchState::Pending));

    let effect = machine.update(Message::FetchData);
    assert!(matches!(machine.fetch_state, FetchState::Ongoing));
    assert!(matches!(effect, Effect::Fetch(path) if path == "/files/a.md"));

    // A second FetchData before resolution is a no-op and issues nothing.
    let effect = machine.update(Message::FetchData);
    assert!(matches!(machine.fetch_state, FetchState::Ongoing));
    assert!(matches!(effect, Effect::Idle));
}

#[test]
fn render_tick_observing_pending_issues_the_fetch() {
    let mut machine = PostView::create("a.md".to_string());
    let current = "a.md".to_string();

    let (view, effect) = machine.render_tick(&current);
    assert!(matches!(view, ViewModel::Blank));
    assert!(matches!(effect, Effect::Fetch(path) if path == "/files/a.md"));
    assert!(matches!(machine.fetch_state, FetchState::Ongoing));

    // The next tick observes Ongoing and issues nothing further.
    let (view, effect) = machine.render_tick(&current);
    assert!(matches!(view, ViewModel::StatusLine(s) if s == "Fetching..."));
    assert!(matches!(effect, Effect::Idle));
}

#[test]
fn completed_post_renders_its_body() {
    let mut machine = PostView::create("a.md".to_string());
    machine.update(Message::FetchData);
    machine.update(Message::SetContent("# a".to_string()));
    assert!(matches!(machine.fetch_state, FetchState::Complete));

    let current = "a.md".to_string();
    let (view, effect) = machine.render_tick(&current);
    assert!(matches!(view, ViewModel::Content(body) if body == "# a"));
    assert!(matches!(effect, Effect::Idle));
}

#[test]
fn navigation_without_remount_rearms_and_fetches_the_new_post() {
    // Scenario: /post/a is complete, then the route changes to /post/b while
    // the component instance is reused.
    let mut machine = PostView::create("a".to_string());
    machine.update(Message::FetchData);
    machine.update(Message::SetContent("body of a".to_string()));
    assert!(matches!(machine.fetch_state, FetchState::Complete));

    let next = "b".to_string();
    let (view, effect) = machine.render_tick(&next);
    assert!(matches!(view, ViewModel::Blank));
    assert!(matches!(effect, Effect::Idle));
    assert!(matches!(machine.fetch_state, FetchState::Pending));
    assert_eq!(machine.filename, "b");

    // The re-armed machine fetches b's content, not a's stale body.
    let (_, effect) = machine.render_tick(&next);
    assert!(matches!(effect, Effect::Fetch(path) if path == "/files/b"));
    assert!(matches!(machine.fetch_state, FetchState::Ongoing));
}

#[test]
fn transport_failure_surfaces_as_visible_error_text() {
    // Scenario: a transport failure with message "network unreachable".
    let message = resolve_post(FetchOutcome::Failure("network unreachable".to_string()));
    assert!(matches!(
        &message,
        Message::SetState(FetchState::Error(m)) if m == "network unreachable"
    ));

    let mut machine = PostView::create("a".to_string());
    machine.update(Message::FetchData);
    machine.update(message);
    assert!(matches!(&machine.fetch_state, FetchState::Error(m) if m == "network unreachable"));

    let current = "a".to_string();
    let (view, effect) = machine.render_tick(&current);
    assert!(matches!(view, ViewModel::ErrorLine(m) if m == "network unreachable"));
    assert!(matches!(effect, Effect::Idle));
}

#[test]
fn missing_resource_yields_not_found_for_single_item_fetches() {
    let message = resolve_post(FetchOutcome::Response(404, Ok("gone".to_string())));
    assert!(matches!(message, Message::SetState(FetchState::NotFound)));

    let mut machine = PostView::create("a".to_string());
    machine.update(Message::FetchData);
    machine.update(message);
    assert!(matches!(machine.fetch_state, FetchState::NotFound));

    let current = "a".to_string();
    let (view, _) = machine.render_tick(&current);
    assert!(matches!(view, ViewModel::RedirectNotFound));
}

#[test]
fn non_missing_error_status_yields_error_with_its_code() {
    let message = resolve_post(FetchOutcome::Response(500, Ok("oops".to_string())));
    assert!(matches!(
        message,
        Message::SetState(FetchState::Error(m)) if m == "HTTP status error: 500"
    ));
}

#[test]
fn received_body_becomes_the_content() {
    let message = resolve_post(FetchOutcome::Response(200, Ok("the body".to_string())));
    assert!(matches!(message, Message::SetContent(body) if body == "the body"));
}

#[test]
fn body_read_failure_surfaces_its_diagnostic() {
    let message = resolve_post(FetchOutcome::Response(
        200,
        Err("connection reset".to_string()),
    ));
    assert!(matches!(
        message,
        Message::SetState(FetchState::Error(m)) if m == "connection reset"
    ));
}
