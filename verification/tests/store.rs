use web_segment::pages::markdown_file::{resolve_markdown, MarkdownFile};
use web_segment::store::MarkdownStore;
use web_segment::utils::{Effect, FetchOutcome, FetchState, Message, ViewModel};

#[test]
fn get_returns_what_set_stored_until_the_next_set_or_remove() {
    let mut store = MarkdownStore::new();
    assert!(store.get(&"k".to_string()).is_none());

    store.set("k".to_string(), "v".to_string());
    assert_eq!(store.get(&"k".to_string()), Some(&"v".to_string()));

    // A set or remove for another key leaves the entry.
    store.set("other".to_string(), "w".to_string());
    assert_eq!(store.get(&"k".to_string()), Some(&"v".to_string()));
    store.remove(&"other".to_string());
    assert_eq!(store.get(&"k".to_string()), Some(&"v".to_string()));

    // The next set for k itself overwrites it; a remove drops it.
    store.set("k".to_string(), "v2".to_string());
    assert_eq!(store.get(&"k".to_string()), Some(&"v2".to_string()));
    store.remove(&"k".to_string());
    assert!(store.get(&"k".to_string()).is_none());
}

#[test]
fn remove_of_absent_key_is_a_no_op() {
    let mut store = MarkdownStore::new();
    store.set("k".to_string(), "v".to_string());
    store.remove(&"missing".to_string());
    assert_eq!(store.get(&"k".to_string()), Some(&"v".to_string()));
}

#[test]
fn second_mount_with_stored_content_issues_no_fetch() {
    // Scenario: two sequential mounts of the same page for "post-1".
    let filename = "post-1".to_string();
    let mut store = MarkdownStore::new();

    // First mount: nothing stored, so the machine arms and fetches.
    let mut first = MarkdownFile::create(&store, &filename);
    assert!(matches!(first.fetch_state, FetchState::Pending));
    let (_, effect) = first.render_tick(&store, &filename);
    assert!(matches!(effect, Effect::Fetch(path) if path == "/texts/post-1"));
    let message = resolve_markdown(FetchOutcome::Response(200, Ok("hello".to_string())));
    first.update(&mut store, &filename, message);
    assert!(matches!(first.fetch_state, FetchState::Complete));

    // Second mount: the store already holds "post-1", so the machine is
    // complete from the start and no render tick issues a network fetch.
    let mut second = MarkdownFile::create(&store, &filename);
    assert!(matches!(second.fetch_state, FetchState::Complete));
    let (view, effect) = second.render_tick(&store, &filename);
    assert!(matches!(effect, Effect::Idle));
    assert!(matches!(view, ViewModel::Content(_)));
}

#[test]
fn missing_markdown_resource_yields_not_found_and_drops_the_stale_entry() {
    let filename = "old.md".to_string();
    let mut store = MarkdownStore::new();
    store.set(filename.clone(), "<p>stale</p>".to_string());

    let mut machine = MarkdownFile::create(&store, &filename);
    // Force a re-fetch path: the machine is complete, but a later fetch for
    // the same identifier reports the resource missing.
    let message = resolve_markdown(FetchOutcome::Response(404, Ok("gone".to_string())));
    assert!(matches!(message, Message::SetState(FetchState::NotFound)));
    machine.update(&mut store, &filename, message);
    assert!(matches!(machine.fetch_state, FetchState::NotFound));
    assert!(store.get(&filename).is_none());
}

#[test]
fn markdown_error_states_render_as_visible_text() {
    let filename = "a.md".to_string();
    let mut store = MarkdownStore::new();
    let mut machine = MarkdownFile::create(&store, &filename);
    machine.render_tick(&store, &filename);
    let message = resolve_markdown(FetchOutcome::Failure("network unreachable".to_string()));
    machine.update(&mut store, &filename, message);
    let (view, effect) = machine.render_tick(&store, &filename);
    assert!(matches!(view, ViewModel::ErrorLine(m) if m == "network unreachable"));
    assert!(matches!(effect, Effect::Idle));
}
