use web_segment::pages::projects::{pinned_url, time_bucket, Project};
use web_segment::pages::txt::txt;
use web_segment::route::Route;
use web_segment::route::same_route;
use web_segment::utils::{status_error_message, texts_path, u64_to_string, Url};

#[test]
fn fixed_paths_are_recognized() {
    assert!(matches!(Route::recognize("/"), Some(Route::Home)));
    assert!(matches!(Route::recognize("/404.html"), Some(Route::NotFound)));
    assert!(matches!(Route::recognize("/posts"), Some(Route::Posts)));
    assert!(matches!(Route::recognize("/projects"), Some(Route::Projects)));
}

#[test]
fn post_paths_carry_their_filename() {
    match Route::recognize("/post/hello.md") {
        Some(Route::Post { filename }) => assert_eq!(filename, "hello.md"),
        _ => panic!("expected a post route"),
    }
}

#[test]
fn paths_outside_the_route_surface_are_rejected() {
    assert!(Route::recognize("/nope").is_none());
    assert!(Route::recognize("").is_none());
    assert!(Route::recognize("/post/").is_none());
    assert!(Route::recognize("/post/a/b").is_none());
    assert!(Route::recognize("/postscript").is_none());
}

#[test]
fn to_path_round_trips_through_recognize() {
    let routes = vec![
        Route::Home,
        Route::NotFound,
        Route::Posts,
        Route::Projects,
        Route::Post { filename: "a.md".to_string() },
    ];
    for route in routes {
        let path = route.to_path();
        let back = Route::recognize(&path).unwrap();
        assert!(same_route(&route, &back));
    }
}

#[test]
fn displayable_routes_and_labels() {
    let displayable = Route::displayable();
    assert_eq!(displayable.len(), 2);
    assert!(matches!(displayable[0], Route::Projects));
    assert!(matches!(displayable[1], Route::Posts));
    assert_eq!(displayable[0].label(), "Projects");
    assert_eq!(displayable[1].label(), "Posts");
    assert_eq!(Route::Home.label(), "Home");
}

#[test]
fn same_route_compares_post_filenames() {
    let a = Route::Post { filename: "a".to_string() };
    let a2 = Route::Post { filename: "a".to_string() };
    let b = Route::Post { filename: "b".to_string() };
    assert!(same_route(&a, &a2));
    assert!(!same_route(&a, &b));
    assert!(!same_route(&a, &Route::Posts));
    assert!(same_route(&Route::Home, &Route::Home));
}

#[test]
fn numbers_render_in_decimal() {
    assert_eq!(u64_to_string(0), "0");
    assert_eq!(u64_to_string(7), "7");
    assert_eq!(u64_to_string(105), "105");
    assert_eq!(u64_to_string(300000), "300000");
    assert_eq!(u64_to_string(u64::MAX), format!("{}", u64::MAX));
}

#[test]
fn status_diagnostics_carry_the_code() {
    assert_eq!(status_error_message(500), "HTTP status error: 500");
    assert_eq!(status_error_message(418), "HTTP status error: 418");
}

#[test]
fn fetch_paths_are_built_from_the_filename() {
    assert_eq!(texts_path(&"a.md".to_string()), "/texts/a.md");
    assert_eq!(pinned_url(&"someone".to_string()), "https://pinned.berrysauce.dev/get/someone");
}

#[test]
fn project_cards_link_to_the_repository() {
    let project = Project { author: "me".to_string(), name: "tool".to_string() };
    let card = project.to_card(17);
    assert_eq!(card.title, "me/tool");
    assert!(matches!(card.url, Url::External(u) if u == "https://github.com/me/tool"));
    assert_eq!(card.subtext, None);
    assert_eq!(
        card.image_url,
        Some("https://opengraph.githubassets.com/17/me/tool".to_string())
    );
}

#[test]
fn time_buckets_are_five_minutes_wide() {
    assert_eq!(time_bucket(0), 0);
    assert_eq!(time_bucket(299_999), 0);
    assert_eq!(time_bucket(300_000), 1);
    assert_eq!(time_bucket(1_700_000_000_000), 5_666_666);
}

#[test]
fn bundled_texts_are_looked_up_by_name() {
    let texts = vec![
        ("a.txt".to_string(), "first text".to_string()),
        ("b.txt".to_string(), "second text".to_string()),
    ];
    assert_eq!(txt(&texts, &"b.txt".to_string()), Some("second text".to_string()));
    assert_eq!(txt(&texts, &"c.txt".to_string()), None);
}
