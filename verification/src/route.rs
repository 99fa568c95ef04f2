//! Client-side routing: the closed set of page locations, the mapping
//! between locations and URL paths, and the recognizer that validates
//! untrusted path strings (used both for navigation and for embedded links).

use vstd::prelude::*;

verus! {

/// A page location. `Post` carries the filename of the post to show.
#[derive(Clone, Debug, PartialEq)]
pub enum Route {
    Home,
    NotFound,
    Post { filename: String },
    Posts,
    Projects,
}

/// The path prefix under which a single post lives.
pub open spec fn post_prefix() -> Seq<char> {
    "/post/"@
}

/// A path of the form `/post/<filename>` with a non-empty filename that
/// spans a single segment.
pub open spec fn is_post_path(p: Seq<char>) -> bool {
    &&& p.len() > post_prefix().len()
    &&& p.subrange(0, post_prefix().len() as int) == post_prefix()
    &&& (forall|i: int| post_prefix().len() <= i < p.len() ==> p[i] != '/')
}

/// The filename carried by a `/post/<filename>` path.
pub open spec fn post_path_name(p: Seq<char>) -> Seq<char> {
    p.subrange(post_prefix().len() as int, p.len() as int)
}

/// The URL path of a location.
pub open spec fn spec_to_path(route: Route) -> Seq<char> {
    match route {
        Route::Home => "/"@,
        Route::NotFound => "/404.html"@,
        Route::Post { filename } => post_prefix() + filename@,
        Route::Posts => "/posts"@,
        Route::Projects => "/projects"@,
    }
}

/// Compares two strings character by character.
pub(crate) fn str_eq_str(a: &str, b: &str) -> (r: bool)
    ensures
        r == (a@ =~= b@),
{
    let a_len = a.unicode_len();
    let b_len = b.unicode_len();
    if a_len != b_len {
        return false;
    }
    let mut i: usize = 0;
    while i < a_len
        invariant
            i <= a_len,
            a_len == a@.len(),
            a_len == b@.len(),
            forall|j: int| 0 <= j < i ==> a@[j] == b@[j],
        decreases a_len - i,
    {
        if a.get_char(i) != b.get_char(i) {
            return false;
        }
        i += 1;
    }
    proof {
        assert(a@ =~= b@);
    }
    true
}

/// Whether two locations are the same (same variant; for posts, the same
/// filename).
pub open spec fn spec_same_route(a: Route, b: Route) -> bool {
    match (a, b) {
        (Route::Home, Route::Home) => true,
        (Route::NotFound, Route::NotFound) => true,
        (Route::Post { filename: f1 }, Route::Post { filename: f2 }) => f1@ == f2@,
        (Route::Posts, Route::Posts) => true,
        (Route::Projects, Route::Projects) => true,
        _ => false,
    }
}

/// Compares two locations (used to mark the active navigation entry).
pub fn same_route(a: &Route, b: &Route) -> (r: bool)
    ensures
        r == spec_same_route(*a, *b),
{
    match (a, b) {
        (Route::Home, Route::Home) => true,
        (Route::NotFound, Route::NotFound) => true,
        (Route::Post { filename: f1 }, Route::Post { filename: f2 }) => str_eq_str(
            f1.as_str(),
            f2.as_str(),
        ),
        (Route::Posts, Route::Posts) => true,
        (Route::Projects, Route::Projects) => true,
        _ => false,
    }
}

/// The fixed paths of the route surface are pairwise distinct, and none of
/// them is a post path.
proof fn lemma_fixed_paths_distinct()
    ensures
        "/"@ != "/404.html"@,
        "/"@ != "/posts"@,
        "/"@ != "/projects"@,
        "/404.html"@ != "/posts"@,
        "/404.html"@ != "/projects"@,
        "/posts"@ != "/projects"@,
        !is_post_path("/"@),
        !is_post_path("/404.html"@),
        !is_post_path("/posts"@),
        !is_post_path("/projects"@),
{
    reveal_strlit("/");
    reveal_strlit("/404.html");
    reveal_strlit("/posts");
    reveal_strlit("/projects");
    reveal_strlit("/post/");
    assert("/"@.len() == 1 && "/404.html"@.len() == 9 && "/posts"@.len() == 6 && "/projects"@.len()
        == 9);
    assert("/404.html"@[1] == '4' && "/projects"@[1] == 'p');
    assert(!is_post_path("/404.html"@)) by {
        assert(("/404.html"@).subrange(0, 6)[1] == '4');
        assert(post_prefix()[1] == 'p');
    }
    assert(!is_post_path("/projects"@)) by {
        assert(("/projects"@).subrange(0, 6)[2] == 'r');
        assert(post_prefix()[2] == 'o');
    }
}

impl Route {
    /// The URL path this location is reached under.
    pub fn to_path(&self) -> (r: String)
        ensures
            r@ == spec_to_path(*self),
    {
        match self {
            Route::Home => "/".to_owned(),
            Route::NotFound => "/404.html".to_owned(),
            Route::Post { filename } => {
                let mut path = "/post/".to_owned();
                path.append(filename.as_str());
                path
            },
            Route::Posts => "/posts".to_owned(),
            Route::Projects => "/projects".to_owned(),
        }
    }

    /// The caption shown for this location in the navigation bar.
    pub fn label(&self) -> (r: String)
        ensures
            self is Home ==> r@ == "Home"@,
            self is NotFound ==> r@ == "NotFound"@,
            self matches Route::Post { .. } ==> r@ == "Post"@,
            self is Posts ==> r@ == "Posts"@,
            self is Projects ==> r@ == "Projects"@,
    {
        match self {
            Route::Home => "Home".to_owned(),
            Route::NotFound => "NotFound".to_owned(),
            Route::Post { .. } => "Post".to_owned(),
            Route::Posts => "Posts".to_owned(),
            Route::Projects => "Projects".to_owned(),
        }
    }

    /// The locations offered in the navigation bar, in display order.
    pub fn displayable() -> (r: Vec<Route>)
        ensures
            r@.len() == 2,
            r@[0] is Projects,
            r@[1] is Posts,
    {
        let mut routes: Vec<Route> = Vec::new();
        routes.push(Route::Projects);
        routes.push(Route::Posts);
        routes
    }

    /// Maps a path string to the location it names, or `None` for a path
    /// outside the route surface. A post path must carry a non-empty,
    /// single-segment filename.
    pub fn recognize(path: &str) -> (r: Option<Route>)
        ensures
            path@ == "/"@ ==> (r matches Some(route) && route is Home),
            path@ == "/404.html"@ ==> (r matches Some(route) && route is NotFound),
            path@ == "/posts"@ ==> (r matches Some(route) && route is Posts),
            path@ == "/projects"@ ==> (r matches Some(route) && route is Projects),
            is_post_path(path@) ==> (r matches Some(route) && route matches Route::Post {
                filename,
            } && filename@ == post_path_name(path@)),
            !(path@ == "/"@ || path@ == "/404.html"@ || path@ == "/posts"@ || path@
                == "/projects"@ || is_post_path(path@)) ==> r is None,
    {
        proof {
            reveal_strlit("/");
            reveal_strlit("/404.html");
            reveal_strlit("/posts");
            reveal_strlit("/projects");
            reveal_strlit("/post/");
            lemma_fixed_paths_distinct();
        }
        if str_eq_str(path, "/") {
            Some(Route::Home)
        } else if str_eq_str(path, "/404.html") {
            Some(Route::NotFound)
        } else if str_eq_str(path, "/posts") {
            Some(Route::Posts)
        } else if str_eq_str(path, "/projects") {
            Some(Route::Projects)
        } else {
            Self::recognize_post(path)
        }
    }

    /// Recognizes only the `/post/<filename>` form.
    fn recognize_post(path: &str) -> (r: Option<Route>)
        ensures
            is_post_path(path@) ==> (r matches Some(route) && route matches Route::Post {
                filename,
            } && filename@ == post_path_name(path@)),
            !is_post_path(path@) ==> r is None,
    {
        proof {
            reveal_strlit("/post/");
        }
        let len = path.unicode_len();
        if len <= 6 {
            return None;
        }
        let mut i: usize = 0;
        let prefix = "/post/";
        while i < 6
            invariant
                i <= 6,
                path@.len() > 6,
                prefix@ == "/post/"@,
                prefix@.len() == 6,
                post_prefix().len() == 6,
                forall|j: int| 0 <= j < i ==> path@[j] == prefix@[j],
            decreases 6 - i,
        {
            if path.get_char(i) != prefix.get_char(i) {
                proof {
                    assert(path@.subrange(0, 6) != post_prefix()) by {
                        assert(path@.subrange(0, 6)[i as int] != post_prefix()[i as int]);
                    }
                }
                return None;
            }
            i += 1;
        }
        let mut k: usize = 6;
        while k < len
            invariant
                6 <= k <= len,
                len == path@.len(),
                path@.len() > 6,
                post_prefix().len() == 6,
                forall|j: int| 6 <= j < k ==> path@[j] != '/',
            decreases len - k,
        {
            if path.get_char(k) == '/' {
                proof {
                    assert(!is_post_path(path@)) by {
                        assert(path@[k as int] == '/');
                    }
                }
                return None;
            }
            k += 1;
        }
        proof {
            reveal_strlit("/post/");
            assert(path@.subrange(0, 6) =~= post_prefix());
        }
        let name = path.substring_char(6, len);
        Some(Route::Post { filename: name.to_owned() })
    }
}

/// A location's own path is recognized back as that location: the fixed
/// paths name their locations, and a post's path carries its filename, as
/// long as the filename is non-empty and spans a single segment (the only
/// filenames a post path can express).
pub proof fn lemma_path_round_trip(route: Route)
    requires
        route matches Route::Post { filename } ==> (filename@.len() > 0 && (forall|i: int|
            0 <= i < filename@.len() ==> filename@[i] != '/')),
    ensures
        route is Home ==> spec_to_path(route) == "/"@,
        route is NotFound ==> spec_to_path(route) == "/404.html"@,
        route is Posts ==> spec_to_path(route) == "/posts"@,
        route is Projects ==> spec_to_path(route) == "/projects"@,
        route matches Route::Post { filename } ==> (is_post_path(spec_to_path(route))
            && post_path_name(spec_to_path(route)) == filename@),
{
    reveal_strlit("/post/");
    match route {
        Route::Post { filename } => {
            let p = spec_to_path(route);
            assert(p == post_prefix() + filename@);
            assert(p.len() == 6 + filename@.len());
            assert(p.subrange(0, 6) =~= post_prefix());
            assert(forall|i: int| 6 <= i < p.len() ==> p[i] == filename@[i - 6]);
            assert(post_path_name(p) =~= filename@);
        },
        _ => {},
    }
}

} // verus!
