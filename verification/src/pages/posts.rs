//! The posts page: fetches the JSON index at `/posts.json` and shows one
//! card per post. A missing index is not an error for a list: it renders as
//! a legitimate empty list.

use vstd::prelude::*;

use crate::card;
use crate::json::json_records_of;
use crate::json::field_of;
use crate::json::parse_records;
use crate::json::spec_field_of;
use crate::route::Route;
use crate::utils::Effect;
use crate::utils::FetchOutcome;
use crate::utils::FetchState;
use crate::utils::Message;
use crate::utils::Never;
use crate::utils::Url;
use crate::utils::ViewModel;
use crate::utils::spec_after_fetch_message;
use crate::utils::spec_fetch_issued;
use crate::utils::spec_status_error_message;
use crate::utils::status_error_message;
use crate::utils::status_missing;
use crate::utils::status_ok;

verus! {

/// One entry of the posts index.
#[derive(Debug)]
pub struct Post {
    pub title: String,
    pub date: String,
    pub filename: String,
}

impl View for Post {
    type V = (Seq<char>, Seq<char>, Seq<char>);

    open spec fn view(&self) -> (Seq<char>, Seq<char>, Seq<char>) {
        (self.title@, self.date@, self.filename@)
    }
}

/// The typed fields of one post record: its `title`, `date` and `filename`
/// values, if all three are present.
pub open spec fn spec_post_fields(rec: Seq<(Seq<char>, Seq<char>)>) -> Option<
    (Seq<char>, Seq<char>, Seq<char>),
> {
    match (spec_field_of(rec, "title"@), spec_field_of(rec, "date"@), spec_field_of(
        rec,
        "filename"@,
    )) {
        (Some(title), Some(date), Some(filename)) => Some((title, date, filename)),
        _ => None,
    }
}

/// Builds a post from one record's key/value pairs; `None` when a required
/// field is missing.
pub fn post_from_record(record: &Vec<(String, String)>) -> (r: Option<Post>)
    ensures
        (spec_post_fields(record.deep_view()) matches Some(f) ==> (r matches Some(p) && p@ == f)),
        spec_post_fields(record.deep_view()) is None ==> r is None,
{
    let title = field_of(record, &"title".to_owned());
    let date = field_of(record, &"date".to_owned());
    let filename = field_of(record, &"filename".to_owned());
    match (title, date, filename) {
        (Some(title), Some(date), Some(filename)) => Some(
            Post { title: title.clone(), date: date.clone(), filename: filename.clone() },
        ),
        _ => None,
    }
}

/// Deserializes the posts index: the posts in order, or a diagnostic — the
/// JSON parser's own for malformed JSON, a fixed one for a record that lacks
/// a required field.
pub fn parse_posts(text: &str) -> (r: Result<Vec<Post>, String>)
    ensures
        (json_records_of(text@) matches Err(m) ==> (r matches Err(e) && e@ == m)),
        (json_records_of(text@) matches Ok(recs) ==> {
            if forall|i: int| 0 <= i < recs.len() ==> spec_post_fields(#[trigger] recs[i]) is Some {
                r matches Ok(posts) && posts@.len() == recs.len() && (forall|i: int|
                    0 <= i < recs.len() ==> (spec_post_fields(#[trigger] recs[i]) matches Some(f)
                        ==> posts@[i]@ == f))
            } else {
                r matches Err(e) && e@ == "invalid posts.json"@
            }
        }),
{
    match parse_records(text) {
        Err(e) => Err(e),
        Ok(records) => {
            let ghost recs = records.deep_view();
            let mut posts: Vec<Post> = Vec::new();
            let mut i: usize = 0;
            while i < records.len()
                invariant
                    i <= records@.len(),
                    json_records_of(text@) == Ok::<Seq<Seq<(Seq<char>, Seq<char>)>>, Seq<char>>(
                        recs,
                    ),
                    recs == records.deep_view(),
                    recs.len() == records@.len(),
                    forall|j: int| 0 <= j < recs.len() ==> recs[j] == #[trigger] records@[j].deep_view(),
                    posts@.len() == i,
                    forall|j: int| 0 <= j < i ==> spec_post_fields(#[trigger] recs[j]) is Some,
                    forall|j: int|
                        0 <= j < i ==> (spec_post_fields(#[trigger] recs[j]) matches Some(f)
                            ==> posts@[j]@ == f),
                decreases records@.len() - i,
            {
                match post_from_record(&records[i]) {
                    Some(post) => {
                        posts.push(post);
                    },
                    None => {
                        return Err("invalid posts.json".to_owned());
                    },
                }
                i += 1;
            }
            Ok(posts)
        },
    }
}

/// The card shown for a post, and how it relates to the post: the title as
/// caption, the post's own page as an internal link target, the date as
/// subtext, and no preview image.
pub open spec fn spec_is_post_card(c: card::Props, p: Post) -> bool {
    &&& c.title == p.title
    &&& c.url matches Url::Internal(route) && route matches Route::Post { filename } && filename
        == p.filename
    &&& c.subtext matches Some(date) && date == p.date
    &&& c.image_url is None
}

impl Post {
    /// The card this post is presented as.
    pub fn to_card(&self) -> (c: card::Props)
        ensures
            spec_is_post_card(c, *self),
    {
        card::Props {
            title: self.title.clone(),
            url: Url::Internal(Route::Post { filename: self.filename.clone() }),
            subtext: Some(self.date.clone()),
            image_url: None,
        }
    }
}

/// The machine behind the posts page.
pub struct PostList {
    pub posts: Vec<Post>,
    pub fetch_state: FetchState,
}

impl PostList {
    /// Mounts the page: no posts yet, fetch not yet issued.
    pub fn create() -> (r: PostList)
        ensures
            r.posts@.len() == 0,
            (r.fetch_state is Pending),
    {
        PostList { posts: Vec::new(), fetch_state: FetchState::Pending }
    }

    /// The page's reducer: applies one message and reports the side effect
    /// to perform. A new list replaces the old one wholesale. `FetchData`
    /// issues the fetch only from `Pending`.
    pub fn update(&mut self, msg: Message<Vec<Post>, Never>) -> (e: Effect)
        ensures
            final(self).fetch_state == (match msg {
                Message::FetchData => spec_after_fetch_message(old(self).fetch_state),
                Message::SetContent(_) => FetchState::Complete,
                Message::SetState(state) => state,
                Message::UpdateData(_) => old(self).fetch_state,
            }),
            (msg matches Message::SetContent(posts) ==> final(self).posts == posts),
            !(msg matches Message::SetContent(_)) ==> final(self).posts == old(self).posts,
            (msg is FetchData && spec_fetch_issued(old(self).fetch_state)) ==> (e
                matches Effect::Fetch(path) && path@ == "/posts.json"@),
            !(msg is FetchData && spec_fetch_issued(old(self).fetch_state)) ==> e is Idle,
    {
        match msg {
            Message::FetchData => {
                match self.fetch_state {
                    FetchState::Pending => {
                        self.fetch_state = FetchState::Ongoing;
                        Effect::Fetch("/posts.json".to_owned())
                    },
                    _ => Effect::Idle,
                }
            },
            Message::SetContent(posts) => {
                self.posts = posts;
                self.fetch_state = FetchState::Complete;
                Effect::Idle
            },
            Message::SetState(state) => {
                self.fetch_state = state;
                Effect::Idle
            },
            Message::UpdateData(_) => Effect::Idle,
        }
    }

    /// One render tick: decides what to show for the current state and
    /// issues the fetch when the machine observes `Pending`. A completed
    /// empty list renders as a notice, a non-empty one as one card per post.
    pub fn render_tick(&mut self) -> (r: (ViewModel<Vec<card::Props>>, Effect))
        ensures
            old(self).fetch_state is Pending ==> final(self).fetch_state is Ongoing,
            !(old(self).fetch_state is Pending) ==> *final(self) == *old(self),
            final(self).posts == old(self).posts,
            (old(self).fetch_state is Complete && old(self).posts@.len() == 0) ==> (r.0
                matches ViewModel::EmptyNotice(s) && s@ == "Nothing to see here."@ && r.1 is Idle),
            (old(self).fetch_state is Complete && old(self).posts@.len() > 0) ==> (r.0
                matches ViewModel::Content(cards) && cards@.len() == old(self).posts@.len() && (
            forall|j: int|
                0 <= j < cards@.len() ==> spec_is_post_card(
                    #[trigger] cards@[j],
                    old(self).posts@[j],
                )) && r.1 is Idle),
            old(self).fetch_state is NotFound ==> (r.0 is RedirectNotFound && r.1 is Idle),
            old(self).fetch_state matches FetchState::Error(m) ==> (r.0
                matches ViewModel::ErrorLine(e) && e == m && r.1 is Idle),
            old(self).fetch_state is Ongoing ==> (r.0 matches ViewModel::StatusLine(s) && s@
                == "Fetching..."@ && r.1 is Idle),
            old(self).fetch_state is Pending ==> (r.0 is Blank && (r.1 matches Effect::Fetch(p)
                && p@ == "/posts.json"@)),
    {
        match &self.fetch_state {
            FetchState::Complete => {
                if self.posts.len() == 0 {
                    (ViewModel::EmptyNotice("Nothing to see here.".to_owned()), Effect::Idle)
                } else {
                    let mut cards: Vec<card::Props> = Vec::new();
                    let mut i: usize = 0;
                    while i < self.posts.len()
                        invariant
                            i <= self.posts@.len(),
                            cards@.len() == i,
                            forall|j: int|
                                0 <= j < i ==> spec_is_post_card(
                                    #[trigger] cards@[j],
                                    self.posts@[j],
                                ),
                        decreases self.posts@.len() - i,
                    {
                        let card = self.posts[i].to_card();
                        cards.push(card);
                        i += 1;
                    }
                    (ViewModel::Content(cards), Effect::Idle)
                }
            },
            FetchState::NotFound => (ViewModel::RedirectNotFound, Effect::Idle),
            FetchState::Error(message) => (ViewModel::ErrorLine(message.clone()), Effect::Idle),
            FetchState::Ongoing => (ViewModel::StatusLine("Fetching...".to_owned()), Effect::Idle),
            FetchState::Pending => {
                self.fetch_state = FetchState::Ongoing;
                (ViewModel::Blank, Effect::Fetch("/posts.json".to_owned()))
            },
        }
    }
}

/// Classifies a transport outcome for the posts index: a missing index is a
/// legitimate empty list (`Complete` with zero items, never `NotFound` or
/// `Error`); any transport, body-read or parse failure surfaces its
/// diagnostic as `Error`; a well-formed body becomes the list.
pub fn resolve_posts(outcome: FetchOutcome) -> (msg: Message<Vec<Post>, Never>)
    ensures
        (outcome matches FetchOutcome::Failure(m) ==> msg == Message::<Vec<Post>, Never>::SetState(
            FetchState::Error(m),
        )),
        (outcome matches FetchOutcome::Response(status, body) ==> {
            if status_missing(status) {
                msg matches Message::SetContent(posts) && posts@.len() == 0
            } else if !status_ok(status) {
                msg matches Message::SetState(s) && s matches FetchState::Error(e) && e@
                    == spec_status_error_message(status)
            } else {
                match body {
                    Ok(text) => match json_records_of(text@) {
                        Err(m) => msg matches Message::SetState(s) && s matches FetchState::Error(
                            e,
                        ) && e@ == m,
                        Ok(recs) => {
                            if forall|i: int|
                                0 <= i < recs.len() ==> spec_post_fields(#[trigger] recs[i])
                                    is Some {
                                msg matches Message::SetContent(posts) && posts@.len()
                                    == recs.len() && (forall|i: int|
                                    0 <= i < recs.len() ==> (spec_post_fields(#[trigger] recs[i])
                                        matches Some(f) ==> posts@[i]@ == f))
                            } else {
                                msg matches Message::SetState(s) && s matches FetchState::Error(e)
                                    && e@ == "invalid posts.json"@
                            }
                        },
                    },
                    Err(m) => msg == Message::<Vec<Post>, Never>::SetState(FetchState::Error(m)),
                }
            }
        }),
{
    match outcome {
        FetchOutcome::Failure(m) => Message::SetState(FetchState::Error(m)),
        FetchOutcome::Response(status, body) => {
            if status == 404 {
                Message::SetContent(Vec::new())
            } else if status >= 400 {
                Message::SetState(FetchState::Error(status_error_message(status)))
            } else {
                match body {
                    Ok(text) => {
                        match parse_posts(text.as_str()) {
                            Ok(posts) => Message::SetContent(posts),
                            Err(e) => Message::SetState(FetchState::Error(e)),
                        }
                    },
                    Err(m) => Message::SetState(FetchState::Error(m)),
                }
            }
        },
    }
}

} // verus!
