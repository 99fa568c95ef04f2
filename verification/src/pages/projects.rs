//! The projects page: fetches the list of pinned repositories for a fixed
//! username from a pinned-repositories aggregator and shows one card per
//! project. The card's preview image URL carries a coarse time bucket so the
//! preview refreshes every few minutes without defeating caching entirely.

use vstd::prelude::*;

use crate::card;
use crate::json::field_of;
use crate::json::json_object_of;
use crate::json::json_records_of;
use crate::json::parse_object;
use crate::json::parse_records;
use crate::json::spec_field_of;
use crate::utils::Effect;
use crate::utils::FetchOutcome;
use crate::utils::FetchState;
use crate::utils::Message;
use crate::utils::Never;
use crate::utils::Url;
use crate::utils::ViewModel;
use crate::utils::dec_str;
use crate::utils::spec_after_fetch_message;
use crate::utils::spec_fetch_issued;
use crate::utils::u64_to_string;

verus! {

/// One pinned repository: its owner and its name.
#[derive(Debug)]
pub struct Project {
    pub author: String,
    pub name: String,
}

impl View for Project {
    type V = (Seq<char>, Seq<char>);

    open spec fn view(&self) -> (Seq<char>, Seq<char>) {
        (self.author@, self.name@)
    }
}

/// The `owner/name` form of a project.
pub open spec fn spec_full_name(p: Project) -> Seq<char> {
    p.author@ + "/"@ + p.name@
}

/// The address of a project's repository page.
pub open spec fn spec_project_url(p: Project) -> Seq<char> {
    "https://github.com/"@ + spec_full_name(p)
}

/// The address of a project's preview image for a given time bucket.
pub open spec fn spec_image_url(p: Project, bucket: u64) -> Seq<char> {
    "https://opengraph.githubassets.com/"@ + dec_str(bucket as int) + "/"@ + spec_full_name(p)
}

/// The aggregator address the pinned repositories of a user are fetched
/// from.
pub open spec fn spec_pinned_url(username: Seq<char>) -> Seq<char> {
    "https://pinned.berrysauce.dev/get/"@ + username
}

/// Renders the aggregator address for a username.
pub fn pinned_url(username: &String) -> (r: String)
    ensures
        r@ == spec_pinned_url(username@),
{
    let mut url = "https://pinned.berrysauce.dev/get/".to_owned();
    url.append(username.as_str());
    url
}

/// The coarse time bucket for a timestamp in milliseconds: one bucket per
/// five minutes.
pub fn time_bucket(now_ms: u64) -> (b: u64)
    ensures
        b == now_ms as int / 300000,
{
    now_ms / (1000 * 60 * 5)
}

/// The typed fields of one project record: its `author` and `name` values,
/// if both are present.
pub open spec fn spec_project_fields(rec: Seq<(Seq<char>, Seq<char>)>) -> Option<
    (Seq<char>, Seq<char>),
> {
    match (spec_field_of(rec, "author"@), spec_field_of(rec, "name"@)) {
        (Some(author), Some(name)) => Some((author, name)),
        _ => None,
    }
}

/// Builds a project from one record's key/value pairs; `None` when a
/// required field is missing.
pub fn project_from_record(record: &Vec<(String, String)>) -> (r: Option<Project>)
    ensures
        (spec_project_fields(record.deep_view()) matches Some(f) ==> (r matches Some(p) && p@
            == f)),
        spec_project_fields(record.deep_view()) is None ==> r is None,
{
    let author = field_of(record, &"author".to_owned());
    let name = field_of(record, &"name".to_owned());
    match (author, name) {
        (Some(author), Some(name)) => Some(
            Project { author: author.clone(), name: name.clone() },
        ),
        _ => None,
    }
}

/// Deserializes the project list: the projects in order, or a diagnostic —
/// the JSON parser's own for malformed JSON, a fixed one for a record that
/// lacks a required field.
pub fn parse_projects(text: &str) -> (r: Result<Vec<Project>, String>)
    ensures
        (json_records_of(text@) matches Err(m) ==> (r matches Err(e) && e@ == m)),
        (json_records_of(text@) matches Ok(recs) ==> {
            if forall|i: int|
                0 <= i < recs.len() ==> spec_project_fields(#[trigger] recs[i]) is Some {
                r matches Ok(projects) && projects@.len() == recs.len() && (forall|i: int|
                    0 <= i < recs.len() ==> (spec_project_fields(#[trigger] recs[i]) matches Some(
                        f,
                    ) ==> projects@[i]@ == f))
            } else {
                r matches Err(e) && e@ == "invalid project list"@
            }
        }),
{
    match parse_records(text) {
        Err(e) => Err(e),
        Ok(records) => {
            let ghost recs = records.deep_view();
            let mut projects: Vec<Project> = Vec::new();
            let mut i: usize = 0;
            while i < records.len()
                invariant
                    i <= records@.len(),
                    json_records_of(text@) == Ok::<Seq<Seq<(Seq<char>, Seq<char>)>>, Seq<char>>(
                        recs,
                    ),
                    recs == records.deep_view(),
                    recs.len() == records@.len(),
                    forall|j: int|
                        0 <= j < recs.len() ==> recs[j] == #[trigger] records@[j].deep_view(),
                    projects@.len() == i,
                    forall|j: int| 0 <= j < i ==> spec_project_fields(#[trigger] recs[j]) is Some,
                    forall|j: int|
                        0 <= j < i ==> (spec_project_fields(#[trigger] recs[j]) matches Some(f)
                            ==> projects@[j]@ == f),
                decreases records@.len() - i,
            {
                match project_from_record(&records[i]) {
                    Some(project) => {
                        projects.push(project);
                    },
                    None => {
                        return Err("invalid project list".to_owned());
                    },
                }
                i += 1;
            }
            Ok(projects)
        },
    }
}

/// The diagnostic carried by an aggregator error response: its `detail`
/// field, the parser's diagnostic for a malformed body, or a fixed notice
/// when the object lacks a `detail` field.
pub fn error_detail(text: &str) -> (r: String)
    ensures
        (json_object_of(text@) matches Ok(rec) ==> {
            match spec_field_of(rec, "detail"@) {
                Some(detail) => r@ == detail,
                None => r@ == "invalid error response"@,
            }
        }),
        (json_object_of(text@) matches Err(m) ==> r@ == m),
{
    match parse_object(text) {
        Ok(record) => {
            match field_of(&record, &"detail".to_owned()) {
                Some(detail) => detail.clone(),
                None => "invalid error response".to_owned(),
            }
        },
        Err(e) => e,
    }
}

/// The card shown for a project for a given time bucket, and how it relates
/// to the project: the `owner/name` form as caption, the repository page as
/// an external link target, no subtext, and the bucketed preview image.
pub open spec fn spec_is_project_card(c: card::Props, p: Project, bucket: u64) -> bool {
    &&& c.title@ == spec_full_name(p)
    &&& c.url matches Url::External(u) && u@ == spec_project_url(p)
    &&& c.subtext is None
    &&& c.image_url matches Some(img) && img@ == spec_image_url(p, bucket)
}

impl Project {
    /// The card this project is presented as, for a given time bucket.
    pub fn to_card(&self, bucket: u64) -> (c: card::Props)
        ensures
            spec_is_project_card(c, *self, bucket),
    {
        let mut full_name = self.author.clone();
        full_name.append("/");
        full_name.append(self.name.as_str());

        let mut url = "https://github.com/".to_owned();
        url.append(full_name.as_str());

        let mut image_url = "https://opengraph.githubassets.com/".to_owned();
        let bucket_digits = u64_to_string(bucket);
        image_url.append(bucket_digits.as_str());
        image_url.append("/");
        image_url.append(full_name.as_str());

        card::Props {
            title: full_name,
            url: Url::External(url),
            subtext: None,
            image_url: Some(image_url),
        }
    }
}

/// The machine behind the projects page.
pub struct ProjectList {
    pub projects: Vec<Project>,
    pub fetch_state: FetchState,
}

impl ProjectList {
    /// Mounts the page: no projects yet, fetch not yet issued.
    pub fn create() -> (r: ProjectList)
        ensures
            r.projects@.len() == 0,
            (r.fetch_state is Pending),
    {
        ProjectList { projects: Vec::new(), fetch_state: FetchState::Pending }
    }

    /// The page's reducer: applies one message and reports the side effect
    /// to perform. A new list replaces the old one wholesale. `FetchData`
    /// issues the aggregator fetch for the given username, only from
    /// `Pending`.
    pub fn update(&mut self, username: &String, msg: Message<Vec<Project>, Never>) -> (e: Effect)
        ensures
            final(self).fetch_state == (match msg {
                Message::FetchData => spec_after_fetch_message(old(self).fetch_state),
                Message::SetContent(_) => FetchState::Complete,
                Message::SetState(state) => state,
                Message::UpdateData(_) => old(self).fetch_state,
            }),
            (msg matches Message::SetContent(projects) ==> final(self).projects == projects),
            !(msg matches Message::SetContent(_)) ==> final(self).projects == old(self).projects,
            (msg is FetchData && spec_fetch_issued(old(self).fetch_state)) ==> (e
                matches Effect::Fetch(path) && path@ == spec_pinned_url(username@)),
            !(msg is FetchData && spec_fetch_issued(old(self).fetch_state)) ==> e is Idle,
    {
        match msg {
            Message::FetchData => {
                match self.fetch_state {
                    FetchState::Pending => {
                        self.fetch_state = FetchState::Ongoing;
                        Effect::Fetch(pinned_url(username))
                    },
                    _ => Effect::Idle,
                }
            },
            Message::SetContent(projects) => {
                self.projects = projects;
                self.fetch_state = FetchState::Complete;
                Effect::Idle
            },
            Message::SetState(state) => {
                self.fetch_state = state;
                Effect::Idle
            },
            Message::UpdateData(_) => Effect::Idle,
        }
    }

    /// One render tick for a given username and time bucket: decides what to
    /// show for the current state and issues the fetch when the machine
    /// observes `Pending`. A completed empty list renders as a notice, a
    /// non-empty one as one card per project.
    pub fn render_tick(&mut self, username: &String, bucket: u64) -> (r: (
        ViewModel<Vec<card::Props>>,
        Effect,
    ))
        ensures
            old(self).fetch_state is Pending ==> final(self).fetch_state is Ongoing,
            !(old(self).fetch_state is Pending) ==> *final(self) == *old(self),
            final(self).projects == old(self).projects,
            (old(self).fetch_state is Complete && old(self).projects@.len() == 0) ==> (r.0
                matches ViewModel::EmptyNotice(s) && s@ == "Nothing to see here."@ && r.1 is Idle),
            (old(self).fetch_state is Complete && old(self).projects@.len() > 0) ==> (r.0
                matches ViewModel::Content(cards) && cards@.len() == old(self).projects@.len() && (
            forall|j: int|
                0 <= j < cards@.len() ==> spec_is_project_card(
                    #[trigger] cards@[j],
                    old(self).projects@[j],
                    bucket,
                )) && r.1 is Idle),
            old(self).fetch_state is NotFound ==> (r.0 is RedirectNotFound && r.1 is Idle),
            old(self).fetch_state matches FetchState::Error(m) ==> (r.0
                matches ViewModel::ErrorLine(e) && e == m && r.1 is Idle),
            old(self).fetch_state is Ongoing ==> (r.0 matches ViewModel::StatusLine(s) && s@
                == "Fetching..."@ && r.1 is Idle),
            old(self).fetch_state is Pending ==> (r.0 is Blank && (r.1 matches Effect::Fetch(p)
                && p@ == spec_pinned_url(username@))),
    {
        match &self.fetch_state {
            FetchState::Complete => {
                if self.projects.len() == 0 {
                    (ViewModel::EmptyNotice("Nothing to see here.".to_owned()), Effect::Idle)
                } else {
                    let mut cards: Vec<card::Props> = Vec::new();
                    let mut i: usize = 0;
                    while i < self.projects.len()
                        invariant
                            i <= self.projects@.len(),
                            cards@.len() == i,
                            forall|j: int|
                                0 <= j < i ==> spec_is_project_card(
                                    #[trigger] cards@[j],
                                    self.projects@[j],
                                    bucket,
                                ),
                        decreases self.projects@.len() - i,
                    {
                        let card = self.projects[i].to_card(bucket);
                        cards.push(card);
                        i += 1;
                    }
                    (ViewModel::Content(cards), Effect::Idle)
                }
            },
            FetchState::NotFound => (ViewModel::RedirectNotFound, Effect::Idle),
            FetchState::Error(message) => (ViewModel::ErrorLine(message.clone()), Effect::Idle),
            FetchState::Ongoing => (ViewModel::StatusLine("Fetching...".to_owned()), Effect::Idle),
            FetchState::Pending => {
                self.fetch_state = FetchState::Ongoing;
                (ViewModel::Blank, Effect::Fetch(pinned_url(username)))
            },
        }
    }
}

/// Classifies a transport outcome for the project list: a missing resource
/// is a legitimate empty list (`Complete` with zero items, never `NotFound`
/// or `Error`); any other non-success response surfaces the aggregator's own
/// `detail` diagnostic as `Error`; transport, body-read and parse failures
/// surface their diagnostics as `Error`; a well-formed body becomes the
/// list.
pub fn resolve_projects(outcome: FetchOutcome) -> (msg: Message<Vec<Project>, Never>)
    ensures
        (outcome matches FetchOutcome::Failure(m) ==> msg == Message::<
            Vec<Project>,
            Never,
        >::SetState(FetchState::Error(m))),
        (outcome matches FetchOutcome::Response(status, body) ==> {
            if status == 404 {
                msg matches Message::SetContent(projects) && projects@.len() == 0
            } else if status != 200 {
                match body {
                    Ok(text) => msg matches Message::SetState(s) && s matches FetchState::Error(e)
                        && e@ == (match json_object_of(text@) {
                        Ok(rec) => {
                            match spec_field_of(rec, "detail"@) {
                                Some(detail) => detail,
                                None => "invalid error response"@,
                            }
                        },
                        Err(m) => m,
                    }),
                    Err(m) => msg == Message::<Vec<Project>, Never>::SetState(
                        FetchState::Error(m),
                    ),
                }
            } else {
                match body {
                    Ok(text) => match json_records_of(text@) {
                        Err(m) => msg matches Message::SetState(s) && s matches FetchState::Error(
                            e,
                        ) && e@ == m,
                        Ok(recs) => {
                            if forall|i: int|
                                0 <= i < recs.len() ==> spec_project_fields(#[trigger] recs[i])
                                    is Some {
                                msg matches Message::SetContent(projects) && projects@.len()
                                    == recs.len() && (forall|i: int|
                                    0 <= i < recs.len() ==> (spec_project_fields(
                                        #[trigger] recs[i],
                                    ) matches Some(f) ==> projects@[i]@ == f))
                            } else {
                                msg matches Message::SetState(s) && s matches FetchState::Error(e)
                                    && e@ == "invalid project list"@
                            }
                        },
                    },
                    Err(m) => msg == Message::<Vec<Project>, Never>::SetState(
                        FetchState::Error(m),
                    ),
                }
            }
        }),
{
    match outcome {
        FetchOutcome::Failure(m) => Message::SetState(FetchState::Error(m)),
        FetchOutcome::Response(status, body) => {
            if status == 404 {
                Message::SetContent(Vec::new())
            } else if status != 200 {
                match body {
                    Ok(text) => Message::SetState(FetchState::Error(error_detail(text.as_str()))),
                    Err(m) => Message::SetState(FetchState::Error(m)),
                }
            } else {
                match body {
                    Ok(text) => {
                        match parse_projects(text.as_str()) {
                            Ok(projects) => Message::SetContent(projects),
                            Err(e) => Message::SetState(FetchState::Error(e)),
                        }
                    },
                    Err(m) => Message::SetState(FetchState::Error(m)),
                }
            }
        },
    }
}

} // verus!
