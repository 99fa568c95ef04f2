//! The single-post page: fetches one post body from `/files/<filename>` and
//! keeps it locally. This machine is reused across navigations, so its
//! render path re-arms it to `Pending` whenever the route's filename no
//! longer matches the one it holds state for.

use vstd::prelude::*;

use crate::utils::Effect;
use crate::utils::FetchOutcome;
use crate::utils::FetchState;
use crate::utils::Message;
use crate::utils::ViewModel;
use crate::utils::spec_after_fetch_message;
use crate::utils::spec_fetch_issued;
use crate::utils::spec_status_error_message;
use crate::utils::status_error_message;
use crate::utils::status_missing;
use crate::utils::status_ok;

verus! {

/// The machine behind the single-post page.
pub struct PostView {
    pub body: Option<String>,
    pub fetch_state: FetchState,
    pub filename: String,
}

/// The origin-relative path a post body is fetched from.
pub open spec fn spec_files_path(filename: Seq<char>) -> Seq<char> {
    "/files/"@ + filename
}

/// Renders the path a post body is fetched from.
pub fn files_path(filename: &String) -> (r: String)
    ensures
        r@ == spec_files_path(filename@),
{
    let mut path = "/files/".to_owned();
    path.append(filename.as_str());
    path
}

/// How a reducer message changes the machine's state.
pub open spec fn spec_update_state(m: PostView, msg: Message<String, String>) -> PostView {
    match msg {
        Message::FetchData => PostView {
            fetch_state: spec_after_fetch_message(m.fetch_state),
            ..m
        },
        Message::SetContent(post) => PostView {
            body: Some(post),
            fetch_state: FetchState::Complete,
            ..m
        },
        Message::SetState(state) => PostView { fetch_state: state, ..m },
        Message::UpdateData(filename) => PostView { filename, ..m },
    }
}

/// How one render tick changes the machine: a completed machine whose
/// filename no longer matches the current route re-arms to `Pending` for the
/// new filename, and a pending machine moves to `Ongoing` as its fetch is
/// issued.
pub open spec fn spec_rearm(m: PostView, current: String) -> PostView {
    if m.fetch_state is Complete && m.filename@ != current@ {
        PostView { filename: current, fetch_state: FetchState::Pending, ..m }
    } else if m.fetch_state is Pending {
        PostView { fetch_state: FetchState::Ongoing, ..m }
    } else {
        m
    }
}

impl PostView {
    /// A completed machine holds a body to show.
    pub open spec fn wf(&self) -> bool {
        self.fetch_state is Complete ==> self.body is Some
    }

    /// Mounts the page for a filename: no body yet, fetch not yet issued.
    pub fn create(filename: String) -> (r: PostView)
        ensures
            r.body is None,
            (r.fetch_state is Pending),
            r.filename == filename,
            r.wf(),
    {
        PostView { body: None, fetch_state: FetchState::Pending, filename }
    }

    /// The page's reducer: applies one message and reports the side effect
    /// to perform. `FetchData` issues the fetch only from `Pending`.
    pub fn update(&mut self, msg: Message<String, String>) -> (e: Effect)
        ensures
            *final(self) == spec_update_state(*old(self), msg),
            (msg is FetchData && spec_fetch_issued(old(self).fetch_state)) ==> (e
                matches Effect::Fetch(path) && path@ == spec_files_path(old(self).filename@)),
            !(msg is FetchData && spec_fetch_issued(old(self).fetch_state)) ==> e is Idle,
    {
        match msg {
            Message::FetchData => {
                match self.fetch_state {
                    FetchState::Pending => {
                        self.fetch_state = FetchState::Ongoing;
                        Effect::Fetch(files_path(&self.filename))
                    },
                    _ => Effect::Idle,
                }
            },
            Message::SetContent(post) => {
                self.body = Some(post);
                self.fetch_state = FetchState::Complete;
                Effect::Idle
            },
            Message::SetState(state) => {
                self.fetch_state = state;
                Effect::Idle
            },
            Message::UpdateData(filename) => {
                self.filename = filename;
                Effect::Idle
            },
        }
    }

    /// One render tick: decides what to show for the current state, re-arms
    /// on a filename change, and issues the fetch when the machine observes
    /// `Pending`.
    pub fn render_tick(&mut self, current: &String) -> (r: (ViewModel<String>, Effect))
        requires
            old(self).wf(),
        ensures
            *final(self) == spec_rearm(*old(self), *current),
            final(self).wf(),
            (old(self).fetch_state is Complete && old(self).filename@ != current@) ==> (r.0
                is Blank && r.1 is Idle),
            (old(self).fetch_state is Complete && old(self).filename@ == current@) ==> (r.0
                matches ViewModel::Content(b) && old(self).body matches Some(b0) && b == b0 && r.1
                is Idle),
            old(self).fetch_state is NotFound ==> (r.0 is RedirectNotFound && r.1 is Idle),
            old(self).fetch_state matches FetchState::Error(m) ==> (r.0
                matches ViewModel::ErrorLine(e) && e == m && r.1 is Idle),
            old(self).fetch_state is Ongoing ==> (r.0 matches ViewModel::StatusLine(s) && s@
                == "Fetching..."@ && r.1 is Idle),
            old(self).fetch_state is Pending ==> (r.0 is Blank && (r.1 matches Effect::Fetch(p)
                && p@ == spec_files_path(old(self).filename@))),
    {
        match &self.fetch_state {
            FetchState::Complete => {
                if !crate::route::str_eq_str(self.filename.as_str(), current.as_str()) {
                    self.filename = current.clone();
                    self.fetch_state = FetchState::Pending;
                    (ViewModel::Blank, Effect::Idle)
                } else {
                    match &self.body {
                        Some(body) => (ViewModel::Content(body.clone()), Effect::Idle),
                        None => {
                            // A complete machine holds a body (`wf`).
                            proof {
                                assert(false);
                            }
                            (ViewModel::Blank, Effect::Idle)
                        },
                    }
                }
            },
            FetchState::NotFound => (ViewModel::RedirectNotFound, Effect::Idle),
            FetchState::Error(message) => (ViewModel::ErrorLine(message.clone()), Effect::Idle),
            FetchState::Ongoing => (ViewModel::StatusLine("Fetching...".to_owned()), Effect::Idle),
            FetchState::Pending => {
                self.fetch_state = FetchState::Ongoing;
                let path = files_path(&self.filename);
                (ViewModel::Blank, Effect::Fetch(path))
            },
        }
    }
}

/// Classifies a transport outcome for a single post: a missing resource
/// always becomes `NotFound` (never `Error`); any transport or body-read
/// failure surfaces its diagnostic as `Error`; a well-received body becomes
/// the content.
pub fn resolve_post(outcome: FetchOutcome) -> (msg: Message<String, String>)
    ensures
        (outcome matches FetchOutcome::Failure(m) ==> msg == Message::<String, String>::SetState(
            FetchState::Error(m),
        )),
        (outcome matches FetchOutcome::Response(status, body) ==> {
            if status_missing(status) {
                msg == Message::<String, String>::SetState(FetchState::NotFound)
            } else if !status_ok(status) {
                msg matches Message::SetState(s) && s matches FetchState::Error(e) && e@
                    == spec_status_error_message(status)
            } else {
                match body {
                    Ok(text) => msg == Message::<String, String>::SetContent(text),
                    Err(m) => msg == Message::<String, String>::SetState(FetchState::Error(m)),
                }
            }
        }),
{
    match outcome {
        FetchOutcome::Failure(m) => Message::SetState(FetchState::Error(m)),
        FetchOutcome::Response(status, body) => {
            if status == 404 {
                Message::SetState(FetchState::NotFound)
            } else if status >= 400 {
                Message::SetState(FetchState::Error(status_error_message(status)))
            } else {
                match body {
                    Ok(text) => Message::SetContent(text),
                    Err(m) => Message::SetState(FetchState::Error(m)),
                }
            }
        },
    }
}

/// Navigating from one post to another without remounting re-arms the
/// machine: one render tick on the new filename returns it to `Pending`
/// bound to that filename, and the next tick issues the fetch for it rather
/// than keeping the stale completed content.
pub proof fn lemma_navigation_rearms(m: PostView, next: String)
    requires
        m.fetch_state is Complete,
        m.filename@ != next@,
    ensures
        (spec_rearm(m, next).fetch_state is Pending),
        spec_rearm(m, next).filename == next,
        spec_fetch_issued(spec_rearm(m, next).fetch_state),
        (spec_rearm(spec_rearm(m, next), next).fetch_state is Ongoing),
        spec_rearm(spec_rearm(m, next), next).filename == next,
{
}

} // verus!
