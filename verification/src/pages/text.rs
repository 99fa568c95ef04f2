//! The text page: fetches the index at `/texts/index.list`, checks that the
//! requested filename is listed, and only then fetches the text itself from
//! `/texts/<filename>`. An earlier vintage of the fetch machine, with its
//! own state names; a filename absent from the index is a missing resource.

use vstd::prelude::*;

use crate::json::json_string_list_of;
use crate::json::parse_string_list;
use crate::utils::Effect;
use crate::utils::FetchOutcome;
use crate::utils::ViewModel;
use crate::utils::spec_status_error_message;
use crate::utils::status_error_message;
use crate::utils::status_missing;
use crate::utils::status_ok;

verus! {

/// Stage of the text page's fetch.
pub enum FetchState {
    Failed(String),
    Fetching,
    NotFetching,
    NotFound,
    Success(String),
}

/// A message handled by the text page's reducer.
pub enum Message {
    FetchData(String),
    SetState(FetchState),
}

/// The machine behind the text page.
pub struct Text {
    pub fetch_state: FetchState,
}

/// What the index fetch decides: a final state for the machine, or the
/// go-ahead to fetch the text file itself.
pub enum IndexStep {
    Resolve(FetchState),
    FetchFile,
}

/// The origin-relative path the text index is fetched from.
pub open spec fn spec_index_path() -> Seq<char> {
    "/texts/index.list"@
}

/// Whether a list of filenames contains a name.
fn list_contains(list: &Vec<String>, name: &String) -> (b: bool)
    ensures
        b == list.deep_view().contains(name@),
{
    let ghost names = list.deep_view();
    let mut i: usize = 0;
    while i < list.len()
        invariant
            i <= list@.len(),
            names == list.deep_view(),
            names.len() == list@.len(),
            forall|j: int| 0 <= j < names.len() ==> names[j] == list@[j]@,
            forall|j: int| 0 <= j < i ==> names[j] != name@,
        decreases list@.len() - i,
    {
        if list[i] == *name {
            proof {
                assert(names.contains(name@)) by {
                    assert(names[i as int] == name@);
                }
            }
            return true;
        }
        i += 1;
    }
    false
}

impl Text {
    /// Mounts the page: fetch not yet issued.
    pub fn create() -> (r: Text)
        ensures
            r.fetch_state is NotFetching,
    {
        Text { fetch_state: FetchState::NotFetching }
    }

    /// The page's reducer: `FetchData` issues the index fetch, only from
    /// `NotFetching`; `SetState` forces the given state.
    pub fn update(&mut self, msg: Message) -> (e: Effect)
        ensures
            (msg matches Message::FetchData(_) && old(self).fetch_state is NotFetching) ==> (
            final(self).fetch_state is Fetching && (e matches Effect::Fetch(p) && p@
                == spec_index_path())),
            (msg matches Message::FetchData(_) && !(old(self).fetch_state is NotFetching)) ==> (
            *final(self) == *old(self) && e is Idle),
            (msg matches Message::SetState(s) ==> final(self).fetch_state == s && e is Idle),
    {
        match msg {
            Message::FetchData(_) => {
                match self.fetch_state {
                    FetchState::NotFetching => {
                        self.fetch_state = FetchState::Fetching;
                        Effect::Fetch("/texts/index.list".to_owned())
                    },
                    _ => Effect::Idle,
                }
            },
            Message::SetState(state) => {
                self.fetch_state = state;
                Effect::Idle
            },
        }
    }

    /// One render tick: decides what to show for the current state and
    /// issues the index fetch when the machine observes `NotFetching`.
    pub fn render_tick(&mut self) -> (r: (ViewModel<String>, Effect))
        ensures
            old(self).fetch_state is NotFetching ==> final(self).fetch_state is Fetching,
            !(old(self).fetch_state is NotFetching) ==> *final(self) == *old(self),
            old(self).fetch_state matches FetchState::Failed(m) ==> (r.0
                matches ViewModel::ErrorLine(e) && e == m && r.1 is Idle),
            old(self).fetch_state is Fetching ==> (r.0 matches ViewModel::StatusLine(s) && s@
                == "Fetching..."@ && r.1 is Idle),
            old(self).fetch_state is NotFetching ==> (r.0 is Blank && (r.1
                matches Effect::Fetch(p) && p@ == spec_index_path())),
            old(self).fetch_state is NotFound ==> (r.0 is RedirectNotFound && r.1 is Idle),
            old(self).fetch_state matches FetchState::Success(text) ==> (r.0
                matches ViewModel::Content(t) && t == text && r.1 is Idle),
    {
        match &self.fetch_state {
            FetchState::Failed(message) => (ViewModel::ErrorLine(message.clone()), Effect::Idle),
            FetchState::Fetching => (ViewModel::StatusLine("Fetching...".to_owned()), Effect::Idle),
            FetchState::NotFetching => {
                self.fetch_state = FetchState::Fetching;
                (ViewModel::Blank, Effect::Fetch("/texts/index.list".to_owned()))
            },
            FetchState::NotFound => (ViewModel::RedirectNotFound, Effect::Idle),
            FetchState::Success(text) => (ViewModel::Content(text.clone()), Effect::Idle),
        }
    }
}

/// Decides what the index fetch's outcome means for a requested filename: a
/// missing index is a legitimate empty list (in which no filename is
/// listed, so the requested file is a missing resource); a failed fetch or
/// malformed index fails the page with a diagnostic; a filename absent from
/// the index is a missing resource; and a listed filename clears the way
/// for fetching the text itself.
pub fn index_decision(filename: &String, outcome: FetchOutcome) -> (r: IndexStep)
    ensures
        outcome matches FetchOutcome::Failure(m) ==> (r matches IndexStep::Resolve(s) && (s
            matches FetchState::Failed(e) && e@ == "Couldn't fetch index.list, "@ + m@)),
        (outcome matches FetchOutcome::Response(status, body) ==> {
            if status_missing(status) {
                r matches IndexStep::Resolve(s) && s is NotFound
            } else if !status_ok(status) {
                r matches IndexStep::Resolve(s) && s matches FetchState::Failed(e) && e@
                    == "Couldn't fetch index.list, "@ + spec_status_error_message(status)
            } else {
                match body {
                    Ok(text) => match json_string_list_of(text@) {
                        Err(_) => r matches IndexStep::Resolve(s) && s matches FetchState::Failed(
                            e,
                        ) && e@ == "Invalid index.list file"@,
                        Ok(names) => {
                            if names.contains(filename@) {
                                r is FetchFile
                            } else {
                                r matches IndexStep::Resolve(s) && s is NotFound
                            }
                        },
                    },
                    Err(m) => r matches IndexStep::Resolve(s) && s matches FetchState::Failed(e)
                        && e == m,
                }
            }
        }),
{
    match outcome {
        FetchOutcome::Failure(m) => {
            let mut message = "Couldn't fetch index.list, ".to_owned();
            message.append(m.as_str());
            IndexStep::Resolve(FetchState::Failed(message))
        },
        FetchOutcome::Response(status, body) => {
            if status == 404 {
                IndexStep::Resolve(FetchState::NotFound)
            } else if status >= 400 {
                let mut message = "Couldn't fetch index.list, ".to_owned();
                let status_message = status_error_message(status);
                message.append(status_message.as_str());
                IndexStep::Resolve(FetchState::Failed(message))
            } else {
                match body {
                    Ok(text) => {
                        match parse_string_list(text.as_str()) {
                            Err(_) => IndexStep::Resolve(
                                FetchState::Failed("Invalid index.list file".to_owned()),
                            ),
                            Ok(names) => {
                                if list_contains(&names, filename) {
                                    IndexStep::FetchFile
                                } else {
                                    IndexStep::Resolve(FetchState::NotFound)
                                }
                            },
                        }
                    },
                    Err(m) => IndexStep::Resolve(FetchState::Failed(m)),
                }
            }
        },
    }
}

/// Decides what the text file fetch's outcome means: a missing resource
/// always becomes `NotFound` (never `Failed`); any transport or body-read
/// failure surfaces its diagnostic; a well-received body is the text.
pub fn file_decision(outcome: FetchOutcome) -> (r: FetchState)
    ensures
        outcome matches FetchOutcome::Failure(m) ==> (r matches FetchState::Failed(e) && e == m),
        (outcome matches FetchOutcome::Response(status, body) ==> {
            if status_missing(status) {
                r is NotFound
            } else if !status_ok(status) {
                r matches FetchState::Failed(e) && e@ == spec_status_error_message(status)
            } else {
                match body {
                    Ok(text) => r matches FetchState::Success(t) && t == text,
                    Err(m) => r matches FetchState::Failed(e) && e == m,
                }
            }
        }),
{
    match outcome {
        FetchOutcome::Failure(m) => FetchState::Failed(m),
        FetchOutcome::Response(status, body) => {
            if status == 404 {
                FetchState::NotFound
            } else if status >= 400 {
                FetchState::Failed(status_error_message(status))
            } else {
                match body {
                    Ok(text) => FetchState::Success(text),
                    Err(m) => FetchState::Failed(m),
                }
            }
        },
    }
}

} // verus!
