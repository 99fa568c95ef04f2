//! The markdown-file page: fetches `/texts/<filename>`, renders it from
//! Markdown to HTML, and keeps the rendered HTML in the shared content
//! store, so mounting the page again for the same filename shows the stored
//! content without fetching.

use vstd::prelude::*;

use crate::store::MarkdownStore;
use crate::transform::gfm_html_of;
use crate::transform::markdown_to_html;
use crate::utils::Effect;
use crate::utils::FetchOutcome;
use crate::utils::FetchState;
use crate::utils::Message;
use crate::utils::Never;
use crate::utils::ViewModel;
use crate::utils::spec_after_fetch_message;
use crate::utils::spec_fetch_issued;
use crate::utils::spec_status_error_message;
use crate::utils::spec_texts_path;
use crate::utils::status_error_message;
use crate::utils::status_missing;
use crate::utils::status_ok;
use crate::utils::texts_path;

verus! {

/// The machine behind the markdown-file page. Its content lives in the
/// shared store under the page's filename, not in the machine itself.
pub struct MarkdownFile {
    pub fetch_state: FetchState,
}

impl MarkdownFile {
    /// Mounts the page for a filename: already `Complete` when the store
    /// holds content for it (so no fetch will be issued), `Pending`
    /// otherwise.
    pub fn create(store: &MarkdownStore, filename: &String) -> (r: MarkdownFile)
        ensures
            store@.contains_key(filename@) ==> (r.fetch_state is Complete),
            !store@.contains_key(filename@) ==> (r.fetch_state is Pending),
    {
        if store.contains_key(filename) {
            MarkdownFile { fetch_state: FetchState::Complete }
        } else {
            MarkdownFile { fetch_state: FetchState::Pending }
        }
    }

    /// The page's reducer: applies one message, writing completed content
    /// into the store under the page's filename and dropping any stale entry
    /// when the resource turns out to be missing. `FetchData` issues the
    /// fetch only from `Pending`.
    pub fn update(
        &mut self,
        store: &mut MarkdownStore,
        filename: &String,
        msg: Message<String, Never>,
    ) -> (e: Effect)
        ensures
            final(self).fetch_state == (match msg {
                Message::FetchData => spec_after_fetch_message(old(self).fetch_state),
                Message::SetContent(_) => FetchState::Complete,
                Message::SetState(state) => state,
                Message::UpdateData(_) => old(self).fetch_state,
            }),
            (msg matches Message::SetContent(content) ==> final(store)@ == old(store)@.insert(
                filename@,
                content,
            )),
            (msg matches Message::SetState(s) && s is NotFound ==> final(store)@ == old(
                store,
            )@.remove(filename@)),
            (msg matches Message::SetState(s) && !(s is NotFound) ==> final(store)@ == old(
                store,
            )@),
            (msg is FetchData || msg matches Message::UpdateData(_)) ==> final(store)@ == old(
                store,
            )@,
            (msg is FetchData && spec_fetch_issued(old(self).fetch_state)) ==> (e
                matches Effect::Fetch(path) && path@ == spec_texts_path(filename@)),
            !(msg is FetchData && spec_fetch_issued(old(self).fetch_state)) ==> e is Idle,
    {
        match msg {
            Message::FetchData => {
                match self.fetch_state {
                    FetchState::Pending => {
                        self.fetch_state = FetchState::Ongoing;
                        Effect::Fetch(texts_path(filename))
                    },
                    _ => Effect::Idle,
                }
            },
            Message::SetContent(content) => {
                store.set(filename.clone(), content);
                self.fetch_state = FetchState::Complete;
                Effect::Idle
            },
            Message::SetState(state) => {
                match &state {
                    FetchState::NotFound => {
                        store.remove(filename);
                    },
                    _ => {},
                }
                self.fetch_state = state;
                Effect::Idle
            },
            Message::UpdateData(_) => Effect::Idle,
        }
    }

    /// One render tick: decides what to show for the current state and
    /// issues the fetch when the machine observes `Pending`. A `Complete`
    /// machine shows exactly what the store holds for the filename.
    pub fn render_tick(&mut self, store: &MarkdownStore, filename: &String) -> (r: (
        ViewModel<String>,
        Effect,
    ))
        requires
            old(self).fetch_state is Complete ==> store@.contains_key(filename@),
        ensures
            old(self).fetch_state is Pending ==> final(self).fetch_state is Ongoing,
            !(old(self).fetch_state is Pending) ==> *final(self) == *old(self),
            old(self).fetch_state is Complete ==> (r.0 matches ViewModel::Content(html) && html
                == store@[filename@] && r.1 is Idle),
            old(self).fetch_state is NotFound ==> (r.0 is RedirectNotFound && r.1 is Idle),
            old(self).fetch_state matches FetchState::Error(m) ==> (r.0
                matches ViewModel::ErrorLine(e) && e == m && r.1 is Idle),
            old(self).fetch_state is Ongoing ==> (r.0 matches ViewModel::StatusLine(s) && s@
                == "Fetching..."@ && r.1 is Idle),
            old(self).fetch_state is Pending ==> (r.0 is Blank && (r.1 matches Effect::Fetch(p)
                && p@ == spec_texts_path(filename@))),
    {
        match &self.fetch_state {
            FetchState::Complete => {
                match store.get(filename) {
                    Some(html) => (ViewModel::Content(html.clone()), Effect::Idle),
                    None => {
                        // A complete machine has stored content (see the
                        // precondition).
                        proof {
                            assert(false);
                        }
                        (ViewModel::Blank, Effect::Idle)
                    },
                }
            },
            FetchState::NotFound => (ViewModel::RedirectNotFound, Effect::Idle),
            FetchState::Error(message) => (ViewModel::ErrorLine(message.clone()), Effect::Idle),
            FetchState::Ongoing => (ViewModel::StatusLine("Fetching...".to_owned()), Effect::Idle),
            FetchState::Pending => {
                self.fetch_state = FetchState::Ongoing;
                let path = texts_path(filename);
                (ViewModel::Blank, Effect::Fetch(path))
            },
        }
    }
}

/// Classifies a transport outcome for a markdown file: a missing resource
/// always becomes `NotFound` (never `Error`); any transport or body-read
/// failure surfaces its diagnostic as `Error`; a well-received body is
/// rendered from Markdown to HTML and becomes the content.
pub fn resolve_markdown(outcome: FetchOutcome) -> (msg: Message<String, Never>)
    ensures
        (outcome matches FetchOutcome::Failure(m) ==> msg == Message::<String, Never>::SetState(
            FetchState::Error(m),
        )),
        (outcome matches FetchOutcome::Response(status, body) ==> {
            if status_missing(status) {
                msg == Message::<String, Never>::SetState(FetchState::NotFound)
            } else if !status_ok(status) {
                msg matches Message::SetState(s) && s matches FetchState::Error(e) && e@
                    == spec_status_error_message(status)
            } else {
                match body {
                    Ok(text) => msg matches Message::SetContent(html) && html@ == gfm_html_of(
                        text@,
                    ),
                    Err(m) => msg == Message::<String, Never>::SetState(FetchState::Error(m)),
                }
            }
        }),
{
    match outcome {
        FetchOutcome::Failure(m) => Message::SetState(FetchState::Error(m)),
        FetchOutcome::Response(status, body) => {
            if status == 404 {
                Message::SetState(FetchState::NotFound)
            } else if status >= 400 {
                Message::SetState(FetchState::Error(status_error_message(status)))
            } else {
                match body {
                    Ok(text) => Message::SetContent(markdown_to_html(text.as_str())),
                    Err(m) => Message::SetState(FetchState::Error(m)),
                }
            }
        },
    }
}

} // verus!
