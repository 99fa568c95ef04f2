//! Shared vocabulary of the fetch-then-render machinery: the fetch states,
//! the messages that drive a page's reducer, the outcome a transport hands
//! back, and the side effect a reducer asks for.

use vstd::prelude::*;

use crate::route::Route;

verus! {

/// Stage of one logical remote-fetch-and-parse operation.
///
/// `Pending` is the initial state; a render tick that observes it issues the
/// fetch and moves to `Ongoing`. `Complete`, `NotFound` and `Error` are
/// terminal until an identifier change re-arms the machine to `Pending`.
pub enum FetchState {
    Complete,
    Error(String),
    NotFound,
    Ongoing,
    Pending,
}

/// A message handled by a page's reducer. `T` is the page's parsed content;
/// `D` is the payload of an identity update (`Never` where unused).
pub enum Message<T, D> {
    FetchData,
    SetContent(T),
    SetState(FetchState),
    UpdateData(D),
}

/// Placeholder payload for machines that never receive `UpdateData`; the
/// crate constructs no value of it.
pub struct Never {}

/// A link target: an outside address, or a location of this application.
#[derive(Clone, PartialEq)]
pub enum Url {
    External(String),
    Internal(Route),
}

/// The side effect a reducer step asks its event loop for.
pub enum Effect {
    /// Nothing to do.
    Idle,
    /// Issue a request for the given URL (origin-relative unless absolute);
    /// its outcome comes back as a message.
    Fetch(String),
}

/// What a page's render path shows for the current state; the markup around
/// it is presentation and lives outside the library. `T` is the page's
/// rendered content.
pub enum ViewModel<T> {
    /// Nothing yet (the machine is still arming or re-arming).
    Blank,
    /// A progress line, shown as a status paragraph.
    StatusLine(String),
    /// A failure, shown inline as visible text rather than thrown.
    ErrorLine(String),
    /// The resource is missing: redirect to the not-found location.
    RedirectNotFound,
    /// A notice standing in for an empty content list.
    EmptyNotice(String),
    /// The page's content.
    Content(T),
}

/// What the transport reports for one request, as plain values: either no
/// response at all (with the transport's diagnostic), or a response with its
/// status code and either the body text or the diagnostic of a failed body
/// read.
pub enum FetchOutcome {
    Failure(String),
    Response(u16, Result<String, String>),
}

/// A response status that does not signal an error: anything below the
/// client-error range.
pub open spec fn status_ok(status: u16) -> bool {
    status < 400
}

/// The status code by which a remote resource reports itself missing.
pub open spec fn status_missing(status: u16) -> bool {
    status == 404
}

/// How every machine's state reacts to `Message::FetchData`: from `Pending`
/// it moves to `Ongoing`; from any other state the message is a no-op.
pub open spec fn spec_after_fetch_message(state: FetchState) -> FetchState {
    if state is Pending {
        FetchState::Ongoing
    } else {
        state
    }
}

/// Whether `Message::FetchData` issues a request: only from `Pending`, so a
/// second `FetchData` before resolution cannot issue again.
pub open spec fn spec_fetch_issued(state: FetchState) -> bool {
    state is Pending
}

/// The character for one decimal digit.
pub open spec fn dec_digit(d: int) -> char {
    if d == 0 {
        '0'
    } else if d == 1 {
        '1'
    } else if d == 2 {
        '2'
    } else if d == 3 {
        '3'
    } else if d == 4 {
        '4'
    } else if d == 5 {
        '5'
    } else if d == 6 {
        '6'
    } else if d == 7 {
        '7'
    } else if d == 8 {
        '8'
    } else {
        '9'
    }
}

/// The decimal rendering of a non-negative integer, most significant digit
/// first and without leading zeros (a single `'0'` for zero).
pub open spec fn dec_str(n: int) -> Seq<char>
    decreases n,
{
    if n < 10 {
        seq![dec_digit(n)]
    } else {
        dec_str(n / 10) + seq![dec_digit(n % 10)]
    }
}

/// Renders a number in decimal.
pub fn u64_to_string(n: u64) -> (r: String)
    ensures
        r@ == dec_str(n as int),
    decreases n,
{
    let digits = "0123456789";
    proof {
        reveal_strlit("0123456789");
    }
    let d = n % 10;
    let piece = digits.substring_ascii(d as usize, d as usize + 1);
    if n < 10 {
        piece.to_owned()
    } else {
        let mut prefix = u64_to_string(n / 10);
        prefix.append(piece);
        prefix
    }
}

/// The origin-relative path a text or markdown file is fetched from.
pub open spec fn spec_texts_path(filename: Seq<char>) -> Seq<char> {
    "/texts/"@ + filename
}

/// Renders the path a text or markdown file is fetched from.
pub fn texts_path(filename: &String) -> (r: String)
    ensures
        r@ == spec_texts_path(filename@),
{
    let mut path = "/texts/".to_owned();
    path.append(filename.as_str());
    path
}

/// The status line shown when a response carries an error status.
pub open spec fn spec_status_error_message(status: u16) -> Seq<char> {
    "HTTP status error: "@ + dec_str(status as int)
}

/// Renders the diagnostic for an error status.
pub fn status_error_message(status: u16) -> (r: String)
    ensures
        r@ == spec_status_error_message(status),
{
    let mut message = String::new();
    message.append("HTTP status error: ");
    let code = u64_to_string(status as u64);
    message.append(code.as_str());
    message
}

/// From `Pending`, a fetch is issued exactly once: the first `FetchData`
/// moves to `Ongoing` and issues the request, and a second `FetchData`
/// before resolution changes nothing and issues nothing.
pub proof fn lemma_fetch_issued_exactly_once(state: FetchState)
    requires
        state is Pending,
    ensures
        (spec_after_fetch_message(state) is Ongoing),
        spec_fetch_issued(state),
        (spec_after_fetch_message(spec_after_fetch_message(state)) is Ongoing),
        !spec_fetch_issued(spec_after_fetch_message(state)),
{
}

} // verus!
