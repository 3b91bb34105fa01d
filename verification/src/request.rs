//! The loopback listener's decision logic: read one raw request, pick out
//! the request target from its first line, and decide whether it is the
//! finalize call — which always ends the listening loop — or anything else,
//! which is answered with the static callback page. The accept loop itself,
//! being socket work, lives with the transport layer; it feeds each request
//! through here and steps the phase machine with the outcome.

use vstd::prelude::*;
use vstd::string::{StrSliceExecFns, StringExecFns};

use crate::textscan::{contains_seq, contains_str, find_char, find_char_str, lemma_find_char,
    nonempty_of, retain_nonempty, split_on, split_str};

verus! {

/// Everything up to the first carriage return or line feed.
pub open spec fn first_line_of(s: Seq<char>) -> Seq<char> {
    let cr = match find_char(s, '\r') {
        Some(i) => i,
        None => s.len() as int,
    };
    let lf = match find_char(s, '\n') {
        Some(i) => i,
        None => s.len() as int,
    };
    s.take(if cr <= lf {
        cr
    } else {
        lf
    })
}

/// Executable form of [`first_line_of`].
pub fn first_line(s: &str) -> (r: String)
    ensures
        r@ == first_line_of(s@),
{
    proof {
        lemma_find_char(s@, '\r');
        lemma_find_char(s@, '\n');
    }
    let n = s.unicode_len();
    let cr = match find_char_str(s, '\r') {
        Some(i) => i,
        None => n,
    };
    let lf = match find_char_str(s, '\n') {
        Some(i) => i,
        None => n,
    };
    let end = if cr <= lf {
        cr
    } else {
        lf
    };
    let line = s.substring_char(0, end);
    proof {
        assert(line@ =~= first_line_of(s@));
    }
    String::from_str(line)
}

/// The request target: the second whitespace-separated token of the request
/// line, as in `GET /callback?code=... HTTP/1.1`.
pub open spec fn request_target_of(line: Seq<char>) -> Option<Seq<char>> {
    let tokens = nonempty_of(split_on(line, ' '));
    if tokens.len() >= 2 {
        Some(tokens[1])
    } else {
        None
    }
}

/// Executable form of [`request_target_of`].
pub fn request_target(line: &str) -> (r: Option<String>)
    ensures
        match r {
            Some(t) => request_target_of(line@) == Some(t@),
            None => request_target_of(line@) is None,
        },
{
    let raw_tokens = split_str(line, ' ');
    let tokens = retain_nonempty(&raw_tokens);
    if tokens.len() >= 2 {
        Some(tokens[1].clone())
    } else {
        None
    }
}

/// What the listener must do with one accepted connection.
pub enum ConnectionAction {
    /// Answer with the static callback page and keep listening.
    ServePage,
    /// Hand this request target to the grant finalizer and stop listening.
    Finalize(String),
    /// No request target could be read: note it and keep listening.
    Ignore,
}

/// The marker that distinguishes the locally served page's follow-up call
/// from the provider's redirect.
pub open spec fn spec_finalize_marker() -> Seq<char> {
    "finalizeAuthentication"@
}

/// Decide what to do with one raw request: a target mentioning the finalize
/// marker goes to the finalizer, any other readable request is answered with
/// the callback page, and an unreadable one is ignored.
pub fn classify_request(raw: &str) -> (r: ConnectionAction)
    ensures
        match request_target_of(first_line_of(raw@)) {
            None => r is Ignore,
            Some(t) => {
                if contains_seq(t, spec_finalize_marker()) {
                    r is Finalize && r->Finalize_0@ == t
                } else {
                    r is ServePage
                }
            },
        },
{
    let line = first_line(raw);
    let target = match request_target(line.as_str()) {
        Some(t) => t,
        None => {
            return ConnectionAction::Ignore;
        },
    };
    if contains_str(target.as_str(), "finalizeAuthentication") {
        ConnectionAction::Finalize(target)
    } else {
        ConnectionAction::ServePage
    }
}

/// The HTTP response that serves a page on the loopback listener: a success
/// status line, the content type, a blank line, then the document.
pub open spec fn page_response_of(content: Seq<char>) -> Seq<char> {
    "HTTP/1.1 200 OK\r\nContent-Type: text/html\r\n\r\n"@ + content
}

/// Assemble the bytes-to-be of the response that answers a redirect with the
/// callback page; the transport layer only writes it to the socket.
pub fn page_response(content: &str) -> (r: String)
    ensures
        r@ == page_response_of(content@),
{
    String::from_str("HTTP/1.1 200 OK\r\nContent-Type: text/html\r\n\r\n").concat(content)
}

/// The listener's phases: waiting for the provider's redirect, then for the
/// served page's finalize call, then done. One authorization attempt makes
/// this walk exactly once.
#[derive(Clone, Copy, Debug, PartialEq, Eq, Structural)]
pub enum ListenerPhase {
    AwaitingRedirect,
    AwaitingFinalize,
    Done,
}

/// One step of the listener phase machine.
pub open spec fn spec_listener_step(phase: ListenerPhase, action: ConnectionAction) -> ListenerPhase {
    match action {
        ConnectionAction::Finalize(_) => ListenerPhase::Done,
        ConnectionAction::ServePage => if phase is Done {
            ListenerPhase::Done
        } else {
            ListenerPhase::AwaitingFinalize
        },
        ConnectionAction::Ignore => phase,
    }
}

/// Step the phase machine with what one connection turned out to be.
pub fn listener_step(phase: ListenerPhase, action: &ConnectionAction) -> (r: ListenerPhase)
    ensures
        r == spec_listener_step(phase, *action),
{
    match action {
        ConnectionAction::Finalize(_) => ListenerPhase::Done,
        ConnectionAction::ServePage => {
            if matches!(phase, ListenerPhase::Done) {
                ListenerPhase::Done
            } else {
                ListenerPhase::AwaitingFinalize
            }
        },
        ConnectionAction::Ignore => phase,
    }
}

/// Law: a finalize request ends the listening loop from every phase,
/// whether or not finalization then succeeds.
pub proof fn lemma_finalize_stops_listening(phase: ListenerPhase, target: String)
    ensures
        spec_listener_step(phase, ConnectionAction::Finalize(target)) == ListenerPhase::Done,
{
}

/// Law: the done phase is terminal — no further connection changes it.
pub proof fn lemma_done_is_terminal(action: ConnectionAction)
    ensures
        spec_listener_step(ListenerPhase::Done, action) == ListenerPhase::Done,
{
}

} // verus!
