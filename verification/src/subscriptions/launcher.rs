//! The session with the search service.
//!
//! The search service is a child process that is started on the first request
//! that needs it and stopped on `Request::Close`. Four parts work together:
//!
//! * the [`supervisor`] owns the session, of which there is at most one;
//! * the router (`Supervisor::route`) turns each request into a directive for
//!   the loop that owns the supervisor: write a message, start a session
//!   first, or end the session;
//! * the [`relay`] turns what one session's output yields into events;
//! * the [`channel`] carries the events to the front end, in order and
//!   without loss.
//!
//! Nothing here performs I/O. The embedding program runs the loop: it takes a
//! request, asks the supervisor what to do, does it, and reports back what a
//! spawn attempt gave. [`trace`] describes such a loop as a whole and states
//! what holds of every run of it.
//!
//! `Event::Started` is emitted once when the subsystem is brought up, before
//! anything else, and not again when a later session starts: the sender of
//! requests that it announces outlives the sessions.

use crate::protocol::Response;
use vstd::prelude::*;

pub mod channel;
pub mod relay;
pub mod supervisor;
pub mod trace;

verus! {

/// What the front end asks of the launcher subsystem.
#[derive(Debug, Clone, PartialEq, Eq)]
pub enum Request {
    /// Look for entries that match the text.
    Search(String),
    /// Activate the result with this id.
    Activate(u32),
    /// Ask for the context menu of the result with this id.
    Context(u32),
    /// Activate the context item (second) of the result (first).
    ActivateContext(u32, u32),
    /// Ask for the completion of the input by the result with this id.
    Complete(u32),
    /// End the session with the search service.
    Close,
}

/// What the request loop takes from its channel.
#[derive(Debug, Clone, PartialEq, Eq)]
pub enum Signal {
    /// A request of the front end.
    Request(Request),
    /// The news that the search service has closed on its own.
    ServiceClosed,
}

/// A message written to the search service.
#[derive(Debug, Clone, PartialEq, Eq)]
pub enum BackendRequest {
    /// Activate the result with this id.
    Activate(u32),
    /// Activate a context item of a result.
    ActivateContext { id: u32, context: u32 },
    /// Complete the input from the result with this id.
    Complete(u32),
    /// Ask for the context options of the result with this id.
    Context(u32),
    /// Search for the text.
    Search(String),
}

/// What the front end gets to see of the subsystem.
#[derive(Debug, Clone, PartialEq, Eq)]
pub enum Event {
    /// The subsystem is up and takes requests. The embedding program hands
    /// the sending end of the request channel over along with it.
    Started,
    /// The search service answered.
    Response(Response),
    /// The search service ended without having been asked to.
    ServiceClosed,
}

/// A request as a mathematical value: the text of a search as a sequence of
/// characters.
pub enum RequestView {
    Search(Seq<char>),
    Activate(u32),
    Context(u32),
    ActivateContext(u32, u32),
    Complete(u32),
    Close,
}

impl View for Request {
    type V = RequestView;

    open spec fn view(&self) -> RequestView {
        match *self {
            Request::Search(text) => RequestView::Search(text@),
            Request::Activate(id) => RequestView::Activate(id),
            Request::Context(id) => RequestView::Context(id),
            Request::ActivateContext(id, context) => RequestView::ActivateContext(id, context),
            Request::Complete(id) => RequestView::Complete(id),
            Request::Close => RequestView::Close,
        }
    }
}

impl Request {
    /// The message that stands for this request on the wire. `Close` has none:
    /// it ends the session instead of being written to it.
    pub open spec fn message(self) -> Option<BackendRequest> {
        match self {
            Request::Search(text) => Some(BackendRequest::Search(text)),
            Request::Activate(id) => Some(BackendRequest::Activate(id)),
            Request::Context(id) => Some(BackendRequest::Context(id)),
            Request::ActivateContext(id, context) => Some(
                BackendRequest::ActivateContext { id, context },
            ),
            Request::Complete(id) => Some(BackendRequest::Complete(id)),
            Request::Close => None,
        }
    }

    /// Turns the request into the message for the search service.
    pub fn into_message(self) -> (message: Option<BackendRequest>)
        ensures
            message == self.message(),
    {
        match self {
            Request::Search(text) => Some(BackendRequest::Search(text)),
            Request::Activate(id) => Some(BackendRequest::Activate(id)),
            Request::Context(id) => Some(BackendRequest::Context(id)),
            Request::ActivateContext(id, context) => Some(
                BackendRequest::ActivateContext { id, context },
            ),
            Request::Complete(id) => Some(BackendRequest::Complete(id)),
            Request::Close => None,
        }
    }
}

} // verus!
