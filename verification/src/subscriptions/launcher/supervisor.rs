//! The owner of the session, and the routing of requests to it.

use crate::subscriptions::launcher::{BackendRequest, Event, Request, Signal};
use vstd::prelude::*;

verus! {

/// What the request loop has to do next.
#[derive(Debug, PartialEq, Eq)]
pub enum Directive<S> {
    /// Write the message to the live session. A failure to write is ignored:
    /// the relay of that session will report that the service has closed.
    Forward(BackendRequest),
    /// No session is live. Try to start one, together with its relay, and hand
    /// the outcome to `Supervisor::spawn_finished` with this message.
    Spawn(BackendRequest),
    /// The session has been taken from the supervisor to be ended: stop its
    /// relay first, then terminate the process and wait for its exit.
    Terminate(S),
    /// The session has been taken from the supervisor because its process
    /// ended on its own: let go of the handle, there is nothing to terminate.
    Release(S),
    /// Nothing.
    Idle,
}

/// Owner of the session with the search service: at most one at any time.
///
/// `S` is the handle of a live session, whatever the embedding program needs
/// to write to the child process and to stop it. The supervisor never copies
/// it: a handle is moved in when a session starts and moved out when it ends.
pub struct Supervisor<S> {
    session: Option<S>,
}

/// The directive for a request, given the session that is live.
pub open spec fn directive_for<S>(live: Option<S>, request: Request) -> Directive<S> {
    match request.message() {
        Some(message) => if live is Some {
            Directive::Forward(message)
        } else {
            Directive::Spawn(message)
        },
        None => match live {
            Some(session) => Directive::Terminate(session),
            None => Directive::Idle,
        },
    }
}

/// The session that is live once a request has been routed.
pub open spec fn live_after_request<S>(live: Option<S>, request: Request) -> Option<S> {
    if request is Close {
        None
    } else {
        live
    }
}

/// The directive that follows a spawn attempt made for `message`.
pub open spec fn directive_after_spawn<S>(
    live: Option<S>,
    message: BackendRequest,
    outcome: Option<S>,
) -> Directive<S> {
    match (live, outcome) {
        (None, Some(_)) => Directive::Forward(message),
        (None, None) => Directive::Idle,
        (Some(_), Some(surplus)) => Directive::Terminate(surplus),
        (Some(_), None) => Directive::Forward(message),
    }
}

/// The session that is live once a spawn attempt has been reported.
pub open spec fn live_after_spawn<S>(live: Option<S>, outcome: Option<S>) -> Option<S> {
    if live is Some {
        live
    } else {
        outcome
    }
}

/// The directive for the news that the service has closed.
pub open spec fn directive_after_exit<S>(live: Option<S>) -> Directive<S> {
    match live {
        Some(session) => Directive::Release(session),
        None => Directive::Idle,
    }
}

/// The directive for what the request loop takes from its channel.
pub open spec fn directive_for_signal<S>(live: Option<S>, signal: Signal) -> Directive<S> {
    match signal {
        Signal::Request(request) => directive_for(live, request),
        Signal::ServiceClosed => directive_after_exit(live),
    }
}

/// The session that is live once the request loop has handled a signal.
pub open spec fn live_after_signal<S>(live: Option<S>, signal: Signal) -> Option<S> {
    match signal {
        Signal::Request(request) => live_after_request(live, request),
        Signal::ServiceClosed => None,
    }
}

impl<S> Supervisor<S> {
    /// The live session, if there is one.
    pub closed spec fn view(&self) -> Option<S> {
        self.session
    }

    /// A supervisor without a session.
    pub fn new() -> (supervisor: Self)
        ensures
            supervisor@ is None,
    {
        Supervisor { session: None }
    }

    /// Whether a session is live.
    pub fn is_active(&self) -> (active: bool)
        ensures
            active == (self@ is Some),
    {
        self.session.is_some()
    }

    /// The live session, to write to it.
    pub fn session_mut(&mut self) -> (session: Option<&mut S>)
        ensures
            old(self)@ is None ==> session is None && final(self)@ is None,
            old(self)@ is Some ==> session is Some && *session->0 == old(self)@->0
                && final(self)@ == Some(*final(session->0)),
    {
        self.session.as_mut()
    }

    /// Routes one request. Every request but `Close` goes to the live session,
    /// or asks for one to be started first; `Close` ends the session if there
    /// is one and does nothing otherwise.
    pub fn route(&mut self, request: Request) -> (directive: Directive<S>)
        ensures
            directive == directive_for(old(self)@, request),
            final(self)@ == live_after_request(old(self)@, request),
    {
        match request.into_message() {
            Some(message) => {
                if self.session.is_some() {
                    Directive::Forward(message)
                } else {
                    Directive::Spawn(message)
                }
            },
            None => self.close(),
        }
    }

    /// Handles what the request loop takes from its channel: a request is
    /// routed, and the news that the service has closed is taken note of.
    pub fn handle(&mut self, signal: Signal) -> (directive: Directive<S>)
        ensures
            directive == directive_for_signal(old(self)@, signal),
            final(self)@ == live_after_signal(old(self)@, signal),
    {
        match signal {
            Signal::Request(request) => self.route(request),
            Signal::ServiceClosed => self.on_service_closed(),
        }
    }

    /// Takes the outcome of the spawn attempt that `Directive::Spawn(message)`
    /// asked for: the new session, or `None` if none could be started.
    ///
    /// A new session becomes the live one and gets the message. Without a
    /// session the message is dropped: nothing is retried, and the front end
    /// hears nothing. Should a session be live already, it stays, and the new
    /// one comes back to be terminated, so that there are never two.
    pub fn spawn_finished(&mut self, message: BackendRequest, outcome: Option<S>) -> (directive:
        Directive<S>)
        ensures
            directive == directive_after_spawn(old(self)@, message, outcome),
            final(self)@ == live_after_spawn(old(self)@, outcome),
    {
        if self.session.is_some() {
            match outcome {
                Some(surplus) => Directive::Terminate(surplus),
                None => Directive::Forward(message),
            }
        } else {
            match outcome {
                Some(session) => {
                    self.session = Some(session);
                    Directive::Forward(message)
                },
                None => Directive::Idle,
            }
        }
    }

    /// Ends the session, if there is one. Without a session this does nothing.
    pub fn close(&mut self) -> (directive: Directive<S>)
        ensures
            directive == directive_for(old(self)@, Request::Close),
            final(self)@ is None,
    {
        match self.session.take() {
            Some(session) => Directive::Terminate(session),
            None => Directive::Idle,
        }
    }

    /// Takes note that the process of the session has ended on its own. The
    /// supervisor is without a session afterwards; nothing is terminated.
    pub fn on_service_closed(&mut self) -> (directive: Directive<S>)
        ensures
            directive == directive_after_exit(old(self)@),
            final(self)@ is None,
    {
        match self.session.take() {
            Some(session) => Directive::Release(session),
            None => Directive::Idle,
        }
    }
}

/// Brings the subsystem up: a supervisor without a session, and the event
/// that tells the front end that requests are taken from now on.
pub fn bring_up<S>() -> (up: (Supervisor<S>, Event))
    ensures
        up.0@ is None,
        up.1 == Event::Started,
{
    (Supervisor::new(), Event::Started)
}

} // verus!
