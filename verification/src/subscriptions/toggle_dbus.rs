//! The listener for the toggle call on the session bus.
//!
//! The listener first claims the launcher's name on the bus and serves the
//! toggle interface. Then it hands on every toggle that is called, until the
//! interface is gone. What it does next depends on its state alone, and what
//! comes of it decides the next state.

use vstd::prelude::*;

verus! {

/// What the bus tells the launcher.
#[derive(Debug, Clone, Copy, PartialEq, Eq, Structural)]
pub enum LauncherDbusEvent {
    Toggle,
}

/// The state of the listener. `C` is what keeps the connection to the bus,
/// together with the receiving end for the calls served on it.
#[derive(Debug, PartialEq, Eq)]
pub enum State<C> {
    /// Nothing has been tried yet.
    Ready,
    /// The interface is served.
    Waiting(C),
    /// The interface could not be served, or is gone.
    Finished,
}

/// What the listener has to do in a state before it can go on.
#[derive(Debug, Clone, Copy, PartialEq, Eq, Structural)]
pub enum Pending {
    /// Connect to the bus, claim the name and serve the interface.
    Connect,
    /// Wait for the next call.
    Receive,
    /// Wait without end.
    Forever,
}

/// What came of the listener's work.
#[derive(Debug, PartialEq, Eq)]
pub enum Occurrence<C> {
    /// The attempt to serve the interface, with the connection if it worked.
    Connected(Option<C>),
    /// The next call, or `None` when no call can come any more.
    Received(Option<LauncherDbusEvent>),
}

/// What the listener hands on, and the state it goes to, when `occurrence`
/// comes of its work in `state`. News that does not belong to the state
/// changes nothing.
pub open spec fn listened<I, C>(id: I, state: State<C>, occurrence: Occurrence<C>) -> (
    Option<(I, LauncherDbusEvent)>,
    State<C>,
) {
    match (state, occurrence) {
        (State::Ready, Occurrence::Connected(Some(connection))) => (
            None,
            State::Waiting(connection),
        ),
        (State::Ready, Occurrence::Connected(None)) => (None, State::Finished),
        (State::Waiting(connection), Occurrence::Received(Some(event))) => (
            Some((id, event)),
            State::Waiting(connection),
        ),
        (State::Waiting(_), Occurrence::Received(None)) => (None, State::Finished),
        _ => (None, state),
    }
}

impl<C> State<C> {
    /// What is to be done in this state.
    pub open spec fn pending_spec(self) -> Pending {
        match self {
            State::Ready => Pending::Connect,
            State::Waiting(_) => Pending::Receive,
            State::Finished => Pending::Forever,
        }
    }

    /// What is to be done in this state.
    pub fn pending(&self) -> (pending: Pending)
        ensures
            pending == self.pending_spec(),
    {
        match self {
            State::Ready => Pending::Connect,
            State::Waiting(_) => Pending::Receive,
            State::Finished => Pending::Forever,
        }
    }
}

/// One step of the listener with the identity `id`: takes what came of the
/// work that `state` asked for and gives what is to be handed on, if
/// anything, and the next state.
pub fn start_listening<I, C>(id: I, state: State<C>, occurrence: Occurrence<C>) -> (step: (
    Option<(I, LauncherDbusEvent)>,
    State<C>,
))
    ensures
        step == listened(id, state, occurrence),
{
    match state {
        State::Ready => match occurrence {
            Occurrence::Connected(Some(connection)) => (None, State::Waiting(connection)),
            Occurrence::Connected(None) => (None, State::Finished),
            Occurrence::Received(_) => (None, State::Ready),
        },
        State::Waiting(connection) => match occurrence {
            Occurrence::Received(Some(event)) => (Some((id, event)), State::Waiting(connection)),
            Occurrence::Received(None) => (None, State::Finished),
            Occurrence::Connected(_) => (None, State::Waiting(connection)),
        },
        State::Finished => (None, State::Finished),
    }
}

/// A listener that has finished stays so and hands nothing on; and whatever
/// is handed on is a call that was received while the interface was served.
pub proof fn lemma_listener<I, C>(id: I, state: State<C>, occurrence: Occurrence<C>)
    ensures
        state is Finished ==> listened(id, state, occurrence) == (
            None::<(I, LauncherDbusEvent)>,
            State::<C>::Finished,
        ),
        listened(id, state, occurrence).0 matches Some((from, event)) ==> from == id
            && state is Waiting && occurrence == Occurrence::<C>::Received(Some(event))
            && listened(id, state, occurrence).1 == state,
{
}

} // verus!
