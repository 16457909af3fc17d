//! The relay of one session: from what the output of the search service
//! yields to the events that the front end sees.
//!
//! A relay listens from the start of its session. Each response becomes one
//! event. The end of the output means that the process has gone: the relay
//! says so once and stops. A relay that is killed before that stops without a
//! word, which is how a deliberate close stays silent.

use crate::protocol::Response;
use crate::subscriptions::launcher::Event;
use vstd::prelude::*;

verus! {

/// The state of the relay of one session.
pub struct Relay {
    listening: bool,
}

/// One step of a relay: the state it is left in and the event it emits, for
/// the next item of the output (`None` when the output has ended).
pub open spec fn relay_step(listening: bool, item: Option<Response>) -> (bool, Option<Event>) {
    if !listening {
        (false, None)
    } else {
        match item {
            Some(response) => (true, Some(Event::Response(response))),
            None => (false, Some(Event::ServiceClosed)),
        }
    }
}

/// Whether a relay still listens after `items`.
pub open spec fn relay_listening(listening: bool, items: Seq<Option<Response>>) -> bool
    decreases items.len(),
{
    if items.len() == 0 {
        listening
    } else {
        relay_step(relay_listening(listening, items.drop_last()), items.last()).0
    }
}

/// The events that a relay emits for `items`, in the order of emission.
pub open spec fn relay_events(listening: bool, items: Seq<Option<Response>>) -> Seq<Event>
    decreases items.len(),
{
    if items.len() == 0 {
        Seq::empty()
    } else {
        let before = relay_events(listening, items.drop_last());
        match relay_step(relay_listening(listening, items.drop_last()), items.last()).1 {
            Some(event) => before.push(event),
            None => before,
        }
    }
}

impl Relay {
    /// Whether the relay still listens to its session.
    pub closed spec fn view(&self) -> bool {
        self.listening
    }

    /// The relay of a session that has just started.
    pub fn new() -> (relay: Self)
        ensures
            relay@,
    {
        Relay { listening: true }
    }

    /// Whether the relay still listens to its session.
    pub fn is_listening(&self) -> (listening: bool)
        ensures
            listening == self@,
    {
        self.listening
    }

    /// Takes the next item of the session's output, `None` when the output has
    /// ended, and gives the event to emit for it.
    pub fn on_item(&mut self, item: Option<Response>) -> (event: Option<Event>)
        ensures
            (final(self)@, event) == relay_step(old(self)@, item),
    {
        if !self.listening {
            None
        } else {
            match item {
                Some(response) => Some(Event::Response(response)),
                None => {
                    self.listening = false;
                    Some(Event::ServiceClosed)
                },
            }
        }
    }

    /// Stops the relay because its session is about to be closed on purpose.
    pub fn kill(&mut self)
        ensures
            !final(self)@,
    {
        self.listening = false;
    }
}

/// A listening relay passes every response on: as many events as responses,
/// in the same order, each holding its response unchanged.
pub proof fn lemma_relay_keeps_order(responses: Seq<Response>)
    ensures
        relay_events(true, responses.map_values(|r: Response| Some(r))) == responses.map_values(
            |r: Response| Event::Response(r),
        ),
        relay_listening(true, responses.map_values(|r: Response| Some(r))),
    decreases responses.len(),
{
    let items = responses.map_values(|r: Response| Some(r));
    if responses.len() > 0 {
        lemma_relay_keeps_order(responses.drop_last());
        assert(items.drop_last() == responses.drop_last().map_values(|r: Response| Some(r)));
    }
}

/// A relay that does not listen emits nothing, whatever its session yields.
pub proof fn lemma_relay_silent_once_stopped(items: Seq<Option<Response>>)
    ensures
        relay_events(false, items) == Seq::<Event>::empty(),
        !relay_listening(false, items),
    decreases items.len(),
{
    if items.len() > 0 {
        lemma_relay_silent_once_stopped(items.drop_last());
    }
}

/// The events for `first` followed by `second` are those for `first`, then
/// those that the relay emits for `second` from the state it was left in.
pub proof fn lemma_relay_concat(
    listening: bool,
    first: Seq<Option<Response>>,
    second: Seq<Option<Response>>,
)
    ensures
        relay_listening(listening, first + second) == relay_listening(
            relay_listening(listening, first),
            second,
        ),
        relay_events(listening, first + second) == relay_events(listening, first) + relay_events(
            relay_listening(listening, first),
            second,
        ),
    decreases second.len(),
{
    if second.len() > 0 {
        lemma_relay_concat(listening, first, second.drop_last());
        assert((first + second).drop_last() == first + second.drop_last());
    }
}

/// When the search service ends after `responses`, the front end sees these
/// responses in order, then `ServiceClosed` exactly once, and nothing more of
/// this session, whatever its output is made to yield afterwards.
pub proof fn lemma_relay_reports_exit_once(responses: Seq<Response>, rest: Seq<Option<Response>>)
    ensures
        relay_events(true, responses.map_values(|r: Response| Some(r)).push(None) + rest)
            == responses.map_values(|r: Response| Event::Response(r)).push(Event::ServiceClosed),
        !relay_listening(true, responses.map_values(|r: Response| Some(r)).push(None) + rest),
{
    let items = responses.map_values(|r: Response| Some(r));
    lemma_relay_keeps_order(responses);
    assert(items.push(None).drop_last() == items);
    lemma_relay_concat(true, items.push(None), rest);
    lemma_relay_silent_once_stopped(rest);
}

} // verus!
