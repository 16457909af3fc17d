//! The subsystem as a whole, and what holds of every run of it.
//!
//! The request loop and the relay run side by side in the embedding program.
//! Here they are put together into one machine that takes what happens to the
//! subsystem, one input at a time, and lists what the subsystem does in
//! return. Each step is made of the same rules that the supervisor and the
//! relay follow.

use crate::protocol::Response;
use crate::subscriptions::launcher::channel::{
    delivered,
    drained,
    handed_over,
    lemma_channel_drained_delivers_all,
    lemma_waiting_sender_loses_nothing,
    queue_after,
    uses,
    Turn,
};
use crate::subscriptions::launcher::relay::{
    lemma_relay_keeps_order,
    lemma_relay_reports_exit_once,
    lemma_relay_silent_once_stopped,
    relay_events,
    relay_listening,
    relay_step,
};
use crate::subscriptions::launcher::supervisor::{
    directive_after_exit,
    directive_after_spawn,
    directive_for,
    live_after_request,
    live_after_spawn,
    Directive,
};
use crate::subscriptions::launcher::{BackendRequest, Event, Request};
use vstd::prelude::*;

verus! {

/// Something that happens to the subsystem.
pub enum Input<S> {
    /// The request loop takes a request. `spawn` is what an attempt to start
    /// the search service gives at this moment, should the request need one:
    /// the new session, or `None` for a failure.
    Request { request: Request, spawn: Option<S> },
    /// The output of the search service yields a response, or ends (`None`).
    Output(Option<Response>),
    /// The request loop is told that the search service has closed.
    Closed,
}

/// Something that the subsystem does.
pub enum Action<S> {
    /// An attempt to start the search service, with its outcome.
    Spawn(Option<S>),
    /// A message is written to the session.
    Send(S, BackendRequest),
    /// The relay of the session is stopped and its process terminated.
    Terminate(S),
    /// The handle of a session whose process has gone is let go.
    Release(S),
    /// An event is handed to the front end.
    Emit(Event),
}

/// The state of the subsystem: the session that is live, and whether the
/// relay of that session listens.
pub struct World<S> {
    pub live: Option<S>,
    pub listening: bool,
}

/// What the request loop does to carry out a directive that needs no spawn.
pub open spec fn carried_out<S>(directive: Directive<S>, live: Option<S>) -> Seq<Action<S>> {
    match directive {
        Directive::Forward(message) => match live {
            Some(session) => seq![Action::Send(session, message)],
            None => Seq::empty(),
        },
        Directive::Terminate(session) => seq![Action::Terminate(session)],
        Directive::Release(session) => seq![Action::Release(session)],
        Directive::Spawn(_) => Seq::empty(),
        Directive::Idle => Seq::empty(),
    }
}

/// One step of the subsystem: the state after `input` and what is done.
pub open spec fn step<S>(world: World<S>, input: Input<S>) -> (World<S>, Seq<Action<S>>) {
    match input {
        Input::Request { request, spawn } => {
            let directive = directive_for(world.live, request);
            let live = live_after_request(world.live, request);
            match directive {
                Directive::Spawn(message) => {
                    let settled = directive_after_spawn(live, message, spawn);
                    let live = live_after_spawn(live, spawn);
                    (
                        World { live, listening: live is Some },
                        seq![Action::Spawn(spawn)] + carried_out(settled, live),
                    )
                },
                _ => (
                    World { live, listening: world.listening && live is Some },
                    carried_out(directive, live),
                ),
            }
        },
        Input::Output(item) => {
            let (listening, event) = relay_step(world.listening, item);
            (
                World { live: world.live, listening },
                match event {
                    Some(event) => seq![Action::Emit(event)],
                    None => Seq::empty(),
                },
            )
        },
        Input::Closed => (
            World { live: None, listening: false },
            carried_out(directive_after_exit(world.live), None),
        ),
    }
}

/// The state of a subsystem that was in `world` and has taken `inputs`.
pub open spec fn world_after<S>(world: World<S>, inputs: Seq<Input<S>>) -> World<S>
    decreases inputs.len(),
{
    if inputs.len() == 0 {
        world
    } else {
        step(world_after(world, inputs.drop_last()), inputs.last()).0
    }
}

/// What a subsystem that was in `world` does while it takes `inputs`.
pub open spec fn actions_after<S>(world: World<S>, inputs: Seq<Input<S>>) -> Seq<Action<S>>
    decreases inputs.len(),
{
    if inputs.len() == 0 {
        Seq::empty()
    } else {
        actions_after(world, inputs.drop_last()) + step(
            world_after(world, inputs.drop_last()),
            inputs.last(),
        ).1
    }
}

/// The state in which the subsystem is brought up: no session, no relay.
pub open spec fn initial<S>() -> World<S> {
    World { live: None, listening: false }
}

/// Everything that a subsystem does from the moment it is brought up: it
/// announces itself, then acts on `inputs`.
pub open spec fn run<S>(inputs: Seq<Input<S>>) -> Seq<Action<S>> {
    seq![Action::Emit(Event::Started)] + actions_after(initial(), inputs)
}

/// The number of actions that `f` holds of.
pub open spec fn count<S>(actions: Seq<Action<S>>, f: spec_fn(Action<S>) -> bool) -> nat
    decreases actions.len(),
{
    if actions.len() == 0 {
        0
    } else {
        count(actions.drop_last(), f) + if f(actions.last()) {
            1nat
        } else {
            0nat
        }
    }
}

/// The number of attempts to start the search service.
pub open spec fn spawns<S>(actions: Seq<Action<S>>) -> nat {
    count(actions, |a: Action<S>| a is Spawn)
}

/// The number of sessions that were started.
pub open spec fn started<S>(actions: Seq<Action<S>>) -> nat {
    count(actions, |a: Action<S>| a matches Action::Spawn(Some(_)))
}

/// The number of sessions that came to an end, by a close or on their own.
pub open spec fn ended<S>(actions: Seq<Action<S>>) -> nat {
    count(actions, |a: Action<S>| a is Terminate || a is Release)
}

/// The number of messages written to the search service.
pub open spec fn sends<S>(actions: Seq<Action<S>>) -> nat {
    count(actions, |a: Action<S>| a is Send)
}

/// The events that the front end gets to see, in order.
pub open spec fn events<S>(actions: Seq<Action<S>>) -> Seq<Event>
    decreases actions.len(),
{
    if actions.len() == 0 {
        Seq::empty()
    } else {
        match actions.last() {
            Action::Emit(event) => events(actions.drop_last()).push(event),
            _ => events(actions.drop_last()),
        }
    }
}

/// The number of requests among `inputs` that are not `Close`.
pub open spec fn asks<S>(inputs: Seq<Input<S>>) -> nat
    decreases inputs.len(),
{
    if inputs.len() == 0 {
        0
    } else {
        asks(inputs.drop_last()) + match inputs.last() {
            Input::Request { request, .. } => if request is Close {
                0nat
            } else {
                1nat
            },
            _ => 0nat,
        }
    }
}

proof fn lemma_count_concat<S>(
    first: Seq<Action<S>>,
    second: Seq<Action<S>>,
    f: spec_fn(Action<S>) -> bool,
)
    ensures
        count(first + second, f) == count(first, f) + count(second, f),
    decreases second.len(),
{
    if second.len() > 0 {
        lemma_count_concat(first, second.drop_last(), f);
        assert((first + second).drop_last() == first + second.drop_last());
    }
}

proof fn lemma_count_small<S>(a: Action<S>, b: Action<S>, f: spec_fn(Action<S>) -> bool)
    ensures
        count(Seq::<Action<S>>::empty(), f) == 0,
        count(seq![a], f) == if f(a) {
            1nat
        } else {
            0nat
        },
        count(seq![a] + seq![b], f) == (if f(a) {
            1nat
        } else {
            0nat
        }) + (if f(b) {
            1nat
        } else {
            0nat
        }),
{
    assert(seq![a].drop_last() == Seq::<Action<S>>::empty());
    assert(seq![b].drop_last() == Seq::<Action<S>>::empty());
    lemma_count_concat(seq![a], seq![b], f);
}

proof fn lemma_events_concat<S>(first: Seq<Action<S>>, second: Seq<Action<S>>)
    ensures
        events(first + second) == events(first) + events(second),
    decreases second.len(),
{
    if second.len() > 0 {
        lemma_events_concat(first, second.drop_last());
        assert((first + second).drop_last() == first + second.drop_last());
    }
}

proof fn lemma_events_small<S>(a: Action<S>, b: Action<S>)
    ensures
        events(Seq::<Action<S>>::empty()) == Seq::<Event>::empty(),
        a matches Action::Emit(event) ==> events(seq![a]) == seq![event],
        !(a is Emit) ==> events(seq![a]) == Seq::<Event>::empty(),
        !(a is Emit) && !(b is Emit) ==> events(seq![a] + seq![b]) == Seq::<Event>::empty(),
{
    assert(seq![a].drop_last() == Seq::<Action<S>>::empty());
    assert(seq![b].drop_last() == Seq::<Action<S>>::empty());
    lemma_events_concat(seq![a], seq![b]);
}

/// Taking `first` and then `second` is taking them one after the other.
pub proof fn lemma_run_concat<S>(world: World<S>, first: Seq<Input<S>>, second: Seq<Input<S>>)
    ensures
        world_after(world, first + second) == world_after(world_after(world, first), second),
        actions_after(world, first + second) == actions_after(world, first) + actions_after(
            world_after(world, first),
            second,
        ),
    decreases second.len(),
{
    if second.len() > 0 {
        lemma_run_concat(world, first, second.drop_last());
        assert((first + second).drop_last() == first + second.drop_last());
    }
}

proof fn lemma_run_one<S>(world: World<S>, input: Input<S>)
    ensures
        world_after(world, seq![input]) == step(world, input).0,
        actions_after(world, seq![input]) == step(world, input).1,
{
    let none = Seq::<Input<S>>::empty();
    assert(seq![input].drop_last() == none);
    assert(world_after(world, none) == world);
    assert(actions_after(world, none) == Seq::<Action<S>>::empty());
}

/// The balance of one step: a session that is started makes the live one, a
/// session that ends was the live one, and a relay listens to a live session
/// only.
proof fn lemma_step_balance<S>(world: World<S>, input: Input<S>)
    requires
        world.listening ==> world.live is Some,
    ensures
        ({
            let (next, done) = step(world, input);
            &&& started(done) + (if world.live is Some {
                1nat
            } else {
                0nat
            }) == ended(done) + (if next.live is Some {
                1nat
            } else {
                0nat
            })
            &&& next.listening ==> next.live is Some
        }),
{
    let (next, done) = step(world, input);
    let is_start = |a: Action<S>| a matches Action::Spawn(Some(_));
    let is_end = |a: Action<S>| a is Terminate || a is Release;
    if done.len() == 1 {
        lemma_count_small(done[0], done[0], is_start);
        lemma_count_small(done[0], done[0], is_end);
    } else if done.len() == 2 {
        lemma_count_small(done[0], done[1], is_start);
        lemma_count_small(done[0], done[1], is_end);
    }
}

/// At most one session is live at any time: in every run, the sessions that
/// were started are those that have ended and, if there is one, the session
/// that is live.
pub proof fn lemma_single_session<S>(inputs: Seq<Input<S>>)
    ensures
        started(run(inputs)) == ended(run(inputs)) + if world_after(initial(), inputs).live
            is Some {
            1nat
        } else {
            0nat
        },
        started(run(inputs)) <= ended(run(inputs)) + 1,
        world_after(initial(), inputs).listening ==> world_after(initial(), inputs).live is Some,
    decreases inputs.len(),
{
    let is_start = |a: Action<S>| a matches Action::Spawn(Some(_));
    let is_end = |a: Action<S>| a is Terminate || a is Release;
    let hello = seq![Action::<S>::Emit(Event::Started)];
    lemma_count_small(hello[0], hello[0], is_start);
    lemma_count_small(hello[0], hello[0], is_end);
    lemma_count_concat(hello, actions_after(initial(), inputs), is_start);
    lemma_count_concat(hello, actions_after(initial(), inputs), is_end);
    if inputs.len() > 0 {
        let before = inputs.drop_last();
        lemma_single_session(before);
        lemma_count_concat(hello, actions_after(initial(), before), is_start);
        lemma_count_concat(hello, actions_after(initial(), before), is_end);
        let world = world_after(initial(), before);
        lemma_step_balance(world, inputs.last());
        lemma_count_concat(
            actions_after(initial(), before),
            step(world, inputs.last()).1,
            is_start,
        );
        lemma_count_concat(actions_after(initial(), before), step(world, inputs.last()).1, is_end);
    }
}

/// The inputs that stand for what the output of the search service yields.
pub open spec fn outputs<S>(items: Seq<Option<Response>>) -> Seq<Input<S>> {
    items.map_values(|item: Option<Response>| Input::Output(item))
}

/// The inputs that stand for responses of the search service.
pub open spec fn responses_in<S>(responses: Seq<Response>) -> Seq<Input<S>> {
    responses.map_values(|response: Response| Input::Output(Some(response)))
}

/// The events that hold the given responses.
pub open spec fn responses_out(responses: Seq<Response>) -> Seq<Event> {
    responses.map_values(|response: Response| Event::Response(response))
}

/// While the output of the search service yields `items`, the subsystem
/// emits what the relay of the session emits, and does nothing else.
proof fn lemma_outputs_follow_relay<S>(world: World<S>, items: Seq<Option<Response>>)
    ensures
        events(actions_after(world, outputs(items))) == relay_events(world.listening, items),
        world_after(world, outputs(items)).listening == relay_listening(world.listening, items),
        world_after(world, outputs(items)).live == world.live,
        count(actions_after(world, outputs(items)), |a: Action<S>| a is Spawn) == 0,
    decreases items.len(),
{
    let is_spawn = |a: Action<S>| a is Spawn;
    if items.len() > 0 {
        lemma_outputs_follow_relay(world, items.drop_last());
        assert(outputs::<S>(items).drop_last() == outputs::<S>(items.drop_last()));
        let before = world_after(world, outputs(items.drop_last()));
        let done = step(before, Input::Output(items.last())).1;
        lemma_events_concat(actions_after(world, outputs(items.drop_last())), done);
        lemma_count_concat(actions_after(world, outputs(items.drop_last())), done, is_spawn);
        if let Some(event) = relay_step(before.listening, items.last()).1 {
            lemma_events_small(Action::<S>::Emit(event), Action::<S>::Emit(event));
            lemma_count_small(Action::<S>::Emit(event), Action::<S>::Emit(event), is_spawn);
        }
    }
}

/// A request that needs the search service while no session is live costs
/// exactly one attempt to start it, made before anything is written: the
/// request goes to the new session if there is one now, and is dropped if
/// not. With a live session nothing is started and the request goes there.
pub proof fn lemma_one_attempt_per_request<S>(world: World<S>, request: Request, spawn: Option<S>)
    requires
        !(request is Close),
    ensures
        world.live is None ==> step(world, Input::Request { request, spawn }).1 == match spawn {
            Some(session) => seq![Action::Spawn(spawn)] + seq![
                Action::Send(session, request.message()->0),
            ],
            None => seq![Action::Spawn(spawn)],
        },
        world.live is None ==> step(world, Input::Request { request, spawn }).0.live == spawn,
        world.live is None ==> spawns(step(world, Input::Request { request, spawn }).1) == 1,
        world.live matches Some(session) ==> step(world, Input::Request { request, spawn }) == (
            world,
            seq![Action::Send(session, request.message()->0)],
        ),
        world.live is Some ==> spawns(step(world, Input::Request { request, spawn }).1) == 0,
{
    let is_spawn = |a: Action<S>| a is Spawn;
    let message = request.message()->0;
    match world.live {
        Some(session) => {
            let sent = Action::Send(session, message);
            lemma_count_small(sent, sent, is_spawn);
        },
        None => match spawn {
            Some(session) => {
                lemma_count_small(Action::Spawn(spawn), Action::Send(session, message), is_spawn);
            },
            None => {
                lemma_count_small(Action::<S>::Spawn(spawn), Action::<S>::Spawn(spawn), is_spawn);
            },
        },
    }
}

/// Any number of requests made before a `Close`, with a search service that
/// can be started, start it exactly once.
pub proof fn lemma_one_spawn_before_close<S>(inputs: Seq<Input<S>>)
    requires
        forall|i: int|
            0 <= i < inputs.len() ==> (#[trigger] inputs[i] matches Input::Request {
                request,
                spawn,
            } && !(request is Close) && spawn is Some),
    ensures
        spawns(run(inputs)) == if inputs.len() == 0 {
            0nat
        } else {
            1nat
        },
        started(run(inputs)) == spawns(run(inputs)),
        inputs.len() > 0 ==> world_after(initial(), inputs).live is Some,
    decreases inputs.len(),
{
    let is_spawn = |a: Action<S>| a is Spawn;
    let is_start = |a: Action<S>| a matches Action::Spawn(Some(_));
    let hello = seq![Action::<S>::Emit(Event::Started)];
    lemma_count_small(hello[0], hello[0], is_spawn);
    lemma_count_small(hello[0], hello[0], is_start);
    lemma_count_concat(hello, actions_after(initial(), inputs), is_spawn);
    lemma_count_concat(hello, actions_after(initial(), inputs), is_start);
    if inputs.len() > 0 {
        let before = inputs.drop_last();
        lemma_one_spawn_before_close(before);
        lemma_count_concat(hello, actions_after(initial(), before), is_spawn);
        lemma_count_concat(hello, actions_after(initial(), before), is_start);
        let world = world_after(initial::<S>(), before);
        let done = step(world, inputs.last()).1;
        lemma_count_concat(actions_after(initial(), before), done, is_spawn);
        lemma_count_concat(actions_after(initial(), before), done, is_start);
        match inputs.last() {
            Input::Request { request, spawn } => {
                let message = request.message()->0;
                if before.len() == 0 {
                    let session = spawn->0;
                    lemma_count_small(
                        Action::Spawn(Some(session)),
                        Action::Send(session, message),
                        is_spawn,
                    );
                    lemma_count_small(
                        Action::Spawn(Some(session)),
                        Action::Send(session, message),
                        is_start,
                    );
                } else {
                    lemma_count_small(done[0], done[0], is_spawn);
                    lemma_count_small(done[0], done[0], is_start);
                }
            },
            _ => {},
        }
    }
}

/// What the search service answers reaches the front end as it was sent: after
/// the announcement, one event for each response, in the same order, none
/// dropped and none added. This holds of what the subsystem emits, and of
/// what comes out of an event channel with at least one slot whose receiver
/// keeps up.
pub proof fn lemma_responses_arrive_in_order<S>(
    request: Request,
    session: S,
    responses: Seq<Response>,
    capacity: nat,
)
    requires
        !(request is Close),
        capacity >= 1,
    ensures
        events(
            run(seq![Input::Request { request, spawn: Some(session) }] + responses_in(responses)),
        ) == seq![Event::Started] + responses_out(responses),
        delivered(
            capacity,
            drained(
                events(
                    run(
                        seq![Input::Request { request, spawn: Some(session) }] + responses_in(
                            responses,
                        ),
                    ),
                ),
            ),
        ) == seq![Event::Started] + responses_out(responses),
{
    let first = Input::Request { request, spawn: Some(session) };
    let items = responses.map_values(|r: Response| Some(r));
    assert(responses_in::<S>(responses) == outputs::<S>(items));
    lemma_run_concat(initial(), seq![first], outputs(items));
    lemma_run_one(initial(), first);
    let world = World { live: Some(session), listening: true };
    lemma_outputs_follow_relay(world, items);
    lemma_relay_keeps_order(responses);
    let opening = seq![Action::Spawn(Some(session))] + seq![
        Action::Send(session, request.message()->0),
    ];
    lemma_events_small(Action::Spawn(Some(session)), Action::Send(session, request.message()->0));
    lemma_events_concat(opening, actions_after(world, outputs(items)));
    let hello = seq![Action::<S>::Emit(Event::Started)];
    lemma_events_small(hello[0], hello[0]);
    lemma_events_concat(hello, actions_after(initial(), seq![first] + outputs(items)));
    lemma_channel_drained_delivers_all(capacity, seq![Event::Started] + responses_out(responses));
}

/// A front end that is slow to take its events still gets every response:
/// when the events wait for room in a bounded channel, whatever its size
/// and whoever's turn it is, the front end has at any moment got the first
/// so many of them in order, and once all are handed over and the channel
/// is drained it has got the announcement and one event for each response,
/// none lost and none twice.
pub proof fn lemma_responses_survive_slow_receiver<S>(
    request: Request,
    session: S,
    responses: Seq<Response>,
    capacity: nat,
    turns: Seq<Turn>,
)
    requires
        !(request is Close),
    ensures
        ({
            let emitted = events(
                run(
                    seq![Input::Request { request, spawn: Some(session) }] + responses_in(
                        responses,
                    ),
                ),
            );
            let ops = uses(capacity, emitted, turns);
            let handed = handed_over(capacity, emitted, turns);
            &&& emitted == seq![Event::Started] + responses_out(responses)
            &&& delivered(capacity, ops) + queue_after(capacity, ops) == emitted.take(
                handed as int,
            )
            &&& handed == emitted.len() && queue_after(capacity, ops).len() == 0 ==> delivered(
                capacity,
                ops,
            ) == seq![Event::Started] + responses_out(responses)
        }),
{
    lemma_responses_arrive_in_order(request, session, responses, 1);
    let emitted = events(
        run(seq![Input::Request { request, spawn: Some(session) }] + responses_in(responses)),
    );
    lemma_waiting_sender_loses_nothing(capacity, emitted, turns);
}

/// When the search service ends on its own after some responses, the front
/// end sees these responses, then `ServiceClosed` exactly once, and nothing
/// more of that session, whatever its output is made to yield afterwards.
pub proof fn lemma_exit_reported_once<S>(
    request: Request,
    session: S,
    responses: Seq<Response>,
    rest: Seq<Option<Response>>,
)
    requires
        !(request is Close),
    ensures
        events(
            run(
                seq![Input::Request { request, spawn: Some(session) }] + outputs(
                    responses.map_values(|r: Response| Some(r)).push(None) + rest,
                ),
            ),
        ) == (seq![Event::Started] + responses_out(responses)).push(Event::ServiceClosed),
{
    let first = Input::Request { request, spawn: Some(session) };
    let items = responses.map_values(|r: Response| Some(r)).push(None) + rest;
    lemma_run_concat(initial(), seq![first], outputs(items));
    lemma_run_one(initial(), first);
    let world = World { live: Some(session), listening: true };
    lemma_outputs_follow_relay(world, items);
    lemma_relay_reports_exit_once(responses, rest);
    let opening = seq![Action::Spawn(Some(session))] + seq![
        Action::Send(session, request.message()->0),
    ];
    lemma_events_small(Action::Spawn(Some(session)), Action::Send(session, request.message()->0));
    lemma_events_concat(opening, actions_after(world, outputs(items)));
    let hello = seq![Action::<S>::Emit(Event::Started)];
    lemma_events_small(hello[0], hello[0]);
    lemma_events_concat(hello, actions_after(initial(), seq![first] + outputs(items)));
}

/// Once the request loop has been told that the search service has closed,
/// the next request that needs the service starts it anew, exactly once, and
/// is written to the new session.
pub proof fn lemma_respawn_after_exit<S>(world: World<S>, request: Request, session: S)
    requires
        !(request is Close),
    ensures
        step(world, Input::Closed).0.live is None,
        step(step(world, Input::Closed).0, Input::Request { request, spawn: Some(session) }) == (
            World { live: Some(session), listening: true },
            seq![Action::Spawn(Some(session))] + seq![
                Action::Send(session, request.message()->0),
            ],
        ),
        spawns(
            step(step(world, Input::Closed).0, Input::Request { request, spawn: Some(session) }).1,
        ) == 1,
{
    lemma_count_small(
        Action::Spawn(Some(session)),
        Action::Send(session, request.message()->0),
        |a: Action<S>| a is Spawn,
    );
}

/// `Close` without a session does nothing at all: no spawn attempt, no other
/// action, and the subsystem stays without a session. So a second `Close`
/// after a first is without effect.
pub proof fn lemma_close_is_idempotent<S>(world: World<S>, spawn: Option<S>, again: Option<S>)
    ensures
        world.live is None ==> step(world, Input::Request { request: Request::Close, spawn }).1
            == Seq::<Action<S>>::empty(),
        step(world, Input::Request { request: Request::Close, spawn }).0 == (World::<S> {
            live: None,
            listening: false,
        }),
        step(
            step(world, Input::Request { request: Request::Close, spawn }).0,
            Input::Request { request: Request::Close, spawn: again },
        ) == (World::<S> { live: None, listening: false }, Seq::<Action<S>>::empty()),
{
}

/// After a `Close` the front end hears nothing more of the session that was
/// closed, whatever its output still yields.
pub proof fn lemma_closed_session_is_silent<S>(
    world: World<S>,
    spawn: Option<S>,
    items: Seq<Option<Response>>,
)
    ensures
        events(
            actions_after(
                step(world, Input::Request { request: Request::Close, spawn }).0,
                outputs(items),
            ),
        ) == Seq::<Event>::empty(),
{
    let closed = step(world, Input::Request { request: Request::Close, spawn }).0;
    lemma_outputs_follow_relay(closed, items);
    lemma_relay_silent_once_stopped(items);
}

/// If the search service cannot be started, no message is ever written and
/// no response ever seen: every request but `Close` costs one failed attempt
/// and is dropped, and the front end sees the announcement and nothing else.
pub proof fn lemma_spawn_failure_drops_requests<S>(inputs: Seq<Input<S>>)
    requires
        forall|i: int|
            0 <= i < inputs.len() ==> (#[trigger] inputs[i] matches Input::Request { spawn, .. }
                ==> spawn is None),
    ensures
        sends(run(inputs)) == 0,
        started(run(inputs)) == 0,
        spawns(run(inputs)) == asks(inputs),
        events(run(inputs)) == seq![Event::Started],
        world_after(initial(), inputs) == initial::<S>(),
    decreases inputs.len(),
{
    let is_spawn = |a: Action<S>| a is Spawn;
    let is_start = |a: Action<S>| a matches Action::Spawn(Some(_));
    let is_send = |a: Action<S>| a is Send;
    let hello = seq![Action::<S>::Emit(Event::Started)];
    let acts = actions_after(initial::<S>(), inputs);
    lemma_count_small(hello[0], hello[0], is_spawn);
    lemma_count_small(hello[0], hello[0], is_start);
    lemma_count_small(hello[0], hello[0], is_send);
    lemma_events_small(hello[0], hello[0]);
    lemma_count_concat(hello, acts, is_spawn);
    lemma_count_concat(hello, acts, is_start);
    lemma_count_concat(hello, acts, is_send);
    lemma_events_concat(hello, acts);
    if inputs.len() > 0 {
        let before = inputs.drop_last();
        lemma_spawn_failure_drops_requests(before);
        let earlier = actions_after(initial::<S>(), before);
        lemma_count_concat(hello, earlier, is_spawn);
        lemma_count_concat(hello, earlier, is_start);
        lemma_count_concat(hello, earlier, is_send);
        lemma_events_concat(hello, earlier);
        let done = step(initial::<S>(), inputs.last()).1;
        lemma_count_concat(earlier, done, is_spawn);
        lemma_count_concat(earlier, done, is_start);
        lemma_count_concat(earlier, done, is_send);
        lemma_events_concat(earlier, done);
        if done.len() > 0 {
            lemma_count_small(done[0], done[0], is_spawn);
            lemma_count_small(done[0], done[0], is_start);
            lemma_count_small(done[0], done[0], is_send);
            lemma_events_small(done[0], done[0]);
        }
    }
}

/// No step of the subsystem announces it again.
proof fn lemma_step_never_announces<S>(world: World<S>, input: Input<S>)
    ensures
        forall|k: int|
            0 <= k < events(step(world, input).1).len() ==> #[trigger] events(
                step(world, input).1,
            )[k] != Event::Started,
{
    let done = step(world, input).1;
    if done.len() == 1 {
        lemma_events_small(done[0], done[0]);
    } else if done.len() == 2 {
        lemma_events_small(done[0], done[1]);
    }
}

/// The front end is told once that the subsystem has started: first of all,
/// and never again in the same run.
pub proof fn lemma_started_once<S>(inputs: Seq<Input<S>>)
    ensures
        events(run(inputs)).len() >= 1,
        events(run(inputs))[0] == Event::Started,
        forall|k: int|
            1 <= k < events(run(inputs)).len() ==> #[trigger] events(run(inputs))[k]
                != Event::Started,
    decreases inputs.len(),
{
    let hello = seq![Action::<S>::Emit(Event::Started)];
    let acts = actions_after(initial::<S>(), inputs);
    lemma_events_small(hello[0], hello[0]);
    lemma_events_concat(hello, acts);
    if inputs.len() > 0 {
        let before = inputs.drop_last();
        lemma_started_once(before);
        let earlier = actions_after(initial::<S>(), before);
        lemma_events_concat(hello, earlier);
        let done = step(world_after(initial::<S>(), before), inputs.last()).1;
        lemma_events_concat(earlier, done);
        lemma_step_never_announces(world_after(initial::<S>(), before), inputs.last());
        let old_events = events(run(before));
        assert(events(run(inputs)) == old_events + events(done));
    }
}

} // verus!
