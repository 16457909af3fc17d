use cosmic_launcher::app::{CosmicLauncher, Effect, Message};
use cosmic_launcher::protocol::{Response, SearchResult};
use cosmic_launcher::subscriptions::launcher::channel::{Channel, EVENT_CHANNEL_CAPACITY};
use cosmic_launcher::subscriptions::launcher::relay::Relay;
use cosmic_launcher::subscriptions::launcher::supervisor::{bring_up, Directive, Supervisor};
use cosmic_launcher::subscriptions::launcher::{BackendRequest, Event, Request, Signal};

/// The whole launcher around a stand-in for the search service: the front
/// end, the request loop, the relay of the live session and the event
/// channel between them.
struct Desk {
    front: CosmicLauncher,
    supervisor: Supervisor<u32>,
    relay: Option<Relay>,
    events: Channel<Event>,
    spawned: u32,
    written: Vec<(u32, BackendRequest)>,
    terminated: Vec<u32>,
    seen: Vec<Event>,
}

impl Desk {
    fn new() -> Self {
        let (supervisor, started) = bring_up();
        let mut desk = Desk {
            front: CosmicLauncher::init(0),
            supervisor,
            relay: None,
            events: Channel::new(EVENT_CHANNEL_CAPACITY),
            spawned: 0,
            written: Vec::new(),
            terminated: Vec::new(),
            seen: Vec::new(),
        };
        assert_eq!(desk.events.try_send(started), Ok(()));
        desk.drain();
        desk
    }

    fn signal(&mut self, signal: Signal) {
        let mut directive = self.supervisor.handle(signal);
        loop {
            directive = match directive {
                Directive::Spawn(message) => {
                    self.spawned += 1;
                    self.relay = Some(Relay::new());
                    self.supervisor.spawn_finished(message, Some(self.spawned))
                }
                Directive::Forward(message) => {
                    let session = *self.supervisor.session_mut().expect("a live session");
                    self.written.push((session, message));
                    return;
                }
                Directive::Terminate(session) => {
                    if let Some(relay) = self.relay.as_mut() {
                        relay.kill();
                    }
                    self.terminated.push(session);
                    return;
                }
                Directive::Release(_) | Directive::Idle => return,
            };
        }
    }

    fn perform(&mut self, effects: Vec<Effect>) {
        for effect in effects {
            match effect {
                Effect::Request(request) => self.signal(Signal::Request(request)),
                Effect::ServiceClosed => self.signal(Signal::ServiceClosed),
                _ => {}
            }
        }
    }

    fn message(&mut self, message: Message) {
        let effects = self.front.update(message, 0);
        self.perform(effects);
    }

    /// The front end takes what waits in the event channel.
    fn drain(&mut self) {
        while let Some(event) = self.events.recv() {
            self.seen.push(event.clone());
            self.message(Message::LauncherEvent(event));
        }
    }

    /// The search service writes a response, or closes its output.
    fn backend(&mut self, item: Option<Response>) {
        let event = match self.relay.as_mut() {
            Some(relay) => relay.on_item(item),
            None => None,
        };
        if let Some(event) = event {
            assert_eq!(self.events.try_send(event), Ok(()));
        }
        self.drain();
    }
}

fn firefox() -> SearchResult {
    SearchResult {
        id: 1,
        name: String::from("Firefox"),
        description: String::from("Web Browser"),
        icon: None,
        category_icon: None,
        window: None,
    }
}

#[test]
fn searching_for_fire_shows_firefox() {
    let mut desk = Desk::new();
    assert_eq!(desk.seen, vec![Event::Started]);
    assert_eq!(desk.written, vec![(1, BackendRequest::Search(String::new()))]);
    desk.message(Message::InputChanged(String::from("fire")));
    assert_eq!(
        desk.written,
        vec![
            (1, BackendRequest::Search(String::new())),
            (1, BackendRequest::Search(String::from("fire"))),
        ]
    );
    desk.backend(Some(Response::Update(vec![firefox()])));
    assert_eq!(
        desk.seen,
        vec![Event::Started, Event::Response(Response::Update(vec![firefox()]))]
    );
    assert_eq!(desk.front.launcher_items(), &vec![firefox()]);
    assert_eq!(desk.spawned, 1);
}

#[test]
fn activating_then_hiding_ends_the_session() {
    let mut desk = Desk::new();
    desk.backend(Some(Response::Update(vec![firefox()])));
    desk.message(Message::Activate(Some(0)));
    desk.message(Message::Hide);
    assert_eq!(
        desk.written,
        vec![
            (1, BackendRequest::Search(String::new())),
            (1, BackendRequest::Activate(1)),
        ]
    );
    assert_eq!(desk.terminated, vec![1]);
    let before = desk.seen.len();
    desk.backend(Some(Response::Update(Vec::new())));
    desk.backend(None);
    assert_eq!(desk.seen.len(), before);
    assert_eq!(desk.front.launcher_items(), &vec![firefox()]);
}

#[test]
fn a_crashed_service_is_started_again_by_the_next_request() {
    let mut desk = Desk::new();
    desk.backend(Some(Response::Fill(String::from("a"))));
    desk.backend(Some(Response::Fill(String::from("b"))));
    desk.backend(None);
    desk.backend(None);
    assert_eq!(
        desk.seen,
        vec![
            Event::Started,
            Event::Response(Response::Fill(String::from("a"))),
            Event::Response(Response::Fill(String::from("b"))),
            Event::ServiceClosed,
        ]
    );
    assert!(!desk.supervisor.is_active());
    assert_eq!(desk.spawned, 1);
    desk.message(Message::InputChanged(String::from("x")));
    desk.message(Message::InputChanged(String::from("xy")));
    assert_eq!(desk.spawned, 2);
    assert!(desk.terminated.is_empty());
    assert_eq!(
        desk.written.last(),
        Some(&(2, BackendRequest::Search(String::from("xy"))))
    );
    assert_eq!(desk.seen.iter().filter(|e| **e == Event::Started).count(), 1);
}

#[test]
fn requests_pass_through_unchanged() {
    let mut desk = Desk::new();
    desk.signal(Signal::Request(Request::Context(7)));
    desk.signal(Signal::Request(Request::ActivateContext(7, 2)));
    desk.signal(Signal::Request(Request::Complete(9)));
    assert_eq!(
        desk.written[1..],
        [
            (1, BackendRequest::Context(7)),
            (1, BackendRequest::ActivateContext { id: 7, context: 2 }),
            (1, BackendRequest::Complete(9)),
        ]
    );
}
