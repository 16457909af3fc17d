use cosmic_launcher::subscriptions::launcher::channel::{
    Channel, EVENT_CHANNEL_CAPACITY, REQUEST_CHANNEL_CAPACITY, SUBSCRIPTION_CHANNEL_CAPACITY,
};
use cosmic_launcher::subscriptions::launcher::Event;
use cosmic_launcher::protocol::Response;

#[test]
fn channel_capacities() {
    assert_eq!(REQUEST_CHANNEL_CAPACITY, 4);
    assert_eq!(EVENT_CHANNEL_CAPACITY, 4);
    assert_eq!(SUBSCRIPTION_CHANNEL_CAPACITY, 1);
}

#[test]
fn new_channel_is_empty() {
    let channel: Channel<Event> = Channel::new(EVENT_CHANNEL_CAPACITY);
    assert_eq!(channel.capacity(), 4);
    assert_eq!(channel.len(), 0);
    assert!(channel.is_empty());
    assert!(!channel.is_full());
}

#[test]
fn channel_is_first_in_first_out() {
    let mut channel = Channel::new(3);
    assert_eq!(channel.try_send(1), Ok(()));
    assert_eq!(channel.try_send(2), Ok(()));
    assert_eq!(channel.try_send(3), Ok(()));
    assert_eq!(channel.recv(), Some(1));
    assert_eq!(channel.try_send(4), Ok(()));
    assert_eq!(channel.recv(), Some(2));
    assert_eq!(channel.recv(), Some(3));
    assert_eq!(channel.recv(), Some(4));
    assert_eq!(channel.recv(), None);
}

#[test]
fn full_channel_hands_the_item_back() {
    let mut channel = Channel::new(2);
    assert_eq!(channel.try_send('a'), Ok(()));
    assert_eq!(channel.try_send('b'), Ok(()));
    assert!(channel.is_full());
    assert_eq!(channel.try_send('c'), Err('c'));
    assert_eq!(channel.len(), 2);
    assert_eq!(channel.recv(), Some('a'));
    assert_eq!(channel.try_send('c'), Ok(()));
    assert_eq!(channel.recv(), Some('b'));
    assert_eq!(channel.recv(), Some('c'));
    assert!(channel.is_empty());
}

#[test]
fn channel_without_slots_accepts_nothing() {
    let mut channel = Channel::new(0);
    assert!(channel.is_full());
    assert!(channel.is_empty());
    assert_eq!(channel.try_send(1), Err(1));
    assert_eq!(channel.recv(), None);
}

#[test]
fn drained_channel_of_one_slot_delivers_everything() {
    let mut channel = Channel::new(1);
    let events = vec![
        Event::Started,
        Event::Response(Response::Fill(String::from("a"))),
        Event::Response(Response::Close),
        Event::ServiceClosed,
    ];
    let mut seen = Vec::new();
    for event in events.clone() {
        assert_eq!(channel.try_send(event), Ok(()));
        seen.extend(channel.recv());
    }
    assert_eq!(seen, events);
}

/// Sends the items through a channel of the given capacity with a sender
/// that offers a refused item again, and a receiver that only takes an
/// item at every `pace`-th turn until the sender is done, and then drains.
fn through_a_slow_receiver(items: Vec<Event>, capacity: usize, pace: usize) -> (Vec<Event>, u32) {
    let mut channel = Channel::new(capacity);
    let mut seen = Vec::new();
    let mut refused = 0;
    let mut waiting: Option<Event> = None;
    let mut rest = items.into_iter();
    let mut turn = 0;
    loop {
        turn += 1;
        if waiting.is_none() {
            waiting = rest.next();
        }
        match waiting.take() {
            Some(event) => {
                if let Err(back) = channel.try_send(event) {
                    refused += 1;
                    waiting = Some(back);
                }
            }
            None => break,
        }
        if turn % pace == 0 {
            seen.extend(channel.recv());
        }
        assert!(channel.len() <= capacity);
    }
    while let Some(event) = channel.recv() {
        seen.push(event);
    }
    (seen, refused)
}

fn relayed(n: u32) -> Vec<Event> {
    let mut events = vec![Event::Started];
    events.extend((0..n).map(|i| Event::Response(Response::Fill(format!("{}", i)))));
    events
}

#[test]
fn slow_receiver_gets_every_response_once_and_in_order() {
    for capacity in 1..=4 {
        for pace in 1..=5 {
            let (seen, refused) = through_a_slow_receiver(relayed(20), capacity, pace);
            assert_eq!(seen, relayed(20));
            if pace > 1 {
                assert!(refused > 0);
            }
        }
    }
}

#[test]
fn full_channel_refuses_until_the_receiver_makes_room() {
    let (seen, refused) = through_a_slow_receiver(relayed(3), 1, 3);
    assert_eq!(seen, relayed(3));
    assert_eq!(refused, 6);
}
