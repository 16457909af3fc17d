//! What the subsystem needs of a channel that carries its requests or its
//! events, whatever channel the embedding program uses for it.
//!
//! A channel holds what was sent and not yet received, oldest first, and never
//! more than its capacity. A sender that finds it full gets its item back and
//! has to wait for the receiver: delivery stalls, nothing is dropped. A
//! sender that waits offers the same item again until it is taken, and so a
//! receiver that is slow at times loses nothing and sees nothing twice.
//!
//! [`Channel`] is such a channel for a program without tasks, and the one
//! that the laws here are stated of.

use std::collections::VecDeque;
use vstd::prelude::*;

verus! {

/// The slots of the channel that carries requests to the request loop.
pub const REQUEST_CHANNEL_CAPACITY: usize = 4;

/// The slots of the channel that carries events out of the subsystem.
pub const EVENT_CHANNEL_CAPACITY: usize = 4;

/// The slots of the channel that hands the events to the front end.
pub const SUBSCRIPTION_CHANNEL_CAPACITY: usize = 1;

/// A bounded first-in, first-out channel.
pub struct Channel<T> {
    capacity: usize,
    queue: VecDeque<T>,
}

/// One use of a channel.
pub enum ChannelOp<T> {
    /// An attempt to send the item.
    Send(T),
    /// An attempt to receive.
    Recv,
}

/// What a channel of `capacity` slots holds after `op`, if it held `queue`.
pub open spec fn queue_after_op<T>(capacity: nat, queue: Seq<T>, op: ChannelOp<T>) -> Seq<T> {
    match op {
        ChannelOp::Send(item) => if queue.len() < capacity {
            queue.push(item)
        } else {
            queue
        },
        ChannelOp::Recv => if queue.len() > 0 {
            queue.drop_first()
        } else {
            queue
        },
    }
}

/// What a channel that starts empty holds after `ops`.
pub open spec fn queue_after<T>(capacity: nat, ops: Seq<ChannelOp<T>>) -> Seq<T>
    decreases ops.len(),
{
    if ops.len() == 0 {
        Seq::empty()
    } else {
        queue_after_op(capacity, queue_after(capacity, ops.drop_last()), ops.last())
    }
}

/// The items that a channel that starts empty accepts in the course of `ops`,
/// in the order of sending.
pub open spec fn accepted<T>(capacity: nat, ops: Seq<ChannelOp<T>>) -> Seq<T>
    decreases ops.len(),
{
    if ops.len() == 0 {
        Seq::empty()
    } else {
        let before = accepted(capacity, ops.drop_last());
        match ops.last() {
            ChannelOp::Send(item) => if queue_after(capacity, ops.drop_last()).len() < capacity {
                before.push(item)
            } else {
                before
            },
            ChannelOp::Recv => before,
        }
    }
}

/// The items that a channel that starts empty hands out in the course of
/// `ops`, in the order of receiving.
pub open spec fn delivered<T>(capacity: nat, ops: Seq<ChannelOp<T>>) -> Seq<T>
    decreases ops.len(),
{
    if ops.len() == 0 {
        Seq::empty()
    } else {
        let before = delivered(capacity, ops.drop_last());
        let queue = queue_after(capacity, ops.drop_last());
        match ops.last() {
            ChannelOp::Send(_) => before,
            ChannelOp::Recv => if queue.len() > 0 {
                before.push(queue.first())
            } else {
                before
            },
        }
    }
}

/// The uses of a channel by a sender that sends `items` one by one while the
/// receiver takes each item before the next is sent.
pub open spec fn drained<T>(items: Seq<T>) -> Seq<ChannelOp<T>>
    decreases items.len(),
{
    if items.len() == 0 {
        Seq::empty()
    } else {
        drained(items.drop_last()).push(ChannelOp::Send(items.last())).push(ChannelOp::Recv)
    }
}

/// A channel as a mathematical value.
pub struct ChannelView<T> {
    /// What was sent and not yet received, oldest first.
    pub queue: Seq<T>,
    /// The number of items that the channel holds at most.
    pub capacity: nat,
}

impl<T> ChannelView<T> {
    /// The channel after one use of it.
    pub open spec fn after(self, op: ChannelOp<T>) -> ChannelView<T> {
        ChannelView { queue: queue_after_op(self.capacity, self.queue, op), ..self }
    }
}

impl<T> Channel<T> {
    #[verifier::type_invariant]
    spec fn within_capacity(&self) -> bool {
        self.queue@.len() <= self.capacity
    }

    /// What the channel holds, and how much it holds at most.
    pub closed spec fn view(&self) -> ChannelView<T> {
        ChannelView { queue: self.queue@, capacity: self.capacity as nat }
    }

    /// An empty channel of `capacity` slots.
    pub fn new(capacity: usize) -> (channel: Self)
        ensures
            channel@ == (ChannelView { queue: Seq::<T>::empty(), capacity: capacity as nat }),
    {
        Channel { capacity, queue: VecDeque::new() }
    }

    /// The number of items that the channel holds at most.
    pub fn capacity(&self) -> (capacity: usize)
        ensures
            capacity == self@.capacity,
    {
        self.capacity
    }

    /// The number of items that wait to be received.
    pub fn len(&self) -> (len: usize)
        ensures
            len == self@.queue.len(),
            len <= self@.capacity,
    {
        proof {
            use_type_invariant(self);
        }
        self.queue.len()
    }

    /// Whether nothing waits to be received.
    pub fn is_empty(&self) -> (empty: bool)
        ensures
            empty == (self@.queue.len() == 0),
    {
        self.queue.len() == 0
    }

    /// Whether a sender has to wait.
    pub fn is_full(&self) -> (full: bool)
        ensures
            full == (self@.queue.len() >= self@.capacity),
    {
        self.queue.len() >= self.capacity
    }

    /// Sends the item if a slot is free. A full channel is left as it is and
    /// hands the item back, for the sender to try again later.
    pub fn try_send(&mut self, item: T) -> (sent: Result<(), T>)
        ensures
            final(self)@ == old(self)@.after(ChannelOp::Send(item)),
            old(self)@.queue.len() < old(self)@.capacity ==> sent is Ok,
            old(self)@.queue.len() >= old(self)@.capacity ==> sent == Err::<(), T>(item),
    {
        proof {
            use_type_invariant(&*self);
        }
        if self.queue.len() < self.capacity {
            let mut queue = VecDeque::new();
            core::mem::swap(&mut self.queue, &mut queue);
            queue.push_back(item);
            core::mem::swap(&mut self.queue, &mut queue);
            Ok(())
        } else {
            Err(item)
        }
    }

    /// Takes the oldest item that waits, if there is one.
    pub fn recv(&mut self) -> (item: Option<T>)
        ensures
            final(self)@ == old(self)@.after(ChannelOp::Recv),
            old(self)@.queue.len() == 0 ==> item is None,
            old(self)@.queue.len() > 0 ==> item == Some(old(self)@.queue.first()),
    {
        proof {
            use_type_invariant(&*self);
        }
        let mut queue = VecDeque::new();
        core::mem::swap(&mut self.queue, &mut queue);
        let item = queue.pop_front();
        core::mem::swap(&mut self.queue, &mut queue);
        item
    }
}

/// A channel never holds more than its capacity.
pub proof fn lemma_channel_bounded<T>(capacity: nat, ops: Seq<ChannelOp<T>>)
    ensures
        queue_after(capacity, ops).len() <= capacity,
    decreases ops.len(),
{
    if ops.len() > 0 {
        lemma_channel_bounded(capacity, ops.drop_last());
    }
}

/// What a channel has handed out, followed by what it still holds, is what it
/// has accepted: items come out in the order in which they went in, none is
/// lost, none comes twice.
pub proof fn lemma_channel_fifo<T>(capacity: nat, ops: Seq<ChannelOp<T>>)
    ensures
        delivered(capacity, ops) + queue_after(capacity, ops) == accepted(capacity, ops),
    decreases ops.len(),
{
    if ops.len() > 0 {
        lemma_channel_fifo(capacity, ops.drop_last());
    }
}

/// A channel with at least one slot whose receiver keeps up accepts and
/// delivers everything that is sent, in the order of sending.
pub proof fn lemma_channel_drained_delivers_all<T>(capacity: nat, items: Seq<T>)
    requires
        capacity >= 1,
    ensures
        delivered(capacity, drained(items)) == items,
        accepted(capacity, drained(items)) == items,
        queue_after(capacity, drained(items)) == Seq::<T>::empty(),
    decreases items.len(),
{
    if items.len() > 0 {
        lemma_channel_drained_delivers_all(capacity, items.drop_last());
        let before = drained(items.drop_last());
        let sent = before.push(ChannelOp::Send(items.last()));
        let ops = sent.push(ChannelOp::Recv);
        assert(sent.drop_last() == before);
        assert(ops.drop_last() == sent);
        assert(accepted(capacity, sent) == items.drop_last().push(items.last()));
        assert(delivered(capacity, sent) == items.drop_last());
    }
}

/// Whose turn it is at a channel.
pub enum Turn {
    /// The sender offers the next of its items. If the channel is full, the
    /// sender keeps the item and offers it again at its next turn.
    Sender,
    /// The receiver takes the oldest item, if one waits.
    Receiver,
}

/// The number of its `items` that a waiting sender has handed over to a
/// channel that starts empty, after the given turns.
pub open spec fn handed_over<T>(capacity: nat, items: Seq<T>, turns: Seq<Turn>) -> nat
    decreases turns.len(),
{
    if turns.len() == 0 {
        0
    } else {
        let before = handed_over(capacity, items, turns.drop_last());
        match turns.last() {
            Turn::Sender => if before < items.len() && queue_after(
                capacity,
                uses(capacity, items, turns.drop_last()),
            ).len() < capacity {
                before + 1
            } else {
                before
            },
            Turn::Receiver => before,
        }
    }
}

/// The uses that are made of a channel when a waiting sender with `items`
/// and a receiver take the given turns: at a sender's turn the first item
/// not yet handed over is sent, at a receiver's turn one is received.
pub open spec fn uses<T>(capacity: nat, items: Seq<T>, turns: Seq<Turn>) -> Seq<ChannelOp<T>>
    decreases turns.len(),
{
    if turns.len() == 0 {
        Seq::empty()
    } else {
        let before = uses(capacity, items, turns.drop_last());
        let next = handed_over(capacity, items, turns.drop_last());
        match turns.last() {
            Turn::Sender => if next < items.len() {
                before.push(ChannelOp::Send(items[next as int]))
            } else {
                before
            },
            Turn::Receiver => before.push(ChannelOp::Recv),
        }
    }
}

/// A sender that waits for room loses nothing, however slow the receiver
/// and however small the channel: at any moment, what the receiver has got,
/// followed by what the channel holds, is what the sender has handed over,
/// and that is the first so many of its items, each once and in order. When
/// all items are handed over and the channel is drained, the receiver has
/// got exactly the items of the sender.
pub proof fn lemma_waiting_sender_loses_nothing<T>(
    capacity: nat,
    items: Seq<T>,
    turns: Seq<Turn>,
)
    ensures
        handed_over(capacity, items, turns) <= items.len(),
        accepted(capacity, uses(capacity, items, turns)) == items.take(
            handed_over(capacity, items, turns) as int,
        ),
        delivered(capacity, uses(capacity, items, turns)) + queue_after(
            capacity,
            uses(capacity, items, turns),
        ) == items.take(handed_over(capacity, items, turns) as int),
        handed_over(capacity, items, turns) == items.len() && queue_after(
            capacity,
            uses(capacity, items, turns),
        ).len() == 0 ==> delivered(capacity, uses(capacity, items, turns)) == items,
    decreases turns.len(),
{
    let ops = uses(capacity, items, turns);
    lemma_channel_fifo(capacity, ops);
    if turns.len() > 0 {
        let earlier = uses(capacity, items, turns.drop_last());
        let next = handed_over(capacity, items, turns.drop_last());
        lemma_waiting_sender_loses_nothing(capacity, items, turns.drop_last());
        if turns.last() is Receiver || next < items.len() {
            assert(ops.drop_last() == earlier);
        }
        if turns.last() is Sender && next < items.len() {
            assert(items.take(next as int).push(items[next as int]) == items.take(
                (next + 1) as int,
            ));
        }
    }
    let handed = handed_over(capacity, items, turns);
    if handed == items.len() {
        assert(items.take(handed as int) == items);
    }
}

/// A sender whose turn comes while the channel has room hands its next item
/// over: with one slot or more, a receiver that takes what it is given
/// makes room for every item in the end.
pub proof fn lemma_room_lets_the_sender_on<T>(capacity: nat, items: Seq<T>, turns: Seq<Turn>)
    requires
        handed_over(capacity, items, turns) < items.len(),
        queue_after(capacity, uses(capacity, items, turns)).len() < capacity,
    ensures
        handed_over(capacity, items, turns.push(Turn::Sender)) == handed_over(
            capacity,
            items,
            turns,
        ) + 1,
{
    assert(turns.push(Turn::Sender).drop_last() == turns);
}

} // verus!
