//! A room: its append-only history and its live fan-out channel.

use vstd::prelude::*;
use tokio::sync::broadcast::{Receiver, Sender};
use crate::channel::{
    channel_send, channel_subscribe, channel_taken, open_channel, receiver_passed,
};
use crate::text::texts;

verus! {

/// How many messages a room's channel is asked to retain for slow readers.
pub const CHANNEL_CAPACITY: usize = 10;

/// A named room.
#[derive(Debug)]
pub struct Room {
    name: String,
    history: Vec<String>,
    sender: Sender<String>,
}

/// The mathematical model of a [`Room`].
pub struct RoomView {
    /// The name the room was created under.
    pub name: Seq<char>,
    /// Every message published to the room, oldest first.
    pub history: Seq<Seq<char>>,
    /// The messages that the room's channel took in for its subscribers,
    /// oldest first: those of `history` that were published while somebody
    /// was subscribed.
    pub broadcast: Seq<Seq<char>>,
}

impl RoomView {
    /// A room right after its creation.
    pub open spec fn fresh(name: Seq<char>) -> RoomView {
        RoomView { name, history: Seq::empty(), broadcast: Seq::empty() }
    }

    /// The room after one more message, which the channel took in or not.
    pub open spec fn published(self, text: Seq<char>, queued: bool) -> RoomView {
        RoomView {
            name: self.name,
            history: self.history.push(text),
            broadcast: if queued {
                self.broadcast.push(text)
            } else {
                self.broadcast
            },
        }
    }
}

/// What the channel did with a published message.
#[derive(Debug, Clone, Copy, PartialEq, Eq, Structural)]
pub enum Fanout {
    /// The channel took the message in for this many subscribers.
    Queued(usize),
    /// Nobody is subscribed: the message is in the history only.
    NoSubscribers,
}

/// A live subscription to one room's channel.
#[derive(Debug)]
pub struct Subscription {
    room: String,
    receiver: Receiver<String>,
}

impl Subscription {
    /// The name of the room that this subscription reads from.
    pub closed spec fn room_name(&self) -> Seq<char> {
        self.room@
    }

    /// How many of the messages broadcast in the room lie behind this
    /// subscription: it yields those that follow them.
    pub closed spec fn starts_after(&self) -> nat {
        receiver_passed(self.receiver)
    }

    /// The name of the room that this subscription reads from.
    pub fn room(&self) -> (name: &String)
        ensures
            name@ == self.room_name(),
    {
        &self.room
    }

    /// Gives up the label and hands out the receiving half.
    pub fn into_receiver(self) -> (receiver: Receiver<String>)
        ensures
            receiver_passed(receiver) == self.starts_after(),
    {
        self.receiver
    }
}

impl View for Room {
    type V = RoomView;

    closed spec fn view(&self) -> RoomView {
        RoomView {
            name: self.name@,
            history: texts(self.history@),
            broadcast: channel_taken(self.sender),
        }
    }
}

impl Room {
    /// Creates a room with no history and a channel of its own.
    pub fn new(name: String) -> (room: Room)
        ensures
            room@ == RoomView::fresh(name@),
    {
        let room = Room { name, history: Vec::new(), sender: open_channel(CHANNEL_CAPACITY) };
        assert(texts(room.history@) =~= Seq::<Seq<char>>::empty());
        room
    }

    /// The room's name.
    pub fn name(&self) -> (name: &String)
        ensures
            name@ == self@.name,
    {
        &self.name
    }

    /// The room's history, oldest message first.
    pub fn history(&self) -> (history: &Vec<String>)
        ensures
            texts(history@) == self@.history,
    {
        &self.history
    }

    /// Appends a message to the history, then pushes it onto the channel.
    /// The push never waits for a subscriber.
    pub fn publish(&mut self, text: String) -> (fanout: Fanout)
        ensures
            final(self)@ == old(self)@.published(text@, fanout is Queued),
    {
        let ghost before = texts(self.history@);
        self.history.push(text.clone());
        assert(texts(self.history@) =~= before.push(text@));
        match channel_send(&mut self.sender, text) {
            Ok(receivers) => Fanout::Queued(receivers),
            Err(_) => Fanout::NoSubscribers,
        }
    }

    /// Opens a subscription that yields the messages published from now on:
    /// everything broadcast so far lies behind it. The room itself is
    /// unchanged; the history is not replayed.
    pub fn subscribe(&self) -> (subscription: Subscription)
        ensures
            subscription.room_name() == self@.name,
            subscription.starts_after() == self@.broadcast.len(),
    {
        Subscription { room: self.name.clone(), receiver: channel_subscribe(&self.sender) }
    }
}

} // verus!
