//! Whole conversations between clients and the server core, with the real
//! broadcast channel in between.

use chat_server::forwarding::{forward, Delivery, Forwarding};
use chat_server::registry::Registry;
use chat_server::session::{Effect, Membership, Session};
use tokio::sync::broadcast::error::TryRecvError;
use tokio::sync::broadcast::Receiver;

/// The line a client writes: all four members, the absent ones as `null`.
fn line(username: &str, arg: &str, room: Option<&str>, msg: Option<&str>) -> String {
    let text = |s: Option<&str>| match s {
        Some(s) => serde_json::Value::String(s.to_string()),
        None => serde_json::Value::Null,
    };
    let mut object = serde_json::Map::new();
    object.insert("username".to_string(), text(Some(username)));
    object.insert("arg".to_string(), text(Some(arg)));
    object.insert("msg".to_string(), text(msg));
    object.insert("room".to_string(), text(room));
    serde_json::Value::Object(object).to_string()
}

/// What a connection handler does with a list of effects: it writes the
/// replies to `written`, drops the live receiver on a cancellation, and
/// keeps the receiver of a new subscription.
fn carry_out(effects: Vec<Effect>, written: &mut Vec<String>, live: &mut Option<Receiver<String>>) {
    for effect in effects {
        match effect {
            Effect::Reply(text) => written.push(text),
            Effect::CancelForwarding => {
                assert!(live.is_some());
                *live = None;
            }
            Effect::Forward(subscription) => {
                assert!(live.is_none());
                *live = Some(subscription.into_receiver());
            }
        }
    }
}

/// What a forwarding task does until its channel has nothing more for it.
fn drain(live: &mut Option<Receiver<String>>, written: &mut Vec<String>) {
    let Some(receiver) = live.as_mut() else {
        return;
    };
    loop {
        let delivery = match receiver.try_recv() {
            Ok(text) => Delivery::Delivered(text),
            Err(TryRecvError::Lagged(missed)) => Delivery::Lagged(missed),
            Err(TryRecvError::Closed) => Delivery::Closed,
            Err(TryRecvError::Empty) => return,
        };
        match forward(delivery) {
            Forwarding::Write(text) => written.push(text),
            Forwarding::Continue => {}
            Forwarding::Stop => return,
        }
    }
}

/// One client as the server sees it.
struct Client {
    name: &'static str,
    session: Session,
    live: Option<Receiver<String>>,
    written: Vec<String>,
}

impl Client {
    fn new(name: &'static str) -> Client {
        Client { name, session: Session::new(), live: None, written: Vec::new() }
    }

    fn send(&mut self, registry: &mut Registry, arg: &str, room: Option<&str>, msg: Option<&str>) {
        let effects = self.session.handle_line(registry, &line(self.name, arg, room, msg));
        carry_out(effects, &mut self.written, &mut self.live);
    }

    fn raw(&mut self, registry: &mut Registry, text: &str) {
        let effects = self.session.handle_line(registry, text);
        carry_out(effects, &mut self.written, &mut self.live);
    }

    /// Everything written to the client since the last call.
    fn read(&mut self) -> Vec<String> {
        drain(&mut self.live, &mut self.written);
        std::mem::take(&mut self.written)
    }
}

#[test]
fn create_join_and_send_echoes_to_the_sender() {
    let mut registry = Registry::new();
    let mut alice = Client::new("alice");
    alice.send(&mut registry, "CREATEROOM", Some("lobby"), None);
    assert_eq!(alice.read(), vec!["{\"message\":\"Room lobby created!, now join it\"}\n"]);
    alice.send(&mut registry, "JOINROOM", Some("lobby"), None);
    assert_eq!(
        alice.read(),
        vec!["{\"message\":\"You joined lobby\"}\n", "{\"history\":[]}\n"]
    );
    alice.send(&mut registry, "SENDMSG", None, Some("hi"));
    let received = alice.read();
    assert_eq!(received, vec!["{\"message\":\"alice: hi\"}\n"]);
    assert!(received[0].contains("alice: hi"));
}

#[test]
fn a_message_reaches_every_client_in_the_room() {
    let mut registry = Registry::new();
    let mut one = Client::new("client1");
    let mut two = Client::new("client2");
    one.send(&mut registry, "CREATEROOM", Some("lobby"), None);
    one.send(&mut registry, "JOINROOM", Some("lobby"), None);
    two.send(&mut registry, "JOINROOM", Some("lobby"), None);
    one.read();
    two.read();
    one.send(&mut registry, "SENDMSG", None, Some("hello"));
    assert_eq!(one.read(), vec!["{\"message\":\"client1: hello\"}\n"]);
    assert_eq!(two.read(), vec!["{\"message\":\"client1: hello\"}\n"]);
}

#[test]
fn listing_before_and_after_the_first_room() {
    let mut registry = Registry::new();
    let mut alice = Client::new("alice");
    alice.send(&mut registry, "LISTROOMS", None, None);
    assert_eq!(alice.read(), vec!["{\"message\":\"No rooms\"}\n"]);
    alice.send(&mut registry, "CREATEROOM", Some("x"), None);
    alice.read();
    alice.send(&mut registry, "LISTROOMS", None, None);
    assert_eq!(alice.read(), vec!["{\"rooms\":[\"x\"]}\n"]);
}

#[test]
fn joining_a_room_that_was_never_created() {
    let mut registry = Registry::new();
    let mut alice = Client::new("alice");
    alice.send(&mut registry, "JOINROOM", Some("ghost"), None);
    assert_eq!(alice.read(), vec!["{\"message\":\"Room does not exist!\"}\n"]);
    assert_eq!(*alice.session.membership(), Membership::NoRoom);
    assert!(alice.live.is_none());
    assert!(registry.is_empty());
}

#[test]
fn a_broken_line_is_answered_and_the_connection_goes_on() {
    let mut registry = Registry::new();
    let mut alice = Client::new("alice");
    alice.raw(&mut registry, "this is not json");
    assert_eq!(alice.read(), vec!["{\"message\":\"Invalid JSON !!!\"}\n"]);
    assert_eq!(*alice.session.username(), None);
    assert_eq!(*alice.session.membership(), Membership::NoRoom);
    assert!(registry.is_empty());
    alice.send(&mut registry, "CREATEROOM", Some("lobby"), None);
    assert_eq!(alice.read(), vec!["{\"message\":\"Room lobby created!, now join it\"}\n"]);
    assert!(registry.contains("lobby"));
}

#[test]
fn creating_a_room_twice_leaves_one_room() {
    let mut registry = Registry::new();
    let mut alice = Client::new("alice");
    let mut bob = Client::new("bob");
    alice.send(&mut registry, "CREATEROOM", Some("lobby"), None);
    alice.send(&mut registry, "JOINROOM", Some("lobby"), None);
    alice.send(&mut registry, "SENDMSG", None, Some("first"));
    bob.send(&mut registry, "CREATEROOM", Some("lobby"), None);
    assert_eq!(bob.read(), vec!["{\"message\":\"Room lobby created!, now join it\"}\n"]);
    assert_eq!(registry.len(), 1);
    assert_eq!(registry.names(), vec!["lobby".to_string()]);
    let history: Vec<String> = registry.room("lobby").unwrap().history().clone();
    assert_eq!(history, vec!["alice: first".to_string()]);
}

#[test]
fn listing_names_every_room_once() {
    let mut registry = Registry::new();
    let mut alice = Client::new("alice");
    for name in ["x", "y", "x", "z", "y"] {
        alice.send(&mut registry, "CREATEROOM", Some(name), None);
    }
    alice.read();
    alice.send(&mut registry, "LISTROOMS", None, None);
    assert_eq!(alice.read(), vec!["{\"rooms\":[\"x\",\"y\",\"z\"]}\n"]);
}

#[test]
fn history_keeps_the_order_of_the_requests() {
    let mut registry = Registry::new();
    let mut alice = Client::new("alice");
    let mut bob = Client::new("bob");
    let mut carol = Client::new("carol");
    alice.send(&mut registry, "CREATEROOM", Some("lobby"), None);
    alice.send(&mut registry, "JOINROOM", Some("lobby"), None);
    bob.send(&mut registry, "JOINROOM", Some("lobby"), None);
    alice.send(&mut registry, "SENDMSG", None, Some("1"));
    bob.send(&mut registry, "SENDMSG", None, Some("2"));
    alice.send(&mut registry, "SENDMSG", None, Some("3"));
    carol.send(&mut registry, "JOINROOM", Some("lobby"), None);
    assert_eq!(
        carol.read(),
        vec![
            "{\"message\":\"You joined lobby\"}\n",
            "{\"history\":[\"alice: 1\",\"bob: 2\",\"alice: 3\"]}\n",
        ]
    );
    let expected = vec![
        "{\"message\":\"alice: 1\"}\n",
        "{\"message\":\"bob: 2\"}\n",
        "{\"message\":\"alice: 3\"}\n",
    ];
    assert_eq!(bob.read()[2..], expected[..]);
}

#[test]
fn a_joiner_gets_the_history_and_then_only_later_messages() {
    let mut registry = Registry::new();
    let mut alice = Client::new("alice");
    let mut bob = Client::new("bob");
    alice.send(&mut registry, "CREATEROOM", Some("lobby"), None);
    alice.send(&mut registry, "JOINROOM", Some("lobby"), None);
    alice.send(&mut registry, "SENDMSG", None, Some("early"));
    bob.send(&mut registry, "JOINROOM", Some("lobby"), None);
    alice.send(&mut registry, "SENDMSG", None, Some("late"));
    assert_eq!(
        bob.read(),
        vec![
            "{\"message\":\"You joined lobby\"}\n",
            "{\"history\":[\"alice: early\"]}\n",
            "{\"message\":\"alice: late\"}\n",
        ]
    );
}

#[test]
fn a_message_stays_in_its_room() {
    let mut registry = Registry::new();
    let mut alice = Client::new("alice");
    let mut bob = Client::new("bob");
    alice.send(&mut registry, "CREATEROOM", Some("a"), None);
    alice.send(&mut registry, "CREATEROOM", Some("b"), None);
    alice.send(&mut registry, "JOINROOM", Some("a"), None);
    bob.send(&mut registry, "JOINROOM", Some("b"), None);
    alice.read();
    bob.read();
    alice.send(&mut registry, "SENDMSG", None, Some("for a"));
    assert_eq!(alice.read(), vec!["{\"message\":\"alice: for a\"}\n"]);
    assert!(bob.read().is_empty());
    assert!(registry.room("b").unwrap().history().is_empty());
    assert_eq!(*registry.room("a").unwrap().history(), vec!["alice: for a".to_string()]);
}

#[test]
fn switching_rooms_ends_the_earlier_subscription() {
    let mut registry = Registry::new();
    let mut alice = Client::new("alice");
    let mut bob = Client::new("bob");
    alice.send(&mut registry, "CREATEROOM", Some("a"), None);
    alice.send(&mut registry, "CREATEROOM", Some("b"), None);
    alice.send(&mut registry, "JOINROOM", Some("a"), None);
    bob.send(&mut registry, "JOINROOM", Some("a"), None);
    alice.read();
    bob.read();

    let effects = alice.session.handle_line(&mut registry, &line("alice", "JOINROOM", Some("b"), None));
    assert_eq!(effects.len(), 4);
    assert!(matches!(effects[0], Effect::Reply(_)));
    assert!(matches!(effects[1], Effect::Reply(_)));
    assert!(matches!(effects[2], Effect::CancelForwarding));
    match &effects[3] {
        Effect::Forward(subscription) => assert_eq!(subscription.room(), "b"),
        _ => panic!("the new subscription comes last"),
    }
    carry_out(effects, &mut alice.written, &mut alice.live);
    assert_eq!(*alice.session.membership(), Membership::InRoom { room: "b".to_string() });
    alice.read();

    bob.send(&mut registry, "SENDMSG", None, Some("still in a"));
    assert_eq!(bob.read(), vec!["{\"message\":\"bob: still in a\"}\n"]);
    assert!(alice.read().is_empty());

    alice.send(&mut registry, "SENDMSG", None, Some("now in b"));
    assert_eq!(alice.read(), vec!["{\"message\":\"alice: now in b\"}\n"]);
    assert!(bob.read().is_empty());
}

#[test]
fn the_username_of_the_latest_request_counts() {
    let mut registry = Registry::new();
    let mut client = Client::new("alice");
    client.send(&mut registry, "CREATEROOM", Some("lobby"), None);
    client.send(&mut registry, "JOINROOM", Some("lobby"), None);
    client.read();
    client.name = "bob";
    client.send(&mut registry, "SENDMSG", None, Some("yo"));
    assert_eq!(client.read(), vec!["{\"message\":\"bob: yo\"}\n"]);
    client.name = "carol";
    client.send(&mut registry, "DANCE", None, None);
    assert_eq!(client.read(), vec!["{\"message\":\"Unknown command\"}\n"]);
    assert_eq!(*client.session.username(), Some("carol".to_string()));
}

#[test]
fn a_slow_subscriber_skips_what_it_missed() {
    let mut registry = Registry::new();
    let mut alice = Client::new("alice");
    let mut bob = Client::new("bob");
    alice.send(&mut registry, "CREATEROOM", Some("lobby"), None);
    alice.send(&mut registry, "JOINROOM", Some("lobby"), None);
    bob.send(&mut registry, "JOINROOM", Some("lobby"), None);
    bob.read();
    for i in 0..20 {
        alice.send(&mut registry, "SENDMSG", None, Some(&format!("m{}", i)));
    }
    let receiver = bob.live.as_mut().unwrap();
    assert_eq!(receiver.try_recv(), Err(TryRecvError::Lagged(4)));
    assert_eq!(forward(Delivery::Lagged(4)), Forwarding::Continue);
    let received = bob.read();
    assert_eq!(received.len(), 16);
    assert_eq!(received[0], "{\"message\":\"alice: m4\"}\n");
    assert_eq!(received[15], "{\"message\":\"alice: m19\"}\n");
    assert_eq!(registry.room("lobby").unwrap().history().len(), 20);
}

#[test]
fn forwarding_stops_when_the_room_is_gone() {
    let mut registry = Registry::new();
    let mut alice = Client::new("alice");
    alice.send(&mut registry, "CREATEROOM", Some("lobby"), None);
    alice.send(&mut registry, "JOINROOM", Some("lobby"), None);
    drop(registry);
    let receiver = alice.live.as_mut().unwrap();
    assert_eq!(receiver.try_recv(), Err(TryRecvError::Closed));
    assert_eq!(forward(Delivery::Closed), Forwarding::Stop);
}

#[test]
fn disconnecting_cancels_the_subscription() {
    let mut registry = Registry::new();
    let mut alice = Client::new("alice");
    assert!(alice.session.disconnect().is_empty());
    alice.send(&mut registry, "CREATEROOM", Some("lobby"), None);
    alice.send(&mut registry, "JOINROOM", Some("lobby"), None);
    let effects = alice.session.disconnect();
    assert_eq!(effects.len(), 1);
    assert!(matches!(effects[0], Effect::CancelForwarding));
    assert_eq!(*alice.session.membership(), Membership::NoRoom);
    assert!(alice.session.disconnect().is_empty());
}
