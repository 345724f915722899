//! The session's commands, called one by one.

use chat_server::codec::{Command, Request};
use chat_server::forwarding::{forward, Delivery, Forwarding};
use chat_server::registry::Registry;
use chat_server::session::{Effect, Membership, Session};

fn replies(effects: &[Effect]) -> Vec<String> {
    effects
        .iter()
        .map(|effect| match effect {
            Effect::Reply(text) => text.clone(),
            other => panic!("not a reply: {:?}", other),
        })
        .collect()
}

fn some(text: &str) -> Option<String> {
    Some(text.to_string())
}

fn joined(registry: &mut Registry, username: &str, room: &str) -> Session {
    registry.create_if_absent(room.to_string());
    let mut session = Session::new();
    session.handle_request(
        registry,
        Request {
            username: username.to_string(),
            arg: "JOINROOM".to_string(),
            msg: None,
            room: some(room),
        },
    );
    session
}

#[test]
fn a_new_session_has_no_name_and_no_room() {
    let session = Session::new();
    assert_eq!(*session.username(), None);
    assert_eq!(*session.membership(), Membership::NoRoom);
}

#[test]
fn create_room_without_a_name_is_answered_and_creates_nothing() {
    let mut registry = Registry::new();
    let effects = Session::create_room(&mut registry, None);
    assert_eq!(replies(&effects), vec!["{\"message\":\"Room name is missing!\"}\n"]);
    assert!(registry.is_empty());
}

#[test]
fn create_room_acknowledges_an_existing_room_too() {
    let mut registry = Registry::new();
    let ack = vec!["{\"message\":\"Room a b created!, now join it\"}\n".to_string()];
    assert_eq!(replies(&Session::create_room(&mut registry, some("a b"))), ack);
    assert_eq!(replies(&Session::create_room(&mut registry, some("a b"))), ack);
    assert_eq!(registry.names(), vec!["a b".to_string()]);
}

#[test]
fn list_rooms_reads_the_registry() {
    let mut registry = Registry::new();
    assert_eq!(replies(&Session::list_rooms(&registry)), vec!["{\"message\":\"No rooms\"}\n"]);
    registry.create_if_absent("one".to_string());
    registry.create_if_absent("two".to_string());
    assert_eq!(
        replies(&Session::list_rooms(&registry)),
        vec!["{\"rooms\":[\"one\",\"two\"]}\n"]
    );
}

#[test]
fn join_room_without_a_name_is_answered_and_moves_nobody() {
    let mut registry = Registry::new();
    registry.create_if_absent("lobby".to_string());
    let mut session = Session::new();
    let effects = session.join_room(&registry, None);
    assert_eq!(replies(&effects), vec!["{\"message\":\"Room name is missing!\"}\n"]);
    assert_eq!(*session.membership(), Membership::NoRoom);

    let mut session = joined(&mut registry, "alice", "lobby");
    let effects = session.join_room(&registry, None);
    assert_eq!(replies(&effects), vec!["{\"message\":\"Room name is missing!\"}\n"]);
    assert_eq!(*session.membership(), Membership::InRoom { room: "lobby".to_string() });
}

#[test]
fn join_room_keeps_the_room_when_the_next_one_is_missing() {
    let mut registry = Registry::new();
    let mut session = joined(&mut registry, "alice", "lobby");
    let effects = session.join_room(&registry, some("ghost"));
    assert_eq!(replies(&effects), vec!["{\"message\":\"Room does not exist!\"}\n"]);
    assert_eq!(*session.membership(), Membership::InRoom { room: "lobby".to_string() });
}

#[test]
fn the_first_join_cancels_nothing() {
    let mut registry = Registry::new();
    registry.create_if_absent("lobby".to_string());
    registry.publish("lobby", "old news".to_string());
    let mut session = Session::new();
    let effects = session.join_room(&registry, some("lobby"));
    assert_eq!(effects.len(), 3);
    assert_eq!(
        replies(&effects[..2]),
        vec!["{\"message\":\"You joined lobby\"}\n", "{\"history\":[\"old news\"]}\n"]
    );
    match &effects[2] {
        Effect::Forward(subscription) => assert_eq!(subscription.room(), "lobby"),
        other => panic!("not a subscription: {:?}", other),
    }
    assert_eq!(*session.membership(), Membership::InRoom { room: "lobby".to_string() });
}

#[test]
fn joining_the_same_room_again_renews_the_subscription() {
    let mut registry = Registry::new();
    let mut session = joined(&mut registry, "alice", "lobby");
    let effects = session.join_room(&registry, some("lobby"));
    assert_eq!(effects.len(), 4);
    assert!(matches!(effects[2], Effect::CancelForwarding));
    assert!(matches!(effects[3], Effect::Forward(_)));
    assert_eq!(*session.membership(), Membership::InRoom { room: "lobby".to_string() });
}

#[test]
fn send_message_needs_a_room() {
    let mut registry = Registry::new();
    registry.create_if_absent("lobby".to_string());
    let mut session = Session::new();
    let request = Request {
        username: "alice".to_string(),
        arg: "SENDMSG".to_string(),
        msg: some("hi"),
        room: None,
    };
    let effects = session.handle_request(&mut registry, request);
    assert_eq!(
        replies(&effects),
        vec!["{\"message\":\"Join a room first and set a username!\"}\n"]
    );
    assert!(registry.room("lobby").unwrap().history().is_empty());
}

#[test]
fn send_message_needs_a_username() {
    let mut registry = Registry::new();
    registry.create_if_absent("lobby".to_string());
    let mut session = Session::new();
    session.join_room(&registry, some("lobby"));
    assert_eq!(*session.username(), None);
    let effects = session.send_message(&mut registry, some("hi"));
    assert_eq!(
        replies(&effects),
        vec!["{\"message\":\"Join a room first and set a username!\"}\n"]
    );
    assert!(registry.room("lobby").unwrap().history().is_empty());
}

#[test]
fn send_message_without_a_message_is_answered_and_publishes_nothing() {
    let mut registry = Registry::new();
    let session = joined(&mut registry, "alice", "lobby");
    let effects = session.send_message(&mut registry, None);
    assert_eq!(replies(&effects), vec!["{\"message\":\"Message is missing!\"}\n"]);
    assert!(registry.room("lobby").unwrap().history().is_empty());
}

#[test]
fn send_message_without_a_room_and_a_message_is_told_to_join_first() {
    let mut registry = Registry::new();
    let mut session = Session::new();
    let effects = session.dispatch(&mut registry, Command::SendMsg, None, None);
    assert_eq!(
        replies(&effects),
        vec!["{\"message\":\"Join a room first and set a username!\"}\n"]
    );
}

#[test]
fn a_request_that_lacks_a_member_is_answered_on_the_line() {
    let mut registry = Registry::new();
    let mut session = joined(&mut registry, "alice", "lobby");
    for (line, reply) in [
        ("{\"username\":\"bob\",\"arg\":\"CREATEROOM\"}", "Room name is missing!"),
        ("{\"username\":\"bob\",\"arg\":\"joinroom\",\"room\":null}", "Room name is missing!"),
        ("{\"username\":\"bob\",\"arg\":\"SENDMSG\",\"room\":\"lobby\"}", "Message is missing!"),
    ] {
        let effects = session.handle_line(&mut registry, line);
        assert_eq!(replies(&effects), vec![format!("{{\"message\":\"{}\"}}\n", reply)]);
        assert_eq!(*session.username(), some("bob"));
        assert_eq!(*session.membership(), Membership::InRoom { room: "lobby".to_string() });
        assert_eq!(registry.names(), vec!["lobby".to_string()]);
        assert!(registry.room("lobby").unwrap().history().is_empty());
    }
}

#[test]
fn send_message_records_the_sender_and_the_text() {
    let mut registry = Registry::new();
    let session = joined(&mut registry, "alice", "lobby");
    assert!(session.send_message(&mut registry, some("a: b")).is_empty());
    assert!(session.send_message(&mut registry, some("")).is_empty());
    assert_eq!(
        *registry.room("lobby").unwrap().history(),
        vec!["alice: a: b".to_string(), "alice: ".to_string()]
    );
}

#[test]
fn send_message_to_a_room_of_another_registry_is_refused() {
    let mut registry = Registry::new();
    let session = joined(&mut registry, "alice", "lobby");
    let mut elsewhere = Registry::new();
    let effects = session.send_message(&mut elsewhere, some("hi"));
    assert_eq!(replies(&effects), vec!["{\"message\":\"Room does not exist!\"}\n"]);
    assert!(elsewhere.is_empty());
}

#[test]
fn dispatch_follows_the_command() {
    let mut registry = Registry::new();
    let mut session = Session::new();
    let effects = session.dispatch(&mut registry, Command::Unknown, some("r"), some("m"));
    assert_eq!(replies(&effects), vec!["{\"message\":\"Unknown command\"}\n"]);
    let effects = session.dispatch(&mut registry, Command::ListRooms, some("r"), some("m"));
    assert_eq!(replies(&effects), vec!["{\"message\":\"No rooms\"}\n"]);
    let effects = session.dispatch(&mut registry, Command::CreateRoom, some("r"), some("m"));
    assert_eq!(replies(&effects), vec!["{\"message\":\"Room r created!, now join it\"}\n"]);
    let effects = session.dispatch(&mut registry, Command::SendMsg, some("r"), some("m"));
    assert_eq!(
        replies(&effects),
        vec!["{\"message\":\"Join a room first and set a username!\"}\n"]
    );
    let effects = session.dispatch(&mut registry, Command::JoinRoom, some("r"), some("m"));
    assert_eq!(effects.len(), 3);
    assert_eq!(*session.username(), None);
    assert_eq!(*session.membership(), Membership::InRoom { room: "r".to_string() });
}

#[test]
fn handle_request_reads_the_command_in_any_case() {
    let mut registry = Registry::new();
    let mut session = Session::new();
    let request = Request {
        username: "alice".to_string(),
        arg: "createRoom".to_string(),
        msg: None,
        room: some("lobby"),
    };
    let effects = session.handle_request(&mut registry, request);
    assert_eq!(replies(&effects), vec!["{\"message\":\"Room lobby created!, now join it\"}\n"]);
    assert_eq!(*session.username(), some("alice"));
    assert!(registry.contains("lobby"));
}

#[test]
fn handle_line_answers_a_line_of_the_wrong_shape() {
    let mut registry = Registry::new();
    let mut session = joined(&mut registry, "alice", "lobby");
    let effects = session.handle_line(&mut registry, "{\"username\":\"bob\"}");
    assert_eq!(replies(&effects), vec!["{\"message\":\"Invalid JSON !!!\"}\n"]);
    assert_eq!(*session.username(), some("alice"));
    assert_eq!(*session.membership(), Membership::InRoom { room: "lobby".to_string() });
}

#[test]
fn forward_writes_messages_and_survives_lag() {
    assert_eq!(
        forward(Delivery::Delivered("alice: hi".to_string())),
        Forwarding::Write("{\"message\":\"alice: hi\"}\n".to_string())
    );
    assert_eq!(forward(Delivery::Lagged(3)), Forwarding::Continue);
    assert_eq!(forward(Delivery::Lagged(0)), Forwarding::Continue);
    assert_eq!(forward(Delivery::Closed), Forwarding::Stop);
}
