//! The per-connection state machine.
//!
//! A session owns no socket and runs no task. It is handed each line that
//! its connection received, changes itself and the registry, and returns the
//! effects that the connection handler must carry out, in order.

use vstd::prelude::*;
use crate::codec::{
    command_of, decode, encode_history, encode_message, encode_rooms, history_line, message_line,
    optional_text, rooms_line, Command, Request, RequestView, INVALID_JSON, JOIN_FIRST,
    MESSAGE_MISSING, NO_ROOMS, ROOM_MISSING, ROOM_NAME_MISSING, UNKNOWN_COMMAND,
};
use crate::registry::{
    created, distinct_names, has_room, position, published, room_names, Registry,
};
use crate::room::{RoomView, Subscription};
use crate::text::uppercase;

verus! {

/// Which room a session is in.
#[derive(Debug, PartialEq, Eq)]
pub enum Membership {
    /// The session has joined no room yet.
    NoRoom,
    /// The session is subscribed to this room, and to no other.
    InRoom { room: String },
}

/// The mathematical model of a [`Membership`].
pub enum MembershipView {
    NoRoom,
    InRoom { room: Seq<char> },
}

impl View for Membership {
    type V = MembershipView;

    open spec fn view(&self) -> MembershipView {
        match self {
            Membership::NoRoom => MembershipView::NoRoom,
            Membership::InRoom { room } => MembershipView::InRoom { room: room@ },
        }
    }
}

/// Something the connection handler must do for a session.
#[derive(Debug)]
pub enum Effect {
    /// Write this line to the connection.
    Reply(String),
    /// Stop forwarding from the subscription that was handed out last.
    CancelForwarding,
    /// Start forwarding what this subscription yields to the connection.
    Forward(Subscription),
}

/// The mathematical model of an [`Effect`].
pub enum EffectView {
    Reply(Seq<char>),
    CancelForwarding,
    /// A subscription to `room` that yields what is broadcast there after
    /// the first `after` messages.
    Forward { room: Seq<char>, after: nat },
}

impl View for Effect {
    type V = EffectView;

    open spec fn view(&self) -> EffectView {
        match self {
            Effect::Reply(line) => EffectView::Reply(line@),
            Effect::CancelForwarding => EffectView::CancelForwarding,
            Effect::Forward(subscription) => EffectView::Forward {
                room: subscription.room_name(),
                after: subscription.starts_after(),
            },
        }
    }
}

/// The models of a list of effects, in the same order.
pub open spec fn effect_views(effects: Seq<Effect>) -> Seq<EffectView> {
    Seq::new(effects.len(), |i: int| effects[i]@)
}

/// The state of one connection.
#[derive(Debug)]
pub struct Session {
    username: Option<String>,
    membership: Membership,
}

/// The mathematical model of a [`Session`].
pub struct SessionView {
    /// The username of the latest request, if there was one.
    pub username: Option<Seq<char>>,
    pub membership: MembershipView,
}

impl SessionView {
    /// The state of a new connection.
    pub open spec fn initial() -> SessionView {
        SessionView { username: None, membership: MembershipView::NoRoom }
    }

    /// The same session under another username.
    pub open spec fn named(self, username: Seq<char>) -> SessionView {
        SessionView { username: Some(username), membership: self.membership }
    }

    /// The same session in another room.
    pub open spec fn moved_to(self, room: Seq<char>) -> SessionView {
        SessionView { username: self.username, membership: MembershipView::InRoom { room } }
    }

    /// The same session in no room.
    pub open spec fn left(self) -> SessionView {
        SessionView { username: self.username, membership: MembershipView::NoRoom }
    }
}

impl View for Session {
    type V = SessionView;

    closed spec fn view(&self) -> SessionView {
        SessionView { username: optional_text(self.username), membership: self.membership@ }
    }
}

/// The acknowledgement of `CREATEROOM`.
pub open spec fn created_line(room: Seq<char>) -> Seq<char> {
    message_line("Room "@ + room + " created!, now join it"@)
}

/// The acknowledgement of `JOINROOM`.
pub open spec fn joined_line(room: Seq<char>) -> Seq<char> {
    message_line("You joined "@ + room)
}

/// The text that a room records and broadcasts for one `SENDMSG`.
pub open spec fn broadcast_text(username: Seq<char>, msg: Seq<char>) -> Seq<char> {
    username + ": "@ + msg
}

/// The effects of joining a room that exists: the acknowledgement, the
/// room's whole history, the end of the earlier subscription if there was
/// one, and only then the new subscription, which yields what is broadcast
/// in the room from now on.
pub open spec fn join_effects(session: SessionView, room: RoomView) -> Seq<EffectView> {
    let replies = seq![
        EffectView::Reply(joined_line(room.name)),
        EffectView::Reply(history_line(room.history)),
    ];
    let start = seq![EffectView::Forward { room: room.name, after: room.broadcast.len() }];
    if session.membership is InRoom {
        replies + seq![EffectView::CancelForwarding] + start
    } else {
        replies + start
    }
}

/// The room and the text of the message that a `SENDMSG` publishes, where
/// it publishes one: the session is in a room that exists, has a username,
/// and the request carries a message.
pub open spec fn publication(
    session: SessionView,
    rooms: Seq<RoomView>,
    command: Command,
    msg: Option<Seq<char>>,
) -> Option<(Seq<char>, Seq<char>)> {
    if command == Command::SendMsg && session.membership is InRoom && session.username is Some
        && msg is Some && has_room(rooms, session.membership->room) {
        Some((session.membership->room, broadcast_text(session.username->0, msg->0)))
    } else {
        None
    }
}

/// The error line that answers a command which is rejected, and `None`
/// for a command that is carried out. A command is rejected where it is
/// outside the vocabulary, lacks the member it needs, names a room that
/// does not exist, or is a `SENDMSG` from a session without a room or a
/// username.
pub open spec fn rejection(
    session: SessionView,
    rooms: Seq<RoomView>,
    command: Command,
    room: Option<Seq<char>>,
    msg: Option<Seq<char>>,
) -> Option<Seq<char>> {
    match command {
        Command::CreateRoom => if room is None {
            Some(ROOM_NAME_MISSING@)
        } else {
            None
        },
        Command::ListRooms => None,
        Command::JoinRoom => if room is None {
            Some(ROOM_NAME_MISSING@)
        } else if !has_room(rooms, room->0) {
            Some(ROOM_MISSING@)
        } else {
            None
        },
        Command::SendMsg => if session.membership is NoRoom || session.username is None {
            Some(JOIN_FIRST@)
        } else if msg is None {
            Some(MESSAGE_MISSING@)
        } else if !has_room(rooms, session.membership->room) {
            Some(ROOM_MISSING@)
        } else {
            None
        },
        Command::Unknown => Some(UNKNOWN_COMMAND@),
    }
}

/// The effects of one command. A rejected command is answered with its
/// one error line. Of those carried out, `CREATEROOM` is acknowledged,
/// `LISTROOMS` is answered with the names or the notice that there are
/// none, `JOINROOM` has the effects of a join, and `SENDMSG` has no reply
/// of its own.
pub open spec fn effects_of(
    session: SessionView,
    rooms: Seq<RoomView>,
    command: Command,
    room: Option<Seq<char>>,
    msg: Option<Seq<char>>,
) -> Seq<EffectView> {
    match rejection(session, rooms, command, room, msg) {
        Some(line) => seq![EffectView::Reply(line)],
        None => match command {
            Command::CreateRoom => seq![EffectView::Reply(created_line(room->0))],
            Command::ListRooms => if rooms.len() == 0 {
                seq![EffectView::Reply(NO_ROOMS@)]
            } else {
                seq![EffectView::Reply(rooms_line(room_names(rooms)))]
            },
            Command::JoinRoom => join_effects(session, rooms[position(rooms, room->0)]),
            _ => seq![],
        },
    }
}

/// The session after one command: only a `JOINROOM` for a room that exists
/// changes it.
pub open spec fn session_after(
    session: SessionView,
    rooms: Seq<RoomView>,
    command: Command,
    room: Option<Seq<char>>,
) -> SessionView {
    if command == Command::JoinRoom && room is Some && has_room(rooms, room->0) {
        session.moved_to(room->0)
    } else {
        session
    }
}

/// Whether `after` is what one command makes of the rooms `before`.
/// `CREATEROOM` adds the room unless it exists; a `SENDMSG` that publishes
/// changes the one room it publishes to, whose channel took the message or
/// did not; nothing else changes the rooms.
pub open spec fn rooms_after(
    before: Seq<RoomView>,
    after: Seq<RoomView>,
    session: SessionView,
    command: Command,
    room: Option<Seq<char>>,
    msg: Option<Seq<char>>,
) -> bool {
    if command == Command::CreateRoom && room is Some {
        after == created(before, room->0)
    } else {
        match publication(session, before, command, msg) {
            Some((name, text)) => after == published(before, name, text, true) || after
                == published(before, name, text, false),
            None => after == before,
        }
    }
}

/// Whether one command takes a session and the rooms from one state to the
/// next with these effects.
pub open spec fn dispatched(
    session: SessionView,
    rooms: Seq<RoomView>,
    command: Command,
    room: Option<Seq<char>>,
    msg: Option<Seq<char>>,
    next_session: SessionView,
    next_rooms: Seq<RoomView>,
    effects: Seq<EffectView>,
) -> bool {
    &&& next_session == session_after(session, rooms, command, room)
    &&& rooms_after(rooms, next_rooms, session, command, room, msg)
    &&& effects == effects_of(session, rooms, command, room, msg)
}

/// Whether one request takes a session and the rooms from one state to the
/// next with these effects: the session takes the request's username, then
/// the command is carried out.
pub open spec fn handled(
    session: SessionView,
    rooms: Seq<RoomView>,
    request: RequestView,
    next_session: SessionView,
    next_rooms: Seq<RoomView>,
    effects: Seq<EffectView>,
) -> bool {
    dispatched(
        session.named(request.username),
        rooms,
        command_of(uppercase(request.arg)),
        request.room,
        request.msg,
        next_session,
        next_rooms,
        effects,
    )
}

/// Whether one received line takes a session and the rooms from one state
/// to the next with these effects. A line that is no request changes
/// nothing and is answered with one error line.
pub open spec fn received(
    session: SessionView,
    rooms: Seq<RoomView>,
    line: Seq<char>,
    next_session: SessionView,
    next_rooms: Seq<RoomView>,
    effects: Seq<EffectView>,
) -> bool {
    match decode(line) {
        Ok(request) => handled(session, rooms, request, next_session, next_rooms, effects),
        Err(_) => {
            &&& next_session == session
            &&& next_rooms == rooms
            &&& effects == seq![EffectView::Reply(INVALID_JSON@)]
        },
    }
}

fn one_reply(line: String) -> (effects: Vec<Effect>)
    ensures
        effect_views(effects@) == seq![EffectView::Reply(line@)],
{
    let mut effects: Vec<Effect> = Vec::new();
    effects.push(Effect::Reply(line));
    assert(effect_views(effects@) =~= seq![EffectView::Reply(line@)]);
    effects
}

fn no_effects() -> (effects: Vec<Effect>)
    ensures
        effect_views(effects@) == Seq::<EffectView>::empty(),
{
    let effects: Vec<Effect> = Vec::new();
    assert(effect_views(effects@) =~= Seq::<EffectView>::empty());
    effects
}

impl Session {
    /// The session of a connection that has sent nothing yet.
    pub fn new() -> (session: Session)
        ensures
            session@ == SessionView::initial(),
    {
        Session { username: None, membership: Membership::NoRoom }
    }

    /// The username of the latest request.
    pub fn username(&self) -> (username: &Option<String>)
        ensures
            optional_text(*username) == self@.username,
    {
        &self.username
    }

    /// The room the session is in.
    pub fn membership(&self) -> (membership: &Membership)
        ensures
            membership@ == self@.membership,
    {
        &self.membership
    }

    /// Carries out `CREATEROOM`: creates the room unless it exists and
    /// acknowledges either way. Without a room name nothing changes and
    /// the request is answered with an error line.
    pub fn create_room(registry: &mut Registry, room: Option<String>) -> (effects: Vec<Effect>)
        ensures
            final(registry)@ == match room {
                Some(name) => created(old(registry)@, name@),
                None => old(registry)@,
            },
            effect_views(effects@) == match room {
                Some(name) => seq![EffectView::Reply(created_line(name@))],
                None => seq![EffectView::Reply(ROOM_NAME_MISSING@)],
            },
            distinct_names(final(registry)@),
    {
        match room {
            None => {
                registry.names_are_distinct();
                one_reply(String::from_str(ROOM_NAME_MISSING))
            },
            Some(name) => {
                let mut text = String::from_str("Room ");
                text.append(name.as_str());
                text.append(" created!, now join it");
                registry.create_if_absent(name);
                one_reply(encode_message(text.as_str()))
            },
        }
    }

    /// Carries out `LISTROOMS`: replies with the names of all rooms, or
    /// with a notice where there is none.
    pub fn list_rooms(registry: &Registry) -> (effects: Vec<Effect>)
        ensures
            effect_views(effects@) == if registry@.len() == 0 {
                seq![EffectView::Reply(NO_ROOMS@)]
            } else {
                seq![EffectView::Reply(rooms_line(room_names(registry@)))]
            },
            distinct_names(registry@),
    {
        registry.names_are_distinct();
        if registry.is_empty() {
            one_reply(String::from_str(NO_ROOMS))
        } else {
            let names = registry.names();
            one_reply(encode_rooms(&names))
        }
    }

    /// Carries out `JOINROOM`. Where the room exists the session moves
    /// there: it is acknowledged, sent the room's whole history, and handed
    /// a new subscription after the earlier one, if any, is cancelled.
    /// Where it does not, or where the request names no room, the session
    /// stays as it is and is answered with an error line.
    pub fn join_room(&mut self, registry: &Registry, room: Option<String>) -> (effects: Vec<Effect>)
        ensures
            final(self)@ == session_after(
                old(self)@,
                registry@,
                Command::JoinRoom,
                optional_text(room),
            ),
            effect_views(effects@) == effects_of(
                old(self)@,
                registry@,
                Command::JoinRoom,
                optional_text(room),
                None,
            ),
            distinct_names(registry@),
    {
        registry.names_are_distinct();
        let name = match room {
            None => {
                return one_reply(String::from_str(ROOM_NAME_MISSING));
            },
            Some(name) => name,
        };
        let target = match registry.room(name.as_str()) {
            None => {
                return one_reply(String::from_str(ROOM_MISSING));
            },
            Some(target) => target,
        };
        let mut text = String::from_str("You joined ");
        text.append(name.as_str());
        let mut effects: Vec<Effect> = Vec::new();
        effects.push(Effect::Reply(encode_message(text.as_str())));
        effects.push(Effect::Reply(encode_history(target.history())));
        let subscription = target.subscribe();
        if let Membership::InRoom { .. } = self.membership {
            effects.push(Effect::CancelForwarding);
        }
        effects.push(Effect::Forward(subscription));
        assert(effect_views(effects@) =~= join_effects(old(self)@, target@));
        self.membership = Membership::InRoom { room: name };
        effects
    }

    /// Carries out `SENDMSG`. A session with a room and a username
    /// publishes `"{username}: {msg}"` to its room and gets no reply of its
    /// own: the message reaches it as it reaches every subscriber. A
    /// session without either is told to join first; a request without a
    /// message is answered with an error line. Neither changes anything.
    pub fn send_message(&self, registry: &mut Registry, msg: Option<String>) -> (effects: Vec<
        Effect,
    >)
        ensures
            rooms_after(
                old(registry)@,
                final(registry)@,
                self@,
                Command::SendMsg,
                None,
                optional_text(msg),
            ),
            effect_views(effects@) == effects_of(
                self@,
                old(registry)@,
                Command::SendMsg,
                None,
                optional_text(msg),
            ),
            distinct_names(final(registry)@),
    {
        registry.names_are_distinct();
        let room = match &self.membership {
            Membership::NoRoom => {
                return one_reply(String::from_str(JOIN_FIRST));
            },
            Membership::InRoom { room } => room,
        };
        let username = match &self.username {
            None => {
                return one_reply(String::from_str(JOIN_FIRST));
            },
            Some(username) => username,
        };
        let msg = match msg {
            None => {
                return one_reply(String::from_str(MESSAGE_MISSING));
            },
            Some(msg) => msg,
        };
        let mut text = username.clone();
        text.append(": ");
        text.append(msg.as_str());
        match registry.publish(room.as_str(), text) {
            Some(_) => no_effects(),
            None => one_reply(String::from_str(ROOM_MISSING)),
        }
    }

    /// Carries out one command.
    pub fn dispatch(
        &mut self,
        registry: &mut Registry,
        command: Command,
        room: Option<String>,
        msg: Option<String>,
    ) -> (effects: Vec<Effect>)
        ensures
            dispatched(
                old(self)@,
                old(registry)@,
                command,
                optional_text(room),
                optional_text(msg),
                final(self)@,
                final(registry)@,
                effect_views(effects@),
            ),
            distinct_names(final(registry)@),
    {
        match command {
            Command::CreateRoom => Session::create_room(registry, room),
            Command::ListRooms => Session::list_rooms(registry),
            Command::JoinRoom => self.join_room(registry, room),
            Command::SendMsg => self.send_message(registry, msg),
            Command::Unknown => {
                registry.names_are_distinct();
                one_reply(String::from_str(UNKNOWN_COMMAND))
            },
        }
    }

    /// Handles one request: takes over its username, whatever the command,
    /// then carries the command out.
    pub fn handle_request(&mut self, registry: &mut Registry, request: Request) -> (effects: Vec<
        Effect,
    >)
        ensures
            handled(
                old(self)@,
                old(registry)@,
                request@,
                final(self)@,
                final(registry)@,
                effect_views(effects@),
            ),
            distinct_names(final(registry)@),
    {
        let Request { username, arg, msg, room } = request;
        self.username = Some(username);
        let command = Command::parse(arg.as_str());
        self.dispatch(registry, command, room, msg)
    }

    /// Handles one received line. A line that is no request changes nothing
    /// and is answered with one error line; the session stays usable.
    pub fn handle_line(&mut self, registry: &mut Registry, line: &str) -> (effects: Vec<Effect>)
        ensures
            received(
                old(self)@,
                old(registry)@,
                line@,
                final(self)@,
                final(registry)@,
                effect_views(effects@),
            ),
            distinct_names(final(registry)@),
    {
        match Request::parse(line) {
            Ok(request) => self.handle_request(registry, request),
            Err(_) => {
                registry.names_are_distinct();
                one_reply(String::from_str(INVALID_JSON))
            },
        }
    }

    /// Ends the session: it leaves its room, and the subscription that was
    /// handed out last, if any, is cancelled.
    pub fn disconnect(&mut self) -> (effects: Vec<Effect>)
        ensures
            final(self)@ == old(self)@.left(),
            effect_views(effects@) == if old(self)@.membership is InRoom {
                seq![EffectView::CancelForwarding]
            } else {
                seq![]
            },
    {
        let mut effects: Vec<Effect> = Vec::new();
        if let Membership::InRoom { .. } = self.membership {
            effects.push(Effect::CancelForwarding);
        }
        assert(effect_views(effects@) =~= if old(self)@.membership is InRoom {
            seq![EffectView::CancelForwarding]
        } else {
            seq![]
        });
        self.membership = Membership::NoRoom;
        effects
    }
}

} // verus!
