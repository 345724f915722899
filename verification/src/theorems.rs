//! What holds of the server whatever its clients send, proved over the
//! models that the contracts of the session and the registry speak of.

use vstd::prelude::*;
use crate::codec::{
    command_of, decode, history_line, rooms_line, Command, INVALID_JSON, NO_ROOMS,
};
use crate::registry::{
    created, creation_keeps_rooms, distinct_names, exactly_one, has_room, history_of, position,
    position_of_room, publication_keeps_rooms, published, room_names,
};
use crate::room::RoomView;
use crate::session::{
    dispatched, effects_of, joined_line, publication, received, rejection, rooms_after,
    session_after, EffectView, MembershipView, SessionView,
};
use crate::text::uppercase;

verus! {

/// One command as it reaches the dispatcher, with the state of the session
/// that sent it.
pub struct Event {
    pub session: SessionView,
    pub command: Command,
    pub room: Option<Seq<char>>,
    pub msg: Option<Seq<char>>,
}

/// Whether the rooms `after` are what the event makes of the rooms `before`.
pub open spec fn follows(before: Seq<RoomView>, event: Event, after: Seq<RoomView>) -> bool {
    rooms_after(before, after, event.session, event.command, event.room, event.msg)
}

/// Whether `states` are the successive states of the registry while the
/// events are carried out one after the other, from any number of sessions.
pub open spec fn is_run(states: Seq<Seq<RoomView>>, events: Seq<Event>) -> bool {
    &&& states.len() == events.len() + 1
    &&& forall|k: int|
        0 <= k < events.len() ==> follows(states[k], #[trigger] events[k], states[k + 1])
}

/// The text that an event publishes to the room of that name: one text or
/// none.
pub open spec fn published_to(event: Event, rooms: Seq<RoomView>, name: Seq<char>) -> Seq<
    Seq<char>,
> {
    match publication(event.session, rooms, event.command, event.msg) {
        Some((room, text)) => if room == name {
            seq![text]
        } else {
            Seq::empty()
        },
        None => Seq::empty(),
    }
}

/// The texts that a run publishes to the room of that name, in the order
/// in which the `SENDMSG` requests were carried out.
pub open spec fn texts_published(
    states: Seq<Seq<RoomView>>,
    events: Seq<Event>,
    name: Seq<char>,
) -> Seq<Seq<char>>
    decreases events.len(),
{
    if events.len() == 0 || states.len() != events.len() + 1 {
        Seq::empty()
    } else {
        texts_published(states.drop_last(), events.drop_last(), name) + published_to(
            events.last(),
            states[events.len() - 1],
            name,
        )
    }
}

/// The room that an event publishes to, where it publishes.
pub open spec fn publishing_room(event: Event, rooms: Seq<RoomView>) -> Seq<char> {
    let (room, _) = publication(event.session, rooms, event.command, event.msg)->0;
    room
}

/// Whether some event of the list is a `CREATEROOM` for that name.
pub open spec fn creates(events: Seq<Event>, name: Seq<char>) -> bool {
    exists|k: int|
        0 <= k < events.len() && (#[trigger] events[k]).command == Command::CreateRoom
            && events[k].room == Some(name)
}

/// The room whose subscription a session holds, if it holds one.
pub open spec fn subscribed_room(membership: MembershipView) -> Option<Seq<char>> {
    match membership {
        MembershipView::NoRoom => None,
        MembershipView::InRoom { room } => Some(room),
    }
}

/// The subscription that is live once a list of effects is carried out in
/// order, starting with the subscription `live`. `None` stands for a list
/// that cannot be carried out: it starts a subscription while another is
/// live, or cancels one while none is.
pub open spec fn forwarding_after(live: Option<Seq<char>>, effects: Seq<EffectView>) -> Option<
    Option<Seq<char>>,
>
    decreases effects.len(),
{
    if effects.len() == 0 {
        Some(live)
    } else {
        match effects.first() {
            EffectView::Reply(_) => forwarding_after(live, effects.drop_first()),
            EffectView::CancelForwarding => if live is Some {
                forwarding_after(None, effects.drop_first())
            } else {
                None
            },
            EffectView::Forward { room, after: _ } => if live is None {
                forwarding_after(Some(room), effects.drop_first())
            } else {
                None
            },
        }
    }
}

/// Creating a room twice is creating it once: the second creation changes
/// nothing, and exactly one room has the name.
pub proof fn creating_twice_is_creating_once(rooms: Seq<RoomView>, name: Seq<char>)
    requires
        distinct_names(rooms),
    ensures
        created(created(rooms, name), name) == created(rooms, name),
        exactly_one(created(rooms, name), name),
{
    creation_keeps_rooms(rooms, name);
    let once = created(rooms, name);
    assert forall|i: int, j: int|
        0 <= i < once.len() && 0 <= j < once.len() && once[i].name == name && once[j].name
            == name implies i == j by {
        if i < j {
            assert(once[i].name != once[j].name);
        } else if j < i {
            assert(once[j].name != once[i].name);
        }
    }
}

/// Two `CREATEROOM` requests for one name, from any two sessions, leave the
/// rooms as the first alone left them, with exactly one room of that name.
pub proof fn createroom_is_idempotent(
    rooms: Seq<RoomView>,
    first: Event,
    once: Seq<RoomView>,
    second: Event,
    twice: Seq<RoomView>,
)
    requires
        distinct_names(rooms),
        first.command == Command::CreateRoom,
        second.command == Command::CreateRoom,
        first.room is Some,
        second.room == first.room,
        follows(rooms, first, once),
        follows(once, second, twice),
    ensures
        twice == once,
        exactly_one(once, first.room->0),
{
    creating_twice_is_creating_once(rooms, first.room->0);
}

/// What one event does to the rooms: the names stay distinct; a name is
/// present afterwards if it was present before or the event created it; and
/// a room's history grows by the text that the event published to it, and
/// by nothing else.
pub proof fn step_on_rooms(
    before: Seq<RoomView>,
    event: Event,
    after: Seq<RoomView>,
    name: Seq<char>,
)
    requires
        distinct_names(before),
        follows(before, event, after),
    ensures
        distinct_names(after),
        has_room(after, name) == (has_room(before, name) || (event.command == Command::CreateRoom
            && event.room == Some(name))),
        history_of(after, name) == history_of(before, name) + published_to(event, before, name),
{
    if event.command == Command::CreateRoom && event.room is Some {
        let new = event.room->0;
        creation_keeps_rooms(before, new);
        assert(published_to(event, before, name) =~= Seq::<Seq<char>>::empty());
        if has_room(before, name) {
            let i = position(before, name);
            assert(after[i] == before[i]);
            position_of_room(after, i);
        } else if has_room(after, name) {
            let last = after.len() - 1;
            assert(new == name);
            position_of_room(after, last);
        }
        assert(history_of(after, name) =~= history_of(before, name) + Seq::<Seq<char>>::empty());
    } else {
        match publication(event.session, before, event.command, event.msg) {
            Some((room, text)) => {
                let queued = after == published(before, room, text, true);
                publication_keeps_rooms(before, room, text, queued);
                if has_room(before, name) {
                    let i = position(before, name);
                    assert(position(after, name) == i);
                    if room == name {
                        assert(after[i] == before[i].published(text, queued));
                        assert(history_of(after, name) =~= history_of(before, name) + seq![text]);
                    } else {
                        assert(before[i].name == name);
                        assert(i != position(before, room));
                        assert(after[i] == before[i]);
                        assert(history_of(after, name) =~= history_of(before, name) + Seq::<
                            Seq<char>,
                        >::empty());
                    }
                } else {
                    assert(room != name);
                    assert(history_of(after, name) =~= history_of(before, name) + Seq::<
                        Seq<char>,
                    >::empty());
                }
            },
            None => {
                assert(history_of(after, name) =~= history_of(before, name) + Seq::<
                    Seq<char>,
                >::empty());
            },
        }
    }
}

/// Throughout a run, a room's history is what it was at the start followed
/// by the texts that were published to it, in the order in which the
/// requests were carried out; and a name is present at the end exactly if
/// it was present at the start or a `CREATEROOM` of the run named it. No
/// room is ever removed, and no name is ever listed twice.
pub proof fn run_on_rooms(states: Seq<Seq<RoomView>>, events: Seq<Event>, name: Seq<char>)
    requires
        is_run(states, events),
        distinct_names(states.first()),
    ensures
        distinct_names(states.last()),
        room_names(states.last()).no_duplicates(),
        room_names(states.last()).contains(name) == has_room(states.last(), name),
        has_room(states.last(), name) == (has_room(states.first(), name) || creates(events, name)),
        history_of(states.last(), name) == history_of(states.first(), name) + texts_published(
            states,
            events,
            name,
        ),
    decreases events.len(),
{
    let n = events.len() as int;
    if n == 0 {
        assert(history_of(states.last(), name) =~= history_of(states.first(), name) + Seq::<
            Seq<char>,
        >::empty());
    } else {
        let earlier_states = states.drop_last();
        let earlier_events = events.drop_last();
        assert forall|k: int| 0 <= k < earlier_events.len() implies follows(
            earlier_states[k],
            #[trigger] earlier_events[k],
            earlier_states[k + 1],
        ) by {
            assert(follows(states[k], events[k], states[k + 1]));
        }
        run_on_rooms(earlier_states, earlier_events, name);
        let before = states[n - 1];
        let event = events[n - 1];
        assert(earlier_states.last() == before);
        assert(follows(before, event, states[n]));
        step_on_rooms(before, event, states.last(), name);
        if creates(earlier_events, name) {
            let k = choose|k: int|
                0 <= k < earlier_events.len() && (#[trigger] earlier_events[k]).command
                    == Command::CreateRoom && earlier_events[k].room == Some(name);
            assert(events[k].command == Command::CreateRoom && events[k].room == Some(name));
        }
        if creates(events, name) {
            let k = choose|k: int|
                0 <= k < events.len() && (#[trigger] events[k]).command == Command::CreateRoom
                    && events[k].room == Some(name);
            if k < n - 1 {
                assert(earlier_events[k].command == Command::CreateRoom && earlier_events[k].room
                    == Some(name));
            }
        }
        assert(history_of(states.last(), name) =~= history_of(states.first(), name)
            + texts_published(states, events, name));
    }
    let rooms = states.last();
    let names = room_names(rooms);
    assert forall|i: int, j: int| 0 <= i < names.len() && 0 <= j < names.len() && i != j implies names[i]
        != names[j] by {
        if i < j {
            assert(rooms[i].name != rooms[j].name);
        } else {
            assert(rooms[j].name != rooms[i].name);
        }
    }
    if names.contains(name) {
        let i = choose|i: int| 0 <= i < names.len() && names[i] == name;
        assert(rooms[i].name == name);
    }
    if has_room(rooms, name) {
        let i = position(rooms, name);
        assert(names[i] == name);
    }
}

/// The error line that answers a line which is refused, and `None` for a
/// line that is carried out: a line that is no request, or a request whose
/// command is rejected.
pub open spec fn refusal(session: SessionView, rooms: Seq<RoomView>, line: Seq<char>) -> Option<
    Seq<char>,
> {
    match decode(line) {
        Ok(request) => rejection(
            session.named(request.username),
            rooms,
            command_of(uppercase(request.arg)),
            request.room,
            request.msg,
        ),
        Err(_) => Some(INVALID_JSON@),
    }
}

/// A command that is rejected is answered with exactly one error line and
/// changes nothing: the rooms stay as they are, and the session stays
/// where it is.
pub proof fn rejected_command_changes_nothing(
    session: SessionView,
    rooms: Seq<RoomView>,
    command: Command,
    room: Option<Seq<char>>,
    msg: Option<Seq<char>>,
    next_session: SessionView,
    next_rooms: Seq<RoomView>,
    effects: Seq<EffectView>,
)
    requires
        dispatched(session, rooms, command, room, msg, next_session, next_rooms, effects),
        rejection(session, rooms, command, room, msg) is Some,
    ensures
        effects == seq![EffectView::Reply(rejection(session, rooms, command, room, msg)->0)],
        next_session == session,
        next_rooms == rooms,
{
}

/// A line that is refused is answered with exactly one error line, and the
/// connection goes on as before: the rooms are unchanged, and the session
/// keeps its room, and with it its one subscription. Only the username
/// follows the line, where the line is a request at all.
pub proof fn refused_line_changes_nothing(
    session: SessionView,
    rooms: Seq<RoomView>,
    line: Seq<char>,
    next_session: SessionView,
    next_rooms: Seq<RoomView>,
    effects: Seq<EffectView>,
)
    requires
        received(session, rooms, line, next_session, next_rooms, effects),
        refusal(session, rooms, line) is Some,
    ensures
        effects == seq![EffectView::Reply(refusal(session, rooms, line)->0)],
        forwarding_after(subscribed_room(session.membership), effects) == Some(
            subscribed_room(session.membership),
        ),
        next_rooms == rooms,
        next_session.membership == session.membership,
        next_session.username == match decode(line) {
            Ok(request) => Some(request.username),
            Err(_) => session.username,
        },
{
    reveal_with_fuel(forwarding_after, 2);
    assert(effects.drop_first().len() == 0);
}

/// Whatever line a connection receives, every room stays under its name,
/// the names stay distinct, and a room's history keeps what it held: it
/// grows at its end or not at all.
pub proof fn rooms_and_histories_only_grow(
    session: SessionView,
    rooms: Seq<RoomView>,
    line: Seq<char>,
    next_session: SessionView,
    next_rooms: Seq<RoomView>,
    effects: Seq<EffectView>,
    name: Seq<char>,
)
    requires
        distinct_names(rooms),
        received(session, rooms, line, next_session, next_rooms, effects),
        has_room(rooms, name),
    ensures
        distinct_names(next_rooms),
        has_room(next_rooms, name),
        history_of(rooms, name).is_prefix_of(history_of(next_rooms, name)),
{
    match decode(line) {
        Ok(request) => {
            let event = Event {
                session: session.named(request.username),
                command: command_of(uppercase(request.arg)),
                room: request.room,
                msg: request.msg,
            };
            step_on_rooms(rooms, event, next_rooms, name);
            let grown = history_of(rooms, name) + published_to(event, rooms, name);
            assert(grown.subrange(0, history_of(rooms, name).len() as int) =~= history_of(
                rooms,
                name,
            ));
        },
        Err(_) => {
            assert(history_of(rooms, name).subrange(0, history_of(rooms, name).len() as int)
                =~= history_of(rooms, name));
        },
    }
}

/// `LISTROOMS` names exactly the rooms ever created, each once. After a run
/// that started without rooms, the reply lists a name if and only if some
/// `CREATEROOM` of the run named it, and lists no name twice; where none
/// was created, it is the notice that there are no rooms.
pub proof fn listing_names_the_rooms_created(
    states: Seq<Seq<RoomView>>,
    events: Seq<Event>,
    session: SessionView,
    room: Option<Seq<char>>,
    msg: Option<Seq<char>>,
)
    requires
        is_run(states, events),
        states.first() == Seq::<RoomView>::empty(),
    ensures
        ({
            let names = room_names(states.last());
            &&& effects_of(session, states.last(), Command::ListRooms, room, msg) == if names.len()
                == 0 {
                seq![EffectView::Reply(NO_ROOMS@)]
            } else {
                seq![EffectView::Reply(rooms_line(names))]
            }
            &&& names.no_duplicates()
            &&& forall|name: Seq<char>| names.contains(name) <==> creates(events, name)
        }),
{
    let names = room_names(states.last());
    assert forall|name: Seq<char>| names.contains(name) <==> creates(events, name) by {
        run_on_rooms(states, events, name);
    }
    run_on_rooms(states, events, Seq::empty());
}

/// The history of a room is the sequence of the texts published to it, in
/// the order in which the `SENDMSG` requests were carried out, whichever
/// sessions sent them: nothing is lost, added or reordered.
pub proof fn history_is_the_publications_in_order(
    states: Seq<Seq<RoomView>>,
    events: Seq<Event>,
    name: Seq<char>,
)
    requires
        is_run(states, events),
        states.first() == Seq::<RoomView>::empty(),
    ensures
        history_of(states.last(), name) == texts_published(states, events, name),
{
    run_on_rooms(states, events, name);
    assert(history_of(states.first(), name) + texts_published(states, events, name)
        =~= texts_published(states, events, name));
}

/// A session that joins a room is sent the acknowledgement, then the room's
/// whole history as it stands, and is handed its subscription last: nothing
/// published after the join can reach it before the history has. The
/// subscription is to that room and starts where the room's broadcasts
/// stand at the join.
pub proof fn join_replays_history_first(
    session: SessionView,
    rooms: Seq<RoomView>,
    name: Seq<char>,
    msg: Option<Seq<char>>,
)
    requires
        has_room(rooms, name),
    ensures
        ({
            let effects = effects_of(session, rooms, Command::JoinRoom, Some(name), msg);
            &&& effects.len() >= 3
            &&& effects[0] == EffectView::Reply(joined_line(name))
            &&& effects[1] == EffectView::Reply(history_line(history_of(rooms, name)))
            &&& effects.last() == EffectView::Forward {
                room: name,
                after: rooms[position(rooms, name)].broadcast.len(),
            }
            &&& forall|i: int| 0 <= i < effects.len() - 1 ==> !(#[trigger] effects[i] is Forward)
        }),
{
    let at = position(rooms, name);
    assert(rooms[at].name == name);
}

/// A message published to one room changes no other room: neither its
/// history nor what its channel has taken in for its subscribers. The room
/// that changes is the one the sender is in.
pub proof fn publication_stays_in_its_room(
    before: Seq<RoomView>,
    event: Event,
    after: Seq<RoomView>,
    other: Seq<char>,
)
    requires
        distinct_names(before),
        follows(before, event, after),
        publication(event.session, before, event.command, event.msg) is Some,
        other != publishing_room(event, before),
    ensures
        event.session.membership == (MembershipView::InRoom {
            room: publishing_room(event, before),
        }),
        has_room(after, other) == has_room(before, other),
        has_room(before, other) ==> after[position(after, other)] == before[position(
            before,
            other,
        )],
{
    let (room, text) = publication(event.session, before, event.command, event.msg)->0;
    let queued = after == published(before, room, text, true);
    publication_keeps_rooms(before, room, text, queued);
    if has_room(before, other) {
        let i = position(before, other);
        assert(before[i].name == other);
        assert(i != position(before, room));
    }
}

/// A session holds at most one subscription, and it is the one of the room
/// it is in. Carried out in order, the effects of any command take the
/// session from the subscription of its earlier room to that of its later
/// room; on the way no subscription is started while another is live. So a
/// session that moves from one room to another has its earlier subscription
/// cancelled before the new one starts, and is forwarded nothing further
/// from the room it left.
pub proof fn one_subscription_at_a_time(
    session: SessionView,
    rooms: Seq<RoomView>,
    command: Command,
    room: Option<Seq<char>>,
    msg: Option<Seq<char>>,
)
    ensures
        forwarding_after(
            subscribed_room(session.membership),
            effects_of(session, rooms, command, room, msg),
        ) == Some(subscribed_room(session_after(session, rooms, command, room).membership)),
{
    let live = subscribed_room(session.membership);
    let effects = effects_of(session, rooms, command, room, msg);
    reveal_with_fuel(forwarding_after, 6);
    if command == Command::JoinRoom && room is Some && has_room(rooms, room->0) {
        let target = rooms[position(rooms, room->0)];
        assert(target.name == room->0);
        let e1 = effects.drop_first();
        let e2 = e1.drop_first();
        let e3 = e2.drop_first();
        assert(effects.first() is Reply);
        assert(e1.first() is Reply);
        if session.membership is InRoom {
            let e4 = e3.drop_first();
            assert(e2.first() is CancelForwarding);
            assert(e3.first() is Forward && e3.first()->room == room->0);
            assert(e4.len() == 0);
        } else {
            assert(e2.first() is Forward && e2.first()->room == room->0);
            assert(e3.len() == 0);
        }
    } else if effects.len() != 0 {
        assert(effects.len() == 1);
        assert(effects.first() is Reply);
        assert(effects.drop_first().len() == 0);
    }
}

} // verus!
