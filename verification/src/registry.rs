//! The room registry: every room ever created, each under a name of its own.

use vstd::prelude::*;
use crate::room::{Fanout, Room, RoomView};
use crate::text::texts;

verus! {

/// No two rooms share a name.
pub open spec fn distinct_names(rooms: Seq<RoomView>) -> bool {
    forall|i: int, j: int| 0 <= i < j < rooms.len() ==> rooms[i].name != rooms[j].name
}

/// Whether a room of that name exists.
pub open spec fn has_room(rooms: Seq<RoomView>, name: Seq<char>) -> bool {
    exists|i: int| 0 <= i < rooms.len() && #[trigger] rooms[i].name == name
}

/// The place of the room of that name, where there is one.
pub open spec fn position(rooms: Seq<RoomView>, name: Seq<char>) -> int {
    choose|i: int| 0 <= i < rooms.len() && #[trigger] rooms[i].name == name
}

/// The names of the rooms, in the order of their creation.
pub open spec fn room_names(rooms: Seq<RoomView>) -> Seq<Seq<char>> {
    Seq::new(rooms.len(), |i: int| rooms[i].name)
}

/// The rooms after a request to create one: an existing room stays as it
/// is, a new one is added at the end, empty.
pub open spec fn created(rooms: Seq<RoomView>, name: Seq<char>) -> Seq<RoomView> {
    if has_room(rooms, name) {
        rooms
    } else {
        rooms.push(RoomView::fresh(name))
    }
}

/// The rooms after a message was published to the room of that name.
pub open spec fn published(
    rooms: Seq<RoomView>,
    name: Seq<char>,
    text: Seq<char>,
    queued: bool,
) -> Seq<RoomView> {
    let i = position(rooms, name);
    rooms.update(i, rooms[i].published(text, queued))
}

/// The history of the room of that name; empty where there is no such room.
pub open spec fn history_of(rooms: Seq<RoomView>, name: Seq<char>) -> Seq<Seq<char>> {
    if has_room(rooms, name) {
        rooms[position(rooms, name)].history
    } else {
        Seq::empty()
    }
}

/// Whether exactly one room has that name.
pub open spec fn exactly_one(rooms: Seq<RoomView>, name: Seq<char>) -> bool {
    &&& has_room(rooms, name)
    &&& forall|i: int, j: int|
        0 <= i < rooms.len() && 0 <= j < rooms.len() && rooms[i].name == name && rooms[j].name
            == name ==> i == j
}

/// Among distinct names, a room stands at the position of its name.
pub proof fn position_of_room(rooms: Seq<RoomView>, i: int)
    requires
        distinct_names(rooms),
        0 <= i < rooms.len(),
    ensures
        has_room(rooms, rooms[i].name),
        position(rooms, rooms[i].name) == i,
{
    let name = rooms[i].name;
    assert(rooms[i].name == name);
    let j = position(rooms, name);
    assert(0 <= j < rooms.len() && rooms[j].name == name);
    if j < i {
        assert(rooms[j].name != rooms[i].name);
    } else if i < j {
        assert(rooms[i].name != rooms[j].name);
    }
}

/// Creating a room keeps the names distinct, keeps every earlier room in
/// its place and unchanged, and makes the name present.
pub proof fn creation_keeps_rooms(rooms: Seq<RoomView>, name: Seq<char>)
    requires
        distinct_names(rooms),
    ensures
        distinct_names(created(rooms, name)),
        has_room(created(rooms, name), name),
        rooms.len() <= created(rooms, name).len(),
        forall|i: int| 0 <= i < rooms.len() ==> #[trigger] created(rooms, name)[i] == rooms[i],
        !has_room(rooms, name) ==> created(rooms, name).last() == RoomView::fresh(name),
        forall|other: Seq<char>|
            other != name ==> has_room(created(rooms, name), other) == has_room(rooms, other),
{
    let after = created(rooms, name);
    if !has_room(rooms, name) {
        let last = rooms.len() as int;
        assert(after[last].name == name);
        assert forall|i: int, j: int| 0 <= i < j < after.len() implies after[i].name
            != after[j].name by {
            if j == last {
                assert(rooms[i].name != name);
            }
        }
        assert forall|other: Seq<char>| other != name implies has_room(after, other) == has_room(
            rooms,
            other,
        ) by {
            if has_room(after, other) {
                let k = position(after, other);
                assert(rooms[k].name == other);
            }
            if has_room(rooms, other) {
                let k = position(rooms, other);
                assert(after[k].name == other);
            }
        }
    }
}

/// Publishing to a room that exists changes that room alone: every name
/// stays in its place, and every other room stays as it is.
pub proof fn publication_keeps_rooms(
    rooms: Seq<RoomView>,
    name: Seq<char>,
    text: Seq<char>,
    queued: bool,
)
    requires
        distinct_names(rooms),
        has_room(rooms, name),
    ensures
        published(rooms, name, text, queued).len() == rooms.len(),
        room_names(published(rooms, name, text, queued)) == room_names(rooms),
        distinct_names(published(rooms, name, text, queued)),
        forall|i: int|
            0 <= i < rooms.len() ==> #[trigger] published(rooms, name, text, queued)[i] == if i
                == position(rooms, name) {
                rooms[i].published(text, queued)
            } else {
                rooms[i]
            },
        forall|other: Seq<char>|
            has_room(published(rooms, name, text, queued), other) == has_room(rooms, other),
        forall|other: Seq<char>|
            has_room(rooms, other) ==> position(published(rooms, name, text, queued), other)
                == position(rooms, other),
{
    let after = published(rooms, name, text, queued);
    let at = position(rooms, name);
    assert(0 <= at < rooms.len() && rooms[at].name == name);
    assert forall|i: int| 0 <= i < rooms.len() implies (#[trigger] after[i]).name
        == rooms[i].name by {}
    assert(room_names(after) =~= room_names(rooms));
    assert forall|i: int, j: int| 0 <= i < j < after.len() implies after[i].name
        != after[j].name by {
        assert(rooms[i].name != rooms[j].name);
    }
    assert forall|other: Seq<char>| has_room(after, other) == has_room(rooms, other) by {
        if has_room(after, other) {
            let k = position(after, other);
            assert(rooms[k].name == other);
        }
        if has_room(rooms, other) {
            let k = position(rooms, other);
            assert(after[k].name == other);
        }
    }
    assert forall|other: Seq<char>| has_room(rooms, other) implies position(after, other)
        == position(rooms, other) by {
        let k = position(rooms, other);
        assert(after[k].name == other);
        position_of_room(after, k);
    }
}

/// The directory of rooms. Rooms are never removed.
#[derive(Debug)]
pub struct Registry {
    rooms: Vec<Room>,
}

impl View for Registry {
    type V = Seq<RoomView>;

    closed spec fn view(&self) -> Seq<RoomView> {
        Seq::new(self.rooms@.len(), |i: int| self.rooms@[i]@)
    }
}

impl Registry {
    #[verifier::type_invariant]
    spec fn well_formed(self) -> bool {
        distinct_names(self@)
    }

    /// An empty registry.
    pub fn new() -> (registry: Registry)
        ensures
            registry@ == Seq::<RoomView>::empty(),
            distinct_names(registry@),
    {
        let registry = Registry { rooms: Vec::new() };
        assert(registry@ =~= Seq::<RoomView>::empty());
        registry
    }

    /// Does nothing at run time: tells a verified caller that the names in
    /// a registry are distinct, as they are in every registry.
    pub fn names_are_distinct(&self)
        ensures
            distinct_names(self@),
    {
        proof {
            use_type_invariant(self);
        }
    }

    /// The number of rooms.
    pub fn len(&self) -> (n: usize)
        ensures
            n == self@.len(),
    {
        self.rooms.len()
    }

    /// Whether no room exists.
    pub fn is_empty(&self) -> (empty: bool)
        ensures
            empty == (self@.len() == 0),
    {
        self.rooms.len() == 0
    }

    /// The place of the room of that name.
    fn find(&self, name: &str) -> (found: Option<usize>)
        ensures
            match found {
                Some(i) => has_room(self@, name@) && i == position(self@, name@),
                None => !has_room(self@, name@),
            },
    {
        proof {
            use_type_invariant(self);
        }
        let key: String = name.to_owned();
        let mut i: usize = 0;
        while i < self.rooms.len()
            invariant
                i <= self.rooms.len(),
                key@ == name@,
                distinct_names(self@),
                forall|k: int| 0 <= k < i ==> (#[trigger] self@[k]).name != name@,
            decreases self.rooms.len() - i,
        {
            if *self.rooms[i].name() == key {
                proof {
                    assert(self@[i as int].name == name@);
                    position_of_room(self@, i as int);
                }
                return Some(i);
            }
            i += 1;
        }
        None
    }

    /// Whether a room of that name exists.
    pub fn contains(&self, name: &str) -> (found: bool)
        ensures
            found == has_room(self@, name@),
    {
        self.find(name).is_some()
    }

    /// Creates the room of that name unless it exists. Returns whether it
    /// was created. Never fails.
    pub fn create_if_absent(&mut self, name: String) -> (new: bool)
        ensures
            final(self)@ == created(old(self)@, name@),
            new == !has_room(old(self)@, name@),
            distinct_names(final(self)@),
    {
        proof {
            use_type_invariant(&*self);
        }
        if self.find(name.as_str()).is_some() {
            return false;
        }
        let ghost before = self@;
        let mut rooms: Vec<Room> = Vec::new();
        std::mem::swap(&mut self.rooms, &mut rooms);
        rooms.push(Room::new(name));
        proof {
            let after = Seq::new(rooms@.len(), |i: int| rooms@[i]@);
            assert(after =~= before.push(RoomView::fresh(name@)));
            assert(distinct_names(after));
        }
        self.rooms = rooms;
        assert(self@ =~= before.push(RoomView::fresh(name@)));
        true
    }

    /// The names of all rooms, in the order of their creation.
    pub fn names(&self) -> (names: Vec<String>)
        ensures
            texts(names@) == room_names(self@),
            distinct_names(self@),
    {
        proof {
            use_type_invariant(self);
        }
        let mut names: Vec<String> = Vec::new();
        let mut i: usize = 0;
        while i < self.rooms.len()
            invariant
                i <= self.rooms.len(),
                names@.len() == i,
                forall|k: int| 0 <= k < i ==> (#[trigger] names@[k])@ == self@[k].name,
            decreases self.rooms.len() - i,
        {
            names.push(self.rooms[i].name().clone());
            i += 1;
        }
        assert(texts(names@) =~= room_names(self@));
        names
    }

    /// The room of that name.
    pub fn room(&self, name: &str) -> (found: Option<&Room>)
        ensures
            match found {
                Some(room) => has_room(self@, name@) && room@ == self@[position(self@, name@)],
                None => !has_room(self@, name@),
            },
    {
        match self.find(name) {
            Some(i) => Some(&self.rooms[i]),
            None => None,
        }
    }

    /// Publishes a message to the room of that name: the room's history
    /// grows by the message, and its channel is offered it. Every other room
    /// stays as it is. Without such a room nothing changes.
    pub fn publish(&mut self, name: &str, text: String) -> (outcome: Option<Fanout>)
        ensures
            match outcome {
                Some(fanout) => has_room(old(self)@, name@) && final(self)@ == published(
                    old(self)@,
                    name@,
                    text@,
                    fanout is Queued,
                ),
                None => !has_room(old(self)@, name@) && final(self)@ == old(self)@,
            },
            distinct_names(final(self)@),
    {
        proof {
            use_type_invariant(&*self);
        }
        let ghost before = self@;
        match self.find(name) {
            None => None,
            Some(i) => {
                let mut rooms: Vec<Room> = Vec::new();
                std::mem::swap(&mut self.rooms, &mut rooms);
                let fanout = rooms[i].publish(text);
                proof {
                    let after = Seq::new(rooms@.len(), |k: int| rooms@[k]@);
                    assert(after =~= published(before, name@, text@, fanout is Queued));
                    assert(distinct_names(after));
                }
                self.rooms = rooms;
                assert(self@ =~= published(before, name@, text@, fanout is Queued));
                Some(fanout)
            },
        }
    }
}

} // verus!
