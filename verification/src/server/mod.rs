pub mod room;

use std::collections::HashMap;
use vstd::prelude::*;
use crate::error::ServerError;

verus! {

broadcast use vstd::std_specs::hash::group_hash_axioms;

/// The rooms of the server, each under the id it was given when it was added.
/// `R` is what the server keeps of a room.
#[derive(Debug)]
pub struct AppState<R> {
    rooms: HashMap<usize, R>,
    id: usize,
}

/// The rooms by id, and the id that the next room gets.
pub struct AppStateView<R> {
    pub rooms: Map<usize, R>,
    pub next_id: usize,
}

impl<R> View for AppState<R> {
    type V = AppStateView<R>;

    closed spec fn view(&self) -> AppStateView<R> {
        AppStateView { rooms: self.rooms@, next_id: self.id }
    }
}

/// The rooms are exactly those with an id below the next one: ids are given
/// in turn from 0, and no room is taken away.
pub open spec fn rooms_wf<R>(s: AppStateView<R>) -> bool {
    forall|k: usize| #[trigger] s.rooms.contains_key(k) <==> k < s.next_id
}

/// The state after a room was added: the room under the next id, which moves on by one.
pub open spec fn with_room<R>(s: AppStateView<R>, room: R) -> AppStateView<R> {
    AppStateView { rooms: s.rooms.insert(s.next_id, room), next_id: (s.next_id + 1) as usize }
}

/// The room under the given id, if there is one.
pub open spec fn room_at<R>(s: AppStateView<R>, id: usize) -> Option<R> {
    if s.rooms.contains_key(id) {
        Some(s.rooms[id])
    } else {
        None
    }
}

impl<R> AppState<R> {
    /// The state's rooms are those with an id below the next one.
    pub open spec fn wf(&self) -> bool {
        rooms_wf(self@)
    }

    /// A server without rooms.
    pub fn new() -> (s: Self)
        ensures
            s.wf(),
            s@.rooms == Map::<usize, R>::empty(),
            s@.next_id == 0,
    {
        Self { rooms: HashMap::new(), id: 0 }
    }

    /// The id that the next room gets.
    pub fn next_id(&self) -> (id: usize)
        ensures
            id == self@.next_id,
    {
        self.id
    }

    /// Adds a room under the next id and gives that id.
    pub fn add_room(&mut self, room: R) -> (id: usize)
        requires
            old(self).wf(),
            old(self)@.next_id < usize::MAX,
        ensures
            final(self).wf(),
            id == old(self)@.next_id,
            !old(self)@.rooms.contains_key(id),
            final(self)@ == with_room(old(self)@, room),
    {
        proof {
            lemma_added_room_is_found(self@, room, 0);
        }
        self.rooms.insert(self.id, room);
        self.id = self.id + 1;
        self.id - 1
    }

    /// The room under the given id.
    pub fn get_room(&self, room: &usize) -> (r: Result<&R, ServerError>)
        ensures
            match room_at(self@, *room) {
                Some(x) => r == Ok::<&R, ServerError>(&x),
                None => r == Err::<&R, ServerError>(ServerError::RoomNotFound),
            },
    {
        match self.rooms.get(room) {
            Some(r) => Ok(r),
            None => Err(ServerError::RoomNotFound),
        }
    }

    /// The rooms by id.
    pub fn rooms(&self) -> (m: &HashMap<usize, R>)
        ensures
            m@ == self@.rooms,
    {
        &self.rooms
    }
}

/// A room that was just added is found under the id it was given, and every
/// other id finds what it found before.
pub proof fn lemma_added_room_is_found<R>(s: AppStateView<R>, room: R, other: usize)
    requires
        rooms_wf(s),
        s.next_id < usize::MAX,
    ensures
        room_at(with_room(s, room), s.next_id) == Some(room),
        other != s.next_id ==> room_at(with_room(s, room), other) == room_at(s, other),
        rooms_wf(with_room(s, room)),
{
    assert forall|k: usize| #[trigger] with_room(s, room).rooms.contains_key(k) <==> k < with_room(s, room).next_id by {
        if k == s.next_id {
        } else {
            assert(s.rooms.contains_key(k) <==> k < s.next_id);
        }
    }
}

/// Rooms added one after the other get different ids, the later one the greater.
pub proof fn lemma_ids_increase<R>(s: AppStateView<R>, a: R, b: R)
    requires
        rooms_wf(s),
        s.next_id + 1 < usize::MAX,
    ensures
        with_room(s, a).next_id == s.next_id + 1,
        with_room(with_room(s, a), b).next_id == s.next_id + 2,
        room_at(with_room(with_room(s, a), b), s.next_id) == Some(a),
        room_at(with_room(with_room(s, a), b), (s.next_id + 1) as usize) == Some(b),
{
}

} // verus!
