use vstd::prelude::*;
use crate::game::settings::Settings;

verus! {

/// A room as the lobby lists it.
#[derive(Debug)]
pub struct Room {
    pub name: String,
    pub id: usize,
}

/// The lobby's list of rooms.
#[derive(Debug)]
pub struct Rooms {
    pub rooms: Vec<Room>,
}

/// What a client sends to open a room.
#[derive(Debug)]
pub struct NewRoom {
    pub name: String,
    pub player_count: usize,
}

/// What the lobby shows when the list of rooms cannot be rendered.
pub const ROOM_LIST_RENDER_ERROR: &'static str = "could not render room list";

/// What the lobby shows when a new room cannot be rendered.
pub const ROOM_RENDER_ERROR: &'static str = "could not render room";

impl Room {
    pub fn new(name: &str, id: usize) -> (r: Room)
        ensures
            r.name@ == name@,
            r.id == id,
    {
        Room { name: name.to_owned(), id }
    }
}

impl Rooms {
    /// The lobby's list of the given rooms, each by its id and name, in the given order.
    pub fn listing(entries: &Vec<(usize, String)>) -> (r: Rooms)
        ensures
            r.rooms.len() == entries.len(),
            forall|i: int| 0 <= i < entries.len() ==> #[trigger] r.rooms[i].id == entries[i].0
                && r.rooms[i].name@ == entries[i].1@,
    {
        let mut rooms: Vec<Room> = Vec::new();
        let n = entries.len();
        let mut i: usize = 0;
        while i < n
            invariant
                n == entries.len(),
                i <= n,
                rooms.len() == i,
                forall|j: int| 0 <= j < i ==> #[trigger] rooms[j].id == entries[j].0
                    && rooms[j].name@ == entries[j].1@,
            decreases n - i,
        {
            rooms.push(Room::new(entries[i].1.as_str(), entries[i].0));
            i = i + 1;
        }
        Rooms { rooms }
    }
}

impl NewRoom {
    /// The settings of the room to open: its player count.
    pub fn settings(&self) -> (s: Settings)
        ensures
            s.player_count == self.player_count,
    {
        Settings::new(self.player_count)
    }
}

} // verus!
