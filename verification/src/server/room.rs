use std::collections::HashSet;
use vstd::prelude::*;
use crate::game::message::Message;
use crate::game::settings::Settings;
use crate::game::{empty_context, Game};
use crate::game::character::Character;

verus! {

broadcast use vstd::std_specs::hash::group_hash_axioms;

/// A room: its name, its game, the ids of the players in it, and the id that the
/// next client to join gets.
#[derive(Debug)]
pub struct Room {
    pub name: String,
    pub game: Game,
    pub players: HashSet<usize>,
    pub next_client: usize,
}

/// The text of the message that a room sends when a broadcast failed.
pub const CLOSING_NOTICE: &'static str = "closing due to error";

impl Room {
    /// A room with the given name, a new game with the given settings, and no players.
    pub fn new(settings: Settings, name: &str) -> (r: Room)
        ensures
            r.name@ == name@,
            r.game@.player_count == settings.player_count,
            r.game@.context == empty_context(),
            r.game@.characters == Map::<usize, Character>::empty(),
            r.game@.messages == Seq::<Message>::empty(),
            r.players@ == Set::<usize>::empty(),
            r.next_client == 0,
    {
        Room {
            name: name.to_owned(),
            game: Game::new(settings),
            players: HashSet::new(),
            next_client: 0,
        }
    }

    /// Lets a new client in under the next client id, and gives that id; ids are
    /// handed out in turn from 0.
    pub fn add_client(&mut self) -> (id: usize)
        requires
            old(self).next_client < usize::MAX,
        ensures
            id == old(self).next_client,
            final(self).next_client == old(self).next_client + 1,
            final(self).players@ == old(self).players@.insert(id),
            final(self).name == old(self).name,
            final(self).game == old(self).game,
    {
        let id = self.next_client;
        self.next_client = self.next_client + 1;
        self.connect(id)
    }

    /// Lets the player with the given character in, and gives the character's id.
    pub fn connect(&mut self, character_id: usize) -> (id: usize)
        ensures
            id == character_id,
            final(self).players@ == old(self).players@.insert(character_id),
            final(self).name == old(self).name,
            final(self).game == old(self).game,
            final(self).next_client == old(self).next_client,
    {
        self.players.insert(character_id);
        character_id
    }

    /// Lets the given player out.
    pub fn disconnect(&mut self, client_id: usize)
        ensures
            final(self).players@ == old(self).players@.remove(client_id),
            final(self).name == old(self).name,
            final(self).game == old(self).game,
            final(self).next_client == old(self).next_client,
    {
        self.players.remove(&client_id);
    }

    /// What follows a broadcast: nothing where the message was sent; where it could
    /// not be sent, a generic message that tells the room is closing, after which
    /// the room stops taking in messages.
    pub fn after_broadcast(sent: bool) -> (notice: Option<Message>)
        ensures
            sent ==> notice is None,
            !sent ==> (notice matches Some(Message::Generic(t)) && t@ == CLOSING_NOTICE@),
    {
        if sent {
            None
        } else {
            Some(Message::Generic(String::from_str(CLOSING_NOTICE)))
        }
    }
}

/// A player who comes in and goes out again is no longer in the room, and the
/// other players are as they were.
pub proof fn lemma_connect_then_disconnect(players: Set<usize>, id: usize, other: usize)
    ensures
        !players.insert(id).remove(id).contains(id),
        other != id ==> (players.insert(id).remove(id).contains(other) <==> players.contains(other)),
{
}

} // verus!
