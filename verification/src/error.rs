use vstd::prelude::*;
use crate::text::{decimal, usize_to_decimal};

verus! {

/// What can go wrong in a game.
#[derive(Clone, Copy, Debug, PartialEq, Eq, Structural)]
pub enum GameError {
    /// No character has the asked id.
    CharacterNotFound(usize),
    /// A chat reply meant to hold a character holds no text.
    NoCharacterContent,
    /// A chat reply meant to hold a story message holds no text.
    NoMessageContent,
    /// The chat service did not answer the request for characters.
    CharacterRequestFailed,
    /// The messages that carry the game's context could not be built.
    ContextBuild,
    /// A chat request could not be built.
    RequestBuild,
}

/// What can go wrong on the server.
#[derive(Clone, Copy, Debug, PartialEq, Eq, Structural)]
pub enum ServerError {
    /// No room has the asked id.
    RoomNotFound,
}

/// The text that describes a game error.
pub open spec fn game_error_text(e: GameError) -> Seq<char> {
    match e {
        GameError::CharacterNotFound(id) => "player with id "@ + decimal(id as nat) + " not found"@,
        GameError::NoCharacterContent => "could not convert chat message to character"@,
        GameError::NoMessageContent => "Couldn't convert message"@,
        GameError::CharacterRequestFailed => "could not create a character"@,
        GameError::ContextBuild => "Couldn't build context"@,
        GameError::RequestBuild => "could not build the chat request"@,
    }
}

/// The text that describes a server error.
pub open spec fn server_error_text(e: ServerError) -> Seq<char> {
    match e {
        ServerError::RoomNotFound => "room not found"@,
    }
}

impl GameError {
    /// The error's text, as the game reports it.
    pub fn describe(&self) -> (s: String)
        ensures
            s@ == game_error_text(*self),
    {
        match self {
            GameError::CharacterNotFound(id) => {
                let mut s = String::from_str("player with id ");
                let n = usize_to_decimal(*id);
                s.append(n.as_str());
                s.append(" not found");
                s
            },
            GameError::NoCharacterContent => String::from_str("could not convert chat message to character"),
            GameError::NoMessageContent => String::from_str("Couldn't convert message"),
            GameError::CharacterRequestFailed => String::from_str("could not create a character"),
            GameError::ContextBuild => String::from_str("Couldn't build context"),
            GameError::RequestBuild => String::from_str("could not build the chat request"),
        }
    }
}

impl ServerError {
    /// The error's text, as the server reports it.
    pub fn describe(&self) -> (s: String)
        ensures
            s@ == server_error_text(*self),
    {
        match self {
            ServerError::RoomNotFound => String::from_str("room not found"),
        }
    }
}

} // verus!
