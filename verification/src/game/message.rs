use vstd::prelude::*;
use crate::error::GameError;
use crate::text::{decimal, usize_to_decimal};

verus! {

/// A message of a game's story.
#[derive(Clone, Debug)]
pub enum Message {
    /// A message of no particular author.
    Generic(String),
    /// A message of the game master.
    Master { content: String },
    /// A message of a player.
    Player { player: usize, content: String },
}

/// The message as the given player says it: a generic or master message
/// becomes the player's, and a player's message stays as it is.
pub open spec fn player_message(m: Message, player: usize) -> Message {
    match m {
        Message::Generic(content) => Message::Player { player, content },
        Message::Master { content } => Message::Player { player, content },
        Message::Player { .. } => m,
    }
}

/// The text that a message carries, whoever wrote it.
pub open spec fn message_text(m: Message) -> Seq<char> {
    match m {
        Message::Generic(content) => content@,
        Message::Master { content } => content@,
        Message::Player { content, .. } => content@,
    }
}

/// How a message is written out: its author, a colon and its text.
pub open spec fn message_display(m: Message) -> Seq<char> {
    match m {
        Message::Generic(content) => "generic: "@ + content@,
        Message::Master { content } => "master: "@ + content@,
        Message::Player { player, content } => "player "@ + decimal(player as nat) + ": "@ + content@,
    }
}

impl Message {
    /// Turns the message into one said by `player`.
    pub fn as_player(self, player: usize) -> (m: Message)
        ensures
            m == player_message(self, player),
    {
        match self {
            Message::Generic(content) => Message::Player { player, content },
            Message::Master { content } => Message::Player { player, content },
            p => p,
        }
    }

    /// The text that the message carries.
    pub fn content(&self) -> (c: &String)
        ensures
            c@ == message_text(*self),
    {
        match self {
            Message::Generic(content) => content,
            Message::Master { content } => content,
            Message::Player { player: _, content } => content,
        }
    }

    /// The message written out as `{}` shows it.
    pub fn to_display_string(&self) -> (s: String)
        ensures
            s@ == message_display(*self),
            *self matches Message::Generic(c) ==> s@ == "generic: "@ + c@,
            *self matches Message::Master { content } ==> s@ == "master: "@ + content@,
            *self matches Message::Player { player, content } ==> s@ == "player "@ + decimal(
                player as nat,
            ) + ": "@ + content@,
    {
        match self {
            Message::Generic(content) => {
                let mut s = String::from_str("generic: ");
                s.append(content.as_str());
                s
            },
            Message::Master { content } => {
                let mut s = String::from_str("master: ");
                s.append(content.as_str());
                s
            },
            Message::Player { player, content } => {
                let mut s = String::from_str("player ");
                let n = usize_to_decimal(*player);
                s.append(n.as_str());
                s.append(": ");
                s.append(content.as_str());
                s
            },
        }
    }

    /// The game master's message that a chat reply with the given text carries;
    /// a reply without text carries none.
    pub fn from_reply_content(content: Option<String>) -> (r: Result<Message, GameError>)
        ensures
            match content {
                Some(c) => r == Ok::<Message, GameError>(Message::Master { content: c }),
                None => r == Err::<Message, GameError>(GameError::NoMessageContent),
            },
    {
        match content {
            Some(c) => Ok(Message::Master { content: c }),
            None => Err(GameError::NoMessageContent),
        }
    }
}

/// A message as a client sends it: its text alone.
#[derive(Debug)]
pub struct RawMessage {
    pub message: String,
}

impl RawMessage {
    /// The generic message that the client's text makes.
    pub fn into_message(self) -> (m: Message)
        ensures
            m == Message::Generic(self.message),
    {
        Message::Generic(self.message)
    }
}

/// The line that shows a message is its author's prefix followed by the message's
/// whole text: the line starts with the prefix, ends with all of the text, and is
/// exactly as long as both together, whatever the text's length.
pub proof fn lemma_display_shows_whole_text(m: Message)
    ensures
        message_display(m).len() >= message_text(m).len(),
        message_display(m).skip(message_display(m).len() - message_text(m).len()) == message_text(m),
        m matches Message::Generic(c) ==> message_display(m).take(9) == "generic: "@
            && message_display(m).len() == 9 + c@.len()
            && message_display(m).skip(9) == c@,
        m matches Message::Master { content } ==> message_display(m).take(8) == "master: "@
            && message_display(m).len() == 8 + content@.len()
            && message_display(m).skip(8) == content@,
        m matches Message::Player { player, content } ==> message_display(m).take(7) == "player "@
            && message_display(m).skip(message_display(m).len() - content@.len() - 2) == ": "@ + content@,
{
    reveal_strlit("generic: ");
    reveal_strlit("master: ");
    reveal_strlit("player ");
    reveal_strlit(": ");
    let d = message_display(m);
    match m {
        Message::Generic(c) => {
            assert(d.take(9) =~= "generic: "@);
            assert(d.skip(9) =~= c@);
            assert(d.skip(d.len() - c@.len()) =~= c@);
        },
        Message::Master { content } => {
            assert(d.take(8) =~= "master: "@);
            assert(d.skip(8) =~= content@);
            assert(d.skip(d.len() - content@.len()) =~= content@);
        },
        Message::Player { player, content } => {
            let digits = decimal(player as nat);
            assert(d == "player "@ + digits + ": "@ + content@);
            assert(d.take(7) =~= "player "@);
            assert(d.skip(d.len() - content@.len() - 2) =~= ": "@ + content@);
            assert(d.skip(d.len() - content@.len()) =~= content@);
        },
    }
}

/// Saying a message as a player twice is saying it once: the first player stays.
pub proof fn lemma_as_player_idempotent(m: Message, p: usize, q: usize)
    ensures
        player_message(player_message(m, p), q) == player_message(m, p),
{
}

/// A message said as a player is that player's unless it already was a player's,
/// and its text is kept.
pub proof fn lemma_as_player_keeps_text(m: Message, p: usize)
    ensures
        message_text(player_message(m, p)) == message_text(m),
        player_message(m, p) is Player,
        !(m is Player) ==> player_message(m, p) == (Message::Player { player: p, content: match m {
            Message::Generic(c) => c,
            Message::Master { content } => content,
            Message::Player { content, .. } => content,
        } }),
{
}

} // verus!
