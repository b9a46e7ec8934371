use vstd::prelude::*;
use crate::game::message::{message_text, player_message, Message as GameMessage, RawMessage};

verus! {

/// A message as the room page shows it: its text.
#[derive(Debug)]
pub struct Message {
    pub content: String,
}

/// A room's page: the room's id and name and the story so far.
#[derive(Debug)]
pub struct Page {
    pub id: usize,
    pub name: String,
    pub messages: Vec<Message>,
}

/// The title of a room's page.
pub const ROOM_TITLE: &'static str = "RDND - room";

/// What a room's page shows when there is no such room.
pub const ROOM_NOT_FOUND: &'static str = "Room not found";

/// What a room's page shows when it cannot be rendered.
pub const ROOM_RENDER_ERROR: &'static str = "Couldn't render";

/// What is sent in place of a message that cannot be rendered.
pub const MESSAGE_RENDER_ERROR: &'static str = "Couldn't render message";

/// How a client is named when its browser does not say what it is.
pub const UNKNOWN_BROWSER: &'static str = "Unknown browser";

/// How a client is named: its address in brackets, then its browser.
pub open spec fn agent_text(addr: Seq<char>, user_agent: Option<String>) -> Seq<char> {
    "["@ + addr + "] "@ + match user_agent {
        Some(ua) => ua@,
        None => UNKNOWN_BROWSER@,
    }
}

impl Message {
    pub fn from_message(msg: &GameMessage) -> (m: Message)
        ensures
            m.content@ == message_text(*msg),
    {
        Message { content: msg.content().clone() }
    }
}

impl Page {
    /// The page of the room with the given id and name, showing the given story.
    pub fn new(id: usize, name: &str, messages: &[GameMessage]) -> (p: Page)
        ensures
            p.id == id,
            p.name@ == name@,
            p.messages.len() == messages.len(),
            forall|i: int| 0 <= i < messages.len() ==> #[trigger] p.messages[i].content@ == message_text(messages[i]),
    {
        let mut shown: Vec<Message> = Vec::new();
        let n = messages.len();
        let mut i: usize = 0;
        while i < n
            invariant
                n == messages.len(),
                i <= n,
                shown.len() == i,
                forall|j: int| 0 <= j < i ==> #[trigger] shown[j].content@ == message_text(messages[j]),
            decreases n - i,
        {
            shown.push(Message::from_message(&messages[i]));
            i = i + 1;
        }
        Page { id, name: name.to_owned(), messages: shown }
    }
}

/// How a client is named in the room: `[address] browser`.
pub fn agent_label(addr: &str, user_agent: Option<String>) -> (s: String)
    ensures
        s@ == agent_text(addr@, user_agent),
{
    let mut s = String::from_str("[");
    s.append(addr);
    s.append("] ");
    match user_agent {
        Some(ua) => s.append(ua.as_str()),
        None => s.append(UNKNOWN_BROWSER),
    }
    s
}

/// The message that a client's text makes in the room: the client's own.
pub fn incoming_message(raw: RawMessage, client_id: usize) -> (m: GameMessage)
    ensures
        m == player_message(GameMessage::Generic(raw.message), client_id),
        m == (GameMessage::Player { player: client_id, content: raw.message }),
{
    raw.into_message().as_player(client_id)
}

} // verus!
