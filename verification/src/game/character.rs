use vstd::prelude::*;
use async_openai::types::CreateChatCompletionRequest;
use crate::chat::{openai_request_is, plain_messages, ChatMessage, ChatRequest, ReplyFormat, Role};
use crate::error::GameError;
use crate::outcome::{collect_all, collected};

verus! {

/// A player's character.
#[derive(Debug)]
pub struct Character {
    pub name: String,
    pub origin_story: String,
    pub abilities: Vec<Ability>,
}

/// Something a character can do.
#[derive(Debug)]
pub struct Ability {
    pub name: String,
    pub description: String,
}

/// The model that creates characters.
pub const CHARACTER_MODEL: &'static str = "gpt-3.5-turbo-1106";

/// What the model that creates characters is told to do.
pub const CHARACTER_CREATOR_PROMPT: &'static str = "you are a dungeons and dragons character creator\non [create] create a balanced character\ncharacter needs to have:\n- name\n- origin_story - 1 paragraph\n- abilities - between 2 to 4, consisting of name and description\nreturn the character as JSON";

/// The order that makes the model create a character.
pub const CREATE_ORDER: &'static str = "[create]";

impl Character {
    /// The request that asks the chat model for one character, in JSON form.
    pub fn creation_request() -> (r: ChatRequest)
        ensures
            r.model@ == CHARACTER_MODEL@,
            r.messages.len() == 2,
            r.messages[0].role == Role::System,
            r.messages[0].content@ == CHARACTER_CREATOR_PROMPT@,
            r.messages[1].role == Role::User,
            r.messages[1].content@ == CREATE_ORDER@,
            r.format == (ReplyFormat::JsonObject { choices: 1 }),
    {
        let mut messages: Vec<ChatMessage> = Vec::new();
        messages.push(ChatMessage::new(Role::System, String::from_str(CHARACTER_CREATOR_PROMPT)));
        messages.push(ChatMessage::new(Role::User, String::from_str(CREATE_ORDER)));
        ChatRequest {
            model: String::from_str(CHARACTER_MODEL),
            messages,
            format: ReplyFormat::JsonObject { choices: 1 },
        }
    }

    /// The request for one character in the form that async-openai sends: it names
    /// the character model, holds the creator prompt as the system's message and the
    /// create order as the user's, and asks for one reply in the JSON-object format.
    pub fn creation_openai_request() -> (r: Result<CreateChatCompletionRequest, GameError>)
        ensures
            r matches Ok(q) && openai_request_is(
                q,
                CHARACTER_MODEL@,
                seq![(Role::System, CHARACTER_CREATOR_PROMPT@), (Role::User, CREATE_ORDER@)],
                ReplyFormat::JsonObject { choices: 1 },
            ),
    {
        let request = Character::creation_request();
        let r = request.to_openai();
        assert(plain_messages(request.messages@) =~= seq![
            (Role::System, CHARACTER_CREATOR_PROMPT@),
            (Role::User, CREATE_ORDER@),
        ]);
        r
    }

    /// The chat service's answer to the request for characters: where the service
    /// failed, no character can be created.
    pub fn service_reply<T, E>(reply: Result<T, E>) -> (r: Result<T, GameError>)
        ensures
            match reply {
                Ok(t) => r == Ok::<T, GameError>(t),
                Err(_) => r == Err::<T, GameError>(GameError::CharacterRequestFailed),
            },
    {
        match reply {
            Ok(t) => Ok(t),
            Err(_) => Err(GameError::CharacterRequestFailed),
        }
    }

    /// The text of a chat reply that should describe a character; a reply
    /// without text describes none.
    pub fn choice_content(content: Option<String>) -> (r: Result<String, GameError>)
        ensures
            match content {
                Some(c) => r == Ok::<String, GameError>(c),
                None => r == Err::<String, GameError>(GameError::NoCharacterContent),
            },
    {
        match content {
            Some(c) => Ok(c),
            None => Err(GameError::NoCharacterContent),
        }
    }
}

/// Collects the characters that the replies give, in order, stopping at the first
/// reply that gives none.
pub fn collect_characters<E>(outcomes: Vec<Result<Character, E>>) -> (r: Result<Vec<Character>, E>)
    ensures
        match r {
            Ok(v) => collected(outcomes@) == Ok::<Seq<Character>, E>(v@),
            Err(e) => collected(outcomes@) == Err::<Seq<Character>, E>(e),
        },
{
    collect_all(outcomes)
}

} // verus!
