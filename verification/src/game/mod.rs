pub mod character;
pub mod message;
pub mod settings;

use std::collections::HashMap;
use vstd::prelude::*;
use vstd::std_specs::hash::spec_hash_map_iter;
use vstd::std_specs::iter::IteratorSpec;
use async_openai::types::{ChatCompletionRequestMessage, CreateChatCompletionRequest};
use crate::chat::{
    build_chat_request, messages_to_openai, openai_fields, openai_message_fields, openai_request_is, plain_messages,
    ChatMessage, ChatRequest, ReplyFormat, Role,
};
use crate::error::GameError;
use crate::text::{join, join_strings, views};
use self::character::Character;
use self::message::{message_display, message_text, Message};
use self::settings::Settings;

verus! {

broadcast use vstd::std_specs::hash::group_hash_axioms;

/// What the story model is told of the game.
#[derive(Debug)]
pub struct Context {
    pub config: String,
    pub players: Vec<String>,
    pub location: String,
    pub story: Vec<String>,
}

/// The context as text.
pub struct ContextView {
    pub config: Seq<char>,
    pub players: Seq<Seq<char>>,
    pub location: Seq<char>,
    pub story: Seq<Seq<char>>,
}

impl View for Context {
    type V = ContextView;

    open spec fn view(&self) -> ContextView {
        ContextView {
            config: self.config@,
            players: views(self.players@),
            location: self.location@,
            story: views(self.story@),
        }
    }
}

/// The model that tells the story.
pub const STORY_MODEL: &'static str = "gpt-3.5-turbo";

/// The line separator of the context's lists.
pub const LINE_BREAK: &'static str = "\n";

/// A game: its settings, the context told to the story model, the players'
/// characters by id, and the story so far.
#[derive(Debug)]
pub struct Game {
    settings: Settings,
    context: Context,
    characters: HashMap<usize, Character>,
    messages: Vec<Message>,
}

/// A game as values.
pub struct GameView {
    pub player_count: usize,
    pub context: ContextView,
    pub characters: Map<usize, Character>,
    pub messages: Seq<Message>,
}

impl View for Game {
    type V = GameView;

    closed spec fn view(&self) -> GameView {
        GameView {
            player_count: self.settings.player_count,
            context: self.context@,
            characters: self.characters@,
            messages: self.messages@,
        }
    }
}

/// The author and text of each message that tells the context: the configuration
/// as the system's, then the players' names one per line, the location, and the
/// story one message per line, each as the user's.
pub open spec fn context_fields(c: ContextView) -> Seq<(Role, Seq<char>)> {
    seq![
        (Role::System, c.config),
        (Role::User, join(c.players, LINE_BREAK@)),
        (Role::User, c.location),
        (Role::User, join(c.story, LINE_BREAK@)),
    ]
}

/// The messages that tell a context are four, in this order: the configuration as
/// the system's, the players' names joined with line breaks, the location, and the
/// story's lines joined with line breaks, each as the user's.
pub proof fn lemma_context_messages(c: ContextView)
    ensures
        context_fields(c).len() == 4,
        context_fields(c)[0] == (Role::System, c.config),
        context_fields(c)[1] == (Role::User, join(c.players, "\n"@)),
        context_fields(c)[2] == (Role::User, c.location),
        context_fields(c)[3] == (Role::User, join(c.story, "\n"@)),
        context_fields(c)[2].1.len() == c.location.len(),
{
}

/// The empty context.
pub open spec fn empty_context() -> ContextView {
    ContextView {
        config: Seq::empty(),
        players: Seq::empty(),
        location: Seq::empty(),
        story: Seq::empty(),
    }
}

/// The characters after the given ones were added, the i-th under id i.
pub open spec fn with_characters(old_characters: Map<usize, Character>, added: Seq<Character>) -> Map<usize, Character> {
    Map::new(
        |k: usize| old_characters.contains_key(k) || k < added.len(),
        |k: usize| if k < added.len() { added[k as int] } else { old_characters[k] },
    )
}

/// The story after the chat model's reply: its first choice's text, where there is
/// one, becomes a message of the game master.
pub open spec fn story_after_reply(story: Seq<Message>, first_choice: Option<Option<String>>) -> Seq<Message> {
    match first_choice {
        Some(Some(content)) => story.push(Message::Master { content }),
        _ => story,
    }
}

impl Context {
    /// A context that tells nothing.
    pub fn new() -> (c: Context)
        ensures
            c@ == empty_context(),
    {
        let c = Context {
            config: String::new(),
            players: Vec::new(),
            location: String::new(),
            story: Vec::new(),
        };
        assert(c@.players =~= Seq::<Seq<char>>::empty());
        assert(c@.story =~= Seq::<Seq<char>>::empty());
        c
    }

    /// The messages that tell the context to the story model: the configuration as
    /// the system's, then the players' names one per line, the location, and the
    /// story one message per line, each as the user's.
    pub fn request_messages(&self) -> (m: Vec<ChatMessage>)
        ensures
            m.len() == 4,
            m[0].role == Role::System,
            m[0].content@ == self.config@,
            m[1].role == Role::User,
            m[1].content@ == join(self@.players, LINE_BREAK@),
            m[2].role == Role::User,
            m[2].content@ == self.location@,
            m[3].role == Role::User,
            m[3].content@ == join(self@.story, LINE_BREAK@),
    {
        let mut m: Vec<ChatMessage> = Vec::new();
        m.push(ChatMessage::new(Role::System, self.config.clone()));
        m.push(ChatMessage::new(Role::User, join_strings(&self.players, LINE_BREAK)));
        m.push(ChatMessage::new(Role::User, self.location.clone()));
        m.push(ChatMessage::new(Role::User, join_strings(&self.story, LINE_BREAK)));
        m
    }

    /// The context's messages in the form that async-openai sends.
    pub fn to_openai(&self) -> (r: Result<Vec<ChatCompletionRequestMessage>, GameError>)
        ensures
            r matches Ok(v) && v.len() == 4 && openai_fields(v@) == context_fields(self@),
            r matches Ok(v) && openai_message_fields(v[0]) == (Role::System, self.config@),
            r matches Ok(v) && openai_message_fields(v[1]) == (Role::User, join(views(self.players@), "\n"@)),
            r matches Ok(v) && openai_message_fields(v[2]) == (Role::User, self.location@),
            r matches Ok(v) && openai_message_fields(v[3]) == (Role::User, join(views(self.story@), "\n"@)),
    {
        let m = self.request_messages();
        let r = messages_to_openai(&m, GameError::ContextBuild);
        assert(plain_messages(m@) =~= context_fields(self@));
        proof {
            if r is Ok {
                let v = r->Ok_0;
                assert(openai_fields(v@)[0] == openai_message_fields(v[0]));
                assert(openai_fields(v@)[1] == openai_message_fields(v[1]));
                assert(openai_fields(v@)[2] == openai_message_fields(v[2]));
                assert(openai_fields(v@)[3] == openai_message_fields(v[3]));
            }
        }
        r
    }
}

/// The names of the characters, listed in the order of `keys`.
pub open spec fn names_in_order(characters: Map<usize, Character>, keys: Seq<usize>) -> Seq<Seq<char>> {
    keys.map_values(|k: usize| characters[k].name@)
}

/// The texts of the story's messages, in order.
pub open spec fn story_texts(story: Seq<Message>) -> Seq<Seq<char>> {
    story.map_values(|m: Message| message_text(m))
}

impl Context {
    /// The context of a game: its players' names, in the order in which the
    /// character map is walked, and the texts of its story; configuration and
    /// location are empty.
    pub fn from_game(game: &Game) -> (c: Context)
        ensures
            c@.config == Seq::<char>::empty(),
            c@.location == Seq::<char>::empty(),
            c@.story == story_texts(game@.messages),
            exists|keys: Seq<usize>|
                #![trigger names_in_order(game@.characters, keys)]
                {
                    &&& keys.no_duplicates()
                    &&& keys.to_set() == game@.characters.dom()
                    &&& c@.players == names_in_order(game@.characters, keys)
                },
    {
        let mut players: Vec<String> = Vec::new();
        let ghost mut keys: Seq<usize> = Seq::empty();
        for kv in it: game.characters.iter()
            invariant
                players@.len() == keys.len(),
                keys.len() == it.index(),
                it.seq() == spec_hash_map_iter(&game.characters).remaining(),
                forall|j: int| 0 <= j < keys.len() ==> keys[j] == *it.seq()[j].0,
                forall|j: int| 0 <= j < keys.len() ==> #[trigger] players@[j]@ == game.characters@[keys[j]].name@,
        {
            players.push(kv.1.name.clone());
            proof {
                keys = keys.push(*kv.0);
            }
        }
        proof {
            let v = spec_hash_map_iter(&game.characters).remaining();
            assert(keys.len() == v.len());
            assert forall|i: int, j: int| 0 <= i < keys.len() && 0 <= j < keys.len() && i != j
                implies keys[i] != keys[j] by {
                if keys[i] == keys[j] {
                    assert(game.characters@.contains_key(*v[i].0));
                    assert(game.characters@[*v[i].0] == *v[i].1);
                    assert(game.characters@[*v[j].0] == *v[j].1);
                    assert(v[i] == v[j]);
                }
            }
            assert forall|k: usize| game.characters@.dom().contains(k) implies keys.to_set().contains(k) by {
                assert(game.characters@.contains_key(k));
                assert(v.contains((&k, &game.characters@[k])));
                let i = choose|i: int| 0 <= i < v.len() && v[i] == (&k, &game.characters@[k]);
                assert(keys[i] == k);
            }
            assert forall|k: usize| keys.to_set().contains(k) implies game.characters@.dom().contains(k) by {
                let i = choose|i: int| 0 <= i < keys.len() && keys[i] == k;
                assert(game.characters@.contains_key(*v[i].0));
            }
            assert(keys.to_set() =~= game.characters@.dom());
            assert(views(players@) =~= names_in_order(game.characters@, keys));
        }
        let mut story: Vec<String> = Vec::new();
        let n = game.messages.len();
        let mut i: usize = 0;
        while i < n
            invariant
                n == game.messages@.len(),
                i <= n,
                views(story@) == story_texts(game.messages@.take(i as int)),
            decreases n - i,
        {
            let t = game.messages[i].content().clone();
            let ghost before = story@;
            story.push(t);
            assert(game.messages@.take(i + 1) =~= game.messages@.take(i as int).push(game.messages@[i as int]));
            assert(views(story@) =~= views(before).push(t@));
            assert(views(story@) =~= story_texts(game.messages@.take(i + 1)));
            i = i + 1;
        }
        assert(game.messages@.take(n as int) =~= game.messages@);
        let c = Context { config: String::new(), players, location: String::new(), story };
        assert(c@.players == names_in_order(game@.characters, keys));
        c
    }
}

impl Game {
    /// A new game with the given settings: no characters, no story, and a context
    /// that tells nothing.
    pub fn new(settings: Settings) -> (g: Game)
        ensures
            g@.player_count == settings.player_count,
            g@.context == empty_context(),
            g@.characters == Map::<usize, Character>::empty(),
            g@.messages == Seq::<Message>::empty(),
    {
        Game {
            settings,
            context: Context::new(),
            characters: HashMap::new(),
            messages: Vec::new(),
        }
    }

    /// How many characters the game asks for: its player count, as a byte.
    pub fn requested_character_count(&self) -> (n: u8)
        ensures
            n == self@.player_count % 256,
    {
        (self.settings.player_count % 256) as u8
    }

    /// Gives the game its characters: the i-th under id i.
    pub fn init(&mut self, characters: Vec<Character>)
        ensures
            final(self)@.characters == with_characters(old(self)@.characters, characters@),
            final(self)@.player_count == old(self)@.player_count,
            final(self)@.context == old(self)@.context,
            final(self)@.messages == old(self)@.messages,
    {
        let ghost added = characters@;
        let ghost start = self.characters@;
        let mut rest = characters;
        let n = rest.len();
        let mut i: usize = 0;
        while i < n
            invariant
                n == added.len(),
                i <= n,
                rest@ == added.skip(i as int),
                self.characters@ == Map::new(
                    |k: usize| start.contains_key(k) || k < i,
                    |k: usize| if k < i { added[k as int] } else { start[k] },
                ),
                self.settings == old(self).settings,
                self.context == old(self).context,
                self.messages == old(self).messages,
                start == old(self).characters@,
            decreases n - i,
        {
            let c = rest.remove(0);
            assert(c == added[i as int]);
            assert(rest@ =~= added.skip(i + 1));
            self.characters.insert(i, c);
            i = i + 1;
        }
        assert(self.characters@ =~= with_characters(start, added));
    }

    /// Adds a message to the story.
    pub fn push_msg(&mut self, msg: Message)
        ensures
            final(self)@.messages == old(self)@.messages.push(msg),
            final(self)@.player_count == old(self)@.player_count,
            final(self)@.context == old(self)@.context,
            final(self)@.characters == old(self)@.characters,
    {
        self.messages.push(msg);
    }

    /// Takes in a message broadcast in the game's room: adds it to the story and
    /// gives the line that shows it.
    pub fn receive_broadcast(&mut self, msg: Message) -> (line: String)
        ensures
            line@ == message_display(msg),
            final(self)@.messages == old(self)@.messages.push(msg),
            final(self)@.player_count == old(self)@.player_count,
            final(self)@.context == old(self)@.context,
            final(self)@.characters == old(self)@.characters,
    {
        let line = msg.to_display_string();
        self.push_msg(msg);
        line
    }

    /// The request that asks the story model to go on: the context's messages to
    /// the story model, in no particular reply format.
    pub fn next_chat(&self) -> (r: ChatRequest)
        ensures
            r.model@ == STORY_MODEL@,
            r.format == ReplyFormat::Unspecified,
            r.messages.len() == 4,
            r.messages[0].role == Role::System,
            r.messages[0].content@ == self@.context.config,
            r.messages[1].role == Role::User,
            r.messages[1].content@ == join(self@.context.players, LINE_BREAK@),
            r.messages[2].role == Role::User,
            r.messages[2].content@ == self@.context.location,
            r.messages[3].role == Role::User,
            r.messages[3].content@ == join(self@.context.story, LINE_BREAK@),
    {
        ChatRequest {
            model: String::from_str(STORY_MODEL),
            messages: self.context.request_messages(),
            format: ReplyFormat::Unspecified,
        }
    }

    /// The request that asks the story model to go on, in the form that
    /// async-openai sends: the context's messages, then the request built of them.
    pub fn next_request(&self) -> (r: Result<CreateChatCompletionRequest, GameError>)
        ensures
            r matches Ok(q) && openai_request_is(
                q,
                STORY_MODEL@,
                context_fields(self@.context),
                ReplyFormat::Unspecified,
            ),
    {
        let messages = match self.context.to_openai() {
            Ok(m) => m,
            Err(e) => {
                return Err(e);
            },
        };
        match build_chat_request(String::from_str(STORY_MODEL), messages) {
            Ok(r) => Ok(r),
            Err(_) => Err(GameError::RequestBuild),
        }
    }

    /// Takes in the story model's reply, given by the text of its first choice:
    /// where there is such a text, it joins the story as the game master's message.
    pub fn record_reply(&mut self, first_choice: Option<Option<String>>)
        ensures
            final(self)@.messages == story_after_reply(old(self)@.messages, first_choice),
            final(self)@.player_count == old(self)@.player_count,
            final(self)@.context == old(self)@.context,
            final(self)@.characters == old(self)@.characters,
    {
        if let Some(content) = first_choice {
            if let Ok(msg) = Message::from_reply_content(content) {
                self.push_msg(msg);
            }
        }
    }

    /// The story so far.
    pub fn messages(&self) -> (m: &[Message])
        ensures
            m@ == self@.messages,
    {
        self.messages.as_slice()
    }

    /// The characters by id.
    pub fn get_characters(&self) -> (c: &HashMap<usize, Character>)
        ensures
            c@ == self@.characters,
    {
        &self.characters
    }

    /// The character with the given id.
    pub fn get_character(&self, character_id: &usize) -> (r: Result<&Character, GameError>)
        ensures
            self@.characters.contains_key(*character_id) ==> r == Ok::<&Character, GameError>(
                &self@.characters[*character_id],
            ),
            !self@.characters.contains_key(*character_id) ==> r == Err::<&Character, GameError>(
                GameError::CharacterNotFound(*character_id),
            ),
    {
        match self.characters.get(character_id) {
            Some(c) => Ok(c),
            None => Err(GameError::CharacterNotFound(*character_id)),
        }
    }
}

/// After characters were given, the i-th of them is found under id i, and every
/// other id finds what it found before.
pub proof fn lemma_init_then_lookup(old_characters: Map<usize, Character>, added: Seq<Character>, id: usize)
    ensures
        id < added.len() ==> with_characters(old_characters, added).contains_key(id)
            && with_characters(old_characters, added)[id] == added[id as int],
        id >= added.len() ==> (with_characters(old_characters, added).contains_key(id)
            <==> old_characters.contains_key(id)),
        id >= added.len() && old_characters.contains_key(id) ==> with_characters(old_characters, added)[id]
            == old_characters[id],
{
}

/// A reply without text leaves the story as it was; a reply with text adds
/// exactly one message, the game master's.
pub proof fn lemma_reply_adds_at_most_one(story: Seq<Message>, first_choice: Option<Option<String>>)
    ensures
        (first_choice matches Some(Some(_))) ==> story_after_reply(story, first_choice).len() == story.len() + 1
            && story_after_reply(story, first_choice).last() is Master,
        !(first_choice matches Some(Some(_))) ==> story_after_reply(story, first_choice) == story,
{
}

} // verus!
