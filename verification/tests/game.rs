use rusty_dungeons_and_dragons::chat::{ReplyFormat, Role, JSON_OBJECT_FORMAT};
use rusty_dungeons_and_dragons::error::{GameError, ServerError};
use rusty_dungeons_and_dragons::game::character::{
    collect_characters, Ability, Character, CHARACTER_CREATOR_PROMPT, CHARACTER_MODEL, CREATE_ORDER,
};
use rusty_dungeons_and_dragons::game::message::{Message, RawMessage};
use rusty_dungeons_and_dragons::game::settings::Settings;
use rusty_dungeons_and_dragons::game::{Context, Game, STORY_MODEL};
use rusty_dungeons_and_dragons::outcome::collect_all;
use rusty_dungeons_and_dragons::text::{join_strings, usize_to_decimal};

fn character(name: &str) -> Character {
    Character {
        name: name.to_string(),
        origin_story: format!("{name} was born"),
        abilities: vec![Ability { name: "sneak".to_string(), description: "moves unseen".to_string() }],
    }
}

fn text(m: &Message) -> String {
    m.content().clone()
}

#[test]
fn settings_new_keeps_player_count() {
    assert_eq!(Settings::new(3).player_count, 3);
}

#[test]
fn settings_default_has_one_player() {
    assert_eq!(Settings::default().player_count, 1);
}

#[test]
fn decimal_matches_format() {
    for n in [0usize, 7, 10, 42, 100, 1234, 999_999, usize::MAX] {
        assert_eq!(usize_to_decimal(n), format!("{n}"));
    }
}

#[test]
fn join_strings_matches_slice_join() {
    let empty: Vec<String> = vec![];
    assert_eq!(join_strings(&empty, "\n"), "");
    let one = vec!["a".to_string()];
    assert_eq!(join_strings(&one, "\n"), "a");
    let three = vec!["a".to_string(), "".to_string(), "bc".to_string()];
    assert_eq!(join_strings(&three, "<br>"), three.join("<br>"));
}

#[test]
fn as_player_turns_generic_and_master_into_player() {
    match Message::Generic("hi".to_string()).as_player(4) {
        Message::Player { player, content } => {
            assert_eq!(player, 4);
            assert_eq!(content, "hi");
        }
        _ => panic!("not a player's message"),
    }
    match (Message::Master { content: "lo".to_string() }).as_player(9) {
        Message::Player { player, content } => {
            assert_eq!(player, 9);
            assert_eq!(content, "lo");
        }
        _ => panic!("not a player's message"),
    }
}

#[test]
fn as_player_keeps_a_players_message() {
    match (Message::Player { player: 1, content: "x".to_string() }).as_player(2) {
        Message::Player { player, content } => {
            assert_eq!(player, 1);
            assert_eq!(content, "x");
        }
        _ => panic!("not a player's message"),
    }
}

#[test]
fn as_player_twice_is_as_player_once() {
    let once = Message::Generic("a".to_string()).as_player(3);
    let twice = Message::Generic("a".to_string()).as_player(3).as_player(8);
    assert_eq!(once.to_display_string(), twice.to_display_string());
}

#[test]
fn display_of_each_author() {
    assert_eq!(Message::Generic("hello".to_string()).to_display_string(), "generic: hello");
    assert_eq!((Message::Master { content: "go".to_string() }).to_display_string(), "master: go");
    assert_eq!(
        (Message::Player { player: 12, content: "hey".to_string() }).to_display_string(),
        "player 12: hey"
    );
}

#[test]
fn reply_content_becomes_master_message() {
    match Message::from_reply_content(Some("tale".to_string())) {
        Ok(Message::Master { content }) => assert_eq!(content, "tale"),
        _ => panic!("expected a master's message"),
    }
    match Message::from_reply_content(None) {
        Err(e) => {
            assert_eq!(e, GameError::NoMessageContent);
            assert_eq!(e.describe(), "Couldn't convert message");
        }
        Ok(_) => panic!("expected an error"),
    }
}

#[test]
fn raw_message_becomes_generic() {
    let m = RawMessage { message: "yo".to_string() }.into_message();
    assert_eq!(m.to_display_string(), "generic: yo");
}

#[test]
fn error_texts() {
    assert_eq!(GameError::CharacterNotFound(7).describe(), "player with id 7 not found");
    assert_eq!(GameError::NoCharacterContent.describe(), "could not convert chat message to character");
    assert_eq!(GameError::CharacterRequestFailed.describe(), "could not create a character");
    assert_eq!(GameError::ContextBuild.describe(), "Couldn't build context");
    assert_eq!(GameError::RequestBuild.describe(), "could not build the chat request");
    assert_eq!(ServerError::RoomNotFound.describe(), "room not found");
}

#[test]
fn creation_request_asks_for_one_json_character() {
    let r = Character::creation_request();
    assert_eq!(r.model, CHARACTER_MODEL);
    assert_eq!(r.model, "gpt-3.5-turbo-1106");
    assert_eq!(r.messages.len(), 2);
    assert_eq!(r.messages[0].role, Role::System);
    assert_eq!(r.messages[0].content, CHARACTER_CREATOR_PROMPT);
    assert!(r.messages[0].content.starts_with("you are a dungeons and dragons character creator\n"));
    assert!(r.messages[0].content.ends_with("return the character as JSON"));
    assert_eq!(r.messages[1].role, Role::User);
    assert_eq!(r.messages[1].content, CREATE_ORDER);
    assert_eq!(r.format, ReplyFormat::JsonObject { choices: 1 });
}

#[test]
fn creation_request_in_openai_form() {
    let built = Character::creation_request().to_openai().expect("request builds");
    let json = serde_json::to_value(&built).unwrap();
    assert_eq!(json["model"], "gpt-3.5-turbo-1106");
    assert_eq!(json["n"], 1);
    assert_eq!(json["response_format"]["type"], "json_object");
    assert_eq!(json["messages"][0]["role"], "system");
    assert_eq!(json["messages"][0]["content"], CHARACTER_CREATOR_PROMPT);
    assert_eq!(json["messages"][1]["role"], "user");
    assert_eq!(json["messages"][1]["content"], "[create]");
}

#[test]
fn json_object_format_is_read_by_serde() {
    let v: serde_json::Value = serde_json::from_str(JSON_OBJECT_FORMAT).unwrap();
    assert_eq!(v["type"], "json_object");
}

#[test]
fn service_failure_means_no_character() {
    let ok: Result<u8, &str> = Ok(5);
    assert_eq!(Character::service_reply(ok), Ok(5));
    let failed: Result<u8, &str> = Err("down");
    assert_eq!(Character::service_reply(failed), Err(GameError::CharacterRequestFailed));
}

#[test]
fn choice_content_needs_text() {
    assert_eq!(Character::choice_content(Some("{}".to_string())), Ok("{}".to_string()));
    assert_eq!(Character::choice_content(None), Err(GameError::NoCharacterContent));
}

#[test]
fn collect_characters_keeps_order_or_first_error() {
    let all: Vec<Result<Character, String>> = vec![Ok(character("a")), Ok(character("b"))];
    let got = collect_characters(all).unwrap();
    assert_eq!(got.iter().map(|c| c.name.clone()).collect::<Vec<_>>(), vec!["a", "b"]);
    let some: Vec<Result<Character, String>> =
        vec![Ok(character("a")), Err("first".to_string()), Err("second".to_string())];
    assert_eq!(collect_characters(some).unwrap_err(), "first");
}

#[test]
fn collect_all_matches_std_collect() {
    let v: Vec<Result<u8, u8>> = vec![Ok(1), Ok(2), Err(3), Ok(4), Err(5)];
    let expected: Result<Vec<u8>, u8> = v.clone().into_iter().collect();
    assert_eq!(collect_all(v), expected);
    let w: Vec<Result<u8, u8>> = vec![Ok(1), Ok(2)];
    assert_eq!(collect_all(w), Ok(vec![1, 2]));
    let e: Vec<Result<u8, u8>> = vec![];
    assert_eq!(collect_all(e), Ok(vec![]));
}

#[test]
fn new_game_is_empty() {
    let g = Game::new(Settings::new(2));
    assert!(g.messages().is_empty());
    assert!(g.get_characters().is_empty());
    assert_eq!(g.requested_character_count(), 2);
}

#[test]
fn requested_character_count_wraps_as_a_byte() {
    assert_eq!(Game::new(Settings::new(300)).requested_character_count(), 44);
    assert_eq!(Game::new(Settings::new(255)).requested_character_count(), 255);
    assert_eq!(Game::new(Settings::new(256)).requested_character_count(), 0);
}

#[test]
fn init_puts_the_ith_character_under_id_i() {
    let mut g = Game::new(Settings::new(2));
    g.init(vec![character("a"), character("b")]);
    assert_eq!(g.get_characters().len(), 2);
    assert_eq!(g.get_character(&0).unwrap().name, "a");
    assert_eq!(g.get_character(&1).unwrap().name, "b");
    match g.get_character(&2) {
        Err(e) => {
            assert_eq!(e, GameError::CharacterNotFound(2));
            assert_eq!(e.describe(), "player with id 2 not found");
        }
        Ok(_) => panic!("no character 2"),
    }
    g.init(vec![character("c")]);
    assert_eq!(g.get_character(&0).unwrap().name, "c");
    assert_eq!(g.get_character(&1).unwrap().name, "b");
}

#[test]
fn push_msg_appends_to_the_story() {
    let mut g = Game::new(Settings::default());
    g.push_msg(Message::Generic("one".to_string()));
    g.push_msg(Message::Master { content: "two".to_string() });
    let texts: Vec<String> = g.messages().iter().map(text).collect();
    assert_eq!(texts, vec!["one", "two"]);
}

#[test]
fn receive_broadcast_pushes_and_shows() {
    let mut g = Game::new(Settings::default());
    let line = g.receive_broadcast(Message::Player { player: 3, content: "hi".to_string() });
    assert_eq!(line, "player 3: hi");
    assert_eq!(g.messages().len(), 1);
}

#[test]
fn record_reply_adds_only_text() {
    let mut g = Game::new(Settings::default());
    g.record_reply(None);
    g.record_reply(Some(None));
    assert!(g.messages().is_empty());
    g.record_reply(Some(Some("the dragon wakes".to_string())));
    assert_eq!(g.messages().len(), 1);
    assert_eq!(g.messages()[0].to_display_string(), "master: the dragon wakes");
}

#[test]
fn context_from_game_lists_names_and_story() {
    let mut g = Game::new(Settings::new(2));
    g.init(vec![character("ann"), character("bob")]);
    g.push_msg(Message::Generic("x".to_string()));
    g.push_msg(Message::Player { player: 1, content: "y".to_string() });
    let c = Context::from_game(&g);
    assert_eq!(c.config, "");
    assert_eq!(c.location, "");
    assert_eq!(c.story, vec!["x", "y"]);
    let mut names = c.players.clone();
    names.sort();
    assert_eq!(names, vec!["ann", "bob"]);
}

#[test]
fn context_request_messages() {
    let c = Context {
        config: "cfg".to_string(),
        players: vec!["a".to_string(), "b".to_string()],
        location: "cave".to_string(),
        story: vec!["s1".to_string(), "s2".to_string(), "s3".to_string()],
    };
    let m = c.request_messages();
    assert_eq!(m.len(), 4);
    assert_eq!((m[0].role, m[0].content.as_str()), (Role::System, "cfg"));
    assert_eq!((m[1].role, m[1].content.as_str()), (Role::User, "a\nb"));
    assert_eq!((m[2].role, m[2].content.as_str()), (Role::User, "cave"));
    assert_eq!((m[3].role, m[3].content.as_str()), (Role::User, "s1\ns2\ns3"));
    let built = c.to_openai().unwrap();
    assert_eq!(built.len(), 4);
    let json = serde_json::to_value(&built).unwrap();
    assert_eq!(json[1]["content"], "a\nb");
    assert_eq!(json[3]["content"], "s1\ns2\ns3");
}

#[test]
fn next_request_uses_the_story_model() {
    let g = Game::new(Settings::default());
    let chat = g.next_chat();
    assert_eq!(chat.model, STORY_MODEL);
    assert_eq!(chat.format, ReplyFormat::Unspecified);
    assert_eq!(chat.messages.len(), 4);
    let json = serde_json::to_value(&g.next_request().unwrap()).unwrap();
    assert_eq!(json["model"], "gpt-3.5-turbo");
    assert_eq!(json["messages"].as_array().unwrap().len(), 4);
    assert!(json.get("response_format").is_none());
}

#[test]
fn character_openai_request_asks_for_one_json_object() {
    let built = Character::creation_openai_request().expect("request builds");
    let json = serde_json::to_value(&built).unwrap();
    assert_eq!(json["model"], "gpt-3.5-turbo-1106");
    assert_eq!(json["n"], 1);
    assert_eq!(json["response_format"]["type"], "json_object");
    assert_eq!(json["messages"].as_array().unwrap().len(), 2);
    assert_eq!(json["messages"][0]["content"], CHARACTER_CREATOR_PROMPT);
    assert_eq!(json["messages"][1]["content"], "[create]");
}
