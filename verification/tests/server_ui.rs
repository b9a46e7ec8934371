use rusty_dungeons_and_dragons::error::ServerError;
use rusty_dungeons_and_dragons::game::character::{Ability, Character as GameCharacter};
use rusty_dungeons_and_dragons::game::message::{Message as GameMessage, RawMessage};
use rusty_dungeons_and_dragons::game::settings::Settings;
use rusty_dungeons_and_dragons::server::room::{Room, CLOSING_NOTICE};
use rusty_dungeons_and_dragons::server::AppState;
use rusty_dungeons_and_dragons::ui::characters::{join_cards, Character};
use rusty_dungeons_and_dragons::ui::lobby::{NewRoom, Room as ListedRoom};
use rusty_dungeons_and_dragons::ui::room::{agent_label, incoming_message, Page as RoomPage};
use rusty_dungeons_and_dragons::ui::utils::{into_page_or, into_response_or, render_or_else, Reply};
use rusty_dungeons_and_dragons::ui::{index, INDEX_CONTENT};

#[test]
fn rooms_get_ids_in_turn() {
    let mut s: AppState<&str> = AppState::new();
    assert_eq!(s.next_id(), 0);
    assert_eq!(s.add_room("first"), 0);
    assert_eq!(s.add_room("second"), 1);
    assert_eq!(s.add_room("third"), 2);
    assert_eq!(s.next_id(), 3);
    assert_eq!(s.rooms().len(), 3);
}

#[test]
fn added_room_is_found() {
    let mut s: AppState<String> = AppState::new();
    let id = s.add_room("tavern".to_string());
    assert_eq!(s.get_room(&id).unwrap(), "tavern");
    let other = s.add_room("crypt".to_string());
    assert_eq!(s.get_room(&id).unwrap(), "tavern");
    assert_eq!(s.get_room(&other).unwrap(), "crypt");
}

#[test]
fn missing_room_is_not_found() {
    let s: AppState<String> = AppState::new();
    match s.get_room(&5) {
        Err(e) => {
            assert_eq!(e, ServerError::RoomNotFound);
            assert_eq!(e.describe(), "room not found");
        }
        Ok(_) => panic!("no room 5"),
    }
}

#[test]
fn room_starts_empty() {
    let r = Room::new(Settings::new(4), "hall");
    assert_eq!(r.name, "hall");
    assert!(r.players.is_empty());
    assert!(r.game.messages().is_empty());
    assert_eq!(r.game.requested_character_count(), 4);
}

#[test]
fn connect_and_disconnect() {
    let mut r = Room::new(Settings::default(), "hall");
    assert_eq!(r.connect(7), 7);
    assert_eq!(r.connect(8), 8);
    assert_eq!(r.connect(7), 7);
    assert_eq!(r.players.len(), 2);
    r.disconnect(7);
    assert!(!r.players.contains(&7));
    assert!(r.players.contains(&8));
    r.disconnect(99);
    assert_eq!(r.players.len(), 1);
}

#[test]
fn failed_broadcast_sends_closing_notice() {
    assert!(Room::after_broadcast(true).is_none());
    match Room::after_broadcast(false) {
        Some(GameMessage::Generic(t)) => {
            assert_eq!(t, CLOSING_NOTICE);
            assert_eq!(t, "closing due to error");
        }
        _ => panic!("expected the closing notice"),
    }
}

#[test]
fn index_page() {
    let p = index();
    assert_eq!(p.title, "RDND");
    assert_eq!(p.content, INDEX_CONTENT);
    assert_eq!(p.content, "<div hx-get='/c/rooms' hx-trigger='load'></div>");
}

#[test]
fn render_or_else_picks_error_text() {
    assert_eq!(render_or_else::<()>(Ok("<p>x</p>".to_string()), "bad"), "<p>x</p>");
    assert_eq!(render_or_else(Err(()), "bad"), "bad");
}

#[test]
fn into_response_or_picks_error_text() {
    match into_response_or::<u8, ()>(Ok(3), "bad") {
        Reply::Response(v) => assert_eq!(v, 3),
        Reply::Text(_) => panic!("expected the response"),
    }
    match into_response_or::<u8, &str>(Err("boom"), "bad") {
        Reply::Text(t) => assert_eq!(t, "bad"),
        Reply::Response(_) => panic!("expected the text"),
    }
}

#[test]
fn into_page_or_shows_content_or_error() {
    let p = into_page_or::<()>("T", Ok("c".to_string()), "e");
    assert_eq!((p.title.as_str(), p.content.as_str()), ("T", "c"));
    let q = into_page_or("T", Err(1), "e");
    assert_eq!((q.title.as_str(), q.content.as_str()), ("T", "e"));
}

#[test]
fn lobby_models() {
    let n = NewRoom { name: "den".to_string(), player_count: 3 };
    assert_eq!(n.settings().player_count, 3);
    let r = ListedRoom::new("den", 4);
    assert_eq!((r.name.as_str(), r.id), ("den", 4));
}

#[test]
fn character_card_has_id_zero() {
    let c = GameCharacter {
        name: "Ann".to_string(),
        origin_story: "from the hills".to_string(),
        abilities: vec![
            Ability { name: "a".to_string(), description: "da".to_string() },
            Ability { name: "b".to_string(), description: "db".to_string() },
        ],
    };
    let card = Character::from_character(&c);
    assert_eq!(card.id, 0);
    assert_eq!(card.name, "Ann");
    assert_eq!(card.origin_story, "from the hills");
    assert_eq!(card.abilities.len(), 2);
    assert_eq!(card.abilities[1].name, "b");
    assert_eq!(card.abilities[1].description, "db");
}

#[test]
fn cards_are_joined_with_breaks() {
    let ok: Vec<Result<String, &str>> = vec![Ok("a".to_string()), Ok("b".to_string())];
    assert_eq!(join_cards(ok), Ok("a<br>b".to_string()));
    let bad: Vec<Result<String, &str>> = vec![Ok("a".to_string()), Err("x"), Err("y")];
    assert_eq!(join_cards(bad), Err("x"));
    let none: Vec<Result<String, &str>> = vec![];
    assert_eq!(join_cards(none), Ok(String::new()));
}

#[test]
fn room_page_shows_message_texts() {
    let story = vec![
        GameMessage::Generic("g".to_string()),
        GameMessage::Master { content: "m".to_string() },
        GameMessage::Player { player: 2, content: "p".to_string() },
    ];
    let page = RoomPage::new(3, "hall", &story);
    assert_eq!(page.id, 3);
    assert_eq!(page.name, "hall");
    let texts: Vec<&str> = page.messages.iter().map(|m| m.content.as_str()).collect();
    assert_eq!(texts, vec!["g", "m", "p"]);
}

#[test]
fn agent_label_names_the_browser() {
    assert_eq!(agent_label("127.0.0.1:5000", Some("Firefox".to_string())), "[127.0.0.1:5000] Firefox");
    assert_eq!(agent_label("1.2.3.4:1", None), "[1.2.3.4:1] Unknown browser");
}

#[test]
fn incoming_text_is_the_clients_message() {
    let m = incoming_message(RawMessage { message: "hello".to_string() }, 6);
    assert_eq!(m.to_display_string(), "player 6: hello");
}

#[test]
fn clients_get_ids_in_turn() {
    let mut r = Room::new(Settings::default(), "hall");
    assert_eq!(r.next_client, 0);
    assert_eq!(r.add_client(), 0);
    assert_eq!(r.add_client(), 1);
    assert_eq!(r.next_client, 2);
    assert!(r.players.contains(&0) && r.players.contains(&1));
}

#[test]
fn lobby_listing_keeps_order() {
    let entries = vec![(3usize, "b".to_string()), (1usize, "a".to_string())];
    let list = rusty_dungeons_and_dragons::ui::lobby::Rooms::listing(&entries);
    let got: Vec<(usize, &str)> = list.rooms.iter().map(|r| (r.id, r.name.as_str())).collect();
    assert_eq!(got, vec![(3, "b"), (1, "a")]);
}
