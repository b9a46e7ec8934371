//! Game state, room registry and page models of a text-based role-playing game
//! whose story is told by a chat model.
pub mod chat;
pub mod error;
pub mod game;
pub mod outcome;
pub mod text;
pub mod server;
pub mod ui;
