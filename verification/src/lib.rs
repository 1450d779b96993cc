//! Rules and data of a small 2D action game: abilities, enemies and levels
//! made in an editor, fought over a websocket game server.

pub mod action;
pub mod attack;
pub mod broadcaster;
pub mod character;
pub mod client;
pub mod editor;
pub mod fight;
pub mod frame;
pub mod game_loop;
pub mod hero;
pub mod level;
pub mod list;
pub mod npc;
pub mod resource;
pub mod server;
pub mod text;
pub mod ui_app;
pub mod ws;
