//! Rules of a cooperative multiplayer quiz game played over a chat server.
pub mod game_scene;
pub mod messages;
pub mod player;
pub mod text;
pub mod game_session;
pub mod protocol;
pub mod game_loop;
pub mod laws;
