//! Messages exchanged between the server and its clients.
use vstd::prelude::*;
use crate::game_scene::GameSceneType;

verus! {

/// A message sent to the chat: who sent it, what it says, when, and of which kind.
#[derive(Debug)]
pub struct ChatMessage {
    pub username: String,
    pub content: String,
    pub timestamp: String,
    pub message_type: MessageType,
}

/// The kinds of chat message: written by a user, or a notification from the server.
#[derive(Clone, Copy, Debug, PartialEq, Eq)]
pub enum MessageType {
    UserMessage,
    SystemNotification,
}

/// The signals the server sends to a client. `Accepted` carries the name a
/// client registered with.
#[derive(Debug)]
pub enum EventSignal {
    Message(ChatMessage),
    Accepted(String),
    GameScene(GameSceneType),
    Error(String),
    Shutdown,
}

impl ChatMessage {
    /// A notification from the server, sent under the name `sender` at
    /// `timestamp`.
    pub fn notification(sender: String, content: String, timestamp: String) -> (m: ChatMessage)
        ensures
            m.username == sender,
            m.content == content,
            m.timestamp == timestamp,
            m.message_type == MessageType::SystemNotification,
    {
        ChatMessage { username: sender, content, timestamp, message_type: MessageType::SystemNotification }
    }

    /// A message that `username` wrote, sent at `timestamp`.
    pub fn from_user(username: String, content: String, timestamp: String) -> (m: ChatMessage)
        ensures
            m.username == username,
            m.content == content,
            m.timestamp == timestamp,
            m.message_type == MessageType::UserMessage,
    {
        ChatMessage { username, content, timestamp, message_type: MessageType::UserMessage }
    }
}

impl Clone for ChatMessage {
    fn clone(&self) -> (res: Self)
        ensures
            res == *self,
    {
        ChatMessage {
            username: self.username.clone(),
            content: self.content.clone(),
            timestamp: self.timestamp.clone(),
            message_type: self.message_type,
        }
    }
}

} // verus!
