use rustbreak::messages::{ChatMessage, MessageType};

#[test]
fn notification_fills_every_field() {
    let m = ChatMessage::notification("SISTEMA".to_string(), "oi".to_string(), "10:00:00".to_string());
    assert_eq!(m.username, "SISTEMA");
    assert_eq!(m.content, "oi");
    assert_eq!(m.timestamp, "10:00:00");
    assert_eq!(m.message_type, MessageType::SystemNotification);
}

#[test]
fn user_message_fills_every_field() {
    let m = ChatMessage::from_user("ana".to_string(), "olá".to_string(), "11:30:05".to_string());
    assert_eq!(m.username, "ana");
    assert_eq!(m.content, "olá");
    assert_eq!(m.timestamp, "11:30:05");
    assert_eq!(m.message_type, MessageType::UserMessage);
    let c = m.clone();
    assert_eq!(c.content, "olá");
}
