//! What the desktop client's window hands to its websocket task, and what
//! the task sends on to the game server.

use vstd::prelude::*;

use crate::client::{KeyActionKind, Message, Move};

verus! {

/// A message from the window (or the connection) to the websocket task.
#[derive(Debug, Clone)]
pub enum LocalMessage {
    Connected,
    Disconnected,
    User(String),
    Move(KeyActionKind, Move),
    HeroDash,
    HeroAttack,
    RequestFrameNumber,
}

/// The name of a direction key, as its `Debug` writes it.
pub open spec fn move_name(movement: Move) -> Seq<char> {
    match movement {
        Move::Up => "Up"@,
        Move::Down => "Down"@,
        Move::Left => "Left"@,
        Move::Right => "Right"@,
    }
}

/// How a local message is shown in the log.
pub open spec fn local_message_text(message: LocalMessage) -> Seq<char> {
    match message {
        LocalMessage::Connected => "Connected successfully!"@,
        LocalMessage::Disconnected => "Connection lost... Retrying..."@,
        LocalMessage::User(text) => text@,
        LocalMessage::Move(KeyActionKind::Pressed, movement) => "Move key pressed "@ + move_name(
            movement,
        ),
        LocalMessage::Move(KeyActionKind::Released, movement) => "Move key released "@
            + move_name(movement),
        LocalMessage::HeroDash => "HeroDash"@,
        LocalMessage::HeroAttack => "HeroAttack"@,
        LocalMessage::RequestFrameNumber => "RequestFrameNumber"@,
    }
}

fn push_move_name(text: &mut String, movement: Move)
    ensures
        final(text)@ == old(text)@ + move_name(movement),
{
    match movement {
        Move::Up => text.append("Up"),
        Move::Down => text.append("Down"),
        Move::Left => text.append("Left"),
        Move::Right => text.append("Right"),
    }
}

impl LocalMessage {
    /// A message typed by the user; there is none for empty text.
    pub fn new(message: &str) -> (local: Option<Self>)
        ensures
            match local {
                Some(LocalMessage::User(text)) => message@.len() > 0 && text@ == message@,
                Some(_) => false,
                None => message@.len() == 0,
            },
    {
        if message.is_empty() {
            None
        } else {
            Some(LocalMessage::User(String::from_str(message)))
        }
    }

    pub fn connected() -> (local: Self)
        ensures
            local is Connected,
    {
        LocalMessage::Connected
    }

    pub fn disconnected() -> (local: Self)
        ensures
            local is Disconnected,
    {
        LocalMessage::Disconnected
    }

    /// The message, as its `Display` writes it.
    pub fn text(&self) -> (text: String)
        ensures
            text@ == local_message_text(*self),
    {
        let mut text = String::new();
        match self {
            LocalMessage::Connected => text.append("Connected successfully!"),
            LocalMessage::Disconnected => text.append("Connection lost... Retrying..."),
            LocalMessage::User(message) => text.append(message.as_str()),
            LocalMessage::Move(kind, movement) => {
                match kind {
                    KeyActionKind::Pressed => text.append("Move key pressed "),
                    KeyActionKind::Released => text.append("Move key released "),
                }
                push_move_name(&mut text, *movement);
            },
            LocalMessage::HeroDash => text.append("HeroDash"),
            LocalMessage::HeroAttack => text.append("HeroAttack"),
            LocalMessage::RequestFrameNumber => text.append("RequestFrameNumber"),
        }
        text
    }

    /// What the websocket task sends to the server for this message: the
    /// hero's moves, dashes and attacks, and requests for the frame number;
    /// nothing for the others, which are only logged.
    pub fn outgoing(&self) -> (message: Option<Message>)
        ensures
            message == match *self {
                LocalMessage::Move(kind, movement) => Some(Message::Move(kind, movement)),
                LocalMessage::HeroDash => Some(Message::HeroDash),
                LocalMessage::HeroAttack => Some(Message::HeroAttack),
                LocalMessage::RequestFrameNumber => Some(Message::RequestFrameNumber),
                _ => None::<Message>,
            },
    {
        match self {
            LocalMessage::Move(kind, movement) => Some(Message::Move(*kind, *movement)),
            LocalMessage::HeroDash => Some(Message::HeroDash),
            LocalMessage::HeroAttack => Some(Message::HeroAttack),
            LocalMessage::RequestFrameNumber => Some(Message::RequestFrameNumber),
            _ => None,
        }
    }
}

} // verus!
