use vstd::prelude::*;

use crate::text::same_text;

verus! {

/// A direction key.
#[derive(Debug, Clone, Copy, PartialEq, Eq, Structural)]
pub enum Move {
    Up,
    Down,
    Left,
    Right,
}

/// Whether a key went down or up.
#[derive(Debug, Clone, Copy, PartialEq, Eq, Structural)]
pub enum KeyActionKind {
    Pressed,
    Released,
}

/// What a client sends to the game server.
#[derive(Debug, Clone, Copy, PartialEq, Eq, Structural)]
pub enum Message {
    Join,
    Move(KeyActionKind, Move),
    HeroDash,
    HeroAttack,
    RequestFrameNumber,
}

/// What a key event asks the hero to do.
#[derive(Debug, Clone, Copy, PartialEq, Eq, Structural)]
pub enum KeyAction {
    Move(KeyActionKind, Move),
    Dash,
    Attack,
    Nothing,
}

/// The action of the key with the browser key code `code`: `W`, `S`, `A`, `D`
/// move up, down, left and right (pressed or released); pressing a shift key
/// dashes and pressing space attacks; anything else does nothing.
pub open spec fn key_action_of(code: Seq<char>, kind: KeyActionKind) -> KeyAction {
    if code == "KeyW"@ {
        KeyAction::Move(kind, Move::Up)
    } else if code == "KeyS"@ {
        KeyAction::Move(kind, Move::Down)
    } else if code == "KeyA"@ {
        KeyAction::Move(kind, Move::Left)
    } else if code == "KeyD"@ {
        KeyAction::Move(kind, Move::Right)
    } else if code == "ShiftLeft"@ || code == "ShiftRight"@ {
        if kind == KeyActionKind::Pressed {
            KeyAction::Dash
        } else {
            KeyAction::Nothing
        }
    } else if code == "Space"@ {
        if kind == KeyActionKind::Pressed {
            KeyAction::Attack
        } else {
            KeyAction::Nothing
        }
    } else {
        KeyAction::Nothing
    }
}

/// Law: the four direction keys move the hero four different ways (`W` up,
/// `S` down, `A` left, `D` right) and keep whether the key went down or up;
/// a shift key dashes and space attacks only when pressed.
pub proof fn lemma_key_codes(kind: KeyActionKind)
    ensures
        key_action_of("KeyW"@, kind) == KeyAction::Move(kind, Move::Up),
        key_action_of("KeyS"@, kind) == KeyAction::Move(kind, Move::Down),
        key_action_of("KeyA"@, kind) == KeyAction::Move(kind, Move::Left),
        key_action_of("KeyD"@, kind) == KeyAction::Move(kind, Move::Right),
        key_action_of("ShiftLeft"@, kind) == (if kind == KeyActionKind::Pressed {
            KeyAction::Dash
        } else {
            KeyAction::Nothing
        }),
        key_action_of("ShiftRight"@, kind) == (if kind == KeyActionKind::Pressed {
            KeyAction::Dash
        } else {
            KeyAction::Nothing
        }),
        key_action_of("Space"@, kind) == (if kind == KeyActionKind::Pressed {
            KeyAction::Attack
        } else {
            KeyAction::Nothing
        }),
{
    reveal_strlit("KeyW");
    reveal_strlit("KeyS");
    reveal_strlit("KeyA");
    reveal_strlit("KeyD");
    reveal_strlit("ShiftLeft");
    reveal_strlit("ShiftRight");
    reveal_strlit("Space");
    assert("KeyS"@[3] != "KeyW"@[3]);
    assert("KeyA"@[3] != "KeyW"@[3] && "KeyA"@[3] != "KeyS"@[3]);
    assert("KeyD"@[3] != "KeyW"@[3] && "KeyD"@[3] != "KeyS"@[3] && "KeyD"@[3] != "KeyA"@[3]);
    assert("ShiftLeft"@.len() != 4 && "ShiftRight"@.len() != 4 && "Space"@.len() != 4);
}

/// Maps a key event, given by its key code, to what the hero does.
pub fn key_action(code: &str, kind: KeyActionKind) -> (action: KeyAction)
    ensures
        action == key_action_of(code@, kind),
        code@ == "KeyW"@ ==> action == KeyAction::Move(kind, Move::Up),
        code@ == "KeyS"@ ==> action == KeyAction::Move(kind, Move::Down),
        code@ == "KeyA"@ ==> action == KeyAction::Move(kind, Move::Left),
        code@ == "KeyD"@ ==> action == KeyAction::Move(kind, Move::Right),
{
    proof {
        lemma_key_codes(kind);
    }
    let attack_or_dash = match kind {
        KeyActionKind::Pressed => true,
        KeyActionKind::Released => false,
    };
    if same_text(code, "KeyW") {
        KeyAction::Move(kind, Move::Up)
    } else if same_text(code, "KeyS") {
        KeyAction::Move(kind, Move::Down)
    } else if same_text(code, "KeyA") {
        KeyAction::Move(kind, Move::Left)
    } else if same_text(code, "KeyD") {
        KeyAction::Move(kind, Move::Right)
    } else if same_text(code, "ShiftLeft") || same_text(code, "ShiftRight") {
        if attack_or_dash {
            KeyAction::Dash
        } else {
            KeyAction::Nothing
        }
    } else if same_text(code, "Space") {
        if attack_or_dash {
            KeyAction::Attack
        } else {
            KeyAction::Nothing
        }
    } else {
        KeyAction::Nothing
    }
}

/// The message a key action sends to the server, if any.
pub fn key_action_message(action: KeyAction) -> (message: Option<Message>)
    ensures
        message == match action {
            KeyAction::Move(kind, movement) => Some(Message::Move(kind, movement)),
            KeyAction::Dash => Some(Message::HeroDash),
            KeyAction::Attack => Some(Message::HeroAttack),
            KeyAction::Nothing => None::<Message>,
        },
{
    match action {
        KeyAction::Move(kind, movement) => Some(Message::Move(kind, movement)),
        KeyAction::Dash => Some(Message::HeroDash),
        KeyAction::Attack => Some(Message::HeroAttack),
        KeyAction::Nothing => None,
    }
}

} // verus!
