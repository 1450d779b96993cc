//! The small editor of the one attack kept in `data/attack.json`.

use vstd::prelude::*;

use crate::attack::{AttackConstructor, AttackKind, AttackOrder, AttackState};
use crate::text::parse_u128;
use crate::editor::attack::item::typed_or;

verus! {

/// A request to the editor.
#[derive(Debug, Clone)]
pub enum Message {
    ReadFile,
    WriteFile,
    ChangeDelay(String),
    ChangeOrder(AttackOrder),
    ChangeKind(AttackKind),
}

/// What the caller must do after the editor handled a request.
#[derive(Debug, Clone, Copy, PartialEq, Eq, Structural)]
pub enum Request {
    /// Read the attack from the file.
    Reload,
    /// Write the attack to the file.
    Save,
}

/// Handles a request on the attack being edited, if one was read: a delay
/// typed that is not a number, and any change while no attack is open,
/// change nothing; there is nothing to write while no attack is open.
pub fn update<G>(attack: &mut Option<AttackConstructor<G>>, message: Message) -> (request: Option<
    Request,
>)
    ensures
        match message {
            Message::ReadFile => {
                &&& request == Some(Request::Reload)
                &&& *final(attack) == *old(attack)
            },
            Message::WriteFile => {
                &&& request == if *old(attack) is Some {
                    Some(Request::Save)
                } else {
                    None::<Request>
                }
                &&& *final(attack) == *old(attack)
            },
            Message::ChangeDelay(text) => {
                &&& request is None
                &&& *final(attack) == match *old(attack) {
                    Some(a) => Some(AttackConstructor { delay: typed_or(text@, a.delay), ..a }),
                    None => None,
                }
            },
            Message::ChangeOrder(order) => {
                &&& request is None
                &&& *final(attack) == match *old(attack) {
                    Some(a) => Some(AttackConstructor { order, ..a }),
                    None => None,
                }
            },
            Message::ChangeKind(kind) => {
                &&& request is None
                &&& *final(attack) == match *old(attack) {
                    Some(a) => Some(AttackConstructor { kind, ..a }),
                    None => None,
                }
            },
        },
{
    match message {
        Message::ReadFile => Some(Request::Reload),
        Message::WriteFile => {
            if attack.is_some() {
                Some(Request::Save)
            } else {
                None
            }
        },
        Message::ChangeDelay(value) => {
            if let Some(parsed) = parse_u128(value.as_str()) {
                if let Some(a) = attack {
                    a.delay = parsed;
                }
            }
            None
        },
        Message::ChangeOrder(order) => {
            if let Some(a) = attack {
                a.order = order;
            }
            None
        },
        Message::ChangeKind(kind) => {
            if let Some(a) = attack {
                a.kind = kind;
            }
            None
        },
    }
}

/// Takes the attack read from the file; when there is none, a new attack
/// with no name is opened, with `fresh` as its geometry.
pub fn reload<G>(
    attack: &mut Option<AttackConstructor<G>>,
    saved: Option<AttackConstructor<G>>,
    fresh: G,
)
    ensures
        match saved {
            Some(a) => *final(attack) == Some(a),
            None => *final(attack) matches Some(a) && a.name@ == Seq::<char>::empty() && a == (
            AttackConstructor {
                name: a.name,
                delay: 0,
                time_to_complete: 0,
                aftercast: 0,
                kind: AttackKind::Pizza,
                order: AttackOrder::CloseToFar,
                state: AttackState::Selected,
                geometry: fresh,
            }),
        },
{
    match saved {
        Some(a) => {
            *attack = Some(a);
        },
        None => {
            *attack = Some(AttackConstructor::new(String::new(), fresh));
        },
    }
}

} // verus!
