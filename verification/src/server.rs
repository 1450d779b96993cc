use vstd::prelude::*;

verus! {

/// Whether a scene runs on a client (which only shows what the server
/// decides) or on the server.
#[derive(Debug, Clone, Copy, PartialEq, Eq, Structural)]
pub enum Mode {
    Client,
    Server,
}

/// What a character does, as the server reports it.
#[derive(Debug, Clone, Copy, PartialEq, Eq, Structural)]
pub enum CharacterAction {
    Move,
    Update,
    UpdatePosition,
    Dash,
    Attack,
}

/// What an enemy does, as the server reports it.
#[derive(Debug, Clone, Copy, PartialEq, Eq, Structural)]
pub enum NpcAction {
    Move,
    Update,
    UpdatePosition,
    Attack,
}

/// An action of a character or an enemy, with its id.
#[derive(Debug, Clone, Copy, PartialEq, Eq, Structural)]
pub enum ServerAction {
    CharacterAction(u128, CharacterAction),
    NpcAction(u128, NpcAction),
}

/// The settings of the game server.
#[derive(Debug, Clone, Copy, PartialEq, Eq, Structural)]
pub struct Config {
    pub port: u32,
}

} // verus!
