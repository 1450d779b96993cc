use vstd::prelude::*;

use crate::client::{KeyActionKind, Message, Move};

verus! {

/// What reaches the game loop of the server: a request for the broadcaster
/// (`B`), a message of a client, or a client joining or leaving.
pub enum LoopMessage<B> {
    Broadcaster(Box<B>),
    Client(u128, Box<Message>),
    Join(u128),
    Leave(u128),
}

/// One thing the game loop does.
pub enum LoopAction<B> {
    /// Hand the request on to the broadcaster.
    Forward(B),
    /// Tell the broadcaster to close the connection of a client.
    CloseConnection(u128),
    /// Put a new hero for a client into the scene.
    AddCharacter(u128),
    /// Take the hero of a client out of the scene.
    RemoveCharacter(u128),
    /// Press or release a direction key of a client's hero.
    MoveHero(u128, KeyActionKind, Move),
    /// Send the whole scene to every client.
    SendScene,
}

/// The spec view of a loop action: requests for the broadcaster are not looked at.
pub enum LoopStep {
    Forward,
    CloseConnection(u128),
    AddCharacter(u128),
    RemoveCharacter(u128),
    MoveHero(u128, KeyActionKind, Move),
    SendScene,
}

pub open spec fn step_of<B>(action: LoopAction<B>) -> LoopStep {
    match action {
        LoopAction::Forward(_) => LoopStep::Forward,
        LoopAction::CloseConnection(id) => LoopStep::CloseConnection(id),
        LoopAction::AddCharacter(id) => LoopStep::AddCharacter(id),
        LoopAction::RemoveCharacter(id) => LoopStep::RemoveCharacter(id),
        LoopAction::MoveHero(id, kind, m) => LoopStep::MoveHero(id, kind, m),
        LoopAction::SendScene => LoopStep::SendScene,
    }
}

/// What the game loop does for a message: a broadcaster request is handed
/// on; a joining client gets a hero; a leaving client has its connection
/// closed and its hero taken out; a client's direction key moves its hero
/// (its other messages change nothing yet). Every change of the scene is
/// sent to all clients.
pub open spec fn loop_steps<B>(message: LoopMessage<B>) -> Seq<LoopStep> {
    match message {
        LoopMessage::Broadcaster(_) => seq![LoopStep::Forward],
        LoopMessage::Join(id) => seq![LoopStep::AddCharacter(id), LoopStep::SendScene],
        LoopMessage::Leave(id) => seq![
            LoopStep::CloseConnection(id),
            LoopStep::RemoveCharacter(id),
            LoopStep::SendScene,
        ],
        LoopMessage::Client(id, m) => match *m {
            Message::Move(kind, movement) => seq![LoopStep::MoveHero(id, kind, movement), LoopStep::SendScene],
            _ => seq![LoopStep::SendScene],
        },
    }
}

/// Decides what the game loop does for `message`.
pub fn handle_loop_message<B>(message: LoopMessage<B>) -> (actions: Vec<LoopAction<B>>)
    ensures
        actions@.map_values(|a: LoopAction<B>| step_of(a)) == loop_steps(message),
        message matches LoopMessage::Broadcaster(b) ==> actions@ =~= seq![LoopAction::Forward(*b)],
        message matches LoopMessage::Client(id, m) ==> (*m matches Message::Move(kind, movement)
            ==> (actions@.len() == 2 && actions@[1] is SendScene && (actions@[0] matches LoopAction::MoveHero(i, k, mv)
            && i == id && k == kind && mv == movement))),
{
    let mut actions = Vec::new();
    match message {
        LoopMessage::Broadcaster(request) => {
            actions.push(LoopAction::Forward(*request));
        },
        LoopMessage::Join(id) => {
            actions.push(LoopAction::AddCharacter(id));
            actions.push(LoopAction::SendScene);
        },
        LoopMessage::Leave(id) => {
            actions.push(LoopAction::CloseConnection(id));
            actions.push(LoopAction::RemoveCharacter(id));
            actions.push(LoopAction::SendScene);
        },
        LoopMessage::Client(id, m) => {
            match *m {
                Message::Move(kind, movement) => {
                    actions.push(LoopAction::MoveHero(id, kind, movement));
                },
                _ => {},
            }
            actions.push(LoopAction::SendScene);
        },
    }
    assert(actions@.map_values(|a: LoopAction<B>| step_of(a)) =~= loop_steps(message));
    proof {
        if actions@.len() == 2 {
            assert(step_of(actions@[0]) == loop_steps(message)[0]);
            assert(step_of(actions@[1]) == loop_steps(message)[1]);
        }
    }
    actions
}

/// Law: a client's direction key reaches its hero as it was sent (a release
/// stays a release, a press a press, on the same key), and the scene is then
/// sent; a client joining gets a hero, one leaving has its connection closed
/// and its hero taken out, and the scene is sent after either.
pub proof fn lemma_loop_messages_reach_the_scene<B>(id: u128, kind: KeyActionKind, movement: Move)
    ensures
        loop_steps::<B>(LoopMessage::Client(id, Box::new(Message::Move(kind, movement))))
            == seq![LoopStep::MoveHero(id, kind, movement), LoopStep::SendScene],
        loop_steps::<B>(LoopMessage::Join(id)) == seq![LoopStep::AddCharacter(id), LoopStep::SendScene],
        loop_steps::<B>(LoopMessage::Leave(id)) == seq![
            LoopStep::CloseConnection(id),
            LoopStep::RemoveCharacter(id),
            LoopStep::SendScene,
        ],
        loop_steps::<B>(LoopMessage::Client(id, Box::new(Message::HeroDash))) == seq![
            LoopStep::SendScene,
        ],
{
}

/// What the game loop does when its 10 ms timer fires: the scene has been
/// stepped; it is sent to every client only when the step changed something
/// that clients must learn of.
pub fn handle_tick<B>(scene_changed: bool) -> (actions: Vec<LoopAction<B>>)
    ensures
        actions@.map_values(|a: LoopAction<B>| step_of(a)) == (if scene_changed {
            seq![LoopStep::SendScene]
        } else {
            Seq::<LoopStep>::empty()
        }),
{
    let mut actions = Vec::new();
    if scene_changed {
        actions.push(LoopAction::SendScene);
    }
    assert(actions@.map_values(|a: LoopAction<B>| step_of(a)) =~= (if scene_changed {
        seq![LoopStep::SendScene]
    } else {
        Seq::<LoopStep>::empty()
    }));
    actions
}

} // verus!
