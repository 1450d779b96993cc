use shared::broadcaster::{BroadcastMessage, Broadcaster, Notice};
use shared::client::{key_action, key_action_message, KeyAction, KeyActionKind, Message, Move};
use shared::frame::FrameSync;
use shared::game_loop::{handle_loop_message, handle_tick, LoopAction, LoopMessage};

#[test]
fn broadcaster_adds_and_removes_writers() {
    let mut b: Broadcaster<&str> = Broadcaster::new();
    assert_eq!(b.len(), 0);
    assert!(!b.add_writer(1, "a"));
    assert!(!b.add_writer(2, "b"));
    assert!(b.add_writer(1, "c"));
    assert_eq!(b.len(), 2);
    assert_eq!(b.ids(), vec![1, 2]);
    assert_eq!(b.remove_writer(1), Some("c"));
    assert_eq!(b.remove_writer(1), None);
    assert_eq!(b.ids(), vec![2]);
    assert!(b.contains(2));
    assert!(!b.contains(1));
}

#[test]
fn broadcaster_plans_deliveries() {
    let mut b: Broadcaster<&str> = Broadcaster::new();
    let d = b.handle_message(BroadcastMessage::<&str, u8>::AddWriter(5, "w5"));
    assert!(d.notices.is_empty() && d.recipients.is_empty() && d.message.is_none());
    let d = b.handle_message(BroadcastMessage::<&str, u8>::AddWriter(5, "w5b"));
    assert_eq!(d.notices, vec![Notice::ReplacedWriter(5)]);
    b.add_writer(6, "w6");
    let d = b.handle_message(BroadcastMessage::SendMessage(9, 1u8));
    assert_eq!(d.message, Some(1));
    assert!(d.recipients.is_empty());
    assert_eq!(d.notices, vec![Notice::NoWriterToSend(9)]);
    let d = b.handle_message(BroadcastMessage::SendMessageList(vec![6, 9, 5], 2u8));
    assert_eq!(d.recipients, vec![6, 5]);
    assert_eq!(d.notices, vec![Notice::NoWriterToSend(9)]);
    let d = b.handle_message(BroadcastMessage::SendMessageToAll(3u8));
    assert_eq!(d.recipients, vec![5, 6]);
    let d = b.handle_message(BroadcastMessage::<&str, u8>::CloseConnection(5));
    assert_eq!(d.closing, Some((5, "w5b")));
    let d = b.handle_message(BroadcastMessage::<&str, u8>::CloseConnection(5));
    assert_eq!(d.notices, vec![Notice::NoWriterToClose(5)]);
    let d = b.handle_message(BroadcastMessage::<&str, u8>::RemoveWriter(5));
    assert_eq!(d.notices, vec![Notice::NoWriterToRemove(5)]);
    let d = b.handle_message(BroadcastMessage::<&str, u8>::RemoveWriter(6));
    assert!(d.notices.is_empty());
    assert_eq!(b.len(), 0);
}

fn kinds(actions: &[LoopAction<&str>]) -> Vec<String> {
    actions
        .iter()
        .map(|a| match a {
            LoopAction::Forward(x) => format!("forward {x}"),
            LoopAction::CloseConnection(id) => format!("close {id}"),
            LoopAction::AddCharacter(id) => format!("add {id}"),
            LoopAction::RemoveCharacter(id) => format!("remove {id}"),
            LoopAction::MoveHero(id, _, _) => format!("move {id}"),
            LoopAction::SendScene => "scene".to_string(),
        })
        .collect()
}

#[test]
fn game_loop_decisions() {
    let a = handle_loop_message(LoopMessage::Join(3));
    assert_eq!(kinds(&a), vec!["add 3", "scene"]);
    let a = handle_loop_message::<&str>(LoopMessage::Leave(3));
    assert_eq!(kinds(&a), vec!["close 3", "remove 3", "scene"]);
    let a = handle_loop_message::<&str>(LoopMessage::Client(
        4,
        Box::new(Message::Move(KeyActionKind::Pressed, Move::Left)),
    ));
    assert_eq!(kinds(&a), vec!["move 4", "scene"]);
    let a = handle_loop_message::<&str>(LoopMessage::Client(4, Box::new(Message::HeroDash)));
    assert_eq!(kinds(&a), vec!["scene"]);
    let a = handle_loop_message(LoopMessage::Broadcaster(Box::new("req")));
    assert_eq!(kinds(&a), vec!["forward req"]);
    assert_eq!(kinds(&handle_tick::<&str>(true)), vec!["scene"]);
    assert!(handle_tick::<&str>(false).is_empty());
}

#[test]
fn key_codes_map_to_actions() {
    assert_eq!(key_action("KeyW", KeyActionKind::Pressed), KeyAction::Move(KeyActionKind::Pressed, Move::Up));
    assert_eq!(key_action("KeyD", KeyActionKind::Released), KeyAction::Move(KeyActionKind::Released, Move::Right));
    assert_eq!(key_action("ShiftRight", KeyActionKind::Pressed), KeyAction::Dash);
    assert_eq!(key_action("ShiftLeft", KeyActionKind::Released), KeyAction::Nothing);
    assert_eq!(key_action("Space", KeyActionKind::Pressed), KeyAction::Attack);
    assert_eq!(key_action("Space", KeyActionKind::Released), KeyAction::Nothing);
    assert_eq!(key_action("KeyQ", KeyActionKind::Pressed), KeyAction::Nothing);
    assert_eq!(key_action_message(KeyAction::Dash), Some(Message::HeroDash));
    assert_eq!(key_action_message(KeyAction::Nothing), None);
}

#[test]
fn frame_sync_requests_every_second() {
    let mut sync = FrameSync::new(1000);
    assert!(!sync.tick(1500));
    assert!(!sync.tick(2000));
    assert_eq!(sync.frames_passed_since_request, 2);
    assert!(sync.tick(2001));
    assert_eq!(sync.frames_passed_since_request, 0);
    assert_eq!(sync.last_frame_request, 2001);
    sync.tick(2010);
    sync.tick(2020);
    sync.tick(2030);
    sync.on_frame_number(100);
    assert_eq!(sync.frame_number, 101);
    assert_eq!(sync.frames_passed_since_request, 0);
    assert_eq!(sync.frames_to_replay(95), 6);
    assert_eq!(sync.frames_to_replay(130), 0);
}

#[test]
fn broadcaster_add_then_remove_restores() {
    let mut b: Broadcaster<&str> = Broadcaster::new();
    b.add_writer(4, "four");
    b.add_writer(9, "nine");
    let before = b.ids();
    assert!(!b.add_writer(6, "six"));
    assert_eq!(b.len(), 3);
    assert_eq!(b.remove_writer(6), Some("six"));
    assert_eq!(b.ids(), before);
    assert!(!b.contains(6));
    assert_eq!(b.len(), 2);
}
