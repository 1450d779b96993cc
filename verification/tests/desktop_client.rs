use shared::client::{KeyActionKind, Message as ClientMessage, Move};
use shared::level::{LevelInfo, LevelList};
use shared::list::EntryStatus;
use shared::ui_app::{FightState, Message, UiAction, UiApp};
use shared::ws::LocalMessage;

fn levels() -> LevelList {
    LevelList {
        last_id: 3,
        list: vec![
            LevelInfo { id: 1, name: "cave".to_string(), status: EntryStatus::Active },
            LevelInfo { id: 3, name: "tower".to_string(), status: EntryStatus::Hidden },
            LevelInfo { id: 3, name: "second tower".to_string(), status: EntryStatus::Active },
        ],
    }
}

#[test]
fn local_messages() {
    assert!(LocalMessage::new("").is_none());
    match LocalMessage::new("hello") {
        Some(LocalMessage::User(text)) => assert_eq!(text, "hello"),
        other => panic!("unexpected {other:?}"),
    }
    assert_eq!(LocalMessage::connected().text(), "Connected successfully!");
    assert_eq!(LocalMessage::disconnected().text(), "Connection lost... Retrying...");
    assert_eq!(LocalMessage::User("hi there".to_string()).text(), "hi there");
    assert_eq!(
        LocalMessage::Move(KeyActionKind::Pressed, Move::Left).text(),
        "Move key pressed Left"
    );
    assert_eq!(
        LocalMessage::Move(KeyActionKind::Released, Move::Down).text(),
        "Move key released Down"
    );
    assert_eq!(LocalMessage::HeroDash.text(), "HeroDash");
    assert_eq!(LocalMessage::HeroAttack.text(), "HeroAttack");
}

#[test]
fn local_messages_sent_to_the_server() {
    assert_eq!(
        LocalMessage::Move(KeyActionKind::Released, Move::Up).outgoing(),
        Some(ClientMessage::Move(KeyActionKind::Released, Move::Up))
    );
    assert_eq!(LocalMessage::HeroDash.outgoing(), Some(ClientMessage::HeroDash));
    assert_eq!(LocalMessage::HeroAttack.outgoing(), Some(ClientMessage::HeroAttack));
    assert_eq!(
        LocalMessage::RequestFrameNumber.outgoing(),
        Some(ClientMessage::RequestFrameNumber)
    );
    assert_eq!(LocalMessage::Connected.outgoing(), None);
    assert_eq!(LocalMessage::Disconnected.outgoing(), None);
    assert_eq!(LocalMessage::User("x".to_string()).outgoing(), None);
}

#[test]
fn screens_of_the_desktop_client() {
    let mut flow = UiApp::new(levels(), 1_000);
    assert_eq!(flow.state, FightState::Pending);
    assert!(flow.update(Message::SwitchToLevelSelect).is_empty());
    assert_eq!(flow.state, FightState::LevelSelect);
    assert!(flow.update(Message::SelectLevel(3)).is_empty());
    assert_eq!(flow.selected_level.as_ref().unwrap().name, "tower");
    flow.update(Message::SelectLevel(9));
    assert!(flow.selected_level.is_none());
    let actions = flow.update(Message::Start(1));
    assert_eq!(flow.state, FightState::Action);
    assert!(matches!(actions.as_slice(), [UiAction::LoadLevel(1)]));
    flow.state = FightState::Loss;
    let actions = flow.update(Message::Retry);
    assert_eq!(flow.state, FightState::Action);
    assert!(matches!(actions.as_slice(), [UiAction::ResetScene]));
    assert!(flow.update(Message::WsConnected).is_empty());
    assert!(flow.update(Message::WsMessage("x".to_string())).is_empty());
    assert!(flow.update(Message::Nothing).is_empty());
    assert_eq!(flow.state, FightState::Action);
}

#[test]
fn keys_act_and_go_to_the_server() {
    let mut flow = UiApp::new(levels(), 0);
    let actions = flow.update(Message::Move(KeyActionKind::Pressed, Move::Right));
    assert!(matches!(
        actions.as_slice(),
        [
            UiAction::MoveHero(KeyActionKind::Pressed, Move::Right),
            UiAction::Send(LocalMessage::Move(KeyActionKind::Pressed, Move::Right))
        ]
    ));
    let actions = flow.update(Message::HeroDash);
    assert!(matches!(
        actions.as_slice(),
        [UiAction::DashHero, UiAction::Send(LocalMessage::HeroDash)]
    ));
    let actions = flow.update(Message::HeroAttack);
    assert!(matches!(
        actions.as_slice(),
        [UiAction::AttackWithHero, UiAction::Send(LocalMessage::HeroAttack)]
    ));
}

#[test]
fn timer_steps_and_asks_for_the_frame_number() {
    let mut flow = UiApp::new(levels(), 10_000);
    let actions = flow.update(Message::Tick(10_016));
    assert!(matches!(actions.as_slice(), [UiAction::Step(16)]));
    assert_eq!(flow.frames_passed_since_request, 1);
    let actions = flow.update(Message::Tick(10_999));
    assert!(matches!(actions.as_slice(), [UiAction::Step(983)]));
    assert_eq!(flow.frames_passed_since_request, 2);
    let actions = flow.update(Message::Tick(11_000));
    assert!(matches!(
        actions.as_slice(),
        [UiAction::Step(1), UiAction::Send(LocalMessage::RequestFrameNumber)]
    ));
    assert_eq!(flow.frames_passed_since_request, 0);
    assert_eq!(flow.last_frame_request, 11_000);
    let actions = flow.update(Message::Tick(10_500));
    assert!(matches!(actions.as_slice(), [UiAction::Step(0)]));
    flow.update(Message::Tick(10_600));
    flow.update(Message::Tick(10_700));
    assert_eq!(flow.frames_passed_since_request, 3);
    assert_eq!(flow.on_frame_number(500), 501);
    assert_eq!(flow.frames_passed_since_request, 0);
}
