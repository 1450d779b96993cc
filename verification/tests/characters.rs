use shared::action::Action;
use shared::attack::RecoverInfo;
use shared::client::{KeyActionKind, Move};
use shared::fight::{can_start_attack, choose_attack, choose_target, BossVitals, HeroControls, HeroVitals};
use shared::hero::{DashCooldown, DashInfo, Moving};

type TestAction = Action<(), (i32, i32), u8, u8>;

#[test]
fn moving_keys_give_direction() {
    let mut moving = Moving::new();
    assert!(!moving.is_moving());
    assert_eq!(moving.direction(), (0, 0));
    moving.handle_key(KeyActionKind::Pressed, Move::Up);
    moving.handle_key(KeyActionKind::Pressed, Move::Right);
    assert!(moving.is_moving());
    assert_eq!(moving.direction(), (1, -1));
    moving.handle_key(KeyActionKind::Pressed, Move::Left);
    assert_eq!(moving.direction(), (0, -1));
    moving.handle_key(KeyActionKind::Pressed, Move::Down);
    assert_eq!(moving.direction(), (0, 0));
    assert!(!moving.is_moving());
    moving.handle_key(KeyActionKind::Released, Move::Left);
    assert_eq!(moving.direction(), (1, 0));
}

#[test]
fn press_then_release_restores_keys() {
    let before = Moving { left: false, right: true, up: false, down: false };
    let mut moving = before;
    moving.handle_key(KeyActionKind::Pressed, Move::Up);
    moving.handle_key(KeyActionKind::Released, Move::Up);
    assert_eq!(moving, before);
}

#[test]
fn hero_controls_grace_timer() {
    let mut controls = HeroControls::new();
    assert_eq!(controls.handle_move_action(KeyActionKind::Pressed, Move::Left), (-1, 0));
    assert_eq!(controls.last_key_up, None);
    assert_eq!(controls.handle_move_action(KeyActionKind::Pressed, Move::Down), (-1, 1));
    assert_eq!(controls.handle_move_action(KeyActionKind::Released, Move::Down), (-1, 0));
    assert_eq!(controls.last_key_up, Some(0));
    assert_eq!(controls.update_key_timer(60), None);
    assert_eq!(controls.last_key_up, Some(60));
    assert_eq!(controls.update_key_timer(41), Some((-1, 0)));
    assert_eq!(controls.last_key_up, None);
    assert_eq!(controls.update_key_timer(500), None);
}

#[test]
fn hero_controls_timer_without_moving() {
    let mut controls = HeroControls::new();
    controls.handle_move_action(KeyActionKind::Pressed, Move::Up);
    controls.handle_move_action(KeyActionKind::Released, Move::Up);
    assert_eq!(controls.update_key_timer(101), None);
    assert_eq!(controls.last_key_up, None);
}

#[test]
fn hero_takes_hits_unless_dashing() {
    let mut vitals = HeroVitals::new();
    assert_eq!(vitals.hp, 1000);
    vitals.receive_damage(false);
    assert_eq!(vitals.hp, 965);
    vitals.receive_damage(true);
    assert_eq!(vitals.hp, 965);
    vitals.hp = 20;
    vitals.receive_damage(false);
    assert_eq!(vitals.hp, 0);
    assert!(vitals.defeated());
    vitals.receive_damage(false);
    assert_eq!(vitals.hp, 0);
    vitals.reset();
    assert_eq!(vitals.hp, 1000);
    assert!(!vitals.defeated());
}

#[test]
fn boss_respawns_after_its_time() {
    let mut boss = BossVitals::with_respawn_seconds(2);
    assert_eq!(boss.respawn_time, 2000);
    assert_eq!(boss.hp, 300);
    for _ in 0..8 {
        boss.receive_damage();
    }
    assert_eq!(boss.hp, 20);
    boss.time_since_defeated = 77;
    boss.receive_damage();
    assert_eq!(boss.hp, 0);
    assert_eq!(boss.time_since_defeated, 0);
    assert!(boss.defeated());
    boss.receive_damage();
    assert_eq!(boss.hp, 0);
    boss.check_respawn_time(1500);
    assert_eq!(boss.hp, 0);
    assert_eq!(boss.time_since_defeated, 1500);
    boss.check_respawn_time(500);
    assert_eq!(boss.hp, 0);
    boss.check_respawn_time(1);
    assert_eq!(boss.hp, 300);
    let before = boss;
    boss.check_respawn_time(5000);
    assert_eq!(boss, before);
}

#[test]
fn boss_defaults() {
    let boss = BossVitals::new();
    assert_eq!((boss.hp, boss.max_hp, boss.time_since_defeated, boss.respawn_time), (300, 300, 0, 10_000));
    assert!(can_start_attack(&boss, false, false));
    assert!(!can_start_attack(&boss, true, false));
    assert!(!can_start_attack(&boss, false, true));
    let down = BossVitals { hp: 0, ..boss };
    assert!(!can_start_attack(&down, false, false));
}

#[test]
fn random_choices_stay_in_range() {
    assert_eq!(choose_target(0), None);
    assert_eq!(choose_target(1), Some(0));
    assert_eq!(choose_attack(0), None);
    for _ in 0..50 {
        let target = choose_target(5).unwrap();
        assert!(target < 5);
        let attack = choose_attack(3).unwrap();
        assert!(attack < 3);
        assert_eq!(choose_attack(1), Some(0));
    }
}

#[test]
fn action_timers() {
    let mut action: TestAction = Action::DashCooldown(DashCooldown::new(200));
    assert!(action.is_some());
    action.update(150);
    assert_eq!(action, Action::DashCooldown(DashCooldown { time_passed: 150, duration: 200 }));
    action.update(50);
    assert!(action.is_empty());
    let mut action: TestAction = Action::Recovery(RecoverInfo::new(0));
    action.update(0);
    assert_eq!(action, Action::Empty);
    let mut action: TestAction = Action::Dash(DashInfo::new((1, 0), 100));
    assert!(action.is_dash());
    action.update(30);
    assert_eq!(action, Action::Dash(DashInfo { direction: (1, 0), time_passed: 30, time_to_complete: 100 }));
    let mut action: TestAction = Action::Attack(5);
    action.update(1000);
    assert_eq!(action, Action::Attack(5));
    action.clear();
    assert!(action.is_empty());
    assert!(!action.is_dash());
}

#[test]
fn dash_cooldown_completes() {
    let mut cooldown = DashCooldown::new(200);
    assert!(!cooldown.completed());
    cooldown.update(200);
    assert!(cooldown.completed());
}
