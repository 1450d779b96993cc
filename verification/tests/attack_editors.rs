use shared::attack::{AttackConstructor, AttackKind, AttackOrder, AttackState};
use shared::editor::attack::item::{GeometryField, Message, Page, Request};
use shared::editor::attack_file;

#[derive(Debug, Clone, Copy, PartialEq)]
struct Geometry {
    range_from: f32,
    range_to: f32,
    width_angle: f32,
}

fn geometry() -> Geometry {
    Geometry { range_from: 0.0, range_to: 100.0, width_angle: 1.0 }
}

#[test]
fn new_attack_has_the_defaults() {
    let attack = AttackConstructor::new("slash".to_string(), geometry());
    assert_eq!(attack.name, "slash");
    assert_eq!(attack.delay, 0);
    assert_eq!(attack.time_to_complete, 0);
    assert_eq!(attack.aftercast, 0);
    assert_eq!(attack.kind, AttackKind::Pizza);
    assert_eq!(attack.order, AttackOrder::CloseToFar);
    assert_eq!(attack.state, AttackState::Selected);
    assert_eq!(attack.geometry, geometry());
}

#[test]
fn item_page_sets_whole_numbers_and_choices() {
    let mut page = Page::load_by_id(7, AttackConstructor::new("slash".to_string(), geometry()));
    assert!(page.update(Message::ChangeDelay("250".to_string())).is_none());
    assert_eq!(page.data.delay, 250);
    assert!(page.update(Message::ChangeDelay("soon".to_string())).is_none());
    assert_eq!(page.data.delay, 250);
    assert!(page.update(Message::ChangeDelay("-1".to_string())).is_none());
    assert_eq!(page.data.delay, 250);
    page.update(Message::ChangeTimeToComplete("+900".to_string()));
    assert_eq!(page.data.time_to_complete, 900);
    page.update(Message::ChangeAftercast("".to_string()));
    assert_eq!(page.data.aftercast, 0);
    page.update(Message::ChangeAftercast("30".to_string()));
    assert_eq!(page.data.aftercast, 30);
    page.update(Message::ChangeOrder(AttackOrder::RightThenLeft));
    assert_eq!(page.data.order, AttackOrder::RightThenLeft);
    page.update(Message::ChangeKind(AttackKind::Circle));
    assert_eq!(page.data.kind, AttackKind::Circle);
    page.update(Message::ChangeName("sweep".to_string()));
    assert_eq!(page.data.name, "sweep");
    assert_eq!(page.id, 7);
    assert_eq!(page.data.geometry, geometry());
}

#[test]
fn item_page_hands_out_files_and_floats() {
    let mut page = Page::load_by_id(2, AttackConstructor::new(String::new(), geometry()));
    assert!(matches!(page.update(Message::ReadFile), Some(Request::Reload)));
    assert!(matches!(page.update(Message::WriteFile), Some(Request::SaveAndRename)));
    match page.update(Message::ChangeRangeFrom("12.5".to_string())) {
        Some(Request::SetGeometry(GeometryField::RangeFrom, text)) => assert_eq!(text, "12.5"),
        other => panic!("unexpected {other:?}"),
    }
    match page.update(Message::ChangeRangeTo("80".to_string())) {
        Some(Request::SetGeometry(GeometryField::RangeTo, text)) => assert_eq!(text, "80"),
        other => panic!("unexpected {other:?}"),
    }
    match page.update(Message::ChangeWidthAngle("0.5".to_string())) {
        Some(Request::SetGeometry(GeometryField::WidthAngle, text)) => assert_eq!(text, "0.5"),
        other => panic!("unexpected {other:?}"),
    }
    assert_eq!(page.data.geometry, geometry());
    let mut saved = AttackConstructor::new("read".to_string(), geometry());
    saved.delay = 5;
    page.reload(saved);
    assert_eq!(page.data.name, "read");
    assert_eq!(page.data.delay, 5);
    assert_eq!(page.id, 2);
}

#[test]
fn attack_file_editor() {
    let mut attack: Option<AttackConstructor<Geometry>> = None;
    assert_eq!(attack_file::update(&mut attack, attack_file::Message::WriteFile), None);
    assert_eq!(
        attack_file::update(&mut attack, attack_file::Message::ChangeDelay("40".to_string())),
        None
    );
    assert!(attack.is_none());
    assert_eq!(
        attack_file::update(&mut attack, attack_file::Message::ReadFile),
        Some(attack_file::Request::Reload)
    );
    attack_file::reload(&mut attack, None, geometry());
    let opened = attack.as_ref().unwrap();
    assert_eq!(opened.name, "");
    assert_eq!(opened.order, AttackOrder::CloseToFar);
    attack_file::update(&mut attack, attack_file::Message::ChangeDelay("40".to_string()));
    attack_file::update(&mut attack, attack_file::Message::ChangeDelay("4O".to_string()));
    attack_file::update(&mut attack, attack_file::Message::ChangeOrder(AttackOrder::SidesToCenter));
    attack_file::update(&mut attack, attack_file::Message::ChangeKind(AttackKind::Circle));
    let edited = attack.as_ref().unwrap();
    assert_eq!(edited.delay, 40);
    assert_eq!(edited.order, AttackOrder::SidesToCenter);
    assert_eq!(edited.kind, AttackKind::Circle);
    assert_eq!(
        attack_file::update(&mut attack, attack_file::Message::WriteFile),
        Some(attack_file::Request::Save)
    );
    let mut saved = AttackConstructor::new("saved".to_string(), geometry());
    saved.aftercast = 9;
    attack_file::reload(&mut attack, Some(saved), geometry());
    assert_eq!(attack.as_ref().unwrap().name, "saved");
    assert_eq!(attack.as_ref().unwrap().aftercast, 9);
}
