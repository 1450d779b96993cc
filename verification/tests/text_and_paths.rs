use shared::character::character_file_path;
use shared::editor::attack::{get_item_file_path, list_file_path};
use shared::editor::character::get_item_file_path as character_item_file_path;
use shared::level::{make_id_label, LevelNpcInfo};
use shared::npc::NpcAttackInfo;
use shared::text::{decimal_string, parse_u128, same_text};

#[test]
fn decimal_string_matches_to_string() {
    for n in [0u128, 7, 10, 42, 100, 1234567890, u128::MAX] {
        assert_eq!(decimal_string(n), n.to_string());
    }
}

#[test]
fn parse_u128_accepts_digits_and_plus() {
    assert_eq!(parse_u128("0"), Some(0));
    assert_eq!(parse_u128("250"), Some(250));
    assert_eq!(parse_u128("+17"), Some(17));
    assert_eq!(parse_u128("007"), Some(7));
    assert_eq!(
        parse_u128("340282366920938463463374607431768211455"),
        Some(u128::MAX)
    );
}

#[test]
fn parse_u128_refuses_what_std_refuses() {
    for text in ["", "+", "-1", "++1", "1.5", " 1", "1 ", "abc", "12a", "340282366920938463463374607431768211456"] {
        assert_eq!(parse_u128(text), text.parse::<u128>().ok(), "{text}");
        assert_eq!(parse_u128(text), None);
    }
}

#[test]
fn same_text_compares_characters() {
    assert!(same_text("KeyW", "KeyW"));
    assert!(!same_text("KeyW", "KeyS"));
    assert!(!same_text("Key", "KeyW"));
    assert!(same_text("", ""));
}

#[test]
fn attack_file_paths() {
    assert_eq!(get_item_file_path(3), "../data/attack//attack_3.json");
    assert_eq!(get_item_file_path(120), "../data/attack//attack_120.json");
    assert_eq!(list_file_path(), "../data/attack/list.json");
}

#[test]
fn character_file_paths() {
    assert_eq!(character_file_path(1), "../data/character/character_1.json");
    assert_eq!(character_item_file_path(25), "../data/character/character_25.json");
}

#[test]
fn labels_are_id_colon_name() {
    let npc = LevelNpcInfo { id: 4, name: "Ogre".to_string() };
    assert_eq!(npc.label(), "4: Ogre");
    let attack = NpcAttackInfo { id: 12, name: "Fireball".to_string() };
    assert_eq!(attack.label(), "12: Fireball");
    assert_eq!(make_id_label(0, ""), "0: ");
}

#[test]
fn game_data_paths() {
    assert_eq!(shared::npc::npc_file_path(1), "../data/npc/npc_1.json");
    assert_eq!(shared::npc::attack_file_path(12), "../data/attack/attack_12.json");
    assert_eq!(
        shared::npc::complex_attack_file_path(3),
        "../data/attack/complex_attack_3.json"
    );
    assert_eq!(shared::level::level_file_path(40), "../data/level/level_40.json");
    assert_eq!(shared::level::level_list_file_path(), "../data/level/list.json");
}
