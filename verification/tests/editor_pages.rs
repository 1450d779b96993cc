use shared::character::CharacterSettings;
use shared::editor::attack::{load_state, make_picker_items, AttackInfo, AttackList, ListPage, Message, CurrentPage};
use shared::editor::character;
use shared::editor::level_item;
use shared::editor::npc_item;
use shared::editor::resource_item;
use shared::editor::{is_selected, EditorKind, EditorState};
use shared::level::{Level, LevelInfo, LevelList, LevelNpcInfo};
use shared::list::EntryStatus;
use shared::npc::{NpcAttackInfo, NpcConstructor};
use shared::resource::ResourceConstructor;

fn entry(id: u32, name: &str, status: EntryStatus) -> AttackInfo {
    AttackInfo { id, name: name.to_string(), status }
}

fn sample() -> AttackList {
    AttackList {
        last_id: 4,
        list: vec![
            entry(1, "slash", EntryStatus::Active),
            entry(3, "fireball", EntryStatus::Hidden),
            entry(4, "blast", EntryStatus::Active),
        ],
    }
}

#[test]
fn entry_status() {
    assert!(EntryStatus::Active.is_active());
    assert!(!EntryStatus::Hidden.is_active());
}

#[test]
fn show_and_hide_entries() {
    let mut data = sample();
    assert!(!data.show_entry(1));
    assert!(data.show_entry(3));
    assert_eq!(data.list[1].status, EntryStatus::Active);
    assert!(data.hide_entry(3));
    assert!(!data.hide_entry(3));
    assert_eq!(data.list[1].status, EntryStatus::Hidden);
    assert!(!data.show_entry(9));
    assert_eq!(data.last_id, 4);
}

#[test]
fn delete_entry_recomputes_last_id() {
    let mut data = sample();
    assert_eq!(data.delete_entry(4), Some(4));
    assert_eq!(data.last_id, 3);
    assert_eq!(data.list.len(), 2);
    assert_eq!(data.delete_entry(8), None);
    assert_eq!(data.last_id, 3);
    assert_eq!(data.delete_entry(1), Some(1));
    assert_eq!(data.delete_entry(3), Some(3));
    assert_eq!(data.last_id, 0);
    assert!(data.list.is_empty());
}

#[test]
fn create_and_rename_entries() {
    let mut data = sample();
    let id = data.create_entry();
    assert_eq!(id, 5);
    assert_eq!(data.last_id, 5);
    assert_eq!(data.list[3].id, 5);
    assert_eq!(data.list[3].name, "");
    assert_eq!(data.list[3].status, EntryStatus::Active);
    data.update_name_for(5, "spin".to_string());
    assert_eq!(data.list[3].name, "spin");
    data.update_name_for(42, "nothing".to_string());
    assert_eq!(data.list.len(), 4);
}

#[test]
fn list_page_outcomes() {
    let mut page = ListPage::load(Some(sample()));
    let o = page.update(Message::ToggleEntryStatus(3, true));
    assert!(o.save_list);
    let o = page.update(Message::ToggleEntryStatus(3, true));
    assert!(!o.save_list);
    let o = page.update(Message::DeleteEntry(1));
    assert_eq!(o.delete_item_file, Some(1));
    assert!(o.save_list);
    let o = page.update(Message::DeleteEntry(1));
    assert_eq!(o.delete_item_file, None);
    assert!(o.save_list);
    let o = page.update(Message::CreateNew);
    assert_eq!(o.create_item_file, Some(5));
    assert_eq!(o.open_item, Some(5));
    let o = page.update(Message::Edit(3));
    assert_eq!(o.open_item, Some(3));
    assert!(!o.save_list);
    let o = page.update(Message::ReadFile);
    assert!(o.reload);
    let empty = ListPage::load(None);
    assert_eq!(empty.data.last_id, 0);
}

#[test]
fn attack_page_switches_between_list_and_item() {
    let mut page = load_state::<u32>(None);
    assert!(!page.shows_item());
    assert_eq!(page.current_page, CurrentPage::List);
    page.open_item(7);
    assert!(page.shows_item());
    page.open_list();
    assert!(!page.shows_item());
    assert!(page.item.is_none());
}

#[test]
fn picker_items_keep_active_entries() {
    let items = make_picker_items(sample().list);
    let got: Vec<(u32, String)> = items.into_iter().map(|a| (a.id, a.name)).collect();
    assert_eq!(got, vec![(1, "slash".to_string()), (4, "blast".to_string())]);
    let npcs = vec![
        level_item::NpcInfo { id: 2, name: "Ogre".to_string(), status: EntryStatus::Hidden },
        level_item::NpcInfo { id: 5, name: "Imp".to_string(), status: EntryStatus::Active },
    ];
    let items = level_item::make_picker_items(npcs);
    assert_eq!(items.len(), 1);
    assert_eq!(items[0].id, 5);
}

#[test]
fn character_page() {
    let mut page = character::load_state(None);
    assert_eq!(page.item, CharacterSettings { dash_duration: 0, dash_distance: 0 });
    assert_eq!(page.update(character::Message::ChangeDashDuration("150".to_string())), None);
    assert_eq!(page.item.dash_duration, 150);
    page.update(character::Message::ChangeDashDistance("far".to_string()));
    assert_eq!(page.item.dash_distance, 0);
    page.update(character::Message::ChangeDashDistance("+80".to_string()));
    assert_eq!(page.item.dash_distance, 80);
    assert_eq!(page.update(character::Message::WriteFile), Some(character::Request::Save(1)));
    assert_eq!(page.update(character::Message::ReadFile), Some(character::Request::Reload));
    page.reload(Some(CharacterSettings { dash_duration: 1, dash_distance: 2 }));
    assert_eq!(page.item.dash_distance, 2);
}

#[test]
fn level_page() {
    let mut page = level_item::Page::load_by_id(2, Level::new("Cave".to_string()), Vec::new());
    let ogre = LevelNpcInfo { id: 1, name: "Ogre".to_string() };
    assert_eq!(page.update(level_item::Message::AddNpc(ogre.clone())), None);
    page.update(level_item::Message::AddNpc(LevelNpcInfo { id: 2, name: "Imp".to_string() }));
    page.update(level_item::Message::RemoveNpc(0));
    assert_eq!(page.data.npc_list.len(), 1);
    assert_eq!(page.data.npc_list[0].id, 2);
    page.update(level_item::Message::RemoveNpc(5));
    assert_eq!(page.data.npc_list.len(), 1);
    page.update(level_item::Message::ChangeName("Lair".to_string()));
    assert_eq!(page.data.name, "Lair");
    page.update(level_item::Message::SelectNpc(ogre));
    assert_eq!(page.selected.as_ref().map(|n| n.id), Some(1));
    assert_eq!(page.update(level_item::Message::WriteFile), Some(level_item::Request::SaveAndRename));
}

#[test]
fn npc_page() {
    let mut page = npc_item::Page::load_by_id(1, NpcConstructor::new("Boss".to_string()), sample().list);
    assert_eq!(page.available_attack_list.len(), 2);
    page.update(npc_item::Message::ChangeRespawnTime("30".to_string()));
    assert_eq!(page.data.respawn_time, 30);
    page.update(npc_item::Message::ChangeRespawnTime("-3".to_string()));
    assert_eq!(page.data.respawn_time, 30);
    page.update(npc_item::Message::AddAttack(NpcAttackInfo { id: 4, name: "blast".to_string() }));
    assert_eq!(page.data.attacks.len(), 1);
    page.update(npc_item::Message::RemoveAttack(1));
    assert_eq!(page.data.attacks.len(), 1);
    page.update(npc_item::Message::RemoveAttack(0));
    assert!(page.data.attacks.is_empty());
    assert_eq!(page.update(npc_item::Message::WriteFile), Some(npc_item::Request::Save));
}

#[test]
fn resource_page() {
    let mut page = resource_item::Page::load_by_id(3, ResourceConstructor::new("wood".to_string()));
    page.update(resource_item::Message::ChangeName("stone".to_string()));
    assert_eq!(page.data.name, "stone");
    assert_eq!(page.update(resource_item::Message::ReadFile), Some(resource_item::Request::Reload));
    page.reload(ResourceConstructor::default());
    assert_eq!(page.data.name, "");
}

#[test]
fn constructors_and_levels() {
    let level = Level::new("Forest".to_string());
    assert_eq!(level.name, "Forest");
    assert!(level.npc_list.is_empty());
    let npc = NpcConstructor::new("Ogre".to_string());
    assert_eq!((npc.hp, npc.respawn_time, npc.attacks.len()), (0, 0, 0));
    let list = LevelList {
        last_id: 2,
        list: vec![
            LevelInfo { id: 1, name: "one".to_string(), status: EntryStatus::Active },
            LevelInfo { id: 2, name: "two".to_string(), status: EntryStatus::Hidden },
        ],
    };
    assert_eq!(list.find_by_id(2).map(|l| l.name), Some("two".to_string()));
    assert!(list.find_by_id(3).is_none());
    assert_eq!(EditorKind::Character.label(), "Character");
    assert_eq!(EditorKind::Npc.label(), "Npc");
}

#[test]
fn editor_state_knows_its_kind() {
    let none: EditorState<u8, u8, u8, u8, u8> = EditorState::NotSelected;
    assert_eq!(none.selected_kind(), None);
    let level: EditorState<u8, u8, &str, u8, u8> = EditorState::Level("level page");
    assert_eq!(level.selected_kind(), Some(EditorKind::Level));
    let resource: EditorState<u8, u8, u8, u8, ()> = EditorState::Resource(());
    assert_eq!(resource.selected_kind(), Some(EditorKind::Resource));
    assert!(is_selected(EditorKind::Level, level.selected_kind()));
    assert!(!is_selected(EditorKind::Npc, level.selected_kind()));
    assert!(!is_selected(EditorKind::Attack, none.selected_kind()));
}
