use vstd::prelude::*;

use crate::editor::attack::{make_picker_items, picker_items, AttackInfo};
use crate::npc::{NpcAttackInfo, NpcConstructor};
use crate::text::parsed_u128;

verus! {

/// A request to the enemy page.
#[derive(Debug, Clone)]
pub enum Message {
    ReadFile,
    WriteFile,
    ChangeRespawnTime(String),
    SelectAttack(NpcAttackInfo),
    AddAttack(NpcAttackInfo),
    RemoveAttack(usize),
}

/// What the caller must do after the page handled a request.
#[derive(Debug, Clone, Copy, PartialEq, Eq, Structural)]
pub enum Request {
    /// Read the enemy again from its file.
    Reload,
    /// Write the enemy to its file.
    Save,
}

/// The page that edits enemy `id`.
pub struct Page {
    pub id: u32,
    pub data: NpcConstructor,
    pub selected_attack: Option<NpcAttackInfo>,
    pub available_attack_list: Vec<NpcAttackInfo>,
}

impl Page {
    /// The page for enemy `id` read from its file, offering the active
    /// attacks of the list.
    pub fn load_by_id(id: u32, data: NpcConstructor, attack_list: Vec<AttackInfo>) -> (page: Self)
        ensures
            page.id == id,
            page.data == data,
            page.selected_attack is None,
            page.available_attack_list@.map_values(|a: NpcAttackInfo| (a.id, a.name@))
                == picker_items(attack_list@),
    {
        let available_attack_list = make_picker_items(attack_list);
        Page { id, data, selected_attack: None, available_attack_list }
    }

    /// Handles a request; a respawn time typed that is not a number leaves it
    /// as it was.
    pub fn update(&mut self, message: Message) -> (request: Option<Request>)
        ensures
            final(self).id == old(self).id,
            final(self).available_attack_list == old(self).available_attack_list,
            final(self).data.name == old(self).data.name,
            final(self).data.hp == old(self).data.hp,
            match message {
                Message::ReadFile => {
                    &&& request == Some(Request::Reload)
                    &&& final(self).data == old(self).data
                    &&& final(self).selected_attack == old(self).selected_attack
                },
                Message::WriteFile => {
                    &&& request == Some(Request::Save)
                    &&& final(self).data == old(self).data
                    &&& final(self).selected_attack == old(self).selected_attack
                },
                Message::ChangeRespawnTime(text) => {
                    &&& request is None
                    &&& final(self).data.respawn_time == match parsed_u128(text@) {
                        Some(v) => v,
                        None => old(self).data.respawn_time,
                    }
                    &&& final(self).data.attacks@ == old(self).data.attacks@
                    &&& final(self).selected_attack == old(self).selected_attack
                },
                Message::SelectAttack(attack) => {
                    &&& request is None
                    &&& final(self).selected_attack == Some(attack)
                    &&& final(self).data == old(self).data
                },
                Message::AddAttack(attack) => {
                    &&& request is None
                    &&& final(self).data.attacks@ == old(self).data.attacks@.push(attack)
                    &&& final(self).data.respawn_time == old(self).data.respawn_time
                    &&& final(self).selected_attack == old(self).selected_attack
                },
                Message::RemoveAttack(index) => {
                    &&& request is None
                    &&& final(self).data.attacks@ == if index < old(self).data.attacks@.len() {
                        old(self).data.attacks@.remove(index as int)
                    } else {
                        old(self).data.attacks@
                    }
                    &&& final(self).data.respawn_time == old(self).data.respawn_time
                    &&& final(self).selected_attack == old(self).selected_attack
                },
            },
    {
        match message {
            Message::ReadFile => Some(Request::Reload),
            Message::WriteFile => Some(Request::Save),
            Message::ChangeRespawnTime(value) => {
                self.data.change_respawn_time(value.as_str());
                None
            },
            Message::SelectAttack(attack) => {
                self.selected_attack = Some(attack);
                None
            },
            Message::AddAttack(attack) => {
                self.data.add_attack(attack);
                None
            },
            Message::RemoveAttack(index) => {
                self.data.remove_attack(index);
                None
            },
        }
    }

    /// Takes the enemy read again from its file.
    pub fn reload(&mut self, data: NpcConstructor)
        ensures
            final(self).data == data,
            final(self).id == old(self).id,
            final(self).selected_attack == old(self).selected_attack,
            final(self).available_attack_list == old(self).available_attack_list,
    {
        self.data = data;
    }
}

} // verus!
