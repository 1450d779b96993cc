use vstd::prelude::*;

use crate::level::{id_label, make_id_label};
use crate::text::parse_u128;
use crate::text::parsed_u128;
use crate::text::{decimal, push_decimal};

verus! {

/// An attack that an enemy may use.
#[derive(Debug)]
pub struct NpcAttackInfo {
    pub id: u32,
    pub name: String,
}

impl Clone for NpcAttackInfo {
    fn clone(&self) -> (copy: Self)
        ensures
            copy == *self,
    {
        NpcAttackInfo { id: self.id, name: self.name.clone() }
    }
}

impl NpcAttackInfo {
    /// The entry as its `Display` writes it: `id: name`.
    pub fn label(&self) -> (label: String)
        ensures
            label@ == id_label(self.id, self.name@),
    {
        make_id_label(self.id, self.name.as_str())
    }
}

/// An enemy as the editor saves it; `respawn_time` is in seconds.
#[derive(Debug)]
pub struct NpcConstructor {
    pub name: String,
    pub attacks: Vec<NpcAttackInfo>,
    pub hp: i32,
    pub respawn_time: u128,
}

impl Default for NpcConstructor {
    fn default() -> (npc: Self)
        ensures
            npc.name@ == Seq::<char>::empty(),
            npc.attacks@ == Seq::<NpcAttackInfo>::empty(),
            npc.hp == 0,
            npc.respawn_time == 0,
    {
        NpcConstructor { name: String::new(), attacks: Vec::new(), hp: 0, respawn_time: 0 }
    }
}

impl NpcConstructor {
    /// An enemy with only a name.
    pub fn new(name: String) -> (npc: Self)
        ensures
            npc.name == name,
            npc.attacks@ == Seq::<NpcAttackInfo>::empty(),
            npc.hp == 0,
            npc.respawn_time == 0,
    {
        NpcConstructor { name, attacks: Vec::new(), hp: 0, respawn_time: 0 }
    }

    /// Gives the enemy one more attack, after the others.
    pub fn add_attack(&mut self, attack: NpcAttackInfo)
        ensures
            final(self).attacks@ == old(self).attacks@.push(attack),
            final(self).name == old(self).name,
            final(self).hp == old(self).hp,
            final(self).respawn_time == old(self).respawn_time,
    {
        self.attacks.push(attack);
    }

    /// Takes away the attack at `index`; an index past the end changes
    /// nothing.
    pub fn remove_attack(&mut self, index: usize)
        ensures
            index < old(self).attacks@.len() ==> final(self).attacks@ == old(self).attacks@.remove(index as int),
            index >= old(self).attacks@.len() ==> final(self).attacks@ == old(self).attacks@,
            final(self).name == old(self).name,
            final(self).hp == old(self).hp,
            final(self).respawn_time == old(self).respawn_time,
    {
        if index >= self.attacks.len() {
            return;
        }
        self.attacks.remove(index);
    }

    /// Sets the respawn time from the text typed in the editor; text that is
    /// not a number leaves it as it was.
    pub fn change_respawn_time(&mut self, text: &str)
        ensures
            final(self).respawn_time == match parsed_u128(text@) {
                Some(v) => v,
                None => old(self).respawn_time,
            },
            final(self).attacks@ == old(self).attacks@,
            final(self).name == old(self).name,
            final(self).hp == old(self).hp,
    {
        if let Some(value) = parse_u128(text) {
            self.respawn_time = value;
        }
    }
}

/// The file of enemy `id`.
pub open spec fn npc_file_path_of(id: u32) -> Seq<char> {
    "../data/npc/npc_"@ + decimal(id as nat) + ".json"@
}

/// The file of attack `id`, as the game reads it.
pub open spec fn attack_file_path_of(id: u32) -> Seq<char> {
    "../data/attack/attack_"@ + decimal(id as nat) + ".json"@
}

/// The file of complex attack `id`.
pub open spec fn complex_attack_file_path_of(id: u32) -> Seq<char> {
    "../data/attack/complex_attack_"@ + decimal(id as nat) + ".json"@
}

pub fn npc_file_path(id: u32) -> (path: String)
    ensures
        path@ == npc_file_path_of(id),
{
    let mut path = String::new();
    path.append("../data/npc/npc_");
    push_decimal(&mut path, id as u128);
    path.append(".json");
    path
}

pub fn attack_file_path(id: u32) -> (path: String)
    ensures
        path@ == attack_file_path_of(id),
{
    let mut path = String::new();
    path.append("../data/attack/attack_");
    push_decimal(&mut path, id as u128);
    path.append(".json");
    path
}

pub fn complex_attack_file_path(id: u32) -> (path: String)
    ensures
        path@ == complex_attack_file_path_of(id),
{
    let mut path = String::new();
    path.append("../data/attack/complex_attack_");
    push_decimal(&mut path, id as u128);
    path.append(".json");
    path
}

} // verus!
