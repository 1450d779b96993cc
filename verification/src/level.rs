use vstd::prelude::*;

use crate::list::EntryStatus;
use crate::text::{decimal, push_decimal};

verus! {

/// An entry of the list of levels.
#[derive(Debug)]
pub struct LevelInfo {
    pub id: u32,
    pub name: String,
    pub status: EntryStatus,
}

impl Clone for LevelInfo {
    fn clone(&self) -> (copy: Self)
        ensures
            copy == *self,
    {
        LevelInfo { id: self.id, name: self.name.clone(), status: self.status }
    }
}

/// All levels, and the highest id handed out.
#[derive(Debug)]
pub struct LevelList {
    pub last_id: u32,
    pub list: Vec<LevelInfo>,
}

impl Default for LevelList {
    fn default() -> (levels: Self)
        ensures
            levels.last_id == 0,
            levels.list@ == Seq::<LevelInfo>::empty(),
    {
        LevelList { last_id: 0, list: Vec::new() }
    }
}

/// The first level of `list` with id `id`, if any.
pub open spec fn level_with_id(list: Seq<LevelInfo>, id: u32) -> Option<LevelInfo>
    decreases list.len(),
{
    if list.len() == 0 {
        None
    } else if list[0].id == id {
        Some(list[0])
    } else {
        level_with_id(list.drop_first(), id)
    }
}

impl LevelList {
    /// The first level with id `id`, if any.
    pub fn find_by_id(&self, id: u32) -> (found: Option<LevelInfo>)
        ensures
            found == level_with_id(self.list@, id),
            match found {
                Some(level) => exists|i: int|
                    0 <= i < self.list@.len() && self.list@[i] == level && level.id == id
                        && forall|j: int| 0 <= j < i ==> self.list@[j].id != id,
                None => forall|i: int| 0 <= i < self.list@.len() ==> self.list@[i].id != id,
            },
    {
        let mut i: usize = 0;
        assert(self.list@.skip(0) =~= self.list@);
        while i < self.list.len()
            invariant
                i <= self.list@.len(),
                forall|j: int| 0 <= j < i ==> self.list@[j].id != id,
                level_with_id(self.list@, id) == level_with_id(self.list@.skip(i as int), id),
            decreases self.list@.len() - i,
        {
            assert(self.list@.skip(i as int)[0] == self.list@[i as int]);
            if self.list[i].id == id {
                return Some(self.list[i].clone());
            }
            assert(self.list@.skip(i as int).drop_first() =~= self.list@.skip(i + 1));
            i = i + 1;
        }
        None
    }
}

/// An enemy placed in a level.
#[derive(Debug)]
pub struct LevelNpcInfo {
    pub id: u32,
    pub name: String,
}

impl Clone for LevelNpcInfo {
    fn clone(&self) -> (copy: Self)
        ensures
            copy == *self,
    {
        LevelNpcInfo { id: self.id, name: self.name.clone() }
    }
}

/// `id: name`, as the entry is shown.
pub open spec fn id_label(id: u32, name: Seq<char>) -> Seq<char> {
    decimal(id as nat) + ": "@ + name
}

/// Writes `id: name`.
pub fn make_id_label(id: u32, name: &str) -> (label: String)
    ensures
        label@ == id_label(id, name@),
{
    let mut label = String::new();
    push_decimal(&mut label, id as u128);
    label.append(": ");
    label.append(name);
    assert(label@ =~= id_label(id, name@));
    label
}

impl LevelNpcInfo {
    /// The entry as its `Display` writes it: `id: name`.
    pub fn label(&self) -> (label: String)
        ensures
            label@ == id_label(self.id, self.name@),
    {
        make_id_label(self.id, self.name.as_str())
    }
}

/// A level: its name and the enemies in it.
#[derive(Debug)]
pub struct Level {
    pub name: String,
    pub npc_list: Vec<LevelNpcInfo>,
}

impl Default for Level {
    fn default() -> (level: Self)
        ensures
            level.name@ == Seq::<char>::empty(),
            level.npc_list@ == Seq::<LevelNpcInfo>::empty(),
    {
        Level { name: String::new(), npc_list: Vec::new() }
    }
}

impl Level {
    pub fn new(name: String) -> (level: Self)
        ensures
            level.name == name,
            level.npc_list@ == Seq::<LevelNpcInfo>::empty(),
    {
        Level { name, npc_list: Vec::new() }
    }

    /// Places one more enemy, after the others.
    pub fn add_npc(&mut self, npc: LevelNpcInfo)
        ensures
            final(self).name == old(self).name,
            final(self).npc_list@ == old(self).npc_list@.push(npc),
    {
        self.npc_list.push(npc);
    }

    /// Takes out the enemy at `index`; an index past the end changes nothing.
    pub fn remove_npc(&mut self, index: usize)
        ensures
            final(self).name == old(self).name,
            index < old(self).npc_list@.len() ==> final(self).npc_list@ == old(self).npc_list@.remove(index as int),
            index >= old(self).npc_list@.len() ==> final(self).npc_list@ == old(self).npc_list@,
    {
        if index >= self.npc_list.len() {
            return;
        }
        self.npc_list.remove(index);
    }
}

/// The file of level `id`.
pub open spec fn level_file_path_of(id: u32) -> Seq<char> {
    "../data/level/level_"@ + decimal(id as nat) + ".json"@
}

pub fn level_file_path(id: u32) -> (path: String)
    ensures
        path@ == level_file_path_of(id),
{
    let mut path = String::new();
    path.append("../data/level/level_");
    push_decimal(&mut path, id as u128);
    path.append(".json");
    path
}

/// The file of the list of levels.
pub fn level_list_file_path() -> (path: &'static str)
    ensures
        path@ == "../data/level/list.json"@,
{
    "../data/level/list.json"
}

} // verus!
