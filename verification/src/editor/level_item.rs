use vstd::prelude::*;

use crate::level::{Level, LevelNpcInfo};
use crate::list::EntryStatus;

verus! {

/// An entry of the list of enemies.
#[derive(Debug)]
pub struct NpcInfo {
    pub id: u32,
    pub name: String,
    pub status: EntryStatus,
}

/// The active entries of `list`, as enemies a level may hold.
pub open spec fn picker_items(list: Seq<NpcInfo>) -> Seq<(u32, Seq<char>)>
    decreases list.len(),
{
    if list.len() == 0 {
        Seq::empty()
    } else {
        let rest = picker_items(list.drop_last());
        if list.last().status == EntryStatus::Active {
            rest.push((list.last().id, list.last().name@))
        } else {
            rest
        }
    }
}

/// The enemies a level may hold: the active entries of the list, in order.
pub fn make_picker_items(list: Vec<NpcInfo>) -> (items: Vec<LevelNpcInfo>)
    ensures
        items@.map_values(|a: LevelNpcInfo| (a.id, a.name@)) == picker_items(list@),
{
    let mut items: Vec<LevelNpcInfo> = Vec::new();
    let mut i: usize = 0;
    while i < list.len()
        invariant
            i <= list@.len(),
            items@.map_values(|a: LevelNpcInfo| (a.id, a.name@)) == picker_items(list@.take(i as int)),
        decreases list@.len() - i,
    {
        assert(list@.take(i + 1).drop_last() =~= list@.take(i as int));
        let ghost before = items@;
        if list[i].status.is_active() {
            items.push(LevelNpcInfo { id: list[i].id, name: list[i].name.clone() });
            assert(items@.map_values(|a: LevelNpcInfo| (a.id, a.name@)) =~= before.map_values(
                |a: LevelNpcInfo| (a.id, a.name@),
            ).push((list@[i as int].id, list@[i as int].name@)));
        }
        i = i + 1;
    }
    assert(list@.take(list@.len() as int) =~= list@);
    items
}

/// A request to the level page.
#[derive(Debug, Clone)]
pub enum Message {
    ReadFile,
    WriteFile,
    ChangeName(String),
    SelectNpc(LevelNpcInfo),
    AddNpc(LevelNpcInfo),
    RemoveNpc(usize),
}

/// What the caller must do after the page handled a request.
#[derive(Debug, Clone, Copy, PartialEq, Eq, Structural)]
pub enum Request {
    /// Read the level again from its file.
    Reload,
    /// Write the level to its file and give its entry in the list of levels
    /// the level's name.
    SaveAndRename,
}

/// The page that edits level `id`.
pub struct Page {
    pub id: u32,
    pub data: Level,
    pub selected: Option<LevelNpcInfo>,
    pub available_npc_list: Vec<LevelNpcInfo>,
}

impl Page {
    /// The page for level `id` read from its file, offering the active
    /// enemies of the list.
    pub fn load_by_id(id: u32, data: Level, npc_list: Vec<NpcInfo>) -> (page: Self)
        ensures
            page.id == id,
            page.data == data,
            page.selected is None,
            page.available_npc_list@.map_values(|a: LevelNpcInfo| (a.id, a.name@)) == picker_items(
                npc_list@,
            ),
    {
        let available_npc_list = make_picker_items(npc_list);
        Page { id, data, selected: None, available_npc_list }
    }

    /// Handles a request.
    pub fn update(&mut self, message: Message) -> (request: Option<Request>)
        ensures
            final(self).id == old(self).id,
            final(self).available_npc_list == old(self).available_npc_list,
            match message {
                Message::ReadFile => {
                    &&& request == Some(Request::Reload)
                    &&& final(self).data == old(self).data
                    &&& final(self).selected == old(self).selected
                },
                Message::WriteFile => {
                    &&& request == Some(Request::SaveAndRename)
                    &&& final(self).data == old(self).data
                    &&& final(self).selected == old(self).selected
                },
                Message::ChangeName(name) => {
                    &&& request is None
                    &&& final(self).data.name == name
                    &&& final(self).data.npc_list == old(self).data.npc_list
                    &&& final(self).selected == old(self).selected
                },
                Message::SelectNpc(npc) => {
                    &&& request is None
                    &&& final(self).selected == Some(npc)
                    &&& final(self).data == old(self).data
                },
                Message::AddNpc(npc) => {
                    &&& request is None
                    &&& final(self).data.npc_list@ == old(self).data.npc_list@.push(npc)
                    &&& final(self).data.name == old(self).data.name
                    &&& final(self).selected == old(self).selected
                },
                Message::RemoveNpc(index) => {
                    &&& request is None
                    &&& final(self).data.npc_list@ == if index < old(self).data.npc_list@.len() {
                        old(self).data.npc_list@.remove(index as int)
                    } else {
                        old(self).data.npc_list@
                    }
                    &&& final(self).data.name == old(self).data.name
                    &&& final(self).selected == old(self).selected
                },
            },
    {
        match message {
            Message::ReadFile => Some(Request::Reload),
            Message::WriteFile => Some(Request::SaveAndRename),
            Message::ChangeName(value) => {
                self.data.name = value;
                None
            },
            Message::SelectNpc(npc) => {
                self.selected = Some(npc);
                None
            },
            Message::AddNpc(npc) => {
                self.data.add_npc(npc);
                None
            },
            Message::RemoveNpc(index) => {
                self.data.remove_npc(index);
                None
            },
        }
    }

    /// Takes the level read again from its file.
    pub fn reload(&mut self, data: Level)
        ensures
            final(self).data == data,
            final(self).id == old(self).id,
            final(self).selected == old(self).selected,
            final(self).available_npc_list == old(self).available_npc_list,
    {
        self.data = data;
    }
}

} // verus!
